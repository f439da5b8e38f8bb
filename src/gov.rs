use vstd::prelude::*;
use vstd::string::*;
use crate::coin::{Coin, ProtoCoin, coins_to_proto, is_proto_of};
use crate::dispatch::DispatchError;

verus! {

/// An encoded inner message together with its type identifier.
#[derive(Clone, Debug, PartialEq, Eq)]
pub struct Any {
    pub type_url: String,
    pub value: Vec<u8>,
}

/// A governance proposal submission.
#[derive(Clone, Debug, PartialEq, Eq)]
pub struct MsgSubmitProposal {
    pub content: Option<Any>,
    pub initial_deposit: Vec<ProtoCoin>,
    pub proposer: String,
}

/// The options of a governance vote.
#[derive(Clone, Copy, Debug, PartialEq, Eq)]
pub enum VoteOption {
    Unspecified,
    Yes,
    Abstain,
    No,
    NoWithVeto,
}

impl VoteOption {
    /// The option's number on the wire.
    pub fn code(&self) -> (r: i32)
        ensures
            *self == VoteOption::Unspecified ==> r == 0,
            *self == VoteOption::Yes ==> r == 1,
            *self == VoteOption::Abstain ==> r == 2,
            *self == VoteOption::No ==> r == 3,
            *self == VoteOption::NoWithVeto ==> r == 4,
    {
        match self {
            VoteOption::Unspecified => 0,
            VoteOption::Yes => 1,
            VoteOption::Abstain => 2,
            VoteOption::No => 3,
            VoteOption::NoWithVeto => 4,
        }
    }
}

/// A vote on a governance proposal.
#[derive(Clone, Debug, PartialEq, Eq)]
pub struct MsgVote {
    pub proposal_id: u64,
    pub voter: String,
    pub option: VoteOption,
}

/// A span of chain time.
#[derive(Clone, Copy, Debug, PartialEq, Eq)]
pub struct Duration {
    pub seconds: i64,
    pub nanos: i32,
}

/// Deposit parameters of the governance module.
#[derive(Clone, Debug, PartialEq, Eq)]
pub struct DepositParams {
    pub min_deposit: Vec<ProtoCoin>,
}

/// Voting parameters of the governance module.
#[derive(Clone, Copy, Debug, PartialEq, Eq)]
pub struct VotingParams {
    pub voting_period: Option<Duration>,
}

/// The answer to a governance parameters query: the group asked for is set.
#[derive(Clone, Debug, PartialEq, Eq)]
pub struct QueryParamsResponse {
    pub deposit_params: Option<DepositParams>,
    pub voting_params: Option<VotingParams>,
}

/// Which group of governance parameters a query asks for.
#[derive(Clone, Copy, Debug, PartialEq, Eq)]
pub enum ParamsKind {
    Deposit,
    Voting,
}

impl ParamsKind {
    /// The `params_type` field of the parameters query.
    pub fn params_type(&self) -> (r: String)
        ensures
            *self == ParamsKind::Deposit ==> r@ == "deposit"@,
            *self == ParamsKind::Voting ==> r@ == "voting"@,
    {
        match self {
            ParamsKind::Deposit => String::from_str("deposit"),
            ParamsKind::Voting => String::from_str("voting"),
        }
    }
}

/// The submission that carries the inner message `value` under `type_url`.
pub open spec fn proposal_of(
    type_url: String,
    value: Vec<u8>,
    initial_deposit: Vec<ProtoCoin>,
    proposer: String,
) -> MsgSubmitProposal {
    MsgSubmitProposal { content: Some(Any { type_url, value }), initial_deposit, proposer }
}

/// Builds a proposal submission from the outcome of encoding its inner
/// message: an encoding failure is reported as such, else the encoded bytes
/// are wrapped under `msg_type_url` with the deposit and proposer as given.
pub fn executable_proposal(
    msg_type_url: String,
    encoded_msg: Result<Vec<u8>, String>,
    initial_deposit: Vec<ProtoCoin>,
    proposer: String,
) -> (r: Result<MsgSubmitProposal, DispatchError>)
    ensures
        match encoded_msg {
            Ok(value) => r == Ok::<MsgSubmitProposal, DispatchError>(
                proposal_of(msg_type_url, value, initial_deposit, proposer),
            ),
            Err(e) => r == Err::<MsgSubmitProposal, DispatchError>(DispatchError::Encode(e)),
        },
{
    match encoded_msg {
        Ok(value) => Ok(
            MsgSubmitProposal {
                content: Some(Any { type_url: msg_type_url, value }),
                initial_deposit,
                proposer,
            },
        ),
        Err(e) => Err(DispatchError::Encode(e)),
    }
}

/// Builds a proposal submission whose deposit is given as contract coins:
/// each coin is written in its wire form, in order.
pub fn executable_proposal_with_coins(
    msg_type_url: String,
    encoded_msg: Result<Vec<u8>, String>,
    initial_deposit: &Vec<Coin>,
    proposer: String,
) -> (r: Result<MsgSubmitProposal, DispatchError>)
    ensures
        encoded_msg is Err ==> r == Err::<MsgSubmitProposal, DispatchError>(
            DispatchError::Encode(encoded_msg->Err_0),
        ),
        encoded_msg is Ok ==> {
            &&& r is Ok
            &&& r->Ok_0.content == Some(Any { type_url: msg_type_url, value: encoded_msg->Ok_0 })
            &&& r->Ok_0.proposer == proposer
            &&& r->Ok_0.initial_deposit@.len() == initial_deposit@.len()
            &&& forall|i: int|
                0 <= i < initial_deposit@.len() ==> is_proto_of(
                    #[trigger] r->Ok_0.initial_deposit@[i],
                    initial_deposit@[i],
                )
        },
{
    match encoded_msg {
        Ok(value) => {
            let deposit = coins_to_proto(initial_deposit);
            executable_proposal(msg_type_url, Ok(value), deposit, proposer)
        },
        Err(e) => Err(DispatchError::Encode(e)),
    }
}

} // verus!

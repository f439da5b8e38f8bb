use vstd::prelude::*;
use crate::dispatch::{DispatchError, PreconditionFailure};
use crate::gov::{
    executable_proposal, proposal_of, MsgSubmitProposal, MsgVote, ParamsKind,
    QueryParamsResponse, VoteOption,
};

verus! {

/// Where a governance proposal stands while it is driven from submission to
/// the close of its voting period. Each stage holds what the later steps need.
#[derive(Debug, PartialEq, Eq)]
pub enum ProposalLifecycle {
    /// The deposit parameters were asked for; the proposal waits to be sent.
    AwaitingDepositParams {
        msg_type_url: String,
        encoded_msg: Result<Vec<u8>, String>,
        proposer: String,
    },
    /// The proposal was sent.
    AwaitingSubmission,
    /// The proposal was accepted; a voting account was asked for.
    AwaitingVoter { proposal_id: u64 },
    /// The vote was sent.
    AwaitingVote { proposal_id: u64 },
    /// The voting parameters were asked for.
    AwaitingVotingParams { proposal_id: u64 },
    /// Chain time was asked to move past the voting period.
    AwaitingTimeAdvance { proposal_id: u64 },
    /// The lifecycle ended; nothing more is asked.
    Finished,
}

/// What the driver reports back after carrying out an action.
#[derive(Debug, PartialEq, Eq)]
pub enum LifecycleEvent {
    /// The answer to a parameters query.
    ParamsReceived(Result<QueryParamsResponse, DispatchError>),
    /// The answer to the submission: the identifier the chain assigned.
    Submitted(Result<u64, DispatchError>),
    /// The address of a signing account with voting weight.
    VoterObtained(Result<String, DispatchError>),
    /// The answer to the vote.
    Voted(Result<(), DispatchError>),
    /// Chain time moved forward.
    TimeAdvanced,
}

/// What the driver is asked to do next.
#[derive(Debug, PartialEq, Eq)]
pub enum LifecycleAction {
    /// Query the governance parameters of this group.
    QueryParams(ParamsKind),
    /// Execute this submission, signed by the proposer's account.
    SubmitProposal(MsgSubmitProposal),
    /// Obtain a signing account with voting weight (the first validator).
    ObtainVoter,
    /// Execute this vote, signed by the account just obtained.
    Vote(MsgVote),
    /// Advance chain time by this many seconds.
    AdvanceTime(u64),
    /// Stop: with the proposal's identifier (the submission's answer is the
    /// result) or with the first error met.
    Finish(Result<u64, DispatchError>),
}

/// Ends the lifecycle with an error.
pub open spec fn failed(e: DispatchError) -> (ProposalLifecycle, LifecycleAction) {
    (ProposalLifecycle::Finished, LifecycleAction::Finish(Err(e)))
}

/// The next stage and action of the lifecycle in `s` on the event `e`. Every
/// step's error ends the lifecycle at once and is passed on unchanged; an
/// event that does not answer the pending action ends it too.
pub open spec fn transition(s: ProposalLifecycle, e: LifecycleEvent) -> (
    ProposalLifecycle,
    LifecycleAction,
) {
    match (s, e) {
        (
            ProposalLifecycle::AwaitingDepositParams { msg_type_url, encoded_msg, proposer },
            LifecycleEvent::ParamsReceived(answer),
        ) => match answer {
            Err(x) => failed(x),
            Ok(p) => match p.deposit_params {
                None => failed(DispatchError::Precondition(PreconditionFailure::DepositParamsAbsent)),
                Some(dp) => match encoded_msg {
                    Err(x) => failed(DispatchError::Encode(x)),
                    Ok(value) => (
                        ProposalLifecycle::AwaitingSubmission,
                        LifecycleAction::SubmitProposal(
                            proposal_of(msg_type_url, value, dp.min_deposit, proposer),
                        ),
                    ),
                },
            },
        },
        (ProposalLifecycle::AwaitingSubmission, LifecycleEvent::Submitted(answer)) => match answer {
            Err(x) => failed(x),
            Ok(proposal_id) => (
                ProposalLifecycle::AwaitingVoter { proposal_id },
                LifecycleAction::ObtainVoter,
            ),
        },
        (ProposalLifecycle::AwaitingVoter { proposal_id }, LifecycleEvent::VoterObtained(answer)) => {
            match answer {
                Err(x) => failed(x),
                Ok(voter) => (
                    ProposalLifecycle::AwaitingVote { proposal_id },
                    LifecycleAction::Vote(MsgVote { proposal_id, voter, option: VoteOption::Yes }),
                ),
            }
        },
        (ProposalLifecycle::AwaitingVote { proposal_id }, LifecycleEvent::Voted(answer)) => {
            match answer {
                Err(x) => failed(x),
                Ok(_) => (
                    ProposalLifecycle::AwaitingVotingParams { proposal_id },
                    LifecycleAction::QueryParams(ParamsKind::Voting),
                ),
            }
        },
        (
            ProposalLifecycle::AwaitingVotingParams { proposal_id },
            LifecycleEvent::ParamsReceived(answer),
        ) => match answer {
            Err(x) => failed(x),
            Ok(p) => match p.voting_params {
                None => failed(DispatchError::Precondition(PreconditionFailure::VotingParamsAbsent)),
                Some(vp) => match vp.voting_period {
                    None => failed(
                        DispatchError::Precondition(PreconditionFailure::VotingPeriodAbsent),
                    ),
                    Some(d) => if d.seconds < 0 {
                        failed(DispatchError::Precondition(PreconditionFailure::NegativeVotingPeriod))
                    } else {
                        (
                            ProposalLifecycle::AwaitingTimeAdvance { proposal_id },
                            LifecycleAction::AdvanceTime((d.seconds + 1) as u64),
                        )
                    },
                },
            },
        },
        (ProposalLifecycle::AwaitingTimeAdvance { proposal_id }, LifecycleEvent::TimeAdvanced) => (
            ProposalLifecycle::Finished,
            LifecycleAction::Finish(Ok(proposal_id)),
        ),
        _ => failed(DispatchError::Precondition(PreconditionFailure::EventOutOfOrder)),
    }
}

/// The actions that the lifecycle in `s` asks for on `events`, one per event.
pub open spec fn run_actions(s: ProposalLifecycle, events: Seq<LifecycleEvent>) -> Seq<
    LifecycleAction,
>
    decreases events.len(),
{
    if events.len() == 0 {
        Seq::empty()
    } else {
        let (next, a) = transition(s, events[0]);
        seq![a] + run_actions(next, events.drop_first())
    }
}

/// How many of `actions` are votes.
pub open spec fn vote_count(actions: Seq<LifecycleAction>) -> nat
    decreases actions.len(),
{
    if actions.len() == 0 {
        0
    } else {
        (if actions[0] is Vote {
            1nat
        } else {
            0nat
        }) + vote_count(actions.drop_first())
    }
}

/// How far the lifecycle has come; no step goes back.
pub open spec fn progress(s: ProposalLifecycle) -> nat {
    match s {
        ProposalLifecycle::AwaitingDepositParams { .. } => 0,
        ProposalLifecycle::AwaitingSubmission => 1,
        ProposalLifecycle::AwaitingVoter { .. } => 2,
        ProposalLifecycle::AwaitingVote { .. } => 3,
        ProposalLifecycle::AwaitingVotingParams { .. } => 4,
        ProposalLifecycle::AwaitingTimeAdvance { .. } => 5,
        ProposalLifecycle::Finished => 6,
    }
}

proof fn lemma_run_unfold(s: ProposalLifecycle, events: Seq<LifecycleEvent>)
    requires
        events.len() > 0,
    ensures
        run_actions(s, events).len() == events.len(),
        run_actions(s, events)[0] == transition(s, events[0]).1,
        run_actions(s, events).drop_first() == run_actions(
            transition(s, events[0]).0,
            events.drop_first(),
        ),
    decreases events.len(),
{
    let (next, a) = transition(s, events[0]);
    if events.len() > 1 {
        lemma_run_unfold(next, events.drop_first());
    }
    assert(run_actions(s, events).drop_first() =~= run_actions(next, events.drop_first()));
}

proof fn lemma_votes_in_run(s: ProposalLifecycle, events: Seq<LifecycleEvent>)
    ensures
        vote_count(run_actions(s, events)) <= (if progress(s) <= 2 {
            1nat
        } else {
            0nat
        }),
        forall|i: int|
            #![trigger run_actions(s, events)[i]]
            0 <= i < run_actions(s, events).len() && run_actions(s, events)[i] is Vote ==> {
                let v = run_actions(s, events)[i]->Vote_0;
                &&& v.option == VoteOption::Yes
                &&& progress(s) <= 2
                &&& (s matches ProposalLifecycle::AwaitingVoter { proposal_id } ==> v.proposal_id
                    == proposal_id)
                &&& (progress(s) <= 1 ==> exists|j: int|
                    0 <= j < i && #[trigger] events[j] == LifecycleEvent::Submitted(
                        Ok(v.proposal_id),
                    ))
            },
    decreases events.len(),
{
    if events.len() > 0 {
        let (next, a) = transition(s, events[0]);
        let rest = events.drop_first();
        lemma_votes_in_run(next, rest);
        lemma_run_unfold(s, events);
        let acts = run_actions(s, events);
        assert(progress(next) >= progress(s));
        assert(a is Vote ==> s is AwaitingVoter && progress(next) == 3);
        assert(progress(next) == 2 ==> s is AwaitingSubmission && events[0]
            == LifecycleEvent::Submitted(Ok(next->AwaitingVoter_proposal_id)));
        assert forall|i: int|
            #![trigger acts[i]]
            0 <= i < acts.len() && acts[i] is Vote implies {
                let v = acts[i]->Vote_0;
                &&& v.option == VoteOption::Yes
                &&& progress(s) <= 2
                &&& (s matches ProposalLifecycle::AwaitingVoter { proposal_id } ==> v.proposal_id
                    == proposal_id)
                &&& (progress(s) <= 1 ==> exists|j: int|
                    0 <= j < i && #[trigger] events[j] == LifecycleEvent::Submitted(
                        Ok(v.proposal_id),
                    ))
            } by {
            if i > 0 {
                assert(acts[i] == run_actions(next, rest)[i - 1]);
                let v = acts[i]->Vote_0;
                if progress(s) <= 1 {
                    if progress(next) <= 1 {
                        let j = choose|j: int|
                            0 <= j < i - 1 && #[trigger] rest[j] == LifecycleEvent::Submitted(
                                Ok(v.proposal_id),
                            );
                        assert(events[j + 1] == rest[j]);
                    } else {
                        assert(events[0] == LifecycleEvent::Submitted(Ok(v.proposal_id)));
                    }
                }
            }
        }
    }
}

/// A proposal is voted on at most once in its lifecycle, whatever the driver
/// reports; every vote is a Yes and names the identifier that an earlier
/// successful submission returned.
pub proof fn lemma_single_yes_vote(
    msg_type_url: String,
    encoded_msg: Result<Vec<u8>, String>,
    proposer: String,
    events: Seq<LifecycleEvent>,
)
    ensures
        ({
            let acts = run_actions(
                ProposalLifecycle::AwaitingDepositParams { msg_type_url, encoded_msg, proposer },
                events,
            );
            &&& vote_count(acts) <= 1
            &&& forall|i: int|
                0 <= i < acts.len() && #[trigger] acts[i] is Vote ==> acts[i]->Vote_0.option
                    == VoteOption::Yes && exists|j: int|
                    0 <= j < i && #[trigger] events[j] == LifecycleEvent::Submitted(
                        Ok(acts[i]->Vote_0.proposal_id),
                    )
        }),
{
    let s = ProposalLifecycle::AwaitingDepositParams { msg_type_url, encoded_msg, proposer };
    lemma_votes_in_run(s, events);
    let acts = run_actions(s, events);
    assert forall|i: int| 0 <= i < acts.len() && #[trigger] acts[i] is Vote implies acts[i]->Vote_0.option
        == VoteOption::Yes && exists|j: int|
        0 <= j < i && #[trigger] events[j] == LifecycleEvent::Submitted(
            Ok(acts[i]->Vote_0.proposal_id),
        ) by {
        assert(acts[i] == run_actions(s, events)[i]);
    }
}

proof fn lemma_successful_step(
    st: ProposalLifecycle,
    next: ProposalLifecycle,
    events: Seq<LifecycleEvent>,
    expected: Seq<LifecycleAction>,
    k: int,
)
    requires
        0 <= k < events.len(),
        expected.len() == events.len(),
        transition(st, events[k]) == (next, expected[k]),
        run_actions(next, events.subrange(k + 1, events.len() as int)) == expected.subrange(
            k + 1,
            expected.len() as int,
        ),
    ensures
        run_actions(st, events.subrange(k, events.len() as int)) == expected.subrange(
            k,
            expected.len() as int,
        ),
{
    let rest = events.subrange(k, events.len() as int);
    lemma_run_unfold(st, rest);
    assert(rest.drop_first() =~= events.subrange(k + 1, events.len() as int));
    assert(run_actions(st, rest) =~= expected.subrange(k, expected.len() as int));
}

/// When every step succeeds, the lifecycle submits the proposal with exactly
/// the queried minimum deposit, votes Yes once on the identifier that the
/// submission returned, asks for the voting parameters, advances time by the
/// voting period plus one second and finishes with that identifier.
pub proof fn lemma_successful_lifecycle(
    msg_type_url: String,
    value: Vec<u8>,
    proposer: String,
    deposit: QueryParamsResponse,
    proposal_id: u64,
    voter: String,
    voting: QueryParamsResponse,
)
    requires
        deposit.deposit_params is Some,
        voting.voting_params matches Some(vp) && vp.voting_period matches Some(d) && d.seconds
            >= 0,
    ensures
        ({
            let s = ProposalLifecycle::AwaitingDepositParams {
                msg_type_url,
                encoded_msg: Ok(value),
                proposer,
            };
            let events = seq![
                LifecycleEvent::ParamsReceived(Ok(deposit)),
                LifecycleEvent::Submitted(Ok(proposal_id)),
                LifecycleEvent::VoterObtained(Ok(voter)),
                LifecycleEvent::Voted(Ok(())),
                LifecycleEvent::ParamsReceived(Ok(voting)),
                LifecycleEvent::TimeAdvanced,
            ];
            let seconds = voting.voting_params->Some_0.voting_period->Some_0.seconds;
            &&& run_actions(s, events) == seq![
                LifecycleAction::SubmitProposal(
                    proposal_of(msg_type_url, value, deposit.deposit_params->Some_0.min_deposit, proposer),
                ),
                LifecycleAction::ObtainVoter,
                LifecycleAction::Vote(MsgVote { proposal_id, voter, option: VoteOption::Yes }),
                LifecycleAction::QueryParams(ParamsKind::Voting),
                LifecycleAction::AdvanceTime((seconds + 1) as u64),
                LifecycleAction::Finish(Ok(proposal_id)),
            ]
            &&& vote_count(run_actions(s, events)) == 1
        }),
{
    let s = ProposalLifecycle::AwaitingDepositParams {
        msg_type_url,
        encoded_msg: Ok(value),
        proposer,
    };
    let events = seq![
        LifecycleEvent::ParamsReceived(Ok(deposit)),
        LifecycleEvent::Submitted(Ok(proposal_id)),
        LifecycleEvent::VoterObtained(Ok(voter)),
        LifecycleEvent::Voted(Ok(())),
        LifecycleEvent::ParamsReceived(Ok(voting)),
        LifecycleEvent::TimeAdvanced,
    ];
    let seconds = voting.voting_params->Some_0.voting_period->Some_0.seconds;
    let expected = seq![
        LifecycleAction::SubmitProposal(
            proposal_of(msg_type_url, value, deposit.deposit_params->Some_0.min_deposit, proposer),
        ),
        LifecycleAction::ObtainVoter,
        LifecycleAction::Vote(MsgVote { proposal_id, voter, option: VoteOption::Yes }),
        LifecycleAction::QueryParams(ParamsKind::Voting),
        LifecycleAction::AdvanceTime((seconds + 1) as u64),
        LifecycleAction::Finish(Ok(proposal_id)),
    ];
    let states = seq![
        s,
        ProposalLifecycle::AwaitingSubmission,
        ProposalLifecycle::AwaitingVoter { proposal_id },
        ProposalLifecycle::AwaitingVote { proposal_id },
        ProposalLifecycle::AwaitingVotingParams { proposal_id },
        ProposalLifecycle::AwaitingTimeAdvance { proposal_id },
        ProposalLifecycle::Finished,
    ];
    assert(run_actions(states[6], events.subrange(6, 6)) =~= expected.subrange(6, 6));
    lemma_successful_step(states[5], states[6], events, expected, 5);
    lemma_successful_step(states[4], states[5], events, expected, 4);
    lemma_successful_step(states[3], states[4], events, expected, 3);
    lemma_successful_step(states[2], states[3], events, expected, 2);
    lemma_successful_step(states[1], states[2], events, expected, 1);
    lemma_successful_step(states[0], states[1], events, expected, 0);
    assert(events.subrange(0, 6) =~= events);
    assert(expected.subrange(0, 6) =~= expected);
    assert(run_actions(s, events) =~= expected);
    assert(vote_count(expected.drop_first().drop_first().drop_first()) == 0) by {
        reveal_with_fuel(vote_count, 4);
    }
    assert(vote_count(expected) == 1) by {
        reveal_with_fuel(vote_count, 4);
        assert(expected.drop_first().drop_first().drop_first() =~= seq![
            LifecycleAction::QueryParams(ParamsKind::Voting),
            LifecycleAction::AdvanceTime((seconds + 1) as u64),
            LifecycleAction::Finish(Ok(proposal_id)),
        ]);
    }
}

/// Chain time is only ever advanced right after the voting parameters came
/// back, and then by exactly one second more than the voting period.
pub proof fn lemma_time_advance_is_voting_period_plus_one(
    s: ProposalLifecycle,
    e: LifecycleEvent,
)
    ensures
        transition(s, e).1 matches LifecycleAction::AdvanceTime(n) ==> {
            &&& s is AwaitingVotingParams
            &&& e matches LifecycleEvent::ParamsReceived(Ok(p))
            &&& p.voting_params matches Some(vp)
            &&& vp.voting_period matches Some(d)
            &&& n == d.seconds + 1
        },
        s is AwaitingVotingParams ==> (e matches LifecycleEvent::ParamsReceived(Ok(p)) ==> (
        p.voting_params matches Some(vp) ==> (vp.voting_period matches Some(d) ==> (d.seconds
            >= 0 ==> transition(s, e).1 == LifecycleAction::AdvanceTime((d.seconds + 1) as u64))))),
{
}

/// Once finished, the lifecycle asks for nothing but to stop.
pub proof fn lemma_finished_is_final(events: Seq<LifecycleEvent>)
    ensures
        forall|i: int|
            0 <= i < events.len() ==> #[trigger] run_actions(ProposalLifecycle::Finished, events)[i]
                is Finish,
    decreases events.len(),
{
    if events.len() > 0 {
        lemma_run_unfold(ProposalLifecycle::Finished, events);
        lemma_finished_is_final(events.drop_first());
        let acts = run_actions(ProposalLifecycle::Finished, events);
        assert forall|i: int| 0 <= i < events.len() implies #[trigger] acts[i] is Finish by {
            if i > 0 {
                assert(acts[i] == run_actions(ProposalLifecycle::Finished, events.drop_first())[i
                    - 1]);
            }
        }
    }
}

/// When the deposit parameters are absent the lifecycle stops with a
/// precondition failure and never submits the proposal, whatever follows.
pub proof fn lemma_absent_deposit_params_stop_before_submission(
    msg_type_url: String,
    encoded_msg: Result<Vec<u8>, String>,
    proposer: String,
    answer: QueryParamsResponse,
    later: Seq<LifecycleEvent>,
)
    requires
        answer.deposit_params is None,
    ensures
        ({
            let s = ProposalLifecycle::AwaitingDepositParams { msg_type_url, encoded_msg, proposer };
            let acts = run_actions(
                s,
                seq![LifecycleEvent::ParamsReceived(Ok(answer))] + later,
            );
            &&& acts[0] == LifecycleAction::Finish(
                Err(DispatchError::Precondition(PreconditionFailure::DepositParamsAbsent)),
            )
            &&& forall|i: int| 0 <= i < acts.len() ==> !(#[trigger] acts[i] is SubmitProposal)
        }),
{
    let s = ProposalLifecycle::AwaitingDepositParams { msg_type_url, encoded_msg, proposer };
    let events = seq![LifecycleEvent::ParamsReceived(Ok(answer))] + later;
    lemma_run_unfold(s, events);
    assert(events.drop_first() =~= later);
    lemma_finished_is_final(later);
    let acts = run_actions(s, events);
    assert forall|i: int| 0 <= i < acts.len() implies !(#[trigger] acts[i] is SubmitProposal) by {
        if i > 0 {
            assert(acts[i] == run_actions(ProposalLifecycle::Finished, later)[i - 1]);
        }
    }
}

impl ProposalLifecycle {
    /// Begins the lifecycle of a proposal whose inner message was encoded (or
    /// failed to encode) as `encoded_msg`: the deposit parameters come first.
    pub fn start(msg_type_url: String, encoded_msg: Result<Vec<u8>, String>, proposer: String) -> (r: (
        ProposalLifecycle,
        LifecycleAction,
    ))
        ensures
            r == (
                ProposalLifecycle::AwaitingDepositParams { msg_type_url, encoded_msg, proposer },
                LifecycleAction::QueryParams(ParamsKind::Deposit),
            ),
    {
        (
            ProposalLifecycle::AwaitingDepositParams { msg_type_url, encoded_msg, proposer },
            LifecycleAction::QueryParams(ParamsKind::Deposit),
        )
    }

    /// Takes one step on the event `e`.
    pub fn step(self, e: LifecycleEvent) -> (r: (ProposalLifecycle, LifecycleAction))
        ensures
            r == transition(self, e),
    {
        let out_of_order = DispatchError::Precondition(PreconditionFailure::EventOutOfOrder);
        match self {
            ProposalLifecycle::AwaitingDepositParams { msg_type_url, encoded_msg, proposer } => {
                match e {
                    LifecycleEvent::ParamsReceived(Err(x)) => fail(x),
                    LifecycleEvent::ParamsReceived(Ok(p)) => match p.deposit_params {
                        None => fail(
                            DispatchError::Precondition(PreconditionFailure::DepositParamsAbsent),
                        ),
                        Some(dp) => match executable_proposal(
                            msg_type_url,
                            encoded_msg,
                            dp.min_deposit,
                            proposer,
                        ) {
                            Err(x) => fail(x),
                            Ok(msg) => (
                                ProposalLifecycle::AwaitingSubmission,
                                LifecycleAction::SubmitProposal(msg),
                            ),
                        },
                    },
                    _ => fail(out_of_order),
                }
            },
            ProposalLifecycle::AwaitingSubmission => match e {
                LifecycleEvent::Submitted(Err(x)) => fail(x),
                LifecycleEvent::Submitted(Ok(proposal_id)) => (
                    ProposalLifecycle::AwaitingVoter { proposal_id },
                    LifecycleAction::ObtainVoter,
                ),
                _ => fail(out_of_order),
            },
            ProposalLifecycle::AwaitingVoter { proposal_id } => match e {
                LifecycleEvent::VoterObtained(Err(x)) => fail(x),
                LifecycleEvent::VoterObtained(Ok(voter)) => (
                    ProposalLifecycle::AwaitingVote { proposal_id },
                    LifecycleAction::Vote(MsgVote { proposal_id, voter, option: VoteOption::Yes }),
                ),
                _ => fail(out_of_order),
            },
            ProposalLifecycle::AwaitingVote { proposal_id } => match e {
                LifecycleEvent::Voted(Err(x)) => fail(x),
                LifecycleEvent::Voted(Ok(_)) => (
                    ProposalLifecycle::AwaitingVotingParams { proposal_id },
                    LifecycleAction::QueryParams(ParamsKind::Voting),
                ),
                _ => fail(out_of_order),
            },
            ProposalLifecycle::AwaitingVotingParams { proposal_id } => match e {
                LifecycleEvent::ParamsReceived(Err(x)) => fail(x),
                LifecycleEvent::ParamsReceived(Ok(p)) => match p.voting_params {
                    None => fail(DispatchError::Precondition(PreconditionFailure::VotingParamsAbsent)),
                    Some(vp) => match vp.voting_period {
                        None => fail(
                            DispatchError::Precondition(PreconditionFailure::VotingPeriodAbsent),
                        ),
                        Some(d) => if d.seconds < 0 {
                            fail(
                                DispatchError::Precondition(
                                    PreconditionFailure::NegativeVotingPeriod,
                                ),
                            )
                        } else {
                            (
                                ProposalLifecycle::AwaitingTimeAdvance { proposal_id },
                                LifecycleAction::AdvanceTime(d.seconds as u64 + 1),
                            )
                        },
                    },
                },
                _ => fail(out_of_order),
            },
            ProposalLifecycle::AwaitingTimeAdvance { proposal_id } => match e {
                LifecycleEvent::TimeAdvanced => (
                    ProposalLifecycle::Finished,
                    LifecycleAction::Finish(Ok(proposal_id)),
                ),
                _ => fail(out_of_order),
            },
            ProposalLifecycle::Finished => fail(out_of_order),
        }
    }
}

fn fail(e: DispatchError) -> (r: (ProposalLifecycle, LifecycleAction))
    ensures
        r == failed(e),
{
    (ProposalLifecycle::Finished, LifecycleAction::Finish(Err(e)))
}

} // verus!

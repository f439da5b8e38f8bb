use neutron_test_tube::coin::{Coin, ProtoCoin};
use neutron_test_tube::dispatch::{DispatchError, PreconditionFailure};
use neutron_test_tube::gov::{
    executable_proposal, executable_proposal_with_coins, Any, DepositParams, Duration,
    MsgSubmitProposal, MsgVote, ParamsKind, QueryParamsResponse, VoteOption, VotingParams,
};
use neutron_test_tube::lifecycle::{LifecycleAction, LifecycleEvent, ProposalLifecycle};

fn min_deposit() -> Vec<ProtoCoin> {
    vec![ProtoCoin { denom: "untrn".to_string(), amount: "1000".to_string() }]
}

fn deposit_answer() -> LifecycleEvent {
    LifecycleEvent::ParamsReceived(Ok(QueryParamsResponse {
        deposit_params: Some(DepositParams { min_deposit: min_deposit() }),
        voting_params: None,
    }))
}

fn voting_answer(seconds: i64) -> LifecycleEvent {
    LifecycleEvent::ParamsReceived(Ok(QueryParamsResponse {
        deposit_params: None,
        voting_params: Some(VotingParams {
            voting_period: Some(Duration { seconds, nanos: 0 }),
        }),
    }))
}

fn started() -> ProposalLifecycle {
    let (s, a) = ProposalLifecycle::start(
        "/neutron.cron.MsgAddSchedule".to_string(),
        Ok(vec![10, 4, 116, 105, 99, 107]),
        "neutron1proposer".to_string(),
    );
    assert_eq!(a, LifecycleAction::QueryParams(ParamsKind::Deposit));
    s
}

fn at_voting_params(proposal_id: u64) -> ProposalLifecycle {
    let (s, _) = started().step(deposit_answer());
    let (s, _) = s.step(LifecycleEvent::Submitted(Ok(proposal_id)));
    let (s, _) = s.step(LifecycleEvent::VoterObtained(Ok("neutron1validator".to_string())));
    let (s, a) = s.step(LifecycleEvent::Voted(Ok(())));
    assert_eq!(a, LifecycleAction::QueryParams(ParamsKind::Voting));
    s
}

#[test]
fn full_lifecycle_submits_votes_and_advances() {
    let (s, a) = started().step(deposit_answer());
    assert_eq!(
        a,
        LifecycleAction::SubmitProposal(MsgSubmitProposal {
            content: Some(Any {
                type_url: "/neutron.cron.MsgAddSchedule".to_string(),
                value: vec![10, 4, 116, 105, 99, 107],
            }),
            initial_deposit: min_deposit(),
            proposer: "neutron1proposer".to_string(),
        })
    );
    let (s, a) = s.step(LifecycleEvent::Submitted(Ok(7)));
    assert_eq!(a, LifecycleAction::ObtainVoter);
    let (s, a) = s.step(LifecycleEvent::VoterObtained(Ok("neutron1validator".to_string())));
    assert_eq!(
        a,
        LifecycleAction::Vote(MsgVote {
            proposal_id: 7,
            voter: "neutron1validator".to_string(),
            option: VoteOption::Yes,
        })
    );
    let (s, a) = s.step(LifecycleEvent::Voted(Ok(())));
    assert_eq!(a, LifecycleAction::QueryParams(ParamsKind::Voting));
    let (s, a) = s.step(voting_answer(1_209_600));
    assert_eq!(a, LifecycleAction::AdvanceTime(1_209_601));
    let (s, a) = s.step(LifecycleEvent::TimeAdvanced);
    assert_eq!(a, LifecycleAction::Finish(Ok(7)));
    assert_eq!(s, ProposalLifecycle::Finished);
}

#[test]
fn time_advances_one_past_voting_period() {
    let (_, a) = at_voting_params(3).step(voting_answer(100));
    assert_eq!(a, LifecycleAction::AdvanceTime(101));
}

#[test]
fn zero_voting_period_advances_one_second() {
    let (_, a) = at_voting_params(3).step(voting_answer(0));
    assert_eq!(a, LifecycleAction::AdvanceTime(1));
}

#[test]
fn largest_voting_period_advances_without_overflow() {
    let (_, a) = at_voting_params(3).step(voting_answer(i64::MAX));
    assert_eq!(a, LifecycleAction::AdvanceTime(i64::MAX as u64 + 1));
}

#[test]
fn vote_names_submitted_proposal_once() {
    let (s, _) = started().step(deposit_answer());
    let (s, _) = s.step(LifecycleEvent::Submitted(Ok(42)));
    let (s, a) = s.step(LifecycleEvent::VoterObtained(Ok("neutron1val".to_string())));
    match a {
        LifecycleAction::Vote(v) => {
            assert_eq!(v.proposal_id, 42);
            assert_eq!(v.option, VoteOption::Yes);
        }
        other => panic!("expected a vote, got {:?}", other),
    }
    let (_, a) = s.step(LifecycleEvent::VoterObtained(Ok("neutron1val".to_string())));
    assert_eq!(
        a,
        LifecycleAction::Finish(Err(DispatchError::Precondition(
            PreconditionFailure::EventOutOfOrder
        )))
    );
}

#[test]
fn absent_deposit_params_stop_before_submission() {
    let (s, a) = started().step(LifecycleEvent::ParamsReceived(Ok(QueryParamsResponse {
        deposit_params: None,
        voting_params: None,
    })));
    assert_eq!(
        a,
        LifecycleAction::Finish(Err(DispatchError::Precondition(
            PreconditionFailure::DepositParamsAbsent
        )))
    );
    assert_eq!(s, ProposalLifecycle::Finished);
}

#[test]
fn absent_voting_params_fail() {
    let (_, a) = at_voting_params(1).step(LifecycleEvent::ParamsReceived(Ok(QueryParamsResponse {
        deposit_params: None,
        voting_params: None,
    })));
    assert_eq!(
        a,
        LifecycleAction::Finish(Err(DispatchError::Precondition(
            PreconditionFailure::VotingParamsAbsent
        )))
    );
    let (_, a) = at_voting_params(1).step(LifecycleEvent::ParamsReceived(Ok(QueryParamsResponse {
        deposit_params: None,
        voting_params: Some(VotingParams { voting_period: None }),
    })));
    assert_eq!(
        a,
        LifecycleAction::Finish(Err(DispatchError::Precondition(
            PreconditionFailure::VotingPeriodAbsent
        )))
    );
}

#[test]
fn negative_voting_period_fails() {
    let (_, a) = at_voting_params(1).step(voting_answer(-1));
    assert_eq!(
        a,
        LifecycleAction::Finish(Err(DispatchError::Precondition(
            PreconditionFailure::NegativeVotingPeriod
        )))
    );
}

#[test]
fn encode_failure_reported_after_deposit_params() {
    let (s, _) = ProposalLifecycle::start(
        "/neutron.cron.MsgAddSchedule".to_string(),
        Err("buffer too small".to_string()),
        "neutron1proposer".to_string(),
    );
    let (_, a) = s.step(deposit_answer());
    assert_eq!(
        a,
        LifecycleAction::Finish(Err(DispatchError::Encode("buffer too small".to_string())))
    );
}

#[test]
fn step_errors_propagate_unchanged() {
    let query_failure = DispatchError::Execution("query error: not found".to_string());
    let (_, a) = started().step(LifecycleEvent::ParamsReceived(Err(query_failure.clone())));
    assert_eq!(a, LifecycleAction::Finish(Err(query_failure)));

    let (s, _) = started().step(deposit_answer());
    let submit_failure = DispatchError::Execution("insufficient deposit".to_string());
    let (s, a) = s.step(LifecycleEvent::Submitted(Err(submit_failure.clone())));
    assert_eq!(a, LifecycleAction::Finish(Err(submit_failure)));
    assert_eq!(s, ProposalLifecycle::Finished);

    let (s, _) = started().step(deposit_answer());
    let (s, _) = s.step(LifecycleEvent::Submitted(Ok(5)));
    let (s, _) = s.step(LifecycleEvent::VoterObtained(Ok("neutron1val".to_string())));
    let vote_failure = DispatchError::Decode("invalid protobuf".to_string());
    let (_, a) = s.step(LifecycleEvent::Voted(Err(vote_failure.clone())));
    assert_eq!(a, LifecycleAction::Finish(Err(vote_failure)));
}

#[test]
fn finished_lifecycle_asks_nothing_more() {
    let (_, a) = ProposalLifecycle::Finished.step(LifecycleEvent::TimeAdvanced);
    assert_eq!(
        a,
        LifecycleAction::Finish(Err(DispatchError::Precondition(
            PreconditionFailure::EventOutOfOrder
        )))
    );
}

#[test]
fn executable_proposal_wraps_encoded_message() {
    let r = executable_proposal(
        "/osmosis.tokenfactory.v1beta1.MsgCreateDenom".to_string(),
        Ok(vec![1, 2]),
        min_deposit(),
        "neutron1p".to_string(),
    );
    assert_eq!(
        r,
        Ok(MsgSubmitProposal {
            content: Some(Any {
                type_url: "/osmosis.tokenfactory.v1beta1.MsgCreateDenom".to_string(),
                value: vec![1, 2],
            }),
            initial_deposit: min_deposit(),
            proposer: "neutron1p".to_string(),
        })
    );
}

#[test]
fn executable_proposal_reports_encode_error() {
    let r = executable_proposal(
        "/x.Msg".to_string(),
        Err("encode failed".to_string()),
        min_deposit(),
        "neutron1p".to_string(),
    );
    assert_eq!(r, Err(DispatchError::Encode("encode failed".to_string())));
}

#[test]
fn executable_proposal_writes_coin_amounts() {
    let r = executable_proposal_with_coins(
        "/x.Msg".to_string(),
        Ok(vec![9]),
        &vec![Coin { denom: "untrn".to_string(), amount: 2_000_000_000_000 }],
        "neutron1p".to_string(),
    )
    .unwrap();
    assert_eq!(
        r.initial_deposit,
        vec![ProtoCoin { denom: "untrn".to_string(), amount: "2000000000000".to_string() }]
    );
}

#[test]
fn params_kinds_and_vote_codes() {
    assert_eq!(ParamsKind::Deposit.params_type(), "deposit");
    assert_eq!(ParamsKind::Voting.params_type(), "voting");
    assert_eq!(VoteOption::Unspecified.code(), 0);
    assert_eq!(VoteOption::Yes.code(), 1);
    assert_eq!(VoteOption::NoWithVeto.code(), 4);
}

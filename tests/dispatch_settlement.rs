use neutron_test_tube::dispatch::{
    settle_execute, settle_query, DispatchError, ExecuteOutcome, ExecutionStatus,
    ExecutorResponse, GasInfo,
};

fn gas() -> GasInfo {
    GasInfo { gas_wanted: 200_000, gas_used: 81_234 }
}

fn response(status: ExecutionStatus, payload: Option<Vec<u8>>) -> ExecutorResponse {
    ExecutorResponse { status, payload, gas: gas() }
}

fn decode_len(b: Vec<u8>) -> Result<usize, String> {
    if b.first() == Some(&0xff) {
        Err("invalid wire type".to_string())
    } else {
        Ok(b.len())
    }
}

#[test]
fn query_success_returns_decoded_value() {
    let r = settle_query(response(ExecutionStatus::Success, Some(vec![1, 2, 3])), decode_len);
    assert_eq!(r, Ok(3));
}

#[test]
fn query_round_trips_payload() {
    let payload = vec![10, 3, 117, 115, 100];
    let r = settle_query(response(ExecutionStatus::Success, Some(payload.clone())), |b| {
        Ok::<Vec<u8>, String>(b)
    });
    assert_eq!(r, Ok(payload));
}

#[test]
fn query_absent_payload_decodes_empty_bytes() {
    let r = settle_query(response(ExecutionStatus::Success, None), decode_len);
    assert_eq!(r, Ok(0));
}

#[test]
fn query_failure_does_not_decode() {
    let r = settle_query(
        response(ExecutionStatus::Failure("account not found".to_string()), Some(vec![1])),
        |_b: Vec<u8>| -> Result<usize, String> { panic!("decoder called on a failure") },
    );
    assert_eq!(r, Err(DispatchError::Execution("account not found".to_string())));
}

#[test]
fn query_decode_failure_is_reported_as_decode() {
    let r = settle_query(response(ExecutionStatus::Success, Some(vec![0xff])), decode_len);
    assert_eq!(r, Err(DispatchError::Decode("invalid wire type".to_string())));
}

#[test]
fn repeated_query_gives_same_result() {
    let first = settle_query(response(ExecutionStatus::Success, Some(vec![4, 5])), decode_len);
    let second = settle_query(response(ExecutionStatus::Success, Some(vec![4, 5])), decode_len);
    assert_eq!(first, second);
}

#[test]
fn execute_success_keeps_raw_data_and_gas() {
    let r = settle_execute(response(ExecutionStatus::Success, Some(vec![8, 1])), decode_len);
    assert_eq!(r, Ok(ExecuteOutcome { data: 2, raw_data: vec![8, 1], gas: gas() }));
}

#[test]
fn execute_failure_carries_detail_only() {
    let r = settle_execute(
        response(ExecutionStatus::Failure("insufficient funds".to_string()), Some(vec![8])),
        |_b: Vec<u8>| -> Result<usize, String> { panic!("decoder called on a failure") },
    );
    assert_eq!(r, Err(DispatchError::Execution("insufficient funds".to_string())));
}

#[test]
fn execute_decode_failure_only_after_success() {
    let r = settle_execute(response(ExecutionStatus::Success, Some(vec![0xff, 1])), decode_len);
    assert_eq!(r, Err(DispatchError::Decode("invalid wire type".to_string())));
}

use vstd::prelude::*;

verus! {

/// A field that the executor is expected to always define, found absent or
/// out of range, or an answer handed over at the wrong point of a protocol.
#[derive(Clone, Copy, Debug, PartialEq, Eq)]
pub enum PreconditionFailure {
    DepositParamsAbsent,
    VotingParamsAbsent,
    VotingPeriodAbsent,
    NegativeVotingPeriod,
    EventOutOfOrder,
}

/// Why a dispatch failed.
#[derive(Clone, Debug, PartialEq, Eq)]
pub enum DispatchError {
    /// A payload could not be serialised before dispatch.
    Encode(String),
    /// The executor rejected the call; its detail is passed on unchanged.
    Execution(String),
    /// The executor succeeded, but its payload is not the expected response.
    Decode(String),
    /// An expected-always-present field was absent.
    Precondition(PreconditionFailure),
}

/// How the executor judged a call.
#[derive(Clone, Debug, PartialEq, Eq)]
pub enum ExecutionStatus {
    Success,
    Failure(String),
}

/// Resource usage that the executor reports beside an execute call.
#[derive(Clone, Copy, Debug, PartialEq, Eq)]
pub struct GasInfo {
    pub gas_wanted: u64,
    pub gas_used: u64,
}

/// The executor's answer to one call.
#[derive(Clone, Debug, PartialEq, Eq)]
pub struct ExecutorResponse {
    pub status: ExecutionStatus,
    pub payload: Option<Vec<u8>>,
    pub gas: GasInfo,
}

/// A decoded execute response together with what the executor reported raw.
#[derive(Clone, Debug, PartialEq, Eq)]
pub struct ExecuteOutcome<T> {
    pub data: T,
    pub raw_data: Vec<u8>,
    pub gas: GasInfo,
}

/// The bytes handed to the decoder: the payload, or nothing when it is absent.
pub open spec fn payload_bytes(response: ExecutorResponse) -> Seq<u8> {
    match response.payload {
        Some(p) => p@,
        None => Seq::empty(),
    }
}

/// The result of a dispatch whose executor status is `status` and whose
/// payload decodes to `decoded`. A failure is reported without regard to the
/// payload; a decode failure only follows a success.
pub open spec fn settled<T>(status: ExecutionStatus, decoded: Result<T, String>) -> Result<
    T,
    DispatchError,
> {
    match status {
        ExecutionStatus::Failure(detail) => Err(DispatchError::Execution(detail)),
        ExecutionStatus::Success => match decoded {
            Ok(v) => Ok(v),
            Err(e) => Err(DispatchError::Decode(e)),
        },
    }
}

/// `r` is what a query yields for `response` with the decoder `decode`.
pub open spec fn query_settles_to<T, F: FnOnce(Vec<u8>) -> Result<T, String>>(
    response: ExecutorResponse,
    decode: F,
    r: Result<T, DispatchError>,
) -> bool {
    match response.status {
        ExecutionStatus::Failure(detail) => r == Err::<T, DispatchError>(
            DispatchError::Execution(detail),
        ),
        ExecutionStatus::Success => exists|b: Vec<u8>, d: Result<T, String>|
            b@ == payload_bytes(response) && #[trigger] decode.ensures((b,), d) && r == settled(
                ExecutionStatus::Success,
                d,
            ),
    }
}

/// The decoder gives one result for one sequence of bytes.
pub open spec fn decoder_is_deterministic<T, F: FnOnce(Vec<u8>) -> Result<T, String>>(
    decode: F,
) -> bool {
    forall|b1: Vec<u8>, b2: Vec<u8>, d1: Result<T, String>, d2: Result<T, String>|
        b1@ == b2@ && #[trigger] decode.ensures((b1,), d1) && #[trigger] decode.ensures((b2,), d2)
            ==> d1 == d2
}

fn take_payload(payload: Option<Vec<u8>>) -> (r: Vec<u8>)
    ensures
        r@ == match payload {
            Some(p) => p@,
            None => Seq::<u8>::empty(),
        },
{
    match payload {
        Some(p) => p,
        None => Vec::new(),
    }
}

/// Settles the executor's answer to a query: a failure is passed on as an
/// execution error and the decoder is not called; on success the payload is
/// decoded and a decode failure is reported as such.
pub fn settle_query<T, F: FnOnce(Vec<u8>) -> Result<T, String>>(
    response: ExecutorResponse,
    decode: F,
) -> (r: Result<T, DispatchError>)
    requires
        forall|b: Vec<u8>| #[trigger] decode.requires((b,)),
    ensures
        query_settles_to(response, decode, r),
{
    let ghost whole = response;
    match response.status {
        ExecutionStatus::Failure(detail) => Err(DispatchError::Execution(detail)),
        ExecutionStatus::Success => {
            let bytes = take_payload(response.payload);
            let ghost sent = bytes;
            let decoded = decode(bytes);
            let r = match decoded {
                Ok(v) => Ok(v),
                Err(e) => Err(DispatchError::Decode(e)),
            };
            assert(sent@ == payload_bytes(whole) && decode.ensures((sent,), decoded) && r
                == settled(ExecutionStatus::Success, decoded));
            r
        },
    }
}

/// `r` is what an execute call yields for `response` with the decoder `decode`:
/// a settled query result, with the raw payload and the gas report kept beside
/// the decoded data.
pub open spec fn execute_settles_to<T, F: FnOnce(Vec<u8>) -> Result<T, String>>(
    response: ExecutorResponse,
    decode: F,
    r: Result<ExecuteOutcome<T>, DispatchError>,
) -> bool {
    exists|q: Result<T, DispatchError>|
        #[trigger] query_settles_to(response, decode, q) && match q {
            Ok(v) => r == Ok::<ExecuteOutcome<T>, DispatchError>(
                ExecuteOutcome { data: v, raw_data: r->Ok_0.raw_data, gas: response.gas },
            ) && r->Ok_0.raw_data@ == payload_bytes(response),
            Err(e) => r == Err::<ExecuteOutcome<T>, DispatchError>(e),
        }
}

fn copy_bytes(b: &Vec<u8>) -> (r: Vec<u8>)
    ensures
        r@ == b@,
{
    let mut out: Vec<u8> = Vec::new();
    let mut k: usize = 0;
    while k < b.len()
        invariant
            k <= b@.len(),
            out@ == b@.subrange(0, k as int),
        decreases b@.len() - k,
    {
        out.push(b[k]);
        k = k + 1;
        assert(out@ =~= b@.subrange(0, k as int));
    }
    assert(out@ =~= b@);
    out
}

/// Settles the executor's answer to an execute call as `settle_query` does,
/// keeping the raw payload and the gas report beside the decoded data.
pub fn settle_execute<T, F: FnOnce(Vec<u8>) -> Result<T, String>>(
    response: ExecutorResponse,
    decode: F,
) -> (r: Result<ExecuteOutcome<T>, DispatchError>)
    requires
        forall|b: Vec<u8>| #[trigger] decode.requires((b,)),
    ensures
        execute_settles_to(response, decode, r),
{
    let ghost whole = response;
    let gas = response.gas;
    let raw = take_payload(response.payload);
    let for_decoder = copy_bytes(&raw);
    let stripped = ExecutorResponse { status: response.status, payload: Some(for_decoder), gas };
    let q = settle_query(stripped, decode);
    assert(payload_bytes(stripped) == payload_bytes(whole));
    assert(query_settles_to(whole, decode, q));
    match q {
        Ok(v) => Ok(ExecuteOutcome { data: v, raw_data: raw, gas }),
        Err(e) => Err(e),
    }
}

/// Round-trip fidelity of the dispatch layer: a successful query yields
/// exactly the value that the decoder produced from the executor's payload.
pub proof fn lemma_query_yields_decoded_value<T, F: FnOnce(Vec<u8>) -> Result<T, String>>(
    response: ExecutorResponse,
    decode: F,
    r: Result<T, DispatchError>,
)
    requires
        query_settles_to(response, decode, r),
        response.status == ExecutionStatus::Success,
        r is Ok,
    ensures
        exists|b: Vec<u8>|
            b@ == payload_bytes(response) && #[trigger] decode.ensures((b,), Ok::<T, String>(r->Ok_0)),
{
    let (b, d) = choose|b: Vec<u8>, d: Result<T, String>|
        b@ == payload_bytes(response) && #[trigger] decode.ensures((b,), d) && r == settled(
            ExecutionStatus::Success,
            d,
        );
    assert(d == Ok::<T, String>(r->Ok_0));
    assert(decode.ensures((b,), Ok::<T, String>(r->Ok_0)));
}

/// The failure kinds of an execute call exclude each other: an execution
/// failure carries the executor's detail and no decoded data, and a decode
/// failure only follows an executor success.
pub proof fn lemma_failure_kinds_exclusive<T, F: FnOnce(Vec<u8>) -> Result<T, String>>(
    response: ExecutorResponse,
    decode: F,
    r: Result<ExecuteOutcome<T>, DispatchError>,
)
    requires
        execute_settles_to(response, decode, r),
    ensures
        response.status is Failure ==> r == Err::<ExecuteOutcome<T>, DispatchError>(
            DispatchError::Execution(response.status->Failure_0),
        ),
        r matches Err(DispatchError::Decode(_)) ==> response.status is Success,
        r matches Err(DispatchError::Execution(_)) ==> response.status is Failure,
{
    let q = choose|q: Result<T, DispatchError>|
        #[trigger] query_settles_to(response, decode, q) && match q {
            Ok(v) => r == Ok::<ExecuteOutcome<T>, DispatchError>(
                ExecuteOutcome { data: v, raw_data: r->Ok_0.raw_data, gas: response.gas },
            ) && r->Ok_0.raw_data@ == payload_bytes(response),
            Err(e) => r == Err::<ExecuteOutcome<T>, DispatchError>(e),
        };
}

/// Idempotence: with a decoder that gives one result per input, two queries
/// that receive the same executor answer yield the same result.
pub proof fn lemma_repeated_query_same_result<T, F: FnOnce(Vec<u8>) -> Result<T, String>>(
    response: ExecutorResponse,
    decode: F,
    r1: Result<T, DispatchError>,
    r2: Result<T, DispatchError>,
)
    requires
        decoder_is_deterministic(decode),
        query_settles_to(response, decode, r1),
        query_settles_to(response, decode, r2),
    ensures
        r1 == r2,
{
    if response.status is Success {
        let (b1, d1) = choose|b: Vec<u8>, d: Result<T, String>|
            b@ == payload_bytes(response) && #[trigger] decode.ensures((b,), d) && r1 == settled(
                ExecutionStatus::Success,
                d,
            );
        let (b2, d2) = choose|b: Vec<u8>, d: Result<T, String>|
            b@ == payload_bytes(response) && #[trigger] decode.ensures((b,), d) && r2 == settled(
                ExecutionStatus::Success,
                d,
            );
        assert(d1 == d2);
    }
}

} // verus!

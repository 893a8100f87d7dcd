//! The tagged outcome a backend returns, and its decoding into typed results.

use vstd::prelude::*;
use vstd::string::StrSliceExecFns;
use crate::error::{error_view, ErrorKind, ErrorView, SecurityModuleError};

verus! {

/// What a backend says went wrong.
#[derive(Clone, Copy, Debug, PartialEq, Eq, Structural)]
pub enum FailureKind {
    /// The requested operation itself failed.
    Operation,
    /// A payload was not in the encoding the backend expects.
    DataConversion,
    /// The backend is not initialised or cannot be reached.
    BackendUnavailable,
    /// The backend does not implement the requested algorithm spec.
    UnsupportedAlgorithm,
    /// The backend holds no key under the identifier.
    KeyNotFound,
    /// The backend failed internally before the operation could complete.
    Backend,
}

/// The structured result of one backend call.
#[derive(Debug, PartialEq, Eq)]
pub enum OperationOutcome {
    /// The operation completed; the payload is its result.
    Success(Vec<u8>),
    /// The operation did not complete.
    Failure(FailureKind, String),
}

/// Mathematical model of an `OperationOutcome`.
pub ghost enum OutcomeView {
    Success(Seq<u8>),
    Failure(FailureKind, Seq<char>),
}

impl View for OperationOutcome {
    type V = OutcomeView;

    open spec fn view(&self) -> OutcomeView {
        match self {
            OperationOutcome::Success(payload) => OutcomeView::Success(payload@),
            OperationOutcome::Failure(kind, message) => OutcomeView::Failure(*kind, message@),
        }
    }
}

/// The model of a `Result` that carries a payload.
pub open spec fn payload_result_view(r: Result<Vec<u8>, SecurityModuleError>) -> Result<
    Seq<u8>,
    ErrorView,
> {
    match r {
        Ok(payload) => Ok(payload@),
        Err(e) => Err(e@),
    }
}

/// The model of a `Result` that carries a yes-or-no answer.
pub open spec fn flag_result_view(r: Result<bool, SecurityModuleError>) -> Result<bool, ErrorView> {
    match r {
        Ok(flag) => Ok(flag),
        Err(e) => Err(e@),
    }
}

/// The model of a `Result` that carries nothing on success.
pub open spec fn unit_result_view(r: Result<(), SecurityModuleError>) -> Result<(), ErrorView> {
    match r {
        Ok(_) => Ok(()),
        Err(e) => Err(e@),
    }
}

/// The error kind a reported failure becomes: a failed operation takes the kind
/// the caller expects of it, every other failure keeps its own.
pub open spec fn failure_error_kind(kind: FailureKind, expected: ErrorKind) -> ErrorKind {
    match kind {
        FailureKind::Operation => expected,
        FailureKind::DataConversion => ErrorKind::DataConversion,
        FailureKind::BackendUnavailable => ErrorKind::BackendUnavailable,
        FailureKind::UnsupportedAlgorithm => ErrorKind::UnsupportedAlgorithm,
        FailureKind::KeyNotFound => ErrorKind::KeyNotFound,
        FailureKind::Backend => ErrorKind::Backend,
    }
}

/// What `decode` returns: the payload of a success unchanged, or the error
/// that belongs to the failure, with the backend's message unchanged.
pub open spec fn decode_spec(outcome: OutcomeView, expected: ErrorKind) -> Result<
    Seq<u8>,
    ErrorView,
> {
    match outcome {
        OutcomeView::Success(payload) => Ok(payload),
        OutcomeView::Failure(kind, message) => Err(
            error_view(failure_error_kind(kind, expected), message),
        ),
    }
}

/// The payload that stands for "yes": the ASCII letters of `true`.
pub open spec fn true_payload() -> Seq<u8> {
    seq![116u8, 114u8, 117u8, 101u8]
}

/// The payload that stands for "no": the ASCII letters of `false`.
pub open spec fn false_payload() -> Seq<u8> {
    seq![102u8, 97u8, 108u8, 115u8, 101u8]
}

/// The message of the error raised for a success payload that is neither
/// canonical value.
pub open spec fn malformed_flag_message() -> Seq<char> {
    "backend reported success with a payload that is neither true nor false"@
}

/// What `decode_flag` returns: a success must carry one of the two canonical
/// payloads, anything else on a reported success is a `Backend` error; a
/// failure is decoded as `decode_spec` does.
pub open spec fn decode_flag_spec(outcome: OutcomeView, expected: ErrorKind) -> Result<
    bool,
    ErrorView,
> {
    match outcome {
        OutcomeView::Success(payload) => {
            if payload == true_payload() {
                Ok(true)
            } else if payload == false_payload() {
                Ok(false)
            } else {
                Err(error_view(ErrorKind::Backend, malformed_flag_message()))
            }
        },
        OutcomeView::Failure(kind, message) => Err(
            error_view(failure_error_kind(kind, expected), message),
        ),
    }
}

/// What `from_native` builds from a completion flag and a textual reply.
pub open spec fn native_outcome(completed: bool, reply: Seq<char>) -> OutcomeView {
    if completed {
        OutcomeView::Success(vstd::utf8::encode_utf8(reply))
    } else {
        OutcomeView::Failure(FailureKind::Operation, reply)
    }
}

impl FailureKind {
    /// The error kind this failure becomes when the caller expects `expected`
    /// of a failed operation.
    pub fn error_kind(self, expected: ErrorKind) -> (k: ErrorKind)
        ensures
            k == failure_error_kind(self, expected),
    {
        match self {
            FailureKind::Operation => expected,
            FailureKind::DataConversion => ErrorKind::DataConversion,
            FailureKind::BackendUnavailable => ErrorKind::BackendUnavailable,
            FailureKind::UnsupportedAlgorithm => ErrorKind::UnsupportedAlgorithm,
            FailureKind::KeyNotFound => ErrorKind::KeyNotFound,
            FailureKind::Backend => ErrorKind::Backend,
        }
    }
}

/// The canonical payload of a yes-or-no answer.
pub open spec fn flag_payload(flag: bool) -> Seq<u8> {
    if flag {
        true_payload()
    } else {
        false_payload()
    }
}

impl OperationOutcome {
    /// The outcome of a completed comparison: a success that carries the
    /// canonical payload of `flag`.
    pub fn from_flag(flag: bool) -> (outcome: OperationOutcome)
        ensures
            outcome@ == OutcomeView::Success(flag_payload(flag)),
    {
        if flag {
            let payload = vec![116u8, 114u8, 117u8, 101u8];
            assert(payload@ =~= true_payload());
            OperationOutcome::Success(payload)
        } else {
            let payload = vec![102u8, 97u8, 108u8, 115u8, 101u8];
            assert(payload@ =~= false_payload());
            OperationOutcome::Success(payload)
        }
    }

    /// Builds the outcome of a native call that signals completion by a flag
    /// and answers in text: on completion the reply's bytes are the payload,
    /// otherwise the reply is the message of a failed operation.
    pub fn from_native(completed: bool, reply: String) -> (outcome: OperationOutcome)
        ensures
            outcome@ == native_outcome(completed, reply@),
    {
        if completed {
            OperationOutcome::Success(reply.as_str().as_bytes_vec())
        } else {
            OperationOutcome::Failure(FailureKind::Operation, reply)
        }
    }
}

/// Turns a backend's outcome into a typed result.
///
/// A success yields its payload unchanged. A failure yields the error variant
/// that belongs to its kind, where a failed operation takes
/// `expected_kind_on_failure`; the message is carried through unchanged.
pub fn decode(outcome: OperationOutcome, expected_kind_on_failure: ErrorKind) -> (r: Result<
    Vec<u8>,
    SecurityModuleError,
>)
    ensures
        payload_result_view(r) == decode_spec(outcome@, expected_kind_on_failure),
{
    match outcome {
        OperationOutcome::Success(payload) => Ok(payload),
        OperationOutcome::Failure(kind, message) => Err(
            SecurityModuleError::new(kind.error_kind(expected_kind_on_failure), message),
        ),
    }
}

/// Tells whether `payload` is the canonical "yes".
fn is_true_payload(payload: &Vec<u8>) -> (b: bool)
    ensures
        b == (payload@ == true_payload()),
{
    let b = payload.len() == 4 && payload[0] == 116u8 && payload[1] == 114u8 && payload[2] == 117u8
        && payload[3] == 101u8;
    proof {
        if b {
            assert(payload@ =~= true_payload());
        }
    }
    b
}

/// Tells whether `payload` is the canonical "no".
fn is_false_payload(payload: &Vec<u8>) -> (b: bool)
    ensures
        b == (payload@ == false_payload()),
{
    let b = payload.len() == 5 && payload[0] == 102u8 && payload[1] == 97u8 && payload[2] == 108u8
        && payload[3] == 115u8 && payload[4] == 101u8;
    proof {
        if b {
            assert(payload@ =~= false_payload());
        }
    }
    b
}

/// Turns the outcome of a yes-or-no operation into a typed result.
///
/// A success must carry exactly one of the two canonical payloads. Any other
/// payload on a reported success is a `BackendError` and is never coerced into
/// an answer. A failure is decoded as `decode` does.
pub fn decode_flag(outcome: OperationOutcome, expected_kind_on_failure: ErrorKind) -> (r: Result<
    bool,
    SecurityModuleError,
>)
    ensures
        flag_result_view(r) == decode_flag_spec(outcome@, expected_kind_on_failure),
{
    match outcome {
        OperationOutcome::Success(payload) => {
            if is_true_payload(&payload) {
                Ok(true)
            } else if is_false_payload(&payload) {
                Ok(false)
            } else {
                Err(
                    SecurityModuleError::new(
                        ErrorKind::Backend,
                        "backend reported success with a payload that is neither true nor false".to_owned(),
                    ),
                )
            }
        },
        OperationOutcome::Failure(kind, message) => Err(
            SecurityModuleError::new(kind.error_kind(expected_kind_on_failure), message),
        ),
    }
}

/// The two canonical payloads are different byte sequences.
pub proof fn lemma_flag_payloads_differ()
    ensures
        true_payload() != false_payload(),
{
    assert(true_payload().len() == 4);
    assert(false_payload().len() == 5);
}

/// A comparison that the backend completed is an answer, never an error.
///
/// A completed comparison that found a mismatch decodes to `Ok(false)`. Of a
/// reported success, exactly the two canonical payloads decode to an answer;
/// every other payload is a `Backend` error.
pub proof fn lemma_completed_comparison_is_an_answer(payload: Seq<u8>, expected: ErrorKind)
    ensures
        decode_flag_spec(OutcomeView::Success(false_payload()), expected) == Ok::<
            bool,
            ErrorView,
        >(false),
        decode_flag_spec(OutcomeView::Success(payload), expected) is Ok <==> (payload
            == true_payload() || payload == false_payload()),
        decode_flag_spec(OutcomeView::Success(payload), expected) matches Err(e) ==> e.kind
            == ErrorKind::Backend,
{
    lemma_flag_payloads_differ();
}

/// A decoded error is of the kind the failure names, and of the expected kind
/// only for a failed operation: a success never decodes to an error, and the
/// message is the backend's.
pub proof fn lemma_decoded_errors(outcome: OutcomeView, expected: ErrorKind)
    ensures
        decode_spec(outcome, expected) is Err <==> outcome is Failure,
        decode_spec(outcome, expected) matches Err(e) ==> outcome matches OutcomeView::Failure(
            kind,
            message,
        ) && e.message == message && (e.kind == expected || kind != FailureKind::Operation),
{
}

/// The message of the error raised when a backend does not come up.
pub open spec fn unavailable_message() -> Seq<char> {
    "backend could not be initialised"@
}

/// What `initialization_result` returns for a backend's answer.
pub open spec fn initialization_spec(initialised: bool) -> Result<(), ErrorView> {
    if initialised {
        Ok(())
    } else {
        Err(error_view(ErrorKind::BackendUnavailable, unavailable_message()))
    }
}

/// Turns a backend's answer to initialisation into a typed result: a backend
/// that did not come up is `BackendUnavailable`, distinct from any failure of
/// a single operation.
pub fn initialization_result(initialised: bool) -> (r: Result<(), SecurityModuleError>)
    ensures
        unit_result_view(r) == initialization_spec(initialised),
{
    if initialised {
        Ok(())
    } else {
        Err(
            SecurityModuleError::new(
                ErrorKind::BackendUnavailable,
                "backend could not be initialised".to_owned(),
            ),
        )
    }
}

} // verus!

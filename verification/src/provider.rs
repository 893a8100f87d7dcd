//! Providers: one backend, and the keys created or loaded through it.

use vstd::prelude::*;
use crate::backend::{Backend, RequestView};
use crate::error::{error_view, ErrorKind, ErrorView, SecurityModuleError};
use crate::key::{KeyAlgorithmSpec, KeyIdentifier};
use crate::keyhandle::{handle_from_reply_spec, handle_result_view, HandleView, KeyHandle};
use crate::outcome::{
    decode,
    decode_spec,
    initialization_result,
    initialization_spec,
    unit_result_view,
    FailureKind,
    OperationOutcome,
    OutcomeView,
};

verus! {

/// Brings `backend` up. A backend that does not come up is
/// `BackendUnavailable`; nothing else can go wrong here.
pub fn rust_crypto_call_initialize_module<B: Backend>(backend: &B) -> (r: Result<
    (),
    SecurityModuleError,
>)
    ensures
        exists|up: bool| #[trigger]
            backend.may_initialize(up) && unit_result_view(r) == initialization_spec(up),
{
    let initialised = backend.initialize_module();
    initialization_result(initialised)
}

/// The message of the error raised for a spec the backend does not advertise.
pub open spec fn unsupported_message() -> Seq<char> {
    "backend does not advertise the requested algorithm spec"@
}

/// What creating or loading a key returns, given whether the backend
/// advertises the spec and, if it does, the outcome of the backend call.
pub open spec fn key_request_spec(
    advertised: bool,
    outcome: OutcomeView,
    id: Seq<char>,
    spec: KeyAlgorithmSpec,
) -> Result<HandleView, ErrorView> {
    if advertised {
        handle_from_reply_spec(decode_spec(outcome, ErrorKind::Backend), id, spec)
    } else {
        Err(error_view(ErrorKind::UnsupportedAlgorithm, unsupported_message()))
    }
}

/// `result` is what a request for a key returns: the refusal of a spec that is
/// not advertised, or else what `key_request_spec` gives for an outcome with
/// which `backend` may answer `request`.
pub open spec fn answers_key_request<B: Backend>(
    backend: B,
    advertised: bool,
    request: RequestView,
    id: Seq<char>,
    spec: KeyAlgorithmSpec,
    result: Result<HandleView, ErrorView>,
) -> bool {
    if advertised {
        exists|o: OutcomeView| #[trigger]
            backend.may_answer(request, o) && result == key_request_spec(true, o, id, spec)
    } else {
        result == Err::<HandleView, ErrorView>(
            error_view(ErrorKind::UnsupportedAlgorithm, unsupported_message()),
        )
    }
}

/// Loading a key that the backend does not know is `KeyNotFound`.
///
/// When the backend advertises the spec and can only report the identifier as
/// unknown, `load_key` returns `KeyNotFound` with the backend's message, and
/// no other error.
pub proof fn lemma_unknown_key_is_key_not_found<B: Backend>(
    backend: B,
    id: Seq<char>,
    spec: KeyAlgorithmSpec,
    result: Result<HandleView, ErrorView>,
)
    requires
        forall|o: OutcomeView| #[trigger]
            backend.may_answer(RequestView::LoadKey(id, spec), o) ==> o is Failure
                && o->Failure_0 == FailureKind::KeyNotFound,
        answers_key_request(backend, true, RequestView::LoadKey(id, spec), id, spec, result),
    ensures
        result matches Err(e) && e.kind == ErrorKind::KeyNotFound
            && backend.may_answer(
            RequestView::LoadKey(id, spec),
            OutcomeView::Failure(FailureKind::KeyNotFound, e.message),
        ),
{
    let o = choose|o: OutcomeView| #[trigger]
        backend.may_answer(RequestView::LoadKey(id, spec), o) && result == key_request_spec(
            true,
            o,
            id,
            spec,
        );
    assert(backend.may_answer(RequestView::LoadKey(id, spec), o));
}

/// Creating or loading a key never fails with an `Encryption` error: a
/// lookup that the backend reports as unknown becomes `KeyNotFound`, with the
/// backend's message.
pub proof fn lemma_key_request_errors(
    advertised: bool,
    outcome: OutcomeView,
    message: Seq<char>,
    id: Seq<char>,
    spec: KeyAlgorithmSpec,
)
    ensures
        key_request_spec(advertised, outcome, id, spec) matches Err(e) ==> e.kind
            != ErrorKind::Encryption,
        key_request_spec(
            true,
            OutcomeView::Failure(FailureKind::KeyNotFound, message),
            id,
            spec,
        ) == Err::<HandleView, ErrorView>(error_view(ErrorKind::KeyNotFound, message)),
{
}

/// A spec that the backend does not advertise is refused whatever the backend
/// would answer: the result of `create_key` and of `load_key` is then
/// `UnsupportedAlgorithm`, for every backend and every request, so it cannot
/// depend on a backend call.
pub proof fn lemma_unadvertised_spec_is_refused<B: Backend>(
    backend: B,
    request: RequestView,
    id: Seq<char>,
    spec: KeyAlgorithmSpec,
    result: Result<HandleView, ErrorView>,
)
    requires
        answers_key_request(backend, false, request, id, spec, result),
    ensures
        result == Err::<HandleView, ErrorView>(
            error_view(ErrorKind::UnsupportedAlgorithm, unsupported_message()),
        ),
{
}

/// A backend, bound once, and the algorithm specs it advertised when it was
/// bound. Handles made by a provider are bound to the provider's backend.
pub struct TpmProvider<B: Backend> {
    backend: B,
    advertised: Vec<KeyAlgorithmSpec>,
}

impl<B: Backend> TpmProvider<B> {
    /// The backend this provider is bound to.
    pub closed spec fn backend(&self) -> B {
        self.backend
    }

    /// The algorithm specs the backend advertised when it was bound.
    pub closed spec fn advertised(&self) -> Seq<KeyAlgorithmSpec> {
        self.advertised@
    }

    /// Brings `backend` up and binds it, with the specs it advertises. Fails
    /// with `BackendUnavailable`, and with nothing else, when the backend does
    /// not come up.
    pub fn new(backend: B) -> (r: Result<TpmProvider<B>, SecurityModuleError>)
        ensures
            r matches Ok(provider) ==> provider.backend() == backend && backend.may_initialize(true)
                && backend.may_advertise(provider.advertised()),
            r matches Err(e) ==> backend.may_initialize(false) && Err::<(), ErrorView>(e@)
                == initialization_spec(false),
    {
        match rust_crypto_call_initialize_module(&backend) {
            Ok(_) => {
                let advertised = backend.advertised_specs();
                Ok(TpmProvider { backend, advertised })
            },
            Err(e) => Err(e),
        }
    }

    /// Tells whether the backend advertised `spec`.
    pub fn supports(&self, spec: &KeyAlgorithmSpec) -> (b: bool)
        ensures
            b == self.advertised().contains(*spec),
    {
        let mut i: usize = 0;
        while i < self.advertised.len()
            invariant
                i <= self.advertised.len(),
                forall|j: int| 0 <= j < i ==> self.advertised@[j] != *spec,
            decreases self.advertised.len() - i,
        {
            if self.advertised[i] == *spec {
                return true;
            }
            i += 1;
        }
        false
    }

    /// Creates a key under `id` and returns its handle.
    ///
    /// A spec that the backend does not advertise is refused as
    /// `UnsupportedAlgorithm` before the backend is asked for anything.
    /// Otherwise the backend is asked once: a completed request gives a handle
    /// for `id` and `spec`, a failed one its error.
    pub fn create_key<'a>(&'a self, id: KeyIdentifier, spec: KeyAlgorithmSpec) -> (r: Result<
        KeyHandle<'a, B>,
        SecurityModuleError,
    >)
        ensures
            answers_key_request(
                self.backend(),
                self.advertised().contains(spec),
                RequestView::CreateKey(id@, spec),
                id@,
                spec,
                handle_result_view(r),
            ),
            r matches Ok(handle) ==> handle.backend() == self.backend(),
    {
        rust_crypto_call_create_key(self, id, spec)
    }

    /// Loads the key stored under `id` and returns its handle.
    ///
    /// A spec that the backend does not advertise is refused as
    /// `UnsupportedAlgorithm` before the backend is asked for anything.
    /// Otherwise the backend is asked once: a completed request gives a handle
    /// for `id` and `spec`; an identifier that the backend reports as unknown
    /// gives `KeyNotFound`; any other failure gives its error.
    pub fn load_key<'a>(&'a self, id: KeyIdentifier, spec: KeyAlgorithmSpec) -> (r: Result<
        KeyHandle<'a, B>,
        SecurityModuleError,
    >)
        ensures
            answers_key_request(
                self.backend(),
                self.advertised().contains(spec),
                RequestView::LoadKey(id@, spec),
                id@,
                spec,
                handle_result_view(r),
            ),
            r matches Ok(handle) ==> handle.backend() == self.backend(),
    {
        rust_crypto_call_load_key(self, id, spec)
    }
}

/// The refusal of a spec that the backend does not advertise.
fn unsupported_algorithm() -> (e: SecurityModuleError)
    ensures
        e@ == error_view(ErrorKind::UnsupportedAlgorithm, unsupported_message()),
{
    SecurityModuleError::new(
        ErrorKind::UnsupportedAlgorithm,
        "backend does not advertise the requested algorithm spec".to_owned(),
    )
}

/// Makes the handle, or the error, that belongs to the backend's outcome of a
/// request for the key `id` with an advertised `spec`.
fn handle_for_outcome<'a, B: Backend>(
    provider: &'a TpmProvider<B>,
    outcome: OperationOutcome,
    id: KeyIdentifier,
    spec: KeyAlgorithmSpec,
) -> (r: Result<KeyHandle<'a, B>, SecurityModuleError>)
    ensures
        handle_result_view(r) == key_request_spec(true, outcome@, id@, spec),
        r matches Ok(handle) ==> handle.backend() == provider.backend(),
{
    KeyHandle::from_reply(decode(outcome, ErrorKind::Backend), id, spec, &provider.backend)
}

/// Asks the provider's backend to create a key under `key_id` with `spec` and
/// returns the key's handle.
///
/// A spec that the provider's backend does not advertise is refused as
/// `UnsupportedAlgorithm`, and the backend is not asked. Otherwise the backend
/// receives one create request with the identifier and the spec as they are:
/// a completed request gives a handle for `key_id` and `spec` bound to the
/// provider's backend, a failed one its error, with `Backend` as the kind of a
/// failed operation.
pub fn rust_crypto_call_create_key<'a, B: Backend>(
    provider: &'a TpmProvider<B>,
    key_id: KeyIdentifier,
    spec: KeyAlgorithmSpec,
) -> (r: Result<KeyHandle<'a, B>, SecurityModuleError>)
    ensures
        answers_key_request(
            provider.backend(),
            provider.advertised().contains(spec),
            RequestView::CreateKey(key_id@, spec),
            key_id@,
            spec,
            handle_result_view(r),
        ),
        r matches Ok(handle) ==> handle.backend() == provider.backend(),
{
    if !provider.supports(&spec) {
        return Err(unsupported_algorithm());
    }
    let outcome = provider.backend.create_key(&key_id, &spec);
    handle_for_outcome(provider, outcome, key_id, spec)
}

/// Asks the provider's backend for the key stored under `key_id` and returns
/// the key's handle.
///
/// A spec that the provider's backend does not advertise is refused as
/// `UnsupportedAlgorithm`, and the backend is not asked. Otherwise the backend
/// receives one load request with the identifier and the spec as they are: a
/// completed request gives a handle for `key_id` and `spec` bound to the
/// provider's backend; an identifier that the backend reports as unknown
/// gives `KeyNotFound`; any other failure gives its error, with `Backend` as
/// the kind of a failed operation.
pub fn rust_crypto_call_load_key<'a, B: Backend>(
    provider: &'a TpmProvider<B>,
    key_id: KeyIdentifier,
    spec: KeyAlgorithmSpec,
) -> (r: Result<KeyHandle<'a, B>, SecurityModuleError>)
    ensures
        answers_key_request(
            provider.backend(),
            provider.advertised().contains(spec),
            RequestView::LoadKey(key_id@, spec),
            key_id@,
            spec,
            handle_result_view(r),
        ),
        r matches Ok(handle) ==> handle.backend() == provider.backend(),
{
    if !provider.supports(&spec) {
        return Err(unsupported_algorithm());
    }
    let outcome = provider.backend.load_key(&key_id, &spec);
    handle_for_outcome(provider, outcome, key_id, spec)
}

} // verus!

//! The capability interface every secure-element backend implements.

use vstd::prelude::*;
use crate::error::{ErrorKind, ErrorView};
use crate::key::{KeyAlgorithmSpec, KeyIdentifier};
use crate::outcome::{decode_flag_spec, decode_spec, OperationOutcome, OutcomeView};

verus! {

/// Mathematical model of one request to a backend: the operation, the key's
/// name, its algorithm spec and the payloads, byte for byte.
pub ghost enum RequestView {
    CreateKey(Seq<char>, KeyAlgorithmSpec),
    LoadKey(Seq<char>, KeyAlgorithmSpec),
    /// The bytes to encrypt.
    Encrypt(Seq<char>, KeyAlgorithmSpec, Seq<u8>),
    /// The bytes to decrypt.
    Decrypt(Seq<char>, KeyAlgorithmSpec, Seq<u8>),
    /// The bytes to sign.
    Sign(Seq<char>, KeyAlgorithmSpec, Seq<u8>),
    /// The signed bytes, then the signature to compare.
    Verify(Seq<char>, KeyAlgorithmSpec, Seq<u8>, Seq<u8>),
}

/// A secure element that stores keys and computes with them.
///
/// Every call is one blocking request that returns a completed, tagged
/// outcome. Payloads are raw bytes: an implementation must not require them to
/// be text. An implementation turns its native error signalling into
/// `OperationOutcome::Failure` at this boundary, and reports a missing key as
/// `FailureKind::KeyNotFound` and an unreachable element as
/// `FailureKind::BackendUnavailable`. Whether concurrent calls for one
/// identifier are safe is for each implementation to document.
///
/// `may_initialize`, `may_advertise` and `may_answer` are what an
/// implementation states of its own answers. Left as they are, they state
/// nothing, and the code that calls the backend is verified for every answer.
/// An implementation that states more has to prove it.
pub trait Backend {
    /// Whether this backend may answer `request` with `outcome`.
    open spec fn may_answer(&self, request: RequestView, outcome: OutcomeView) -> bool {
        true
    }

    /// Whether bringing this backend up may end with `up`.
    open spec fn may_initialize(&self, up: bool) -> bool {
        true
    }

    /// Whether this backend may advertise exactly `specs`.
    open spec fn may_advertise(&self, specs: Seq<KeyAlgorithmSpec>) -> bool {
        true
    }

    /// Brings the backend up. `false` means it cannot be used.
    fn initialize_module(&self) -> (up: bool)
        ensures
            self.may_initialize(up),
    ;

    /// The algorithm specs this backend supports.
    fn advertised_specs(&self) -> (specs: Vec<KeyAlgorithmSpec>)
        ensures
            self.may_advertise(specs@),
    ;

    /// Creates a key under `id` with `spec`.
    fn create_key(&self, id: &KeyIdentifier, spec: &KeyAlgorithmSpec) -> (outcome: OperationOutcome)
        ensures
            self.may_answer(RequestView::CreateKey(id@, *spec), outcome@),
    ;

    /// Looks up the key stored under `id`.
    fn load_key(&self, id: &KeyIdentifier, spec: &KeyAlgorithmSpec) -> (outcome: OperationOutcome)
        ensures
            self.may_answer(RequestView::LoadKey(id@, *spec), outcome@),
    ;

    /// Encrypts `data` with the key `id`; a success carries the ciphertext.
    fn encrypt_data(&self, id: &KeyIdentifier, spec: &KeyAlgorithmSpec, data: &[u8]) -> (outcome:
        OperationOutcome)
        ensures
            self.may_answer(RequestView::Encrypt(id@, *spec, data@), outcome@),
    ;

    /// Decrypts `data` with the key `id`; a success carries the plaintext.
    fn decrypt_data(&self, id: &KeyIdentifier, spec: &KeyAlgorithmSpec, data: &[u8]) -> (outcome:
        OperationOutcome)
        ensures
            self.may_answer(RequestView::Decrypt(id@, *spec, data@), outcome@),
    ;

    /// Signs `data` with the key `id`; a success carries the signature.
    fn sign_data(&self, id: &KeyIdentifier, spec: &KeyAlgorithmSpec, data: &[u8]) -> (outcome:
        OperationOutcome)
        ensures
            self.may_answer(RequestView::Sign(id@, *spec, data@), outcome@),
    ;

    /// Compares `signature` against `data` under the key `id`. A completed
    /// comparison is a success whose payload is the ASCII text `true` or
    /// `false`.
    fn verify_signature(
        &self,
        id: &KeyIdentifier,
        spec: &KeyAlgorithmSpec,
        data: &[u8],
        signature: &[u8],
    ) -> (outcome: OperationOutcome)
        ensures
            self.may_answer(RequestView::Verify(id@, *spec, data@, signature@), outcome@),
    ;
}

/// `result` is what decoding gives, with `expected` as the kind of a failed
/// operation, for an outcome with which `backend` may answer `request`.
pub open spec fn decodes_answer<B: Backend>(
    backend: B,
    request: RequestView,
    expected: ErrorKind,
    result: Result<Seq<u8>, ErrorView>,
) -> bool {
    exists|o: OutcomeView| #[trigger]
        backend.may_answer(request, o) && result == decode_spec(o, expected)
}

/// `result` is what decoding a yes-or-no outcome gives, with `expected` as the
/// kind of a failed operation, for an outcome with which `backend` may answer
/// `request`.
pub open spec fn decodes_flag_answer<B: Backend>(
    backend: B,
    request: RequestView,
    expected: ErrorKind,
    result: Result<bool, ErrorView>,
) -> bool {
    exists|o: OutcomeView| #[trigger]
        backend.may_answer(request, o) && result == decode_flag_spec(o, expected)
}

} // verus!

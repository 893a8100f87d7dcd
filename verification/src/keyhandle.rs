//! Key handles: the operations on one key of one backend.

use vstd::prelude::*;
use crate::backend::{decodes_answer, decodes_flag_answer, Backend, RequestView};
use crate::error::{ErrorKind, ErrorView, SecurityModuleError};
use crate::key::{KeyAlgorithmSpec, KeyIdentifier};
use crate::outcome::{decode, decode_flag, flag_result_view, payload_result_view};

verus! {

/// Mathematical model of a key handle: the key's name and its algorithm spec.
pub ghost struct HandleView {
    pub id: Seq<char>,
    pub spec: KeyAlgorithmSpec,
}

/// The model of a handle for the key `id` with `spec`.
pub open spec fn handle_view(id: Seq<char>, spec: KeyAlgorithmSpec) -> HandleView {
    HandleView { id, spec }
}

/// A key of one backend, named by its identifier.
///
/// A handle never changes after it is made and holds no key material: every
/// operation is one call to the backend it is bound to.
pub struct KeyHandle<'a, B: Backend> {
    id: KeyIdentifier,
    spec: KeyAlgorithmSpec,
    backend: &'a B,
}

impl<'a, B: Backend> View for KeyHandle<'a, B> {
    type V = HandleView;

    closed spec fn view(&self) -> HandleView {
        handle_view(self.id@, self.spec)
    }
}

/// The model of a `Result` that carries a key handle.
pub open spec fn handle_result_view<'a, B: Backend>(
    r: Result<KeyHandle<'a, B>, SecurityModuleError>,
) -> Result<HandleView, ErrorView> {
    match r {
        Ok(handle) => Ok(handle@),
        Err(e) => Err(e@),
    }
}

/// What `KeyHandle::from_reply` returns: a handle for the key when the backend
/// completed the request, the backend's error otherwise.
pub open spec fn handle_from_reply_spec(
    reply: Result<Seq<u8>, ErrorView>,
    id: Seq<char>,
    spec: KeyAlgorithmSpec,
) -> Result<HandleView, ErrorView> {
    match reply {
        Ok(_) => Ok(handle_view(id, spec)),
        Err(e) => Err(e),
    }
}

impl<'a, B: Backend> KeyHandle<'a, B> {
    /// The backend this handle is bound to.
    pub closed spec fn backend(&self) -> B {
        *self.backend
    }

    /// Makes the handle for a key that `backend` was asked to create or load,
    /// from the decoded reply to that request. A completed request gives a
    /// handle for `id` and `spec` bound to `backend`, whatever the payload; a
    /// failed one gives its error unchanged. Only a provider makes handles,
    /// so a handle's spec is one that its backend advertised.
    pub(crate) fn from_reply(
        reply: Result<Vec<u8>, SecurityModuleError>,
        id: KeyIdentifier,
        spec: KeyAlgorithmSpec,
        backend: &'a B,
    ) -> (r: Result<KeyHandle<'a, B>, SecurityModuleError>)
        ensures
            handle_result_view(r) == handle_from_reply_spec(payload_result_view(reply), id@, spec),
            r matches Ok(handle) ==> handle.backend() == *backend,
    {
        match reply {
            Ok(_) => Ok(KeyHandle { id, spec, backend }),
            Err(e) => Err(e),
        }
    }

    /// The identifier of the key.
    pub fn key_id(&self) -> (id: &KeyIdentifier)
        ensures
            id@ == self@.id,
    {
        &self.id
    }

    /// The algorithm spec the key was created or loaded with.
    pub fn algorithm_spec(&self) -> (spec: KeyAlgorithmSpec)
        ensures
            spec == self@.spec,
    {
        self.spec
    }

    /// Signs `data`, which may be any bytes. Returns the backend's signature
    /// unchanged, or the error of the backend's failure, where a failed
    /// operation is a `SigningError`.
    pub fn sign_data(&self, data: &[u8]) -> (r: Result<Vec<u8>, SecurityModuleError>)
        ensures
            decodes_answer(
                self.backend(),
                RequestView::Sign(self@.id, self@.spec, data@),
                ErrorKind::Signing,
                payload_result_view(r),
            ),
    {
        rust_crypto_call_sign_data(self, data)
    }

    /// Decrypts `encrypted_data`, which may be any bytes. Returns the
    /// backend's plaintext unchanged, or the error of the backend's failure,
    /// where a failed operation is a `DecryptionError`.
    pub fn decrypt_data(&self, encrypted_data: &[u8]) -> (r: Result<Vec<u8>, SecurityModuleError>)
        ensures
            decodes_answer(
                self.backend(),
                RequestView::Decrypt(self@.id, self@.spec, encrypted_data@),
                ErrorKind::Decryption,
                payload_result_view(r),
            ),
    {
        rust_crypto_call_decrypt_data(self, encrypted_data)
    }

    /// Encrypts `data`, which may be any bytes. Returns the backend's
    /// ciphertext unchanged, or the error of the backend's failure, where a
    /// failed operation is an `EncryptionError`.
    pub fn encrypt_data(&self, data: &[u8]) -> (r: Result<Vec<u8>, SecurityModuleError>)
        ensures
            decodes_answer(
                self.backend(),
                RequestView::Encrypt(self@.id, self@.spec, data@),
                ErrorKind::Encryption,
                payload_result_view(r),
            ),
    {
        rust_crypto_call_encrypt_data(self, data)
    }

    /// Checks `signature` against `data`; both may be any bytes. A comparison
    /// that the backend completed is `Ok(true)` or `Ok(false)`; a success with
    /// any other payload is a `BackendError`; a failed operation is a
    /// `SignatureVerificationError`.
    pub fn verify_signature(&self, data: &[u8], signature: &[u8]) -> (r: Result<
        bool,
        SecurityModuleError,
    >)
        ensures
            decodes_flag_answer(
                self.backend(),
                RequestView::Verify(self@.id, self@.spec, data@, signature@),
                ErrorKind::SignatureVerification,
                flag_result_view(r),
            ),
    {
        rust_crypto_call_verify_signature(self, data, signature)
    }
}

/// Asks the backend of `handle` to encrypt `data` and decodes what it answers. The
/// backend receives the handle's identifier and spec and the bytes as they
/// are. The result is the decoding of its answer with `Encryption` as the kind of
/// a failed operation: the ciphertext of a success unchanged, or the error of a failure with the backend's
/// message.
pub fn rust_crypto_call_encrypt_data<'a, B: Backend>(
    handle: &KeyHandle<'a, B>,
    data: &[u8],
) -> (r: Result<Vec<u8>, SecurityModuleError>)
    ensures
        decodes_answer(
            handle.backend(),
            RequestView::Encrypt(handle@.id, handle@.spec, data@),
            ErrorKind::Encryption,
            payload_result_view(r),
        ),
{
    let outcome = handle.backend.encrypt_data(&handle.id, &handle.spec, data);
    decode(outcome, ErrorKind::Encryption)
}

/// Asks the backend of `handle` to decrypt `data` and decodes what it answers. The
/// backend receives the handle's identifier and spec and the bytes as they
/// are. The result is the decoding of its answer with `Decryption` as the kind of
/// a failed operation: the plaintext of a success unchanged, or the error of a failure with the backend's
/// message.
pub fn rust_crypto_call_decrypt_data<'a, B: Backend>(
    handle: &KeyHandle<'a, B>,
    data: &[u8],
) -> (r: Result<Vec<u8>, SecurityModuleError>)
    ensures
        decodes_answer(
            handle.backend(),
            RequestView::Decrypt(handle@.id, handle@.spec, data@),
            ErrorKind::Decryption,
            payload_result_view(r),
        ),
{
    let outcome = handle.backend.decrypt_data(&handle.id, &handle.spec, data);
    decode(outcome, ErrorKind::Decryption)
}

/// Asks the backend of `handle` to sign `data` and decodes what it answers. The
/// backend receives the handle's identifier and spec and the bytes as they
/// are. The result is the decoding of its answer with `Signing` as the kind of
/// a failed operation: the signature of a success unchanged, or the error of a failure with the backend's
/// message.
pub fn rust_crypto_call_sign_data<'a, B: Backend>(
    handle: &KeyHandle<'a, B>,
    data: &[u8],
) -> (r: Result<Vec<u8>, SecurityModuleError>)
    ensures
        decodes_answer(
            handle.backend(),
            RequestView::Sign(handle@.id, handle@.spec, data@),
            ErrorKind::Signing,
            payload_result_view(r),
        ),
{
    let outcome = handle.backend.sign_data(&handle.id, &handle.spec, data);
    decode(outcome, ErrorKind::Signing)
}

/// Asks the backend of `handle` to compare `signature` against `data` and
/// decodes what it answers as a yes-or-no outcome. The backend receives the
/// handle's identifier and spec and both byte sequences as they are. A
/// completed comparison is `Ok(true)` or `Ok(false)`; a success with any other
/// payload is a `BackendError`; a failed operation is a
/// `SignatureVerificationError`.
pub fn rust_crypto_call_verify_signature<'a, B: Backend>(
    handle: &KeyHandle<'a, B>,
    data: &[u8],
    signature: &[u8],
) -> (r: Result<bool, SecurityModuleError>)
    ensures
        decodes_flag_answer(
            handle.backend(),
            RequestView::Verify(handle@.id, handle@.spec, data@, signature@),
            ErrorKind::SignatureVerification,
            flag_result_view(r),
        ),
{
    let outcome = handle.backend.verify_signature(&handle.id, &handle.spec, data, signature);
    decode_flag(outcome, ErrorKind::SignatureVerification)
}

} // verus!

//! What holds of the operations on a handle when its backend computes
//! correctly.

use vstd::prelude::*;
use crate::backend::{decodes_answer, decodes_flag_answer, Backend, RequestView};
use crate::emulated::{
    emulated_answer,
    key_pad,
    lemma_mask_twice,
    signature_of,
    EmulatedBackend,
};
use crate::error::{ErrorKind, ErrorView};
use crate::key::KeyAlgorithmSpec;
use crate::outcome::{
    decode_flag_spec,
    false_payload,
    lemma_flag_payloads_differ,
    true_payload,
    OutcomeView,
};

verus! {

/// The backend implements correct encryption for the key `id` with `spec`: it
/// encrypts whatever bytes it is given, and whenever it has answered the
/// encryption of `d` with a ciphertext, it answers the decryption of that
/// ciphertext with `d`.
pub open spec fn encrypts_correctly<B: Backend>(
    backend: B,
    id: Seq<char>,
    spec: KeyAlgorithmSpec,
) -> bool {
    &&& forall|d: Seq<u8>, o: OutcomeView| #[trigger]
        backend.may_answer(RequestView::Encrypt(id, spec, d), o) ==> o is Success
    &&& forall|d: Seq<u8>, c: Seq<u8>, o: OutcomeView|
        #![trigger
            backend.may_answer(RequestView::Encrypt(id, spec, d), OutcomeView::Success(c)),
            backend.may_answer(RequestView::Decrypt(id, spec, c), o),
        ]
        backend.may_answer(RequestView::Encrypt(id, spec, d), OutcomeView::Success(c))
            && backend.may_answer(RequestView::Decrypt(id, spec, c), o) ==> o
            == OutcomeView::Success(d)
}

/// The backend signs correctly with the key `id` and `spec`: it signs
/// whatever bytes it is given, and whenever it has answered the signing of `d`
/// with a signature, it completes the comparison of that signature against
/// `d` with the canonical "yes".
pub open spec fn signs_correctly<B: Backend>(
    backend: B,
    id: Seq<char>,
    spec: KeyAlgorithmSpec,
) -> bool {
    &&& forall|d: Seq<u8>, o: OutcomeView| #[trigger]
        backend.may_answer(RequestView::Sign(id, spec, d), o) ==> o is Success
    &&& forall|d: Seq<u8>, s: Seq<u8>, o: OutcomeView|
        #![trigger
            backend.may_answer(RequestView::Sign(id, spec, d), OutcomeView::Success(s)),
            backend.may_answer(RequestView::Verify(id, spec, d, s), o),
        ]
        backend.may_answer(RequestView::Sign(id, spec, d), OutcomeView::Success(s))
            && backend.may_answer(RequestView::Verify(id, spec, d, s), o) ==> o
            == OutcomeView::Success(true_payload())
}

/// The backend accepts, for the key `id` with `spec`, only signatures that it
/// may itself have produced for the same bytes.
pub open spec fn rejects_forgeries<B: Backend>(
    backend: B,
    id: Seq<char>,
    spec: KeyAlgorithmSpec,
) -> bool {
    forall|d: Seq<u8>, s: Seq<u8>| #[trigger]
        backend.may_answer(
            RequestView::Verify(id, spec, d, s),
            OutcomeView::Success(true_payload()),
        ) ==> backend.may_answer(RequestView::Sign(id, spec, d), OutcomeView::Success(s))
}

/// Encrypting and then decrypting with one key returns the data unchanged.
///
/// For every byte sequence `data`, text or not: when the backend implements
/// correct encryption, `encrypted` is what a handle's `encrypt_data` returns
/// for `data`, and `decrypted` is what its `decrypt_data` returns for that
/// ciphertext, then `encrypted` is a ciphertext and `decrypted` is `data`.
pub proof fn lemma_encrypt_decrypt_round_trip<B: Backend>(
    backend: B,
    id: Seq<char>,
    spec: KeyAlgorithmSpec,
    data: Seq<u8>,
    encrypted: Result<Seq<u8>, ErrorView>,
    decrypted: Result<Seq<u8>, ErrorView>,
)
    requires
        encrypts_correctly(backend, id, spec),
        decodes_answer(
            backend,
            RequestView::Encrypt(id, spec, data),
            ErrorKind::Encryption,
            encrypted,
        ),
        decodes_answer(
            backend,
            RequestView::Decrypt(id, spec, encrypted->Ok_0),
            ErrorKind::Decryption,
            decrypted,
        ),
    ensures
        encrypted is Ok,
        decrypted == Ok::<Seq<u8>, ErrorView>(data),
{
}

/// A signature verifies against the data it was made for.
///
/// For every byte sequence `data`: when the backend signs correctly,
/// `signed` is what a handle's `sign_data` returns for `data`, and `verified`
/// is what its `verify_signature` returns for `data` and that signature, then
/// `signed` is a signature and `verified` is `Ok(true)`.
pub proof fn lemma_sign_then_verify<B: Backend>(
    backend: B,
    id: Seq<char>,
    spec: KeyAlgorithmSpec,
    data: Seq<u8>,
    signed: Result<Seq<u8>, ErrorView>,
    verified: Result<bool, ErrorView>,
)
    requires
        signs_correctly(backend, id, spec),
        decodes_answer(backend, RequestView::Sign(id, spec, data), ErrorKind::Signing, signed),
        decodes_flag_answer(
            backend,
            RequestView::Verify(id, spec, data, signed->Ok_0),
            ErrorKind::SignatureVerification,
            verified,
        ),
    ensures
        signed is Ok,
        verified == Ok::<bool, ErrorView>(true),
{
}

/// A tampered signature is answered with `Ok(false)`, never with an error.
///
/// When the backend rejects forgeries, `signature` is none that it may have
/// produced for `data`, and it completed the comparison, that is, answered
/// with a success that carries one of the two canonical payloads, then the
/// handle's `verify_signature` returns `Ok(false)`.
pub proof fn lemma_tampered_signature_is_refused<B: Backend>(
    backend: B,
    id: Seq<char>,
    spec: KeyAlgorithmSpec,
    data: Seq<u8>,
    signature: Seq<u8>,
    outcome: OutcomeView,
)
    requires
        rejects_forgeries(backend, id, spec),
        !backend.may_answer(RequestView::Sign(id, spec, data), OutcomeView::Success(signature)),
        backend.may_answer(RequestView::Verify(id, spec, data, signature), outcome),
        outcome == OutcomeView::Success(true_payload()) || outcome == OutcomeView::Success(
            false_payload(),
        ),
    ensures
        decode_flag_spec(outcome, ErrorKind::SignatureVerification) == Ok::<bool, ErrorView>(
            false,
        ),
{
    lemma_flag_payloads_differ();
}

/// The emulated backend encrypts and signs correctly and rejects forgeries,
/// for every key and every spec.
pub proof fn lemma_emulated_backend_is_correct(
    backend: EmulatedBackend,
    id: Seq<char>,
    spec: KeyAlgorithmSpec,
)
    ensures
        encrypts_correctly(backend, id, spec),
        signs_correctly(backend, id, spec),
        rejects_forgeries(backend, id, spec),
{
    lemma_flag_payloads_differ();
    assert forall|d: Seq<u8>, c: Seq<u8>, o: OutcomeView|
        backend.may_answer(RequestView::Encrypt(id, spec, d), OutcomeView::Success(c))
            && backend.may_answer(RequestView::Decrypt(id, spec, c), o) implies o
        == OutcomeView::Success(d) by {
        lemma_mask_twice(d, key_pad(id));
    }
    assert forall|d: Seq<u8>, s: Seq<u8>|
        backend.may_answer(
            RequestView::Verify(id, spec, d, s),
            OutcomeView::Success(true_payload()),
        ) implies backend.may_answer(RequestView::Sign(id, spec, d), OutcomeView::Success(s)) by {
        assert(emulated_answer(RequestView::Verify(id, spec, d, s)) == OutcomeView::Success(
            true_payload(),
        ));
        if s != signature_of(id, d) {
            assert(false_payload() == true_payload());
        }
    }
}

} // verus!

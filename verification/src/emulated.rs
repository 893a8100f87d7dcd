//! A software stand-in for a secure element, for tests and examples.

use vstd::prelude::*;
use crate::backend::{Backend, RequestView};
use crate::key::{KeyAlgorithmSpec, KeyIdentifier};
use crate::outcome::{flag_payload, OperationOutcome, OutcomeView};

verus! {

/// The pad folded from the bytes of an identifier.
pub open spec fn fold_pad(bytes: Seq<u8>) -> u8
    decreases bytes.len(),
{
    if bytes.len() == 0 {
        165u8
    } else {
        ((fold_pad(bytes.drop_last()) as int * 31 + bytes.last() as int) % 256) as u8
    }
}

/// The pad that stands for the key named `id`.
pub open spec fn key_pad(id: Seq<char>) -> u8 {
    fold_pad(vstd::utf8::encode_utf8(id))
}

/// `data` with every byte combined with `pad` by exclusive or.
pub open spec fn masked(data: Seq<u8>, pad: u8) -> Seq<u8> {
    Seq::new(data.len(), |i: int| data[i] ^ pad)
}

/// The signature of `data` under the key named `id`: the key's pad, then the
/// masked data.
pub open spec fn signature_of(id: Seq<char>, data: Seq<u8>) -> Seq<u8> {
    seq![key_pad(id)] + masked(data, key_pad(id))
}

/// The one outcome the emulated backend gives to `request`.
pub open spec fn emulated_answer(request: RequestView) -> OutcomeView {
    match request {
        RequestView::CreateKey(_, _) => OutcomeView::Success(Seq::empty()),
        RequestView::LoadKey(_, _) => OutcomeView::Success(Seq::empty()),
        RequestView::Encrypt(id, _, data) => OutcomeView::Success(masked(data, key_pad(id))),
        RequestView::Decrypt(id, _, data) => OutcomeView::Success(masked(data, key_pad(id))),
        RequestView::Sign(id, _, data) => OutcomeView::Success(signature_of(id, data)),
        RequestView::Verify(id, _, data, signature) => OutcomeView::Success(
            flag_payload(signature == signature_of(id, data)),
        ),
    }
}

/// Masking twice with one pad gives the data back.
pub proof fn lemma_mask_twice(data: Seq<u8>, pad: u8)
    ensures
        masked(masked(data, pad), pad) == data,
{
    assert forall|i: int| 0 <= i < data.len() implies #[trigger] masked(masked(data, pad), pad)[i]
        == data[i] by {
        let b = data[i];
        assert((b ^ pad) ^ pad == b) by (bit_vector);
    }
    assert(masked(masked(data, pad), pad) =~= data);
}

/// Computes the pad of the key named `id`.
fn pad_for(id: &KeyIdentifier) -> (pad: u8)
    ensures
        pad == key_pad(id@),
{
    let bytes = id.as_str().as_bytes();
    let mut pad: u8 = 165u8;
    let mut i: usize = 0;
    while i < bytes.len()
        invariant
            i <= bytes.len(),
            pad == fold_pad(bytes@.take(i as int)),
        decreases bytes.len() - i,
    {
        proof {
            assert(bytes@.take(i + 1).drop_last() =~= bytes@.take(i as int));
        }
        let wide: u32 = (pad as u32 * 31 + bytes[i] as u32) % 256;
        pad = wide as u8;
        i += 1;
    }
    proof {
        assert(bytes@.take(i as int) =~= bytes@);
    }
    pad
}

/// Combines every byte of `data` with `pad`.
fn mask(data: &[u8], pad: u8) -> (out: Vec<u8>)
    ensures
        out@ == masked(data@, pad),
{
    let mut out: Vec<u8> = Vec::new();
    let mut i: usize = 0;
    while i < data.len()
        invariant
            i <= data.len(),
            out@.len() == i,
            forall|j: int| 0 <= j < i ==> out@[j] == data@[j] ^ pad,
        decreases data.len() - i,
    {
        out.push(data[i] ^ pad);
        i += 1;
    }
    proof {
        assert(out@ =~= masked(data@, pad));
    }
    out
}

/// Tells whether `signature` is the signature of `data` under the key whose
/// pad is `pad`.
fn is_signature(signature: &[u8], data: &[u8], pad: u8) -> (b: bool)
    ensures
        b == (signature@ == seq![pad] + masked(data@, pad)),
{
    let ghost expected = seq![pad] + masked(data@, pad);
    if signature.len() == 0 || signature.len() - 1 != data.len() || signature[0] != pad {
        proof {
            assert(expected.len() == data@.len() + 1);
            assert(expected[0] == pad);
        }
        return false;
    }
    let mut i: usize = 0;
    while i < data.len()
        invariant
            i <= data.len(),
            signature@.len() == data@.len() + 1,
            signature@[0] == pad,
            expected == seq![pad] + masked(data@, pad),
            forall|j: int| 0 <= j < i ==> signature@[j + 1] == data@[j] ^ pad,
        decreases data.len() - i,
    {
        if signature[i + 1] != data[i] ^ pad {
            proof {
                assert(expected[i + 1] == data@[i as int] ^ pad);
            }
            return false;
        }
        i += 1;
    }
    proof {
        assert(signature@ =~= expected);
    }
    true
}

/// A backend that keeps nothing and computes in software.
///
/// The key for an identifier is derived from the identifier itself, so every
/// identifier names a key: creating and loading always succeed. Encryption
/// masks the data with the key's pad, a signature is the key's pad followed by
/// the masked data. It protects nothing; it is there so that code can be run
/// against a backend whose answers are known. It holds no mutable state, so
/// any number of threads may call it.
pub struct EmulatedBackend {
    advertised: Vec<KeyAlgorithmSpec>,
}

impl EmulatedBackend {
    /// A backend that advertises exactly `advertised`.
    pub fn new(advertised: Vec<KeyAlgorithmSpec>) -> (backend: EmulatedBackend)
        ensures
            backend.advertised() == advertised@,
    {
        EmulatedBackend { advertised }
    }

    /// The algorithm specs this backend advertises.
    pub closed spec fn advertised(&self) -> Seq<KeyAlgorithmSpec> {
        self.advertised@
    }
}

impl Backend for EmulatedBackend {
    open spec fn may_answer(&self, request: RequestView, outcome: OutcomeView) -> bool {
        outcome == emulated_answer(request)
    }

    open spec fn may_initialize(&self, up: bool) -> bool {
        up
    }

    open spec fn may_advertise(&self, specs: Seq<KeyAlgorithmSpec>) -> bool {
        specs == self.advertised()
    }

    fn initialize_module(&self) -> (up: bool) {
        true
    }

    fn advertised_specs(&self) -> (specs: Vec<KeyAlgorithmSpec>) {
        let mut specs: Vec<KeyAlgorithmSpec> = Vec::new();
        let mut i: usize = 0;
        while i < self.advertised.len()
            invariant
                i <= self.advertised.len(),
                specs@ == self.advertised@.take(i as int),
            decreases self.advertised.len() - i,
        {
            specs.push(self.advertised[i]);
            proof {
                assert(specs@ =~= self.advertised@.take(i + 1));
            }
            i += 1;
        }
        proof {
            assert(self.advertised@.take(i as int) =~= self.advertised@);
        }
        specs
    }

    fn create_key(&self, id: &KeyIdentifier, spec: &KeyAlgorithmSpec) -> (outcome: OperationOutcome) {
        OperationOutcome::Success(Vec::new())
    }

    fn load_key(&self, id: &KeyIdentifier, spec: &KeyAlgorithmSpec) -> (outcome: OperationOutcome) {
        OperationOutcome::Success(Vec::new())
    }

    fn encrypt_data(&self, id: &KeyIdentifier, spec: &KeyAlgorithmSpec, data: &[u8]) -> (outcome:
        OperationOutcome) {
        OperationOutcome::Success(mask(data, pad_for(id)))
    }

    fn decrypt_data(&self, id: &KeyIdentifier, spec: &KeyAlgorithmSpec, data: &[u8]) -> (outcome:
        OperationOutcome) {
        OperationOutcome::Success(mask(data, pad_for(id)))
    }

    fn sign_data(&self, id: &KeyIdentifier, spec: &KeyAlgorithmSpec, data: &[u8]) -> (outcome:
        OperationOutcome) {
        let pad = pad_for(id);
        let body = mask(data, pad);
        let mut signature: Vec<u8> = Vec::new();
        signature.push(pad);
        let mut i: usize = 0;
        while i < body.len()
            invariant
                i <= body.len(),
                signature@.len() == i + 1,
                signature@[0] == pad,
                forall|j: int| 0 <= j < i ==> signature@[j + 1] == body@[j],
            decreases body.len() - i,
        {
            signature.push(body[i]);
            i += 1;
        }
        proof {
            assert(signature@ =~= signature_of(id@, data@));
        }
        OperationOutcome::Success(signature)
    }

    fn verify_signature(
        &self,
        id: &KeyIdentifier,
        spec: &KeyAlgorithmSpec,
        data: &[u8],
        signature: &[u8],
    ) -> (outcome: OperationOutcome) {
        OperationOutcome::from_flag(is_signature(signature, data, pad_for(id)))
    }
}

} // verus!

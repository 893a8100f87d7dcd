//! Key identifiers and the algorithm spec a key is created or loaded with.

use vstd::prelude::*;

verus! {

/// Algorithm family and key size.
#[derive(Clone, Copy, Debug, PartialEq, Eq, Structural)]
pub enum Algorithm {
    Ec256,
    Ec384,
    Ec521,
    Rsa2048,
    Rsa3072,
    Rsa4096,
}

/// Hash function used by signing and encryption schemes.
#[derive(Clone, Copy, Debug, PartialEq, Eq, Structural)]
pub enum HashAlgorithm {
    Sha1,
    Sha224,
    Sha256,
    Sha384,
    Sha512,
}

/// The type of key the secure element stores.
#[derive(Clone, Copy, Debug, PartialEq, Eq, Structural)]
pub enum KeyType {
    EllipticCurve,
    Rsa,
}

/// What a key is created or loaded with: algorithm family, hash and key type.
///
/// Which combinations are usable is decided by the backend: a provider only
/// accepts the specs its backend advertises.
#[derive(Clone, Copy, Debug, PartialEq, Eq, Structural)]
pub struct KeyAlgorithmSpec {
    pub algorithm: Algorithm,
    pub hash: HashAlgorithm,
    pub key_type: KeyType,
}

impl Algorithm {
    /// The name of this algorithm as it is written at a backend boundary.
    pub open spec fn spec_name(self) -> Seq<char> {
        match self {
            Algorithm::Ec256 => "EC256"@,
            Algorithm::Ec384 => "EC384"@,
            Algorithm::Ec521 => "EC521"@,
            Algorithm::Rsa2048 => "RSA2048"@,
            Algorithm::Rsa3072 => "RSA3072"@,
            Algorithm::Rsa4096 => "RSA4096"@,
        }
    }

    /// The name of this algorithm as it is written at a backend boundary.
    pub fn name(self) -> (s: &'static str)
        ensures
            s@ == self.spec_name(),
    {
        match self {
            Algorithm::Ec256 => "EC256",
            Algorithm::Ec384 => "EC384",
            Algorithm::Ec521 => "EC521",
            Algorithm::Rsa2048 => "RSA2048",
            Algorithm::Rsa3072 => "RSA3072",
            Algorithm::Rsa4096 => "RSA4096",
        }
    }
}

impl HashAlgorithm {
    /// The name of this hash as it is written at a backend boundary.
    pub open spec fn spec_name(self) -> Seq<char> {
        match self {
            HashAlgorithm::Sha1 => "SHA1"@,
            HashAlgorithm::Sha224 => "SHA224"@,
            HashAlgorithm::Sha256 => "SHA256"@,
            HashAlgorithm::Sha384 => "SHA384"@,
            HashAlgorithm::Sha512 => "SHA512"@,
        }
    }

    /// The name of this hash as it is written at a backend boundary.
    pub fn name(self) -> (s: &'static str)
        ensures
            s@ == self.spec_name(),
    {
        match self {
            HashAlgorithm::Sha1 => "SHA1",
            HashAlgorithm::Sha224 => "SHA224",
            HashAlgorithm::Sha256 => "SHA256",
            HashAlgorithm::Sha384 => "SHA384",
            HashAlgorithm::Sha512 => "SHA512",
        }
    }
}

impl KeyType {
    /// The name of this key type as it is written at a backend boundary.
    pub open spec fn spec_name(self) -> Seq<char> {
        match self {
            KeyType::EllipticCurve => "EC"@,
            KeyType::Rsa => "RSA"@,
        }
    }

    /// The name of this key type as it is written at a backend boundary.
    pub fn name(self) -> (s: &'static str)
        ensures
            s@ == self.spec_name(),
    {
        match self {
            KeyType::EllipticCurve => "EC",
            KeyType::Rsa => "RSA",
        }
    }
}

/// An opaque token that names a key within a backend's namespace.
///
/// The token is never empty and never changes once the identifier exists.
#[derive(Debug)]
pub struct KeyIdentifier {
    token: String,
}

impl View for KeyIdentifier {
    type V = Seq<char>;

    closed spec fn view(&self) -> Seq<char> {
        self.token@
    }
}

impl KeyIdentifier {
    #[verifier::type_invariant]
    spec fn token_is_not_empty(self) -> bool {
        self.token@.len() > 0
    }

    /// Wraps `token`, or returns `None` when it is empty.
    pub fn new(token: String) -> (r: Option<KeyIdentifier>)
        ensures
            r is None <==> token@.len() == 0,
            r matches Some(id) ==> id@ == token@,
    {
        if token.as_str().is_empty() {
            None
        } else {
            Some(KeyIdentifier { token })
        }
    }

    /// The token itself.
    pub fn as_str(&self) -> (s: &str)
        ensures
            s@ == self@,
            s@.len() > 0,
    {
        proof {
            use_type_invariant(self);
        }
        self.token.as_str()
    }
}

impl Clone for KeyIdentifier {
    fn clone(&self) -> (c: KeyIdentifier)
        ensures
            c@ == self@,
    {
        proof {
            use_type_invariant(self);
        }
        KeyIdentifier { token: self.token.clone() }
    }
}

} // verus!

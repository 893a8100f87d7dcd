//! The closed set of failures that cross the provider boundary.

use vstd::prelude::*;

verus! {

/// The kind of a failure, without its message.
#[derive(Clone, Copy, Debug, PartialEq, Eq, Structural)]
pub enum ErrorKind {
    /// A byte sequence is not valid for the encoding an operation expects.
    DataConversion,
    /// The backend could not produce a signature.
    Signing,
    /// The backend could not encrypt.
    Encryption,
    /// The backend could not decrypt.
    Decryption,
    /// The backend could not carry out a signature comparison.
    SignatureVerification,
    /// The backend could not be initialised or reached.
    BackendUnavailable,
    /// The backend does not advertise the requested algorithm spec.
    UnsupportedAlgorithm,
    /// The backend knows no key under the given identifier.
    KeyNotFound,
    /// The backend misbehaved: it failed internally or sent a malformed reply.
    Backend,
}

/// Mathematical model of a `SecurityModuleError`: its kind, its message and
/// the error that caused it, if one was attached.
pub ghost struct ErrorView {
    pub kind: ErrorKind,
    pub message: Seq<char>,
    pub cause: Option<SecurityModuleError>,
}

/// The model of an error of the given kind and message that has no cause.
pub open spec fn error_view(kind: ErrorKind, message: Seq<char>) -> ErrorView {
    ErrorView { kind, message, cause: None }
}

/// The model of an error of the given kind and message with the given cause.
pub open spec fn caused_error_view(
    kind: ErrorKind,
    message: Seq<char>,
    cause: Option<Box<SecurityModuleError>>,
) -> ErrorView {
    ErrorView {
        kind,
        message,
        cause: match cause {
            Some(inner) => Some(*inner),
            None => None,
        },
    }
}

/// A failure of a key operation. Every variant carries a human-readable
/// message and, optionally, the error that caused it.
#[derive(Debug, PartialEq, Eq)]
pub enum SecurityModuleError {
    DataConversionError(String, Option<Box<SecurityModuleError>>),
    SigningError(String, Option<Box<SecurityModuleError>>),
    EncryptionError(String, Option<Box<SecurityModuleError>>),
    DecryptionError(String, Option<Box<SecurityModuleError>>),
    SignatureVerificationError(String, Option<Box<SecurityModuleError>>),
    BackendUnavailable(String, Option<Box<SecurityModuleError>>),
    UnsupportedAlgorithm(String, Option<Box<SecurityModuleError>>),
    KeyNotFound(String, Option<Box<SecurityModuleError>>),
    BackendError(String, Option<Box<SecurityModuleError>>),
}

impl View for SecurityModuleError {
    type V = ErrorView;

    open spec fn view(&self) -> ErrorView {
        match self {
            SecurityModuleError::DataConversionError(m, c) => caused_error_view(ErrorKind::DataConversion, m@, *c),
            SecurityModuleError::SigningError(m, c) => caused_error_view(ErrorKind::Signing, m@, *c),
            SecurityModuleError::EncryptionError(m, c) => caused_error_view(ErrorKind::Encryption, m@, *c),
            SecurityModuleError::DecryptionError(m, c) => caused_error_view(ErrorKind::Decryption, m@, *c),
            SecurityModuleError::SignatureVerificationError(m, c) => caused_error_view(ErrorKind::SignatureVerification, m@, *c),
            SecurityModuleError::BackendUnavailable(m, c) => caused_error_view(ErrorKind::BackendUnavailable, m@, *c),
            SecurityModuleError::UnsupportedAlgorithm(m, c) => caused_error_view(ErrorKind::UnsupportedAlgorithm, m@, *c),
            SecurityModuleError::KeyNotFound(m, c) => caused_error_view(ErrorKind::KeyNotFound, m@, *c),
            SecurityModuleError::BackendError(m, c) => caused_error_view(ErrorKind::Backend, m@, *c),
        }
    }
}

impl SecurityModuleError {
    /// Builds the variant that belongs to `kind` from its parts.
    fn from_parts(
        kind: ErrorKind,
        message: String,
        cause: Option<Box<SecurityModuleError>>,
    ) -> (e: SecurityModuleError)
        ensures
            e@ == caused_error_view(kind, message@, cause),
    {
        match kind {
            ErrorKind::DataConversion => SecurityModuleError::DataConversionError(message, cause),
            ErrorKind::Signing => SecurityModuleError::SigningError(message, cause),
            ErrorKind::Encryption => SecurityModuleError::EncryptionError(message, cause),
            ErrorKind::Decryption => SecurityModuleError::DecryptionError(message, cause),
            ErrorKind::SignatureVerification => SecurityModuleError::SignatureVerificationError(message, cause),
            ErrorKind::BackendUnavailable => SecurityModuleError::BackendUnavailable(message, cause),
            ErrorKind::UnsupportedAlgorithm => SecurityModuleError::UnsupportedAlgorithm(message, cause),
            ErrorKind::KeyNotFound => SecurityModuleError::KeyNotFound(message, cause),
            ErrorKind::Backend => SecurityModuleError::BackendError(message, cause),
        }
    }

    /// Takes the error apart into its kind, its message and its cause.
    fn into_parts(self) -> (parts: (ErrorKind, String, Option<Box<SecurityModuleError>>))
        ensures
            self@ == caused_error_view(parts.0, parts.1@, parts.2),
    {
        match self {
            SecurityModuleError::DataConversionError(m, c) => (ErrorKind::DataConversion, m, c),
            SecurityModuleError::SigningError(m, c) => (ErrorKind::Signing, m, c),
            SecurityModuleError::EncryptionError(m, c) => (ErrorKind::Encryption, m, c),
            SecurityModuleError::DecryptionError(m, c) => (ErrorKind::Decryption, m, c),
            SecurityModuleError::SignatureVerificationError(m, c) => (ErrorKind::SignatureVerification, m, c),
            SecurityModuleError::BackendUnavailable(m, c) => (ErrorKind::BackendUnavailable, m, c),
            SecurityModuleError::UnsupportedAlgorithm(m, c) => (ErrorKind::UnsupportedAlgorithm, m, c),
            SecurityModuleError::KeyNotFound(m, c) => (ErrorKind::KeyNotFound, m, c),
            SecurityModuleError::BackendError(m, c) => (ErrorKind::Backend, m, c),
        }
    }

    /// Builds the variant that belongs to `kind`, carrying `message` unchanged
    /// and no cause.
    pub fn new(kind: ErrorKind, message: String) -> (e: SecurityModuleError)
        ensures
            e@ == error_view(kind, message@),
    {
        SecurityModuleError::from_parts(kind, message, None)
    }

    /// The same error with `cause` attached as the error that caused it. A
    /// cause attached earlier is replaced.
    pub fn with_cause(self, cause: SecurityModuleError) -> (e: SecurityModuleError)
        ensures
            e@.kind == self@.kind,
            e@.message == self@.message,
            e@.cause == Some(cause),
    {
        let (kind, message, _) = self.into_parts();
        SecurityModuleError::from_parts(kind, message, Some(Box::new(cause)))
    }

    /// The kind of this error.
    pub fn kind(&self) -> (k: ErrorKind)
        ensures
            k == self@.kind,
    {
        match self {
            SecurityModuleError::DataConversionError(_, _) => ErrorKind::DataConversion,
            SecurityModuleError::SigningError(_, _) => ErrorKind::Signing,
            SecurityModuleError::EncryptionError(_, _) => ErrorKind::Encryption,
            SecurityModuleError::DecryptionError(_, _) => ErrorKind::Decryption,
            SecurityModuleError::SignatureVerificationError(_, _) => ErrorKind::SignatureVerification,
            SecurityModuleError::BackendUnavailable(_, _) => ErrorKind::BackendUnavailable,
            SecurityModuleError::UnsupportedAlgorithm(_, _) => ErrorKind::UnsupportedAlgorithm,
            SecurityModuleError::KeyNotFound(_, _) => ErrorKind::KeyNotFound,
            SecurityModuleError::BackendError(_, _) => ErrorKind::Backend,
        }
    }

    /// The message this error carries.
    pub fn message(&self) -> (m: &str)
        ensures
            m@ == self@.message,
    {
        match self {
            SecurityModuleError::DataConversionError(m, _) => m.as_str(),
            SecurityModuleError::SigningError(m, _) => m.as_str(),
            SecurityModuleError::EncryptionError(m, _) => m.as_str(),
            SecurityModuleError::DecryptionError(m, _) => m.as_str(),
            SecurityModuleError::SignatureVerificationError(m, _) => m.as_str(),
            SecurityModuleError::BackendUnavailable(m, _) => m.as_str(),
            SecurityModuleError::UnsupportedAlgorithm(m, _) => m.as_str(),
            SecurityModuleError::KeyNotFound(m, _) => m.as_str(),
            SecurityModuleError::BackendError(m, _) => m.as_str(),
        }
    }

    /// The error that caused this one, if one was attached.
    pub fn cause(&self) -> (c: Option<&SecurityModuleError>)
        ensures
            c matches Some(inner) ==> self@.cause == Some(*inner),
            c is None <==> self@.cause is None,
    {
        let cause = match self {
            SecurityModuleError::DataConversionError(_, c) => c,
            SecurityModuleError::SigningError(_, c) => c,
            SecurityModuleError::EncryptionError(_, c) => c,
            SecurityModuleError::DecryptionError(_, c) => c,
            SecurityModuleError::SignatureVerificationError(_, c) => c,
            SecurityModuleError::BackendUnavailable(_, c) => c,
            SecurityModuleError::UnsupportedAlgorithm(_, c) => c,
            SecurityModuleError::KeyNotFound(_, c) => c,
            SecurityModuleError::BackendError(_, c) => c,
        };
        match cause {
            Some(inner) => Some(&**inner),
            None => None,
        }
    }
}

} // verus!

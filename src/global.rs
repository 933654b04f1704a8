use std::io::ErrorKind;
use vstd::prelude::*;

verus! {

/// Renders a value with its secret parts in the clear.
/// Never call this in production: it leaks the secret data.
pub trait DangerousDebugPrint {
    fn dangerous_debug(&self) -> String;
}

/// What a successful wallet operation did.
#[derive(Debug, PartialEq, Eq, Structural)]
pub enum LyreWalletOps {
    /// The keypair was written as plain bytes (debugging only).
    KeySavedToDangerousStorage,
    LoadedKeyPair,
}

/// Whether scrubbing the private key was observed to leave only zero bytes.
#[derive(Debug, PartialEq, Eq, Structural)]
pub enum ZeroizeOutcome {
    Completed,
    Failed,
}

/// How the private half of a stored record is encoded.
#[derive(Debug, PartialEq, Eq, Structural)]
pub enum StorageCipher {
    PlainBytes,
    Base58,
    XChaCha20Blake3Aead,
    XChaCha12Blake3Aead,
    XChaCha8Blake3Aead,
    UnsupportedCipher,
}

pub type Result<T> = std::result::Result<T, LyreChainError>;

#[derive(Debug, PartialEq, Eq)]
pub enum LyreChainError {
    NotFound,
    PermissionDenied,
    ConnectionRefused,
    ConnectionReset,
    ConnectionAborted,
    NotConnected,
    AddrInUse,
    AddrNotAvailable,
    BrokenPipe,
    AlreadyExists,
    WouldBlock,
    InvalidInput,
    InvalidData,
    TimedOut,
    WriteZero,
    Interrupted,
    Other,
    UnexpectedEof,
    Unsupported,
    OutOfMemory,
    TryIntoU8_32LenError,
    UnsupportedError(String),
}

#[verifier::external_type_specification]
pub struct ExErrorKind(ErrorKind);

#[verifier::external_type_specification]
#[verifier::external_body]
pub struct ExIoError(std::io::Error);

/// The kind of an I/O error, as `std::io::Error::kind` reports it.
pub uninterp spec fn io_error_kind_of(e: std::io::Error) -> ErrorKind;

/// Relies on `std::io::Error::kind`: the kind is read from the error value.
pub assume_specification[ std::io::Error::kind ](e: &std::io::Error) -> (r: ErrorKind)
    ensures
        r == io_error_kind_of(*e),
;

/// Relies on `<std::io::Error as Display>::to_string` for the text of an
/// error of a kind that has no variant of its own.
#[verifier::external_body]
fn io_error_text(e: &std::io::Error) -> String {
    e.to_string()
}

/// The library error for an I/O failure of the given kind; `message` is
/// carried only by kinds without a variant of their own.
pub open spec fn kind_error(kind: ErrorKind, message: String) -> LyreChainError {
    match kind {
        ErrorKind::NotFound => LyreChainError::NotFound,
        ErrorKind::PermissionDenied => LyreChainError::PermissionDenied,
        ErrorKind::ConnectionRefused => LyreChainError::ConnectionRefused,
        ErrorKind::ConnectionReset => LyreChainError::ConnectionReset,
        ErrorKind::ConnectionAborted => LyreChainError::ConnectionAborted,
        ErrorKind::NotConnected => LyreChainError::NotConnected,
        ErrorKind::AddrInUse => LyreChainError::AddrInUse,
        ErrorKind::AddrNotAvailable => LyreChainError::AddrNotAvailable,
        ErrorKind::BrokenPipe => LyreChainError::BrokenPipe,
        ErrorKind::AlreadyExists => LyreChainError::AlreadyExists,
        ErrorKind::WouldBlock => LyreChainError::WouldBlock,
        ErrorKind::InvalidInput => LyreChainError::InvalidInput,
        ErrorKind::InvalidData => LyreChainError::InvalidData,
        ErrorKind::TimedOut => LyreChainError::TimedOut,
        ErrorKind::WriteZero => LyreChainError::WriteZero,
        ErrorKind::Interrupted => LyreChainError::Interrupted,
        ErrorKind::Other => LyreChainError::Other,
        ErrorKind::UnexpectedEof => LyreChainError::UnexpectedEof,
        ErrorKind::Unsupported => LyreChainError::Unsupported,
        ErrorKind::OutOfMemory => LyreChainError::OutOfMemory,
        _ => LyreChainError::UnsupportedError(message),
    }
}

/// Maps an I/O failure kind into the library's error taxonomy.
pub fn error_from_kind(kind: ErrorKind, message: String) -> (r: LyreChainError)
    ensures
        r == kind_error(kind, message),
{
    match kind {
        ErrorKind::NotFound => LyreChainError::NotFound,
        ErrorKind::PermissionDenied => LyreChainError::PermissionDenied,
        ErrorKind::ConnectionRefused => LyreChainError::ConnectionRefused,
        ErrorKind::ConnectionReset => LyreChainError::ConnectionReset,
        ErrorKind::ConnectionAborted => LyreChainError::ConnectionAborted,
        ErrorKind::NotConnected => LyreChainError::NotConnected,
        ErrorKind::AddrInUse => LyreChainError::AddrInUse,
        ErrorKind::AddrNotAvailable => LyreChainError::AddrNotAvailable,
        ErrorKind::BrokenPipe => LyreChainError::BrokenPipe,
        ErrorKind::AlreadyExists => LyreChainError::AlreadyExists,
        ErrorKind::WouldBlock => LyreChainError::WouldBlock,
        ErrorKind::InvalidInput => LyreChainError::InvalidInput,
        ErrorKind::InvalidData => LyreChainError::InvalidData,
        ErrorKind::TimedOut => LyreChainError::TimedOut,
        ErrorKind::WriteZero => LyreChainError::WriteZero,
        ErrorKind::Interrupted => LyreChainError::Interrupted,
        ErrorKind::Other => LyreChainError::Other,
        ErrorKind::UnexpectedEof => LyreChainError::UnexpectedEof,
        ErrorKind::Unsupported => LyreChainError::Unsupported,
        ErrorKind::OutOfMemory => LyreChainError::OutOfMemory,
        _ => LyreChainError::UnsupportedError(message),
    }
}

impl From<std::io::Error> for LyreChainError {
    /// The error for the failure's kind; a kind without a variant of its own
    /// keeps the failure's text.
    fn from(error: std::io::Error) -> (r: Self)
        ensures
            exists|message: String| r == kind_error(io_error_kind_of(error), message),
    {
        let kind = error.kind();
        let message = io_error_text(&error);
        let r = error_from_kind(kind, message);
        assert(r == kind_error(io_error_kind_of(error), message));
        r
    }
}

/// Verus needs this beside a hand-written `From`. It claims nothing: what an
/// I/O error's kind and text are is not known to the verifier, so `from`
/// states its result through `kind_error` instead.
impl vstd::std_specs::convert::FromSpecImpl<std::io::Error> for LyreChainError {
    open spec fn obeys_from_spec() -> bool {
        false
    }

    open spec fn from_spec(error: std::io::Error) -> LyreChainError {
        LyreChainError::Other
    }
}

} // verus!

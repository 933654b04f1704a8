use lyre_wallet::{error_from_kind, LyreChainError};
use std::io::{Error, ErrorKind};

#[test]
fn io_kinds_map_to_their_own_variants() {
    let cases = [
        (ErrorKind::NotFound, LyreChainError::NotFound),
        (ErrorKind::PermissionDenied, LyreChainError::PermissionDenied),
        (ErrorKind::ConnectionRefused, LyreChainError::ConnectionRefused),
        (ErrorKind::ConnectionReset, LyreChainError::ConnectionReset),
        (ErrorKind::ConnectionAborted, LyreChainError::ConnectionAborted),
        (ErrorKind::NotConnected, LyreChainError::NotConnected),
        (ErrorKind::AddrInUse, LyreChainError::AddrInUse),
        (ErrorKind::AddrNotAvailable, LyreChainError::AddrNotAvailable),
        (ErrorKind::BrokenPipe, LyreChainError::BrokenPipe),
        (ErrorKind::AlreadyExists, LyreChainError::AlreadyExists),
        (ErrorKind::WouldBlock, LyreChainError::WouldBlock),
        (ErrorKind::InvalidInput, LyreChainError::InvalidInput),
        (ErrorKind::InvalidData, LyreChainError::InvalidData),
        (ErrorKind::TimedOut, LyreChainError::TimedOut),
        (ErrorKind::WriteZero, LyreChainError::WriteZero),
        (ErrorKind::Interrupted, LyreChainError::Interrupted),
        (ErrorKind::Other, LyreChainError::Other),
        (ErrorKind::UnexpectedEof, LyreChainError::UnexpectedEof),
        (ErrorKind::Unsupported, LyreChainError::Unsupported),
        (ErrorKind::OutOfMemory, LyreChainError::OutOfMemory),
    ];
    for (kind, expected) in cases {
        assert_eq!(error_from_kind(kind, String::from("ignored")), expected);
    }
}

#[test]
fn unlisted_io_kind_keeps_its_message() {
    assert_eq!(
        error_from_kind(ErrorKind::NotADirectory, String::from("not a directory")),
        LyreChainError::UnsupportedError(String::from("not a directory"))
    );
}

#[test]
fn io_error_converts_by_kind() {
    let e: LyreChainError = Error::new(ErrorKind::AlreadyExists, "exists").into();
    assert_eq!(e, LyreChainError::AlreadyExists);
    let e: LyreChainError = Error::from(ErrorKind::NotFound).into();
    assert_eq!(e, LyreChainError::NotFound);
}

#[test]
fn unlisted_io_error_carries_its_text() {
    let e: LyreChainError = Error::new(ErrorKind::IsADirectory, "is a dir").into();
    assert_eq!(e, LyreChainError::UnsupportedError(String::from("is a dir")));
}

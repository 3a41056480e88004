use bytestream::Error;
use bytestream::ErrorKind;
use bytestream::Repr;

#[test]
fn test_error_kind_strings() {
    assert_eq!(ErrorKind::NotFound.as_str(), "entity not found");
    assert_eq!(ErrorKind::PermissionDenied.as_str(), "permission denied");
    assert_eq!(ErrorKind::ConnectionRefused.as_str(), "connection refused");
    assert_eq!(ErrorKind::ConnectionReset.as_str(), "connection reset");
    assert_eq!(ErrorKind::ConnectionAborted.as_str(), "connection aborted");
    assert_eq!(ErrorKind::NotConnected.as_str(), "not connected");
    assert_eq!(ErrorKind::AddrInUse.as_str(), "address in use");
    assert_eq!(ErrorKind::AddrNotAvailable.as_str(), "address not available");
    assert_eq!(ErrorKind::BrokenPipe.as_str(), "broken pipe");
    assert_eq!(ErrorKind::AlreadyExists.as_str(), "entity already exists");
    assert_eq!(ErrorKind::WouldBlock.as_str(), "operation would block");
    assert_eq!(ErrorKind::InvalidInput.as_str(), "invalid input parameter");
    assert_eq!(ErrorKind::InvalidData.as_str(), "invalid data");
    assert_eq!(ErrorKind::TimedOut.as_str(), "timed out");
    assert_eq!(ErrorKind::WriteZero.as_str(), "write zero");
    assert_eq!(ErrorKind::Interrupted.as_str(), "operation interrupted");
    assert_eq!(ErrorKind::Other.as_str(), "other os error");
    assert_eq!(ErrorKind::UnexpectedEof.as_str(), "unexpected end of file");
}

#[test]
fn test_error_from_kind() {
    let err = Error::from(ErrorKind::NotFound);
    assert_eq!(err.repr, Repr::Simple(ErrorKind::NotFound));
    let err: Error = ErrorKind::TimedOut.into();
    assert_eq!(err.repr, Repr::Simple(ErrorKind::TimedOut));
}

#[test]
fn test_error_from_raw_os_error() {
    let err = Error::from_raw_os_error(2);
    assert_eq!(err.repr, Repr::Os(2));
    let err = Error::from_raw_os_error(-1);
    assert_eq!(err.repr, Repr::Os(-1));
    assert_ne!(Error::from_raw_os_error(2), Error::from(ErrorKind::NotFound));
}

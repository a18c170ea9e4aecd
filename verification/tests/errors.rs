use renogy::{Error, OpenFailure, OpenFailureKind, Outcome};
use std::io::ErrorKind;

fn failure(kind: OpenFailureKind, text: &str) -> OpenFailure {
    OpenFailure { kind, description: String::from(text) }
}

#[test]
fn missing_device_is_no_device() {
    let e = Error::from_open_failure(failure(
        OpenFailureKind::NoDevice,
        "No such file or directory",
    ));
    assert_eq!(e, Error::NoDevice(String::from("No such file or directory")));
    assert!(!matches!(e, Error::Unknown(_)));
}

#[test]
fn malformed_path_is_invalid_input() {
    let e = Error::from_open_failure(failure(OpenFailureKind::InvalidInput, "bad path"));
    assert_eq!(e, Error::InvalidInput(String::from("bad path")));
}

#[test]
fn unclassified_failure_is_unknown() {
    let e = Error::from_open_failure(failure(OpenFailureKind::Unknown, "???"));
    assert_eq!(e, Error::Unknown(String::from("???")));
}

#[test]
fn io_failure_keeps_its_kind() {
    let e = Error::from_open_failure(failure(
        OpenFailureKind::Io(ErrorKind::PermissionDenied),
        "Permission denied",
    ));
    assert_eq!(e, Error::Io(ErrorKind::PermissionDenied));
    let e = Error::from_open_failure(failure(OpenFailureKind::Io(ErrorKind::NotFound), ""));
    assert_eq!(e, Error::Io(ErrorKind::NotFound));
}

#[test]
fn open_never_times_out() {
    let kinds = [
        OpenFailureKind::NoDevice,
        OpenFailureKind::InvalidInput,
        OpenFailureKind::Unknown,
        OpenFailureKind::Io(ErrorKind::TimedOut),
    ];
    for kind in kinds {
        assert_ne!(Error::from_open_failure(failure(kind, "d")), Error::Timeout);
    }
}

#[test]
fn words_become_an_ok_reply() {
    assert_eq!(Outcome::Words(vec![1, 2]).into_reply(), Ok(vec![1, 2]));
    assert_eq!(Outcome::Words(vec![]).into_reply(), Ok(vec![]));
}

#[test]
fn transport_fault_becomes_io() {
    assert_eq!(
        Outcome::Fault(ErrorKind::InvalidData).into_reply(),
        Err(Error::Io(ErrorKind::InvalidData))
    );
    assert_eq!(
        Outcome::Fault(ErrorKind::BrokenPipe).into_reply(),
        Err(Error::Io(ErrorKind::BrokenPipe))
    );
}

#[test]
fn elapsed_time_becomes_timeout() {
    assert_eq!(Outcome::Elapsed.into_reply(), Err(Error::Timeout));
}

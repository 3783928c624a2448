use std::io::{Error, ErrorKind};

use adb_sync::message::decimal_text;
use adb_sync::outcome::AdbError;

#[test]
fn spawn_error_message_ends_with_the_os_text() {
    let err = AdbError::SpawnError(Error::new(ErrorKind::NotFound, "program not found"));
    assert_eq!(err.message(), "Error spawning adb: program not found");
    assert_eq!(err.message_with("x"), "Error spawning adb: x");
}

#[test]
fn wait_error_message_ends_with_the_os_text() {
    let err = AdbError::WaitError(Error::new(ErrorKind::Other, "interrupted"));
    assert_eq!(err.message(), "Error waiting on adb process: interrupted");
    assert_eq!(err.message_with(""), "Error waiting on adb process: ");
}

#[test]
fn nonzero_exit_message_names_the_code() {
    assert_eq!(
        AdbError::NonZeroExitCode(1).message(),
        "Error executing adb: Non zero exit code 1"
    );
    assert_eq!(
        AdbError::NonZeroExitCode(-255).message(),
        "Error executing adb: Non zero exit code -255"
    );
    assert_eq!(
        AdbError::NonZeroExitCode(7).message_with("unused"),
        "Error executing adb: Non zero exit code 7"
    );
}

#[test]
fn no_exit_code_message_is_fixed() {
    assert_eq!(
        AdbError::NoExitCode.message(),
        "Error executing adb: No exit code (because adb was likely terminated by a signal)"
    );
}

#[test]
fn decimal_text_agrees_with_the_standard_library() {
    for code in [0, 1, 9, 10, 11, 99, 100, 101, 4096, -1, -9, -10, -100, i32::MAX, i32::MIN] {
        assert_eq!(decimal_text(code), format!("{code}"));
    }
    assert_eq!(decimal_text(i32::MIN), "-2147483648");
    assert_eq!(decimal_text(1000), "1000");
}

//! Tests for the error type and its messages.

use cargo_rustc_cfg::Error;

#[test]
fn command_failure_message_contains_the_stderr_text() {
    let err = Error::Command(String::from("error: no such subcommand"));
    assert!(err.message().contains("error: no such subcommand"));
}

#[test]
fn missing_output_message_names_the_key() {
    let err = Error::MissingOutput(String::from("target_arch"));
    assert!(err.message().contains("target_arch"));
}

#[test]
fn generic_message_is_the_given_text() {
    let err = Error::Generic(String::from("something went wrong"));
    assert_eq!(err.message(), "something went wrong");
}

#[test]
fn io_message_describes_the_failure() {
    let err = Error::Io(String::from("file not found"));
    assert!(err.message().contains("file not found"));
}

#[test]
fn utf8_message_describes_the_failure() {
    let err = Error::FromUtf8(String::from("invalid byte at index 3"));
    assert!(err.message().contains("invalid byte at index 3"));
}

#[test]
fn a_string_converts_to_a_generic_error() {
    let err = Error::from(String::from("a message"));
    assert_eq!(err, Error::Generic(String::from("a message")));
}

use pulsectl::error::Awaited;
use pulsectl::state::Failure;
use pulsectl::{ControllerError, Error};

#[test]
fn error_text_names_each_variant() {
    assert_eq!(Error::Connect("a".to_string()).to_string(), "ConnectError: a");
    assert_eq!(Error::Operation("b".to_string()).to_string(), "OperationError: b");
    assert_eq!(Error::PulseAudio("c".to_string()).to_string(), "PulseAudioError: c");
    let inner = ControllerError::GetInfo("d");
    assert_eq!(Error::Controller(inner).to_string(), "ControllerError: Get info error: d");
}

#[test]
fn error_text_of_empty_message_is_the_prefix() {
    assert_eq!(Error::Connect(String::new()).to_string(), "ConnectError: ");
}

#[test]
fn controller_error_text_names_each_variant() {
    assert_eq!(ControllerError::PulseCtl("x".to_string()).to_string(), "Pulse ctl error: x");
    assert_eq!(ControllerError::GetInfo("y").to_string(), "Get info error: y");
}

#[test]
fn controller_error_keeps_the_text_of_the_error() {
    let e = ControllerError::from(Error::Operation("gone".to_string()));
    match e {
        ControllerError::PulseCtl(s) => assert_eq!(s, "OperationError: gone"),
        other => panic!("unexpected {:?}", other),
    }
}

#[test]
fn pulse_audio_error_keeps_the_code_text() {
    match Error::pulse_audio(Some("Access denied".to_string())) {
        Error::PulseAudio(s) => assert_eq!(s, "Access denied"),
        other => panic!("unexpected {:?}", other),
    }
}

#[test]
fn pulse_audio_error_without_text_is_unknown() {
    match Error::pulse_audio(None) {
        Error::PulseAudio(s) => assert_eq!(s, "Unknown error"),
        other => panic!("unexpected {:?}", other),
    }
}

#[test]
fn ended_connection_is_a_connect_error() {
    match Error::from_failure(Failure::Ended, Awaited::Connection, None) {
        Error::Connect(s) => assert_eq!(s, "Context state failed/terminated without an error"),
        other => panic!("unexpected {:?}", other),
    }
}

#[test]
fn cancelled_operation_is_an_operation_error() {
    match Error::from_failure(Failure::Ended, Awaited::Operation, None) {
        Error::Operation(s) => assert_eq!(s, "Operation cancelled without an error"),
        other => panic!("unexpected {:?}", other),
    }
}

#[test]
fn loop_quit_during_connection_is_a_connect_error() {
    match Error::from_failure(Failure::LoopQuit(0), Awaited::Connection, None) {
        Error::Connect(s) => assert_eq!(s, "Iterate state quit without an error"),
        other => panic!("unexpected {:?}", other),
    }
}

#[test]
fn loop_quit_during_operation_is_an_operation_error() {
    match Error::from_failure(Failure::LoopQuit(1), Awaited::Operation, None) {
        Error::Operation(s) => assert_eq!(s, "Iterate state quit without an error"),
        other => panic!("unexpected {:?}", other),
    }
}

#[test]
fn loop_error_is_a_pulse_audio_error_in_either_wait() {
    for awaited in [Awaited::Connection, Awaited::Operation] {
        match Error::from_failure(Failure::LoopError(-1), awaited, Some("Bad state".to_string())) {
            Error::PulseAudio(s) => assert_eq!(s, "Bad state"),
            other => panic!("unexpected {:?}", other),
        }
        match Error::from_failure(Failure::LoopError(-1), awaited, None) {
            Error::PulseAudio(s) => assert_eq!(s, "Unknown error"),
            other => panic!("unexpected {:?}", other),
        }
    }
}

#[test]
fn code_text_is_ignored_for_other_failures() {
    match Error::from_failure(Failure::Ended, Awaited::Connection, Some("x".to_string())) {
        Error::Connect(s) => assert_eq!(s, "Context state failed/terminated without an error"),
        other => panic!("unexpected {:?}", other),
    }
}

use rkvm_client::device::DeviceError;
use rkvm_client::event::{Axis, Event};
use rkvm_client::protocol::{
    check_version, exit_code, ClientLoop, ClientState, LoopAction, Message, ReadOutcome,
    SessionError,
};
use rkvm_client::racer::{certificate_format, CertFormat, ConnectError, ConnectionRacer, RaceDecision};
use rkvm_client::PROTOCOL_VERSION;

#[test]
fn version_check_accepts_equal_versions() {
    assert_eq!(check_version(PROTOCOL_VERSION, PROTOCOL_VERSION), Ok(()));
}

#[test]
fn version_mismatch_fails_with_both_values() {
    assert_eq!(
        check_version(2, 3),
        Err(SessionError::VersionMismatch { local: 2, peer: 3 })
    );
}

#[test]
fn version_mismatch_never_enters_streaming() {
    let mut session = ClientLoop::new();
    assert_eq!(session.state(), ClientState::Handshaking);
    let r = session.on_handshake(2, 3);
    assert_eq!(r, Err(SessionError::VersionMismatch { local: 2, peer: 3 }));
    assert_eq!(
        session.state(),
        ClientState::Closed { error: SessionError::VersionMismatch { local: 2, peer: 3 } }
    );
    assert_eq!(exit_code(&session.state()), 1);
}

#[test]
fn matching_versions_enter_streaming() {
    let mut session = ClientLoop::new();
    assert_eq!(session.on_handshake(1, 1), Ok(()));
    assert_eq!(session.state(), ClientState::Streaming);
}

#[test]
fn read_timeout_terminates_with_timeout_error() {
    let mut session = ClientLoop::new();
    session.on_handshake(1, 1).unwrap();
    let action = session.on_read(ReadOutcome::TimedOut);
    assert_eq!(action, LoopAction::Stop);
    assert_eq!(session.state(), ClientState::Closed { error: SessionError::Timeout });
    assert_eq!(exit_code(&session.state()), 1);
}

#[test]
fn read_failure_terminates_with_read_error() {
    let mut session = ClientLoop::new();
    session.on_handshake(1, 1).unwrap();
    assert_eq!(session.on_read(ReadOutcome::Failed), LoopAction::Stop);
    assert_eq!(session.state(), ClientState::Closed { error: SessionError::Read });
}

#[test]
fn events_are_dispatched_and_keepalives_ignored() {
    let mut session = ClientLoop::new();
    session.on_handshake(1, 1).unwrap();
    let e = Event::MouseMove { axis: Axis::X, delta: 2 };
    assert_eq!(
        session.on_read(ReadOutcome::Message { message: Message::Event(e) }),
        LoopAction::Dispatch { event: e }
    );
    assert_eq!(session.state(), ClientState::Streaming);
    assert_eq!(
        session.on_read(ReadOutcome::Message { message: Message::KeepAlive }),
        LoopAction::Ignore
    );
    assert_eq!(session.state(), ClientState::Streaming);
}

#[test]
fn device_write_failure_closes_the_session() {
    let mut session = ClientLoop::new();
    session.on_handshake(1, 1).unwrap();
    session.on_write_result(Ok(()));
    assert_eq!(session.state(), ClientState::Streaming);
    session.on_write_result(Err(DeviceError::Os { errno: 5 }));
    assert_eq!(
        session.state(),
        ClientState::Closed { error: SessionError::Device { error: DeviceError::Os { errno: 5 } } }
    );
}

#[test]
fn cancellation_exits_cleanly() {
    let mut session = ClientLoop::new();
    session.on_handshake(1, 1).unwrap();
    session.on_cancel();
    assert_eq!(session.state(), ClientState::Cancelled);
    assert_eq!(exit_code(&session.state()), 0);
}

#[test]
fn first_success_is_adopted_without_waiting() {
    // Three candidates; the first observed completion succeeds, and
    // the race adopts it at once with two attempts still in flight.
    let mut racer = ConnectionRacer::new(3);
    assert_eq!(racer.on_completion(Ok(())), RaceDecision::Adopt);
}

#[test]
fn failures_keep_racing_until_the_last() {
    let mut racer = ConnectionRacer::new(3);
    assert_eq!(racer.on_completion(Err(ConnectError::CertificateRead)), RaceDecision::Continue);
    assert_eq!(racer.on_completion(Err(ConnectError::Connect)), RaceDecision::Continue);
    assert_eq!(racer.on_completion(Err(ConnectError::CertificateParse)), RaceDecision::FailAll);
}

#[test]
fn late_success_still_wins() {
    let mut racer = ConnectionRacer::new(2);
    assert_eq!(racer.on_completion(Err(ConnectError::Connect)), RaceDecision::Continue);
    assert_eq!(racer.on_completion(Ok(())), RaceDecision::Adopt);
}

#[test]
fn certificate_format_prefers_der_then_pem() {
    assert_eq!(certificate_format(true, true), Some(CertFormat::Der));
    assert_eq!(certificate_format(true, false), Some(CertFormat::Der));
    assert_eq!(certificate_format(false, true), Some(CertFormat::Pem));
    assert_eq!(certificate_format(false, false), None);
}

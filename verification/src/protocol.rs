//! The protocol session: version handshake and the timeout-bounded
//! message loop, as a state machine.
//!
//! After the shell has established the encrypted stream, it writes the
//! local protocol version, reads the peer's, and hands both to
//! [`ClientLoop::on_handshake`].  While streaming, every read outcome
//! (a framed message, a timeout, a transport failure) and every device
//! write result is reported to the machine, which decides what happens
//! next.  There is no retry and no reconnect anywhere: every error is
//! fatal to the session, and only the external shutdown signal ends it
//! cleanly.

use vstd::prelude::*;

use crate::device::DeviceError;
use crate::event::Event;

verus! {

/// One framed message of the wire protocol.
#[derive(Clone, Copy, Debug, PartialEq, Eq, Structural)]
pub enum Message {
    /// An input event to inject.
    Event(Event),
    /// A keep-alive; its only purpose is to reset the read timeout.
    KeepAlive,
}

/// Why a session ended in failure.
#[derive(Clone, Copy, Debug, PartialEq, Eq, Structural)]
pub enum SessionError {
    /// The peer speaks a different protocol version; fatal, there is
    /// no negotiation or downgrade.
    VersionMismatch { local: u16, peer: u16 },
    /// No message arrived within the fixed read timeout.
    Timeout,
    /// The transport failed or closed mid-stream.
    Read,
    /// Injecting an event into a virtual device failed.
    Device { error: DeviceError },
}

/// Check the peer's protocol version against the local one: any
/// difference fails the handshake with both values.
pub fn check_version(local: u16, peer: u16) -> (r: Result<(), SessionError>)
    ensures
        r is Ok <==> local == peer,
        local != peer ==> r == Err::<(), SessionError>(
            SessionError::VersionMismatch { local, peer },
        ),
{
    if local == peer {
        Ok(())
    } else {
        Err(SessionError::VersionMismatch { local, peer })
    }
}

/// The session's lifecycle state.
#[derive(Clone, Copy, Debug, PartialEq, Eq, Structural)]
pub enum ClientState {
    /// Versions not yet exchanged.
    Handshaking,
    /// Reading framed messages under the fixed timeout.
    Streaming,
    /// Ended in failure; the error is final, nothing reconnects.
    Closed { error: SessionError },
    /// Ended cleanly by the external shutdown signal.
    Cancelled,
}

/// What the shell observed from one bounded read.
#[derive(Clone, Copy, Debug, PartialEq, Eq, Structural)]
pub enum ReadOutcome {
    /// A framed message arrived in time.
    Message { message: Message },
    /// The fixed timeout elapsed with no message.
    TimedOut,
    /// The transport failed or closed.
    Failed,
}

/// What the shell must do after reporting a read.
#[derive(Clone, Copy, Debug, PartialEq, Eq, Structural)]
pub enum LoopAction {
    /// Deliver this event to the event writer.
    Dispatch { event: Event },
    /// Nothing to do (a keep-alive arrived).
    Ignore,
    /// The session is over; stop reading.
    Stop,
}

/// The client session state machine.
pub struct ClientLoop {
    state: ClientState,
}

impl ClientLoop {
    /// The current lifecycle state.
    pub closed spec fn state_spec(&self) -> ClientState {
        self.state
    }

    /// A fresh session, versions not yet exchanged.
    pub fn new() -> (s: Self)
        ensures
            s.state_spec() == ClientState::Handshaking,
    {
        ClientLoop { state: ClientState::Handshaking }
    }

    /// The current lifecycle state.
    pub fn state(&self) -> (s: ClientState)
        ensures
            s == self.state_spec(),
    {
        self.state
    }

    /// Report the exchanged protocol versions.  Equal versions enter
    /// the streaming loop; any mismatch closes the session at once —
    /// the streaming state is never reached.
    pub fn on_handshake(&mut self, local: u16, peer: u16) -> (r: Result<(), SessionError>)
        requires
            old(self).state_spec() == ClientState::Handshaking,
        ensures
            local == peer ==> r is Ok && final(self).state_spec() == ClientState::Streaming,
            local != peer ==> {
                &&& r == Err::<(), SessionError>(SessionError::VersionMismatch { local, peer })
                &&& final(self).state_spec() == (ClientState::Closed {
                    error: SessionError::VersionMismatch { local, peer },
                })
            },
    {
        match check_version(local, peer) {
            Ok(_) => {
                self.state = ClientState::Streaming;
                Ok(())
            },
            Err(error) => {
                self.state = ClientState::Closed { error };
                Err(error)
            },
        }
    }

    /// Report one bounded read.  An event is dispatched, a keep-alive
    /// is ignored, and a timeout or transport failure closes the
    /// session with the matching error — a timed-out read always
    /// terminates the loop, never hangs it.
    pub fn on_read(&mut self, outcome: ReadOutcome) -> (r: LoopAction)
        requires
            old(self).state_spec() == ClientState::Streaming,
        ensures
            outcome matches ReadOutcome::Message { message: Message::Event(e) } ==> {
                &&& r == (LoopAction::Dispatch { event: e })
                &&& final(self).state_spec() == ClientState::Streaming
            },
            outcome == (ReadOutcome::Message { message: Message::KeepAlive }) ==> {
                &&& r == LoopAction::Ignore
                &&& final(self).state_spec() == ClientState::Streaming
            },
            outcome == ReadOutcome::TimedOut ==> {
                &&& r == LoopAction::Stop
                &&& final(self).state_spec() == (ClientState::Closed {
                    error: SessionError::Timeout,
                })
            },
            outcome == ReadOutcome::Failed ==> {
                &&& r == LoopAction::Stop
                &&& final(self).state_spec() == (ClientState::Closed { error: SessionError::Read })
            },
    {
        match outcome {
            ReadOutcome::Message { message: Message::Event(event) } => LoopAction::Dispatch {
                event,
            },
            ReadOutcome::Message { message: Message::KeepAlive } => LoopAction::Ignore,
            ReadOutcome::TimedOut => {
                self.state = ClientState::Closed { error: SessionError::Timeout };
                LoopAction::Stop
            },
            ReadOutcome::Failed => {
                self.state = ClientState::Closed { error: SessionError::Read };
                LoopAction::Stop
            },
        }
    }

    /// Report the outcome of a dispatched device write.  A write
    /// failure is fatal to the session; it is not retried.
    pub fn on_write_result(&mut self, result: Result<(), DeviceError>)
        requires
            old(self).state_spec() == ClientState::Streaming,
        ensures
            result is Ok ==> final(self).state_spec() == ClientState::Streaming,
            result matches Err(e) ==> final(self).state_spec() == (ClientState::Closed {
                error: SessionError::Device { error: e },
            }),
    {
        match result {
            Ok(_) => {},
            Err(error) => {
                self.state = ClientState::Closed { error: SessionError::Device { error } };
            },
        }
    }

    /// The external shutdown signal fired first: the in-flight work is
    /// abandoned and the session ends cleanly.
    pub fn on_cancel(&mut self)
        requires
            old(self).state_spec() == ClientState::Handshaking || old(self).state_spec()
                == ClientState::Streaming,
        ensures
            final(self).state_spec() == ClientState::Cancelled,
    {
        self.state = ClientState::Cancelled;
    }
}

/// The process exit code of a finished session: cancellation by the
/// shutdown signal is a clean exit, every closed session is a failure.
pub fn exit_code(state: &ClientState) -> (r: i32)
    requires
        state matches ClientState::Closed { .. } || *state == ClientState::Cancelled,
    ensures
        *state == ClientState::Cancelled ==> r == 0,
        (state matches ClientState::Closed { .. }) ==> r == 1,
{
    match *state {
        ClientState::Cancelled => 0,
        _ => 1,
    }
}

} // verus!

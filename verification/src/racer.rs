//! Connection racing: one concurrent attempt per configured server,
//! the first success wins.
//!
//! Each attempt reads the server's certificate from disk, parses it
//! (DER first, PEM as the fallback) and opens a TCP connection; all of
//! that is I/O the shell performs.  [`ConnectionRacer`] is the
//! decision core: fed the attempts' completions in the order they are
//! observed, it adopts the first success at once — without waiting for
//! the attempts still in flight — and fails only when every attempt
//! has failed, preserving the last observed cause.

use vstd::prelude::*;

verus! {

/// Why one connection attempt failed.
#[derive(Clone, Copy, Debug, PartialEq, Eq, Structural)]
pub enum ConnectError {
    /// The certificate file could not be read.
    CertificateRead,
    /// The certificate parsed neither as DER nor as PEM.
    CertificateParse,
    /// The TCP connection could not be opened.
    Connect,
}

/// The encoding a certificate was accepted under.
#[derive(Clone, Copy, Debug, PartialEq, Eq, Structural)]
pub enum CertFormat {
    Der,
    Pem,
}

/// Which encoding to keep for a certificate, given whether each parse
/// succeeded: DER is preferred, PEM is tried only on DER failure, and
/// when both fail the certificate is unusable.
pub fn certificate_format(der_ok: bool, pem_ok: bool) -> (r: Option<CertFormat>)
    ensures
        der_ok ==> r == Some(CertFormat::Der),
        !der_ok && pem_ok ==> r == Some(CertFormat::Pem),
        r is None <==> !der_ok && !pem_ok,
{
    if der_ok {
        Some(CertFormat::Der)
    } else if pem_ok {
        Some(CertFormat::Pem)
    } else {
        None
    }
}

/// What the race does with one observed completion.
#[derive(Clone, Copy, Debug, PartialEq, Eq, Structural)]
pub enum RaceDecision {
    /// The completion succeeded: adopt it, abandon every other
    /// attempt (dropping them is enough — a failed or abandoned
    /// attempt has no externally visible side effects).
    Adopt,
    /// The completion failed but attempts are still in flight: keep
    /// racing; the failed attempt does not retry.
    Continue,
    /// The completion failed and it was the last attempt: the race is
    /// lost with this attempt's error as the cause.
    FailAll,
}

#[derive(Clone, Copy)]
enum RaceState {
    Running,
    Won,
    Lost,
}

/// The decision core of the connection race.
///
/// The shell launches one attempt per configured server and reports
/// each completion as it is observed; the racer says whether to adopt
/// it, keep waiting, or give up.
pub struct ConnectionRacer {
    pending: usize,
    state: RaceState,
    cause: Option<ConnectError>,
}

impl ConnectionRacer {
    /// How many attempts are still unresolved.
    pub closed spec fn pending_spec(&self) -> usize {
        self.pending
    }

    /// Whether the race is still waiting for completions.
    pub closed spec fn running(&self) -> bool {
        self.state is Running
    }

    /// Whether a successful attempt has been adopted.
    pub closed spec fn won(&self) -> bool {
        self.state is Won
    }

    /// Whether every attempt has failed.
    pub closed spec fn lost(&self) -> bool {
        self.state is Lost
    }

    /// The preserved underlying cause of a lost race.
    pub closed spec fn cause_spec(&self) -> Option<ConnectError> {
        self.cause
    }

    /// While running, at least one attempt is unresolved; a lost race
    /// has a cause.
    pub closed spec fn wf(&self) -> bool {
        &&& self.running() ==> self.pending >= 1
        &&& self.lost() ==> self.cause is Some
    }

    /// Start a race over `candidates` connection attempts.
    pub fn new(candidates: usize) -> (s: Self)
        requires
            candidates >= 1,
        ensures
            s.wf(),
            s.running(),
            s.pending_spec() == candidates,
    {
        ConnectionRacer { pending: candidates, state: RaceState::Running, cause: None }
    }

    /// Report the completion observed next, in completion order.
    ///
    /// A success is adopted at once, however many attempts are still
    /// in flight; a failure removes that attempt from the race and
    /// loses the race only when it was the last one, preserving its
    /// error as the cause.
    pub fn on_completion(&mut self, outcome: Result<(), ConnectError>) -> (r: RaceDecision)
        requires
            old(self).wf(),
            old(self).running(),
        ensures
            final(self).wf(),
            outcome is Ok ==> r == RaceDecision::Adopt && final(self).won(),
            outcome is Err && old(self).pending_spec() > 1 ==> {
                &&& r == RaceDecision::Continue
                &&& final(self).running()
                &&& final(self).pending_spec() == old(self).pending_spec() - 1
            },
            outcome is Err && old(self).pending_spec() == 1 ==> {
                &&& r == RaceDecision::FailAll
                &&& final(self).lost()
                &&& final(self).cause_spec() == Some(outcome->Err_0)
            },
    {
        match outcome {
            Ok(_) => {
                self.state = RaceState::Won;
                RaceDecision::Adopt
            },
            Err(error) => {
                self.pending = self.pending - 1;
                if self.pending == 0 {
                    self.cause = Some(error);
                    self.state = RaceState::Lost;
                    RaceDecision::FailAll
                } else {
                    RaceDecision::Continue
                }
            },
        }
    }
}

} // verus!

use crate::steps::{StartupError, TransportError};
use vstd::prelude::*;

verus! {

/// Where one forwarding loop stands.
#[derive(PartialEq, Eq, Structural, Debug, Clone, Copy)]
pub enum LoopState {
    Running,
    /// Ended normally: its source was exhausted or closed.
    Done,
    /// Ended on a send failure.
    Failed,
}

/// The two forwarding loops of a relay, awaited jointly.
#[derive(PartialEq, Eq, Structural, Debug, Clone, Copy)]
pub struct RelayStatus {
    pub outbound: LoopState,
    pub inbound: LoopState,
}

impl RelayStatus {
    pub open spec fn spec_outbound_ended(self, sent_ok: bool) -> RelayStatus {
        RelayStatus {
            outbound: if sent_ok {
                LoopState::Done
            } else {
                LoopState::Failed
            },
            ..self
        }
    }

    pub open spec fn spec_inbound_ended(self) -> RelayStatus {
        RelayStatus { inbound: LoopState::Done, ..self }
    }

    /// A join: the relay is over only once neither loop is running.
    pub open spec fn spec_is_finished(self) -> bool {
        self.outbound != LoopState::Running && self.inbound != LoopState::Running
    }

    /// Both loops running, as right after the connection opens.
    pub fn start() -> (r: RelayStatus)
        ensures
            r.outbound == LoopState::Running,
            r.inbound == LoopState::Running,
    {
        RelayStatus { outbound: LoopState::Running, inbound: LoopState::Running }
    }

    /// The outbound loop has ended: on a drained queue when `sent_ok`, on a
    /// send failure otherwise. The inbound loop is left as it is.
    pub fn outbound_ended(&mut self, sent_ok: bool)
        ensures
            *final(self) == old(self).spec_outbound_ended(sent_ok),
    {
        self.outbound = if sent_ok {
            LoopState::Done
        } else {
            LoopState::Failed
        };
    }

    /// The connection's source has closed. The outbound loop is left as it is.
    pub fn inbound_ended(&mut self)
        ensures
            *final(self) == old(self).spec_inbound_ended(),
    {
        self.inbound = LoopState::Done;
    }

    pub fn is_finished(&self) -> (r: bool)
        ensures
            r == self.spec_is_finished(),
    {
        self.outbound != LoopState::Running && self.inbound != LoopState::Running
    }

    /// The relay's result once finished: a send failure is reported.
    pub fn outcome(&self) -> (r: Result<(), RelayError>)
        ensures
            r is Err <==> self.outbound == LoopState::Failed,
    {
        if self.outbound == LoopState::Failed {
            Err(RelayError::SendFailed)
        } else {
            Ok(())
        }
    }
}

/// Why a finished relay reports failure.
#[derive(PartialEq, Eq, Structural, Debug, Clone, Copy)]
pub enum RelayError {
    SendFailed,
}

/// The end of the input, or a send failure, does not stop the inbound
/// direction: the relay is not finished while the connection still delivers.
pub proof fn lemma_outbound_end_keeps_inbound(s: RelayStatus, sent_ok: bool)
    requires
        s.inbound == LoopState::Running,
    ensures
        s.spec_outbound_ended(sent_ok).inbound == LoopState::Running,
        !s.spec_outbound_ended(sent_ok).spec_is_finished(),
        s.spec_outbound_ended(sent_ok).spec_inbound_ended().spec_is_finished(),
{
}

/// Startup after the connection attempt: relaying begins, with both loops
/// running, only on a connection; a failed attempt ends the process before
/// any line is read.
pub fn after_connect(attempt: Result<(), TransportError>) -> (r: Result<RelayStatus, StartupError>)
    ensures
        attempt is Ok <==> r is Ok,
        r matches Ok(s) ==> s.outbound == LoopState::Running && s.inbound == LoopState::Running,
        attempt is Err ==> r == Err::<RelayStatus, StartupError>(StartupError::ConnectFailed),
{
    match attempt {
        Ok(()) => Ok(RelayStatus::start()),
        Err(_) => Err(StartupError::ConnectFailed),
    }
}

} // verus!

use vstd::prelude::*;
use crate::node::Node;

verus! {

/// What a finished remote command left behind.
pub struct CommandOutput {
    pub stdout: Vec<u8>,
    pub stderr: Vec<u8>,
    pub status: Option<i32>,
}

/// A failure reported by the transport while running a command.
pub enum TransportError {
    /// The connection to the host was dropped.
    Disconnected,
    /// Any other failure, with its description.
    Other(String),
}

/// Why an action failed on one host.
pub enum DispatchError {
    /// The connection dropped and the one reconnect attempt failed too.
    DisconnectedUnrecoverable(String),
    /// The command could not be run.
    Command(TransportError),
    /// The file could not be written on the host.
    RemoteWrite(String),
    /// The transfer ended before every byte of the file was written.
    PartialTransfer { expected: u64, written: u64 },
}

/// The result of one action on one host.
pub enum Outcome {
    /// The command ran on the first connection.
    Success(CommandOutput),
    /// The connection dropped, was re-established, and the command ran on it.
    RecoveredAndRetried(CommandOutput),
    /// The file was transferred; the number of bytes written.
    Transferred(u64),
    /// The action failed on this host.
    Failed(DispatchError),
}

/// Where a command run stands.
pub enum CommandStage {
    /// The command was issued on the session's connection.
    FirstAttempt,
    /// The connection dropped; a new one is being set up.
    Reconnecting,
    /// The command was issued again on the new connection.
    Retrying,
}

/// What the caller observed after carrying out the last step.
pub enum CommandEvent<C> {
    /// The command completed.
    Finished(CommandOutput),
    /// The command could not be run.
    Failed(TransportError),
    /// A new connection to the host was set up.
    Reconnected(C),
    /// Setting up a new connection failed, with the reason.
    ReconnectFailed(String),
}

/// What the caller is to do next.
pub enum CommandStep {
    /// Set up a new connection to the session's host.
    Reconnect,
    /// Issue the command on the session's connection.
    Execute,
    /// The run is over.
    Done(Outcome),
}

/// The outcome of one action on one host, with the host's address.
pub struct DispatchResult {
    pub host_address: String,
    pub outcome: Outcome,
}

/// A live connection `C` to the host described by `node`.
pub struct NodeSession<C> {
    pub node: Node,
    pub session: C,
}

/// Whether `event` can follow the step taken in `stage`.
pub open spec fn event_fits<C>(stage: CommandStage, event: CommandEvent<C>) -> bool {
    match stage {
        CommandStage::Reconnecting => event is Reconnected || event is ReconnectFailed,
        _ => event is Finished || event is Failed,
    }
}

/// The next stage and step of a command run: a dropped connection on the first
/// attempt leads to one reconnect and one retry; any other failure ends the run.
pub open spec fn next_step<C>(stage: CommandStage, event: CommandEvent<C>) -> (CommandStage, CommandStep) {
    match (stage, event) {
        (CommandStage::FirstAttempt, CommandEvent::Finished(o)) =>
            (stage, CommandStep::Done(Outcome::Success(o))),
        (CommandStage::FirstAttempt, CommandEvent::Failed(TransportError::Disconnected)) =>
            (CommandStage::Reconnecting, CommandStep::Reconnect),
        (CommandStage::Reconnecting, CommandEvent::Reconnected(_)) =>
            (CommandStage::Retrying, CommandStep::Execute),
        (CommandStage::Reconnecting, CommandEvent::ReconnectFailed(d)) =>
            (stage, CommandStep::Done(Outcome::Failed(DispatchError::DisconnectedUnrecoverable(d)))),
        (CommandStage::Retrying, CommandEvent::Finished(o)) =>
            (stage, CommandStep::Done(Outcome::RecoveredAndRetried(o))),
        (_, CommandEvent::Failed(e)) =>
            (stage, CommandStep::Done(Outcome::Failed(DispatchError::Command(e)))),
        _ => (stage, CommandStep::Execute),
    }
}

/// The outcome of a file transfer that was to write `expected` bytes.
pub open spec fn copy_verdict(expected: u64, written: Result<u64, String>) -> Outcome {
    match written {
        Ok(n) => if n == expected {
            Outcome::Transferred(n)
        } else {
            Outcome::Failed(DispatchError::PartialTransfer { expected, written: n })
        },
        Err(d) => Outcome::Failed(DispatchError::RemoteWrite(d)),
    }
}

/// A connection dropped once is recovered transparently: after the drop comes
/// one reconnect, then the command is issued again, and its output is returned
/// as it came.
pub proof fn lemma_recovers_after_one_drop<C>(output: CommandOutput, connection: C)
    ensures
        next_step(CommandStage::FirstAttempt, CommandEvent::<C>::Failed(TransportError::Disconnected))
            == (CommandStage::Reconnecting, CommandStep::Reconnect),
        next_step(CommandStage::Reconnecting, CommandEvent::Reconnected(connection))
            == (CommandStage::Retrying, CommandStep::Execute),
        next_step(CommandStage::Retrying, CommandEvent::<C>::Finished(output))
            == (CommandStage::Retrying, CommandStep::Done(Outcome::RecoveredAndRetried(output))),
{
}

/// A failed reconnect ends the run with an unrecoverable disconnect for that
/// host alone, carrying the reason it failed.
pub proof fn lemma_failed_reconnect<C>(reason: String)
    ensures
        next_step(CommandStage::Reconnecting, CommandEvent::<C>::ReconnectFailed(reason)).1
            == CommandStep::Done(Outcome::Failed(DispatchError::DisconnectedUnrecoverable(reason))),
{
}

/// A reconnect is asked for at most once per run: only from the first attempt.
pub proof fn lemma_single_reconnect<C>(stage: CommandStage, event: CommandEvent<C>)
    requires
        event_fits(stage, event),
        next_step(stage, event).1 is Reconnect,
    ensures
        stage is FirstAttempt,
        next_step(stage, event).0 is Reconnecting,
{
}

/// Whether `event` can follow the step taken in `stage`.
pub fn expects<C>(stage: &CommandStage, event: &CommandEvent<C>) -> (r: bool)
    ensures
        r == event_fits(*stage, *event),
{
    match stage {
        CommandStage::Reconnecting => match event {
            CommandEvent::Reconnected(_) | CommandEvent::ReconnectFailed(_) => true,
            _ => false,
        },
        _ => match event {
            CommandEvent::Finished(_) | CommandEvent::Failed(_) => true,
            _ => false,
        },
    }
}

impl<C> NodeSession<C> {
    /// Gives up the session, handing back its connection so that it is closed
    /// exactly once.
    pub fn close(self) -> (r: C)
        ensures
            r == self.session,
    {
        self.session
    }

    /// Reports an outcome as this session's.
    pub fn report(&self, outcome: Outcome) -> (r: DispatchResult)
        ensures
            r.host_address@ == self.node.public_address@,
            r.outcome == outcome,
    {
        DispatchResult { host_address: self.node.public_address.clone(), outcome }
    }

    /// The outcome of streaming a local file of `expected` bytes to this session:
    /// a transfer counts only when every byte was written.
    pub fn copy_file(&self, expected: u64, written: Result<u64, String>) -> (r: DispatchResult)
        ensures
            r.host_address@ == self.node.public_address@,
            r.outcome == copy_verdict(expected, written),
    {
        let outcome = match written {
            Ok(n) => if n == expected {
                Outcome::Transferred(n)
            } else {
                Outcome::Failed(DispatchError::PartialTransfer { expected, written: n })
            },
            Err(d) => Outcome::Failed(DispatchError::RemoteWrite(d)),
        };
        self.report(outcome)
    }

    /// Advances a run of a command on this session by one observed event. A new
    /// connection replaces the session's own; nothing else of the session changes.
    pub fn run_command(&mut self, stage: CommandStage, event: CommandEvent<C>) -> (r: (
        CommandStage,
        CommandStep,
    ))
        requires
            event_fits(stage, event),
        ensures
            r == next_step(stage, event),
            final(self).node == old(self).node,
            event matches CommandEvent::Reconnected(c) ==> final(self).session == c,
            !(event is Reconnected) ==> final(self).session == old(self).session,
    {
        match (stage, event) {
            (CommandStage::FirstAttempt, CommandEvent::Finished(o)) => (
                CommandStage::FirstAttempt,
                CommandStep::Done(Outcome::Success(o)),
            ),
            (CommandStage::FirstAttempt, CommandEvent::Failed(TransportError::Disconnected)) => (
                CommandStage::Reconnecting,
                CommandStep::Reconnect,
            ),
            (CommandStage::Reconnecting, CommandEvent::Reconnected(c)) => {
                self.session = c;
                (CommandStage::Retrying, CommandStep::Execute)
            },
            (CommandStage::Reconnecting, CommandEvent::ReconnectFailed(d)) => (
                CommandStage::Reconnecting,
                CommandStep::Done(Outcome::Failed(DispatchError::DisconnectedUnrecoverable(d))),
            ),
            (CommandStage::Retrying, CommandEvent::Finished(o)) => (
                CommandStage::Retrying,
                CommandStep::Done(Outcome::RecoveredAndRetried(o)),
            ),
            (s, CommandEvent::Failed(e)) => (s, CommandStep::Done(
                Outcome::Failed(DispatchError::Command(e)),
            )),
            (s, _) => (s, CommandStep::Execute),
        }
    }
}

} // verus!

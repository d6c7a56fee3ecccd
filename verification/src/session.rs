//! The life of a playing pipeline, as the streamer, the receiver and the recorder run
//! it: play, watch the bus until an error or the end of the stream, then stop. A
//! keyboard interrupt asks a live pipeline to end its stream, so that it stops cleanly.
//!
//! The application performs each step (setting states, reading the bus, sending events)
//! and hands the library what happened; the library decides what comes next.

use vstd::prelude::*;

verus! {

/// Where a session stands.
#[derive(Clone, Copy, Debug, PartialEq, Eq, Structural)]
pub enum Phase {
    /// The pipeline is built and not yet playing.
    Ready,
    /// The pipeline plays and its bus is being watched.
    Playing,
    /// Watching has ended; the pipeline is to be (or has been) set back to `Null`.
    Stopped,
}

/// The kind of a message read from the pipeline's bus.
#[derive(Clone, Copy, Debug, PartialEq, Eq, Structural)]
pub enum BusMessageKind {
    Error,
    EndOfStream,
    Other,
}

/// What the application does after a bus message.
#[derive(Clone, Copy, Debug, PartialEq, Eq, Structural)]
pub enum Reaction {
    /// Read the next bus message.
    KeepListening,
    /// Stop reading the bus and set the pipeline to `Null`, first reporting the error
    /// message's details when `report_error` holds.
    Shutdown { report_error: bool },
    /// The message arrived while the bus is not being watched: nothing to do.
    Ignore,
}

/// What the application does on a keyboard interrupt.
#[derive(Clone, Copy, Debug, PartialEq, Eq, Structural)]
pub enum InterruptAction {
    /// Send an end-of-stream event into the pipeline, so that it drains and ends.
    SendEndOfStream,
    /// The pipeline is gone: nothing to do.
    Ignore,
}

/// A stream session.
#[derive(Debug)]
pub struct Session {
    phase: Phase,
}

impl View for Session {
    type V = Phase;

    closed spec fn view(&self) -> Phase {
        self.phase
    }
}

/// The transition on a bus message: while playing, an error or the end of the stream
/// shuts the session down (reporting the error), and any other message is passed over.
/// Outside `Playing` messages are ignored.
pub open spec fn bus_step(phase: Phase, msg: BusMessageKind) -> (Phase, Reaction) {
    match phase {
        Phase::Playing => match msg {
            BusMessageKind::Error => (Phase::Stopped, Reaction::Shutdown { report_error: true }),
            BusMessageKind::EndOfStream => (Phase::Stopped, Reaction::Shutdown { report_error: false }),
            BusMessageKind::Other => (Phase::Playing, Reaction::KeepListening),
        },
        _ => (phase, Reaction::Ignore),
    }
}

/// Whether a message ends the watch of the bus.
pub open spec fn is_terminal(msg: BusMessageKind) -> bool {
    msg == BusMessageKind::Error || msg == BusMessageKind::EndOfStream
}

/// The phase after a sequence of bus messages.
pub open spec fn phase_after(phase: Phase, msgs: Seq<BusMessageKind>) -> Phase
    decreases msgs.len(),
{
    if msgs.len() == 0 {
        phase
    } else {
        phase_after(bus_step(phase, msgs[0]).0, msgs.drop_first())
    }
}

/// The number of shutdowns ordered over a sequence of bus messages.
pub open spec fn shutdowns(phase: Phase, msgs: Seq<BusMessageKind>) -> nat
    decreases msgs.len(),
{
    if msgs.len() == 0 {
        0
    } else {
        (if bus_step(phase, msgs[0]).1 is Shutdown { 1nat } else { 0nat })
            + shutdowns(bus_step(phase, msgs[0]).0, msgs.drop_first())
    }
}

/// The number of shutdowns over a sequence of bus messages that report an error.
pub open spec fn error_reports(phase: Phase, msgs: Seq<BusMessageKind>) -> nat
    decreases msgs.len(),
{
    if msgs.len() == 0 {
        0
    } else {
        (if bus_step(phase, msgs[0]).1 == (Reaction::Shutdown { report_error: true }) { 1nat } else { 0nat })
            + error_reports(bus_step(phase, msgs[0]).0, msgs.drop_first())
    }
}

/// Whether any message of the sequence ends the watch of the bus.
pub open spec fn has_terminal(msgs: Seq<BusMessageKind>) -> bool {
    exists|i: int| 0 <= i < msgs.len() && is_terminal(#[trigger] msgs[i])
}

/// Whether the first message of the sequence that ends the watch of the bus is an error.
pub open spec fn first_terminal_is_error(msgs: Seq<BusMessageKind>) -> bool
    decreases msgs.len(),
{
    if msgs.len() == 0 {
        false
    } else if is_terminal(msgs[0]) {
        msgs[0] == BusMessageKind::Error
    } else {
        first_terminal_is_error(msgs.drop_first())
    }
}

/// A stopped session stays stopped and orders nothing more.
proof fn lemma_stopped_is_final(msgs: Seq<BusMessageKind>)
    ensures
        phase_after(Phase::Stopped, msgs) == Phase::Stopped,
        shutdowns(Phase::Stopped, msgs) == 0,
        error_reports(Phase::Stopped, msgs) == 0,
    decreases msgs.len(),
{
    if msgs.len() > 0 {
        lemma_stopped_is_final(msgs.drop_first());
    }
}

/// Watching the bus of a playing pipeline: whatever messages arrive, the pipeline is
/// shut down at most once; it is shut down, and the session ends stopped, exactly when
/// an error or the end of the stream arrives; and an error is reported exactly when the
/// first such message is an error.
pub proof fn lemma_bus_watch(msgs: Seq<BusMessageKind>)
    ensures
        shutdowns(Phase::Playing, msgs) <= 1,
        shutdowns(Phase::Playing, msgs) == 1 <==> has_terminal(msgs),
        phase_after(Phase::Playing, msgs) == Phase::Stopped <==> has_terminal(msgs),
        !has_terminal(msgs) ==> phase_after(Phase::Playing, msgs) == Phase::Playing,
        error_reports(Phase::Playing, msgs) <= 1,
        error_reports(Phase::Playing, msgs) == 1 <==> first_terminal_is_error(msgs),
    decreases msgs.len(),
{
    if msgs.len() > 0 {
        let rest = msgs.drop_first();
        if is_terminal(msgs[0]) {
            lemma_stopped_is_final(rest);
            assert(has_terminal(msgs)) by {
                assert(is_terminal(msgs[0]));
            }
        } else {
            lemma_bus_watch(rest);
            assert(has_terminal(msgs) <==> has_terminal(rest)) by {
                if has_terminal(msgs) {
                    let i = choose|i: int| 0 <= i < msgs.len() && is_terminal(#[trigger] msgs[i]);
                    assert(i > 0);
                    assert(rest[i - 1] == msgs[i]);
                }
                if has_terminal(rest) {
                    let j = choose|j: int| 0 <= j < rest.len() && is_terminal(#[trigger] rest[j]);
                    assert(msgs[j + 1] == rest[j]);
                }
            }
        }
    } else {
        assert(!has_terminal(msgs));
    }
}

impl Session {
    /// A session whose pipeline is built and not yet playing.
    pub fn new() -> (s: Session)
        ensures
            s@ == Phase::Ready,
    {
        Session { phase: Phase::Ready }
    }

    /// The session's phase.
    pub fn phase(&self) -> (p: Phase)
        ensures
            p == self@,
    {
        self.phase
    }

    /// Records that the pipeline was set to `Playing`: the bus is watched from now on.
    /// Only a ready session starts; otherwise nothing changes.
    pub fn start(&mut self) -> (started: bool)
        ensures
            started == (old(self)@ == Phase::Ready),
            final(self)@ == (if started { Phase::Playing } else { old(self)@ }),
    {
        match self.phase {
            Phase::Ready => {
                self.phase = Phase::Playing;
                true
            },
            _ => false,
        }
    }

    /// Decides what follows a message read from the bus, as `bus_step` says.
    pub fn on_bus_message(&mut self, msg: BusMessageKind) -> (r: Reaction)
        ensures
            (final(self)@, r) == bus_step(old(self)@, msg),
    {
        match self.phase {
            Phase::Playing => match msg {
                BusMessageKind::Error => {
                    self.phase = Phase::Stopped;
                    Reaction::Shutdown { report_error: true }
                },
                BusMessageKind::EndOfStream => {
                    self.phase = Phase::Stopped;
                    Reaction::Shutdown { report_error: false }
                },
                BusMessageKind::Other => Reaction::KeepListening,
            },
            _ => Reaction::Ignore,
        }
    }
}

/// The action on a keyboard interrupt: end the stream of a live pipeline, else nothing.
pub open spec fn interrupt_action(pipeline_alive: bool) -> InterruptAction {
    if pipeline_alive { InterruptAction::SendEndOfStream } else { InterruptAction::Ignore }
}

/// What to do on a keyboard interrupt: ask the pipeline to end its stream when it is
/// still alive, and do nothing once it is gone.
pub fn on_interrupt(pipeline_alive: bool) -> (a: InterruptAction)
    ensures
        a == interrupt_action(pipeline_alive),
{
    if pipeline_alive {
        InterruptAction::SendEndOfStream
    } else {
        InterruptAction::Ignore
    }
}

/// A keyboard interrupt ends a playing session cleanly: the pipeline, while alive, is
/// sent the end of its stream, and that end arriving on the bus shuts the session down
/// without an error to report.
pub proof fn lemma_interrupt_ends_cleanly()
    ensures
        interrupt_action(true) == InterruptAction::SendEndOfStream,
        bus_step(Phase::Playing, BusMessageKind::EndOfStream) == (Phase::Stopped, Reaction::Shutdown { report_error: false }),
{
}

} // verus!

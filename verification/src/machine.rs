//! The protocol engine as a mathematical state machine.
//!
//! A session is either idle or running an operation. A running operation is
//! a plan, a position in it, the payload it sends from and the bytes it has
//! kept so far. `step` says what a session does with each event; the
//! executable session in `protocol` is proved to do exactly that.

use vstd::prelude::*;
use crate::message::{
    firmware_at, ActionView, EventView, OutcomeView, ProtocolErrorView, ReplyView, Stage,
};
use crate::plan::{
    command_end_steps, plan_fits, reset_retry_steps, scan_steps, Ending, Step,
};
use crate::wire::{CONFIG, NO, PRESENT, YES};

verus! {

/// An operation in progress. `plan[pc]` is the step whose action the host is
/// carrying out.
pub struct Machine {
    pub plan: Seq<Step>,
    pub pc: nat,
    pub outgoing: Seq<u8>,
    pub kept: Seq<u8>,
    pub ending: Ending,
}

/// A session: its two flags and the operation it is running, if any.
pub struct SessionView {
    pub vars_set: bool,
    pub fuses_set: bool,
    pub running: Option<Machine>,
}

impl Machine {
    /// A running operation always has a pending step, and never sends from
    /// beyond its payload.
    pub open spec fn wf(self) -> bool {
        &&& self.pc < self.plan.len()
        &&& plan_fits(self.plan, self.outgoing.len())
    }
}

impl SessionView {
    /// Whether the operation in progress, if there is one, is well formed.
    pub open spec fn wf(self) -> bool {
        self.running matches Some(machine) ==> machine.wf()
    }

    /// The same session with no operation in progress.
    pub open spec fn idle(self) -> SessionView {
        SessionView { running: None, ..self }
    }
}

/// The action that asks the host to carry out `step`.
pub open spec fn request(step: Step, outgoing: Seq<u8>) -> ActionView {
    match step {
        Step::Line(level) => ActionView::Line(level),
        Step::Pause(millis) => ActionView::Pause(millis),
        Step::Flush => ActionView::Flush,
        Step::SendByte(byte) => ActionView::Write(seq![byte]),
        Step::SendBlock { start, len } => ActionView::Write(
            outgoing.subrange(start as int, start + len),
        ),
        Step::Expect { timeout, .. } => ActionView::Read { count: 1, timeout },
        Step::Await { timeout, .. } => ActionView::Read { count: 1, timeout },
        Step::Collect { count, timeout } => ActionView::Read { count, timeout },
    }
}

/// Whether `step` is answered by `EventView::Done` rather than by bytes.
pub open spec fn is_output(step: Step) -> bool {
    step is Line || step is Pause || step is Flush || step is SendByte || step is SendBlock
}

/// Ending the operation in progress with `outcome`.
pub open spec fn halt(session: SessionView, outcome: OutcomeView) -> (SessionView, ActionView) {
    (session.idle(), ActionView::Finish(outcome))
}

/// Ending the operation in progress because the device broke the protocol.
pub open spec fn violation(session: SessionView, stage: Stage, expected: u8, received: Seq<u8>) -> (
    SessionView,
    ActionView,
) {
    halt(session, Err(ProtocolErrorView::Violation { stage, expected, received }))
}

/// Starting on a plan, which must not be empty: the session runs it from
/// its first step, with nothing kept, and asks for that step.
pub open spec fn launch(session: SessionView, plan: Seq<Step>, outgoing: Seq<u8>, ending: Ending) -> (
    SessionView,
    ActionView,
) {
    (
        SessionView {
            running: Some(Machine { plan, pc: 0, outgoing, kept: Seq::empty(), ending }),
            ..session
        },
        request(plan[0], outgoing),
    )
}

/// What the answer to a reset says. A programmer is present when the first
/// byte is `B`. When it is present and exactly two bytes arrived, the second
/// names its firmware, and must be one of the four known indices.
pub open spec fn presence(answer: Seq<u8>) -> OutcomeView {
    let present = answer.len() >= 1 && answer[0] == PRESENT;
    if present && answer.len() == 2 {
        match firmware_at(answer[1]) {
            Some(firmware) => Ok(ReplyView::Presence { present: true, firmware: Some(firmware) }),
            None => Err(ProtocolErrorView::Configuration(answer[1])),
        }
    } else {
        Ok(ReplyView::Presence { present, firmware: None })
    }
}

/// What a session does when the plan of its operation has run to the end:
/// it reports the result, or goes on with a further plan.
pub open spec fn conclude(session: SessionView, machine: Machine) -> (SessionView, ActionView) {
    let kept = machine.kept;
    match machine.ending {
        Ending::Presence { retry } => {
            if retry && kept.len() == 0 {
                launch(
                    session,
                    reset_retry_steps(),
                    Seq::empty(),
                    Ending::Presence { retry: false },
                )
            } else {
                halt(session, presence(kept))
            }
        },
        Ending::Status { success, stage, marks_vars } => {
            if kept.len() == 0 {
                violation(session, stage, success, kept)
            } else {
                let flag = kept[0] == success;
                halt(
                    SessionView { vars_set: session.vars_set || (marks_vars && flag), ..session },
                    Ok(ReplyView::Flag(flag)),
                )
            }
        },
        Ending::Choice { yes, no } => {
            if kept.len() >= 1 && (kept[0] == yes || kept[0] == no) {
                halt(session, Ok(ReplyView::Flag(kept[0] == yes)))
            } else {
                violation(session, Stage::Status, yes, kept)
            }
        },
        Ending::Data => halt(session, Ok(ReplyView::Data(kept))),
        Ending::Fixed(flag) => halt(session, Ok(ReplyView::Flag(flag))),
        Ending::Scan { budget } => {
            if kept.len() == 0 {
                violation(session, Stage::Status, YES, kept)
            } else if kept[0] == YES {
                launch(session, command_end_steps(), Seq::empty(), Ending::Fixed(true))
            } else if kept[0] == NO || kept[0] == CONFIG {
                launch(session, command_end_steps(), Seq::empty(), Ending::Fixed(false))
            } else if kept[0] == PRESENT && budget > 0 {
                launch(
                    session,
                    scan_steps(),
                    Seq::empty(),
                    Ending::Scan { budget: (budget - 1) as u16 },
                )
            } else {
                violation(session, Stage::Status, YES, kept)
            }
        },
    }
}

/// Moving on after a step was answered well: ask for the step the
/// operation has reached, or conclude if there is none.
pub open spec fn proceed(session: SessionView, machine: Machine) -> (SessionView, ActionView) {
    if machine.pc < machine.plan.len() {
        (
            SessionView { running: Some(machine), ..session },
            request(machine.plan[machine.pc as int], machine.outgoing),
        )
    } else {
        conclude(session, machine)
    }
}

/// What a session does with an event.
///
/// An idle session refuses every event. A failure of the transport ends the
/// operation. `Done` answers a step that drives, waits or sends; bytes
/// answer a step that reads, and are held against what the step demands. An
/// event of the wrong kind ends the operation.
pub open spec fn step(session: SessionView, event: EventView) -> (SessionView, ActionView) {
    match session.running {
        None => halt(session, Err(ProtocolErrorView::Sequence)),
        Some(machine) => {
            let current = machine.plan[machine.pc as int];
            let next = Machine { pc: machine.pc + 1, ..machine };
            match event {
                EventView::Failed => halt(session, Err(ProtocolErrorView::Transport)),
                EventView::Done => {
                    if is_output(current) {
                        proceed(session, next)
                    } else {
                        halt(session, Err(ProtocolErrorView::Sequence))
                    }
                },
                EventView::Received(bytes) => {
                    match current {
                        Step::Expect { byte, stage, .. } => {
                            if bytes == seq![byte] {
                                proceed(session, next)
                            } else {
                                violation(session, stage, byte, bytes)
                            }
                        },
                        Step::Await { byte, stage, .. } => {
                            if bytes.len() > 0 {
                                proceed(session, next)
                            } else {
                                violation(session, stage, byte, bytes)
                            }
                        },
                        Step::Collect { .. } => proceed(
                            session,
                            Machine { kept: machine.kept + bytes, ..next },
                        ),
                        _ => halt(session, Err(ProtocolErrorView::Sequence)),
                    }
                },
            }
        },
    }
}

/// An upper bound on the number of events an operation can still take
/// before it ends.
pub open spec fn events_left(session: SessionView) -> nat {
    match session.running {
        None => 0,
        Some(machine) => {
            let pending = if machine.pc < machine.plan.len() {
                (machine.plan.len() - machine.pc) as nat
            } else {
                0
            };
            let further: nat = match machine.ending {
                Ending::Presence { retry } => if retry { 3 } else { 0 },
                Ending::Scan { budget } => (budget + 2) as nat,
                _ => 0,
            };
            pending + further
        },
    }
}

/// An operation ends exactly when the session asks for no further action:
/// after `Finish` the session is idle, and after any other action it is
/// running.
pub proof fn lemma_finish_means_idle(session: SessionView, event: EventView)
    ensures
        step(session, event).1 is Finish <==> step(session, event).0.running is None,
{
}

/// A well formed session stays well formed.
pub proof fn lemma_step_keeps_wf(session: SessionView, event: EventView)
    requires
        session.wf(),
    ensures
        step(session, event).0.wf(),
{
}

/// Every event brings a running operation closer to its end, so no
/// operation goes on for ever: it takes at most `events_left` events.
pub proof fn lemma_step_makes_progress(session: SessionView, event: EventView)
    requires
        session.wf(),
        session.running is Some,
    ensures
        events_left(step(session, event).0) < events_left(session),
{
}

/// The flags of a session only ever go up, and `fuses_set` is left alone. An
/// event sets `vars_set` only by completing an operation whose ending marks
/// it, with the status byte that stands for success.
pub proof fn lemma_step_flags(session: SessionView, event: EventView)
    ensures
        step(session, event).0.fuses_set == session.fuses_set,
        session.vars_set ==> step(session, event).0.vars_set,
        !session.vars_set && step(session, event).0.vars_set ==> {
            &&& session.running matches Some(machine)
            &&& machine.ending matches Ending::Status { success, marks_vars, .. }
            &&& marks_vars
            &&& step(session, event).1 == ActionView::Finish(Ok(ReplyView::Flag(true)))
        },
{
}

} // verus!

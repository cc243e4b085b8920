//! What a session and its host say to each other: the actions a session asks
//! for, the events the host reports, and how an operation ends.

use vstd::prelude::*;

verus! {

/// The point of an exchange at which the device failed to answer as
/// expected.
#[derive(Clone, Copy, Debug, PartialEq, Eq)]
pub enum Stage {
    /// The answer to the byte that opens a command.
    Prologue,
    /// The echo of the host's proceed byte.
    StartAck,
    /// The answer to switching the programming voltages.
    Voltages,
    /// An acknowledgement inside a payload transfer.
    Transfer,
    /// The status byte of the operation itself.
    Status,
    /// The answer to the byte that closes a command.
    EndAck,
}

/// Why a payload was refused before anything was sent.
#[derive(Clone, Copy, Debug, PartialEq, Eq)]
pub enum SizeFault {
    /// More words than the program memory of the chip holds.
    TooLarge,
    /// Not a whole number of transfer blocks.
    Misaligned,
}

/// The firmware a programmer reports after a reset.
#[derive(Clone, Copy, Debug, PartialEq, Eq)]
pub enum Firmware {
    K128,
    K149A,
    K149B,
    K150,
}

/// The firmware that a reported index stands for, if any.
pub open spec fn firmware_at(index: u8) -> Option<Firmware> {
    if index == 0 {
        Some(Firmware::K128)
    } else if index == 1 {
        Some(Firmware::K149A)
    } else if index == 2 {
        Some(Firmware::K149B)
    } else if index == 3 {
        Some(Firmware::K150)
    } else {
        None
    }
}

/// The name of a firmware.
pub open spec fn firmware_name(firmware: Firmware) -> Seq<char> {
    match firmware {
        Firmware::K128 => "K128"@,
        Firmware::K149A => "K149-A"@,
        Firmware::K149B => "K149-B"@,
        Firmware::K150 => "K150"@,
    }
}

impl Firmware {
    /// Looks up the firmware for the index byte a programmer sent: one of
    /// the four known firmwares for 0 to 3, nothing for any other byte.
    pub fn from_index(index: u8) -> (firmware: Option<Firmware>)
        ensures
            firmware == firmware_at(index),
    {
        match index {
            0 => Some(Firmware::K128),
            1 => Some(Firmware::K149A),
            2 => Some(Firmware::K149B),
            3 => Some(Firmware::K150),
            _ => None,
        }
    }

    /// The name the firmware goes by.
    pub fn name(self) -> (name: &'static str)
        ensures
            name@ == firmware_name(self),
    {
        match self {
            Firmware::K128 => "K128",
            Firmware::K149A => "K149-A",
            Firmware::K149B => "K149-B",
            Firmware::K150 => "K150",
        }
    }
}

/// Why an operation failed.
#[derive(Clone, Debug, PartialEq, Eq)]
pub enum ProtocolError {
    /// The device did not answer as the protocol demands. `expected` is the
    /// byte that stands for success at that stage, `received` what arrived
    /// in its place (nothing, if the deadline passed).
    Violation { stage: Stage, expected: u8, received: Vec<u8> },
    /// The payload does not fit the chip or the transfer format.
    SizeConstraint(SizeFault),
    /// The transport reported a failure other than a timeout.
    Transport,
    /// The device reported a firmware index that stands for no firmware.
    Configuration(u8),
    /// The operation needs the programming variables, and they have not
    /// been initialised in this session.
    Precondition,
    /// The event does not answer the action that was pending, or no
    /// operation was in progress.
    Sequence,
}

/// A `ProtocolError` as a mathematical value.
pub enum ProtocolErrorView {
    Violation { stage: Stage, expected: u8, received: Seq<u8> },
    SizeConstraint(SizeFault),
    Transport,
    Configuration(u8),
    Precondition,
    Sequence,
}

impl View for ProtocolError {
    type V = ProtocolErrorView;

    open spec fn view(&self) -> ProtocolErrorView {
        match *self {
            ProtocolError::Violation { stage, expected, received } => ProtocolErrorView::Violation {
                stage,
                expected,
                received: received@,
            },
            ProtocolError::SizeConstraint(fault) => ProtocolErrorView::SizeConstraint(fault),
            ProtocolError::Transport => ProtocolErrorView::Transport,
            ProtocolError::Configuration(index) => ProtocolErrorView::Configuration(index),
            ProtocolError::Precondition => ProtocolErrorView::Precondition,
            ProtocolError::Sequence => ProtocolErrorView::Sequence,
        }
    }
}

/// What a successful operation reports.
#[derive(Clone, Debug, PartialEq, Eq)]
pub enum Reply {
    /// The answer to a reset: whether a programmer announced itself, and
    /// the firmware it named if it named one.
    Presence { present: bool, firmware: Option<Firmware> },
    /// A yes or no.
    Flag(bool),
    /// The bytes the device sent, which may be fewer than were asked for.
    Data(Vec<u8>),
}

/// A `Reply` as a mathematical value.
pub enum ReplyView {
    Presence { present: bool, firmware: Option<Firmware> },
    Flag(bool),
    Data(Seq<u8>),
}

impl View for Reply {
    type V = ReplyView;

    open spec fn view(&self) -> ReplyView {
        match *self {
            Reply::Presence { present, firmware } => ReplyView::Presence { present, firmware },
            Reply::Flag(flag) => ReplyView::Flag(flag),
            Reply::Data(bytes) => ReplyView::Data(bytes@),
        }
    }
}

/// How an operation ended, as a mathematical value.
pub type OutcomeView = Result<ReplyView, ProtocolErrorView>;

/// The view of the outcome of an operation.
pub open spec fn outcome_view(outcome: Result<Reply, ProtocolError>) -> OutcomeView {
    match outcome {
        Ok(reply) => Ok(reply@),
        Err(error) => Err(error@),
    }
}

/// What the host is to do next.
#[derive(Debug, PartialEq, Eq)]
pub enum Action {
    /// Drive the control line that resets the programmer.
    Line(bool),
    /// Wait this many milliseconds.
    Pause(u64),
    /// Flush the transport.
    Flush,
    /// Write these bytes, all of them.
    Write(Vec<u8>),
    /// Read up to `count` bytes, giving up after `timeout` milliseconds
    /// (never, if `timeout` is zero), and report what arrived.
    Read { count: usize, timeout: u64 },
    /// Nothing more: the operation has ended in this way.
    Finish(Result<Reply, ProtocolError>),
}

/// An `Action` as a mathematical value.
pub enum ActionView {
    Line(bool),
    Pause(u64),
    Flush,
    Write(Seq<u8>),
    Read { count: usize, timeout: u64 },
    Finish(OutcomeView),
}

impl View for Action {
    type V = ActionView;

    open spec fn view(&self) -> ActionView {
        match *self {
            Action::Line(level) => ActionView::Line(level),
            Action::Pause(millis) => ActionView::Pause(millis),
            Action::Flush => ActionView::Flush,
            Action::Write(bytes) => ActionView::Write(bytes@),
            Action::Read { count, timeout } => ActionView::Read { count, timeout },
            Action::Finish(outcome) => ActionView::Finish(outcome_view(outcome)),
        }
    }
}

/// What happened when the host carried out an action.
#[derive(Clone, Debug, PartialEq, Eq)]
pub enum Event {
    /// The line was driven, the pause is over, the transport was flushed or
    /// the bytes were written.
    Done,
    /// The read is over and these bytes arrived.
    Received(Vec<u8>),
    /// The transport failed.
    Failed,
}

/// An `Event` as a mathematical value.
pub enum EventView {
    Done,
    Received(Seq<u8>),
    Failed,
}

impl View for Event {
    type V = EventView;

    open spec fn view(&self) -> EventView {
        match *self {
            Event::Done => EventView::Done,
            Event::Received(bytes) => EventView::Received(bytes@),
            Event::Failed => EventView::Failed,
        }
    }
}

} // verus!

//! Whole exchanges, against a device that answers from a script.
//!
//! `drive` is a host in the model: it carries out each action a session asks
//! for, answers every read with the next reply of the script, and goes on
//! until the operation ends. The lemmas say what the operations of the
//! protocol come to when the device answers as it should, and when it does
//! not.

use vstd::prelude::*;
use crate::machine::{launch, presence, step, Machine, SessionView};
use crate::message::{ActionView, EventView, ProtocolErrorView, ReplyView, Stage};
use crate::plan::{
    command_start_steps, init_vars_steps, reset_steps, rom_blank_steps, scan_steps, Ending,
    Step,
};
use crate::wire::{
    CMD_INIT_VARS, CMD_ROM_BLANK, CONFIG, FRAME_TIMEOUT, INITIALIZED, NO, PRESENT, PROCEED,
    READY, REPLY_TIMEOUT, RESET_HOLD, SOH, VARS_PAYLOAD, YES,
};

verus! {

/// Where an exchange stands: the session, the action it asked for last, the
/// replies the device has not given yet, and the bytes written to it.
pub struct Exchange {
    pub session: SessionView,
    pub action: ActionView,
    pub replies: Seq<Seq<u8>>,
    pub written: Seq<u8>,
}

/// The beginning of an exchange.
pub open spec fn opening(begun: (SessionView, ActionView), replies: Seq<Seq<u8>>) -> Exchange {
    Exchange { session: begun.0, action: begun.1, replies, written: Seq::empty() }
}

/// Carrying out the pending action: a read is answered with the next reply,
/// or with nothing once the script is used up; bytes to write are written;
/// everything else is simply done.
pub open spec fn turn(exchange: Exchange) -> Exchange {
    let event = match exchange.action {
        ActionView::Read { .. } => EventView::Received(
            if exchange.replies.len() > 0 {
                exchange.replies[0]
            } else {
                Seq::empty()
            },
        ),
        _ => EventView::Done,
    };
    let (session, action) = step(exchange.session, event);
    Exchange {
        session,
        action,
        replies: if exchange.action is Read && exchange.replies.len() > 0 {
            exchange.replies.drop_first()
        } else {
            exchange.replies
        },
        written: match exchange.action {
            ActionView::Write(bytes) => exchange.written + bytes,
            _ => exchange.written,
        },
    }
}

/// Carrying out actions until the operation ends, for at most `turns`
/// actions.
pub open spec fn drive(exchange: Exchange, turns: nat) -> Exchange
    decreases turns,
{
    if turns == 0 || exchange.action is Finish {
        exchange
    } else {
        drive(turn(exchange), (turns - 1) as nat)
    }
}

/// An exchange that has not ended goes on with its next turn.
proof fn lemma_drive_turn(exchange: Exchange, turns: nat)
    requires
        turns > 0,
        !(exchange.action is Finish),
    ensures
        drive(exchange, turns) == drive(turn(exchange), (turns - 1) as nat),
{
}

/// An exchange that has ended stays as it is.
proof fn lemma_drive_ended(exchange: Exchange, turns: nat)
    requires
        exchange.action is Finish,
    ensures
        drive(exchange, turns) == exchange,
{
}

/// A reset that is answered at the first attempt reports what the answer
/// says, and writes nothing.
pub proof fn lemma_reset_answered(session: SessionView, answer: Seq<u8>, turns: nat)
    requires
        answer.len() > 0,
        turns >= 6,
    ensures
        ({
            let end = drive(
                opening(
                    launch(session, reset_steps(), Seq::empty(), Ending::Presence { retry: true }),
                    seq![answer],
                ),
                turns,
            );
            &&& end.action == ActionView::Finish(presence(answer))
            &&& end.session == session.idle()
            &&& end.written == Seq::<u8>::empty()
        }),
{
    let e0 = opening(
        launch(session, reset_steps(), Seq::empty(), Ending::Presence { retry: true }),
        seq![answer],
    );
    let e1 = turn(e0);
    let e2 = turn(e1);
    let e3 = turn(e2);
    let e4 = turn(e3);
    let e5 = turn(e4);
    let e6 = turn(e5);
    assert(e1.action == ActionView::Pause(RESET_HOLD));
    assert(e2.action == ActionView::Flush);
    assert(e3.action == ActionView::Line(false));
    assert(e4.action == ActionView::Pause(RESET_HOLD));
    assert(e5.action is Read);
    assert(Seq::<u8>::empty() + answer =~= answer);
    assert(e6.action == ActionView::Finish(presence(answer)));
    assert(e6.session == session.idle());
    assert(e6.written =~= Seq::<u8>::empty());
    lemma_drive_turn(e0, turns);
    lemma_drive_turn(e1, (turns - 1) as nat);
    lemma_drive_turn(e2, (turns - 2) as nat);
    lemma_drive_turn(e3, (turns - 3) as nat);
    lemma_drive_turn(e4, (turns - 4) as nat);
    lemma_drive_turn(e5, (turns - 5) as nat);
    lemma_drive_ended(e6, (turns - 6) as nat);
}

/// A reset that meets silence at the first attempt asserts the line again
/// and reports what the second attempt hears, be it nothing.
pub proof fn lemma_reset_retried(session: SessionView, answer: Seq<u8>, turns: nat)
    requires
        turns >= 9,
    ensures
        ({
            let end = drive(
                opening(
                    launch(session, reset_steps(), Seq::empty(), Ending::Presence { retry: true }),
                    seq![Seq::empty(), answer],
                ),
                turns,
            );
            &&& end.action == ActionView::Finish(presence(answer))
            &&& end.session == session.idle()
            &&& end.written == Seq::<u8>::empty()
        }),
{
    let e0 = opening(
        launch(session, reset_steps(), Seq::empty(), Ending::Presence { retry: true }),
        seq![Seq::empty(), answer],
    );
    let e1 = turn(e0);
    let e2 = turn(e1);
    let e3 = turn(e2);
    let e4 = turn(e3);
    let e5 = turn(e4);
    let e6 = turn(e5);
    let e7 = turn(e6);
    let e8 = turn(e7);
    let e9 = turn(e8);
    assert(e1.action == ActionView::Pause(RESET_HOLD));
    assert(e2.action == ActionView::Flush);
    assert(e3.action == ActionView::Line(false));
    assert(e4.action == ActionView::Pause(RESET_HOLD));
    assert(e5.action is Read);
    assert(Seq::<u8>::empty() + Seq::<u8>::empty() =~= Seq::<u8>::empty());
    assert(e6.action == ActionView::Line(true));
    assert(e6.replies =~= seq![answer]);
    assert(e7.action == ActionView::Pause(RESET_HOLD));
    assert(e8.action is Read);
    assert(Seq::<u8>::empty() + answer =~= answer);
    assert(e9.action == ActionView::Finish(presence(answer)));
    assert(e9.session == session.idle());
    assert(e9.written =~= Seq::<u8>::empty());
    lemma_drive_turn(e0, turns);
    lemma_drive_turn(e1, (turns - 1) as nat);
    lemma_drive_turn(e2, (turns - 2) as nat);
    lemma_drive_turn(e3, (turns - 3) as nat);
    lemma_drive_turn(e4, (turns - 4) as nat);
    lemma_drive_turn(e5, (turns - 5) as nat);
    lemma_drive_turn(e6, (turns - 6) as nat);
    lemma_drive_turn(e7, (turns - 7) as nat);
    lemma_drive_turn(e8, (turns - 8) as nat);
    lemma_drive_ended(e9, (turns - 9) as nat);
}

/// A device that is not ready ends any command at its first byte: if the
/// answer to the start byte is anything but `Q`, the operation fails at the
/// prologue with that answer, and only the start byte has been written.
pub proof fn lemma_unready_device(
    session: SessionView,
    command: u8,
    rest: Seq<Step>,
    outgoing: Seq<u8>,
    ending: Ending,
    answer: Seq<u8>,
    turns: nat,
)
    requires
        answer != seq![READY],
        turns >= 2,
    ensures
        ({
            let end = drive(
                opening(
                    launch(session, command_start_steps(command) + rest, outgoing, ending),
                    seq![answer],
                ),
                turns,
            );
            &&& end.action == ActionView::Finish(
                Err(
                    ProtocolErrorView::Violation {
                        stage: Stage::Prologue,
                        expected: READY,
                        received: answer,
                    },
                ),
            )
            &&& end.session == session.idle()
            &&& end.written == seq![SOH]
        }),
{
    let plan = command_start_steps(command) + rest;
    let e0 = opening(launch(session, plan, outgoing, ending), seq![answer]);
    let e1 = turn(e0);
    let e2 = turn(e1);
    assert(plan[0] == Step::SendByte(SOH));
    assert(plan[1] == Step::Expect { byte: READY, timeout: FRAME_TIMEOUT, stage: Stage::Prologue });
    assert(e0.action == ActionView::Write(seq![SOH]));
    assert(e1.action is Read);
    assert(e1.written =~= seq![SOH]);
    assert(e2.action is Finish);
    lemma_drive_turn(e0, turns);
    lemma_drive_turn(e1, (turns - 1) as nat);
    lemma_drive_ended(e2, (turns - 2) as nat);
}

/// Handing over the programming variables to a device that answers `Q`,
/// `P`, a status byte and `Q`: the bytes on the wire are the start byte,
/// `P`, the command, the payload and the end byte; the result is true
/// exactly if the status byte is `I`; and exactly then the variables count
/// as initialised from now on.
pub proof fn lemma_init_vars_exchange(
    session: SessionView,
    payload: Seq<u8>,
    status: u8,
    turns: nat,
)
    requires
        payload.len() == VARS_PAYLOAD,
        turns >= 9,
    ensures
        ({
            let end = drive(
                opening(
                    launch(
                        session,
                        init_vars_steps(),
                        payload,
                        Ending::Status {
                            success: INITIALIZED,
                            stage: Stage::Status,
                            marks_vars: true,
                        },
                    ),
                    seq![seq![READY], seq![PROCEED], seq![status], seq![READY]],
                ),
                turns,
            );
            &&& end.action == ActionView::Finish(Ok(ReplyView::Flag(status == INITIALIZED)))
            &&& end.session == (SessionView {
                vars_set: session.vars_set || status == INITIALIZED,
                ..session.idle()
            })
            &&& end.written == seq![SOH, PROCEED, CMD_INIT_VARS] + payload + seq![SOH]
        }),
{
    let ending = Ending::Status { success: INITIALIZED, stage: Stage::Status, marks_vars: true };
    let e0 = opening(
        launch(session, init_vars_steps(), payload, ending),
        seq![seq![READY], seq![PROCEED], seq![status], seq![READY]],
    );
    let e1 = turn(e0);
    let e2 = turn(e1);
    let e3 = turn(e2);
    let e4 = turn(e3);
    let e5 = turn(e4);
    let e6 = turn(e5);
    let e7 = turn(e6);
    let e8 = turn(e7);
    let e9 = turn(e8);
    assert(init_vars_steps().len() == 9);
    assert(e0.action == ActionView::Write(seq![SOH]));
    assert(e1.action is Read);
    assert(e2.action == ActionView::Write(seq![PROCEED]));
    assert(e3.action is Read);
    assert(e3.replies =~= seq![seq![PROCEED], seq![status], seq![READY]]);
    assert(e4.action == ActionView::Write(seq![CMD_INIT_VARS]));
    assert(payload.subrange(0, 0 + VARS_PAYLOAD) =~= payload);
    assert(e5.action == ActionView::Write(payload));
    assert(e6.action is Read);
    assert(e6.replies =~= seq![seq![status], seq![READY]]);
    assert(e6.written =~= seq![SOH, PROCEED, CMD_INIT_VARS] + payload);
    assert(Seq::<u8>::empty() + seq![status] =~= seq![status]);
    assert(e7.action == ActionView::Write(seq![SOH]));
    assert(e8.action is Read);
    assert(e8.replies =~= seq![seq![READY]]);
    assert(e8.written =~= seq![SOH, PROCEED, CMD_INIT_VARS] + payload + seq![SOH]);
    assert(e9.action == ActionView::Finish(Ok(ReplyView::Flag(status == INITIALIZED))));
    lemma_drive_turn(e0, turns);
    lemma_drive_turn(e1, (turns - 1) as nat);
    lemma_drive_turn(e2, (turns - 2) as nat);
    lemma_drive_turn(e3, (turns - 3) as nat);
    lemma_drive_turn(e4, (turns - 4) as nat);
    lemma_drive_turn(e5, (turns - 5) as nat);
    lemma_drive_turn(e6, (turns - 6) as nat);
    lemma_drive_turn(e7, (turns - 7) as nat);
    lemma_drive_turn(e8, (turns - 8) as nat);
    lemma_drive_ended(e9, (turns - 9) as nat);
}

/// A ROM blank check up to its first answer: the command is opened, the
/// high byte is sent, and the session listens for one byte.
proof fn lemma_rom_blank_asked(
    session: SessionView,
    high_byte: u8,
    budget: u16,
    status: u8,
    turns: nat,
) -> (asking: Exchange)
    requires
        turns >= 6,
    ensures
        drive(
            opening(
                launch(session, rom_blank_steps(high_byte), Seq::empty(), Ending::Scan { budget }),
                seq![seq![READY], seq![PROCEED], seq![status], seq![READY]],
            ),
            turns,
        ) == drive(asking, (turns - 6) as nat),
        asking.action == (ActionView::Read { count: 1, timeout: REPLY_TIMEOUT }),
        asking.replies == seq![seq![status], seq![READY]],
        asking.written == seq![SOH, PROCEED, CMD_ROM_BLANK, high_byte],
        asking.session == (SessionView {
            running: Some(
                Machine {
                    plan: rom_blank_steps(high_byte),
                    pc: 6,
                    outgoing: Seq::empty(),
                    kept: Seq::empty(),
                    ending: Ending::Scan { budget },
                },
            ),
            ..session
        }),
{
    let e0 = opening(
        launch(session, rom_blank_steps(high_byte), Seq::empty(), Ending::Scan { budget }),
        seq![seq![READY], seq![PROCEED], seq![status], seq![READY]],
    );
    let e1 = turn(e0);
    let e2 = turn(e1);
    let e3 = turn(e2);
    let e4 = turn(e3);
    let e5 = turn(e4);
    let e6 = turn(e5);
    assert(rom_blank_steps(high_byte).len() == 7);
    assert(e0.action == ActionView::Write(seq![SOH]));
    assert(e1.action is Read);
    assert(e2.action == ActionView::Write(seq![PROCEED]));
    assert(e3.action is Read);
    assert(e3.replies =~= seq![seq![PROCEED], seq![status], seq![READY]]);
    assert(e4.action == ActionView::Write(seq![CMD_ROM_BLANK]));
    assert(e5.action == ActionView::Write(seq![high_byte]));
    assert(e6.action == (ActionView::Read { count: 1, timeout: REPLY_TIMEOUT }));
    assert(e6.replies =~= seq![seq![status], seq![READY]]);
    assert(e6.written =~= seq![SOH, PROCEED, CMD_ROM_BLANK, high_byte]);
    lemma_drive_turn(e0, turns);
    lemma_drive_turn(e1, (turns - 1) as nat);
    lemma_drive_turn(e2, (turns - 2) as nat);
    lemma_drive_turn(e3, (turns - 3) as nat);
    lemma_drive_turn(e4, (turns - 4) as nat);
    lemma_drive_turn(e5, (turns - 5) as nat);
    e6
}

/// What the first answer to a ROM blank check comes to, with a device that
/// opens and closes the command as it should: `Y` is blank, `N` and `C` are
/// not blank, and any byte other than these and `B` is a violation that
/// ends the operation with the command left open.
pub proof fn lemma_rom_blank_exchange(
    session: SessionView,
    high_byte: u8,
    budget: u16,
    status: u8,
    turns: nat,
)
    requires
        status != PRESENT,
        turns >= 9,
    ensures
        ({
            let end = drive(
                opening(
                    launch(
                        session,
                        rom_blank_steps(high_byte),
                        Seq::empty(),
                        Ending::Scan { budget },
                    ),
                    seq![seq![READY], seq![PROCEED], seq![status], seq![READY]],
                ),
                turns,
            );
            let asked = seq![SOH, PROCEED, CMD_ROM_BLANK, high_byte];
            &&& end.session == session.idle()
            &&& status == YES ==> end.action == ActionView::Finish(Ok(ReplyView::Flag(true)))
                && end.written == asked + seq![SOH]
            &&& status == NO || status == CONFIG ==> end.action == ActionView::Finish(
                Ok(ReplyView::Flag(false)),
            ) && end.written == asked + seq![SOH]
            &&& status != YES && status != NO && status != CONFIG ==> end.action
                == ActionView::Finish(
                Err(
                    ProtocolErrorView::Violation {
                        stage: Stage::Status,
                        expected: YES,
                        received: seq![status],
                    },
                ),
            ) && end.written == asked
        }),
{
    let asked = seq![SOH, PROCEED, CMD_ROM_BLANK, high_byte];
    let e6 = lemma_rom_blank_asked(session, high_byte, budget, status, turns);
    let e7 = turn(e6);
    assert(Seq::<u8>::empty() + seq![status] =~= seq![status]);
    assert(e7.written == asked);
    lemma_drive_turn(e6, (turns - 6) as nat);
    if status == YES || status == NO || status == CONFIG {
        let e8 = turn(e7);
        let e9 = turn(e8);
        assert(e7.action == ActionView::Write(seq![SOH]));
        assert(e7.replies =~= seq![seq![READY]]);
        assert(e8.action is Read);
        assert(e8.written =~= asked + seq![SOH]);
        assert(e9.action == ActionView::Finish(Ok(ReplyView::Flag(status == YES))));
        assert(e9.session == session.idle());
        lemma_drive_turn(e7, (turns - 7) as nat);
        lemma_drive_turn(e8, (turns - 8) as nat);
        lemma_drive_ended(e9, (turns - 9) as nat);
    } else {
        assert(e7.action is Finish);
        assert(e7.session == session.idle());
        lemma_drive_ended(e7, (turns - 7) as nat);
    }
}

/// A script of `count` replies that each say the device is still scanning.
pub open spec fn busy(count: nat) -> Seq<Seq<u8>> {
    Seq::new(count, |i: int| seq![PRESENT])
}

/// A session that listens for the next byte of a ROM blank check and will
/// put up with `budget` more busy bytes.
pub open spec fn scanning(session: SessionView, budget: u16) -> (SessionView, ActionView) {
    launch(session, scan_steps(), Seq::empty(), Ending::Scan { budget })
}

/// During a ROM blank check the busy bytes are counted down: after `count`
/// of them, no more than the budget, the session listens on with a budget
/// that is `count` smaller, and has written nothing.
pub proof fn lemma_busy_bytes_counted(
    session: SessionView,
    budget: u16,
    count: nat,
    rest: Seq<Seq<u8>>,
    turns: nat,
)
    requires
        count <= budget,
        count <= turns,
    ensures
        drive(opening(scanning(session, budget), busy(count) + rest), turns) == drive(
            opening(scanning(session, (budget - count) as u16), rest),
            (turns - count) as nat,
        ),
    decreases count,
{
    if count == 0 {
        assert(busy(0) + rest =~= rest);
    } else {
        let e0 = opening(scanning(session, budget), busy(count) + rest);
        let e1 = turn(e0);
        assert((busy(count) + rest)[0] == seq![PRESENT]);
        assert(Seq::<u8>::empty() + seq![PRESENT] =~= seq![PRESENT]);
        assert((busy(count) + rest).drop_first() =~= busy((count - 1) as nat) + rest);
        assert(e1 == opening(
            scanning(session, (budget - 1) as u16),
            busy((count - 1) as nat) + rest,
        ));
        lemma_drive_turn(e0, turns);
        lemma_busy_bytes_counted(
            session,
            (budget - 1) as u16,
            (count - 1) as nat,
            rest,
            (turns - 1) as nat,
        );
    }
}

/// A busy byte beyond the budget is a violation: a session that puts up
/// with no more busy bytes ends the blank check on the next one.
pub proof fn lemma_busy_byte_beyond_budget(session: SessionView, rest: Seq<Seq<u8>>, turns: nat)
    requires
        turns >= 1,
    ensures
        ({
            let end = drive(opening(scanning(session, 0), seq![seq![PRESENT]] + rest), turns);
            &&& end.action == ActionView::Finish(
                Err(
                    ProtocolErrorView::Violation {
                        stage: Stage::Status,
                        expected: YES,
                        received: seq![PRESENT],
                    },
                ),
            )
            &&& end.session == session.idle()
        }),
{
    let e0 = opening(scanning(session, 0), seq![seq![PRESENT]] + rest);
    let e1 = turn(e0);
    assert((seq![seq![PRESENT]] + rest)[0] == seq![PRESENT]);
    assert(Seq::<u8>::empty() + seq![PRESENT] =~= seq![PRESENT]);
    assert(e1.action is Finish);
    lemma_drive_turn(e0, turns);
    lemma_drive_ended(e1, (turns - 1) as nat);
}

} // verus!

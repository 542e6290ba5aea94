//! The handlers of the kernel's exceptions and device interrupts.
//!
//! A handler performs nothing by itself. It is a machine that is asked,
//! turn by turn, what to do next: each turn takes the stage that the handler
//! has reached and hands back the next stage with one action. Whoever runs
//! the handler performs the action and asks again; where the action was a
//! read, the byte read goes into the next turn. A run starts at
//! `Stage::Entered` and is over with the action `Resume` or `Halt`.

use vstd::prelude::*;
use crate::idt::Exception;
use crate::pic::{
    lemma_service, ChainedPics, PicPair, PortWrite, CMD_END_OF_INTERRUPT, PRIMARY_COMMAND,
    SECONDARY_COMMAND,
};
use crate::scancode::{key_char, scancode_to_char};
use crate::vectors::InterruptIndex;

verus! {

/// The port on which the keyboard controller hands out the scancode of the
/// key event behind its interrupt.
pub const KEYBOARD_DATA: u16 = 0x60;

/// What the processor saved of the interrupted code.
#[derive(Debug, Clone, Copy, PartialEq, Eq, Structural)]
pub struct StackFrame {
    pub instruction_pointer: u64,
    pub code_segment: u64,
    pub cpu_flags: u64,
    pub stack_pointer: u64,
    pub stack_segment: u64,
}

/// What a handler asks for in one turn.
#[derive(Debug, Clone, Copy, PartialEq, Eq, Structural)]
pub enum Action {
    /// Read one byte from the port, and hand it to the next turn.
    ReadPort { port: u16 },
    /// Perform the port write.
    WritePort(PortWrite),
    /// Send the character to the display.
    Print { ch: char },
    /// Send the report of an exception to the display.
    Report { exception: Exception, frame: StackFrame },
    /// Return from the handler: the interrupted code goes on where the
    /// saved frame says.
    Resume,
    /// Stop the processor for good.
    Halt,
}

/// How far a run of a handler has come.
#[derive(Debug, Clone, Copy, PartialEq, Eq, Structural)]
pub enum Stage {
    /// The processor has just entered the handler.
    Entered,
    /// The handler has asked for its device's byte and waits for it.
    Draining,
    /// The handler is ending the service of its interrupt, and so many of
    /// the writes for that are out.
    Acknowledging { sent: usize },
    /// Nothing is left to do but to leave.
    Finished,
}

/// One turn of a device's handler: the stage reached, the action asked for,
/// and the controllers as the driver then knows them.
pub struct Turn {
    pub stage: Stage,
    pub action: Action,
    pub pair: PicPair,
}

/// One turn of an exception's handler: on entry the report, with the frame
/// as the processor saved it, and from then on the way out, which is to
/// resume where the exception allows it and to halt where it does not.
pub open spec fn exception_turn(exception: Exception, stage: Stage, frame: StackFrame) -> (
    Stage,
    Action,
) {
    match stage {
        Stage::Entered => (Stage::Finished, Action::Report { exception, frame }),
        _ => (
            Stage::Finished,
            if exception.resumable() {
                Action::Resume
            } else {
                Action::Halt
            },
        ),
    }
}

/// One turn of ending the service of `vector`, after `sent` of its writes:
/// the next write where one is left, else the return.
pub open spec fn acknowledge_turn(pair: PicPair, vector: u8, sent: int) -> Turn {
    let writes = pair.acknowledgment(vector);
    if 0 <= sent < writes.len() {
        Turn {
            stage: Stage::Acknowledging { sent: (sent + 1) as usize },
            action: Action::WritePort(writes[sent]),
            pair: pair.served(vector),
        }
    } else {
        Turn { stage: Stage::Finished, action: Action::Resume, pair: pair.served(vector) }
    }
}

/// One turn of the timer's handler. A tick carries nothing to read, so the
/// handler ends the service of its interrupt at once. It never drains;
/// handed that stage all the same, it starts over.
pub open spec fn timer_turn(stage: Stage, pair: PicPair) -> Turn {
    let vector = InterruptIndex::Timer.vector();
    match stage {
        Stage::Acknowledging { sent } => acknowledge_turn(pair, vector, sent as int),
        Stage::Finished => Turn { stage: Stage::Finished, action: Action::Resume, pair },
        _ => acknowledge_turn(pair.serving(vector), vector, 0),
    }
}

/// One turn of the keyboard's handler. It asks for the byte at the
/// keyboard's data port until it is handed one, prints the character of
/// that scancode, and only then ends the service of its interrupt.
pub open spec fn keyboard_turn(stage: Stage, reply: Option<u8>, pair: PicPair) -> Turn {
    let vector = InterruptIndex::Keyboard.vector();
    let ask = Action::ReadPort { port: KEYBOARD_DATA };
    match stage {
        Stage::Entered => Turn { stage: Stage::Draining, action: ask, pair: pair.serving(vector) },
        Stage::Draining => match reply {
            Some(scancode) => Turn {
                stage: Stage::Acknowledging { sent: 0 },
                action: Action::Print { ch: key_char(scancode) },
                pair,
            },
            None => Turn { stage: Stage::Draining, action: ask, pair },
        },
        Stage::Acknowledging { sent } => acknowledge_turn(pair, vector, sent as int),
        Stage::Finished => Turn { stage: Stage::Finished, action: Action::Resume, pair },
    }
}

/// One turn of the breakpoint's handler: the report, then the return.
pub fn breakpoint_handler(stage: Stage, frame: StackFrame) -> (next: (Stage, Action))
    ensures
        next == exception_turn(Exception::Breakpoint, stage, frame),
{
    match stage {
        Stage::Entered => (
            Stage::Finished,
            Action::Report { exception: Exception::Breakpoint, frame },
        ),
        _ => (Stage::Finished, Action::Resume),
    }
}

/// One turn of the double fault's handler: the report, then the halt. The
/// error code that the processor pushes for a double fault is always zero
/// and is not reported.
pub fn double_fault_handler(stage: Stage, frame: StackFrame, error_code: u64) -> (next: (
    Stage,
    Action,
))
    ensures
        next == exception_turn(Exception::DoubleFault, stage, frame),
{
    match stage {
        Stage::Entered => (
            Stage::Finished,
            Action::Report { exception: Exception::DoubleFault, frame },
        ),
        _ => (Stage::Finished, Action::Halt),
    }
}

/// One turn of ending the service of `vector`.
fn acknowledge(pics: &mut ChainedPics, vector: u8, sent: usize) -> (next: (Stage, Action))
    ensures
        (Turn { stage: next.0, action: next.1, pair: final(pics)@ }) == acknowledge_turn(
            old(pics)@,
            vector,
            sent as int,
        ),
{
    let writes = pics.end_of_interrupt(vector);
    if sent < writes.len() {
        (Stage::Acknowledging { sent: sent + 1 }, Action::WritePort(writes[sent]))
    } else {
        (Stage::Finished, Action::Resume)
    }
}

/// One turn of the timer's handler.
pub fn timer_interrupt_handler(stage: Stage, pics: &mut ChainedPics) -> (next: (Stage, Action))
    ensures
        (Turn { stage: next.0, action: next.1, pair: final(pics)@ }) == timer_turn(
            stage,
            old(pics)@,
        ),
{
    let vector = InterruptIndex::Timer.as_u8();
    match stage {
        Stage::Acknowledging { sent } => acknowledge(pics, vector, sent),
        Stage::Finished => (Stage::Finished, Action::Resume),
        _ => {
            pics.begin_service(vector);
            acknowledge(pics, vector, 0)
        },
    }
}

/// One turn of the keyboard's handler. `reply` is the byte read, where the
/// turn before asked for a read.
pub fn keyboard_interrupt_handler(stage: Stage, reply: Option<u8>, pics: &mut ChainedPics) -> (next:
    (Stage, Action))
    ensures
        (Turn { stage: next.0, action: next.1, pair: final(pics)@ }) == keyboard_turn(
            stage,
            reply,
            old(pics)@,
        ),
{
    let vector = InterruptIndex::Keyboard.as_u8();
    match stage {
        Stage::Entered => {
            pics.begin_service(vector);
            (Stage::Draining, Action::ReadPort { port: KEYBOARD_DATA })
        },
        Stage::Draining => match reply {
            Some(scancode) => (
                Stage::Acknowledging { sent: 0 },
                Action::Print { ch: scancode_to_char(scancode) },
            ),
            None => (Stage::Draining, Action::ReadPort { port: KEYBOARD_DATA }),
        },
        Stage::Acknowledging { sent } => acknowledge(pics, vector, sent),
        Stage::Finished => (Stage::Finished, Action::Resume),
    }
}

/// The stage that an exception's handler has reached after `turns` turns.
pub open spec fn exception_stage(exception: Exception, frame: StackFrame, turns: nat) -> Stage
    decreases turns,
{
    if turns == 0 {
        Stage::Entered
    } else {
        exception_turn(exception, exception_stage(exception, frame, (turns - 1) as nat), frame).0
    }
}

/// The action of turn `turn` (from 0) of an exception's handler.
pub open spec fn exception_action(exception: Exception, frame: StackFrame, turn: nat) -> Action {
    exception_turn(exception, exception_stage(exception, frame, turn), frame).1
}

/// Where the timer's handler stands after `turns` turns of a run that
/// found the controllers as `pair`.
pub open spec fn timer_state(pair: PicPair, turns: nat) -> (Stage, PicPair)
    decreases turns,
{
    if turns == 0 {
        (Stage::Entered, pair)
    } else {
        let before = timer_state(pair, (turns - 1) as nat);
        let turn = timer_turn(before.0, before.1);
        (turn.stage, turn.pair)
    }
}

/// The action of turn `turn` (from 0) of the timer's handler.
pub open spec fn timer_action(pair: PicPair, turn: nat) -> Action {
    let before = timer_state(pair, turn);
    timer_turn(before.0, before.1).action
}

/// Where the keyboard's handler stands after `turns` turns of a run that
/// found the controllers as `pair` and in which turn `i` was handed
/// `replies(i)`.
pub open spec fn keyboard_state(
    pair: PicPair,
    replies: spec_fn(nat) -> Option<u8>,
    turns: nat,
) -> (Stage, PicPair)
    decreases turns,
{
    if turns == 0 {
        (Stage::Entered, pair)
    } else {
        let before = keyboard_state(pair, replies, (turns - 1) as nat);
        let turn = keyboard_turn(before.0, replies((turns - 1) as nat), before.1);
        (turn.stage, turn.pair)
    }
}

/// The action of turn `turn` (from 0) of the keyboard's handler.
pub open spec fn keyboard_action(
    pair: PicPair,
    replies: spec_fn(nat) -> Option<u8>,
    turn: nat,
) -> Action {
    let before = keyboard_state(pair, replies, turn);
    keyboard_turn(before.0, replies(turn), before.1).action
}

/// The controllers after `ticks` timer interrupts, each taken by the
/// processor and served by a whole run of the timer's handler. On valid
/// controllers a run of that handler is over after two turns.
pub open spec fn after_ticks(pair: PicPair, ticks: nat) -> PicPair
    decreases ticks,
{
    if ticks == 0 {
        pair
    } else {
        timer_state(after_ticks(pair, (ticks - 1) as nat), 2).1
    }
}

/// An exception's handler reports first, and the report holds the frame as
/// the processor saved it. Every later turn is the way out: the return for
/// a breakpoint, so that the interrupted code goes on behind the
/// breakpoint; the halt for a double fault, and never anything else again.
pub proof fn lemma_exception_run(exception: Exception, frame: StackFrame, turn: nat)
    ensures
        exception_action(exception, frame, 0) == (Action::Report { exception, frame }),
        turn >= 1 ==> exception_action(exception, frame, turn) == if exception
            == Exception::Breakpoint {
            Action::Resume
        } else {
            Action::Halt
        },
    decreases turn,
{
    if turn >= 1 {
        lemma_exception_run(exception, frame, (turn - 1) as nat);
    }
}

/// Whether turn `handed` of a run of the keyboard's handler took a byte in
/// answer to its read: the turn before asked for the read of the
/// keyboard's data port, and this turn was handed a byte and printed it.
pub open spec fn drained_at(
    pair: PicPair,
    replies: spec_fn(nat) -> Option<u8>,
    handed: nat,
) -> bool {
    &&& handed >= 1
    &&& keyboard_action(pair, replies, (handed - 1) as nat) == (Action::ReadPort {
        port: KEYBOARD_DATA,
    })
    &&& replies(handed) is Some
    &&& keyboard_action(pair, replies, handed) is Print
}

/// In every run of the keyboard's handler, whatever it is handed: the first
/// action is the read of the keyboard's data port, and nothing is written
/// to a port before a byte has been taken in answer to that read. The read
/// that drains the keyboard therefore comes strictly before the end of
/// service.
pub proof fn lemma_keyboard_drains_first(
    pair: PicPair,
    replies: spec_fn(nat) -> Option<u8>,
    turn: nat,
)
    ensures
        keyboard_action(pair, replies, 0) == (Action::ReadPort { port: KEYBOARD_DATA }),
        keyboard_action(pair, replies, turn) is WritePort ==> exists|handed: nat|
            handed < turn && #[trigger] drained_at(pair, replies, handed),
{
    lemma_keyboard_stages(pair, replies, turn);
}

/// What the stage of the keyboard's handler tells of the run so far: on
/// entry nothing has happened, while it drains the last action was its
/// read, and it is past draining only if a byte was taken in answer to the
/// read.
proof fn lemma_keyboard_stages(pair: PicPair, replies: spec_fn(nat) -> Option<u8>, turns: nat)
    ensures
        keyboard_state(pair, replies, turns).0 is Entered <==> turns == 0,
        keyboard_state(pair, replies, turns).0 is Draining ==> keyboard_action(
            pair,
            replies,
            (turns - 1) as nat,
        ) == (Action::ReadPort { port: KEYBOARD_DATA }),
        keyboard_state(pair, replies, turns).0 is Acknowledging || keyboard_state(
            pair,
            replies,
            turns,
        ).0 is Finished ==> exists|handed: nat|
            handed < turns && #[trigger] drained_at(pair, replies, handed),
    decreases turns,
{
    if turns > 0 {
        let before = (turns - 1) as nat;
        lemma_keyboard_stages(pair, replies, before);
        let stage = keyboard_state(pair, replies, before).0;
        if stage is Draining && replies(before) is Some {
            assert(drained_at(pair, replies, before));
        }
    }
}

/// A whole run of the keyboard's handler on the kernel's controllers, with
/// `scancode` waiting at the keyboard: the read, the print of the
/// scancode's character, the end of service at the primary controller, the
/// return. The controllers are then as they were found, the keyboard's
/// line out of service.
pub proof fn lemma_keyboard_service(
    pair: PicPair,
    replies: spec_fn(nat) -> Option<u8>,
    scancode: u8,
)
    requires
        pair.valid(),
        pair.primary.handles(InterruptIndex::Keyboard.vector()),
        replies(1) == Some(scancode),
    ensures
        keyboard_action(pair, replies, 0) == (Action::ReadPort { port: KEYBOARD_DATA }),
        keyboard_action(pair, replies, 1) == (Action::Print { ch: key_char(scancode) }),
        keyboard_action(pair, replies, 2) == Action::WritePort(
            PortWrite { port: PRIMARY_COMMAND, value: CMD_END_OF_INTERRUPT },
        ),
        keyboard_action(pair, replies, 3) == Action::Resume,
        keyboard_state(pair, replies, 4) == (
            Stage::Finished,
            pair.served(InterruptIndex::Keyboard.vector()),
        ),
{
    let vector = InterruptIndex::Keyboard.vector();
    reveal_with_fuel(keyboard_state, 5);
    lemma_service(pair, vector);
    lemma_service(pair.serving(vector), vector);
}

/// A whole run of the timer's handler on the kernel's controllers: the end
/// of service at the primary controller, then the return. The masks are
/// untouched, and the timer's line is out of service.
pub proof fn lemma_timer_service(pair: PicPair)
    requires
        pair.valid(),
        pair.primary.handles(InterruptIndex::Timer.vector()),
    ensures
        timer_action(pair, 0) == Action::WritePort(
            PortWrite { port: PRIMARY_COMMAND, value: CMD_END_OF_INTERRUPT },
        ),
        timer_action(pair, 1) == Action::Resume,
        timer_state(pair, 2) == (Stage::Finished, pair.served(InterruptIndex::Timer.vector())),
{
    let vector = InterruptIndex::Timer.vector();
    reveal_with_fuel(timer_state, 3);
    lemma_service(pair, vector);
    lemma_service(pair.serving(vector), vector);
}

/// However many timer interrupts follow one another on the kernel's
/// controllers, each served by a run of the timer's handler: the masks stay
/// as they were, and after every run the timer's line is armed again as it
/// was before the first.
pub proof fn lemma_timer_stays_armed(pair: PicPair, ticks: nat)
    requires
        pair.valid(),
        pair.primary.handles(InterruptIndex::Timer.vector()),
        pair.armed(InterruptIndex::Timer.line()),
    ensures
        after_ticks(pair, ticks).valid(),
        after_ticks(pair, ticks).primary.offset == pair.primary.offset,
        after_ticks(pair, ticks).primary.mask == pair.primary.mask,
        after_ticks(pair, ticks).secondary.mask == pair.secondary.mask,
        after_ticks(pair, ticks).armed(InterruptIndex::Timer.line()),
    decreases ticks,
{
    if ticks > 0 {
        let before = after_ticks(pair, (ticks - 1) as nat);
        lemma_timer_stays_armed(pair, (ticks - 1) as nat);
        lemma_timer_service(before);
        lemma_service(before, InterruptIndex::Timer.vector());
    }
}

/// Whether a port write is the end-of-interrupt command to a controller.
pub open spec fn ends_service(write: PortWrite) -> bool {
    &&& write.value == CMD_END_OF_INTERRUPT
    &&& write.port == PRIMARY_COMMAND || write.port == SECONDARY_COMMAND
}

/// Whatever a device's handler writes to a port, in any turn of any run, is
/// the end-of-interrupt command to a controller's command port. No handler
/// writes to a mask register.
pub proof fn lemma_handlers_only_acknowledge(
    pair: PicPair,
    replies: spec_fn(nat) -> Option<u8>,
    turn: nat,
)
    ensures
        timer_action(pair, turn) matches Action::WritePort(write) ==> ends_service(write),
        keyboard_action(pair, replies, turn) matches Action::WritePort(write) ==> ends_service(
            write,
        ),
{
}

} // verus!

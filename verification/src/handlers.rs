//! Step logic of the exception and hardware-interrupt handlers.
//!
//! A hardware handler runs with its line masked until it acknowledges, so
//! each step decides, from the hardware state it is handed, the exact
//! ordered side effects the handler performs — and every step ends with
//! exactly one acknowledgment, on every path, since a missing one stalls
//! the line permanently and a spare one acknowledges someone else's
//! interrupt.

use crate::decoder::decoded_key;
use crate::decoder::DecoderSession;
use crate::decoder::KeyPress;
use crate::pic::InterruptIndex;
use vstd::prelude::*;

verus! {

/// One side effect a handler performs, in the order listed.
#[derive(Clone, Copy, Debug, PartialEq, Eq, Structural)]
pub enum HandlerAction {
    /// Emit the tick heartbeat to the diagnostic sink.
    EmitHeartbeat,
    /// Invoke the hook in the registry's tick slot.
    InvokeTickHook,
    /// Invoke the hook in the registry's key slot with the decoded key.
    InvokeKeyHook(KeyPress),
    /// Send the end-of-interrupt for this vector to the controller driver.
    Acknowledge(u8),
}

/// How many of the actions acknowledge the controller.
pub open spec fn ack_count(s: Seq<HandlerAction>) -> int
    decreases s.len(),
{
    if s.len() == 0 {
        0
    } else {
        ack_count(s.drop_last()) + (if s.last() is Acknowledge {
            1int
        } else {
            0int
        })
    }
}

/// The timer handler's fixed actions: heartbeat, tick hook, acknowledgment.
pub open spec fn timer_actions() -> Seq<HandlerAction> {
    seq![
        HandlerAction::EmitHeartbeat,
        HandlerAction::InvokeTickHook,
        HandlerAction::Acknowledge(InterruptIndex::Timer.spec_vector()),
    ]
}

/// The keyboard handler's actions for a byte that decoded to `outcome`: the
/// key hook exactly when a key completed, the acknowledgment always.
pub open spec fn keyboard_actions(outcome: Option<KeyPress>) -> Seq<HandlerAction> {
    match outcome {
        Some(key) => seq![
            HandlerAction::InvokeKeyHook(key),
            HandlerAction::Acknowledge(InterruptIndex::Keyboard.spec_vector()),
        ],
        None => seq![HandlerAction::Acknowledge(InterruptIndex::Keyboard.spec_vector())],
    }
}

/// Decides what the timer-tick handler performs: the heartbeat, then the
/// registered tick hook, then — last, and exactly once — the
/// acknowledgment of the timer vector.
pub fn timer_tick_step() -> (r: Vec<HandlerAction>)
    ensures
        r@ == timer_actions(),
        ack_count(r@) == 1,
        r@.last() == HandlerAction::Acknowledge(InterruptIndex::Timer.spec_vector()),
{
    let mut actions: Vec<HandlerAction> = Vec::new();
    actions.push(HandlerAction::EmitHeartbeat);
    actions.push(HandlerAction::InvokeTickHook);
    actions.push(HandlerAction::Acknowledge(InterruptIndex::Timer.as_u8()));
    proof {
        assert(actions@ =~= timer_actions());
        lemma_ack_count_single_tail(actions@);
    }
    actions
}

/// Decides what the keyboard handler performs for the byte read from the
/// keyboard data port: the byte goes to the decoder session; the key hook
/// runs exactly when a key completed; and whatever the byte decoded to,
/// the actions end with exactly one acknowledgment of the keyboard vector.
pub fn keyboard_step(session: &mut DecoderSession, scancode: u8) -> (r: Vec<HandlerAction>)
    ensures
        final(session).fed() == old(session).fed().push(scancode),
        r@ == keyboard_actions(decoded_key(old(session).fed().push(scancode))),
        ack_count(r@) == 1,
        r@.last() == HandlerAction::Acknowledge(InterruptIndex::Keyboard.spec_vector()),
{
    let outcome = session.feed(scancode);
    let mut actions: Vec<HandlerAction> = Vec::new();
    match outcome {
        Some(key) => {
            actions.push(HandlerAction::InvokeKeyHook(key));
            actions.push(HandlerAction::Acknowledge(InterruptIndex::Keyboard.as_u8()));
        },
        None => {
            actions.push(HandlerAction::Acknowledge(InterruptIndex::Keyboard.as_u8()));
        },
    }
    proof {
        assert(actions@ =~= keyboard_actions(decoded_key(old(session).fed().push(scancode))));
        lemma_ack_count_single_tail(actions@);
    }
    actions
}

/// Helper for the steps above: a sequence whose only acknowledgment is its
/// last element counts exactly one.
proof fn lemma_ack_count_single_tail(s: Seq<HandlerAction>)
    requires
        s.len() >= 1,
        s.last() is Acknowledge,
        forall|i: int| 0 <= i < s.len() - 1 ==> !(s[i] is Acknowledge),
    ensures
        ack_count(s) == 1,
{
    lemma_ack_count_none(s.drop_last());
}

/// A sequence without an acknowledgment counts none.
proof fn lemma_ack_count_none(s: Seq<HandlerAction>)
    requires
        forall|i: int| 0 <= i < s.len() ==> !(s[i] is Acknowledge),
    ensures
        ack_count(s) == 0,
    decreases s.len(),
{
    if s.len() > 0 {
        lemma_ack_count_none(s.drop_last());
    }
}

/// The CPU exceptions this kernel stage binds handlers for.
#[derive(Clone, Copy, Debug, PartialEq, Eq, Structural)]
pub enum CpuException {
    Breakpoint,
    PageFault,
    DoubleFault,
}

/// What becomes of the interrupted context once an exception handler has
/// logged: resumed, or never returned to because the machine halts.
#[derive(Clone, Copy, Debug, PartialEq, Eq, Structural)]
pub enum Disposition {
    Resume,
    Halt,
}

/// The fate of each exception: a breakpoint is diagnostic and resumes; a
/// page fault or double fault has no supervisor to recover to at this
/// stage, so the handler logs and the machine enters the halt loop.
pub open spec fn spec_disposition(e: CpuException) -> Disposition {
    match e {
        CpuException::Breakpoint => Disposition::Resume,
        CpuException::PageFault => Disposition::Halt,
        CpuException::DoubleFault => Disposition::Halt,
    }
}

/// Decides whether an exception handler returns to the interrupted context.
/// A page fault or double fault never does: the caller must enter the halt
/// loop and stop executing the interrupted context for good.
pub fn exception_disposition(e: CpuException) -> (r: Disposition)
    ensures
        r == spec_disposition(e),
        r is Halt <==> !(e is Breakpoint),
{
    match e {
        CpuException::Breakpoint => Disposition::Resume,
        CpuException::PageFault => Disposition::Halt,
        CpuException::DoubleFault => Disposition::Halt,
    }
}

} // verus!

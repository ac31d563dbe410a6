//! The vector table plan: which exception and hardware-interrupt vectors
//! are bound to which handlers.
//!
//! The plan is built as one fully populated value and only then handed
//! over for activation, so no interrupt can ever vector through a half
//! built table; activating it, and binding the real handler entry points,
//! is the boot code's one step outside this crate.

use crate::pic::InterruptIndex;
use vstd::prelude::*;

verus! {

/// CPU vector of the breakpoint exception.
pub const BREAKPOINT_VECTOR: u8 = 3;

/// CPU vector of the double fault exception.
pub const DOUBLE_FAULT_VECTOR: u8 = 8;

/// CPU vector of the page fault exception.
pub const PAGE_FAULT_VECTOR: u8 = 14;

/// The handler a vector is bound to.
#[derive(Clone, Copy, Debug, PartialEq, Eq, Structural)]
pub enum HandlerKind {
    Breakpoint,
    PageFault,
    DoubleFault,
    Timer,
    Keyboard,
}

/// One binding of the vector table: the numeric vector, its handler, and
/// whether that handler runs on the dedicated alternate stack.
#[derive(Clone, Copy, Debug, PartialEq, Eq, Structural)]
pub struct VectorBinding {
    pub vector: u8,
    pub handler: HandlerKind,
    pub uses_alternate_stack: bool,
}

/// The complete set of bindings this kernel stage installs: the diagnostic
/// breakpoint, the two fatal faults, and the two remapped hardware lines.
/// The double-fault handler runs on the alternate stack supplied by the
/// segment setup, because a double fault often follows stack exhaustion
/// and must not reuse a possibly corrupt stack.
pub open spec fn table_bindings() -> Seq<VectorBinding> {
    seq![
        VectorBinding {
            vector: BREAKPOINT_VECTOR,
            handler: HandlerKind::Breakpoint,
            uses_alternate_stack: false,
        },
        VectorBinding {
            vector: PAGE_FAULT_VECTOR,
            handler: HandlerKind::PageFault,
            uses_alternate_stack: false,
        },
        VectorBinding {
            vector: DOUBLE_FAULT_VECTOR,
            handler: HandlerKind::DoubleFault,
            uses_alternate_stack: true,
        },
        VectorBinding {
            vector: InterruptIndex::Timer.spec_vector(),
            handler: HandlerKind::Timer,
            uses_alternate_stack: false,
        },
        VectorBinding {
            vector: InterruptIndex::Keyboard.spec_vector(),
            handler: HandlerKind::Keyboard,
            uses_alternate_stack: false,
        },
    ]
}

/// Builds the fully populated vector table plan, ready to be activated in
/// one separate, later step.
pub fn init_idt() -> (t: Vec<VectorBinding>)
    ensures
        t@ == table_bindings(),
{
    let mut table: Vec<VectorBinding> = Vec::new();
    table.push(
        VectorBinding {
            vector: BREAKPOINT_VECTOR,
            handler: HandlerKind::Breakpoint,
            uses_alternate_stack: false,
        },
    );
    table.push(
        VectorBinding {
            vector: PAGE_FAULT_VECTOR,
            handler: HandlerKind::PageFault,
            uses_alternate_stack: false,
        },
    );
    table.push(
        VectorBinding {
            vector: DOUBLE_FAULT_VECTOR,
            handler: HandlerKind::DoubleFault,
            uses_alternate_stack: true,
        },
    );
    table.push(
        VectorBinding {
            vector: InterruptIndex::Timer.as_u8(),
            handler: HandlerKind::Timer,
            uses_alternate_stack: false,
        },
    );
    table.push(
        VectorBinding {
            vector: InterruptIndex::Keyboard.as_u8(),
            handler: HandlerKind::Keyboard,
            uses_alternate_stack: false,
        },
    );
    proof {
        assert(table@ =~= table_bindings());
    }
    table
}

/// Law: the built table is fully populated and consistent. It binds every
/// handler this stage installs; no vector twice; every hardware-interrupt
/// vector lies above the 32 CPU-reserved exception vectors; and the
/// double-fault handler, and only it, runs on the alternate stack.
pub proof fn lemma_table_well_formed()
    ensures
        table_bindings().len() == 5,
        forall|i: int, j: int|
            0 <= i < j < table_bindings().len() ==> table_bindings()[i].vector
                != table_bindings()[j].vector,
        forall|i: int|
            0 <= i < table_bindings().len() && (table_bindings()[i].handler is Timer
                || table_bindings()[i].handler is Keyboard) ==> table_bindings()[i].vector >= 32,
        forall|i: int|
            0 <= i < table_bindings().len() ==> (table_bindings()[i].uses_alternate_stack
                <==> table_bindings()[i].handler is DoubleFault),
{
}

} // verus!

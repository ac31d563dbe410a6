//! Decision logic of the chained interrupt controller driver: the vector
//! bases the two controllers are remapped to, the exact initialization
//! sequence that remaps them, and the end-of-interrupt sequence owed after
//! every accepted hardware interrupt.

use crate::pit::PortWrite;
use vstd::prelude::*;

verus! {

/// Vector base of the primary controller: the first vector after the 32
/// CPU-reserved exception vectors.
pub const PIC_1_OFFSET: u8 = 32;

/// Vector base of the secondary controller, eight lines above the primary.
pub const PIC_2_OFFSET: u8 = PIC_1_OFFSET + 8;

/// Command port of the primary controller.
pub const PIC_1_COMMAND_PORT: u16 = 0x20;

/// Data port of the primary controller.
pub const PIC_1_DATA_PORT: u16 = 0x21;

/// Command port of the secondary controller.
pub const PIC_2_COMMAND_PORT: u16 = 0xA0;

/// Data port of the secondary controller.
pub const PIC_2_DATA_PORT: u16 = 0xA1;

/// Port written between initialization bytes to give older controllers time
/// to settle.
pub const WAIT_PORT: u16 = 0x80;

/// Command that begins a controller's three-byte initialization.
pub const CMD_INIT: u8 = 0x11;

/// Command that acknowledges an interrupt on a controller.
pub const CMD_END_OF_INTERRUPT: u8 = 0x20;

/// The 8086 operating mode selected by the last initialization byte.
pub const MODE_8086: u8 = 0x01;

/// The two hardware interrupt lines handled by this kernel, each bound to a
/// fixed vector above the CPU-reserved range.
#[derive(Clone, Copy, Debug, PartialEq, Eq, Structural)]
pub enum InterruptIndex {
    Timer,
    Keyboard,
}

impl InterruptIndex {
    /// The numeric vector of the line: the timer sits on the primary
    /// controller's base, the keyboard one above it.
    pub open spec fn spec_vector(&self) -> u8 {
        match self {
            InterruptIndex::Timer => PIC_1_OFFSET,
            InterruptIndex::Keyboard => (PIC_1_OFFSET + 1) as u8,
        }
    }

    /// The line's vector as a byte. Hardware vectors never collide with the
    /// 32 CPU exception vectors.
    pub fn as_u8(self) -> (r: u8)
        ensures
            r == self.spec_vector(),
            r >= 32,
    {
        match self {
            InterruptIndex::Timer => PIC_1_OFFSET,
            InterruptIndex::Keyboard => PIC_1_OFFSET + 1,
        }
    }

    /// The line's vector as a table index.
    pub fn as_usize(self) -> (r: usize)
        ensures
            r == self.spec_vector(),
    {
        self.as_u8() as usize
    }
}

/// Whether the primary controller owns `vector`.
pub open spec fn pic1_handles(vector: u8) -> bool {
    PIC_1_OFFSET <= vector < PIC_1_OFFSET + 8
}

/// Whether the secondary controller owns `vector`.
pub open spec fn pic2_handles(vector: u8) -> bool {
    PIC_2_OFFSET <= vector < PIC_2_OFFSET + 8
}

/// The exact end-of-interrupt sequence owed for `vector`: nothing for a
/// vector outside both controllers; the primary's command port alone for a
/// primary-owned vector; for a secondary-owned vector the secondary first,
/// then the primary its interrupts chain through.
pub open spec fn eoi_write_seq(vector: u8) -> Seq<PortWrite> {
    if pic2_handles(vector) {
        seq![
            PortWrite { port: PIC_2_COMMAND_PORT, value: CMD_END_OF_INTERRUPT },
            PortWrite { port: PIC_1_COMMAND_PORT, value: CMD_END_OF_INTERRUPT },
        ]
    } else if pic1_handles(vector) {
        seq![PortWrite { port: PIC_1_COMMAND_PORT, value: CMD_END_OF_INTERRUPT }]
    } else {
        Seq::empty()
    }
}

/// Builds the end-of-interrupt sequence for `vector`.
///
/// Every vector owned by either controller gets at least one write, and the
/// last write always goes to the primary controller, which all secondary
/// interrupts chain through.
pub fn acknowledge(vector: u8) -> (r: Vec<PortWrite>)
    ensures
        r@ == eoi_write_seq(vector),
        pic1_handles(vector) || pic2_handles(vector) ==> r@.len() >= 1 && r@.last() == (PortWrite {
            port: PIC_1_COMMAND_PORT,
            value: CMD_END_OF_INTERRUPT,
        }),
{
    let mut writes: Vec<PortWrite> = Vec::new();
    if PIC_2_OFFSET <= vector && vector < PIC_2_OFFSET + 8 {
        writes.push(PortWrite { port: PIC_2_COMMAND_PORT, value: CMD_END_OF_INTERRUPT });
        writes.push(PortWrite { port: PIC_1_COMMAND_PORT, value: CMD_END_OF_INTERRUPT });
    } else if PIC_1_OFFSET <= vector && vector < PIC_1_OFFSET + 8 {
        writes.push(PortWrite { port: PIC_1_COMMAND_PORT, value: CMD_END_OF_INTERRUPT });
    }
    proof {
        assert(writes@ =~= eoi_write_seq(vector));
    }
    writes
}

/// The exact initialization sequence that remaps the chained controllers to
/// the bases `offset1` and `offset2`. `mask1` and `mask2` are the interrupt
/// masks read from the two data ports beforehand; the sequence restores them
/// at the end. A settle write separates every pair of initialization bytes.
pub open spec fn remap_write_seq(offset1: u8, offset2: u8, mask1: u8, mask2: u8) -> Seq<
    PortWrite,
> {
    seq![
        PortWrite { port: PIC_1_COMMAND_PORT, value: CMD_INIT },
        PortWrite { port: WAIT_PORT, value: 0 },
        PortWrite { port: PIC_2_COMMAND_PORT, value: CMD_INIT },
        PortWrite { port: WAIT_PORT, value: 0 },
        PortWrite { port: PIC_1_DATA_PORT, value: offset1 },
        PortWrite { port: WAIT_PORT, value: 0 },
        PortWrite { port: PIC_2_DATA_PORT, value: offset2 },
        PortWrite { port: WAIT_PORT, value: 0 },
        PortWrite { port: PIC_1_DATA_PORT, value: 4 },
        PortWrite { port: WAIT_PORT, value: 0 },
        PortWrite { port: PIC_2_DATA_PORT, value: 2 },
        PortWrite { port: WAIT_PORT, value: 0 },
        PortWrite { port: PIC_1_DATA_PORT, value: MODE_8086 },
        PortWrite { port: WAIT_PORT, value: 0 },
        PortWrite { port: PIC_2_DATA_PORT, value: MODE_8086 },
        PortWrite { port: WAIT_PORT, value: 0 },
        PortWrite { port: PIC_1_DATA_PORT, value: mask1 },
        PortWrite { port: PIC_2_DATA_PORT, value: mask2 },
    ]
}

/// Builds the initialization sequence that remaps the controllers.
///
/// The bases must lie above the CPU-reserved vectors, and the secondary
/// base sits eight lines above the primary, matching the fixed chain wiring.
/// Initialization happens once at boot, before interrupts are enabled.
pub fn remap(offset1: u8, offset2: u8, mask1: u8, mask2: u8) -> (r: Vec<PortWrite>)
    requires
        offset1 >= 32,
        offset2 == offset1 + 8,
    ensures
        r@ == remap_write_seq(offset1, offset2, mask1, mask2),
{
    let mut writes: Vec<PortWrite> = Vec::new();
    writes.push(PortWrite { port: PIC_1_COMMAND_PORT, value: CMD_INIT });
    writes.push(PortWrite { port: WAIT_PORT, value: 0 });
    writes.push(PortWrite { port: PIC_2_COMMAND_PORT, value: CMD_INIT });
    writes.push(PortWrite { port: WAIT_PORT, value: 0 });
    writes.push(PortWrite { port: PIC_1_DATA_PORT, value: offset1 });
    writes.push(PortWrite { port: WAIT_PORT, value: 0 });
    writes.push(PortWrite { port: PIC_2_DATA_PORT, value: offset2 });
    writes.push(PortWrite { port: WAIT_PORT, value: 0 });
    writes.push(PortWrite { port: PIC_1_DATA_PORT, value: 4 });
    writes.push(PortWrite { port: WAIT_PORT, value: 0 });
    writes.push(PortWrite { port: PIC_2_DATA_PORT, value: 2 });
    writes.push(PortWrite { port: WAIT_PORT, value: 0 });
    writes.push(PortWrite { port: PIC_1_DATA_PORT, value: MODE_8086 });
    writes.push(PortWrite { port: WAIT_PORT, value: 0 });
    writes.push(PortWrite { port: PIC_2_DATA_PORT, value: MODE_8086 });
    writes.push(PortWrite { port: WAIT_PORT, value: 0 });
    writes.push(PortWrite { port: PIC_1_DATA_PORT, value: mask1 });
    writes.push(PortWrite { port: PIC_2_DATA_PORT, value: mask2 });
    proof {
        assert(writes@ =~= remap_write_seq(offset1, offset2, mask1, mask2));
    }
    writes
}

} // verus!

//! Hardware interrupt dispatch for a bare-metal x86 kernel.
//!
//! The crate holds the decision logic of the interrupt subsystem: the
//! frequency codec for the programmable interval timer, the write sequences
//! that program a timer channel and that remap and acknowledge the chained
//! interrupt controllers, the vector-table bindings, the event-hook registry,
//! the scancode decoder session, and the per-handler step logic. Everything
//! that touches hardware ports or the CPU's table registers consumes the
//! values produced here; the port writes themselves happen outside the crate.

pub mod codec;
pub mod decoder;
pub mod idt;
pub mod handlers;
pub mod hooks;
pub mod pic;
pub mod pit;

pub use codec::Frequency;
pub use codec::FrequencyError;

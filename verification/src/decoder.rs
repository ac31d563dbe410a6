//! The scancode decoder session: a stateful translator from the raw byte
//! stream of the keyboard data port to complete key events.
//!
//! The decoding itself — scancode set 1 sequences, the US 104-key layout and
//! the modifier state — is done by the `pc_keyboard` crate. Its keyboard
//! machine is deterministic, so its state is captured by the history of
//! bytes it has consumed, named here by [`session_fed`], and what a byte
//! yields is a function of that history alone, named by [`decoded_key`].
//! Malformed or unrecognized sequences yield nothing and the machine
//! resets: the stream offers no way to signal junk, so the session never
//! fails visibly.

use vstd::prelude::*;

verus! {

/// A complete decoded key event: a printable (or control) character, or the
/// raw code of a key with no character.
#[derive(Clone, Copy, Debug, PartialEq, Eq, Structural)]
pub enum KeyPress {
    Unicode(char),
    Raw(u8),
}

/// A decoder session: the keyboard machine of `pc_keyboard`, owned by the
/// keyboard handler's critical section alone. The machine's generics carry
/// bounds of its own crate, so the session holds it opaquely and speaks of
/// it through [`session_fed`].
#[verifier::external_body]
pub struct DecoderSession {
    keyboard: pc_keyboard::PS2Keyboard<pc_keyboard::layouts::Us104Key, pc_keyboard::ScancodeSet1>,
}

/// The bytes a session's keyboard machine has consumed since it was built.
/// The machine is deterministic, so this history captures its state.
pub uninterp spec fn session_fed(s: DecoderSession) -> Seq<u8>;

/// What the keyboard machine yields after consuming exactly the bytes of
/// `history`, the last byte being the one just fed: `None` while a sequence
/// is incomplete, was dropped as malformed, or completed without a decoded
/// key (a release, a bare modifier); the key otherwise. Deterministic, so a
/// function of the history alone.
pub uninterp spec fn decoded_key(history: Seq<u8>) -> Option<KeyPress>;

impl DecoderSession {
    /// The bytes fed to the session since it was built.
    pub open spec fn fed(&self) -> Seq<u8> {
        session_fed(*self)
    }

    /// Builds a fresh session that has consumed nothing.
    ///
    /// Relies on `pc_keyboard::PS2Keyboard::new` with scancode set 1, the
    /// US 104-key layout and control mapping off, matching the keyboard
    /// wiring this kernel decodes.
    #[verifier::external_body]
    pub fn new() -> (s: Self)
        ensures
            session_fed(s) == Seq::<u8>::empty(),
    {
        DecoderSession {
            keyboard: pc_keyboard::PS2Keyboard::new(
                pc_keyboard::ScancodeSet1::new(),
                pc_keyboard::layouts::Us104Key,
                pc_keyboard::HandleControl::Ignore,
            ),
        }
    }

    /// Feeds one byte read from the keyboard data port and returns the key
    /// it completes, if any.
    ///
    /// Relies on `pc_keyboard::PS2Keyboard::add_byte` and
    /// `process_keyevent`: together they advance the deterministic machine
    /// by one byte, so the new state has consumed exactly one byte more and
    /// the outcome is [`decoded_key`] of the new history. A byte the
    /// machine rejects is absorbed (the error is dropped, as the stream
    /// cannot be asked to resend), yielding nothing.
    #[verifier::external_body]
    pub(crate) fn feed(&mut self, scancode: u8) -> (r: Option<KeyPress>)
        ensures
            session_fed(*final(self)) == session_fed(*old(self)).push(scancode),
            r == decoded_key(session_fed(*old(self)).push(scancode)),
    {
        match self.keyboard.add_byte(scancode) {
            Ok(Some(event)) => match self.keyboard.process_keyevent(event) {
                Some(pc_keyboard::DecodedKey::Unicode(c)) => Some(KeyPress::Unicode(c)),
                Some(pc_keyboard::DecodedKey::RawKey(code)) => Some(KeyPress::Raw(code as u8)),
                None => None,
            },
            _ => None,
        }
    }
}

} // verus!

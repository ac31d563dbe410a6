//! The process-wide registry of event hooks: one zero-argument tick slot and
//! one key slot, each an unconditional overwrite with the last writer
//! winning. The slots are written only outside interrupt context and read
//! by exactly one handler kind each, so the registry itself needs no lock;
//! hooks are invoked synchronously on the interrupted stack and must stay
//! short and non-blocking.

use vstd::prelude::*;

verus! {

/// The two swappable callback slots consulted from inside the handlers.
/// `T` is the tick hook, `K` the key hook; both default to a no-op chosen
/// at construction.
pub struct HookRegistry<T, K> {
    pub tick: T,
    pub key: K,
}

/// The registry with its tick slot overwritten and its key slot kept.
pub open spec fn with_tick_hook<T, K>(r: HookRegistry<T, K>, hook: T) -> HookRegistry<T, K> {
    HookRegistry { tick: hook, key: r.key }
}

/// The registry with its key slot overwritten and its tick slot kept.
pub open spec fn with_key_hook<T, K>(r: HookRegistry<T, K>, hook: K) -> HookRegistry<T, K> {
    HookRegistry { tick: r.tick, key: hook }
}

impl<T, K> HookRegistry<T, K> {
    /// Builds the registry with its two initial hooks, normally the no-op
    /// defaults installed at boot.
    pub fn new(tick: T, key: K) -> (r: Self)
        ensures
            r.tick == tick,
            r.key == key,
    {
        HookRegistry { tick, key }
    }

    /// Overwrites the tick slot; the key slot is untouched.
    pub fn set_tick_hook(&mut self, hook: T)
        ensures
            *final(self) == with_tick_hook(*old(self), hook),
            final(self).tick == hook,
            final(self).key == old(self).key,
    {
        self.tick = hook;
    }

    /// Overwrites the key slot; the tick slot is untouched.
    pub fn set_key_hook(&mut self, hook: K)
        ensures
            *final(self) == with_key_hook(*old(self), hook),
            final(self).key == hook,
            final(self).tick == old(self).tick,
    {
        self.key = hook;
    }

    /// The hook the next timer tick invokes.
    pub fn tick_hook(&self) -> (r: &T)
        ensures
            *r == self.tick,
    {
        &self.tick
    }

    /// The hook the next decoded key is handed to.
    pub fn key_hook(&self) -> (r: &K)
        ensures
            *r == self.key,
    {
        &self.key
    }
}

/// Law: the tick slot overwrites atomically and the last writer wins.
/// Writing `f` and then `g` leaves exactly the state that writing `g`
/// alone leaves, so the next tick consults `g`, never `f`.
pub proof fn lemma_tick_hook_last_writer_wins<T, K>(r: HookRegistry<T, K>, f: T, g: T)
    ensures
        with_tick_hook(with_tick_hook(r, f), g) == with_tick_hook(r, g),
        with_tick_hook(with_tick_hook(r, f), g).tick == g,
{
}

/// Law: the key slot overwrites atomically and the last writer wins, just
/// like the tick slot.
pub proof fn lemma_key_hook_last_writer_wins<T, K>(r: HookRegistry<T, K>, f: K, g: K)
    ensures
        with_key_hook(with_key_hook(r, f), g) == with_key_hook(r, g),
        with_key_hook(with_key_hook(r, f), g).key == g,
{
}

} // verus!

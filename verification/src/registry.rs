//! The connection registry: a single slot that holds the live transport
//! handle, if there is one.
//!
//! The registry owns its handle. A handle that leaves the slot is dropped on
//! the spot, which closes it; none is handed out by value, so no second owner
//! can arise. Exclusive access is what `&mut` asks of the caller: whoever
//! shares a registry between tasks puts it behind a lock.

use vstd::prelude::*;

verus! {

/// Zero or one live handle of type `H`.
pub struct Registry<H> {
    slot: Option<H>,
}

/// The handles that a slot holds, as a sequence.
pub open spec fn live<H>(slot: Option<H>) -> Seq<H> {
    match slot {
        Some(handle) => seq![handle],
        None => Seq::empty(),
    }
}

impl<H> View for Registry<H> {
    type V = Option<H>;

    closed spec fn view(&self) -> Option<H> {
        self.slot
    }
}

impl<H> Registry<H> {
    /// An empty registry.
    pub fn new() -> (registry: Self)
        ensures
            registry@ is None,
    {
        Registry { slot: None }
    }

    /// Whether a handle is present.
    pub fn is_connected(&self) -> (connected: bool)
        ensures
            connected == (self@ is Some),
    {
        self.slot.is_some()
    }

    /// The handle, borrowed for as long as the registry is.
    pub fn handle(&self) -> (handle: Option<&H>)
        ensures
            match handle {
                Some(h) => self@ == Some(*h),
                None => self@ is None,
            },
    {
        self.slot.as_ref()
    }

    /// Puts a handle into the slot. A handle that was there is dropped.
    pub fn install(&mut self, handle: H)
        ensures
            final(self)@ == Some(handle),
            live(final(self)@) == seq![handle],
    {
        self.slot = Some(handle);
    }

    /// Empties the slot, dropping the handle that was there, and says
    /// whether there was one.
    pub fn clear(&mut self) -> (was_connected: bool)
        ensures
            final(self)@ is None,
            live(final(self)@).len() == 0,
            was_connected == (old(self)@ is Some),
    {
        let was_connected = self.slot.is_some();
        self.slot = None;
        was_connected
    }
}

/// A registry never holds more than one live handle.
pub proof fn lemma_at_most_one_handle<H>(registry: Registry<H>)
    ensures
        live(registry@).len() <= 1,
        registry@ is None <==> live(registry@).len() == 0,
{
}

} // verus!

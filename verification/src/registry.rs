//! The rendezvous registry: the execution-context object through which a
//! generator's `send` reaches the slot its driver registered.
//!
//! One `Registry` stands for one cooperative execution context (one thread or
//! single-threaded task) and one value type. It holds a stack of active
//! registrations; the top of the stack is the entry the currently running
//! resume step writes into. Registrations nest by push/pop, so a generator
//! that itself drives an inner generator shadows the outer entry for the
//! inner step and uncovers it again afterwards.
//!
//! The registry also allocates the pair identifiers that bind a producer
//! handle to its consumer handle: a counter, monotonically increasing, so no
//! two pairs created from the same registry ever share an identifier.

use vstd::prelude::*;

verus! {

/// One active registration: the identifier of the handle pair it belongs to,
/// and the single-value slot the producer's `send` writes into.
pub struct Entry<T> {
    /// Identifier of the handle pair this registration was opened for.
    pub id: u64,
    /// The single-value slot; at most one value is in flight per entry.
    pub slot: Option<T>,
}

/// The execution-context object: a stack of active registrations plus the
/// counter that hands out fresh pair identifiers.
pub struct Registry<T> {
    entries: Vec<Entry<T>>,
    next_id: u64,
}

/// The registration stack after a new registration for pair `id` is opened:
/// the new entry, with an empty slot, shadows all older ones.
pub open spec fn registered<T>(stack: Seq<Entry<T>>, id: u64) -> Seq<Entry<T>> {
    stack.push(Entry { id, slot: None })
}

/// Whether a `send` by the pair `id` reaches a matching registration: some
/// registration must be open, and the innermost one must belong to `id`.
/// When this fails, the producer handle was resumed on an execution context
/// that registered a different pair (or none): the fatal protocol misuse.
pub open spec fn can_deliver<T>(stack: Seq<Entry<T>>, id: u64) -> bool {
    stack.len() > 0 && stack.last().id == id
}

/// The registration stack after a matching `send` offers `value`: the value
/// lands in the innermost slot if that slot is empty; a value already pending
/// there is left in place and `value` is discarded (at most one value is in
/// flight per entry, and the driver drains the slot before every resume).
pub open spec fn delivered<T>(stack: Seq<Entry<T>>, value: T) -> Seq<Entry<T>> {
    if stack.len() > 0 && stack.last().slot is None {
        stack.update(stack.len() - 1, Entry { id: stack.last().id, slot: Some(value) })
    } else {
        stack
    }
}

impl<T> Registry<T> {
    /// The stack of active registrations; the last element is the entry the
    /// current resume step writes into.
    pub closed spec fn stack(self) -> Seq<Entry<T>> {
        self.entries@
    }

    /// The identifier the next handle pair created from this registry gets.
    pub closed spec fn next_pair_id(self) -> u64 {
        self.next_id
    }

    /// The identifier of the registration a `send` would currently reach,
    /// if any registration is open.
    pub open spec fn active_pair_id(self) -> Option<u64> {
        if self.stack().len() > 0 {
            Some(self.stack().last().id)
        } else {
            None
        }
    }

    /// A fresh registry: no registration open, identifiers start at 1, so
    /// identifier 0 never names a live pair.
    pub fn new() -> (r: Registry<T>)
        ensures
            r.stack() =~= Seq::<Entry<T>>::empty(),
            r.next_pair_id() == 1,
    {
        Registry { entries: Vec::new(), next_id: 1 }
    }

    /// Allocates a fresh pair identifier: returns the current counter value
    /// and advances the counter, so every identifier is handed out at most
    /// once per registry.
    pub fn fresh_pair_id(&mut self) -> (id: u64)
        requires
            old(self).next_pair_id() < u64::MAX,
        ensures
            id == old(self).next_pair_id(),
            final(self).next_pair_id() == old(self).next_pair_id() + 1,
            final(self).stack() == old(self).stack(),
    {
        let id = self.next_id;
        self.next_id = self.next_id + 1;
        id
    }

    /// The identifier of the innermost open registration, if any: the pair a
    /// `send` polled right now would be checked against.
    pub fn current_id(&self) -> (r: Option<u64>)
        ensures
            r == self.active_pair_id(),
    {
        if self.entries.len() > 0 {
            Some(self.entries[self.entries.len() - 1].id)
        } else {
            None
        }
    }

    /// Whether the innermost open registration already holds a value.
    pub(crate) fn top_has_value(&self) -> (r: bool)
        requires
            self.stack().len() > 0,
        ensures
            r == (self.stack().last().slot is Some),
    {
        self.entries[self.entries.len() - 1].slot.is_some()
    }

    /// Opens a registration for pair `id` with an empty slot, shadowing any
    /// registration already open.
    pub(crate) fn push_entry(&mut self, id: u64)
        ensures
            final(self).stack() == registered(old(self).stack(), id),
            final(self).next_pair_id() == old(self).next_pair_id(),
    {
        self.entries.push(Entry { id, slot: None });
    }

    /// Closes the innermost registration, uncovering the one it shadowed, and
    /// hands back whatever its slot held.
    pub(crate) fn pop_entry(&mut self) -> (taken: Option<T>)
        requires
            old(self).stack().len() > 0,
        ensures
            final(self).stack() == old(self).stack().drop_last(),
            taken == old(self).stack().last().slot,
            final(self).next_pair_id() == old(self).next_pair_id(),
    {
        let top = self.entries.pop().unwrap();
        top.slot
    }

    /// Offers `value` to the innermost open registration: stores it if the
    /// slot is empty, discards it if a value is already pending there.
    pub(crate) fn deliver(&mut self, value: T)
        requires
            old(self).stack().len() > 0,
        ensures
            final(self).stack() == delivered(old(self).stack(), value),
            final(self).next_pair_id() == old(self).next_pair_id(),
    {
        let mut top = self.entries.pop().unwrap();
        if top.slot.is_none() {
            top.slot = Some(value);
            self.entries.push(top);
            proof {
                assert(self.stack() =~= delivered(old(self).stack(), value));
            }
        } else {
            self.entries.push(top);
            proof {
                assert(self.stack() =~= delivered(old(self).stack(), value));
            }
        }
    }
}

} // verus!

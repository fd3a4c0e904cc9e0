//! The matched handle pair and the suspendable `send` operation.
//!
//! [`pair`] creates a [`Sender`] and a [`Receiver`] sharing a fresh pair
//! identifier. The sender is moved into the generator; the receiver stays
//! with the driver. A generator hands a value out by building a
//! [`SendFuture`] with [`Sender::send`] and polling it once per resume step:
//! the first poll moves the value into the registered slot of the matching
//! registration and suspends, the next poll completes.

use vstd::prelude::*;

use crate::registry::can_deliver;
use crate::registry::delivered;
use crate::registry::registered;
use crate::registry::Registry;

verus! {

/// The producer handle: moved into the generator, used to yield values.
/// Holds nothing but the pair identifier binding it to its [`Receiver`].
pub struct Sender<T> {
    id: u64,
    _values: core::marker::PhantomData<T>,
}

/// The consumer handle: retained by the driver, used to open and close the
/// registration a matching [`Sender`] delivers into.
pub struct Receiver<T> {
    id: u64,
    _values: core::marker::PhantomData<T>,
}

/// Creates a matched producer/consumer pair sharing a fresh identifier
/// allocated from `registry`'s counter. Its only side effect is advancing
/// that counter, so no two pairs from one registry share an identifier.
pub fn pair<T>(registry: &mut Registry<T>) -> (handles: (Sender<T>, Receiver<T>))
    requires
        old(registry).next_pair_id() < u64::MAX,
    ensures
        handles.0.id() == old(registry).next_pair_id(),
        handles.1.id() == handles.0.id(),
        final(registry).next_pair_id() == old(registry).next_pair_id() + 1,
        final(registry).stack() == old(registry).stack(),
{
    let id = registry.fresh_pair_id();
    let tx = Sender { id, _values: core::marker::PhantomData };
    let rx = Receiver { id, _values: core::marker::PhantomData };
    (tx, rx)
}

impl<T> Sender<T> {
    /// The identifier of the pair this handle belongs to.
    pub closed spec fn spec_id(&self) -> u64 {
        self.id
    }

    /// The identifier of the pair this handle belongs to.
    #[verifier::when_used_as_spec(spec_id)]
    pub fn id(&self) -> (r: u64)
        ensures
            r == self.spec_id(),
    {
        self.id
    }

    /// Returns the suspendable unit of work that hands `value` to the
    /// driver: an operation to be polled, not yet any effect.
    pub fn send(&mut self, value: T) -> (op: SendFuture<T>)
        ensures
            op.id() == old(self).id(),
            op.pending_value() == Some(value),
            final(self).id() == old(self).id(),
    {
        SendFuture { id: self.id, value: Some(value) }
    }
}

impl<T> Receiver<T> {
    /// The identifier of the pair this handle belongs to.
    pub closed spec fn spec_id(&self) -> u64 {
        self.id
    }

    /// The identifier of the pair this handle belongs to.
    #[verifier::when_used_as_spec(spec_id)]
    pub fn id(&self) -> (r: u64)
        ensures
            r == self.spec_id(),
    {
        self.id
    }

    /// Opens a registration for this pair on `registry`, with an empty slot,
    /// shadowing whatever registration was open before. The matching
    /// [`exit`](Receiver::exit) closes it again; the pairing of the two calls
    /// is what keeps an inner driver's registration from leaking into the
    /// outer driver's resume step.
    pub fn enter(&mut self, registry: &mut Registry<T>)
        ensures
            final(registry).stack() == registered(old(registry).stack(), old(self).id()),
            final(registry).next_pair_id() == old(registry).next_pair_id(),
            final(self).id() == old(self).id(),
    {
        registry.push_entry(self.id);
    }

    /// Closes this pair's registration, uncovering the registration it
    /// shadowed, and hands back the value the slot held, if any.
    pub fn exit(&mut self, registry: &mut Registry<T>) -> (taken: Option<T>)
        requires
            old(registry).stack().len() > 0,
            old(registry).stack().last().id == old(self).id(),
        ensures
            final(registry).stack() == old(registry).stack().drop_last(),
            taken == old(registry).stack().last().slot,
            final(registry).next_pair_id() == old(registry).next_pair_id(),
            final(self).id() == old(self).id(),
    {
        registry.pop_entry()
    }
}

/// What one poll of a [`SendFuture`] reports back to whoever resumed the
/// generator.
#[derive(Clone, Copy, PartialEq, Eq, Structural, Debug)]
pub enum SendPoll {
    /// The value was already handed over on an earlier poll; the `send`
    /// operation is finished and the generator may go on.
    Ready,
    /// The value was moved out on this poll; control must return to the
    /// driver so it can drain the slot.
    Pending,
    /// The innermost open registration does not belong to this operation's
    /// pair (or none is open): the producer was resumed on an execution
    /// context driving a different pair. The protocol cannot continue from
    /// this; the host must abort the offending execution, it is not a
    /// recoverable outcome.
    MisuseFatal,
}

/// The suspendable unit of work a [`Sender::send`] returns: the pair
/// identifier plus the value still waiting to be handed over.
pub struct SendFuture<T> {
    id: u64,
    value: Option<T>,
}

impl<T> SendFuture<T> {
    /// The identifier of the pair this operation delivers for.
    pub closed spec fn id(self) -> u64 {
        self.id
    }

    /// The value not yet handed over; `None` once a poll has moved it out.
    pub closed spec fn pending_value(self) -> Option<T> {
        self.value
    }

    /// One suspension check of the `send` operation.
    ///
    /// With no value left to hand over it reports [`SendPoll::Ready`] and
    /// touches nothing. Otherwise it checks the innermost open registration
    /// against its own pair identifier: on a mismatch nothing is written and
    /// the outcome is the fatal [`SendPoll::MisuseFatal`]; on a match the
    /// value is moved out — into the slot if the slot is empty, discarded if
    /// a value is already pending there — and the operation suspends with
    /// [`SendPoll::Pending`] so the driver regains control.
    pub fn poll(&mut self, registry: &mut Registry<T>) -> (r: SendPoll)
        ensures
            final(self).id() == old(self).id(),
            final(registry).next_pair_id() == old(registry).next_pair_id(),
            old(self).pending_value() is None ==> {
                &&& r == SendPoll::Ready
                &&& final(self).pending_value() is None
                &&& final(registry).stack() == old(registry).stack()
            },
            old(self).pending_value() is Some && !can_deliver(
                old(registry).stack(),
                old(self).id(),
            ) ==> {
                &&& r == SendPoll::MisuseFatal
                &&& final(self).pending_value() == old(self).pending_value()
                &&& final(registry).stack() == old(registry).stack()
            },
            old(self).pending_value() matches Some(v) ==> can_deliver(
                old(registry).stack(),
                old(self).id(),
            ) ==> {
                &&& r == SendPoll::Pending
                &&& final(self).pending_value() is None
                &&& final(registry).stack() == delivered(old(registry).stack(), v)
            },
    {
        if self.value.is_none() {
            return SendPoll::Ready;
        }
        let registration_matches = match registry.current_id() {
            Some(current) => current == self.id,
            None => false,
        };
        if !registration_matches {
            return SendPoll::MisuseFatal;
        }
        let value = self.value.take().unwrap();
        registry.deliver(value);
        SendPoll::Pending
    }
}

} // verus!

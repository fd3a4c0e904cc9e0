//! The laws of the rendezvous protocol, stated over the same spec-level
//! operations ([`registered`], [`can_deliver`], [`delivered`]) that the
//! contracts of the executable functions are written with.
//!
//! A "scripted" generator is one with no awaited work of its own: on each
//! resume it either sends its next value (and suspends inside that send) or,
//! with no values left, runs to completion. One pull of such a stream is
//! [`scripted_pull`], the exact composition of the contracts of
//! `Driver::begin_pull`, `SendFuture::poll` and `Driver::resolve_resume`.

use vstd::prelude::*;

use crate::registry::can_deliver;
use crate::registry::delivered;
use crate::registry::registered;
use crate::registry::Entry;

verus! {

/// One pull of a scripted stream: from the registration stack, the pair
/// identifier, the values the generator has left to send and whether the
/// stream is already terminal, to the state after the pull and the pull's
/// result.
///
/// A terminal stream refuses to resume anything and reports no value. An
/// active one opens its registration; a generator with values left sends the
/// first — the send suspends, the driver finds the slot filled, takes the
/// value and closes the registration — and a generator with nothing left runs
/// to completion, upon which the driver closes the empty registration and the
/// stream turns terminal.
pub open spec fn scripted_pull<T>(
    stack: Seq<Entry<T>>,
    id: u64,
    remaining: Seq<T>,
    completed: bool,
) -> (Seq<Entry<T>>, Seq<T>, bool, Option<T>) {
    if completed {
        (stack, remaining, true, None::<T>)
    } else {
        let opened = registered(stack, id);
        if remaining.len() > 0 {
            let written = delivered(opened, remaining[0]);
            (written.drop_last(), remaining.drop_first(), false, written.last().slot)
        } else {
            (opened.drop_last(), remaining, true, opened.last().slot)
        }
    }
}

/// The results of `pulls` successive pulls of a scripted stream, each pull
/// fed the state the previous one left behind.
pub open spec fn scripted_results<T>(
    stack: Seq<Entry<T>>,
    id: u64,
    remaining: Seq<T>,
    completed: bool,
    pulls: nat,
) -> Seq<Option<T>>
    decreases pulls,
{
    if pulls == 0 {
        Seq::<Option<T>>::empty()
    } else {
        let step = scripted_pull(stack, id, remaining, completed);
        seq![step.3] + scripted_results(step.0, id, step.1, step.2, (pulls - 1) as nat)
    }
}

/// Law: one rendezvous round is exact. Opening a registration for a pair on
/// any stack makes that pair (and only a matching pair) deliverable; the sent
/// value is the one the slot then holds, with every shadowed entry untouched;
/// and closing the registration restores the stack exactly as it was.
pub proof fn lemma_rendezvous_round<T>(stack: Seq<Entry<T>>, id: u64, value: T)
    ensures
        can_deliver(registered(stack, id), id),
        delivered(registered(stack, id), value).last().slot == Some(value),
        delivered(registered(stack, id), value).len() == stack.len() + 1,
        delivered(registered(stack, id), value).drop_last() == stack,
{
    let opened = registered(stack, id);
    let written = delivered(opened, value);
    assert(written.drop_last() =~= stack);
}

/// Law: exhaustion is idempotent. Every pull of a terminal stream reports no
/// value, however many times it is pulled and whatever state surrounds it.
pub proof fn lemma_exhaustion_is_idempotent<T>(
    stack: Seq<Entry<T>>,
    id: u64,
    remaining: Seq<T>,
    pulls: nat,
)
    ensures
        scripted_results(stack, id, remaining, true, pulls).len() == pulls,
        forall|i: int|
            0 <= i < pulls ==> scripted_results(stack, id, remaining, true, pulls)[i] is None,
    decreases pulls,
{
    if pulls > 0 {
        lemma_exhaustion_is_idempotent(stack, id, remaining, (pulls - 1) as nat);
    }
}

/// Law: values arrive in send order, once each, then nothing. A scripted
/// generator with `values` left to send answers the first `values.len()`
/// pulls with exactly those values, in order, and every later pull with no
/// value — however many pulls follow.
pub proof fn lemma_pull_order<T>(stack: Seq<Entry<T>>, id: u64, values: Seq<T>, pulls: nat)
    ensures
        scripted_results(stack, id, values, false, pulls).len() == pulls,
        forall|i: int|
            0 <= i < pulls ==> scripted_results(stack, id, values, false, pulls)[i] == (if i
                < values.len() {
                Some(values[i])
            } else {
                None::<T>
            }),
    decreases pulls,
{
    if pulls > 0 {
        let step = scripted_pull(stack, id, values, false);
        let results = scripted_results(stack, id, values, false, pulls);
        if values.len() > 0 {
            lemma_rendezvous_round(stack, id, values[0]);
            assert(step.0 == stack);
            assert(step.3 == Some(values[0]));
            lemma_pull_order(stack, id, values.drop_first(), (pulls - 1) as nat);
            let rest = scripted_results(stack, id, values.drop_first(), false, (pulls - 1) as nat);
            assert(results == seq![step.3] + rest);
            assert forall|i: int| 0 <= i < pulls implies results[i] == (if i < values.len() {
                Some(values[i])
            } else {
                None::<T>
            }) by {
                if i > 0 {
                    assert(results[i] == rest[i - 1]);
                    if i < values.len() {
                        assert(values.drop_first()[i - 1] == values[i]);
                    }
                }
            }
        } else {
            let opened = registered(stack, id);
            assert(opened.drop_last() =~= stack);
            assert(step.3 is None);
            lemma_exhaustion_is_idempotent(stack, id, values, (pulls - 1) as nat);
            let rest = scripted_results(stack, id, values, true, (pulls - 1) as nat);
            assert(results == seq![step.3] + rest);
            assert forall|i: int| 0 <= i < pulls implies results[i] is None by {
                if i > 0 {
                    assert(results[i] == rest[i - 1]);
                }
            }
        }
    }
}

/// Law: a generator that sends nothing still runs. The first pull of a
/// stream over a generator with no values to send resumes the generator to
/// completion — so whatever effects its body has are complete when the pull
/// settles — reports no value, leaves the surrounding stack exactly as it
/// was, and turns the stream terminal.
pub proof fn lemma_empty_generator_first_pull<T>(stack: Seq<Entry<T>>, id: u64)
    ensures
        scripted_pull(stack, id, Seq::<T>::empty(), false) == (
            stack,
            Seq::<T>::empty(),
            true,
            None::<T>,
        ),
{
    let opened = registered(stack, id);
    assert(opened.drop_last() =~= stack);
}

/// Law: registrations shadow and restore. An inner stream's full rendezvous
/// round, run while an outer driver's registration (with its slot still
/// empty) is on top of the stack, delivers exactly the inner value, touches
/// no outer entry, and uncovers the outer registration again, so the outer
/// generator's own send then delivers into the outer slot — forwarding each
/// inner value outward unchanged.
pub proof fn lemma_nested_forwarding<T>(
    stack: Seq<Entry<T>>,
    outer_id: u64,
    inner_id: u64,
    value: T,
)
    requires
        stack.len() > 0,
        stack.last().id == outer_id,
        stack.last().slot is None,
    ensures
        ({
            let inner_written = delivered(registered(stack, inner_id), value);
            let after_inner = inner_written.drop_last();
            let forwarded = delivered(after_inner, value);
            &&& can_deliver(registered(stack, inner_id), inner_id)
            &&& inner_written.last().slot == Some(value)
            &&& after_inner == stack
            &&& can_deliver(after_inner, outer_id)
            &&& forwarded.last().slot == Some(value)
            &&& forwarded.drop_last() == stack.drop_last()
        }),
{
    lemma_rendezvous_round(stack, inner_id, value);
    let after_inner = delivered(registered(stack, inner_id), value).drop_last();
    let forwarded = delivered(after_inner, value);
    assert(forwarded.drop_last() =~= stack.drop_last());
}

/// Law: a producer moved to a foreign stream is caught. When a driver of a
/// different pair has registered, a pending send of this pair finds the
/// innermost registration mismatched, which `SendFuture::poll` answers with
/// the fatal misuse verdict and no write at all.
pub proof fn lemma_moved_producer_is_fatal<T>(
    stack: Seq<Entry<T>>,
    producer_id: u64,
    driver_id: u64,
)
    requires
        producer_id != driver_id,
    ensures
        !can_deliver(registered(stack, driver_id), producer_id),
{
}

/// Law: no cross-delivery. A send by one pair never changes any entry that
/// belongs to another pair: delivery writes only into the innermost entry,
/// and only when that entry's identifier is the sender's own.
pub proof fn lemma_no_cross_delivery<T>(stack: Seq<Entry<T>>, sender_id: u64, value: T, i: int)
    requires
        0 <= i < stack.len(),
        stack[i].id != sender_id,
    ensures
        can_deliver(stack, sender_id) ==> delivered(stack, value)[i] == stack[i],
{
}

} // verus!

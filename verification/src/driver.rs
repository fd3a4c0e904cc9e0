//! The driver: the pull-driven sequence object.
//!
//! One pull asks the generator for its next value. The driver opens a
//! registration for its pair (unless the stream is already exhausted), lets
//! the host resume the generator — possibly several times, when the generator
//! suspends on work of its own that produces no value — and settles the pull
//! from what the resume reported and what the slot holds. Once the generator
//! has run to completion the stream is terminal: every later pull reports
//! exhaustion without resuming anything.

use vstd::prelude::*;

use crate::registry::registered;
use crate::registry::Registry;
use crate::yielder::Receiver;

verus! {

/// Where the driver stands between calls.
#[derive(Clone, Copy, PartialEq, Eq, Structural, Debug)]
pub enum Phase {
    /// No pull is underway: the stream has not started, or the last pull
    /// settled with a value, and another pull may begin.
    Idle,
    /// A pull is underway: this driver's registration is open and the
    /// generator is being resumed.
    Running,
    /// The generator has run to completion; the stream is terminal and no
    /// pull will ever resume it again.
    Completed,
}

/// What one settled resume step of a pull reports.
pub enum StepOutcome<T> {
    /// The generator handed a value over; the pull is settled and the
    /// registration closed.
    Yielded(T),
    /// The generator ran to completion without handing a value over; the
    /// stream is exhausted, this pull and every later one report no value.
    Finished,
    /// The generator suspended on work of its own without handing a value
    /// over; the registration stays open and the host must resume the
    /// generator again to settle this same pull.
    Pending,
}

/// The pull state machine: the consumer handle of one generator plus the
/// phase the stream is in.
pub struct Driver<T> {
    receiver: Receiver<T>,
    phase: Phase,
}

impl<T> Driver<T> {
    /// The identifier of the pair this driver pulls from.
    pub closed spec fn spec_pair_id(&self) -> u64 {
        self.receiver.id()
    }

    /// The identifier of the pair this driver pulls from.
    #[verifier::when_used_as_spec(spec_pair_id)]
    pub fn pair_id(&self) -> (r: u64)
        ensures
            r == self.spec_pair_id(),
    {
        self.receiver.id()
    }

    /// Where the driver stands between calls.
    pub closed spec fn phase(self) -> Phase {
        self.phase
    }

    /// Wraps the consumer handle of a freshly created pair; the matching
    /// producer handle goes to the generator.
    pub fn new(receiver: Receiver<T>) -> (d: Driver<T>)
        ensures
            d.pair_id() == receiver.id(),
            d.phase() == Phase::Idle,
    {
        Driver { receiver, phase: Phase::Idle }
    }

    /// Whether the stream is terminal: the generator has run to completion
    /// and every later pull reports no value.
    pub fn is_terminated(&self) -> (r: bool)
        ensures
            r == (self.phase() == Phase::Completed),
    {
        match self.phase {
            Phase::Completed => true,
            _ => false,
        }
    }

    /// Starts (or continues) one pull. Reports whether the generator is to
    /// be resumed at all: a terminal stream refuses and touches nothing — the
    /// pull reports no value immediately. Otherwise the driver's registration
    /// is open when this returns: freshly opened with an empty slot when no
    /// pull was underway, or left in place from an earlier resume of the same
    /// pull that settled as [`StepOutcome::Pending`].
    pub fn begin_pull(&mut self, registry: &mut Registry<T>) -> (resume: bool)
        ensures
            final(self).pair_id() == old(self).pair_id(),
            final(registry).next_pair_id() == old(registry).next_pair_id(),
            old(self).phase() == Phase::Completed ==> {
                &&& !resume
                &&& final(self).phase() == Phase::Completed
                &&& final(registry).stack() == old(registry).stack()
            },
            old(self).phase() == Phase::Idle ==> {
                &&& resume
                &&& final(self).phase() == Phase::Running
                &&& final(registry).stack() == registered(
                    old(registry).stack(),
                    old(self).pair_id(),
                )
            },
            old(self).phase() == Phase::Running ==> {
                &&& resume
                &&& final(self).phase() == Phase::Running
                &&& final(registry).stack() == old(registry).stack()
            },
    {
        match self.phase {
            Phase::Completed => false,
            Phase::Running => true,
            Phase::Idle => {
                self.receiver.enter(registry);
                self.phase = Phase::Running;
                true
            },
        }
    }

    /// Settles one resume of the generator. `generator_finished` is what the
    /// resume reported: whether the generator ran to completion (rather than
    /// suspending). The innermost open registration must be this driver's
    /// own — which it is whenever the resumed generator closed every
    /// registration it opened, as the enter/exit pairing guarantees.
    ///
    /// A value in the slot settles the pull with that value; the stream stays
    /// pullable unless the generator also finished. An empty slot from a
    /// finished generator is exhaustion: the stream turns terminal. An empty
    /// slot from a suspended generator settles nothing: the registration
    /// stays open, the host must suspend too and resume the generator again
    /// later within this same pull.
    pub fn resolve_resume(&mut self, registry: &mut Registry<T>, generator_finished: bool) -> (r:
        StepOutcome<T>)
        requires
            old(self).phase() == Phase::Running,
            old(registry).stack().len() > 0,
            old(registry).stack().last().id == old(self).pair_id(),
        ensures
            final(self).pair_id() == old(self).pair_id(),
            final(registry).next_pair_id() == old(registry).next_pair_id(),
            old(registry).stack().last().slot matches Some(v) ==> {
                &&& r matches StepOutcome::Yielded(y) && y == v
                &&& final(registry).stack() == old(registry).stack().drop_last()
                &&& final(self).phase() == (if generator_finished {
                    Phase::Completed
                } else {
                    Phase::Idle
                })
            },
            old(registry).stack().last().slot is None && generator_finished ==> {
                &&& r is Finished
                &&& final(registry).stack() == old(registry).stack().drop_last()
                &&& final(self).phase() == Phase::Completed
            },
            old(registry).stack().last().slot is None && !generator_finished ==> {
                &&& r is Pending
                &&& final(registry).stack() == old(registry).stack()
                &&& final(self).phase() == Phase::Running
            },
    {
        if generator_finished {
            self.phase = Phase::Completed;
            match self.receiver.exit(registry) {
                Some(value) => StepOutcome::Yielded(value),
                None => StepOutcome::Finished,
            }
        } else {
            if registry.top_has_value() {
                match self.receiver.exit(registry) {
                    Some(value) => {
                        self.phase = Phase::Idle;
                        StepOutcome::Yielded(value)
                    },
                    None => StepOutcome::Pending,
                }
            } else {
                StepOutcome::Pending
            }
        }
    }
}

} // verus!

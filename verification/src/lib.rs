//! A yield-point rendezvous protocol: values produced deep inside a
//! suspendable generator are handed, one at a time and with no per-value
//! allocation, to a driver that pulls them from the outside.
//!
//! The pieces:
//! - [`registry::Registry`]: the per-execution-context object holding the
//!   stack of active `(pair identifier, slot)` registrations;
//! - [`yielder::pair`], [`yielder::Sender`], [`yielder::Receiver`]: the
//!   matched handle pair binding a generator to its driver;
//! - [`yielder::SendFuture`]: the suspendable unit of work returned by
//!   `send`, polled once per resume step;
//! - [`driver::Driver`]: the pull state machine that registers a slot,
//!   lets the host resume the generator, and settles the outcome.
//!
//! The host (an async adapter, a test harness) owns one [`registry::Registry`]
//! per execution context and per value type, resumes generators, and feeds
//! each resume's verdict back into the driver.

pub mod driver;
pub mod laws;
pub mod registry;
pub mod yielder;

pub use driver::Driver;
pub use driver::Phase;
pub use driver::StepOutcome;
pub use registry::Entry;
pub use registry::Registry;
pub use yielder::pair;
pub use yielder::Receiver;
pub use yielder::SendFuture;
pub use yielder::SendPoll;
pub use yielder::Sender;

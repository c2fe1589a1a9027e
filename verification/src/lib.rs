//! A safety and concurrency layer for a network-synchronized musical timeline.
//!
//! The library models a shared musical timeline (tempo, beat position, phase,
//! and play/stop transport state) that several peers keep aligned over a
//! network. The peer-discovery and clock-synchronization engine itself is an
//! external collaborator; what this crate owns, and what is verified here, is
//! the timeline data model and the access discipline built on top of it:
//!
//! - time values: instants and signed durations in the synchronized clock
//!   domain, closed under saturating arithmetic;
//! - timeline snapshots: single-owner views of tempo, beat mapping and
//!   transport target, mutated locally and committed back as a whole;
//! - callback slots: replaceable notification slots whose registration,
//!   clearing and invocation cannot race, and in which a fault raised by user
//!   code is contained instead of crossing into the engine;
//! - the session handle and the realtime access token, whose exclusive
//!   hand-over makes concurrent application-path and realtime-path mutation
//!   unrepresentable.
//!
//! All musical quantities are fixed-point integers: beats and quanta are
//! counted in micro-beats (one beat is `MICROBEATS_PER_BEAT` micro-beats),
//! tempo in micro-beats per minute, and time in microseconds.

pub mod arith;
pub mod link;
pub mod registry;
pub mod time;
pub mod timeline;
pub mod transport;

pub use link::AudioLink;
pub use link::Link;
pub use link::LinkError;
pub use link::LinkView;
pub use registry::CallbackSlot;
pub use registry::SlotStatus;
pub use time::Duration;
pub use time::Instant;
pub use timeline::SessionState;
pub use timeline::SessionView;
pub use transport::TransportState;

use vstd::prelude::*;

verus! {

/// Number of micro-beats in one musical beat.
pub const MICROBEATS_PER_BEAT: i64 = 1_000_000;

/// Number of microseconds in one minute; the scale factor between a tempo in
/// micro-beats per minute and a beat rate in micro-beats per microsecond.
pub const MICROS_PER_MINUTE: i64 = 60_000_000;

} // verus!

//! Instrumentation logic for measuring and visualising frame times and input
//! latency in a client/server game loop.
//!
//! The crate holds the decision logic only: an exponential moving average over
//! frame deltas, a saturating delay counter used to inject artificial stalls,
//! a two-bit visibility toggle, a model of the periodic reporting loop, and
//! the key-to-movement state machine. A host runtime supplies clocks, input
//! events and message transport and applies the actions these types return.

pub mod delay;
pub mod frame_time;
pub mod movement;
pub mod reporter;
pub mod visibility;

//! Coordination logic of a thundering-herd wake-up benchmark: the state that
//! each shared lock protects (release barrier, completion counter, teardown
//! latch), a model of a whole worker herd built from them, the harness's
//! per-iteration state machine and the reduction of measured durations.

pub mod counter;
pub mod gate;
pub mod harness;
pub mod herd;
pub mod latch;
pub mod trials;

pub use counter::CompletionCounter;
pub use gate::Gate;
pub use harness::{Action, BenchConfig, Event, Iteration, Phase};
pub use herd::{Herd, Stage};
pub use latch::TeardownLatch;
pub use trials::{hundredths_of_ms, Trials};

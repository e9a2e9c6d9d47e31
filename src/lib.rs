//! Fixed-timestep synchronizer for a simulation step that runs on a background
//! worker while a render loop keeps ticking.
//!
//! All durations are integer nanoseconds.

pub mod channel;
pub mod context;
pub mod laws;
pub mod task;
pub mod time;

pub use channel::Received;
pub use context::{FixedMain, FixedMainStep, Phase, SimulationContext};
pub use task::{TaskOrder, TaskResult, TaskResultRaw, TaskResults, WorkTask};
pub use time::{SubstepCount, TaskToRenderTime, Timestep, NANOS_PER_SEC};

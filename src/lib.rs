//! Decision logic of an environmental sensor node: device profile lookup,
//! status light colours, reading framing, the per-cycle telemetry loop and
//! the wireless association supervisor.
use vstd::prelude::*;

pub mod indicator;
pub mod net;
pub mod payload;
pub mod sensor_config;
pub mod supervisor;
pub mod telemetry;
pub mod text;

verus! {

/// Number of cycles after which the node restarts itself.
pub const MAX_MEASUREMENTS: u32 = 1000;

} // verus!

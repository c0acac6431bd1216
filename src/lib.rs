//! Primary-sample-space bookkeeping and path-construction rules for a
//! multiplexed Metropolis light transport renderer.

pub mod config;
pub mod image;
pub mod integrator;
pub mod path;
pub mod sampler;

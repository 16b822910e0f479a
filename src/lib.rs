//! Load generation for a remote wait-for-graph deadlock detector: synthetic
//! wait-for edges, a streaming session with an ordered outbound queue, and the
//! per-worker benchmark and clean-up drivers.

pub mod edge;
pub mod generator;
pub mod session;
pub mod driver;

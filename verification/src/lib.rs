//! Live per-core CPU telemetry: the snapshot event, its wire frame, the
//! broadcast handle that fans snapshots out, and the state machines that
//! drive the sampler and each client connection.

pub mod assets;
pub mod channel;
pub mod event;
pub mod handler;
pub mod sampler;
pub mod wire;

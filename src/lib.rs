//! A connection-lifecycle adapter that lets a generic resource pool manage
//! Redis connections: it parses the address once, opens new sessions on
//! demand, probes idle ones, and reports the ones already known to be dead.

pub use r2d2;
pub use redis;

pub mod error;
pub mod lifecycle;
pub mod manager;
pub mod transport;

pub use error::{check_probe, classify_connect_failure, probe_command, ManagerError, ProbeFailure};
pub use lifecycle::{probe_event, return_event, ConnectionState, LifecycleEvent};
pub use manager::RedisConnectionManager;

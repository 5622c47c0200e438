//! Verified core of the network monitoring agent.
pub mod queue;
pub mod text;
pub mod http_wire;
pub mod target;
pub mod bandwidth;
pub mod http_content;
pub mod clock;
pub mod config;
pub mod config_sync;
pub mod agent;
pub mod scheduler;
pub mod executor;
pub mod ping;
pub mod sql;
pub mod snmp;
pub mod tasks;
pub mod summary;

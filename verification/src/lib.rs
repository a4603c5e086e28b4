//! The core of a bridge between a park-position sensor on a serial line and
//! the callers that read its telemetry and send it commands.

pub mod alpaca_server;
pub mod codec;
pub mod connection_manager;
pub mod device_state;
pub mod discovery_server;
pub mod errors;
pub mod json;
pub mod pending;
pub mod port_discovery;
pub mod serial_client;
pub mod session_trace;
pub mod telescope_client;
pub mod text;

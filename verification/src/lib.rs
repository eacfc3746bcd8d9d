//! Ground-station telemetry bridge: the connection lifecycle of a single
//! vehicle link and the decoding of its telemetry into typed events.

pub mod command;
pub mod decoder;
pub mod endpoint;
pub mod error;
pub mod event;
pub mod manager;
pub mod message;
pub mod ports;
pub mod quantity;
pub mod reader;
pub mod registry;
pub mod text;

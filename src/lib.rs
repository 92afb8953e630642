//! Session engine for a short-range wireless attribute protocol: capability
//! descriptors, the client's discovery and matching engine, the server's
//! control-event multiplexer, and the command handlers it drives.
pub mod applications;
pub mod channels;
pub mod commands;
pub mod cts;
pub mod descriptor;
pub mod discovery;
pub mod heart_rate;
pub mod server;
pub mod text;

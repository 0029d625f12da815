//! Session core of a language server for InterSystems IRIS: the lifecycle
//! controller, the single-assignment slots behind it, the deferred action
//! queue and the gateway that turns what the engine answered into catalog
//! records.
//!
//! The library performs no input or output. Whoever hosts it talks to the
//! editor and to the engine, and hands the library plain values; every
//! decision about those values is taken, and proved, here.
//!
//! - [`slot`]: the single-assignment slot.
//! - [`protocol`]: the values that cross the boundary, and the names of the
//!   messages that the session answers.
//! - [`connection`]: the gateway to the engine.
//! - [`server`]: the lifecycle controller and its queue of deferred actions.
//! - [`workspace`]: the directory of the session.
//! - [`logging`]: what the server logs.

pub mod connection;
pub mod logging;
pub mod protocol;
pub mod server;
pub mod slot;
pub mod workspace;

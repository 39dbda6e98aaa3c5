//! Fail-safe session core for a radio-frequency transmitter driven over a
//! line-oriented TCP control protocol.
//!
//! The library holds the logic of the control channel: the broadcast,
//! connection and watchdog state machines, the exponential-backoff retry
//! policy, the command/status codec, the reconciled device snapshot, the
//! audit ring buffer, the event bus, and a device simulator for exercising
//! the protocol end to end. The surrounding process owns the socket and the
//! clock; it feeds outcomes into these components and carries their decisions
//! (wire commands, events) back out.

pub mod codec;
pub mod config;
pub mod device;
pub mod errors;
pub mod event_bus;
pub mod retry;
pub mod sim;
pub mod state_machine;
pub mod status;
pub mod supervisor;
pub mod watchdog;

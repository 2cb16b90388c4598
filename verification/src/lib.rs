//! A verified model of a bidirectional-streaming chat exchange.
//!
//! One producer turns console lines into tagged outbound messages and hands
//! them to a bounded queue; one consumer drains inbound messages and renders
//! them. The queue is the sole hand-off point between the two directions.
//! This crate verifies the coordination logic: which lines become messages,
//! in what order they reach the transport, how backpressure and a dropped
//! receiver are handled, and how each direction terminates.

pub mod messages;
pub mod queue;
pub mod session;
pub mod text;

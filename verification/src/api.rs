//! What the engine computes around the exchange: the shapes of its
//! messages, the signature of a request, and the mapping between the
//! exchange's answers and the engine's own data.

pub mod client;
pub mod types;
pub mod websocket;

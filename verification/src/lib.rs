//! Session manager for a real-time market-data stream of a derivatives
//! exchange: endpoint resolution, the bounded-retry connector, the
//! subscription builder, the frame classifier and the session state machine.

pub mod classifier;
pub mod json;
pub mod models;
pub mod connector;
pub mod resolver;
pub mod subscription;
pub mod transport;
pub mod session;

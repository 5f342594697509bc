//! Packet encoding, decoding and client-side protocol decisions for an
//! MQTT 3.1.1 client.
pub mod package;
pub mod connect;
pub mod ping;
pub mod pubsub;
pub mod utils;
pub mod text;
pub mod client;
pub mod input;
pub mod report;
pub mod or_output;

//! Verified core of the TerraLink bridge: the wire codec, the handshake
//! classifier, the session registry and the relay's decision steps.

pub mod client;
pub mod opt;
pub mod proto;
pub mod server;

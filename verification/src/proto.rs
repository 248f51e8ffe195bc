//! The wire codec: primitive fields and the packet catalog.

pub mod catalog;
pub mod cursor;
pub mod error;
pub mod packet;
pub mod primitive;
pub mod text;
pub mod wire;

pub use catalog::{AdvanceState, Connect, Disconnect, ProtocolPacket};
pub use cursor::ByteCursor;
pub use error::ProtocolError;
pub use packet::Packet;

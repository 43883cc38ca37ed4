//! A minimal TFTP engine: the wire codec for the five packet kinds and the
//! per-client read and write transfer state machines.
pub mod packet;
pub mod transfer;
pub mod server;

pub use packet::{
    AckPacket, DataPacket, ErrorCode, ErrorPacket, PacketType, ParsingError, ReadRequestPacket,
    WriteRequestPacket,
};
pub use server::TFTPServer;

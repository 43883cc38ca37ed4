//! The listening side: what to do with the first datagram of an exchange,
//! and the Error datagrams sent outside any transfer.
use vstd::prelude::*;

use crate::packet::{
    decode, encode, lemma_unknown_opcode, no_nul, ErrorCode, ErrorPacket, PacketModel,
    PacketType, ParsingError, ReadRequestPacket, WriteRequestPacket,
};

verus! {

/// A server that serves the files under `root_directory`.
#[derive(Debug, Clone, PartialEq, Eq)]
pub struct TFTPServer {
    pub root_directory: String,
}

/// What becomes of the first datagram of an exchange.
#[derive(Debug, Clone, PartialEq, Eq)]
pub enum Dispatch {
    /// Start a read transfer for this request.
    Read(ReadRequestPacket),
    /// Start a write transfer for this request.
    Write(WriteRequestPacket),
    /// Start nothing; answer with an Error packet of this code.
    Reject(ErrorCode),
}

/// The code with which a first datagram that starts no transfer is refused:
/// `NotDefined` when it does not decode, `IllegalTFTPOperation` when it
/// decodes to a packet that is no request.
pub open spec fn reject_code(d: Result<PacketModel, ParsingError>) -> ErrorCode {
    match d {
        Err(_) => ErrorCode::NotDefined,
        Ok(_) => ErrorCode::IllegalTFTPOperation,
    }
}

pub open spec fn is_request(d: Result<PacketModel, ParsingError>) -> bool {
    d matches Ok(PacketModel::ReadRequest { .. }) || d matches Ok(PacketModel::WriteRequest { .. })
}

impl TFTPServer {
    pub fn new(path: String) -> (r: TFTPServer)
        ensures
            r.root_directory@ == path@,
    {
        TFTPServer { root_directory: path }
    }

    /// Decodes the first datagram of an exchange and decides what it starts:
    /// a read or write request starts a transfer, anything else is refused.
    pub fn dispatch(input: &[u8]) -> (r: Dispatch)
        ensures
            match r {
                Dispatch::Read(p) => decode(input@) == Ok::<PacketModel, ParsingError>(p@),
                Dispatch::Write(p) => decode(input@) == Ok::<PacketModel, ParsingError>(p@),
                Dispatch::Reject(code) => !is_request(decode(input@)) && code == reject_code(
                    decode(input@),
                ),
            },
    {
        match PacketType::try_from(input) {
            Ok(PacketType::ReadRequest(p)) => Dispatch::Read(p),
            Ok(PacketType::WriteRequest(p)) => Dispatch::Write(p),
            Ok(_) => Dispatch::Reject(ErrorCode::IllegalTFTPOperation),
            Err(_) => Dispatch::Reject(ErrorCode::NotDefined),
        }
    }
}

/// The Error datagram with code `code` and message `msg`; a message that holds
/// a NUL byte cannot be carried.
pub fn error_datagram(code: ErrorCode, msg: &[u8]) -> (r: Result<Vec<u8>, ParsingError>)
    ensures
        no_nul(msg@) ==> (r matches Ok(b) && b@ == encode(
            PacketModel::Error { code, message: msg@ },
        )),
        !no_nul(msg@) ==> r == Err::<Vec<u8>, ParsingError>(ParsingError::InvalidErrorMessage),
{
    match ErrorPacket::new(code, msg) {
        Ok(p) => Ok(p.serialize()),
        Err(e) => Err(e),
    }
}

/// A first datagram whose operation code is outside 1 to 5 starts no
/// transfer: it is refused as undecodable.
pub proof fn lemma_unknown_opcode_starts_nothing(b: Seq<u8>)
    requires
        b.len() >= 2,
        b[0] == 0,
        b[1] == 0 || b[1] > 5,
    ensures
        !is_request(decode(b)),
        reject_code(decode(b)) == ErrorCode::NotDefined,
        decode(b) == Err::<PacketModel, ParsingError>(ParsingError::InvalidOpcode),
{
    lemma_unknown_opcode(b);
}

} // verus!

//! Wire format of TFTP packets: decoding from bytes and encoding to bytes.
use vstd::prelude::*;

verus! {

/// Size of the receive buffer; no valid packet encodes to more bytes.
pub const BUFFER_SIZE: usize = 4096;

/// Largest payload of a Data packet. A shorter payload ends a transfer.
pub const BLOCK_SIZE: usize = 512;

/// Why a datagram could not be decoded, or a transfer step failed.
#[derive(Debug, Clone, Copy, PartialEq, Eq, Structural)]
pub enum ParsingError {
    NotEnoughData,
    InvalidOpcode,
    InvalidErrorMessage,
    SocketError,
    InvalidFilename,
    InvalidMode,
    FileReadError,
}

/// The two-byte operation code that starts every packet.
#[derive(Debug, Clone, Copy, PartialEq, Eq, Structural)]
pub enum OpCode {
    ReadRequest,
    WriteRequest,
    Data,
    Acknowledgment,
    TFTPError,
}

/// The error codes that an Error packet carries.
#[derive(Debug, Clone, Copy, PartialEq, Eq, Structural)]
pub enum ErrorCode {
    NotDefined,
    FileNotFound,
    AccessViolation,
    DiskFull,
    IllegalTFTPOperation,
    UnknownTransferID,
    FileAlreadyExists,
    NoSuchUser,
}

/// The 16-bit value of the big-endian byte pair `hi`, `lo`.
pub open spec fn be16(hi: u8, lo: u8) -> u16 {
    (hi as int * 256 + lo as int) as u16
}

/// The big-endian byte pair of `x`.
pub open spec fn be_bytes(x: u16) -> Seq<u8> {
    seq![(x / 256) as u8, (x % 256) as u8]
}

pub proof fn lemma_be16_of_bytes(x: u16)
    ensures
        be16(be_bytes(x)[0], be_bytes(x)[1]) == x,
{
}

impl OpCode {
    pub open spec fn value(self) -> u16 {
        match self {
            OpCode::ReadRequest => 1,
            OpCode::WriteRequest => 2,
            OpCode::Data => 3,
            OpCode::Acknowledgment => 4,
            OpCode::TFTPError => 5,
        }
    }

    /// The operation code whose value is `v`, if there is one.
    pub open spec fn of_value(v: u16) -> Option<OpCode> {
        if v == 1 {
            Some(OpCode::ReadRequest)
        } else if v == 2 {
            Some(OpCode::WriteRequest)
        } else if v == 3 {
            Some(OpCode::Data)
        } else if v == 4 {
            Some(OpCode::Acknowledgment)
        } else if v == 5 {
            Some(OpCode::TFTPError)
        } else {
            None
        }
    }

    pub fn to_u16(self) -> (r: u16)
        ensures
            r == self.value(),
    {
        match self {
            OpCode::ReadRequest => 1,
            OpCode::WriteRequest => 2,
            OpCode::Data => 3,
            OpCode::Acknowledgment => 4,
            OpCode::TFTPError => 5,
        }
    }

    /// Reads an operation code from exactly two big-endian bytes.
    pub fn try_from(input: &[u8]) -> (r: Result<OpCode, ParsingError>)
        ensures
            input@.len() != 2 ==> r == Err::<OpCode, ParsingError>(ParsingError::NotEnoughData),
            input@.len() == 2 ==> r == match OpCode::of_value(be16(input@[0], input@[1])) {
                Some(op) => Ok::<OpCode, ParsingError>(op),
                None => Err(ParsingError::InvalidOpcode),
            },
    {
        if input.len() != 2 {
            return Err(ParsingError::NotEnoughData);
        }
        let op = read_be16(input[0], input[1]);
        match op {
            1 => Ok(OpCode::ReadRequest),
            2 => Ok(OpCode::WriteRequest),
            3 => Ok(OpCode::Data),
            4 => Ok(OpCode::Acknowledgment),
            5 => Ok(OpCode::TFTPError),
            _ => Err(ParsingError::InvalidOpcode),
        }
    }
}

impl ErrorCode {
    pub open spec fn value(self) -> u16 {
        match self {
            ErrorCode::NotDefined => 0,
            ErrorCode::FileNotFound => 1,
            ErrorCode::AccessViolation => 2,
            ErrorCode::DiskFull => 3,
            ErrorCode::IllegalTFTPOperation => 4,
            ErrorCode::UnknownTransferID => 5,
            ErrorCode::FileAlreadyExists => 6,
            ErrorCode::NoSuchUser => 7,
        }
    }

    /// The error code whose value is `v`; an unknown value reads as `NotDefined`.
    pub open spec fn of_value(v: u16) -> ErrorCode {
        if v == 1 {
            ErrorCode::FileNotFound
        } else if v == 2 {
            ErrorCode::AccessViolation
        } else if v == 3 {
            ErrorCode::DiskFull
        } else if v == 4 {
            ErrorCode::IllegalTFTPOperation
        } else if v == 5 {
            ErrorCode::UnknownTransferID
        } else if v == 6 {
            ErrorCode::FileAlreadyExists
        } else if v == 7 {
            ErrorCode::NoSuchUser
        } else {
            ErrorCode::NotDefined
        }
    }

    pub fn to_u16(self) -> (r: u16)
        ensures
            r == self.value(),
    {
        match self {
            ErrorCode::NotDefined => 0,
            ErrorCode::FileNotFound => 1,
            ErrorCode::AccessViolation => 2,
            ErrorCode::DiskFull => 3,
            ErrorCode::IllegalTFTPOperation => 4,
            ErrorCode::UnknownTransferID => 5,
            ErrorCode::FileAlreadyExists => 6,
            ErrorCode::NoSuchUser => 7,
        }
    }

    /// Reads an error code from exactly two big-endian bytes; an unknown value
    /// reads as `NotDefined`.
    pub fn try_from(input: &[u8]) -> (r: Result<ErrorCode, ParsingError>)
        ensures
            input@.len() != 2 ==> r == Err::<ErrorCode, ParsingError>(ParsingError::NotEnoughData),
            input@.len() == 2 ==> r == Ok::<ErrorCode, ParsingError>(
                ErrorCode::of_value(be16(input@[0], input@[1])),
            ),
    {
        if input.len() != 2 {
            return Err(ParsingError::NotEnoughData);
        }
        let op = read_be16(input[0], input[1]);
        match op {
            1 => Ok(ErrorCode::FileNotFound),
            2 => Ok(ErrorCode::AccessViolation),
            3 => Ok(ErrorCode::DiskFull),
            4 => Ok(ErrorCode::IllegalTFTPOperation),
            5 => Ok(ErrorCode::UnknownTransferID),
            6 => Ok(ErrorCode::FileAlreadyExists),
            7 => Ok(ErrorCode::NoSuchUser),
            _ => Ok(ErrorCode::NotDefined),
        }
    }
}

pub proof fn lemma_error_code_of_value(c: ErrorCode)
    ensures
        ErrorCode::of_value(c.value()) == c,
{
}

fn read_be16(hi: u8, lo: u8) -> (r: u16)
    ensures
        r == be16(hi, lo),
{
    (hi as u16) * 256 + (lo as u16)
}

fn push_be16(out: &mut Vec<u8>, x: u16)
    ensures
        final(out)@ == old(out)@ + be_bytes(x),
{
    out.push((x / 256) as u8);
    out.push((x % 256) as u8);
    assert(final(out)@ =~= old(out)@ + be_bytes(x));
}


/// `s` holds no NUL byte.
pub open spec fn no_nul(s: Seq<u8>) -> bool {
    forall|i: int| 0 <= i < s.len() ==> s[i] != 0
}

/// `i` ends the leading NUL-free run of `s`: at a NUL byte, or at the end.
pub open spec fn is_run_end(s: Seq<u8>, i: int) -> bool {
    &&& 0 <= i <= s.len()
    &&& no_nul(s.take(i))
    &&& (i == s.len() || s[i] == 0)
}

/// Length of the leading NUL-free run of `s`: the index of its first NUL
/// byte, or its length when it holds none.
pub open spec fn run_len(s: Seq<u8>) -> int {
    choose|i: int| is_run_end(s, i)
}

pub proof fn lemma_run_len(s: Seq<u8>, i: int)
    requires
        is_run_end(s, i),
    ensures
        run_len(s) == i,
{
    let j = run_len(s);
    assert(is_run_end(s, j));
    if j < i {
        assert(s.take(i)[j] == s[j]);
    } else if i < j {
        assert(s.take(j)[i] == s[i]);
    }
}

/// A text field on the wire: its bytes, then a NUL.
pub open spec fn text(s: Seq<u8>) -> Seq<u8> {
    s.push(0)
}

/// A packet as a mathematical value.
pub enum PacketModel {
    ReadRequest { filename: Seq<u8>, mode: Seq<u8> },
    WriteRequest { filename: Seq<u8>, mode: Seq<u8> },
    Data { block: u16, payload: Seq<u8> },
    Ack { block: u16 },
    Error { code: ErrorCode, message: Seq<u8> },
}

impl PacketModel {
    /// Structurally valid: text fields hold no NUL, a payload fits one block,
    /// and the encoding fits the receive buffer.
    pub open spec fn wf(self) -> bool {
        &&& match self {
            PacketModel::ReadRequest { filename, mode } => no_nul(filename) && no_nul(mode),
            PacketModel::WriteRequest { filename, mode } => no_nul(filename) && no_nul(mode),
            PacketModel::Data { block, payload } => payload.len() <= BLOCK_SIZE,
            PacketModel::Ack { block } => true,
            PacketModel::Error { code, message } => no_nul(message),
        }
        &&& encode(self).len() <= BUFFER_SIZE
    }
}

/// The bytes that carry packet `p`.
pub open spec fn encode(p: PacketModel) -> Seq<u8> {
    match p {
        PacketModel::ReadRequest { filename, mode } => be_bytes(1) + text(filename) + text(mode),
        PacketModel::WriteRequest { filename, mode } => be_bytes(2) + text(filename) + text(mode),
        PacketModel::Data { block, payload } => be_bytes(3) + be_bytes(block) + payload,
        PacketModel::Ack { block } => be_bytes(4) + be_bytes(block),
        PacketModel::Error { code, message } => be_bytes(5) + be_bytes(code.value()) + text(
            message,
        ),
    }
}

/// Filename and mode of a request body: the text up to the first NUL, then
/// the text after it up to the next NUL or the end.
pub open spec fn parse_request_fields(body: Seq<u8>) -> Result<(Seq<u8>, Seq<u8>), ParsingError> {
    let f = run_len(body);
    if f == body.len() {
        Err(ParsingError::NotEnoughData)
    } else {
        let rest = body.subrange(f + 1, body.len() as int);
        Ok((body.take(f), rest.take(run_len(rest))))
    }
}

/// The packet of kind `op` whose bytes after the operation code are `body`.
pub open spec fn parse_body(op: OpCode, body: Seq<u8>) -> Result<PacketModel, ParsingError> {
    match op {
        OpCode::ReadRequest => match parse_request_fields(body) {
            Ok((filename, mode)) => Ok(PacketModel::ReadRequest { filename, mode }),
            Err(e) => Err(e),
        },
        OpCode::WriteRequest => match parse_request_fields(body) {
            Ok((filename, mode)) => Ok(PacketModel::WriteRequest { filename, mode }),
            Err(e) => Err(e),
        },
        OpCode::Data => if body.len() < 2 {
            Err(ParsingError::NotEnoughData)
        } else {
            let end = if body.len() > 2 + BLOCK_SIZE { 2 + BLOCK_SIZE } else { body.len() as int };
            Ok(PacketModel::Data { block: be16(body[0], body[1]), payload: body.subrange(2, end) })
        },
        OpCode::Acknowledgment => if body.len() != 2 {
            Err(ParsingError::NotEnoughData)
        } else {
            Ok(PacketModel::Ack { block: be16(body[0], body[1]) })
        },
        OpCode::TFTPError => if body.len() < 2 {
            Err(ParsingError::NotEnoughData)
        } else {
            let rest = body.subrange(2, body.len() as int);
            if run_len(rest) == rest.len() {
                Err(ParsingError::NotEnoughData)
            } else {
                Ok(
                    PacketModel::Error {
                        code: ErrorCode::of_value(be16(body[0], body[1])),
                        message: rest.take(run_len(rest)),
                    },
                )
            }
        },
    }
}

/// The packet that the bytes `b` carry, or why they carry none.
pub open spec fn decode(b: Seq<u8>) -> Result<PacketModel, ParsingError> {
    if b.len() < 2 {
        Err(ParsingError::NotEnoughData)
    } else {
        match OpCode::of_value(be16(b[0], b[1])) {
            None => Err(ParsingError::InvalidOpcode),
            Some(op) => parse_body(op, b.subrange(2, b.len() as int)),
        }
    }
}

/// A decoding result with the packet replaced by its model.
pub open spec fn viewed<T: View<V = PacketModel>>(r: Result<T, ParsingError>) -> Result<
    PacketModel,
    ParsingError,
> {
    match r {
        Ok(p) => Ok(p@),
        Err(e) => Err(e),
    }
}

/// Length of the leading NUL-free run of `s`.
fn text_len(s: &[u8]) -> (r: usize)
    ensures
        r == run_len(s@),
        is_run_end(s@, r as int),
{
    let mut i: usize = 0;
    while i < s.len() && s[i] != 0
        invariant
            0 <= i <= s@.len(),
            no_nul(s@.take(i as int)),
        decreases s@.len() - i,
    {
        assert(s@.take(i + 1) =~= s@.take(i as int).push(s@[i as int]));
        i = i + 1;
    }
    proof {
        lemma_run_len(s@, i as int);
    }
    i
}

/// A copy of `s[lo..hi]`.
fn copy_range(s: &[u8], lo: usize, hi: usize) -> (r: Vec<u8>)
    requires
        lo <= hi <= s@.len(),
    ensures
        r@ == s@.subrange(lo as int, hi as int),
{
    vstd::slice::slice_to_vec(vstd::slice::slice_subrange(s, lo, hi))
}

/// Appends `s` and then a NUL byte to `out`.
fn push_text(out: &mut Vec<u8>, s: &Vec<u8>)
    ensures
        final(out)@ == old(out)@ + text(s@),
{
    push_bytes(out, s);
    out.push(0);
    assert(final(out)@ =~= old(out)@ + text(s@));
}

/// Appends `s` to `out`.
fn push_bytes(out: &mut Vec<u8>, s: &Vec<u8>)
    ensures
        final(out)@ == old(out)@ + s@,
{
    let ghost start = out@;
    let mut i: usize = 0;
    while i < s.len()
        invariant
            i <= s@.len(),
            out@ == start + s@.take(i as int),
        decreases s@.len() - i,
    {
        out.push(s[i]);
        assert(s@.take(i + 1) =~= s@.take(i as int).push(s@[i as int]));
        i = i + 1;
    }
    assert(s@.take(i as int) =~= s@);
}


/// A request to read the file `filename`, in transfer mode `mode`.
#[derive(Debug, Clone, PartialEq, Eq)]
pub struct ReadRequestPacket {
    pub filename: Vec<u8>,
    pub mode: Vec<u8>,
}

/// A request to write the file `filename`, in transfer mode `mode`.
#[derive(Debug, Clone, PartialEq, Eq)]
pub struct WriteRequestPacket {
    pub filename: Vec<u8>,
    pub mode: Vec<u8>,
}

/// One block of a transfer: at most `BLOCK_SIZE` bytes of `data`.
#[derive(Debug, Clone, PartialEq, Eq)]
pub struct DataPacket {
    pub block_number: u16,
    pub data: Vec<u8>,
}

/// Acknowledges the Data packet numbered `block_number`.
#[derive(Debug, Clone, Copy, PartialEq, Eq)]
pub struct AckPacket {
    pub block_number: u16,
}

/// Reports a failure to the peer.
#[derive(Debug, Clone, PartialEq, Eq)]
pub struct ErrorPacket {
    pub error_code: ErrorCode,
    pub error_msg: Vec<u8>,
}

/// Any packet.
#[derive(Debug, Clone, PartialEq, Eq)]
pub enum PacketType {
    ReadRequest(ReadRequestPacket),
    WriteRequest(WriteRequestPacket),
    Data(DataPacket),
    Acknowledgment(AckPacket),
    TFTPError(ErrorPacket),
}

impl View for ReadRequestPacket {
    type V = PacketModel;

    open spec fn view(&self) -> PacketModel {
        PacketModel::ReadRequest { filename: self.filename@, mode: self.mode@ }
    }
}

impl View for WriteRequestPacket {
    type V = PacketModel;

    open spec fn view(&self) -> PacketModel {
        PacketModel::WriteRequest { filename: self.filename@, mode: self.mode@ }
    }
}

impl View for DataPacket {
    type V = PacketModel;

    open spec fn view(&self) -> PacketModel {
        PacketModel::Data { block: self.block_number, payload: self.data@ }
    }
}

impl View for AckPacket {
    type V = PacketModel;

    open spec fn view(&self) -> PacketModel {
        PacketModel::Ack { block: self.block_number }
    }
}

impl View for ErrorPacket {
    type V = PacketModel;

    open spec fn view(&self) -> PacketModel {
        PacketModel::Error { code: self.error_code, message: self.error_msg@ }
    }
}

impl View for PacketType {
    type V = PacketModel;

    open spec fn view(&self) -> PacketModel {
        match self {
            PacketType::ReadRequest(p) => p@,
            PacketType::WriteRequest(p) => p@,
            PacketType::Data(p) => p@,
            PacketType::Acknowledgment(p) => p@,
            PacketType::TFTPError(p) => p@,
        }
    }
}

/// Splits a request body into filename and mode.
fn request_fields(input: &[u8]) -> (r: Result<(Vec<u8>, Vec<u8>), ParsingError>)
    ensures
        match (r, parse_request_fields(input@)) {
            (Ok((f, m)), Ok((sf, sm))) => f@ == sf && m@ == sm,
            (Err(e), Err(se)) => e == se,
            _ => false,
        },
{
    let end_filename = text_len(input);
    if end_filename == input.len() {
        return Err(ParsingError::NotEnoughData);
    }
    let rest = vstd::slice::slice_subrange(input, end_filename + 1, input.len());
    let end_mode = text_len(rest);
    let filename = copy_range(input, 0, end_filename);
    let mode = copy_range(rest, 0, end_mode);
    assert(filename@ =~= input@.take(end_filename as int));
    assert(mode@ =~= rest@.take(end_mode as int));
    Ok((filename, mode))
}

impl ReadRequestPacket {
    /// Decodes the body of a read request, the bytes after its operation code.
    pub fn try_from(input: &[u8]) -> (r: Result<ReadRequestPacket, ParsingError>)
        ensures
            viewed(r) == parse_body(OpCode::ReadRequest, input@),
    {
        match request_fields(input) {
            Ok((filename, mode)) => Ok(ReadRequestPacket { filename, mode }),
            Err(e) => Err(e),
        }
    }

    pub fn serialize(&self) -> (r: Vec<u8>)
        ensures
            r@ == encode(self@),
    {
        let mut out: Vec<u8> = Vec::new();
        push_be16(&mut out, OpCode::ReadRequest.to_u16());
        push_text(&mut out, &self.filename);
        push_text(&mut out, &self.mode);
        out
    }
}

impl WriteRequestPacket {
    /// Decodes the body of a write request, the bytes after its operation code.
    pub fn try_from(input: &[u8]) -> (r: Result<WriteRequestPacket, ParsingError>)
        ensures
            viewed(r) == parse_body(OpCode::WriteRequest, input@),
    {
        match request_fields(input) {
            Ok((filename, mode)) => Ok(WriteRequestPacket { filename, mode }),
            Err(e) => Err(e),
        }
    }

    pub fn serialize(&self) -> (r: Vec<u8>)
        ensures
            r@ == encode(self@),
    {
        let mut out: Vec<u8> = Vec::new();
        push_be16(&mut out, OpCode::WriteRequest.to_u16());
        push_text(&mut out, &self.filename);
        push_text(&mut out, &self.mode);
        out
    }
}

impl DataPacket {
    /// Decodes the body of a Data packet: a block number, then a payload of
    /// at most `BLOCK_SIZE` bytes; bytes beyond that are dropped.
    pub fn try_from(input: &[u8]) -> (r: Result<DataPacket, ParsingError>)
        ensures
            viewed(r) == parse_body(OpCode::Data, input@),
    {
        if input.len() < 2 {
            return Err(ParsingError::NotEnoughData);
        }
        let block_number = read_be16(input[0], input[1]);
        let end = if input.len() > 2 + BLOCK_SIZE {
            2 + BLOCK_SIZE
        } else {
            input.len()
        };
        let data = copy_range(input, 2, end);
        Ok(DataPacket { block_number, data })
    }

    pub fn serialize(&self) -> (r: Vec<u8>)
        ensures
            r@ == encode(self@),
    {
        let mut out: Vec<u8> = Vec::new();
        push_be16(&mut out, OpCode::Data.to_u16());
        push_be16(&mut out, self.block_number);
        push_bytes(&mut out, &self.data);
        out
    }
}

impl AckPacket {
    /// Decodes the body of an Ack packet: exactly a block number.
    pub fn try_from(input: &[u8]) -> (r: Result<AckPacket, ParsingError>)
        ensures
            viewed(r) == parse_body(OpCode::Acknowledgment, input@),
    {
        if input.len() != 2 {
            return Err(ParsingError::NotEnoughData);
        }
        Ok(AckPacket { block_number: read_be16(input[0], input[1]) })
    }

    pub fn serialize(&self) -> (r: Vec<u8>)
        ensures
            r@ == encode(self@),
    {
        let mut out: Vec<u8> = Vec::new();
        push_be16(&mut out, OpCode::Acknowledgment.to_u16());
        push_be16(&mut out, self.block_number);
        out
    }
}

impl ErrorPacket {
    /// An Error packet with code `error_code` and message `msg`; a message
    /// that holds a NUL byte cannot be carried.
    pub fn new(error_code: ErrorCode, msg: &[u8]) -> (r: Result<ErrorPacket, ParsingError>)
        ensures
            no_nul(msg@) ==> (r matches Ok(p) && p@ == (PacketModel::Error {
                code: error_code,
                message: msg@,
            })),
            !no_nul(msg@) ==> r == Err::<ErrorPacket, ParsingError>(
                ParsingError::InvalidErrorMessage,
            ),
    {
        if text_len(msg) != msg.len() {
            assert(!no_nul(msg@));
            return Err(ParsingError::InvalidErrorMessage);
        }
        assert(msg@.take(msg@.len() as int) =~= msg@);
        Ok(ErrorPacket { error_code, error_msg: vstd::slice::slice_to_vec(msg) })
    }

    /// Decodes the body of an Error packet: an error code, then a message
    /// that a NUL byte ends.
    pub fn try_from(input: &[u8]) -> (r: Result<ErrorPacket, ParsingError>)
        ensures
            viewed(r) == parse_body(OpCode::TFTPError, input@),
    {
        if input.len() < 2 {
            return Err(ParsingError::NotEnoughData);
        }
        let error_code = match ErrorCode::try_from(vstd::slice::slice_subrange(input, 0, 2)) {
            Ok(c) => c,
            Err(e) => return Err(e),
        };
        let rest = vstd::slice::slice_subrange(input, 2, input.len());
        let end = text_len(rest);
        if end == rest.len() {
            return Err(ParsingError::NotEnoughData);
        }
        let error_msg = copy_range(rest, 0, end);
        assert(error_msg@ =~= rest@.take(end as int));
        Ok(ErrorPacket { error_code, error_msg })
    }

    pub fn serialize(&self) -> (r: Vec<u8>)
        ensures
            r@ == encode(self@),
    {
        let mut out: Vec<u8> = Vec::new();
        push_be16(&mut out, OpCode::TFTPError.to_u16());
        push_be16(&mut out, self.error_code.to_u16());
        push_text(&mut out, &self.error_msg);
        out
    }
}

impl PacketType {
    /// Decodes a whole datagram.
    pub fn try_from(input: &[u8]) -> (r: Result<PacketType, ParsingError>)
        ensures
            viewed(r) == decode(input@),
    {
        if input.len() < 2 {
            return Err(ParsingError::NotEnoughData);
        }
        let opcode = match OpCode::try_from(vstd::slice::slice_subrange(input, 0, 2)) {
            Ok(op) => op,
            Err(e) => return Err(e),
        };
        let body = vstd::slice::slice_subrange(input, 2, input.len());
        match opcode {
            OpCode::ReadRequest => match ReadRequestPacket::try_from(body) {
                Ok(p) => Ok(PacketType::ReadRequest(p)),
                Err(e) => Err(e),
            },
            OpCode::WriteRequest => match WriteRequestPacket::try_from(body) {
                Ok(p) => Ok(PacketType::WriteRequest(p)),
                Err(e) => Err(e),
            },
            OpCode::Data => match DataPacket::try_from(body) {
                Ok(p) => Ok(PacketType::Data(p)),
                Err(e) => Err(e),
            },
            OpCode::Acknowledgment => match AckPacket::try_from(body) {
                Ok(p) => Ok(PacketType::Acknowledgment(p)),
                Err(e) => Err(e),
            },
            OpCode::TFTPError => match ErrorPacket::try_from(body) {
                Ok(p) => Ok(PacketType::TFTPError(p)),
                Err(e) => Err(e),
            },
        }
    }

    pub fn serialize(&self) -> (r: Vec<u8>)
        ensures
            r@ == encode(self@),
    {
        match self {
            PacketType::ReadRequest(p) => p.serialize(),
            PacketType::WriteRequest(p) => p.serialize(),
            PacketType::Data(p) => p.serialize(),
            PacketType::Acknowledgment(p) => p.serialize(),
            PacketType::TFTPError(p) => p.serialize(),
        }
    }
}


proof fn lemma_text_run(f: Seq<u8>, tail: Seq<u8>)
    requires
        no_nul(f),
    ensures
        run_len(text(f) + tail) == f.len(),
        (text(f) + tail).take(f.len() as int) == f,
        (text(f) + tail).subrange(f.len() as int + 1, (text(f) + tail).len() as int) == tail,
{
    let s = text(f) + tail;
    assert(s.take(f.len() as int) =~= f);
    assert(s[f.len() as int] == 0);
    lemma_run_len(s, f.len() as int);
    assert(s.subrange(f.len() as int + 1, s.len() as int) =~= tail);
}

/// Decoding the encoding of a structurally valid packet gives that packet back.
pub proof fn lemma_round_trip(p: PacketModel)
    requires
        p.wf(),
    ensures
        decode(encode(p)) == Ok::<PacketModel, ParsingError>(p),
{
    let b = encode(p);
    match p {
        PacketModel::ReadRequest { filename, mode } => {
            lemma_be16_of_bytes(1);
            let body = b.subrange(2, b.len() as int);
            assert(body =~= text(filename) + text(mode));
            lemma_text_run(filename, text(mode));
            assert(text(mode) =~= text(mode) + Seq::<u8>::empty());
            lemma_text_run(mode, Seq::<u8>::empty());
        },
        PacketModel::WriteRequest { filename, mode } => {
            lemma_be16_of_bytes(2);
            let body = b.subrange(2, b.len() as int);
            assert(body =~= text(filename) + text(mode));
            lemma_text_run(filename, text(mode));
            assert(text(mode) =~= text(mode) + Seq::<u8>::empty());
            lemma_text_run(mode, Seq::<u8>::empty());
        },
        PacketModel::Data { block, payload } => {
            lemma_be16_of_bytes(3);
            lemma_be16_of_bytes(block);
            let body = b.subrange(2, b.len() as int);
            assert(body =~= be_bytes(block) + payload);
            assert(body.subrange(2, body.len() as int) =~= payload);
        },
        PacketModel::Ack { block } => {
            lemma_be16_of_bytes(4);
            lemma_be16_of_bytes(block);
            let body = b.subrange(2, b.len() as int);
            assert(body =~= be_bytes(block));
        },
        PacketModel::Error { code, message } => {
            lemma_be16_of_bytes(5);
            lemma_be16_of_bytes(code.value());
            lemma_error_code_of_value(code);
            let body = b.subrange(2, b.len() as int);
            assert(body =~= be_bytes(code.value()) + text(message));
            let rest = body.subrange(2, body.len() as int);
            assert(rest =~= text(message) + Seq::<u8>::empty());
            lemma_text_run(message, Seq::<u8>::empty());
        },
    }
}

/// Bytes that start with an operation code outside 1 to 5 never decode.
pub proof fn lemma_unknown_opcode(b: Seq<u8>)
    requires
        b.len() >= 2,
        be16(b[0], b[1]) == 0 || be16(b[0], b[1]) > 5,
    ensures
        decode(b) == Err::<PacketModel, ParsingError>(ParsingError::InvalidOpcode),
{
}

} // verus!

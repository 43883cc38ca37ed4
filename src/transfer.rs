//! Per-client read and write transfers as state machines. The caller performs
//! each returned action (opening, reading or writing storage, sending a
//! datagram) and feeds back what happened as the next event.
use vstd::prelude::*;

use crate::packet::{
    decode, encode, lemma_round_trip, ParsingError, AckPacket, DataPacket, ErrorCode, ErrorPacket, PacketModel, PacketType,
    ReadRequestPacket, WriteRequestPacket, BLOCK_SIZE,
};

verus! {

/// How many times a datagram is sent again after the peer stayed silent.
pub const MAX_RETRIES: u32 = 5;

/// Where a transfer stands.
#[derive(Debug, Clone, Copy, PartialEq, Eq, Structural)]
pub enum TransferState {
    /// Waiting for the byte source or destination to be opened.
    Start,
    /// Read transfer: waiting for the next chunk of the source.
    NeedChunk,
    /// Waiting for a datagram from the peer.
    WaitPeer,
    /// Write transfer: waiting for the received chunk to be written.
    Writing,
    Complete,
    Aborted,
}

/// What went wrong with the byte source or destination.
#[derive(Debug, Clone, Copy, PartialEq, Eq, Structural)]
pub enum StorageFault {
    NotFound,
    PermissionDenied,
    StorageFull,
    Other,
}

/// What happened since the last action.
#[derive(Debug, Clone, PartialEq, Eq)]
pub enum Event {
    /// The byte source or destination was opened.
    Opened,
    OpenFailed(StorageFault),
    /// The next chunk of the source, at most `BLOCK_SIZE` bytes; a shorter
    /// one is the last.
    Chunk(Vec<u8>),
    /// The chunk handed out by the last `Write` action was written.
    Written,
    StorageFailed(StorageFault),
    /// A datagram from the peer.
    Received(Vec<u8>),
    /// The peer sent nothing within the retransmission timeout.
    Timeout,
}

/// What the caller does next.
#[derive(Debug, Clone, PartialEq, Eq)]
pub enum Action {
    /// Open the byte source or destination.
    Open,
    /// Read the next chunk of at most `BLOCK_SIZE` bytes from the source.
    ReadChunk,
    /// Write these bytes to the destination.
    Write(Vec<u8>),
    /// Send this datagram to the peer; then, unless the transfer has ended,
    /// wait for its reply.
    Send(Vec<u8>),
    /// Do nothing more.
    Stop,
}

pub enum EventModel {
    Opened,
    OpenFailed(StorageFault),
    Chunk(Seq<u8>),
    Written,
    StorageFailed(StorageFault),
    Received(Seq<u8>),
    Timeout,
}

pub enum ActionModel {
    Open,
    ReadChunk,
    Write(Seq<u8>),
    Send(Seq<u8>),
    Stop,
}

impl View for Event {
    type V = EventModel;

    open spec fn view(&self) -> EventModel {
        match self {
            Event::Opened => EventModel::Opened,
            Event::OpenFailed(f) => EventModel::OpenFailed(*f),
            Event::Chunk(c) => EventModel::Chunk(c@),
            Event::Written => EventModel::Written,
            Event::StorageFailed(f) => EventModel::StorageFailed(*f),
            Event::Received(b) => EventModel::Received(b@),
            Event::Timeout => EventModel::Timeout,
        }
    }
}

impl View for Action {
    type V = ActionModel;

    open spec fn view(&self) -> ActionModel {
        match self {
            Action::Open => ActionModel::Open,
            Action::ReadChunk => ActionModel::ReadChunk,
            Action::Write(c) => ActionModel::Write(c@),
            Action::Send(b) => ActionModel::Send(b@),
            Action::Stop => ActionModel::Stop,
        }
    }
}

/// A transfer as a mathematical value: its state, its current block number,
/// the chunk of that block, and how often that block's datagram was resent.
pub struct TransferModel {
    pub state: TransferState,
    pub block: u16,
    pub chunk: Seq<u8>,
    pub retries: u32,
}

/// The block number after `b`; it wraps from 65535 to 0.
pub open spec fn next_block(b: u16) -> u16 {
    if b == 65535 {
        0
    } else {
        (b + 1) as u16
    }
}

/// The error code that reports a storage fault to the peer.
pub open spec fn fault_code(f: StorageFault) -> ErrorCode {
    match f {
        StorageFault::NotFound => ErrorCode::FileNotFound,
        StorageFault::PermissionDenied => ErrorCode::AccessViolation,
        StorageFault::StorageFull => ErrorCode::DiskFull,
        StorageFault::Other => ErrorCode::NotDefined,
    }
}

/// The Error datagram, with an empty message, that a transfer sends.
pub open spec fn error_bytes(code: ErrorCode) -> Seq<u8> {
    encode(PacketModel::Error { code, message: Seq::empty() })
}

pub open spec fn data_bytes(block: u16, chunk: Seq<u8>) -> Seq<u8> {
    encode(PacketModel::Data { block, payload: chunk })
}

pub open spec fn ack_bytes(block: u16) -> Seq<u8> {
    encode(PacketModel::Ack { block })
}

pub open spec fn with_state(t: TransferModel, state: TransferState) -> TransferModel {
    TransferModel { state, block: t.block, chunk: t.chunk, retries: t.retries }
}

pub open spec fn ended(t: TransferModel) -> bool {
    t.state == TransferState::Complete || t.state == TransferState::Aborted
}

/// Abort, telling the peer why.
pub open spec fn abort_with(t: TransferModel, code: ErrorCode) -> (TransferModel, ActionModel) {
    (with_state(t, TransferState::Aborted), ActionModel::Send(error_bytes(code)))
}

/// An event that the state does not expect: an ended transfer stays as it
/// is, any other is aborted without a word to the peer.
pub open spec fn unexpected(t: TransferModel) -> (TransferModel, ActionModel) {
    if ended(t) {
        (t, ActionModel::Stop)
    } else {
        (with_state(t, TransferState::Aborted), ActionModel::Stop)
    }
}

/// No reply in time: send `again` once more while retries are left.
pub open spec fn on_timeout(t: TransferModel, again: Seq<u8>) -> (TransferModel, ActionModel) {
    if t.retries < MAX_RETRIES {
        (
            TransferModel { state: t.state, block: t.block, chunk: t.chunk, retries: (t.retries + 1) as u32 },
            ActionModel::Send(again),
        )
    } else {
        (with_state(t, TransferState::Aborted), ActionModel::Stop)
    }
}

/// The mode `s` spelt in any case equals the lower-case word `word`.
pub open spec fn same_ignoring_case(s: Seq<u8>, word: Seq<u8>) -> bool {
    &&& s.len() == word.len()
    &&& forall|i: int| 0 <= i < s.len() ==> ascii_lower(#[trigger] s[i]) == word[i]
}

pub open spec fn ascii_lower(b: u8) -> u8 {
    if 65 <= b <= 90 {
        (b + 32) as u8
    } else {
        b
    }
}

/// "octet"
pub open spec fn octet_word() -> Seq<u8> {
    seq![111u8, 99u8, 116u8, 101u8, 116u8]
}

/// "binary"
pub open spec fn binary_word() -> Seq<u8> {
    seq![98u8, 105u8, 110u8, 97u8, 114u8, 121u8]
}

/// The transfer modes served: octet and binary, in any case.
pub open spec fn mode_ok(mode: Seq<u8>) -> bool {
    same_ignoring_case(mode, octet_word()) || same_ignoring_case(mode, binary_word())
}

/// A transfer that starts at `block`, for a request in `mode`.
pub open spec fn start(mode: Seq<u8>, block: u16) -> (TransferModel, ActionModel) {
    let t = TransferModel { state: TransferState::Start, block, chunk: Seq::empty(), retries: 0 };
    if mode_ok(mode) {
        (t, ActionModel::Open)
    } else {
        abort_with(t, ErrorCode::NotDefined)
    }
}

/// One step of a read transfer, where the server sends the source block by
/// block and waits for each block's Ack.
pub open spec fn read_step(t: TransferModel, e: EventModel) -> (TransferModel, ActionModel) {
    match (t.state, e) {
        (TransferState::Start, EventModel::Opened) => (
            with_state(t, TransferState::NeedChunk),
            ActionModel::ReadChunk,
        ),
        (TransferState::Start, EventModel::OpenFailed(f)) => abort_with(t, fault_code(f)),
        (TransferState::NeedChunk, EventModel::Chunk(c)) => (
            TransferModel { state: TransferState::WaitPeer, block: t.block, chunk: c, retries: 0 },
            ActionModel::Send(data_bytes(t.block, c)),
        ),
        (TransferState::NeedChunk, EventModel::StorageFailed(f)) => abort_with(t, fault_code(f)),
        (TransferState::WaitPeer, EventModel::Received(b)) => match decode(b) {
            Ok(PacketModel::Ack { block }) => if block != t.block {
                (t, ActionModel::Send(data_bytes(t.block, t.chunk)))
            } else if t.chunk.len() < BLOCK_SIZE {
                (with_state(t, TransferState::Complete), ActionModel::Stop)
            } else {
                (
                    TransferModel {
                        state: TransferState::NeedChunk,
                        block: next_block(t.block),
                        chunk: t.chunk,
                        retries: 0,
                    },
                    ActionModel::ReadChunk,
                )
            },
            _ => abort_with(t, ErrorCode::IllegalTFTPOperation),
        },
        (TransferState::WaitPeer, EventModel::Timeout) => on_timeout(t, data_bytes(t.block, t.chunk)),
        _ => unexpected(t),
    }
}

/// One step of a write transfer, where the server takes the blocks in
/// sequence, writes each once, and acknowledges it.
pub open spec fn write_step(t: TransferModel, e: EventModel) -> (TransferModel, ActionModel) {
    match (t.state, e) {
        (TransferState::Start, EventModel::Opened) => (
            with_state(t, TransferState::WaitPeer),
            ActionModel::Send(ack_bytes(t.block)),
        ),
        (TransferState::Start, EventModel::OpenFailed(f)) => abort_with(t, fault_code(f)),
        (TransferState::WaitPeer, EventModel::Received(b)) => match decode(b) {
            Ok(PacketModel::Data { block, payload }) => if block == next_block(t.block) {
                (
                    TransferModel { state: TransferState::Writing, block: t.block, chunk: payload, retries: 0 },
                    ActionModel::Write(payload),
                )
            } else {
                (t, ActionModel::Send(ack_bytes(t.block)))
            },
            _ => abort_with(t, ErrorCode::IllegalTFTPOperation),
        },
        (TransferState::WaitPeer, EventModel::Timeout) => on_timeout(t, ack_bytes(t.block)),
        (TransferState::Writing, EventModel::Written) => (
            TransferModel {
                state: if t.chunk.len() < BLOCK_SIZE {
                    TransferState::Complete
                } else {
                    TransferState::WaitPeer
                },
                block: next_block(t.block),
                chunk: t.chunk,
                retries: 0,
            },
            ActionModel::Send(ack_bytes(next_block(t.block))),
        ),
        (TransferState::Writing, EventModel::StorageFailed(f)) => abort_with(t, fault_code(f)),
        _ => unexpected(t),
    }
}


pub fn next_block_number(b: u16) -> (r: u16)
    ensures
        r == next_block(b),
{
    if b == 65535 {
        0
    } else {
        b + 1
    }
}

pub fn fault_error_code(f: StorageFault) -> (r: ErrorCode)
    ensures
        r == fault_code(f),
{
    match f {
        StorageFault::NotFound => ErrorCode::FileNotFound,
        StorageFault::PermissionDenied => ErrorCode::AccessViolation,
        StorageFault::StorageFull => ErrorCode::DiskFull,
        StorageFault::Other => ErrorCode::NotDefined,
    }
}

fn error_datagram(code: ErrorCode) -> (r: Vec<u8>)
    ensures
        r@ == error_bytes(code),
{
    let p = ErrorPacket { error_code: code, error_msg: Vec::new() };
    p.serialize()
}

fn data_datagram(block: u16, chunk: &Vec<u8>) -> (r: Vec<u8>)
    ensures
        r@ == data_bytes(block, chunk@),
{
    let p = DataPacket { block_number: block, data: chunk.clone() };
    p.serialize()
}

fn ack_datagram(block: u16) -> (r: Vec<u8>)
    ensures
        r@ == ack_bytes(block),
{
    AckPacket { block_number: block }.serialize()
}

fn same_ignoring_case_exec(s: &[u8], word: &[u8]) -> (r: bool)
    ensures
        r == same_ignoring_case(s@, word@),
{
    if s.len() != word.len() {
        return false;
    }
    let mut i: usize = 0;
    while i < s.len()
        invariant
            s@.len() == word@.len(),
            0 <= i <= s@.len(),
            forall|j: int| 0 <= j < i ==> ascii_lower(#[trigger] s@[j]) == word@[j],
        decreases s@.len() - i,
    {
        let c = s[i];
        let lower = if 65 <= c && c <= 90 {
            c + 32
        } else {
            c
        };
        if lower != word[i] {
            return false;
        }
        i = i + 1;
    }
    true
}

/// Whether a request's transfer mode is served: octet or binary, in any case.
pub fn mode_accepted(mode: &[u8]) -> (r: bool)
    ensures
        r == mode_ok(mode@),
{
    let octet: Vec<u8> = vec![111u8, 99u8, 116u8, 101u8, 116u8];
    let binary: Vec<u8> = vec![98u8, 105u8, 110u8, 97u8, 114u8, 121u8];
    assert(octet@ =~= octet_word());
    assert(binary@ =~= binary_word());
    same_ignoring_case_exec(mode, octet.as_slice()) || same_ignoring_case_exec(
        mode,
        binary.as_slice(),
    )
}

/// The server side of a read request.
#[derive(Debug, Clone, PartialEq, Eq)]
pub struct ReadTransfer {
    pub state: TransferState,
    /// The block being sent.
    pub block_number: u16,
    /// The payload of that block.
    pub chunk: Vec<u8>,
    /// How often that block was sent again after a timeout.
    pub retries: u32,
}

/// The server side of a write request.
#[derive(Debug, Clone, PartialEq, Eq)]
pub struct WriteTransfer {
    pub state: TransferState,
    /// The last block acknowledged.
    pub block_number: u16,
    /// The payload of the block being written.
    pub chunk: Vec<u8>,
    /// How often the last Ack was sent again after a timeout.
    pub retries: u32,
}

impl View for ReadTransfer {
    type V = TransferModel;

    open spec fn view(&self) -> TransferModel {
        TransferModel {
            state: self.state,
            block: self.block_number,
            chunk: self.chunk@,
            retries: self.retries,
        }
    }
}

impl View for WriteTransfer {
    type V = TransferModel;

    open spec fn view(&self) -> TransferModel {
        TransferModel {
            state: self.state,
            block: self.block_number,
            chunk: self.chunk@,
            retries: self.retries,
        }
    }
}

/// Whether a transfer in `state` has ended.
pub fn is_ended(state: TransferState) -> (r: bool)
    ensures
        r == (state == TransferState::Complete || state == TransferState::Aborted),
{
    match state {
        TransferState::Complete | TransferState::Aborted => true,
        _ => false,
    }
}

impl ReadTransfer {
    /// Starts serving `request` from block 1. An unserved mode aborts at once
    /// with an Error packet.
    pub fn new(request: &ReadRequestPacket) -> (r: (ReadTransfer, Action))
        ensures
            (r.0@, r.1@) == start(request.mode@, 1),
    {
        let t = ReadTransfer { state: TransferState::Start, block_number: 1, chunk: Vec::new(), retries: 0 };
        if mode_accepted(request.mode.as_slice()) {
            (t, Action::Open)
        } else {
            (ReadTransfer { state: TransferState::Aborted, ..t }, Action::Send(error_datagram(ErrorCode::NotDefined)))
        }
    }

    pub fn is_finished(&self) -> (r: bool)
        ensures
            r == ended(self@),
    {
        is_ended(self.state)
    }

    /// Takes one event and says what to do next.
    pub fn step(&mut self, e: Event) -> (a: Action)
        requires
            e matches Event::Chunk(c) ==> c@.len() <= BLOCK_SIZE,
        ensures
            (final(self)@, a@) == read_step(old(self)@, e@),
    {
        let ghost t = self@;
        match (self.state, e) {
            (TransferState::Start, Event::Opened) => {
                self.state = TransferState::NeedChunk;
                Action::ReadChunk
            },
            (TransferState::Start, Event::OpenFailed(f)) => {
                self.state = TransferState::Aborted;
                Action::Send(error_datagram(fault_error_code(f)))
            },
            (TransferState::NeedChunk, Event::Chunk(c)) => {
                let d = data_datagram(self.block_number, &c);
                self.state = TransferState::WaitPeer;
                self.chunk = c;
                self.retries = 0;
                Action::Send(d)
            },
            (TransferState::NeedChunk, Event::StorageFailed(f)) => {
                self.state = TransferState::Aborted;
                Action::Send(error_datagram(fault_error_code(f)))
            },
            (TransferState::WaitPeer, Event::Received(b)) => {
                match PacketType::try_from(b.as_slice()) {
                    Ok(PacketType::Acknowledgment(ack)) => {
                        if ack.block_number != self.block_number {
                            Action::Send(data_datagram(self.block_number, &self.chunk))
                        } else if self.chunk.len() < BLOCK_SIZE {
                            self.state = TransferState::Complete;
                            Action::Stop
                        } else {
                            self.state = TransferState::NeedChunk;
                            self.block_number = next_block_number(self.block_number);
                            self.retries = 0;
                            Action::ReadChunk
                        }
                    },
                    _ => {
                        self.state = TransferState::Aborted;
                        Action::Send(error_datagram(ErrorCode::IllegalTFTPOperation))
                    },
                }
            },
            (TransferState::WaitPeer, Event::Timeout) => {
                if self.retries < MAX_RETRIES {
                    self.retries = self.retries + 1;
                    Action::Send(data_datagram(self.block_number, &self.chunk))
                } else {
                    self.state = TransferState::Aborted;
                    Action::Stop
                }
            },
            _ => {
                if !is_ended(self.state) {
                    self.state = TransferState::Aborted;
                }
                Action::Stop
            },
        }
    }
}

impl WriteTransfer {
    /// Starts taking the file of `request`; block 0 stands acknowledged. An
    /// unserved mode aborts at once with an Error packet.
    pub fn new(request: &WriteRequestPacket) -> (r: (WriteTransfer, Action))
        ensures
            (r.0@, r.1@) == start(request.mode@, 0),
    {
        let t = WriteTransfer { state: TransferState::Start, block_number: 0, chunk: Vec::new(), retries: 0 };
        if mode_accepted(request.mode.as_slice()) {
            (t, Action::Open)
        } else {
            (WriteTransfer { state: TransferState::Aborted, ..t }, Action::Send(error_datagram(ErrorCode::NotDefined)))
        }
    }

    pub fn is_finished(&self) -> (r: bool)
        ensures
            r == ended(self@),
    {
        is_ended(self.state)
    }

    /// Takes one event and says what to do next.
    pub fn step(&mut self, e: Event) -> (a: Action)
        ensures
            (final(self)@, a@) == write_step(old(self)@, e@),
    {
        match (self.state, e) {
            (TransferState::Start, Event::Opened) => {
                self.state = TransferState::WaitPeer;
                Action::Send(ack_datagram(self.block_number))
            },
            (TransferState::Start, Event::OpenFailed(f)) => {
                self.state = TransferState::Aborted;
                Action::Send(error_datagram(fault_error_code(f)))
            },
            (TransferState::WaitPeer, Event::Received(b)) => {
                match PacketType::try_from(b.as_slice()) {
                    Ok(PacketType::Data(d)) => {
                        if d.block_number == next_block_number(self.block_number) {
                            self.state = TransferState::Writing;
                            self.chunk = d.data.clone();
                            self.retries = 0;
                            Action::Write(d.data)
                        } else {
                            Action::Send(ack_datagram(self.block_number))
                        }
                    },
                    _ => {
                        self.state = TransferState::Aborted;
                        Action::Send(error_datagram(ErrorCode::IllegalTFTPOperation))
                    },
                }
            },
            (TransferState::WaitPeer, Event::Timeout) => {
                if self.retries < MAX_RETRIES {
                    self.retries = self.retries + 1;
                    Action::Send(ack_datagram(self.block_number))
                } else {
                    self.state = TransferState::Aborted;
                    Action::Stop
                }
            },
            (TransferState::Writing, Event::Written) => {
                self.block_number = next_block_number(self.block_number);
                self.retries = 0;
                if self.chunk.len() < BLOCK_SIZE {
                    self.state = TransferState::Complete;
                } else {
                    self.state = TransferState::WaitPeer;
                }
                Action::Send(ack_datagram(self.block_number))
            },
            (TransferState::Writing, Event::StorageFailed(f)) => {
                self.state = TransferState::Aborted;
                Action::Send(error_datagram(fault_error_code(f)))
            },
            _ => {
                if !is_ended(self.state) {
                    self.state = TransferState::Aborted;
                }
                Action::Stop
            },
        }
    }
}


/// Block numbers wrap: after block 65535 a read transfer goes on with block
/// 0, sends it as block 0, and takes an Ack of 0 as that block's Ack. A
/// write transfer that acknowledged block 65535 takes block 0 next.
pub proof fn lemma_block_wraparound(t: TransferModel, c: Seq<u8>, w: TransferModel, p: Seq<u8>)
    requires
        t.state == TransferState::WaitPeer,
        t.block == 65535,
        t.chunk.len() == BLOCK_SIZE,
        c.len() <= BLOCK_SIZE,
        w.state == TransferState::WaitPeer,
        w.block == 65535,
    ensures
        ({
            let (t1, a1) = read_step(t, EventModel::Received(ack_bytes(65535)));
            let (t2, a2) = read_step(t1, EventModel::Chunk(c));
            let (t3, a3) = read_step(t2, EventModel::Received(ack_bytes(0)));
            &&& t1.state == TransferState::NeedChunk
            &&& t1.block == 0
            &&& a2 == ActionModel::Send(data_bytes(0, c))
            &&& decode(data_bytes(0, c)) == Ok::<PacketModel, ParsingError>(
                PacketModel::Data { block: 0, payload: c },
            )
            &&& t3.state != TransferState::WaitPeer
            &&& t3.state != TransferState::Aborted
        }),
        ({
            let (w1, a1) = write_step(
                w,
                EventModel::Received(encode(PacketModel::Data { block: 0, payload: p })),
            );
            p.len() <= BLOCK_SIZE ==> w1.state == TransferState::Writing && a1 == ActionModel::Write(
                p,
            )
        }),
{
    assert(decode(ack_bytes(65535)) == Ok::<PacketModel, ParsingError>(PacketModel::Ack { block: 65535 })) by {
        lemma_round_trip(PacketModel::Ack { block: 65535 });
    }
    assert(decode(ack_bytes(0)) == Ok::<PacketModel, ParsingError>(PacketModel::Ack { block: 0 })) by {
        lemma_round_trip(PacketModel::Ack { block: 0 });
    }
    assert(decode(data_bytes(0, c)) == Ok::<PacketModel, ParsingError>(PacketModel::Data { block: 0, payload: c })) by {
        lemma_round_trip(PacketModel::Data { block: 0, payload: c });
    }
    if p.len() <= BLOCK_SIZE {
        lemma_round_trip(PacketModel::Data { block: 0, payload: p });
    }
}

/// A matching Ack ends a read transfer exactly when the acknowledged chunk is
/// shorter than a block; a written chunk ends a write transfer on the same
/// rule.
pub proof fn lemma_terminal_chunk(t: TransferModel, w: TransferModel)
    requires
        t.state == TransferState::WaitPeer,
        w.state == TransferState::Writing,
    ensures
        ({
            let (t1, a1) = read_step(t, EventModel::Received(ack_bytes(t.block)));
            &&& (t1.state == TransferState::Complete) == (t.chunk.len() < BLOCK_SIZE)
            &&& t.chunk.len() == BLOCK_SIZE ==> t1.state == TransferState::NeedChunk
        }),
        ({
            let (w1, a1) = write_step(w, EventModel::Written);
            &&& (w1.state == TransferState::Complete) == (w.chunk.len() < BLOCK_SIZE)
            &&& a1 == ActionModel::Send(ack_bytes(next_block(w.block)))
        }),
{
    lemma_round_trip(PacketModel::Ack { block: t.block });
}

/// While block `N` awaits its Ack, an Ack of any other block, `N - 1`
/// included, makes a read transfer send block `N` once more and changes
/// nothing else.
pub proof fn lemma_ack_mismatch_resends(t: TransferModel, n: u16)
    requires
        t.state == TransferState::WaitPeer,
        n != t.block,
    ensures
        read_step(t, EventModel::Received(ack_bytes(n))) == (
            t,
            ActionModel::Send(data_bytes(t.block, t.chunk)),
        ),
{
    lemma_round_trip(PacketModel::Ack { block: n });
}

} // verus!

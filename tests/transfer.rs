use tftp_rs::packet::{
    AckPacket, DataPacket, ErrorCode, ErrorPacket, ReadRequestPacket, WriteRequestPacket,
};
use tftp_rs::transfer::{
    mode_accepted, next_block_number, Action, Event, ReadTransfer, StorageFault, TransferState,
    WriteTransfer, MAX_RETRIES,
};

fn rrq(mode: &[u8]) -> ReadRequestPacket {
    ReadRequestPacket { filename: b"file".to_vec(), mode: mode.to_vec() }
}

fn wrq(mode: &[u8]) -> WriteRequestPacket {
    WriteRequestPacket { filename: b"file".to_vec(), mode: mode.to_vec() }
}

fn ack(n: u16) -> Vec<u8> {
    AckPacket { block_number: n }.serialize()
}

fn data(n: u16, payload: &[u8]) -> Vec<u8> {
    DataPacket { block_number: n, data: payload.to_vec() }.serialize()
}

fn error(code: ErrorCode) -> Vec<u8> {
    ErrorPacket { error_code: code, error_msg: vec![] }.serialize()
}

fn opened_read() -> ReadTransfer {
    let (mut t, a) = ReadTransfer::new(&rrq(b"octet"));
    assert_eq!(a, Action::Open);
    assert_eq!(t.step(Event::Opened), Action::ReadChunk);
    t
}

fn opened_write() -> WriteTransfer {
    let (mut t, a) = WriteTransfer::new(&wrq(b"octet"));
    assert_eq!(a, Action::Open);
    assert_eq!(t.step(Event::Opened), Action::Send(ack(0)));
    t
}

#[test]
fn read_of_thousand_bytes_sends_two_blocks() {
    let source = vec![0x5au8; 1000];
    let mut t = opened_read();
    let mut sent = Vec::new();
    let a = t.step(Event::Chunk(source[..512].to_vec()));
    assert_eq!(a, Action::Send(data(1, &source[..512])));
    sent.push(a);
    assert_eq!(t.step(Event::Received(ack(1))), Action::ReadChunk);
    let a = t.step(Event::Chunk(source[512..].to_vec()));
    assert_eq!(a, Action::Send(data(2, &source[512..])));
    sent.push(a);
    assert_eq!(t.state, TransferState::WaitPeer);
    assert!(!t.is_finished());
    assert_eq!(t.step(Event::Received(ack(2))), Action::Stop);
    assert_eq!(t.state, TransferState::Complete);
    assert!(t.is_finished());
    assert_eq!(sent.len(), 2);
}

#[test]
fn write_with_duplicate_block_writes_once() {
    let mut t = opened_write();
    let first = vec![1u8; 512];
    let second = vec![2u8; 10];
    let mut writes = Vec::new();
    let mut acks = Vec::new();
    for d in [data(1, &first), data(1, &first), data(2, &second)] {
        match t.step(Event::Received(d)) {
            Action::Write(bytes) => {
                writes.push(bytes);
                match t.step(Event::Written) {
                    Action::Send(b) => acks.push(b),
                    other => panic!("unexpected {:?}", other),
                }
            }
            Action::Send(b) => acks.push(b),
            other => panic!("unexpected {:?}", other),
        }
    }
    assert_eq!(writes, vec![first, second]);
    assert_eq!(acks, vec![ack(1), ack(1), ack(2)]);
    assert_eq!(t.state, TransferState::Complete);
}

#[test]
fn read_block_number_wraps_to_zero() {
    let mut t = opened_read();
    t.block_number = 65535;
    t.step(Event::Chunk(vec![0; 512]));
    assert_eq!(t.step(Event::Received(ack(65535))), Action::ReadChunk);
    assert_eq!(t.block_number, 0);
    assert_eq!(t.step(Event::Chunk(vec![3; 4])), Action::Send(data(0, &[3; 4])));
    assert_eq!(t.step(Event::Received(ack(0))), Action::Stop);
    assert_eq!(t.state, TransferState::Complete);
    assert_eq!(next_block_number(65535), 0);
    assert_eq!(next_block_number(41), 42);
}

#[test]
fn write_block_number_wraps_to_zero() {
    let mut t = opened_write();
    t.block_number = 65535;
    assert_eq!(t.step(Event::Received(data(0, &[7]))), Action::Write(vec![7]));
    assert_eq!(t.step(Event::Written), Action::Send(ack(0)));
    assert_eq!(t.state, TransferState::Complete);
}

#[test]
fn full_block_never_ends_a_transfer() {
    let mut t = opened_read();
    t.step(Event::Chunk(vec![1; 512]));
    assert_eq!(t.step(Event::Received(ack(1))), Action::ReadChunk);
    assert_eq!(t.state, TransferState::NeedChunk);
    let mut w = opened_write();
    w.step(Event::Received(data(1, &[1; 512])));
    w.step(Event::Written);
    assert_eq!(w.state, TransferState::WaitPeer);
}

#[test]
fn empty_block_ends_a_transfer() {
    let mut t = opened_read();
    t.step(Event::Chunk(vec![1; 512]));
    t.step(Event::Received(ack(1)));
    assert_eq!(t.step(Event::Chunk(vec![])), Action::Send(data(2, &[])));
    assert_eq!(t.step(Event::Received(ack(2))), Action::Stop);
    assert_eq!(t.state, TransferState::Complete);
    let mut w = opened_write();
    assert_eq!(w.step(Event::Received(data(1, &[]))), Action::Write(vec![]));
    w.step(Event::Written);
    assert_eq!(w.state, TransferState::Complete);
}

#[test]
fn previous_ack_resends_current_block_once() {
    let mut t = opened_read();
    t.step(Event::Chunk(vec![1; 512]));
    t.step(Event::Received(ack(1)));
    t.step(Event::Chunk(vec![2; 100]));
    let before = t.clone();
    assert_eq!(t.step(Event::Received(ack(1))), Action::Send(data(2, &[2; 100])));
    assert_eq!(t, before);
}

#[test]
fn unserved_mode_aborts_with_error() {
    let (t, a) = ReadTransfer::new(&rrq(b"netascii"));
    assert_eq!(t.state, TransferState::Aborted);
    assert_eq!(a, Action::Send(error(ErrorCode::NotDefined)));
    let (w, a) = WriteTransfer::new(&wrq(b"mail"));
    assert_eq!(w.state, TransferState::Aborted);
    assert_eq!(a, Action::Send(error(ErrorCode::NotDefined)));
}

#[test]
fn mode_is_matched_ignoring_case() {
    assert!(mode_accepted(b"OCTET"));
    assert!(mode_accepted(b"Binary"));
    assert!(!mode_accepted(b"octe"));
    assert!(!mode_accepted(b"netascii"));
    assert!(!mode_accepted(b""));
}

#[test]
fn missing_file_reports_file_not_found() {
    let (mut t, _) = ReadTransfer::new(&rrq(b"octet"));
    assert_eq!(t.step(Event::OpenFailed(StorageFault::NotFound)), Action::Send(error(ErrorCode::FileNotFound)));
    assert_eq!(t.state, TransferState::Aborted);
}

#[test]
fn storage_faults_map_to_codes() {
    let mut w = opened_write();
    w.step(Event::Received(data(1, &[1; 3])));
    assert_eq!(w.step(Event::StorageFailed(StorageFault::StorageFull)), Action::Send(error(ErrorCode::DiskFull)));
    let mut t = opened_read();
    assert_eq!(t.step(Event::StorageFailed(StorageFault::PermissionDenied)), Action::Send(error(ErrorCode::AccessViolation)));
    let (mut t, _) = ReadTransfer::new(&rrq(b"octet"));
    assert_eq!(t.step(Event::OpenFailed(StorageFault::Other)), Action::Send(error(ErrorCode::NotDefined)));
}

#[test]
fn timeouts_resend_until_retries_run_out() {
    let mut t = opened_read();
    t.step(Event::Chunk(vec![4; 20]));
    for _ in 0..MAX_RETRIES {
        assert_eq!(t.step(Event::Timeout), Action::Send(data(1, &[4; 20])));
    }
    assert_eq!(t.step(Event::Timeout), Action::Stop);
    assert_eq!(t.state, TransferState::Aborted);
    let mut w = opened_write();
    for _ in 0..MAX_RETRIES {
        assert_eq!(w.step(Event::Timeout), Action::Send(ack(0)));
    }
    assert_eq!(w.step(Event::Timeout), Action::Stop);
    assert_eq!(w.state, TransferState::Aborted);
}

#[test]
fn wrong_packet_kind_is_illegal_operation() {
    let mut t = opened_read();
    t.step(Event::Chunk(vec![4; 20]));
    assert_eq!(t.step(Event::Received(data(1, &[1]))), Action::Send(error(ErrorCode::IllegalTFTPOperation)));
    assert_eq!(t.state, TransferState::Aborted);
    let mut w = opened_write();
    assert_eq!(w.step(Event::Received(vec![0, 9])), Action::Send(error(ErrorCode::IllegalTFTPOperation)));
    assert_eq!(w.state, TransferState::Aborted);
}

#[test]
fn ended_transfer_ignores_events() {
    let mut t = opened_read();
    t.step(Event::Chunk(vec![]));
    t.step(Event::Received(ack(1)));
    assert_eq!(t.state, TransferState::Complete);
    assert_eq!(t.step(Event::Timeout), Action::Stop);
    assert_eq!(t.state, TransferState::Complete);
    let mut u = opened_read();
    assert_eq!(u.step(Event::Written), Action::Stop);
    assert_eq!(u.state, TransferState::Aborted);
}

use tftp_rs::packet::{
    AckPacket, DataPacket, ErrorCode, ErrorPacket, OpCode, PacketType, ParsingError,
    ReadRequestPacket, WriteRequestPacket, BLOCK_SIZE,
};

fn round_trip(p: PacketType) {
    let bytes = p.serialize();
    assert!(bytes.len() <= 4096);
    assert_eq!(PacketType::try_from(&bytes).unwrap(), p);
}

#[test]
fn read_request_round_trip() {
    round_trip(PacketType::ReadRequest(ReadRequestPacket {
        filename: b"hello.txt".to_vec(),
        mode: b"octet".to_vec(),
    }));
}

#[test]
fn write_request_round_trip() {
    round_trip(PacketType::WriteRequest(WriteRequestPacket {
        filename: b"dir/file.bin".to_vec(),
        mode: b"netascii".to_vec(),
    }));
}

#[test]
fn data_round_trip_full_and_empty() {
    round_trip(PacketType::Data(DataPacket { block_number: 7, data: vec![0xab; BLOCK_SIZE] }));
    round_trip(PacketType::Data(DataPacket { block_number: 65535, data: vec![] }));
}

#[test]
fn ack_round_trip() {
    round_trip(PacketType::Acknowledgment(AckPacket { block_number: 0 }));
    round_trip(PacketType::Acknowledgment(AckPacket { block_number: 0x1234 }));
}

#[test]
fn error_round_trip() {
    round_trip(PacketType::TFTPError(ErrorPacket {
        error_code: ErrorCode::NoSuchUser,
        error_msg: b"who?".to_vec(),
    }));
}

#[test]
fn request_encoding_layout() {
    let p = ReadRequestPacket { filename: b"a".to_vec(), mode: b"octet".to_vec() };
    assert_eq!(p.serialize(), vec![0, 1, b'a', 0, b'o', b'c', b't', b'e', b't', 0]);
    let w = WriteRequestPacket { filename: b"b".to_vec(), mode: b"mail".to_vec() };
    assert_eq!(w.serialize(), vec![0, 2, b'b', 0, b'm', b'a', b'i', b'l', 0]);
}

#[test]
fn data_and_ack_encoding_layout() {
    let d = DataPacket { block_number: 0x0102, data: vec![9, 8, 7] };
    assert_eq!(d.serialize(), vec![0, 3, 1, 2, 9, 8, 7]);
    let a = AckPacket { block_number: 0xfffe };
    assert_eq!(a.serialize(), vec![0, 4, 0xff, 0xfe]);
}

#[test]
fn error_encoding_layout() {
    let e = ErrorPacket { error_code: ErrorCode::DiskFull, error_msg: b"full".to_vec() };
    assert_eq!(e.serialize(), vec![0, 5, 0, 3, b'f', b'u', b'l', b'l', 0]);
}

#[test]
fn invalid_opcode_is_rejected() {
    assert_eq!(PacketType::try_from(&[0x00, 0x06, 1, 2, 3]), Err(ParsingError::InvalidOpcode));
    assert_eq!(PacketType::try_from(&[0x00, 0x00]), Err(ParsingError::InvalidOpcode));
    assert_eq!(OpCode::try_from(&[0x01, 0x01]), Err(ParsingError::InvalidOpcode));
}

#[test]
fn short_input_is_not_enough_data() {
    assert_eq!(PacketType::try_from(&[]), Err(ParsingError::NotEnoughData));
    assert_eq!(PacketType::try_from(&[0x00]), Err(ParsingError::NotEnoughData));
    assert_eq!(PacketType::try_from(&[0x00, 0x03, 0x01]), Err(ParsingError::NotEnoughData));
}

#[test]
fn request_without_nul_is_not_enough_data() {
    assert_eq!(PacketType::try_from(b"\x00\x01file"), Err(ParsingError::NotEnoughData));
    assert_eq!(ReadRequestPacket::try_from(b"file"), Err(ParsingError::NotEnoughData));
}

#[test]
fn request_mode_runs_to_end_without_second_nul() {
    let r = WriteRequestPacket::try_from(b"f\x00octet").unwrap();
    assert_eq!(r.filename, b"f".to_vec());
    assert_eq!(r.mode, b"octet".to_vec());
}

#[test]
fn request_ignores_bytes_after_mode() {
    let r = ReadRequestPacket::try_from(b"f\x00octet\x00\x00\x00junk").unwrap();
    assert_eq!(r.filename, b"f".to_vec());
    assert_eq!(r.mode, b"octet".to_vec());
}

#[test]
fn data_payload_is_capped_at_one_block() {
    let mut body = vec![0u8, 1];
    body.extend(vec![5u8; 600]);
    let d = DataPacket::try_from(&body).unwrap();
    assert_eq!(d.block_number, 1);
    assert_eq!(d.data.len(), 512);
}

#[test]
fn ack_needs_exactly_two_bytes() {
    assert_eq!(AckPacket::try_from(&[0, 9]).unwrap().block_number, 9);
    assert_eq!(AckPacket::try_from(&[0]), Err(ParsingError::NotEnoughData));
    assert_eq!(AckPacket::try_from(&[0, 9, 0]), Err(ParsingError::NotEnoughData));
}

#[test]
fn error_without_terminator_is_not_enough_data() {
    assert_eq!(ErrorPacket::try_from(&[0, 1, b'x']), Err(ParsingError::NotEnoughData));
    assert_eq!(ErrorPacket::try_from(&[0]), Err(ParsingError::NotEnoughData));
}

#[test]
fn unknown_error_code_reads_as_not_defined() {
    let e = ErrorPacket::try_from(&[0, 42, b'h', b'i', 0]).unwrap();
    assert_eq!(e.error_code, ErrorCode::NotDefined);
    assert_eq!(e.error_msg, b"hi".to_vec());
    assert_eq!(ErrorCode::try_from(&[0, 6]), Ok(ErrorCode::FileAlreadyExists));
    assert_eq!(ErrorCode::try_from(&[0]), Err(ParsingError::NotEnoughData));
}

#[test]
fn error_message_with_nul_is_refused() {
    assert_eq!(ErrorPacket::new(ErrorCode::NotDefined, b"a\x00b"), Err(ParsingError::InvalidErrorMessage));
    let e = ErrorPacket::new(ErrorCode::AccessViolation, b"no").unwrap();
    assert_eq!(e.error_code, ErrorCode::AccessViolation);
    assert_eq!(e.error_msg, b"no".to_vec());
}

#[test]
fn code_values() {
    assert_eq!(OpCode::TFTPError.to_u16(), 5);
    assert_eq!(ErrorCode::NoSuchUser.to_u16(), 7);
    assert_eq!(OpCode::try_from(&[0, 4]), Ok(OpCode::Acknowledgment));
}

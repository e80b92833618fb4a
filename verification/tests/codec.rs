use slcan_fd::command::{AutoRetransmissionMode, Command, DataBitRate, NominalBitRate,
    OperatingMode, bytes_to_hex, to_hex_digit};
use slcan_fd::frame::{Can2Frame, CanFdFrame, CanFrame, ExtendedId, FdDataLengthCode, Id,
    StandardId};
use slcan_fd::parser::{MessageKind, MessageParseError, dec_digit_to_u8, hex_digit_to_u8,
    parse_frame_from_bytes, u8_from_hex, unpack_data_bytes};

fn std_id(raw: u16) -> Id {
    Id::Standard(StandardId::new(raw).unwrap())
}

fn ext_id(raw: u32) -> Id {
    Id::Extended(ExtendedId::new(raw).unwrap())
}

#[test]
fn encode_example_can2_data_frame() {
    let frame = Can2Frame::new_data(std_id(0x123), &[0xDE, 0xAD]).unwrap();
    let bytes = Command::TransmitFrame(CanFrame::Can2(frame)).as_bytes();
    assert_eq!(bytes, b"t1232DEAD".to_vec());
}

#[test]
fn decode_example_can2_data_frame() {
    let frame = parse_frame_from_bytes(b"t1232DEAD").unwrap();
    let expected = CanFrame::Can2(Can2Frame::new_data(std_id(0x123), &[0xDE, 0xAD]).unwrap());
    assert_eq!(frame, expected);
}

#[test]
fn encode_configuration_commands() {
    assert_eq!(Command::SetNominalBitRate(NominalBitRate::Rate500Kbit).as_bytes(), b"S6".to_vec());
    assert_eq!(Command::SetNominalBitRate(NominalBitRate::Rate10Kbit).as_bytes(), b"S0".to_vec());
    assert_eq!(Command::SetDataBitRate(DataBitRate::Rate2Mbit).as_bytes(), b"Y2".to_vec());
    assert_eq!(Command::SetDataBitRate(DataBitRate::Rate5Mbit).as_bytes(), b"Y5".to_vec());
    assert_eq!(Command::SetMode(OperatingMode::Normal).as_bytes(), b"M0".to_vec());
    assert_eq!(Command::SetMode(OperatingMode::Silent).as_bytes(), b"M1".to_vec());
    assert_eq!(
        Command::SetAutoRetransmission(AutoRetransmissionMode::Disabled).as_bytes(),
        b"A0".to_vec()
    );
    assert_eq!(
        Command::SetAutoRetransmission(AutoRetransmissionMode::Enabled).as_bytes(),
        b"A1".to_vec()
    );
    assert_eq!(Command::Open.as_bytes(), b"O".to_vec());
    assert_eq!(Command::Close.as_bytes(), b"C".to_vec());
}

#[test]
fn wire_line_appends_terminator() {
    assert_eq!(Command::Open.to_wire_line(), b"O\r".to_vec());
    let frame = Can2Frame::new_data(std_id(0x123), &[0xDE, 0xAD]).unwrap();
    assert_eq!(
        Command::TransmitFrame(CanFrame::Can2(frame)).to_wire_line(),
        b"t1232DEAD\r".to_vec()
    );
}

#[test]
fn roundtrip_various_frames() {
    let frames = vec![
        CanFrame::Can2(Can2Frame::new_data(std_id(0), &[]).unwrap()),
        CanFrame::Can2(Can2Frame::new_data(std_id(0x7FF), &[1, 2, 3, 4, 5, 6, 7, 8]).unwrap()),
        CanFrame::Can2(Can2Frame::new_data(ext_id(0x1FFF_FFFF), &[0xAB]).unwrap()),
        CanFrame::Can2(Can2Frame::new_remote(std_id(0x456), 8).unwrap()),
        CanFrame::Can2(Can2Frame::new_remote(ext_id(0xABCDE), 0).unwrap()),
        CanFrame::CanFd(CanFdFrame::new(std_id(0x001), &[0x11; 12]).unwrap()),
        CanFrame::CanFd(
            CanFdFrame::new(ext_id(0x1234567), &[0x22; 64]).unwrap().with_bit_rate_switched(false),
        ),
        CanFrame::CanFd(CanFdFrame::new(std_id(0x7FF), &[]).unwrap()),
    ];
    for frame in frames {
        let line = Command::TransmitFrame(frame.clone()).as_bytes();
        let decoded = parse_frame_from_bytes(&line).unwrap();
        assert_eq!(decoded, frame);
    }
}

#[test]
fn standard_id_range() {
    assert!(StandardId::new(0).is_some());
    assert!(StandardId::new(0x7FF).is_some());
    assert_eq!(StandardId::new(0x7FF).unwrap().as_raw(), 0x7FF);
    assert!(StandardId::new(0x800).is_none());
    let err = parse_frame_from_bytes(b"t800100").unwrap_err();
    assert_eq!(err, MessageParseError::StandardIdOutOfRange(0x800));
}

#[test]
fn extended_id_range() {
    assert!(ExtendedId::new(0).is_some());
    assert!(ExtendedId::new(0x1FFF_FFFF).is_some());
    assert_eq!(ExtendedId::new(0x1FFF_FFFF).unwrap().as_raw(), 0x1FFF_FFFF);
    assert!(ExtendedId::new(0x2000_0000).is_none());
    let err = parse_frame_from_bytes(b"T200000000").unwrap_err();
    assert_eq!(err, MessageParseError::ExtendedIdOutOfRange(0x2000_0000));
}

#[test]
fn fd_length_code_table() {
    let codes = [
        (FdDataLengthCode::Bytes0, 0usize),
        (FdDataLengthCode::Bytes1, 1),
        (FdDataLengthCode::Bytes2, 2),
        (FdDataLengthCode::Bytes3, 3),
        (FdDataLengthCode::Bytes4, 4),
        (FdDataLengthCode::Bytes5, 5),
        (FdDataLengthCode::Bytes6, 6),
        (FdDataLengthCode::Bytes7, 7),
        (FdDataLengthCode::Bytes8, 8),
        (FdDataLengthCode::Bytes12, 12),
        (FdDataLengthCode::Bytes16, 16),
        (FdDataLengthCode::Bytes20, 20),
        (FdDataLengthCode::Bytes24, 24),
        (FdDataLengthCode::Bytes32, 32),
        (FdDataLengthCode::Bytes48, 48),
        (FdDataLengthCode::Bytes64, 64),
    ];
    for (i, (code, bytes)) in codes.iter().enumerate() {
        assert_eq!(code.code(), i as u8);
        assert_eq!(code.get_num_bytes(), *bytes);
        assert_eq!(FdDataLengthCode::from_code(i as u8), Some(*code));
        // Exact legal lengths map to themselves.
        assert_eq!(FdDataLengthCode::for_length(*bytes), Some(*code));
    }
    assert_eq!(FdDataLengthCode::from_code(16), None);
    // Ceiling behaviour between the legal lengths, and monotonicity.
    assert_eq!(FdDataLengthCode::for_length(9), Some(FdDataLengthCode::Bytes12));
    assert_eq!(FdDataLengthCode::for_length(13), Some(FdDataLengthCode::Bytes16));
    assert_eq!(FdDataLengthCode::for_length(33), Some(FdDataLengthCode::Bytes48));
    assert_eq!(FdDataLengthCode::for_length(49), Some(FdDataLengthCode::Bytes64));
    assert_eq!(FdDataLengthCode::for_length(65), None);
    let mut prev = 0usize;
    for n in 0..=64usize {
        let b = FdDataLengthCode::for_length(n).unwrap().get_num_bytes();
        assert!(b >= n);
        assert!(b >= prev);
        prev = b;
    }
}

#[test]
fn fd_frame_construction() {
    assert!(CanFdFrame::new(std_id(1), &[0; 9]).is_none());
    assert!(CanFdFrame::new(std_id(1), &[0; 65]).is_none());
    let frame = CanFdFrame::new(std_id(1), &[7; 12]).unwrap();
    assert_eq!(frame.dlc(), FdDataLengthCode::Bytes12);
    assert_eq!(frame.data().to_vec(), vec![7u8; 12]);
    assert!(frame.is_bit_rate_switched());
    let padded = CanFdFrame::new_padded(std_id(1), &[9; 9]).unwrap();
    assert_eq!(padded.data().to_vec(), vec![9u8, 9, 9, 9, 9, 9, 9, 9, 9, 0, 0, 0]);
    assert!(CanFdFrame::new_padded(std_id(1), &[0; 65]).is_none());
    let mut frame = frame;
    frame.set_bit_rate_switched(false);
    assert!(!frame.is_bit_rate_switched());
    let frame = frame.with_bit_rate_switched(true);
    assert!(frame.is_bit_rate_switched());
}

#[test]
fn can2_frame_construction() {
    assert!(Can2Frame::new_data(std_id(1), &[0; 9]).is_none());
    assert!(Can2Frame::new_remote(std_id(1), 9).is_none());
    let data = Can2Frame::new_data(std_id(1), &[1, 2, 3]).unwrap();
    assert_eq!(data.dlc(), 3);
    assert_eq!(data.data(), Some(&[1u8, 2, 3][..]));
    assert!(!data.is_remote());
    let remote = Can2Frame::new_remote(ext_id(5), 4).unwrap();
    assert_eq!(remote.dlc(), 4);
    assert_eq!(remote.data(), None);
    assert!(remote.is_remote());
}

#[test]
fn mismatched_payload_length() {
    // DLC 5 with four payload bytes (eight hex chars) names both lengths.
    let err = parse_frame_from_bytes(b"t1235DEADBEEF").unwrap_err();
    assert_eq!(err, MessageParseError::MismatchedDataLength(5, 4));
}

#[test]
fn odd_payload_length() {
    let err = parse_frame_from_bytes(b"t1232DEA").unwrap_err();
    assert_eq!(err, MessageParseError::InvalidDataLength(3));
}

#[test]
fn unrecognized_message() {
    let err = parse_frame_from_bytes(b"x123").unwrap_err();
    assert_eq!(err, MessageParseError::UnrecognizedMessage(b'x'));
}

#[test]
fn message_length_bounds() {
    let err = parse_frame_from_bytes(b"t12").unwrap_err();
    assert_eq!(err, MessageParseError::NotEnoughBytes(MessageKind::ReceivedStandardDataFrame, 3));
    let err = parse_frame_from_bytes(b"t1238AAAAAAAAAAAAAAAAAA").unwrap_err();
    assert_eq!(err, MessageParseError::TooManyBytes(MessageKind::ReceivedStandardDataFrame, 23));
    assert_eq!(
        MessageKind::ReceivedStandardDataFrame.get_min_data_length(),
        4
    );
    assert_eq!(
        MessageKind::ReceivedExtendedFdFrameWithBrs.get_max_data_length(),
        9 + 128
    );
}

#[test]
fn illegal_digits() {
    let err = parse_frame_from_bytes(b"t12G100").unwrap_err();
    assert_eq!(err, MessageParseError::IllegalHexDigit(b'G'));
    let err = parse_frame_from_bytes(b"t123z").unwrap_err();
    assert_eq!(err, MessageParseError::IllegalDecimalDigit(b'z'));
    let err = parse_frame_from_bytes(b"d123z").unwrap_err();
    assert_eq!(err, MessageParseError::IllegalHexDigit(b'z'));
}

#[test]
fn lowercase_and_uppercase_hex_accepted() {
    let lower = parse_frame_from_bytes(b"t1ab2dead").unwrap();
    let upper = parse_frame_from_bytes(b"t1AB2DEAD").unwrap();
    let expected = CanFrame::Can2(Can2Frame::new_data(std_id(0x1AB), &[0xDE, 0xAD]).unwrap());
    assert_eq!(lower, expected);
    assert_eq!(upper, expected);
}

#[test]
fn decode_remote_frames() {
    let frame = parse_frame_from_bytes(b"r1235").unwrap();
    assert_eq!(frame, CanFrame::Can2(Can2Frame::new_remote(std_id(0x123), 5).unwrap()));
    let frame = parse_frame_from_bytes(b"R0000ABCD3").unwrap();
    assert_eq!(frame, CanFrame::Can2(Can2Frame::new_remote(ext_id(0xABCD), 3).unwrap()));
    // A remote frame whose DLC exceeds a classic frame's limit is an error.
    let err = parse_frame_from_bytes(b"r1239").unwrap_err();
    assert_eq!(err, MessageParseError::MismatchedDataLength(9, 0));
}

#[test]
fn decode_fd_frames() {
    // Wire code 9 denotes 12 data bytes; 'd' kinds clear the BRS flag.
    let line = b"d1239AABBCCDDEEFF001122334455".to_vec();
    let frame = parse_frame_from_bytes(&line).unwrap();
    let expected = CanFdFrame::new(
        std_id(0x123),
        &[0xAA, 0xBB, 0xCC, 0xDD, 0xEE, 0xFF, 0x00, 0x11, 0x22, 0x33, 0x44, 0x55],
    )
    .unwrap()
    .with_bit_rate_switched(false);
    assert_eq!(frame, CanFrame::CanFd(expected));
    // 'b' kinds keep the BRS flag set.
    let frame = parse_frame_from_bytes(b"b0012AABB").unwrap();
    let expected = CanFdFrame::new(std_id(1), &[0xAA, 0xBB]).unwrap();
    assert_eq!(frame, CanFrame::CanFd(expected));
    // Payload shorter than the wire code demands is a mismatch.
    let err = parse_frame_from_bytes(b"d1239AABB").unwrap_err();
    assert_eq!(err, MessageParseError::MismatchedDataLength(9, 2));
}

#[test]
fn digit_helpers() {
    assert_eq!(to_hex_digit(0), b'0');
    assert_eq!(to_hex_digit(9), b'9');
    assert_eq!(to_hex_digit(10), b'A');
    assert_eq!(to_hex_digit(15), b'F');
    assert_eq!(to_hex_digit(0x25), b'5');
    assert_eq!(bytes_to_hex(&[0xDE, 0xAD]), b"DEAD".to_vec());
    assert_eq!(bytes_to_hex(&[]), Vec::<u8>::new());
    assert_eq!(hex_digit_to_u8(b'7'), Ok(7));
    assert_eq!(hex_digit_to_u8(b'a'), Ok(10));
    assert_eq!(hex_digit_to_u8(b'F'), Ok(15));
    assert_eq!(hex_digit_to_u8(b'G'), Err(MessageParseError::IllegalHexDigit(b'G')));
    assert_eq!(dec_digit_to_u8(b'4'), Ok(4));
    assert_eq!(dec_digit_to_u8(b'a'), Err(MessageParseError::IllegalDecimalDigit(b'a')));
    assert_eq!(u8_from_hex(&[b'D', b'E']), Ok(0xDE));
    assert_eq!(u8_from_hex(&[b'0', b'G']), Err(MessageParseError::IllegalHexDigit(b'G')));
}

#[test]
fn unpack_data_bytes_checks() {
    assert_eq!(unpack_data_bytes(b"DEAD", 2, 2), Ok(vec![0xDE, 0xAD]));
    assert_eq!(unpack_data_bytes(b"DEA", 2, 2), Err(MessageParseError::InvalidDataLength(3)));
    assert_eq!(
        unpack_data_bytes(b"DEADBEEF", 5, 5),
        Err(MessageParseError::MismatchedDataLength(5, 4))
    );
    assert_eq!(unpack_data_bytes(b"XY", 1, 1), Err(MessageParseError::IllegalHexDigit(b'X')));
}

#[test]
fn default_configuration_values() {
    assert_eq!(DataBitRate::default(), DataBitRate::Rate2Mbit);
    assert_eq!(OperatingMode::default(), OperatingMode::Normal);
    assert_eq!(AutoRetransmissionMode::default(), AutoRetransmissionMode::Enabled);
}

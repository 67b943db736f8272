use l2_protocol::ack::{Ack, AckStatus};
use l2_protocol::command::Command;
use l2_protocol::error::{DispatchContext, EnumField, MagicSite, ParseError};
use l2_protocol::packet::PacketType;
use l2_protocol::user_ctrl_cmd::{StandbyType, UserCmd};
use l2_protocol::work_mode::WorkMode;
use l2_protocol::Packet;

/// A frame around `payload`, with the checksum that `crc_fast` computes.
fn build_frame(packet_type: u32, payload: &[u8]) -> Vec<u8> {
    let crc = crc_fast::checksum(crc_fast::CrcAlgorithm::Crc32IsoHdlc, payload);
    let mut out = vec![0x55, 0xAA, 0x05, 0x0A];
    out.extend_from_slice(&packet_type.to_le_bytes());
    out.extend_from_slice(&((payload.len() + 24) as u32).to_le_bytes());
    out.extend_from_slice(payload);
    out.extend_from_slice(&(crc as u32).to_le_bytes());
    out.extend_from_slice(&[0, 0, 0, 0]);
    out.extend_from_slice(&[0, 0]);
    out.extend_from_slice(&[0x00, 0xFF]);
    out
}

fn pair(first: u32, second: u32) -> Vec<u8> {
    let mut out = first.to_le_bytes().to_vec();
    out.extend_from_slice(&second.to_le_bytes());
    out
}

const ALL_CODES: [u32; 13] = [100, 101, 102, 103, 104, 105, 106, 107, 108, 109, 2000, 2001, 2002];

#[test]
fn parse_the_check_value_frame() {
    // The checksum is written down here, not computed: 0xCBF43926 is the
    // check value of CRC-32/ISO-HDLC for the nine digits.
    let bytes = [
        0x55, 0xAA, 0x05, 0x0A, 0xD1, 0x07, 0x00, 0x00, 0x21, 0x00, 0x00, 0x00, b'1', b'2', b'3',
        b'4', b'5', b'6', b'7', b'8', b'9', 0x26, 0x39, 0xF4, 0xCB, 0, 0, 0, 0, 0, 0, 0x00, 0xFF,
    ];
    let (packet, remainder) = Packet::parse(&bytes).unwrap();
    assert_eq!(packet, Packet::LidarParamData(b"123456789".to_vec()));
    assert!(remainder.is_empty());
}

#[test]
fn parse_returns_the_variant_of_the_type_code_and_the_bytes_behind_the_frame() {
    let payloads: [(u32, Vec<u8>); 13] = [
        (100, pair(1, 0)),
        (101, [pair(2000, 4), pair(0, 1)].concat()),
        (102, vec![0u8; 1020]),
        (103, vec![1, 2, 3]),
        (104, vec![0u8; 56]),
        (105, vec![0u8; 80]),
        (106, vec![4, 5]),
        (107, 0u32.to_le_bytes().to_vec()),
        (108, vec![6]),
        (109, vec![]),
        (2000, pair(7, 0)),
        (2001, vec![7, 8, 9]),
        (2002, 3u32.to_le_bytes().to_vec()),
    ];
    for (code, payload) in payloads {
        let mut bytes = build_frame(code, &payload);
        let frame_len = bytes.len();
        bytes.extend_from_slice(&[0xDE, 0xAD, 0xBE, 0xEF]);
        let (packet, remainder) = Packet::parse(&bytes).unwrap();
        assert_eq!(packet.kind().code(), code);
        assert_eq!(remainder, &bytes[frame_len..]);
        assert_eq!(remainder, &[0xDE, 0xAD, 0xBE, 0xEF]);
    }
}

#[test]
fn parse_rejects_every_changed_byte_of_the_leading_magic() {
    let good = build_frame(2000, &pair(4, 0));
    assert!(Packet::parse(&good).is_ok());
    for i in 0..4 {
        for bit in 0..8 {
            let mut bad = good.clone();
            bad[i] ^= 1 << bit;
            assert_eq!(
                Packet::parse(&bad),
                Err(ParseError::MagicMismatch { which: MagicSite::Header })
            );
        }
    }
}

#[test]
fn parse_rejects_every_changed_byte_of_the_trailing_magic() {
    let good = build_frame(2000, &pair(4, 0));
    let len = good.len();
    for i in [len - 2, len - 1] {
        for bit in 0..8 {
            let mut bad = good.clone();
            bad[i] ^= 1 << bit;
            assert_eq!(
                Packet::parse(&bad),
                Err(ParseError::MagicMismatch { which: MagicSite::Tail })
            );
        }
    }
}

#[test]
fn parse_rejects_every_changed_payload_byte() {
    let payload = pair(4, 0x1234_5678);
    let good = build_frame(2000, &payload);
    let stored = crc_fast::checksum(crc_fast::CrcAlgorithm::Crc32IsoHdlc, &payload) as u32;
    for i in 12..20 {
        let mut bad = good.clone();
        bad[i] ^= 0xFF;
        let computed = crc_fast::checksum(crc_fast::CrcAlgorithm::Crc32IsoHdlc, &bad[12..20]);
        assert_ne!(computed, u64::from(stored));
        assert_eq!(
            Packet::parse(&bad),
            Err(ParseError::CrcMismatch { expected: stored, computed })
        );
    }
}

#[test]
fn parse_rejects_every_changed_byte_of_the_stored_checksum() {
    let payload = pair(4, 0x1234_5678);
    let good = build_frame(2000, &payload);
    let computed = crc_fast::checksum(crc_fast::CrcAlgorithm::Crc32IsoHdlc, &payload);
    for i in 20..24 {
        let mut bad = good.clone();
        bad[i] ^= 0x10;
        let expected = u32::from_le_bytes([bad[20], bad[21], bad[22], bad[23]]);
        assert_eq!(Packet::parse(&bad), Err(ParseError::CrcMismatch { expected, computed }));
    }
}

#[test]
fn parse_rejects_packet_type_999() {
    let bytes = build_frame(999, &[1, 2, 3, 4]);
    assert_eq!(Packet::parse(&bytes), Err(ParseError::UnknownPacketType(999)));
}

#[test]
fn parse_checks_the_envelope_before_the_packet_type() {
    let mut bytes = build_frame(999, &[1, 2, 3, 4]);
    let len = bytes.len();
    bytes[len - 1] = 0xFE;
    assert_eq!(Packet::parse(&bytes), Err(ParseError::MagicMismatch { which: MagicSite::Tail }));
}

#[test]
fn parse_two_frames_back_to_back() {
    let first = build_frame(2002, &0b10001u32.to_le_bytes());
    let second = build_frame(100, &pair(2, 1));
    let buffer = [first, second.clone()].concat();

    let (packet, remainder) = Packet::parse(&buffer).unwrap();
    assert_eq!(
        packet,
        Packet::LidarWorkMode(WorkMode {
            wide_angle: true,
            measure_2d: false,
            disable_imu: false,
            serial_mode: false,
            wait_start: true,
        })
    );
    assert_eq!(remainder, &second[..]);

    let (packet, remainder) = Packet::parse(remainder).unwrap();
    assert_eq!(packet, Packet::LidarUserCmd(UserCmd::StandbyType(StandbyType::Standby)));
    assert!(remainder.is_empty());
}

#[test]
fn parse_walks_a_buffer_until_it_is_empty() {
    let mut buffer = Vec::new();
    for value in 0..5u32 {
        buffer.extend_from_slice(&build_frame(2000, &pair(1, value)));
    }
    let mut data = &buffer[..];
    let mut seen = Vec::new();
    while !data.is_empty() {
        let (packet, rest) = Packet::parse(data).unwrap();
        seen.push(packet);
        data = rest;
    }
    let expected: Vec<Packet> =
        (0..5u32).map(|value| Packet::LidarCommand(Command::ResetType(value))).collect();
    assert_eq!(seen, expected);
}

#[test]
fn parse_does_not_look_for_the_next_frame() {
    let mut buffer = vec![0x00];
    buffer.extend_from_slice(&build_frame(2000, &pair(1, 0)));
    assert_eq!(
        Packet::parse(&buffer),
        Err(ParseError::MagicMismatch { which: MagicSite::Header })
    );
}

#[test]
fn parse_of_a_split_frame_reports_what_is_missing() {
    let bytes = build_frame(2000, &pair(1, 0));
    assert_eq!(
        Packet::parse(&bytes[..7]),
        Err(ParseError::InsufficientData { needed: 12, available: 7 })
    );
    assert_eq!(
        Packet::parse(&bytes[..15]),
        Err(ParseError::InsufficientData { needed: 8, available: 3 })
    );
    assert_eq!(
        Packet::parse(&bytes[..25]),
        Err(ParseError::InsufficientData { needed: 12, available: 5 })
    );
    assert_eq!(Packet::parse(&[]), Err(ParseError::InsufficientData { needed: 12, available: 0 }));
}

#[test]
fn parse_rejects_a_size_too_small_for_a_payload() {
    let mut bytes = build_frame(2000, &pair(1, 0));
    bytes[8..12].copy_from_slice(&23u32.to_le_bytes());
    assert_eq!(Packet::parse(&bytes), Err(ParseError::LengthUnderflow));
}

#[test]
fn packet_type_codes_and_kinds() {
    let kinds = [
        PacketType::LidarUserCmd,
        PacketType::LidarAckData,
        PacketType::LidarPointData,
        PacketType::Lidar2DPointData,
        PacketType::LidarImuData,
        PacketType::LidarVersion,
        PacketType::LidarTimeStamp,
        PacketType::LidarWorkModeConfig,
        PacketType::LidarIpAddressConfig,
        PacketType::LidarMacAddressConfig,
        PacketType::LidarCommand,
        PacketType::LidarParamData,
        PacketType::LidarWorkMode,
    ];
    for (kind, code) in kinds.into_iter().zip(ALL_CODES) {
        assert_eq!(kind.code(), code);
        assert_eq!(PacketType::try_from(code), Ok(kind));
    }
    assert_eq!(PacketType::LIDAR_USER_CMD, 100);
    assert_eq!(PacketType::LIDAR_MAC_ADDRESS_CONFIG, 109);
    assert_eq!(PacketType::LIDAR_COMMAND, 2000);
    assert_eq!(PacketType::LIDAR_WORK_MODE, 2002);
}

#[test]
fn packet_type_outside_the_table_is_rejected() {
    for code in [0u32, 1, 99, 110, 999, 1999, 2003, u32::MAX] {
        assert_eq!(PacketType::try_from(code), Err(ParseError::UnknownPacketType(code)));
    }
}

#[test]
fn decode_passes_unconfirmed_kinds_through() {
    let payload = [9u8, 8, 7, 6, 5];
    assert_eq!(Packet::decode(103, &payload), Ok(Packet::Lidar2DPointData(payload.to_vec())));
    assert_eq!(Packet::decode(106, &payload), Ok(Packet::LidarTimeStamp(payload.to_vec())));
    assert_eq!(Packet::decode(108, &payload), Ok(Packet::LidarIpAddressConfig(payload.to_vec())));
    assert_eq!(Packet::decode(109, &payload), Ok(Packet::LidarMacAddressConfig(payload.to_vec())));
    assert_eq!(Packet::decode(2001, &payload), Ok(Packet::LidarParamData(payload.to_vec())));
    assert_eq!(Packet::decode(2001, &[]), Ok(Packet::LidarParamData(vec![])));
}

#[test]
fn decode_reads_the_record_and_ignores_what_follows_it() {
    let mut payload = pair(6, 77);
    payload.extend_from_slice(&[0xFF; 5]);
    assert_eq!(Packet::decode(100, &payload), Ok(Packet::LidarUserCmd(UserCmd::ConfigGet(77))));
    assert_eq!(Packet::decode(2000, &payload), Ok(Packet::LidarCommand(Command::LatencyType(77))));
}

#[test]
fn decode_reports_a_payload_shorter_than_its_record() {
    let short = [0u8; 3];
    for (code, needed) in
        [(100u32, 8usize), (101, 16), (102, 1020), (104, 56), (105, 80), (107, 4), (2000, 8), (2002, 4)]
    {
        assert_eq!(
            Packet::decode(code, &short),
            Err(ParseError::InsufficientData { needed, available: 3 })
        );
    }
}

#[test]
fn decode_unknown_code_comes_before_the_payload() {
    assert_eq!(Packet::decode(999, &[]), Err(ParseError::UnknownPacketType(999)));
}

#[test]
fn decode_ack_packet() {
    let payload = [pair(100, 2), pair(0, 1)].concat();
    assert_eq!(
        Packet::decode(101, &payload),
        Ok(Packet::LidarAckData(Ack::UserCmd {
            cmd: UserCmd::StandbyType(StandbyType::Start),
            status: AckStatus::Success,
        }))
    );
}

#[test]
fn decode_work_mode_under_both_codes() {
    let payload = 0b01010u32.to_le_bytes();
    let mode = WorkMode {
        wide_angle: false,
        measure_2d: true,
        disable_imu: false,
        serial_mode: true,
        wait_start: false,
    };
    assert_eq!(Packet::decode(107, &payload), Ok(Packet::LidarWorkModeConfig(mode)));
    assert_eq!(Packet::decode(2002, &payload), Ok(Packet::LidarWorkMode(mode)));
}

#[test]
fn decode_propagates_the_errors_of_the_payload() {
    assert_eq!(
        Packet::decode(100, &pair(8, 0)),
        Err(ParseError::UnknownSubCommand { type_code: 8, context: DispatchContext::UserCmd })
    );
    assert_eq!(
        Packet::decode(2000, &pair(0, 0)),
        Err(ParseError::UnknownSubCommand { type_code: 0, context: DispatchContext::Command })
    );
    assert_eq!(
        Packet::decode(100, &pair(2, 2)),
        Err(ParseError::InvalidEnumValue { field: EnumField::StandbyMode, value: 2 })
    );
    assert_eq!(
        Packet::decode(2002, &0b100001u32.to_le_bytes()),
        Err(ParseError::InvalidEnumValue { field: EnumField::WorkModeFlags, value: 0b100001 })
    );
    let mut version = vec![0u8; 80];
    version[8] = 0xFF;
    assert_eq!(Packet::decode(105, &version), Err(ParseError::InvalidUtf8));
}

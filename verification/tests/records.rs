use l2_protocol::ack::{Ack, AckStatus, LidarAckData};
use l2_protocol::command::{Command, LidarCommand};
use l2_protocol::cursor::{take, F32Bits};
use l2_protocol::error::{DispatchContext, EnumField, ParseError};
use l2_protocol::imu::LidarImuData;
use l2_protocol::info::{DataInfo, TimeStamp};
use l2_protocol::point_data::{LidarCalibParam, LidarInsideState, LidarPointData};
use l2_protocol::user_ctrl_cmd::{LidarUserCtrlCmd, StandbyType, UserCmd};

/// Bytes that count up from `start`, so that every offset holds another value.
fn counting(start: u8, len: usize) -> Vec<u8> {
    (0..len).map(|i| start.wrapping_add(i as u8)).collect()
}

fn le32(bytes: &[u8], at: usize) -> u32 {
    u32::from_le_bytes([bytes[at], bytes[at + 1], bytes[at + 2], bytes[at + 3]])
}

fn floats(values: &[f32]) -> Vec<u8> {
    values.iter().flat_map(|value| value.to_le_bytes()).collect()
}

#[test]
fn take_splits_at_the_length() {
    let bytes = [1u8, 2, 3, 4, 5];
    let (head, rest) = take(&bytes, 2).unwrap();
    assert_eq!(head, &[1, 2]);
    assert_eq!(rest, &[3, 4, 5]);
    let (head, rest) = take(&bytes, 0).unwrap();
    assert!(head.is_empty());
    assert_eq!(rest, &bytes);
    let (head, rest) = take(&bytes, 5).unwrap();
    assert_eq!(head, &bytes);
    assert!(rest.is_empty());
}

#[test]
fn take_reports_needed_and_available() {
    let bytes = [1u8, 2, 3, 4, 5];
    assert_eq!(take(&bytes, 6), Err(ParseError::InsufficientData { needed: 6, available: 5 }));
    assert_eq!(take(&[], 1), Err(ParseError::InsufficientData { needed: 1, available: 0 }));
}

#[test]
fn user_ctrl_cmd_record() {
    let bytes = [0x02, 0, 0, 0, 0x01, 0, 0, 0, 0xAA, 0xBB];
    let (record, rest) = LidarUserCtrlCmd::parse(&bytes).unwrap();
    assert_eq!(record, LidarUserCtrlCmd { cmd_type: 2, cmd_value: 1 });
    assert_eq!(rest, &[0xAA, 0xBB]);
    assert_eq!(UserCmd::try_from(record), Ok(UserCmd::StandbyType(StandbyType::Standby)));
    assert_eq!(LidarUserCtrlCmd::LEN, 8);
}

#[test]
fn user_ctrl_cmd_record_is_little_endian() {
    let bytes = [0x78, 0x56, 0x34, 0x12, 0xEF, 0xCD, 0xAB, 0x89];
    let (record, rest) = LidarUserCtrlCmd::parse(&bytes).unwrap();
    assert_eq!(record.cmd_type, 0x1234_5678);
    assert_eq!(record.cmd_value, 0x89AB_CDEF);
    assert!(rest.is_empty());
}

#[test]
fn user_ctrl_cmd_record_too_short() {
    assert_eq!(
        LidarUserCtrlCmd::parse(&[0u8; 7]),
        Err(ParseError::InsufficientData { needed: 8, available: 7 })
    );
}

#[test]
fn user_cmd_table() {
    assert_eq!(UserCmd::try_from((1, 10)), Ok(UserCmd::ResetType(10)));
    assert_eq!(UserCmd::try_from((2, 0)), Ok(UserCmd::StandbyType(StandbyType::Start)));
    assert_eq!(UserCmd::try_from((2, 1)), Ok(UserCmd::StandbyType(StandbyType::Standby)));
    assert_eq!(UserCmd::try_from((3, 11)), Ok(UserCmd::VersionGet(11)));
    assert_eq!(UserCmd::try_from((4, 12)), Ok(UserCmd::LatencyType(12)));
    assert_eq!(UserCmd::try_from((5, 13)), Ok(UserCmd::ConfigReset(13)));
    assert_eq!(UserCmd::try_from((6, 14)), Ok(UserCmd::ConfigGet(14)));
    assert_eq!(UserCmd::try_from((7, u32::MAX)), Ok(UserCmd::ConfigAutoStandby(u32::MAX)));
}

#[test]
fn user_cmd_unknown_type() {
    for typ in [0u32, 8, 100, u32::MAX] {
        assert_eq!(
            UserCmd::try_from((typ, 0)),
            Err(ParseError::UnknownSubCommand { type_code: typ, context: DispatchContext::UserCmd })
        );
    }
}

#[test]
fn user_cmd_standby_mode_is_closed() {
    assert_eq!(
        UserCmd::try_from((2, 2)),
        Err(ParseError::InvalidEnumValue { field: EnumField::StandbyMode, value: 2 })
    );
}

#[test]
fn standby_type_values() {
    assert_eq!(StandbyType::try_from(0), Ok(StandbyType::Start));
    assert_eq!(StandbyType::try_from(1), Ok(StandbyType::Standby));
    assert_eq!(
        StandbyType::try_from(2),
        Err(ParseError::InvalidEnumValue { field: EnumField::StandbyMode, value: 2 })
    );
    assert_eq!(StandbyType::Start.code(), 0);
    assert_eq!(StandbyType::Standby.code(), 1);
}

#[test]
fn command_record() {
    let bytes = [0x05, 0, 0, 0, 0x01, 0, 0, 0, 0xCC];
    let (record, rest) = LidarCommand::parse(&bytes).unwrap();
    assert_eq!(record, LidarCommand { cmd_type: 5, cmd_value: 1 });
    assert_eq!(rest, &[0xCC]);
    assert_eq!(Command::try_from(record), Ok(Command::StandbyType(1)));
    assert_eq!(LidarCommand::LEN, 8);
}

#[test]
fn command_record_too_short() {
    assert_eq!(
        LidarCommand::parse(&[]),
        Err(ParseError::InsufficientData { needed: 8, available: 0 })
    );
}

#[test]
fn command_table() {
    assert_eq!(Command::try_from((1, 20)), Ok(Command::ResetType(20)));
    assert_eq!(Command::try_from((2, 21)), Ok(Command::ParamSave(21)));
    assert_eq!(Command::try_from((3, 22)), Ok(Command::ParamGet(22)));
    assert_eq!(Command::try_from((4, 23)), Ok(Command::VersionGet(23)));
    assert_eq!(Command::try_from((5, 24)), Ok(Command::StandbyType(24)));
    assert_eq!(Command::try_from((6, 25)), Ok(Command::LatencyType(25)));
    assert_eq!(Command::try_from((7, 26)), Ok(Command::ConfigReset(26)));
}

#[test]
fn command_unknown_type() {
    for typ in [0u32, 8, 2000] {
        assert_eq!(
            Command::try_from((typ, 5)),
            Err(ParseError::UnknownSubCommand { type_code: typ, context: DispatchContext::Command })
        );
    }
}

#[test]
fn command_standby_value_is_not_checked() {
    assert_eq!(Command::try_from((5, 99)), Ok(Command::StandbyType(99)));
}

#[test]
fn ack_record() {
    let bytes = counting(1, 18);
    let (record, rest) = LidarAckData::parse(&bytes).unwrap();
    assert_eq!(
        record,
        LidarAckData {
            packet_type: 0x0403_0201,
            cmd_type: 0x0807_0605,
            cmd_value: 0x0C0B_0A09,
            status: 0x100F_0E0D,
        }
    );
    assert_eq!(rest, &[17, 18]);
    assert_eq!(LidarAckData::LEN, 16);
}

#[test]
fn ack_record_too_short() {
    assert_eq!(
        LidarAckData::parse(&[0u8; 15]),
        Err(ParseError::InsufficientData { needed: 16, available: 15 })
    );
}

#[test]
fn ack_status_values() {
    assert_eq!(AckStatus::try_from(1), Ok(AckStatus::Success));
    assert_eq!(AckStatus::try_from(2), Ok(AckStatus::CrcError));
    assert_eq!(AckStatus::try_from(3), Ok(AckStatus::HeaderError));
    assert_eq!(AckStatus::try_from(4), Ok(AckStatus::BlockError));
    assert_eq!(AckStatus::try_from(5), Ok(AckStatus::WaitError));
    for value in [0u32, 6, u32::MAX] {
        assert_eq!(
            AckStatus::try_from(value),
            Err(ParseError::InvalidEnumValue { field: EnumField::AckStatus, value })
        );
    }
}

#[test]
fn ack_status_codes_round_trip() {
    for status in [
        AckStatus::Success,
        AckStatus::CrcError,
        AckStatus::HeaderError,
        AckStatus::BlockError,
        AckStatus::WaitError,
    ] {
        assert_eq!(AckStatus::try_from(status.code()), Ok(status));
    }
    assert_eq!(AckStatus::Success.code(), 1);
    assert_eq!(AckStatus::WaitError.code(), 5);
}

#[test]
fn ack_for_each_echoed_packet_type() {
    let data = LidarAckData { packet_type: 100, cmd_type: 6, cmd_value: 9, status: 1 };
    assert_eq!(
        Ack::try_from(data),
        Ok(Ack::UserCmd { cmd: UserCmd::ConfigGet(9), status: AckStatus::Success })
    );
    let data = LidarAckData { packet_type: 2000, cmd_type: 6, cmd_value: 9, status: 5 };
    assert_eq!(
        Ack::try_from(data),
        Ok(Ack::Command { cmd: Command::LatencyType(9), status: AckStatus::WaitError })
    );
    let data = LidarAckData { packet_type: 2002, cmd_type: 77, cmd_value: 88, status: 2 };
    assert_eq!(
        Ack::try_from(data),
        Ok(Ack::WorkMode { cmd_type: 77, cmd_value: 88, status: AckStatus::CrcError })
    );
}

#[test]
fn ack_for_another_packet_type() {
    for packet_type in [0u32, 101, 102, 2001, 999] {
        let data = LidarAckData { packet_type, cmd_type: 1, cmd_value: 0, status: 1 };
        assert_eq!(
            Ack::try_from(data),
            Err(ParseError::UnknownSubCommand {
                type_code: packet_type,
                context: DispatchContext::Ack,
            })
        );
    }
}

#[test]
fn ack_status_is_looked_at_first() {
    let data = LidarAckData { packet_type: 999, cmd_type: 99, cmd_value: 0, status: 0 };
    assert_eq!(
        Ack::try_from(data),
        Err(ParseError::InvalidEnumValue { field: EnumField::AckStatus, value: 0 })
    );
}

#[test]
fn ack_with_an_unknown_echoed_command() {
    let data = LidarAckData { packet_type: 100, cmd_type: 8, cmd_value: 0, status: 1 };
    assert_eq!(
        Ack::try_from(data),
        Err(ParseError::UnknownSubCommand { type_code: 8, context: DispatchContext::UserCmd })
    );
    let data = LidarAckData { packet_type: 2000, cmd_type: 8, cmd_value: 0, status: 1 };
    assert_eq!(
        Ack::try_from(data),
        Err(ParseError::UnknownSubCommand { type_code: 8, context: DispatchContext::Command })
    );
    let data = LidarAckData { packet_type: 100, cmd_type: 2, cmd_value: 5, status: 1 };
    assert_eq!(
        Ack::try_from(data),
        Err(ParseError::InvalidEnumValue { field: EnumField::StandbyMode, value: 5 })
    );
}

#[test]
fn time_stamp_record() {
    let bytes = [0x10, 0x27, 0, 0, 0x00, 0xCA, 0x9A, 0x3B, 0x01];
    let (stamp, rest) = TimeStamp::parse(&bytes).unwrap();
    assert_eq!(stamp, TimeStamp { sec: 10_000, nsec: 1_000_000_000 });
    assert_eq!(rest, &[0x01]);
    assert_eq!(
        TimeStamp::parse(&bytes[..7]),
        Err(ParseError::InsufficientData { needed: 8, available: 7 })
    );
}

#[test]
fn data_info_record() {
    let bytes = counting(0x20, 20);
    let (info, rest) = DataInfo::parse(&bytes).unwrap();
    assert_eq!(
        info,
        DataInfo {
            seq: le32(&bytes, 0),
            payload_size: le32(&bytes, 4),
            stamp: TimeStamp { sec: le32(&bytes, 8), nsec: le32(&bytes, 12) },
        }
    );
    assert_eq!(info.seq, 0x2322_2120);
    assert_eq!(info.stamp.nsec, 0x2F2E_2D2C);
    assert_eq!(rest, &bytes[16..]);
    assert_eq!(
        DataInfo::parse(&bytes[..15]),
        Err(ParseError::InsufficientData { needed: 16, available: 15 })
    );
}

#[test]
fn imu_record() {
    let mut bytes = counting(1, 16);
    bytes.extend_from_slice(&floats(&[1.0, 0.0, -0.5, 0.25]));
    bytes.extend_from_slice(&floats(&[0.125, -2.0, 3.5]));
    bytes.extend_from_slice(&floats(&[9.81, -9.81, 1.0e-3]));
    bytes.push(0x99);
    let (data, rest) = LidarImuData::parse(&bytes).unwrap();
    assert_eq!(data.info.seq, 0x0403_0201);
    assert_eq!(data.info.stamp.nsec, 0x100F_0E0D);
    let numbers = |bits: &[F32Bits]| bits.iter().map(|b| f32::from_bits(b.0)).collect::<Vec<_>>();
    assert_eq!(numbers(&data.quaternion), [1.0, 0.0, -0.5, 0.25]);
    assert_eq!(numbers(&data.angular_velocity), [0.125, -2.0, 3.5]);
    assert_eq!(numbers(&data.linear_acceleration), [9.81, -9.81, 1.0e-3]);
    assert_eq!(data.quaternion[0], F32Bits(0x3F80_0000));
    assert_eq!(rest, &[0x99]);
    assert_eq!(LidarImuData::LEN, 56);
}

#[test]
fn imu_record_too_short() {
    assert_eq!(
        LidarImuData::parse(&[0u8; 55]),
        Err(ParseError::InsufficientData { needed: 56, available: 55 })
    );
}

#[test]
fn calib_param_record() {
    let bytes = floats(&[1.0, 2.0, 3.0, 4.0, 5.0, 6.0, 7.0, 8.0]);
    let (param, rest) = LidarCalibParam::parse(&bytes).unwrap();
    assert_eq!(f32::from_bits(param.a_axis_dist.0), 1.0);
    assert_eq!(f32::from_bits(param.b_axis_dist.0), 2.0);
    assert_eq!(f32::from_bits(param.theta_angle_bias.0), 3.0);
    assert_eq!(f32::from_bits(param.alpha_angle_bias.0), 4.0);
    assert_eq!(f32::from_bits(param.beta_angle.0), 5.0);
    assert_eq!(f32::from_bits(param.xi_angle.0), 6.0);
    assert_eq!(f32::from_bits(param.range_bias.0), 7.0);
    assert_eq!(f32::from_bits(param.range_scale.0), 8.0);
    assert!(rest.is_empty());
    assert_eq!(
        LidarCalibParam::parse(&bytes[..31]),
        Err(ParseError::InsufficientData { needed: 32, available: 31 })
    );
}

#[test]
fn inside_state_record() {
    let mut bytes = 600u32.to_le_bytes().to_vec();
    bytes.extend_from_slice(&12_000u32.to_le_bytes());
    bytes.extend_from_slice(&floats(&[0.5, 1.5, 2.5, 36.6, 120.0, 5.0, 41.25]));
    let (state, rest) = LidarInsideState::parse(&bytes).unwrap();
    assert_eq!(state.sys_rotation_period, 600);
    assert_eq!(state.com_rotation_period, 12_000);
    assert_eq!(f32::from_bits(state.dirty_index.0), 0.5);
    assert_eq!(f32::from_bits(state.packet_lost_up.0), 1.5);
    assert_eq!(f32::from_bits(state.packet_lost_down.0), 2.5);
    assert_eq!(f32::from_bits(state.apd_temperature.0), 36.6);
    assert_eq!(f32::from_bits(state.apd_voltage.0), 120.0);
    assert_eq!(f32::from_bits(state.laser_voltage.0), 5.0);
    assert_eq!(f32::from_bits(state.imu_temperature.0), 41.25);
    assert!(rest.is_empty());
    assert_eq!(
        LidarInsideState::parse(&bytes[..35]),
        Err(ParseError::InsufficientData { needed: 36, available: 35 })
    );
}

#[test]
fn point_data_record() {
    let mut bytes = counting(1, 16);
    bytes.extend_from_slice(&600u32.to_le_bytes());
    bytes.extend_from_slice(&12_000u32.to_le_bytes());
    bytes.extend_from_slice(&floats(&[0.5, 1.5, 2.5, 36.6, 120.0, 5.0, 41.25]));
    bytes.extend_from_slice(&floats(&[1.0, 2.0, 3.0, 4.0, 5.0, 6.0, 7.0, 8.0]));
    bytes.extend_from_slice(&floats(&[10.0, 11.0, 12.0, 13.0, 14.0, 15.0, 16.0, 17.0]));
    bytes.extend_from_slice(&299u32.to_le_bytes());
    for i in 0..300u16 {
        bytes.extend_from_slice(&(1000 + 7 * i).to_le_bytes());
    }
    for i in 0..300u32 {
        bytes.push((i % 251) as u8);
    }
    assert_eq!(bytes.len(), 1020);
    bytes.extend_from_slice(&[0xAB, 0xCD]);

    let (data, rest) = LidarPointData::parse(&bytes).unwrap();
    assert_eq!(data.info.seq, 0x0403_0201);
    assert_eq!(data.state.sys_rotation_period, 600);
    assert_eq!(data.state.com_rotation_period, 12_000);
    assert_eq!(f32::from_bits(data.state.imu_temperature.0), 41.25);
    assert_eq!(f32::from_bits(data.param.a_axis_dist.0), 1.0);
    assert_eq!(f32::from_bits(data.param.range_scale.0), 8.0);
    assert_eq!(f32::from_bits(data.com_horizontal_angle_start.0), 10.0);
    assert_eq!(f32::from_bits(data.com_horizontal_angle_step.0), 11.0);
    assert_eq!(f32::from_bits(data.scan_period.0), 12.0);
    assert_eq!(f32::from_bits(data.range_min.0), 13.0);
    assert_eq!(f32::from_bits(data.range_max.0), 14.0);
    assert_eq!(f32::from_bits(data.angle_min.0), 15.0);
    assert_eq!(f32::from_bits(data.angle_increment.0), 16.0);
    assert_eq!(f32::from_bits(data.time_increment.0), 17.0);
    assert_eq!(data.point_num, 299);
    for i in 0..300usize {
        assert_eq!(data.ranges[i], 1000 + 7 * i as u16);
        assert_eq!(data.intensities[i], (i % 251) as u8);
    }
    assert_eq!(rest, &[0xAB, 0xCD]);
    assert_eq!(LidarPointData::LEN, 1020);
}

#[test]
fn point_data_record_too_short() {
    assert_eq!(
        LidarPointData::parse(&[0u8; 1019]),
        Err(ParseError::InsufficientData { needed: 1020, available: 1019 })
    );
}

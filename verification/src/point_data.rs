//! The range scan: device telemetry, calibration, scan geometry and one line
//! of 300 range and intensity readings.

use vstd::prelude::*;

use crate::cursor::{
    f32_bits_at,
    get_f32_bits_le,
    get_u16_le,
    get_u32_le,
    get_u8,
    rest_view,
    spec_record,
    take,
    u16_at,
    u32_at,
    value_rest_view,
    F32Bits,
};
use crate::error::ParseError;
use crate::info::DataInfo;

verus! {

/// The calibration parameters of the device: 32 bytes on the wire.
#[derive(Debug, Clone, Copy, PartialEq, Eq, Structural)]
pub struct LidarCalibParam {
    /// In metres.
    pub a_axis_dist: F32Bits,
    /// In metres.
    pub b_axis_dist: F32Bits,
    /// In radians.
    pub theta_angle_bias: F32Bits,
    /// In radians.
    pub alpha_angle_bias: F32Bits,
    /// In radians.
    pub beta_angle: F32Bits,
    /// In radians.
    pub xi_angle: F32Bits,
    /// In millimetres.
    pub range_bias: F32Bits,
    /// A factor without unit.
    pub range_scale: F32Bits,
}

impl LidarCalibParam {
    /// The length of the record in bytes.
    pub const LEN: usize = 32;

    /// The record held by the first 32 bytes of `s`.
    pub open spec fn spec_decode(s: Seq<u8>) -> LidarCalibParam
        recommends
            s.len() >= Self::LEN,
    {
        LidarCalibParam {
            a_axis_dist: f32_bits_at(s, 0),
            b_axis_dist: f32_bits_at(s, 4),
            theta_angle_bias: f32_bits_at(s, 8),
            alpha_angle_bias: f32_bits_at(s, 12),
            beta_angle: f32_bits_at(s, 16),
            xi_angle: f32_bits_at(s, 20),
            range_bias: f32_bits_at(s, 24),
            range_scale: f32_bits_at(s, 28),
        }
    }

    /// Reads the record from the front of `bytes` and hands back the bytes
    /// that follow it. Fails only when `bytes` holds fewer than 32 bytes.
    pub fn parse(bytes: &[u8]) -> (r: Result<(Self, &[u8]), ParseError>)
        ensures
            rest_view(r) == spec_record(bytes@, Self::LEN, Self::spec_decode(bytes@)),
    {
        let (record, remainder) = take(bytes, Self::LEN)?;
        let (a_axis_dist, record) = get_f32_bits_le(record);
        let (b_axis_dist, record) = get_f32_bits_le(record);
        let (theta_angle_bias, record) = get_f32_bits_le(record);
        let (alpha_angle_bias, record) = get_f32_bits_le(record);
        let (beta_angle, record) = get_f32_bits_le(record);
        let (xi_angle, record) = get_f32_bits_le(record);
        let (range_bias, record) = get_f32_bits_le(record);
        let (range_scale, record) = get_f32_bits_le(record);
        assert(record@.len() == 0);
        Ok(
            (
                LidarCalibParam {
                    a_axis_dist,
                    b_axis_dist,
                    theta_angle_bias,
                    alpha_angle_bias,
                    beta_angle,
                    xi_angle,
                    range_bias,
                    range_scale,
                },
                remainder,
            ),
        )
    }
}

/// The telemetry of the device: 36 bytes on the wire.
#[derive(Debug, Clone, Copy, PartialEq, Eq, Structural)]
pub struct LidarInsideState {
    /// The rotation period of the upper, slow motor.
    pub sys_rotation_period: u32,
    /// The rotation period of the lower, fast motor.
    pub com_rotation_period: u32,
    /// How dirty the optical surface is.
    pub dirty_index: F32Bits,
    /// The packet loss rate of the upper board.
    pub packet_lost_up: F32Bits,
    /// The packet loss rate of the lower board.
    pub packet_lost_down: F32Bits,
    /// The temperature of the avalanche photodiode.
    pub apd_temperature: F32Bits,
    /// The voltage of the avalanche photodiode.
    pub apd_voltage: F32Bits,
    /// The voltage of the laser emitter.
    pub laser_voltage: F32Bits,
    /// The temperature of the IMU.
    pub imu_temperature: F32Bits,
}

impl LidarInsideState {
    /// The length of the record in bytes.
    pub const LEN: usize = 36;

    /// The record held by the first 36 bytes of `s`.
    pub open spec fn spec_decode(s: Seq<u8>) -> LidarInsideState
        recommends
            s.len() >= Self::LEN,
    {
        LidarInsideState {
            sys_rotation_period: u32_at(s, 0),
            com_rotation_period: u32_at(s, 4),
            dirty_index: f32_bits_at(s, 8),
            packet_lost_up: f32_bits_at(s, 12),
            packet_lost_down: f32_bits_at(s, 16),
            apd_temperature: f32_bits_at(s, 20),
            apd_voltage: f32_bits_at(s, 24),
            laser_voltage: f32_bits_at(s, 28),
            imu_temperature: f32_bits_at(s, 32),
        }
    }

    /// Reads the record from the front of `bytes` and hands back the bytes
    /// that follow it. Fails only when `bytes` holds fewer than 36 bytes.
    pub fn parse(bytes: &[u8]) -> (r: Result<(Self, &[u8]), ParseError>)
        ensures
            rest_view(r) == spec_record(bytes@, Self::LEN, Self::spec_decode(bytes@)),
    {
        let (record, remainder) = take(bytes, Self::LEN)?;
        let (sys_rotation_period, record) = get_u32_le(record);
        let (com_rotation_period, record) = get_u32_le(record);
        let (dirty_index, record) = get_f32_bits_le(record);
        let (packet_lost_up, record) = get_f32_bits_le(record);
        let (packet_lost_down, record) = get_f32_bits_le(record);
        let (apd_temperature, record) = get_f32_bits_le(record);
        let (apd_voltage, record) = get_f32_bits_le(record);
        let (laser_voltage, record) = get_f32_bits_le(record);
        let (imu_temperature, record) = get_f32_bits_le(record);
        assert(record@.len() == 0);
        Ok(
            (
                LidarInsideState {
                    sys_rotation_period,
                    com_rotation_period,
                    dirty_index,
                    packet_lost_up,
                    packet_lost_down,
                    apd_temperature,
                    apd_voltage,
                    laser_voltage,
                    imu_temperature,
                },
                remainder,
            ),
        )
    }
}

/// One scan line: 1020 bytes on the wire.
#[derive(Debug, Clone, PartialEq, Eq)]
pub struct LidarPointData {
    /// The packet information.
    pub info: DataInfo,
    /// The telemetry of the device.
    pub state: LidarInsideState,
    /// The calibration parameters of the device.
    pub param: LidarCalibParam,
    /// The horizontal angle at which the line starts.
    pub com_horizontal_angle_start: F32Bits,
    /// The horizontal angle between two lines.
    pub com_horizontal_angle_step: F32Bits,
    /// The scan period in seconds.
    pub scan_period: F32Bits,
    /// The smallest range in metres.
    pub range_min: F32Bits,
    /// The largest range in metres.
    pub range_max: F32Bits,
    /// The angle of the first point in radians.
    pub angle_min: F32Bits,
    /// The angle between two points in radians.
    pub angle_increment: F32Bits,
    /// The time between two points in seconds.
    pub time_increment: F32Bits,
    /// How many of the readings hold a point.
    pub point_num: u32,
    /// The distance of each point in millimetres.
    pub ranges: [u16; 300],
    /// The reflectivity of each point.
    pub intensities: [u8; 300],
}

/// A scan line as a mathematical value: the readings are sequences of length 300.
pub struct LidarPointDataView {
    pub info: DataInfo,
    pub state: LidarInsideState,
    pub param: LidarCalibParam,
    pub com_horizontal_angle_start: F32Bits,
    pub com_horizontal_angle_step: F32Bits,
    pub scan_period: F32Bits,
    pub range_min: F32Bits,
    pub range_max: F32Bits,
    pub angle_min: F32Bits,
    pub angle_increment: F32Bits,
    pub time_increment: F32Bits,
    pub point_num: u32,
    pub ranges: Seq<u16>,
    pub intensities: Seq<u8>,
}

impl View for LidarPointData {
    type V = LidarPointDataView;

    open spec fn view(&self) -> LidarPointDataView {
        LidarPointDataView {
            info: self.info,
            state: self.state,
            param: self.param,
            com_horizontal_angle_start: self.com_horizontal_angle_start,
            com_horizontal_angle_step: self.com_horizontal_angle_step,
            scan_period: self.scan_period,
            range_min: self.range_min,
            range_max: self.range_max,
            angle_min: self.angle_min,
            angle_increment: self.angle_increment,
            time_increment: self.time_increment,
            point_num: self.point_num,
            ranges: self.ranges@,
            intensities: self.intensities@,
        }
    }
}

impl LidarPointData {
    /// The length of the record in bytes.
    pub const LEN: usize = 1020;

    /// The number of readings in a scan line.
    pub const POINTS: usize = 300;

    /// The scan line held by the first 1020 bytes of `s`: the packet
    /// information, the telemetry from offset 16, the calibration from offset
    /// 52, the geometry from offset 84, the ranges from offset 120 and the
    /// intensities from offset 720.
    pub open spec fn spec_decode(s: Seq<u8>) -> LidarPointDataView
        recommends
            s.len() >= Self::LEN,
    {
        LidarPointDataView {
            info: DataInfo::spec_decode(s),
            state: LidarInsideState::spec_decode(s.skip(16)),
            param: LidarCalibParam::spec_decode(s.skip(52)),
            com_horizontal_angle_start: f32_bits_at(s, 84),
            com_horizontal_angle_step: f32_bits_at(s, 88),
            scan_period: f32_bits_at(s, 92),
            range_min: f32_bits_at(s, 96),
            range_max: f32_bits_at(s, 100),
            angle_min: f32_bits_at(s, 104),
            angle_increment: f32_bits_at(s, 108),
            time_increment: f32_bits_at(s, 112),
            point_num: u32_at(s, 116),
            ranges: Seq::new(300, |i: int| u16_at(s, 120 + 2 * i)),
            intensities: s.subrange(720, 1020),
        }
    }

    /// Reads the scan line from the front of `bytes` and hands back the bytes
    /// that follow it. Fails only when `bytes` holds fewer than 1020 bytes.
    pub fn parse(bytes: &[u8]) -> (r: Result<(Self, &[u8]), ParseError>)
        ensures
            value_rest_view(r) == spec_record(bytes@, Self::LEN, Self::spec_decode(bytes@)),
    {
        let (record, remainder) = take(bytes, Self::LEN)?;
        let ghost whole = record@;
        let (info, record) = DataInfo::parse(record)?;
        let (state, record) = LidarInsideState::parse(record)?;
        let (param, record) = LidarCalibParam::parse(record)?;
        assert(record@ == whole.skip(84));
        let (com_horizontal_angle_start, record) = get_f32_bits_le(record);
        let (com_horizontal_angle_step, record) = get_f32_bits_le(record);
        let (scan_period, record) = get_f32_bits_le(record);
        let (range_min, record) = get_f32_bits_le(record);
        let (range_max, record) = get_f32_bits_le(record);
        let (angle_min, record) = get_f32_bits_le(record);
        let (angle_increment, record) = get_f32_bits_le(record);
        let (time_increment, record) = get_f32_bits_le(record);
        let (point_num, record) = get_u32_le(record);
        assert(record@ == whole.skip(120));

        let mut cursor = record;
        let mut ranges: [u16; 300] = [0; 300];
        let mut i: usize = 0;
        while i < 300
            invariant
                i <= 300,
                whole.len() == 1020,
                cursor@ == whole.skip(120 + 2 * i),
                forall|j: int| 0 <= j < i ==> ranges@[j] == u16_at(whole, 120 + 2 * j),
            decreases 300 - i,
        {
            let (range, rest) = get_u16_le(cursor);
            ranges[i] = range;
            cursor = rest;
            i += 1;
        }

        let mut intensities: [u8; 300] = [0; 300];
        let mut i: usize = 0;
        while i < 300
            invariant
                i <= 300,
                whole.len() == 1020,
                cursor@ == whole.skip(720 + i),
                forall|j: int| 0 <= j < i ==> intensities@[j] == whole[720 + j],
            decreases 300 - i,
        {
            let (intensity, rest) = get_u8(cursor);
            intensities[i] = intensity;
            cursor = rest;
            i += 1;
        }
        assert(cursor@.len() == 0);

        let data = LidarPointData {
            info,
            state,
            param,
            com_horizontal_angle_start,
            com_horizontal_angle_step,
            scan_period,
            range_min,
            range_max,
            angle_min,
            angle_increment,
            time_increment,
            point_num,
            ranges,
            intensities,
        };
        proof {
            let model = Self::spec_decode(bytes@);
            assert(data@.ranges =~= model.ranges);
            assert(data@.intensities =~= model.intensities);
        }
        Ok((data, remainder))
    }
}

} // verus!

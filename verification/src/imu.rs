//! The IMU sample: orientation, angular velocity and linear acceleration.

use vstd::prelude::*;

use crate::cursor::{f32_bits_at, get_f32_bits_le, rest_view, spec_record, take, F32Bits};
use crate::error::ParseError;
use crate::info::DataInfo;

verus! {

/// One sample of the inertial measurement unit: 56 bytes on the wire.
#[derive(Debug, Clone, Copy, PartialEq, Eq)]
pub struct LidarImuData {
    /// The packet information.
    pub info: DataInfo,
    /// The orientation as a quaternion.
    pub quaternion: [F32Bits; 4],
    /// The angular velocity about the three axes.
    pub angular_velocity: [F32Bits; 3],
    /// The linear acceleration along the three axes.
    pub linear_acceleration: [F32Bits; 3],
}

impl LidarImuData {
    /// The length of the record in bytes.
    pub const LEN: usize = 56;

    /// The record held by the first 56 bytes of `s`.
    pub open spec fn spec_decode(s: Seq<u8>) -> LidarImuData
        recommends
            s.len() >= Self::LEN,
    {
        LidarImuData {
            info: DataInfo::spec_decode(s),
            quaternion: [
                f32_bits_at(s, 16),
                f32_bits_at(s, 20),
                f32_bits_at(s, 24),
                f32_bits_at(s, 28),
            ],
            angular_velocity: [f32_bits_at(s, 32), f32_bits_at(s, 36), f32_bits_at(s, 40)],
            linear_acceleration: [f32_bits_at(s, 44), f32_bits_at(s, 48), f32_bits_at(s, 52)],
        }
    }

    /// Reads the record from the front of `bytes` and hands back the bytes
    /// that follow it. Fails only when `bytes` holds fewer than 56 bytes.
    pub fn parse(bytes: &[u8]) -> (r: Result<(Self, &[u8]), ParseError>)
        ensures
            rest_view(r) == spec_record(bytes@, Self::LEN, Self::spec_decode(bytes@)),
    {
        let (record, remainder) = take(bytes, Self::LEN)?;
        let (info, record) = DataInfo::parse(record)?;
        let (q0, record) = get_f32_bits_le(record);
        let (q1, record) = get_f32_bits_le(record);
        let (q2, record) = get_f32_bits_le(record);
        let (q3, record) = get_f32_bits_le(record);
        let (w0, record) = get_f32_bits_le(record);
        let (w1, record) = get_f32_bits_le(record);
        let (w2, record) = get_f32_bits_le(record);
        let (a0, record) = get_f32_bits_le(record);
        let (a1, record) = get_f32_bits_le(record);
        let (a2, record) = get_f32_bits_le(record);
        assert(record@.len() == 0);
        let data = LidarImuData {
            info,
            quaternion: [q0, q1, q2, q3],
            angular_velocity: [w0, w1, w2],
            linear_acceleration: [a0, a1, a2],
        };
        proof {
            let model = Self::spec_decode(bytes@);
            assert(data.quaternion =~= model.quaternion);
            assert(data.angular_velocity =~= model.angular_velocity);
            assert(data.linear_acceleration =~= model.linear_acceleration);
        }
        Ok((data, remainder))
    }
}

} // verus!

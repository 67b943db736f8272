//! The work mode: one 32 bit field of configuration flags.

use vstd::prelude::*;
use vstd::std_specs::convert::TryFromSpecImpl;

use crate::cursor::{get_u32_le, rest_view, spec_record, take, u32_at};
use crate::error::{EnumField, ParseError};

verus! {

/// The configuration that the five defined bits of the work mode field select.
#[derive(Debug, Clone, Copy, PartialEq, Eq, Structural)]
pub struct WorkMode {
    /// Bit 0: wide-angle field of view (192 degrees) in place of the standard one (180 degrees).
    pub wide_angle: bool,
    /// Bit 1: 2D measurement in place of 3D measurement.
    pub measure_2d: bool,
    /// Bit 2: the IMU is switched off.
    pub disable_imu: bool,
    /// Bit 3: serial interface in place of Ethernet.
    pub serial_mode: bool,
    /// Bit 4: after power-on the device waits for a start command.
    pub wait_start: bool,
}

impl WorkMode {
    /// Bits 5 to 31, which are reserved and must be zero.
    pub const RESERVED_BITS: u32 = 0xFFFF_FFE0;

    /// The configuration that `flags` stands for; a field with a reserved bit
    /// set is rejected.
    pub open spec fn spec_decode(flags: u32) -> Result<WorkMode, ParseError> {
        if flags & WorkMode::RESERVED_BITS != 0 {
            Err(ParseError::InvalidEnumValue { field: EnumField::WorkModeFlags, value: flags })
        } else {
            Ok(
                WorkMode {
                    wide_angle: flags & 0x01 != 0,
                    measure_2d: flags & 0x02 != 0,
                    disable_imu: flags & 0x04 != 0,
                    serial_mode: flags & 0x08 != 0,
                    wait_start: flags & 0x10 != 0,
                },
            )
        }
    }

    /// The bit field in which exactly the bits of the switched-on flags are set.
    pub open spec fn spec_flags(self) -> u32 {
        ((if self.wide_angle { 0x01int } else { 0 })
            + (if self.measure_2d { 0x02int } else { 0 })
            + (if self.disable_imu { 0x04int } else { 0 })
            + (if self.serial_mode { 0x08int } else { 0 })
            + (if self.wait_start { 0x10int } else { 0 })) as u32
    }

    /// A field decodes exactly when it is below 32, and then the decoded flags
    /// name its bits: putting them together again gives the field back.
    pub proof fn lemma_decode_flags(flags: u32)
        ensures
            WorkMode::spec_decode(flags) is Ok <==> flags < 32,
            WorkMode::spec_decode(flags) is Ok ==> WorkMode::spec_decode(flags).unwrap().spec_flags()
                == flags,
    {
        assert((flags & 0xFFFF_FFE0 != 0) <==> flags >= 32) by (bit_vector);
        assert(flags < 32 ==> flags == (if flags & 0x01 != 0 { 0x01u32 } else { 0 }) + (if flags
            & 0x02 != 0 { 0x02u32 } else { 0 }) + (if flags & 0x04 != 0 { 0x04u32 } else { 0 }) + (
        if flags & 0x08 != 0 { 0x08u32 } else { 0 }) + (if flags & 0x10 != 0 { 0x10u32 } else {
            0
        })) by (bit_vector);
    }

    /// Every configuration is the decoding of its bit field.
    pub proof fn lemma_flags_decode(mode: WorkMode)
        ensures
            WorkMode::spec_decode(mode.spec_flags()) == Ok::<WorkMode, ParseError>(mode),
    {
        let flags = mode.spec_flags();
        assert(flags < 32);
        Self::lemma_decode_flags(flags);
        let back = WorkMode::spec_decode(flags).unwrap();
        assert(back.spec_flags() == flags);
    }
}

impl TryFromSpecImpl<LidarWorkModeConfig> for WorkMode {
    open spec fn obeys_try_from_spec() -> bool {
        true
    }

    open spec fn try_from_spec(config: LidarWorkModeConfig) -> Result<Self, ParseError> {
        WorkMode::spec_decode(config.mode)
    }
}

impl TryFrom<LidarWorkModeConfig> for WorkMode {
    type Error = ParseError;

    /// Turns the bit field into the configuration it stands for.
    fn try_from(config: LidarWorkModeConfig) -> (r: Result<Self, ParseError>)
        ensures
            r == WorkMode::spec_decode(config.mode),
    {
        let flags = config.mode;
        if flags & WorkMode::RESERVED_BITS != 0 {
            return Err(
                ParseError::InvalidEnumValue { field: EnumField::WorkModeFlags, value: flags },
            );
        }
        Ok(
            WorkMode {
                wide_angle: flags & 0x01 != 0,
                measure_2d: flags & 0x02 != 0,
                disable_imu: flags & 0x04 != 0,
                serial_mode: flags & 0x08 != 0,
                wait_start: flags & 0x10 != 0,
            },
        )
    }
}

/// The work mode as it lies on the wire: 4 bytes.
#[derive(Debug, Clone, Copy, PartialEq, Eq, Structural)]
pub struct LidarWorkModeConfig {
    /// The bit field.
    pub mode: u32,
}

impl LidarWorkModeConfig {
    /// The length of the record in bytes.
    pub const LEN: usize = 4;

    /// The record held by the first 4 bytes of `s`.
    pub open spec fn spec_decode(s: Seq<u8>) -> LidarWorkModeConfig
        recommends
            s.len() >= Self::LEN,
    {
        LidarWorkModeConfig { mode: u32_at(s, 0) }
    }

    /// Reads the record from the front of `bytes` and hands back the bytes
    /// that follow it. Fails only when `bytes` holds fewer than 4 bytes.
    pub fn parse(bytes: &[u8]) -> (r: Result<(Self, &[u8]), ParseError>)
        ensures
            rest_view(r) == spec_record(bytes@, Self::LEN, Self::spec_decode(bytes@)),
    {
        let (record, remainder) = take(bytes, Self::LEN)?;
        let (mode, record) = get_u32_le(record);
        assert(record@.len() == 0);
        Ok((LidarWorkModeConfig { mode }, remainder))
    }
}

} // verus!

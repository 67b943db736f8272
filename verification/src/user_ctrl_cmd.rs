//! The user control command: an 8-byte record of a command type and a value,
//! and the command it stands for.

use vstd::prelude::*;
use vstd::std_specs::convert::TryFromSpecImpl;

use crate::cursor::{get_u32_le, rest_view, spec_record, take, u32_at};
use crate::error::{DispatchContext, EnumField, ParseError};

verus! {

/// What the device does when it is told to change its standby mode.
#[derive(Debug, Clone, Copy, PartialEq, Eq, Structural)]
pub enum StandbyType {
    /// Value 0: start rotating and measuring.
    Start,
    /// Value 1: go to standby.
    Standby,
}

impl StandbyType {
    /// The number that stands for this mode on the wire.
    pub open spec fn spec_code(self) -> u32 {
        match self {
            StandbyType::Start => 0,
            StandbyType::Standby => 1,
        }
    }

    /// The mode that `value` stands for, if it stands for one.
    pub open spec fn spec_decode(value: u32) -> Result<StandbyType, ParseError> {
        if value == 0 {
            Ok(StandbyType::Start)
        } else if value == 1 {
            Ok(StandbyType::Standby)
        } else {
            Err(ParseError::InvalidEnumValue { field: EnumField::StandbyMode, value })
        }
    }

    /// The number that stands for this mode on the wire.
    #[verifier::when_used_as_spec(spec_code)]
    pub fn code(self) -> (code: u32)
        ensures
            code == self.spec_code(),
    {
        match self {
            StandbyType::Start => 0,
            StandbyType::Standby => 1,
        }
    }
}

impl TryFromSpecImpl<u32> for StandbyType {
    open spec fn obeys_try_from_spec() -> bool {
        true
    }

    open spec fn try_from_spec(value: u32) -> Result<Self, ParseError> {
        StandbyType::spec_decode(value)
    }
}

impl TryFrom<u32> for StandbyType {
    type Error = ParseError;

    /// Decodes a standby mode; any value but 0 and 1 is rejected.
    fn try_from(value: u32) -> (r: Result<Self, ParseError>)
        ensures
            r == StandbyType::spec_decode(value),
    {
        match value {
            0 => Ok(StandbyType::Start),
            1 => Ok(StandbyType::Standby),
            _ => Err(ParseError::InvalidEnumValue { field: EnumField::StandbyMode, value }),
        }
    }
}

/// A command sent by the user, selected by the command type of the record;
/// each variant carries the record's value.
#[derive(Debug, Clone, Copy, PartialEq, Eq, Structural)]
pub enum UserCmd {
    ResetType(u32),
    StandbyType(StandbyType),
    VersionGet(u32),
    LatencyType(u32),
    ConfigReset(u32),
    ConfigGet(u32),
    ConfigAutoStandby(u32),
}

impl UserCmd {
    pub const RESET_TYPE: u32 = 1;

    pub const STANDBY_TYPE: u32 = 2;

    pub const VERSION_GET: u32 = 3;

    pub const LATENCY_TYPE: u32 = 4;

    pub const CONFIG_RESET: u32 = 5;

    pub const CONFIG_GET: u32 = 6;

    pub const CONFIG_AUTO_STANDBY: u32 = 7;

    /// The command that the type `typ` and the value `value` stand for, if
    /// they stand for one.
    pub open spec fn spec_decode(typ: u32, value: u32) -> Result<UserCmd, ParseError> {
        if typ == UserCmd::RESET_TYPE {
            Ok(UserCmd::ResetType(value))
        } else if typ == UserCmd::STANDBY_TYPE {
            match StandbyType::spec_decode(value) {
                Ok(mode) => Ok(UserCmd::StandbyType(mode)),
                Err(e) => Err(e),
            }
        } else if typ == UserCmd::VERSION_GET {
            Ok(UserCmd::VersionGet(value))
        } else if typ == UserCmd::LATENCY_TYPE {
            Ok(UserCmd::LatencyType(value))
        } else if typ == UserCmd::CONFIG_RESET {
            Ok(UserCmd::ConfigReset(value))
        } else if typ == UserCmd::CONFIG_GET {
            Ok(UserCmd::ConfigGet(value))
        } else if typ == UserCmd::CONFIG_AUTO_STANDBY {
            Ok(UserCmd::ConfigAutoStandby(value))
        } else {
            Err(ParseError::UnknownSubCommand { type_code: typ, context: DispatchContext::UserCmd })
        }
    }
}

impl TryFromSpecImpl<(u32, u32)> for UserCmd {
    open spec fn obeys_try_from_spec() -> bool {
        true
    }

    open spec fn try_from_spec(pair: (u32, u32)) -> Result<Self, ParseError> {
        UserCmd::spec_decode(pair.0, pair.1)
    }
}

impl TryFrom<(u32, u32)> for UserCmd {
    type Error = ParseError;

    /// Turns a command type and a value into the command they stand for. A
    /// type outside 1 to 7 is rejected, and so is a standby mode outside 0 and 1.
    fn try_from(pair: (u32, u32)) -> (r: Result<Self, ParseError>)
        ensures
            r == UserCmd::spec_decode(pair.0, pair.1),
    {
        let (typ, value) = pair;
        match typ {
            1 => Ok(UserCmd::ResetType(value)),
            2 => Ok(UserCmd::StandbyType(StandbyType::try_from(value)?)),
            3 => Ok(UserCmd::VersionGet(value)),
            4 => Ok(UserCmd::LatencyType(value)),
            5 => Ok(UserCmd::ConfigReset(value)),
            6 => Ok(UserCmd::ConfigGet(value)),
            7 => Ok(UserCmd::ConfigAutoStandby(value)),
            unknown => Err(
                ParseError::UnknownSubCommand {
                    type_code: unknown,
                    context: DispatchContext::UserCmd,
                },
            ),
        }
    }
}

impl TryFromSpecImpl<LidarUserCtrlCmd> for UserCmd {
    open spec fn obeys_try_from_spec() -> bool {
        true
    }

    open spec fn try_from_spec(cmd: LidarUserCtrlCmd) -> Result<Self, ParseError> {
        UserCmd::spec_decode(cmd.cmd_type, cmd.cmd_value)
    }
}

impl TryFrom<LidarUserCtrlCmd> for UserCmd {
    type Error = ParseError;

    /// Turns a decoded record into the command it stands for.
    fn try_from(cmd: LidarUserCtrlCmd) -> (r: Result<Self, ParseError>)
        ensures
            r == UserCmd::spec_decode(cmd.cmd_type, cmd.cmd_value),
    {
        UserCmd::try_from((cmd.cmd_type, cmd.cmd_value))
    }
}

/// The user control command as it lies on the wire: 8 bytes.
#[derive(Debug, Clone, Copy, PartialEq, Eq, Structural)]
pub struct LidarUserCtrlCmd {
    /// Selects the command.
    pub cmd_type: u32,
    /// The command's argument.
    pub cmd_value: u32,
}

impl LidarUserCtrlCmd {
    /// The length of the record in bytes.
    pub const LEN: usize = 8;

    /// The record held by the first 8 bytes of `s`.
    pub open spec fn spec_decode(s: Seq<u8>) -> LidarUserCtrlCmd
        recommends
            s.len() >= Self::LEN,
    {
        LidarUserCtrlCmd { cmd_type: u32_at(s, 0), cmd_value: u32_at(s, 4) }
    }

    /// Reads the record from the front of `bytes` and hands back the bytes
    /// that follow it. Fails only when `bytes` holds fewer than 8 bytes.
    pub fn parse(bytes: &[u8]) -> (r: Result<(Self, &[u8]), ParseError>)
        ensures
            rest_view(r) == spec_record(bytes@, Self::LEN, Self::spec_decode(bytes@)),
    {
        let (record, remainder) = take(bytes, Self::LEN)?;
        let (cmd_type, record) = get_u32_le(record);
        let (cmd_value, record) = get_u32_le(record);
        assert(record@.len() == 0);
        Ok((LidarUserCtrlCmd { cmd_type, cmd_value }, remainder))
    }
}

} // verus!

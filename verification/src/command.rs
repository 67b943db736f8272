//! The device command: an 8-byte record of a command type and a value, and
//! the command it stands for.

use vstd::prelude::*;
use vstd::std_specs::convert::TryFromSpecImpl;

use crate::cursor::{get_u32_le, rest_view, spec_record, take, u32_at};
use crate::error::{DispatchContext, ParseError};

verus! {

/// A device command, selected by the command type of the record; each
/// variant carries the record's value.
#[derive(Debug, Clone, Copy, PartialEq, Eq, Structural)]
pub enum Command {
    ResetType(u32),
    ParamSave(u32),
    ParamGet(u32),
    VersionGet(u32),
    StandbyType(u32),
    LatencyType(u32),
    ConfigReset(u32),
}

impl Command {
    pub const RESET_TYPE: u32 = 1;

    pub const PARAM_SAVE: u32 = 2;

    pub const PARAM_GET: u32 = 3;

    pub const VERSION_GET: u32 = 4;

    pub const STANDBY_TYPE: u32 = 5;

    pub const LATENCY_TYPE: u32 = 6;

    pub const CONFIG_RESET: u32 = 7;

    /// The command that the type `typ` and the value `value` stand for, if
    /// they stand for one.
    pub open spec fn spec_decode(typ: u32, value: u32) -> Result<Command, ParseError> {
        if typ == Command::RESET_TYPE {
            Ok(Command::ResetType(value))
        } else if typ == Command::PARAM_SAVE {
            Ok(Command::ParamSave(value))
        } else if typ == Command::PARAM_GET {
            Ok(Command::ParamGet(value))
        } else if typ == Command::VERSION_GET {
            Ok(Command::VersionGet(value))
        } else if typ == Command::STANDBY_TYPE {
            Ok(Command::StandbyType(value))
        } else if typ == Command::LATENCY_TYPE {
            Ok(Command::LatencyType(value))
        } else if typ == Command::CONFIG_RESET {
            Ok(Command::ConfigReset(value))
        } else {
            Err(ParseError::UnknownSubCommand { type_code: typ, context: DispatchContext::Command })
        }
    }
}

impl TryFromSpecImpl<(u32, u32)> for Command {
    open spec fn obeys_try_from_spec() -> bool {
        true
    }

    open spec fn try_from_spec(pair: (u32, u32)) -> Result<Self, ParseError> {
        Command::spec_decode(pair.0, pair.1)
    }
}

impl TryFrom<(u32, u32)> for Command {
    type Error = ParseError;

    /// Turns a command type and a value into the command they stand for. A
    /// type outside 1 to 7 is rejected.
    fn try_from(pair: (u32, u32)) -> (r: Result<Self, ParseError>)
        ensures
            r == Command::spec_decode(pair.0, pair.1),
    {
        let (typ, value) = pair;
        match typ {
            1 => Ok(Command::ResetType(value)),
            2 => Ok(Command::ParamSave(value)),
            3 => Ok(Command::ParamGet(value)),
            4 => Ok(Command::VersionGet(value)),
            5 => Ok(Command::StandbyType(value)),
            6 => Ok(Command::LatencyType(value)),
            7 => Ok(Command::ConfigReset(value)),
            unknown => Err(
                ParseError::UnknownSubCommand {
                    type_code: unknown,
                    context: DispatchContext::Command,
                },
            ),
        }
    }
}

impl TryFromSpecImpl<LidarCommand> for Command {
    open spec fn obeys_try_from_spec() -> bool {
        true
    }

    open spec fn try_from_spec(cmd: LidarCommand) -> Result<Self, ParseError> {
        Command::spec_decode(cmd.cmd_type, cmd.cmd_value)
    }
}

impl TryFrom<LidarCommand> for Command {
    type Error = ParseError;

    /// Turns a decoded record into the command it stands for.
    fn try_from(cmd: LidarCommand) -> (r: Result<Self, ParseError>)
        ensures
            r == Command::spec_decode(cmd.cmd_type, cmd.cmd_value),
    {
        Command::try_from((cmd.cmd_type, cmd.cmd_value))
    }
}

/// The device command as it lies on the wire: 8 bytes.
#[derive(Debug, Clone, Copy, PartialEq, Eq, Structural)]
pub struct LidarCommand {
    /// Selects the command.
    pub cmd_type: u32,
    /// The command's argument.
    pub cmd_value: u32,
}

impl LidarCommand {
    /// The length of the record in bytes.
    pub const LEN: usize = 8;

    /// The record held by the first 8 bytes of `s`.
    pub open spec fn spec_decode(s: Seq<u8>) -> LidarCommand
        recommends
            s.len() >= Self::LEN,
    {
        LidarCommand { cmd_type: u32_at(s, 0), cmd_value: u32_at(s, 4) }
    }

    /// Reads the record from the front of `bytes` and hands back the bytes
    /// that follow it. Fails only when `bytes` holds fewer than 8 bytes.
    pub fn parse(bytes: &[u8]) -> (r: Result<(Self, &[u8]), ParseError>)
        ensures
            rest_view(r) == spec_record(bytes@, Self::LEN, Self::spec_decode(bytes@)),
    {
        let (record, remainder) = take(bytes, Self::LEN)?;
        let (cmd_type, record) = get_u32_le(record);
        let (cmd_value, record) = get_u32_le(record);
        assert(record@.len() == 0);
        Ok((LidarCommand { cmd_type, cmd_value }, remainder))
    }
}

} // verus!

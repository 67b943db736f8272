//! The acknowledgement with which the device answers a packet: a 16-byte
//! record that echoes what was received and tells how it went.

use vstd::prelude::*;
use vstd::std_specs::convert::TryFromSpecImpl;

use crate::command::Command;
use crate::cursor::{get_u32_le, rest_view, spec_record, take, u32_at};
use crate::error::{DispatchContext, EnumField, ParseError};
use crate::packet::PacketType;
use crate::user_ctrl_cmd::UserCmd;

verus! {

/// How the device fared with the packet it acknowledges.
#[derive(Debug, Clone, Copy, PartialEq, Eq, Structural)]
pub enum AckStatus {
    Success,
    CrcError,
    HeaderError,
    BlockError,
    /// The data is not ready.
    WaitError,
}

impl AckStatus {
    pub const SUCCESS: u32 = 1;

    pub const CRC_ERROR: u32 = 2;

    pub const HEADER_ERROR: u32 = 3;

    pub const BLOCK_ERROR: u32 = 4;

    pub const WAIT_ERROR: u32 = 5;

    /// The number that stands for this status on the wire.
    pub open spec fn spec_code(self) -> u32 {
        match self {
            AckStatus::Success => AckStatus::SUCCESS,
            AckStatus::CrcError => AckStatus::CRC_ERROR,
            AckStatus::HeaderError => AckStatus::HEADER_ERROR,
            AckStatus::BlockError => AckStatus::BLOCK_ERROR,
            AckStatus::WaitError => AckStatus::WAIT_ERROR,
        }
    }

    /// The number that stands for this status on the wire.
    #[verifier::when_used_as_spec(spec_code)]
    pub fn code(self) -> (code: u32)
        ensures
            code == self.spec_code(),
    {
        match self {
            AckStatus::Success => 1,
            AckStatus::CrcError => 2,
            AckStatus::HeaderError => 3,
            AckStatus::BlockError => 4,
            AckStatus::WaitError => 5,
        }
    }

    /// The status that `value` stands for; any value outside 1 to 5 is rejected.
    pub open spec fn spec_decode(value: u32) -> Result<AckStatus, ParseError> {
        if value == AckStatus::SUCCESS {
            Ok(AckStatus::Success)
        } else if value == AckStatus::CRC_ERROR {
            Ok(AckStatus::CrcError)
        } else if value == AckStatus::HEADER_ERROR {
            Ok(AckStatus::HeaderError)
        } else if value == AckStatus::BLOCK_ERROR {
            Ok(AckStatus::BlockError)
        } else if value == AckStatus::WAIT_ERROR {
            Ok(AckStatus::WaitError)
        } else {
            Err(ParseError::InvalidEnumValue { field: EnumField::AckStatus, value })
        }
    }

    /// Decoding the code of a status gives the status back; a value decodes
    /// exactly when it lies in 1 to 5, and then it is the code of what it decodes to.
    pub proof fn lemma_code_round_trip(status: AckStatus, value: u32)
        ensures
            AckStatus::spec_decode(status.spec_code()) == Ok::<AckStatus, ParseError>(status),
            AckStatus::spec_decode(value) is Ok <==> 1 <= value <= 5,
            AckStatus::spec_decode(value) is Ok ==> AckStatus::spec_decode(value).unwrap().spec_code()
                == value,
    {
    }
}

impl TryFromSpecImpl<u32> for AckStatus {
    open spec fn obeys_try_from_spec() -> bool {
        true
    }

    open spec fn try_from_spec(value: u32) -> Result<Self, ParseError> {
        AckStatus::spec_decode(value)
    }
}

impl TryFrom<u32> for AckStatus {
    type Error = ParseError;

    /// Decodes an execution result.
    fn try_from(value: u32) -> (r: Result<Self, ParseError>)
        ensures
            r == AckStatus::spec_decode(value),
    {
        match value {
            1 => Ok(AckStatus::Success),
            2 => Ok(AckStatus::CrcError),
            3 => Ok(AckStatus::HeaderError),
            4 => Ok(AckStatus::BlockError),
            5 => Ok(AckStatus::WaitError),
            unknown => Err(
                ParseError::InvalidEnumValue { field: EnumField::AckStatus, value: unknown },
            ),
        }
    }
}

/// An acknowledgement, keyed by the type of the packet it answers.
#[allow(inconsistent_fields)]
#[derive(Debug, Clone, Copy, PartialEq, Eq, Structural)]
pub enum Ack {
    /// Answers a user control command.
    UserCmd { cmd: UserCmd, status: AckStatus },
    /// Answers a device command.
    Command { cmd: Command, status: AckStatus },
    /// Answers a work mode packet; type and value are carried as they came.
    WorkMode { cmd_type: u32, cmd_value: u32, status: AckStatus },
}

impl Ack {
    /// The acknowledgement that `data` stands for. The status is looked at
    /// first; then the echoed packet type selects the variant, and for the two
    /// command kinds the echoed type and value must stand for a command.
    pub open spec fn spec_decode(data: LidarAckData) -> Result<Ack, ParseError> {
        match AckStatus::spec_decode(data.status) {
            Err(e) => Err(e),
            Ok(status) => {
                if data.packet_type == PacketType::LIDAR_USER_CMD {
                    match UserCmd::spec_decode(data.cmd_type, data.cmd_value) {
                        Ok(cmd) => Ok(Ack::UserCmd { cmd, status }),
                        Err(e) => Err(e),
                    }
                } else if data.packet_type == PacketType::LIDAR_COMMAND {
                    match Command::spec_decode(data.cmd_type, data.cmd_value) {
                        Ok(cmd) => Ok(Ack::Command { cmd, status }),
                        Err(e) => Err(e),
                    }
                } else if data.packet_type == PacketType::LIDAR_WORK_MODE {
                    Ok(Ack::WorkMode { cmd_type: data.cmd_type, cmd_value: data.cmd_value, status })
                } else {
                    Err(
                        ParseError::UnknownSubCommand {
                            type_code: data.packet_type,
                            context: DispatchContext::Ack,
                        },
                    )
                }
            },
        }
    }
}

impl TryFromSpecImpl<LidarAckData> for Ack {
    open spec fn obeys_try_from_spec() -> bool {
        true
    }

    open spec fn try_from_spec(data: LidarAckData) -> Result<Self, ParseError> {
        Ack::spec_decode(data)
    }
}

impl TryFrom<LidarAckData> for Ack {
    type Error = ParseError;

    /// Turns a decoded record into the acknowledgement it stands for.
    fn try_from(data: LidarAckData) -> (r: Result<Self, ParseError>)
        ensures
            r == Ack::spec_decode(data),
    {
        let status = AckStatus::try_from(data.status)?;
        match data.packet_type {
            100 => Ok(
                Ack::UserCmd { cmd: UserCmd::try_from((data.cmd_type, data.cmd_value))?, status },
            ),
            2000 => Ok(
                Ack::Command { cmd: Command::try_from((data.cmd_type, data.cmd_value))?, status },
            ),
            2002 => Ok(
                Ack::WorkMode { cmd_type: data.cmd_type, cmd_value: data.cmd_value, status },
            ),
            unknown => Err(
                ParseError::UnknownSubCommand { type_code: unknown, context: DispatchContext::Ack },
            ),
        }
    }
}

/// The acknowledgement as it lies on the wire: 16 bytes.
#[derive(Debug, Clone, Copy, PartialEq, Eq, Structural)]
pub struct LidarAckData {
    /// The type of the packet that the device received.
    pub packet_type: u32,
    /// The command type that the device received.
    pub cmd_type: u32,
    /// The command value that the device received.
    pub cmd_value: u32,
    /// The execution result.
    pub status: u32,
}

impl LidarAckData {
    /// The length of the record in bytes.
    pub const LEN: usize = 16;

    /// The record held by the first 16 bytes of `s`.
    pub open spec fn spec_decode(s: Seq<u8>) -> LidarAckData
        recommends
            s.len() >= Self::LEN,
    {
        LidarAckData {
            packet_type: u32_at(s, 0),
            cmd_type: u32_at(s, 4),
            cmd_value: u32_at(s, 8),
            status: u32_at(s, 12),
        }
    }

    /// Reads the record from the front of `bytes` and hands back the bytes
    /// that follow it. Fails only when `bytes` holds fewer than 16 bytes.
    pub fn parse(bytes: &[u8]) -> (r: Result<(Self, &[u8]), ParseError>)
        ensures
            rest_view(r) == spec_record(bytes@, Self::LEN, Self::spec_decode(bytes@)),
    {
        let (record, remainder) = take(bytes, Self::LEN)?;
        let (packet_type, record) = get_u32_le(record);
        let (cmd_type, record) = get_u32_le(record);
        let (cmd_value, record) = get_u32_le(record);
        let (status, record) = get_u32_le(record);
        assert(record@.len() == 0);
        Ok((LidarAckData { packet_type, cmd_type, cmd_value, status }, remainder))
    }
}

} // verus!

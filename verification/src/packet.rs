//! The packet kinds and the packet that a frame carries.

use vstd::prelude::*;
use vstd::slice::slice_to_vec;
use vstd::std_specs::convert::TryFromSpecImpl;

use crate::ack::{Ack, LidarAckData};
use crate::command::{Command, LidarCommand};
use crate::cursor::{spec_record, u32_at, value_rest_view};
use crate::error::ParseError;
use crate::frame::{
    announced_size,
    decode_frame,
    lemma_frame_by_offsets,
    payload_of,
    spec_decode_frame,
    starts_with_frame,
};
use crate::imu::LidarImuData;
use crate::point_data::{LidarPointData, LidarPointDataView};
use crate::user_ctrl_cmd::{LidarUserCtrlCmd, UserCmd};
use crate::version::{LidarVersionData, LidarVersionDataView, Version, VersionView};
use crate::work_mode::{LidarWorkModeConfig, WorkMode};

verus! {

/// The kinds of packet, one for each known packet type code.
#[derive(Debug, Clone, Copy, PartialEq, Eq, Structural)]
pub enum PacketType {
    LidarUserCmd,
    LidarAckData,
    LidarPointData,
    Lidar2DPointData,
    LidarImuData,
    LidarVersion,
    LidarTimeStamp,
    LidarWorkModeConfig,
    LidarIpAddressConfig,
    LidarMacAddressConfig,
    LidarCommand,
    LidarParamData,
    LidarWorkMode,
}

impl PacketType {
    pub const LIDAR_USER_CMD: u32 = 100;

    pub const LIDAR_ACK_DATA: u32 = 101;

    pub const LIDAR_POINT_DATA: u32 = 102;

    pub const LIDAR_2D_POINT_DATA: u32 = 103;

    pub const LIDAR_IMU_DATA: u32 = 104;

    pub const LIDAR_VERSION: u32 = 105;

    pub const LIDAR_TIME_STAMP: u32 = 106;

    pub const LIDAR_WORK_MODE_CONFIG: u32 = 107;

    pub const LIDAR_IP_ADDRESS_CONFIG: u32 = 108;

    pub const LIDAR_MAC_ADDRESS_CONFIG: u32 = 109;

    pub const LIDAR_COMMAND: u32 = 2000;

    pub const LIDAR_PARAM_DATA: u32 = 2001;

    /// Provisional: this code has not been confirmed on a device.
    pub const LIDAR_WORK_MODE: u32 = 2002;

    /// The code that stands for this kind in a frame header.
    pub open spec fn spec_code(self) -> u32 {
        match self {
            PacketType::LidarUserCmd => PacketType::LIDAR_USER_CMD,
            PacketType::LidarAckData => PacketType::LIDAR_ACK_DATA,
            PacketType::LidarPointData => PacketType::LIDAR_POINT_DATA,
            PacketType::Lidar2DPointData => PacketType::LIDAR_2D_POINT_DATA,
            PacketType::LidarImuData => PacketType::LIDAR_IMU_DATA,
            PacketType::LidarVersion => PacketType::LIDAR_VERSION,
            PacketType::LidarTimeStamp => PacketType::LIDAR_TIME_STAMP,
            PacketType::LidarWorkModeConfig => PacketType::LIDAR_WORK_MODE_CONFIG,
            PacketType::LidarIpAddressConfig => PacketType::LIDAR_IP_ADDRESS_CONFIG,
            PacketType::LidarMacAddressConfig => PacketType::LIDAR_MAC_ADDRESS_CONFIG,
            PacketType::LidarCommand => PacketType::LIDAR_COMMAND,
            PacketType::LidarParamData => PacketType::LIDAR_PARAM_DATA,
            PacketType::LidarWorkMode => PacketType::LIDAR_WORK_MODE,
        }
    }

    /// The code that stands for this kind in a frame header.
    #[verifier::when_used_as_spec(spec_code)]
    pub fn code(self) -> (code: u32)
        ensures
            code == self.spec_code(),
    {
        match self {
            PacketType::LidarUserCmd => 100,
            PacketType::LidarAckData => 101,
            PacketType::LidarPointData => 102,
            PacketType::Lidar2DPointData => 103,
            PacketType::LidarImuData => 104,
            PacketType::LidarVersion => 105,
            PacketType::LidarTimeStamp => 106,
            PacketType::LidarWorkModeConfig => 107,
            PacketType::LidarIpAddressConfig => 108,
            PacketType::LidarMacAddressConfig => 109,
            PacketType::LidarCommand => 2000,
            PacketType::LidarParamData => 2001,
            PacketType::LidarWorkMode => 2002,
        }
    }

    /// Whether `code` is one of the thirteen known packet type codes.
    pub open spec fn known(code: u32) -> bool {
        100 <= code <= 109 || 2000 <= code <= 2002
    }

    /// The kind that `code` stands for; any code outside the table is rejected.
    pub open spec fn spec_decode(code: u32) -> Result<PacketType, ParseError> {
        if code == PacketType::LIDAR_USER_CMD {
            Ok(PacketType::LidarUserCmd)
        } else if code == PacketType::LIDAR_ACK_DATA {
            Ok(PacketType::LidarAckData)
        } else if code == PacketType::LIDAR_POINT_DATA {
            Ok(PacketType::LidarPointData)
        } else if code == PacketType::LIDAR_2D_POINT_DATA {
            Ok(PacketType::Lidar2DPointData)
        } else if code == PacketType::LIDAR_IMU_DATA {
            Ok(PacketType::LidarImuData)
        } else if code == PacketType::LIDAR_VERSION {
            Ok(PacketType::LidarVersion)
        } else if code == PacketType::LIDAR_TIME_STAMP {
            Ok(PacketType::LidarTimeStamp)
        } else if code == PacketType::LIDAR_WORK_MODE_CONFIG {
            Ok(PacketType::LidarWorkModeConfig)
        } else if code == PacketType::LIDAR_IP_ADDRESS_CONFIG {
            Ok(PacketType::LidarIpAddressConfig)
        } else if code == PacketType::LIDAR_MAC_ADDRESS_CONFIG {
            Ok(PacketType::LidarMacAddressConfig)
        } else if code == PacketType::LIDAR_COMMAND {
            Ok(PacketType::LidarCommand)
        } else if code == PacketType::LIDAR_PARAM_DATA {
            Ok(PacketType::LidarParamData)
        } else if code == PacketType::LIDAR_WORK_MODE {
            Ok(PacketType::LidarWorkMode)
        } else {
            Err(ParseError::UnknownPacketType(code))
        }
    }

    /// Decoding the code of a kind gives the kind back; a code decodes exactly
    /// when it is known, and then it is the code of the kind it decodes to.
    pub proof fn lemma_code_round_trip(kind: PacketType, code: u32)
        ensures
            PacketType::spec_decode(kind.spec_code()) == Ok::<PacketType, ParseError>(kind),
            PacketType::spec_decode(code) is Ok <==> PacketType::known(code),
            PacketType::spec_decode(code) is Ok ==> PacketType::spec_decode(code).unwrap().spec_code()
                == code,
    {
    }
}

impl TryFromSpecImpl<u32> for PacketType {
    open spec fn obeys_try_from_spec() -> bool {
        true
    }

    open spec fn try_from_spec(code: u32) -> Result<Self, ParseError> {
        PacketType::spec_decode(code)
    }
}

impl TryFrom<u32> for PacketType {
    type Error = ParseError;

    /// Looks a packet type code up in the table of known codes.
    fn try_from(code: u32) -> (r: Result<Self, ParseError>)
        ensures
            r == PacketType::spec_decode(code),
    {
        match code {
            100 => Ok(PacketType::LidarUserCmd),
            101 => Ok(PacketType::LidarAckData),
            102 => Ok(PacketType::LidarPointData),
            103 => Ok(PacketType::Lidar2DPointData),
            104 => Ok(PacketType::LidarImuData),
            105 => Ok(PacketType::LidarVersion),
            106 => Ok(PacketType::LidarTimeStamp),
            107 => Ok(PacketType::LidarWorkModeConfig),
            108 => Ok(PacketType::LidarIpAddressConfig),
            109 => Ok(PacketType::LidarMacAddressConfig),
            2000 => Ok(PacketType::LidarCommand),
            2001 => Ok(PacketType::LidarParamData),
            2002 => Ok(PacketType::LidarWorkMode),
            unknown => Err(ParseError::UnknownPacketType(unknown)),
        }
    }
}

/// A decoded packet. The kinds whose layout has not been confirmed on a
/// device carry their payload as it came.
#[derive(Debug, Clone, PartialEq, Eq)]
pub enum Packet {
    /// Code 100: a command of the user.
    LidarUserCmd(UserCmd),
    /// Code 101: the answer of the device to a packet.
    LidarAckData(Ack),
    /// Code 102: one scan line.
    LidarPointData(Box<LidarPointData>),
    /// Code 103: a 2D scan, as raw payload.
    Lidar2DPointData(Vec<u8>),
    /// Code 104: one IMU sample.
    LidarImuData(LidarImuData),
    /// Code 105: the version of the device.
    LidarVersion(Version),
    /// Code 106: a time stamp, as raw payload.
    LidarTimeStamp(Vec<u8>),
    /// Code 107: the work mode that the device is configured with.
    LidarWorkModeConfig(WorkMode),
    /// Code 108: the IP configuration, as raw payload.
    LidarIpAddressConfig(Vec<u8>),
    /// Code 109: the MAC address configuration, as raw payload.
    LidarMacAddressConfig(Vec<u8>),
    /// Code 2000: a command to the device.
    LidarCommand(Command),
    /// Code 2001: parameter data, as raw payload.
    LidarParamData(Vec<u8>),
    /// Code 2002: a work mode.
    LidarWorkMode(WorkMode),
}

/// A packet as a mathematical value.
pub enum PacketView {
    LidarUserCmd(UserCmd),
    LidarAckData(Ack),
    LidarPointData(LidarPointDataView),
    Lidar2DPointData(Seq<u8>),
    LidarImuData(LidarImuData),
    LidarVersion(VersionView),
    LidarTimeStamp(Seq<u8>),
    LidarWorkModeConfig(WorkMode),
    LidarIpAddressConfig(Seq<u8>),
    LidarMacAddressConfig(Seq<u8>),
    LidarCommand(Command),
    LidarParamData(Seq<u8>),
    LidarWorkMode(WorkMode),
}

impl PacketView {
    /// The kind of the packet.
    pub open spec fn kind(self) -> PacketType {
        match self {
            PacketView::LidarUserCmd(_) => PacketType::LidarUserCmd,
            PacketView::LidarAckData(_) => PacketType::LidarAckData,
            PacketView::LidarPointData(_) => PacketType::LidarPointData,
            PacketView::Lidar2DPointData(_) => PacketType::Lidar2DPointData,
            PacketView::LidarImuData(_) => PacketType::LidarImuData,
            PacketView::LidarVersion(_) => PacketType::LidarVersion,
            PacketView::LidarTimeStamp(_) => PacketType::LidarTimeStamp,
            PacketView::LidarWorkModeConfig(_) => PacketType::LidarWorkModeConfig,
            PacketView::LidarIpAddressConfig(_) => PacketType::LidarIpAddressConfig,
            PacketView::LidarMacAddressConfig(_) => PacketType::LidarMacAddressConfig,
            PacketView::LidarCommand(_) => PacketType::LidarCommand,
            PacketView::LidarParamData(_) => PacketType::LidarParamData,
            PacketView::LidarWorkMode(_) => PacketType::LidarWorkMode,
        }
    }
}

impl View for Packet {
    type V = PacketView;

    open spec fn view(&self) -> PacketView {
        match self {
            Packet::LidarUserCmd(cmd) => PacketView::LidarUserCmd(*cmd),
            Packet::LidarAckData(ack) => PacketView::LidarAckData(*ack),
            Packet::LidarPointData(data) => PacketView::LidarPointData((**data)@),
            Packet::Lidar2DPointData(raw) => PacketView::Lidar2DPointData(raw@),
            Packet::LidarImuData(data) => PacketView::LidarImuData(*data),
            Packet::LidarVersion(version) => PacketView::LidarVersion(version@),
            Packet::LidarTimeStamp(raw) => PacketView::LidarTimeStamp(raw@),
            Packet::LidarWorkModeConfig(mode) => PacketView::LidarWorkModeConfig(*mode),
            Packet::LidarIpAddressConfig(raw) => PacketView::LidarIpAddressConfig(raw@),
            Packet::LidarMacAddressConfig(raw) => PacketView::LidarMacAddressConfig(raw@),
            Packet::LidarCommand(command) => PacketView::LidarCommand(*command),
            Packet::LidarParamData(raw) => PacketView::LidarParamData(raw@),
            Packet::LidarWorkMode(mode) => PacketView::LidarWorkMode(*mode),
        }
    }
}

/// A decode result with the decoded value taken by its view.
pub open spec fn value_view<T: View>(r: Result<T, ParseError>) -> Result<T::V, ParseError> {
    match r {
        Ok(value) => Ok(value@),
        Err(e) => Err(e),
    }
}

/// What `on_value` makes of the record at the front of a payload: the report
/// that the payload is shorter than the record, else `on_value` of the record.
/// The bytes of the payload behind the record are not looked at.
pub open spec fn spec_from_record<R>(
    record: Result<(R, Seq<u8>), ParseError>,
    on_value: spec_fn(R) -> Result<PacketView, ParseError>,
) -> Result<PacketView, ParseError> {
    match record {
        Err(e) => Err(e),
        Ok((value, _)) => on_value(value),
    }
}

impl Packet {
    /// The kind of the packet.
    pub fn kind(&self) -> (kind: PacketType)
        ensures
            kind == self@.kind(),
    {
        match self {
            Packet::LidarUserCmd(_) => PacketType::LidarUserCmd,
            Packet::LidarAckData(_) => PacketType::LidarAckData,
            Packet::LidarPointData(_) => PacketType::LidarPointData,
            Packet::Lidar2DPointData(_) => PacketType::Lidar2DPointData,
            Packet::LidarImuData(_) => PacketType::LidarImuData,
            Packet::LidarVersion(_) => PacketType::LidarVersion,
            Packet::LidarTimeStamp(_) => PacketType::LidarTimeStamp,
            Packet::LidarWorkModeConfig(_) => PacketType::LidarWorkModeConfig,
            Packet::LidarIpAddressConfig(_) => PacketType::LidarIpAddressConfig,
            Packet::LidarMacAddressConfig(_) => PacketType::LidarMacAddressConfig,
            Packet::LidarCommand(_) => PacketType::LidarCommand,
            Packet::LidarParamData(_) => PacketType::LidarParamData,
            Packet::LidarWorkMode(_) => PacketType::LidarWorkMode,
        }
    }

    /// The packet of kind `kind` that `payload` holds. The kinds with a
    /// record read it from the front of the payload and turn it into its
    /// meaning; the other kinds carry the payload as it is.
    pub open spec fn spec_decode_kind(kind: PacketType, payload: Seq<u8>) -> Result<
        PacketView,
        ParseError,
    > {
        match kind {
            PacketType::LidarUserCmd => spec_from_record(
                spec_record(payload, LidarUserCtrlCmd::LEN, LidarUserCtrlCmd::spec_decode(payload)),
                |record: LidarUserCtrlCmd|
                    match UserCmd::spec_decode(record.cmd_type, record.cmd_value) {
                        Ok(cmd) => Ok(PacketView::LidarUserCmd(cmd)),
                        Err(e) => Err(e),
                    },
            ),
            PacketType::LidarAckData => spec_from_record(
                spec_record(payload, LidarAckData::LEN, LidarAckData::spec_decode(payload)),
                |record: LidarAckData|
                    match Ack::spec_decode(record) {
                        Ok(ack) => Ok(PacketView::LidarAckData(ack)),
                        Err(e) => Err(e),
                    },
            ),
            PacketType::LidarPointData => spec_from_record(
                spec_record(payload, LidarPointData::LEN, LidarPointData::spec_decode(payload)),
                |data: LidarPointDataView| Ok(PacketView::LidarPointData(data)),
            ),
            PacketType::Lidar2DPointData => Ok(PacketView::Lidar2DPointData(payload)),
            PacketType::LidarImuData => spec_from_record(
                spec_record(payload, LidarImuData::LEN, LidarImuData::spec_decode(payload)),
                |data: LidarImuData| Ok(PacketView::LidarImuData(data)),
            ),
            PacketType::LidarVersion => spec_from_record(
                spec_record(payload, LidarVersionData::LEN, LidarVersionData::spec_decode(payload)),
                |record: LidarVersionDataView|
                    match Version::spec_decode(record) {
                        Ok(version) => Ok(PacketView::LidarVersion(version)),
                        Err(e) => Err(e),
                    },
            ),
            PacketType::LidarTimeStamp => Ok(PacketView::LidarTimeStamp(payload)),
            PacketType::LidarWorkModeConfig => spec_from_record(
                spec_record(
                    payload,
                    LidarWorkModeConfig::LEN,
                    LidarWorkModeConfig::spec_decode(payload),
                ),
                |record: LidarWorkModeConfig|
                    match WorkMode::spec_decode(record.mode) {
                        Ok(mode) => Ok(PacketView::LidarWorkModeConfig(mode)),
                        Err(e) => Err(e),
                    },
            ),
            PacketType::LidarIpAddressConfig => Ok(PacketView::LidarIpAddressConfig(payload)),
            PacketType::LidarMacAddressConfig => Ok(PacketView::LidarMacAddressConfig(payload)),
            PacketType::LidarCommand => spec_from_record(
                spec_record(payload, LidarCommand::LEN, LidarCommand::spec_decode(payload)),
                |record: LidarCommand|
                    match Command::spec_decode(record.cmd_type, record.cmd_value) {
                        Ok(command) => Ok(PacketView::LidarCommand(command)),
                        Err(e) => Err(e),
                    },
            ),
            PacketType::LidarParamData => Ok(PacketView::LidarParamData(payload)),
            PacketType::LidarWorkMode => spec_from_record(
                spec_record(
                    payload,
                    LidarWorkModeConfig::LEN,
                    LidarWorkModeConfig::spec_decode(payload),
                ),
                |record: LidarWorkModeConfig|
                    match WorkMode::spec_decode(record.mode) {
                        Ok(mode) => Ok(PacketView::LidarWorkMode(mode)),
                        Err(e) => Err(e),
                    },
            ),
        }
    }

    /// The packet that a payload holds under the packet type code `code`. A
    /// code outside the table is rejected before the payload is looked at.
    pub open spec fn spec_decode(code: u32, payload: Seq<u8>) -> Result<PacketView, ParseError> {
        match PacketType::spec_decode(code) {
            Err(e) => Err(e),
            Ok(kind) => Packet::spec_decode_kind(kind, payload),
        }
    }

    /// What decoding the frame at the front of `s` gives: the packet and the
    /// bytes behind the frame. The envelope is taken apart and checked first;
    /// then the packet type code of the header selects how the payload is read.
    pub open spec fn spec_parse(s: Seq<u8>) -> Result<(PacketView, Seq<u8>), ParseError> {
        match spec_decode_frame(s) {
            Err(e) => Err(e),
            Ok((header, payload, _, remainder)) => match Packet::spec_decode(
                header.packet_type,
                payload,
            ) {
                Err(e) => Err(e),
                Ok(packet) => Ok((packet, remainder)),
            },
        }
    }

    /// Decodes a payload under the packet type code `code`.
    pub fn decode(code: u32, payload: &[u8]) -> (r: Result<Packet, ParseError>)
        ensures
            value_view(r) == Packet::spec_decode(code, payload@),
    {
        let kind = PacketType::try_from(code)?;
        let packet = match kind {
            PacketType::LidarUserCmd => {
                let (cmd, _) = LidarUserCtrlCmd::parse(payload)?;
                Packet::LidarUserCmd(UserCmd::try_from(cmd)?)
            },
            PacketType::LidarAckData => {
                let (data, _) = LidarAckData::parse(payload)?;
                Packet::LidarAckData(Ack::try_from(data)?)
            },
            PacketType::LidarPointData => {
                let (data, _) = LidarPointData::parse(payload)?;
                Packet::LidarPointData(Box::new(data))
            },
            PacketType::Lidar2DPointData => Packet::Lidar2DPointData(slice_to_vec(payload)),
            PacketType::LidarImuData => {
                let (data, _) = LidarImuData::parse(payload)?;
                Packet::LidarImuData(data)
            },
            PacketType::LidarVersion => {
                let (data, _) = LidarVersionData::parse(payload)?;
                Packet::LidarVersion(Version::try_from(data)?)
            },
            PacketType::LidarTimeStamp => Packet::LidarTimeStamp(slice_to_vec(payload)),
            PacketType::LidarWorkModeConfig => {
                let (config, _) = LidarWorkModeConfig::parse(payload)?;
                Packet::LidarWorkModeConfig(WorkMode::try_from(config)?)
            },
            PacketType::LidarIpAddressConfig => Packet::LidarIpAddressConfig(
                slice_to_vec(payload),
            ),
            PacketType::LidarMacAddressConfig => Packet::LidarMacAddressConfig(
                slice_to_vec(payload),
            ),
            PacketType::LidarCommand => {
                let (command, _) = LidarCommand::parse(payload)?;
                Packet::LidarCommand(Command::try_from(command)?)
            },
            PacketType::LidarParamData => Packet::LidarParamData(slice_to_vec(payload)),
            PacketType::LidarWorkMode => {
                let (config, _) = LidarWorkModeConfig::parse(payload)?;
                Packet::LidarWorkMode(WorkMode::try_from(config)?)
            },
        };
        Ok(packet)
    }

    /// Decodes the frame at the front of `input`. Hands back the packet and
    /// the bytes that follow the frame, for the caller to decode next. Nothing
    /// is skipped to find a frame: an error ends the attempt.
    pub fn parse(input: &[u8]) -> (r: Result<(Self, &[u8]), ParseError>)
        ensures
            value_rest_view(r) == Packet::spec_parse(input@),
            r is Ok <==> well_formed_frame(input@),
            r matches Ok((packet, remainder)) ==> {
                &&& packet@.kind().spec_code() == u32_at(input@, 4)
                &&& remainder@ == input@.skip(announced_size(input@))
            },
    {
        proof {
            lemma_parse_well_formed(input@);
        }
        let (header, payload, _, remainder) = decode_frame(input)?;
        let packet = Packet::decode(header.packet_type, payload)?;
        Ok((packet, remainder))
    }
}

/// Whether `s` starts with a frame that decodes: its envelope is in order
/// and its payload holds a packet of the type that the header names.
pub open spec fn well_formed_frame(s: Seq<u8>) -> bool {
    &&& starts_with_frame(s)
    &&& Packet::spec_decode(u32_at(s, 4), payload_of(s)) is Ok
}

/// A packet is of the kind that its packet type code names, and the one
/// error that names the packet type comes exactly for the codes outside the table.
pub proof fn lemma_decoded_kind(code: u32, payload: Seq<u8>)
    ensures
        Packet::spec_decode(code, payload) matches Ok(packet) ==> packet.kind().spec_code() == code,
        Packet::spec_decode(code, payload) == Err::<PacketView, ParseError>(
            ParseError::UnknownPacketType(code),
        ) <==> !PacketType::known(code),
{
}

/// Decoding succeeds exactly on the buffers that start with a well-formed
/// frame. The packet is then of the kind that the header's type code names,
/// and the remainder is exactly the bytes that follow the frame.
pub proof fn lemma_parse_well_formed(s: Seq<u8>)
    ensures
        Packet::spec_parse(s) is Ok <==> well_formed_frame(s),
        well_formed_frame(s) ==> {
            let (packet, remainder) = Packet::spec_parse(s).unwrap();
            &&& packet == Packet::spec_decode(u32_at(s, 4), payload_of(s)).unwrap()
            &&& packet.kind().spec_code() == u32_at(s, 4)
            &&& remainder == s.skip(announced_size(s))
        },
{
    lemma_frame_by_offsets(s);
    lemma_decoded_kind(u32_at(s, 4), payload_of(s));
}

} // verus!

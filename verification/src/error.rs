//! The reasons for which a decode attempt stops.

use vstd::prelude::*;

verus! {

/// Which of the two magic constants of a frame did not match.
#[derive(Debug, Clone, Copy, PartialEq, Eq, Structural)]
pub enum MagicSite {
    /// The four bytes that open a frame.
    Header,
    /// The two bytes that close a frame.
    Tail,
}

/// The dispatch table in which a code was looked up and not found.
#[derive(Debug, Clone, Copy, PartialEq, Eq, Structural)]
pub enum DispatchContext {
    /// The command types of a user control command.
    UserCmd,
    /// The command types of a device command.
    Command,
    /// The packet types an acknowledgement may echo.
    Ack,
}

/// The closed enumeration that a value fell outside of.
#[derive(Debug, Clone, Copy, PartialEq, Eq, Structural)]
pub enum EnumField {
    /// The execution result of an acknowledgement.
    AckStatus,
    /// The standby mode of a user control command.
    StandbyMode,
    /// The work mode bit field, whose bits 5 to 31 are reserved.
    WorkModeFlags,
}

/// Why a buffer could not be decoded. Every error ends the decode attempt.
#[derive(Debug, Clone, Copy, PartialEq, Eq, Structural)]
pub enum ParseError {
    /// Fewer bytes were present than the next field or record needs.
    InsufficientData { needed: usize, available: usize },
    /// A magic constant of the frame did not match.
    MagicMismatch { which: MagicSite },
    /// The announced packet size is too small to hold header and tail.
    LengthUnderflow,
    /// The checksum stored in the tail differs from the one computed over the payload.
    CrcMismatch { expected: u32, computed: u64 },
    /// The packet type of the header is not in the table of known types.
    UnknownPacketType(u32),
    /// A type code was not found in the dispatch table named by `context`.
    UnknownSubCommand { type_code: u32, context: DispatchContext },
    /// A value lies outside the closed enumeration named by `field`.
    InvalidEnumValue { field: EnumField, value: u32 },
    /// The device name is not valid UTF-8.
    InvalidUtf8,
}

} // verus!

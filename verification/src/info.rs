//! The packet information that opens the measurement payloads.

use vstd::prelude::*;

use crate::cursor::{get_u32_le, rest_view, spec_record, take, u32_at};
use crate::error::ParseError;

verus! {

/// A point in time: 8 bytes on the wire.
#[derive(Debug, Clone, Copy, PartialEq, Eq, Structural)]
pub struct TimeStamp {
    /// Seconds.
    pub sec: u32,
    /// Nanoseconds within the second.
    pub nsec: u32,
}

impl TimeStamp {
    /// The length of the record in bytes.
    pub const LEN: usize = 8;

    /// The record held by the first 8 bytes of `s`.
    pub open spec fn spec_decode(s: Seq<u8>) -> TimeStamp
        recommends
            s.len() >= Self::LEN,
    {
        TimeStamp { sec: u32_at(s, 0), nsec: u32_at(s, 4) }
    }

    /// Reads the record from the front of `bytes` and hands back the bytes
    /// that follow it. Fails only when `bytes` holds fewer than 8 bytes.
    pub fn parse(bytes: &[u8]) -> (r: Result<(Self, &[u8]), ParseError>)
        ensures
            rest_view(r) == spec_record(bytes@, Self::LEN, Self::spec_decode(bytes@)),
    {
        let (record, remainder) = take(bytes, Self::LEN)?;
        let (sec, record) = get_u32_le(record);
        let (nsec, record) = get_u32_le(record);
        assert(record@.len() == 0);
        Ok((TimeStamp { sec, nsec }, remainder))
    }
}

/// The information common to the measurement payloads: 16 bytes on the wire.
#[derive(Debug, Clone, Copy, PartialEq, Eq, Structural)]
pub struct DataInfo {
    /// The sequence number of the packet, which grows from packet to packet.
    pub seq: u32,
    /// The size of the payload as the device states it.
    pub payload_size: u32,
    /// When the measurement was taken.
    pub stamp: TimeStamp,
}

impl DataInfo {
    /// The length of the record in bytes.
    pub const LEN: usize = 16;

    /// The record held by the first 16 bytes of `s`.
    pub open spec fn spec_decode(s: Seq<u8>) -> DataInfo
        recommends
            s.len() >= Self::LEN,
    {
        DataInfo {
            seq: u32_at(s, 0),
            payload_size: u32_at(s, 4),
            stamp: TimeStamp { sec: u32_at(s, 8), nsec: u32_at(s, 12) },
        }
    }

    /// Reads the record from the front of `bytes` and hands back the bytes
    /// that follow it. Fails only when `bytes` holds fewer than 16 bytes.
    pub fn parse(bytes: &[u8]) -> (r: Result<(Self, &[u8]), ParseError>)
        ensures
            rest_view(r) == spec_record(bytes@, Self::LEN, Self::spec_decode(bytes@)),
    {
        let (record, remainder) = take(bytes, Self::LEN)?;
        let (seq, record) = get_u32_le(record);
        let (payload_size, record) = get_u32_le(record);
        let (stamp, record) = TimeStamp::parse(record)?;
        assert(record@.len() == 0);
        Ok((DataInfo { seq, payload_size, stamp }, remainder))
    }
}

} // verus!

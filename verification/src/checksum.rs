//! The checksum that guards the payload of a frame.

use crc_fast::CrcAlgorithm;
use vstd::prelude::*;

verus! {

/// The CRC-32/ISO-HDLC checksum of `data`: what `crc_fast::checksum` gives
/// for the algorithm `Crc32IsoHdlc`. It depends on the bytes alone.
pub uninterp spec fn crc32_iso_hdlc(data: Seq<u8>) -> u64;

/// `crc_fast::checksum` with the algorithm `Crc32IsoHdlc`: computes the
/// checksum of `data`. Nothing is claimed of the value but that it is the
/// checksum of these bytes.
#[verifier::external_body]
pub(crate) fn checksum(data: &[u8]) -> (crc: u64)
    ensures
        crc == crc32_iso_hdlc(data@),
{
    crc_fast::checksum(CrcAlgorithm::Crc32IsoHdlc, data)
}

} // verus!

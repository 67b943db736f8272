//! The version record of the device and what it says in readable form.

use vstd::prelude::*;
use vstd::slice::slice_to_vec;
use vstd::std_specs::convert::TryFromSpecImpl;
use vstd::string::StringExecFns;
use vstd::utf8::{decode_utf8, valid_utf8};

use crate::cursor::{get_u8, spec_record, take, value_rest_view};
use crate::error::ParseError;

verus! {

/// `s` without the zero bytes at its end.
pub open spec fn trim_trailing_nul(s: Seq<u8>) -> Seq<u8>
    decreases s.len(),
{
    if s.len() > 0 && s.last() == 0 {
        trim_trailing_nul(s.drop_last())
    } else {
        s
    }
}

/// What trimming leaves is the start of `s`, does not end in a zero byte, and
/// everything behind it in `s` is zero.
pub proof fn lemma_trim_trailing_nul(s: Seq<u8>)
    ensures
        trim_trailing_nul(s).len() <= s.len(),
        trim_trailing_nul(s) == s.take(trim_trailing_nul(s).len() as int),
        trim_trailing_nul(s).len() > 0 ==> trim_trailing_nul(s).last() != 0,
        forall|i: int| trim_trailing_nul(s).len() <= i < s.len() ==> s[i] == 0,
    decreases s.len(),
{
    if s.len() > 0 && s.last() == 0 {
        lemma_trim_trailing_nul(s.drop_last());
        let t = trim_trailing_nul(s);
        assert(t == s.take(t.len() as int));
        assert forall|i: int| t.len() <= i < s.len() implies s[i] == 0 by {
            if i < s.len() - 1 {
                assert(s[i] == s.drop_last()[i]);
            }
        }
    } else {
        assert(s == s.take(s.len() as int));
    }
}

/// The compile date that the first six bytes of `date` spell: each byte is
/// taken as the character with that code point, in the form `20YY-MM-DD`.
pub open spec fn spec_date(date: Seq<u8>) -> Seq<char>
    recommends
        date.len() >= 6,
{
    seq![
        '2',
        '0',
        date[0] as char,
        date[1] as char,
        '-',
        date[2] as char,
        date[3] as char,
        '-',
        date[4] as char,
        date[5] as char,
    ]
}

/// The version of the device in readable form.
#[derive(Debug, Clone, PartialEq, Eq)]
pub struct Version {
    /// The four parts of the hardware version.
    pub hardware: [u8; 4],
    /// The four parts of the software version.
    pub software: [u8; 4],
    /// The device name.
    pub name: String,
    /// The compile date, as `20YY-MM-DD`.
    pub date: String,
}

/// A version as a mathematical value: the version numbers are sequences of
/// four bytes, the strings are sequences of characters.
pub struct VersionView {
    pub hardware: Seq<u8>,
    pub software: Seq<u8>,
    pub name: Seq<char>,
    pub date: Seq<char>,
}

impl View for Version {
    type V = VersionView;

    open spec fn view(&self) -> VersionView {
        VersionView {
            hardware: self.hardware@,
            software: self.software@,
            name: self.name@,
            date: self.date@,
        }
    }
}

/// `String::from_utf8` of std: gives the string that `bytes` encode when
/// they are valid UTF-8, and nothing when they are not.
#[verifier::external_body]
fn string_from_utf8(bytes: Vec<u8>) -> (r: Option<String>)
    ensures
        match r {
            Some(s) => valid_utf8(bytes@) && s@ == decode_utf8(bytes@),
            None => !valid_utf8(bytes@),
        },
{
    match String::from_utf8(bytes) {
        Ok(s) => Some(s),
        Err(_) => None,
    }
}

/// `String::push` of std: appends one character to the string.
#[verifier::external_body]
fn string_push(s: &mut String, c: char)
    ensures
        final(s)@ == old(s)@.push(c),
{
    s.push(c)
}

impl Version {
    /// The version that `data` stands for. The name is what its bytes encode
    /// in UTF-8 once the zero bytes at their end are cut off; bytes that are
    /// not valid UTF-8 are rejected. The date is spelled by the first six
    /// bytes of the date field.
    pub open spec fn spec_decode(data: LidarVersionDataView) -> Result<VersionView, ParseError> {
        let name = trim_trailing_nul(data.name);
        if valid_utf8(name) {
            Ok(
                VersionView {
                    hardware: data.hw_version,
                    software: data.sw_version,
                    name: decode_utf8(name),
                    date: spec_date(data.date),
                },
            )
        } else {
            Err(ParseError::InvalidUtf8)
        }
    }
}

impl TryFromSpecImpl<LidarVersionData> for Version {
    /// A version holds strings, and no mathematical value of the type is at
    /// hand to equate the result with: the contract of `try_from` speaks of
    /// the result's view instead.
    open spec fn obeys_try_from_spec() -> bool {
        false
    }

    open spec fn try_from_spec(data: LidarVersionData) -> Result<Self, ParseError> {
        arbitrary()
    }
}

impl TryFrom<LidarVersionData> for Version {
    type Error = ParseError;

    /// Turns a decoded record into the version it stands for.
    fn try_from(data: LidarVersionData) -> (r: Result<Version, ParseError>)
        ensures
            match r {
                Ok(version) => Version::spec_decode(data@) == Ok::<VersionView, ParseError>(
                    version@,
                ),
                Err(e) => Version::spec_decode(data@) == Err::<VersionView, ParseError>(e),
            },
    {
        let mut end: usize = 24;
        assert(data.name@.take(24) == data.name@);
        while end > 0 && data.name[end - 1] == 0
            invariant
                end <= 24,
                trim_trailing_nul(data.name@) == trim_trailing_nul(data.name@.take(end as int)),
            decreases end,
        {
            assert(data.name@.take(end as int).drop_last() == data.name@.take(end as int - 1));
            end -= 1;
        }
        let (name_bytes, _) = data.name.as_slice().split_at(end);
        assert(name_bytes@ == trim_trailing_nul(data.name@));
        let name = match string_from_utf8(slice_to_vec(name_bytes)) {
            Some(name) => name,
            None => { return Err(ParseError::InvalidUtf8); },
        };

        let mut date = String::from_str("20");
        string_push(&mut date, data.date[0] as char);
        string_push(&mut date, data.date[1] as char);
        date.append("-");
        string_push(&mut date, data.date[2] as char);
        string_push(&mut date, data.date[3] as char);
        date.append("-");
        string_push(&mut date, data.date[4] as char);
        string_push(&mut date, data.date[5] as char);
        proof {
            reveal_strlit("20");
            reveal_strlit("-");
            assert(date@ =~= spec_date(data.date@));
        }
        Ok(Version { hardware: data.hw_version, software: data.sw_version, name, date })
    }
}

/// The version as it lies on the wire: 80 bytes.
#[derive(Debug, Clone, Copy, PartialEq, Eq)]
pub struct LidarVersionData {
    /// The hardware version.
    pub hw_version: [u8; 4],
    /// The software version.
    pub sw_version: [u8; 4],
    /// The device name, padded with zero bytes.
    pub name: [u8; 24],
    /// The compile date: six characters, then two more bytes.
    pub date: [u8; 8],
    /// Reserved.
    pub reserve: [u8; 40],
}

/// The version record as a mathematical value: each field is a sequence of bytes.
pub struct LidarVersionDataView {
    pub hw_version: Seq<u8>,
    pub sw_version: Seq<u8>,
    pub name: Seq<u8>,
    pub date: Seq<u8>,
    pub reserve: Seq<u8>,
}

impl View for LidarVersionData {
    type V = LidarVersionDataView;

    open spec fn view(&self) -> LidarVersionDataView {
        LidarVersionDataView {
            hw_version: self.hw_version@,
            sw_version: self.sw_version@,
            name: self.name@,
            date: self.date@,
            reserve: self.reserve@,
        }
    }
}

/// Fills `out` with the first `N` bytes of `input` and hands back the bytes
/// behind them.
fn read_exact<'a, const N: usize>(input: &'a [u8], out: &mut [u8; N]) -> (rest: &'a [u8])
    requires
        input@.len() >= N,
    ensures
        final(out)@ == input@.take(N as int),
        rest@ == input@.skip(N as int),
{
    let mut cursor = input;
    let mut i: usize = 0;
    while i < N
        invariant
            i <= N,
            input@.len() >= N,
            cursor@ == input@.skip(i as int),
            forall|j: int| 0 <= j < i ==> out@[j] == input@[j],
        decreases N - i,
    {
        let (byte, rest) = get_u8(cursor);
        out[i] = byte;
        cursor = rest;
        i += 1;
    }
    assert(out@ =~= input@.take(N as int));
    cursor
}

impl LidarVersionData {
    /// The length of the record in bytes.
    pub const LEN: usize = 80;

    /// The record held by the first 80 bytes of `s`: its fields are those
    /// bytes, cut at the offsets 4, 8, 32 and 40.
    pub open spec fn spec_decode(s: Seq<u8>) -> LidarVersionDataView
        recommends
            s.len() >= Self::LEN,
    {
        LidarVersionDataView {
            hw_version: s.subrange(0, 4),
            sw_version: s.subrange(4, 8),
            name: s.subrange(8, 32),
            date: s.subrange(32, 40),
            reserve: s.subrange(40, 80),
        }
    }

    /// Reads the record from the front of `bytes` and hands back the bytes
    /// that follow it. Fails only when `bytes` holds fewer than 80 bytes.
    pub fn parse(bytes: &[u8]) -> (r: Result<(Self, &[u8]), ParseError>)
        ensures
            value_rest_view(r) == spec_record(bytes@, Self::LEN, Self::spec_decode(bytes@)),
    {
        let (record, remainder) = take(bytes, Self::LEN)?;
        let mut hw_version: [u8; 4] = [0; 4];
        let record = read_exact(record, &mut hw_version);
        let mut sw_version: [u8; 4] = [0; 4];
        let record = read_exact(record, &mut sw_version);
        let mut name: [u8; 24] = [0; 24];
        let record = read_exact(record, &mut name);
        let mut date: [u8; 8] = [0; 8];
        let record = read_exact(record, &mut date);
        let mut reserve: [u8; 40] = [0; 40];
        let record = read_exact(record, &mut reserve);
        assert(record@.len() == 0);
        let data = LidarVersionData { hw_version, sw_version, name, date, reserve };
        proof {
            assert(data.hw_version@ =~= bytes@.subrange(0, 4));
            assert(data.sw_version@ =~= bytes@.subrange(4, 8));
            assert(data.name@ =~= bytes@.subrange(8, 32));
            assert(data.date@ =~= bytes@.subrange(32, 40));
            assert(data.reserve@ =~= bytes@.subrange(40, 80));
        }
        Ok((data, remainder))
    }
}

} // verus!

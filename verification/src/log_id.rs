//! The log_id codec: a 128-bit UUID value rendered as a 32-character
//! hyphen-less hexadecimal string, and the strict parse back.

use vstd::prelude::*;
use vstd::string::StrSliceExecFns;
use vstd::string::StringExecFns;
use crate::hex::is_hex_digit;
use crate::hex::hex_digit_char;
use crate::hex::hex_digit_val;
use crate::hex::hex_val_of;
use crate::hex::hex_char_str;
use crate::hex::lemma_hex_digit_round_trip;

verus! {

/// A 128-bit UUID value, held as its 16 bytes in order.
///
/// The canonical hyphenated rendering of a UUID is the hex digits of these
/// bytes in order, grouped 8-4-4-4-12; the log_id form is the same digits
/// with the hyphens removed.
#[derive(Clone, Debug, PartialEq, Eq)]
pub struct LogUuid {
    bytes: Vec<u8>,
}

impl View for LogUuid {
    type V = Seq<u8>;

    closed spec fn view(&self) -> Seq<u8> {
        self.bytes@
    }
}

/// A well-formed UUID holds exactly 16 bytes.
pub open spec fn uuid_wf(u: LogUuid) -> bool {
    u@.len() == 16
}

/// The log_id rendering of 16 bytes: 32 lowercase hex digits, the high
/// nibble of each byte before its low nibble.
pub open spec fn log_id_seq(bytes: Seq<u8>) -> Seq<char> {
    Seq::new(32, |i: int|
        if i % 2 == 0 {
            hex_digit_char((bytes[i / 2] / 16) as u8)
        } else {
            hex_digit_char((bytes[i / 2] % 16) as u8)
        }
    )
}

/// The strings the parse accepts: exactly 32 characters, each a hex digit
/// of either case.
pub open spec fn valid_log_id(s: Seq<char>) -> bool {
    s.len() == 32 && (forall|i: int| 0 <= i < 32 ==> is_hex_digit(s[i]))
}

/// The 16 bytes a valid log_id denotes: each pair of hex digits, read
/// case-insensitively, gives one byte.
pub open spec fn decoded_bytes(s: Seq<char>) -> Seq<u8> {
    Seq::new(16, |i: int|
        (hex_digit_val(s[2 * i]) * 16 + hex_digit_val(s[2 * i + 1])) as u8
    )
}

/// Conversion between a UUID value and its log_id form: a total rendering
/// and a strict parse that returns nothing on any malformed input.
pub trait LogIdFormat: Sized {
    /// The 16 bytes of the UUID value, as the contracts speak of them.
    spec fn uuid_bytes(&self) -> Seq<u8>;

    /// Renders the value as its 32-character lowercase log_id.
    fn to_log_id(&self) -> (r: String)
        requires
            self.uuid_bytes().len() == 16,
        ensures
            r@ == log_id_seq(self.uuid_bytes()),
    ;

    /// Parses a log_id back into a UUID value. Returns a value exactly on
    /// the strings that are 32 hex digits, and nothing on every other
    /// string; it never panics.
    fn from_log_id(log_id: &str) -> (r: Option<Self>)
        ensures
            valid_log_id(log_id@) <==> r is Some,
            (r matches Some(u) ==> u.uuid_bytes() == decoded_bytes(log_id@)),
    ;
}

impl LogUuid {
    /// Takes 16 bytes as a UUID value; returns nothing on any other length.
    pub fn from_bytes(bytes: Vec<u8>) -> (r: Option<LogUuid>)
        ensures
            bytes@.len() == 16 <==> r is Some,
            (r matches Some(u) ==> u@ == bytes@),
    {
        if bytes.len() == 16 {
            Some(LogUuid { bytes })
        } else {
            None
        }
    }

    /// The 16 bytes of the value, in order.
    pub fn bytes(&self) -> (r: &Vec<u8>)
        ensures
            r@ == self@,
    {
        &self.bytes
    }
}

impl LogIdFormat for LogUuid {
    open spec fn uuid_bytes(&self) -> Seq<u8> {
        self@
    }

    fn to_log_id(&self) -> (r: String) {
        let mut r = String::new();
        let mut i: usize = 0;
        while i < 16
            invariant
                i <= 16,
                self@.len() == 16,
                r@.len() == 2 * i,
                forall|j: int| 0 <= j < 2 * i ==> r@[j] == log_id_seq(self@)[j],
            decreases 16 - i,
        {
            let b = self.bytes[i];
            r.append(hex_char_str(b / 16));
            r.append(hex_char_str(b % 16));
            i += 1;
        }
        proof {
            assert(r@ =~= log_id_seq(self@));
        }
        r
    }

    fn from_log_id(log_id: &str) -> (r: Option<LogUuid>) {
        let n = log_id.unicode_len();
        if n != 32 {
            return None;
        }
        let mut bytes: Vec<u8> = Vec::new();
        let mut i: usize = 0;
        while i < 16
            invariant
                i <= 16,
                log_id@.len() == 32,
                bytes@.len() == i,
                forall|j: int| 0 <= j < 2 * i ==> is_hex_digit(log_id@[j]),
                forall|j: int| 0 <= j < i ==> bytes@[j] == decoded_bytes(log_id@)[j],
            decreases 16 - i,
        {
            let hi = hex_val_of(log_id.get_char(2 * i));
            let lo = hex_val_of(log_id.get_char(2 * i + 1));
            match (hi, lo) {
                (Some(h), Some(l)) => {
                    bytes.push(h * 16 + l);
                }
                _ => {
                    return None;
                }
            }
            i += 1;
        }
        proof {
            assert(bytes@ =~= decoded_bytes(log_id@));
        }
        Some(LogUuid { bytes })
    }
}

/// Relies on uuid::Uuid::now_v7 and uuid::Uuid::as_bytes: a freshly minted
/// version 7 UUID is 16 bytes whose version nibble (the high nibble of byte
/// 6) is 7 and whose variant bits (the top two bits of byte 8) are binary 10.
#[verifier::external_body]
fn fresh_uuid_bytes() -> (r: Vec<u8>)
    ensures
        r@.len() == 16,
        r@[6] / 16 == 7,
        r@[8] / 64 == 2,
{
    uuid::Uuid::now_v7().as_bytes().to_vec()
}

/// Mints a fresh time-ordered UUID value.
pub fn fresh_log_uuid() -> (r: LogUuid)
    ensures
        uuid_wf(r),
        r@[6] / 16 == 7,
        r@[8] / 64 == 2,
{
    LogUuid { bytes: fresh_uuid_bytes() }
}

/// Mints a fresh log_id: the rendering of a freshly minted time-ordered
/// UUID. Every generated id is itself a valid log_id, and carries the
/// version digit '7' at position 12.
pub fn fresh_log_id() -> (r: String)
    ensures
        valid_log_id(r@),
        r@[12] == '7',
{
    let u = fresh_log_uuid();
    let r = u.to_log_id();
    proof {
        lemma_log_id_round_trip(u@);
        assert(r@[12] == hex_digit_char((u@[6] / 16) as u8));
    }
    r
}

/// Rendering any 16 bytes always yields a valid log_id, and parsing that
/// log_id yields the same bytes back: the codec round-trips on every UUID.
pub proof fn lemma_log_id_round_trip(bytes: Seq<u8>)
    requires
        bytes.len() == 16,
    ensures
        valid_log_id(log_id_seq(bytes)),
        decoded_bytes(log_id_seq(bytes)) == bytes,
{
    assert forall|i: int| 0 <= i < 32 implies is_hex_digit(log_id_seq(bytes)[i]) by {
        let b = bytes[i / 2];
        lemma_hex_digit_round_trip((b / 16) as u8);
        lemma_hex_digit_round_trip((b % 16) as u8);
    }
    assert forall|i: int| 0 <= i < 16 implies decoded_bytes(log_id_seq(bytes))[i] == bytes[i] by {
        let b = bytes[i];
        lemma_hex_digit_round_trip((b / 16) as u8);
        lemma_hex_digit_round_trip((b % 16) as u8);
        assert(log_id_seq(bytes)[2 * i] == hex_digit_char((b / 16) as u8));
        assert(log_id_seq(bytes)[2 * i + 1] == hex_digit_char((b % 16) as u8));
    }
    assert(decoded_bytes(log_id_seq(bytes)) =~= bytes);
}

} // verus!

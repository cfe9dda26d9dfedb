//! Record identifiers (128-bit UUID values) and instants, and their text forms.
use vstd::prelude::*;

verus! {

/// An instant, as whole seconds since the Unix epoch and nanoseconds past them.
#[derive(Clone, Copy, PartialEq, Eq, Structural, Debug)]
pub struct Timestamp {
    pub secs: i64,
    pub nanos: u32,
}

/// Lower-case hexadecimal digit of `d` (below 16).
pub open spec fn hex_lower(d: nat) -> char {
    if d < 10 {
        ((('0' as u32) + d) as u32) as char
    } else {
        ((('a' as u32) + d - 10) as u32) as char
    }
}

/// The `k`-th hexadecimal digit of `id`, counted from the most significant one.
pub open spec fn nibble(id: u128, k: int) -> nat {
    ((id >> ((124 - 4 * k) as u128)) & 0xf) as nat
}

/// Position among the 32 digits of the character at position `i` of the
/// hyphenated form (which has dashes at 8, 13, 18 and 23).
pub open spec fn digit_index(i: int) -> int {
    if i < 8 {
        i
    } else if i < 13 {
        i - 1
    } else if i < 18 {
        i - 2
    } else if i < 23 {
        i - 3
    } else {
        i - 4
    }
}

/// The hyphenated lower-case form of a UUID whose big-endian value is `id`,
/// such as `67e55044-10b1-426f-9247-bb680e5fe0c8`.
pub open spec fn uuid_hyphenated(id: u128) -> Seq<char> {
    Seq::new(
        36,
        |i: int|
            if i == 8 || i == 13 || i == 18 || i == 23 {
                '-'
            } else {
                hex_lower(nibble(id, digit_index(i)))
            },
    )
}

/// What `chrono`'s `DateTime::<Utc>::from_timestamp(secs, nanos)` followed by
/// `to_rfc3339` gives: `None` when the instant is out of its range, else the
/// RFC 3339 text such as `2026-09-22T10:00:00+00:00`.
pub uninterp spec fn rfc3339_text(secs: i64, nanos: u32) -> Option<Seq<char>>;

/// `uuid::Uuid::from_u128(id).to_string()`: `Display` of a `Uuid` is its
/// hyphenated lower-case form, and `from_u128` reads the value big-endian.
#[verifier::external_body]
pub(crate) fn uuid_string(id: u128) -> (s: String)
    ensures
        s@ == uuid_hyphenated(id),
{
    uuid::Uuid::from_u128(id).to_string()
}

/// `chrono::DateTime::<chrono::Utc>::from_timestamp` then `to_rfc3339`; the
/// result is only named, by `rfc3339_text`.
#[verifier::external_body]
pub(crate) fn timestamp_rfc3339(t: Timestamp) -> (s: Option<String>)
    ensures
        match s {
            Some(s) => rfc3339_text(t.secs, t.nanos) == Some(s@),
            None => rfc3339_text(t.secs, t.nanos) is None,
        },
{
    match chrono::DateTime::<chrono::Utc>::from_timestamp(t.secs, t.nanos) {
        Some(d) => Some(d.to_rfc3339()),
        None => None,
    }
}

} // verus!

//! Points in time and fresh identifiers.

use vstd::prelude::*;

verus! {

/// A point in time: seconds since the Unix epoch and the nanoseconds past them.
#[derive(Debug, Clone, Copy, PartialEq, Eq, Structural)]
pub struct Timestamp {
    /// Whole seconds since the Unix epoch.
    pub seconds: i64,
    /// Nanoseconds past the second.
    pub nanos: u32,
}

impl DeepView for Timestamp {
    type V = Timestamp;

    open spec fn deep_view(&self) -> Timestamp {
        *self
    }
}

/// The system clock, through `chrono::Utc::now`. Nothing is claimed of the
/// result: two calls may give any two times.
#[verifier::external_body]
pub(crate) fn utc_now() -> (r: Timestamp)
{
    let now = chrono::Utc::now();
    Timestamp { seconds: now.timestamp(), nanos: now.timestamp_subsec_nanos() }
}

/// Whether a character is a hexadecimal digit in lower case.
pub open spec fn is_hex_digit(c: char) -> bool {
    ||| '0' <= c <= '9'
    ||| 'a' <= c <= 'f'
}

/// Whether a text has the form of a random identifier: hexadecimal digits in
/// groups of eight, four, four, four and twelve, joined by hyphens. The third
/// group starts with the version, the fourth with the variant.
pub open spec fn id_shaped(s: Seq<char>) -> bool {
    &&& s.len() == 36
    &&& forall|i: int|
        0 <= i < 36 ==> if i == 8 || i == 13 || i == 18 || i == 23 {
            #[trigger] s[i] == '-'
        } else {
            is_hex_digit(s[i])
        }
    &&& s[14] == '4'
    &&& s[19] == '8' || s[19] == '9' || s[19] == 'a' || s[19] == 'b'
}

/// A random identifier from `uuid::Uuid::new_v4`, in the hyphenated form that
/// its `Display` writes. Which digits the groups hold, besides version and
/// variant, is left to chance.
#[verifier::external_body]
pub(crate) fn fresh_id() -> (r: String)
    ensures
        id_shaped(r@),
{
    uuid::Uuid::new_v4().to_string()
}

} // verus!

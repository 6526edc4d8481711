//! Instants in time, as nanoseconds since the Unix epoch, within the range
//! that the `jiff` crate supports.

use vstd::prelude::*;

verus! {

/// The earliest supported instant: -9999-01-02T01:59:59Z, in nanoseconds.
pub const MIN_NANOSECOND: i128 = -377_705_023_201_000_000_000i128;

/// The latest supported instant: 9999-12-30T22:00:00.999999999Z, in nanoseconds.
pub const MAX_NANOSECOND: i128 = 253_402_207_200_999_999_999i128;

/// Whether `n` nanoseconds since the epoch is a supported instant.
pub open spec fn in_range(n: int) -> bool {
    MIN_NANOSECOND <= n <= MAX_NANOSECOND
}

/// The RFC 3339 text (in UTC, with a `Z` suffix) that `jiff` writes for the
/// instant `nanos` nanoseconds after the Unix epoch.
pub uninterp spec fn rfc3339_text(nanos: int) -> Seq<char>;

/// Formats an instant through `jiff::Timestamp::from_nanosecond` and that
/// type's `Display` impl. Claimed: for an instant in range the text is
/// `rfc3339_text` of it, and nothing panics (the range is what
/// `from_nanosecond` accepts).
#[verifier::external_body]
fn jiff_rfc3339(nanos: i128) -> (text: String)
    requires
        in_range(nanos as int),
    ensures
        text@ == rfc3339_text(nanos as int),
{
    match jiff::Timestamp::from_nanosecond(nanos) {
        Ok(t) => t.to_string(),
        Err(_) => String::new(),
    }
}

/// An instant in time.
#[derive(Debug, Clone, Copy, PartialEq, Eq)]
pub struct Timestamp {
    nanos: i128,
}

impl View for Timestamp {
    type V = int;

    closed spec fn view(&self) -> int {
        self.nanos as int
    }
}

impl Timestamp {
    #[verifier::type_invariant]
    closed spec fn wf(self) -> bool {
        in_range(self.nanos as int)
    }

    /// The instant `nanosecond` nanoseconds after the Unix epoch, or `None`
    /// when it lies outside the supported range.
    pub fn from_nanosecond(nanosecond: i128) -> (res: Option<Timestamp>)
        ensures
            res is Some <==> in_range(nanosecond as int),
            res matches Some(t) ==> t@ == nanosecond,
    {
        if MIN_NANOSECOND <= nanosecond && nanosecond <= MAX_NANOSECOND {
            Some(Timestamp { nanos: nanosecond })
        } else {
            None
        }
    }

    /// Nanoseconds since the Unix epoch.
    pub fn as_nanosecond(&self) -> (n: i128)
        ensures
            n == self@,
            in_range(n as int),
    {
        proof {
            use_type_invariant(self);
        }
        self.nanos
    }

    /// The RFC 3339 text of this instant.
    pub fn to_rfc3339(&self) -> (text: String)
        ensures
            text@ == rfc3339_text(self@),
    {
        proof {
            use_type_invariant(self);
        }
        jiff_rfc3339(self.nanos)
    }
}

} // verus!

//! Wall-clock instants as plain integers, and their RFC 3339 rendering.

use vstd::prelude::*;

verus! {

/// Last millisecond of the year 9999, UTC.
pub const MAX_TIMESTAMP_MILLIS: i64 = 253_402_300_799_999;

/// Milliseconds in one day.
pub const DAY_MILLIS: i64 = 86_400_000;

/// An instant, as milliseconds since 1970-01-01T00:00:00Z.
#[derive(Clone, Copy, Debug, PartialEq, Eq, Structural)]
pub struct Timestamp {
    pub unix_millis: i64,
}

impl Timestamp {
    /// Instants from the Unix epoch up to the end of the year 9999.
    pub open spec fn wf(self) -> bool {
        0 <= self.unix_millis <= MAX_TIMESTAMP_MILLIS
    }

    /// The Unix epoch, the instant a fresh meter reading carries.
    pub fn epoch() -> (r: Timestamp)
        ensures
            r.unix_millis == 0,
            r.wf(),
    {
        Timestamp { unix_millis: 0 }
    }

    /// Builds an instant, refusing values outside the supported range.
    pub fn from_unix_millis(unix_millis: i64) -> (r: Option<Timestamp>)
        ensures
            r is Some <==> 0 <= unix_millis <= MAX_TIMESTAMP_MILLIS,
            r is Some ==> r->0.unix_millis == unix_millis,
    {
        if 0 <= unix_millis && unix_millis <= MAX_TIMESTAMP_MILLIS {
            Some(Timestamp { unix_millis })
        } else {
            None
        }
    }
}

/// The RFC 3339 text that chrono renders for an instant given in
/// milliseconds since the Unix epoch (UTC, `+00:00` offset).
pub uninterp spec fn rfc3339_of_millis(unix_millis: int) -> Seq<char>;

/// Relies on chrono's `DateTime::<Utc>::from_timestamp_millis`, which
/// accepts every instant from the epoch to past the year 10000, and on
/// `DateTime::to_rfc3339`, whose text depends on the instant alone.
#[verifier::external_body]
fn chrono_rfc3339(unix_millis: i64) -> (r: String)
    requires
        0 <= unix_millis <= MAX_TIMESTAMP_MILLIS + DAY_MILLIS,
    ensures
        r@ == rfc3339_of_millis(unix_millis as int),
{
    match chrono::DateTime::<chrono::Utc>::from_timestamp_millis(unix_millis) {
        Some(dt) => dt.to_rfc3339(),
        None => String::new(),
    }
}

/// RFC 3339 text of an instant.
pub fn format_rfc3339(t: Timestamp) -> (r: String)
    requires
        t.wf(),
    ensures
        r@ == rfc3339_of_millis(t.unix_millis as int),
{
    chrono_rfc3339(t.unix_millis)
}

/// RFC 3339 text of the instant one day after `t`.
pub fn format_rfc3339_next_day(t: Timestamp) -> (r: String)
    requires
        t.wf(),
    ensures
        r@ == rfc3339_of_millis(t.unix_millis + DAY_MILLIS),
{
    chrono_rfc3339(t.unix_millis + DAY_MILLIS)
}

} // verus!

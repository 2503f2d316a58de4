//! Points in time, held as a Unix timestamp, and their RFC 3339 text.
use vstd::prelude::*;

verus! {

/// The RFC 3339 text that chrono produces for the UTC instant `secs` seconds
/// and `nanos` nanoseconds after the Unix epoch, or `None` where chrono has
/// no such instant.
pub uninterp spec fn rfc3339_of(secs: i64, nanos: u32) -> Option<Seq<char>>;

/// chrono's `DateTime::<Utc>::from_timestamp(secs, nanos)` followed by
/// `DateTime::to_rfc3339`.  The contract claims only that the outcome is
/// determined by `secs` and `nanos` alone (it is named `rfc3339_of`): chrono
/// works in UTC, with no locale or clock involved.
#[verifier::external_body]
fn rfc3339_text(secs: i64, nanos: u32) -> (r: Option<String>)
    ensures
        match r {
            Some(t) => rfc3339_of(secs, nanos) == Some(t@),
            None => rfc3339_of(secs, nanos) is None,
        },
{
    match chrono::DateTime::<chrono::Utc>::from_timestamp(secs, nanos) {
        Some(t) => Some(t.to_rfc3339()),
        None => None,
    }
}

/// An instant that chrono can represent, as seconds and nanoseconds after
/// the Unix epoch (UTC).
#[derive(Clone, Copy, Debug)]
pub struct Timestamp {
    secs: i64,
    nanos: u32,
}

impl View for Timestamp {
    type V = (i64, u32);

    closed spec fn view(&self) -> (i64, u32) {
        (self.secs, self.nanos)
    }
}

impl Timestamp {
    #[verifier::type_invariant]
    spec fn representable(self) -> bool {
        rfc3339_of(self.secs, self.nanos) is Some
    }

    /// The instant `secs` seconds and `nanos` nanoseconds after the Unix
    /// epoch, when chrono can represent it.
    pub fn from_unix(secs: i64, nanos: u32) -> (r: Option<Timestamp>)
        ensures
            r is Some <==> rfc3339_of(secs, nanos) is Some,
            r matches Some(t) ==> t@ == (secs, nanos),
    {
        match rfc3339_text(secs, nanos) {
            Some(_) => Some(Timestamp { secs, nanos }),
            None => None,
        }
    }

    /// Seconds after the Unix epoch.
    pub fn unix_seconds(&self) -> (s: i64)
        ensures
            s == self@.0,
    {
        self.secs
    }

    /// Nanoseconds within the second.
    pub fn subsec_nanos(&self) -> (n: u32)
        ensures
            n == self@.1,
    {
        self.nanos
    }

    /// The RFC 3339 text of this instant.
    pub fn to_rfc3339(&self) -> (s: String)
        ensures
            rfc3339_of(self@.0, self@.1) == Some(s@),
    {
        proof {
            use_type_invariant(self);
        }
        match rfc3339_text(self.secs, self.nanos) {
            Some(t) => t,
            None => String::new(),
        }
    }
}

} // verus!

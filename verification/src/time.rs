//! Points in time as the provisioning API reports them.

use vstd::prelude::*;

verus! {

/// A point in time within the calendar: whole seconds since 1970-01-01
/// 00:00:00 UTC, and the nanoseconds that follow them. Every value can be
/// written as a date and a time.
#[derive(Debug, Clone, Copy, PartialEq, Eq)]
pub struct Timestamp {
    secs: i64,
    nanos: u32,
}

impl DeepView for Timestamp {
    type V = Timestamp;

    open spec fn deep_view(&self) -> Timestamp {
        *self
    }
}

/// The point in time that a text in RFC 3339 notation stands for, as
/// seconds and nanoseconds; `None` where the text is no such notation.
pub uninterp spec fn utc_instant(text: Seq<char>) -> Option<(i64, u32)>;

/// How a point in time reads as a date, a time and the zone `UTC`; `None`
/// where the seconds or nanoseconds are out of the calendar's range.
pub uninterp spec fn utc_notation(secs: i64, nanos: u32) -> Option<Seq<char>>;

/// `str::parse::<chrono::DateTime<chrono::Utc>>`, which reads a relaxed form
/// of RFC 3339, followed by `DateTime::timestamp` and
/// `DateTime::timestamp_subsec_nanos` on what it read. The contract names
/// the outcome: the same text always gives the same point in time. It adds
/// what chrono documents of these two numbers: `DateTime::from_timestamp`
/// takes them back, so the point in time is within the calendar and can be
/// written.
#[verifier::external_body]
fn parse_instant(text: &str) -> (r: Option<(i64, u32)>)
    ensures
        r == utc_instant(text@),
        r matches Some((secs, nanos)) ==> utc_notation(secs, nanos) is Some,
{
    match text.parse::<chrono::DateTime<chrono::Utc>>() {
        Ok(t) => Some((t.timestamp(), t.timestamp_subsec_nanos())),
        Err(_) => None,
    }
}

/// `chrono::DateTime::from_timestamp`, which refuses what is out of range,
/// followed by the `Display` of the `DateTime<Utc>` it made. The contract
/// only names the outcome: the same numbers always give the same text.
#[verifier::external_body]
fn instant_notation(secs: i64, nanos: u32) -> (r: Option<String>)
    ensures
        r.deep_view() == utc_notation(secs, nanos),
{
    match chrono::DateTime::<chrono::Utc>::from_timestamp(secs, nanos) {
        Some(t) => Some(t.to_string()),
        None => None,
    }
}

impl Timestamp {
    #[verifier::type_invariant]
    spec fn within_calendar(self) -> bool {
        utc_notation(self.secs, self.nanos) is Some
    }

    /// The point in time that lies `secs` seconds and `nanos` nanoseconds
    /// after the beginning of 1970.
    pub closed spec fn at(secs: i64, nanos: u32) -> Timestamp {
        Timestamp { secs, nanos }
    }

    /// The whole seconds since the beginning of 1970.
    pub closed spec fn seconds(self) -> i64 {
        self.secs
    }

    /// The nanoseconds that follow the whole seconds.
    pub closed spec fn nanoseconds(self) -> u32 {
        self.nanos
    }

    /// A point in time is known by its two numbers.
    pub broadcast proof fn lemma_parts(secs: i64, nanos: u32)
        ensures
            (#[trigger] Timestamp::at(secs, nanos)).seconds() == secs,
            Timestamp::at(secs, nanos).nanoseconds() == nanos,
    {
    }

    /// The whole seconds since the beginning of 1970.
    pub fn secs(&self) -> (r: i64)
        ensures
            r == self.seconds(),
    {
        self.secs
    }

    /// The nanoseconds that follow the whole seconds.
    pub fn nanos(&self) -> (r: u32)
        ensures
            r == self.nanoseconds(),
    {
        self.nanos
    }

    /// The point in time with the given numbers, where it lies within the
    /// calendar.
    pub open spec fn of_parts(secs: i64, nanos: u32) -> Option<Timestamp> {
        if utc_notation(secs, nanos) is Some {
            Some(Timestamp::at(secs, nanos))
        } else {
            None
        }
    }

    /// Makes a point in time of its two numbers, where it lies within the
    /// calendar.
    pub fn from_parts(secs: i64, nanos: u32) -> (r: Option<Timestamp>)
        ensures
            r == Timestamp::of_parts(secs, nanos),
    {
        match instant_notation(secs, nanos) {
            Some(_) => Some(Timestamp { secs, nanos }),
            None => None,
        }
    }

    /// The point in time that `text` stands for.
    pub open spec fn of_text(text: Seq<char>) -> Option<Timestamp> {
        match utc_instant(text) {
            Some((secs, nanos)) => Some(Timestamp::at(secs, nanos)),
            None => None,
        }
    }

    /// Reads a point in time from its RFC 3339 notation.
    pub fn parse(text: &str) -> (r: Option<Timestamp>)
        ensures
            r == Timestamp::of_text(text@),
    {
        match parse_instant(text) {
            Some((secs, nanos)) => Some(Timestamp { secs, nanos }),
            None => None,
        }
    }

    /// How this point in time reads, as in `2015-05-15 00:00:00 UTC`.
    pub open spec fn notation(self) -> Seq<char> {
        utc_notation(self.seconds(), self.nanoseconds())->0
    }

    /// Writes this point in time as a date, a time and the zone.
    pub fn to_text(&self) -> (r: String)
        ensures
            r@ == self.notation(),
    {
        proof {
            use_type_invariant(self);
        }
        match instant_notation(self.secs, self.nanos) {
            Some(text) => text,
            None => vstd::pervasive::unreached(),
        }
    }
}

} // verus!

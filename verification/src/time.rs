//! Instants in UTC and measured spans of time.

use vstd::prelude::*;

verus! {

/// The first second that an instant can name: the start of the year -262143.
pub const FIRST_SECOND: i64 = -8_334_601_228_800;

/// The last second that an instant can name: the end of the year 262142.
pub const LAST_SECOND: i64 = 8_210_266_876_799;

/// Whether `secs` since the Unix epoch and `nanos` within that second name an instant.
///
/// A nanosecond part of a full second or more stands for a leap second, which only the last
/// second of a minute can carry.
pub open spec fn valid_instant(secs: i64, nanos: u32) -> bool {
    &&& FIRST_SECOND <= secs <= LAST_SECOND
    &&& nanos < 1_000_000_000 || (nanos < 2_000_000_000 && secs % 60 == 59)
}

/// An instant in UTC.
#[derive(Clone, Copy, Debug, PartialEq, Eq, Structural)]
pub struct Timestamp {
    secs: i64,
    nanos: u32,
}

/// Whether a clock that is not set before the epoch can show an instant: no leap second, and none
/// before the epoch.
pub open spec fn clock_can_show(at: Timestamp) -> bool {
    &&& valid_instant(at.spec_secs(), at.spec_nanos())
    &&& at.spec_secs() >= 0
    &&& at.spec_nanos() < 1_000_000_000
}

/// The RFC 3339 text that chrono gives to an instant.
pub uninterp spec fn rfc3339_text(secs: i64, nanos: u32) -> Seq<char>;

/// Calls `chrono::Utc::now`, which reads the system clock.
///
/// Claimed: the pair names an instant, and it lies in no leap second and not before the epoch.
/// Which instant it is depends on the clock, so nothing more is said. A clock set before the
/// epoch makes chrono panic.
#[verifier::external_body]
fn utc_now() -> (now: (i64, u32))
    ensures
        valid_instant(now.0, now.1),
        now.0 >= 0,
        now.1 < 1_000_000_000,
{
    let now = chrono::Utc::now();
    (now.timestamp(), now.timestamp_subsec_nanos())
}

/// Calls `chrono::DateTime::<Utc>::to_rfc3339` on the instant that the two numbers name.
///
/// Claimed: the text depends on the two numbers alone.
#[verifier::external_body]
fn utc_to_rfc3339(secs: i64, nanos: u32) -> (text: String)
    requires
        valid_instant(secs, nanos),
    ensures
        text@ == rfc3339_text(secs, nanos),
{
    chrono::DateTime::from_timestamp(secs, nanos).unwrap().to_rfc3339()
}

impl Timestamp {
    #[verifier::type_invariant]
    spec fn names_an_instant(self) -> bool {
        valid_instant(self.secs, self.nanos)
    }

    /// Whole seconds since the Unix epoch.
    pub closed spec fn spec_secs(self) -> i64 {
        self.secs
    }

    /// Nanoseconds within the second.
    pub closed spec fn spec_nanos(self) -> u32 {
        self.nanos
    }

    /// The instant that two numbers name, if they name one.
    pub fn new(secs: i64, nanos: u32) -> (instant: Option<Timestamp>)
        ensures
            instant is Some <==> valid_instant(secs, nanos),
            instant matches Some(t) ==> t.spec_secs() == secs && t.spec_nanos() == nanos,
    {
        if secs < FIRST_SECOND || secs > LAST_SECOND {
            return None;
        }
        // The first second starts a minute, so counting from it keeps a second's place in its
        // minute.
        let offset: i64 = secs - FIRST_SECOND;
        if nanos < 1_000_000_000 || (nanos < 2_000_000_000 && offset % 60 == 59) {
            Some(Timestamp { secs, nanos })
        } else {
            None
        }
    }

    /// The present instant.
    pub fn now() -> (instant: Timestamp)
        ensures
            clock_can_show(instant),
    {
        let (secs, nanos) = utc_now();
        Timestamp { secs, nanos }
    }

    /// Whole seconds since the Unix epoch.
    pub fn secs(&self) -> (secs: i64)
        ensures
            secs == self.spec_secs(),
    {
        self.secs
    }

    /// Nanoseconds within the second; a full second or more within a leap second.
    pub fn nanos(&self) -> (nanos: u32)
        ensures
            nanos == self.spec_nanos(),
            valid_instant(self.spec_secs(), nanos),
    {
        proof {
            use_type_invariant(self);
        }
        self.nanos
    }

    /// The instant in RFC 3339 notation.
    pub fn to_rfc3339(&self) -> (text: String)
        ensures
            text@ == rfc3339_text(self.spec_secs(), self.spec_nanos()),
    {
        proof {
            use_type_invariant(self);
        }
        utc_to_rfc3339(self.secs, self.nanos)
    }
}

/// A measured span of time.
#[derive(Clone, Copy, Debug, PartialEq, Eq, Structural)]
pub struct Elapsed {
    pub secs: u64,
    pub nanos: u32,
}

/// Every second between the two ends can be named, with any part of it below a full second; a
/// part of a full second or more only in the last second of a minute.
pub proof fn law_seconds_in_range_are_instants(secs: i64, nanos: u32)
    ensures
        nanos < 1_000_000_000 ==> (valid_instant(secs, nanos) <==> -8_334_601_228_800 <= secs
            <= 8_210_266_876_799),
        valid_instant(secs, nanos) && nanos >= 1_000_000_000 ==> secs % 60 == 59,
        valid_instant(secs, nanos) ==> nanos < 2_000_000_000,
{
}

} // verus!

//! Points in time. A timestamp is a count of seconds since the Unix epoch
//! and the nanoseconds past that second, within the range that `chrono`'s
//! `DateTime<Utc>` represents; the domain rules only carry timestamps from
//! their inputs to the records they build.

use vstd::prelude::*;

verus! {

/// Whether `secs` seconds and `nanos` nanoseconds after the epoch name an
/// instant that `chrono::DateTime<Utc>` represents: from
/// -262143-01-01T00:00:00Z to +262142-12-31T23:59:59Z, with fewer than two
/// seconds' worth of nanoseconds, more than one only in the 59th second of
/// a minute (a leap second).
pub open spec fn is_chrono_instant(secs: int, nanos: int) -> bool {
    &&& -8_334_601_228_800 <= secs <= 8_210_266_876_799
    &&& 0 <= nanos < 2_000_000_000
    &&& (nanos < 1_000_000_000 || secs % 60 == 59)
}

/// Asks `chrono::DateTime::<Utc>::from_timestamp` whether it makes an
/// instant of `secs` and `nanos`. Claimed: it does exactly when
/// [`is_chrono_instant`] holds, as its day-range and
/// `NaiveTime::from_num_seconds_from_midnight_opt` checks show.
#[verifier::external_body]
fn chrono_accepts(secs: i64, nanos: u32) -> (ok: bool)
    ensures
        ok == is_chrono_instant(secs as int, nanos as int),
{
    match chrono::DateTime::<chrono::Utc>::from_timestamp(secs, nanos) {
        Some(_) => true,
        None => false,
    }
}

/// An instant in UTC: whole seconds since 1970-01-01T00:00:00Z and the
/// nanoseconds past that second, as `chrono` represents it.
#[derive(Clone, Copy, Debug, PartialEq, Eq, Structural, Hash, PartialOrd, Ord)]
pub struct Timestamp {
    secs: i64,
    nanos: u32,
}

impl Timestamp {
    #[verifier::type_invariant]
    spec fn in_range(self) -> bool {
        is_chrono_instant(self.secs as int, self.nanos as int)
    }

    /// Whole seconds since the epoch.
    pub closed spec fn seconds(self) -> int {
        self.secs as int
    }

    /// Nanoseconds past the whole second.
    pub closed spec fn nanoseconds(self) -> int {
        self.nanos as int
    }

    /// The instant `secs` seconds and `nanos` nanoseconds after the epoch,
    /// or `None` where `chrono` represents no such instant.
    pub fn from_unix(secs: i64, nanos: u32) -> (t: Option<Timestamp>)
        ensures
            t is Some <==> is_chrono_instant(secs as int, nanos as int),
            t matches Some(t) ==> t.seconds() == secs && t.nanoseconds() == nanos,
    {
        if chrono_accepts(secs, nanos) {
            Some(Timestamp { secs, nanos })
        } else {
            None
        }
    }

    /// The instant `secs` whole seconds after the epoch, or `None` where
    /// `chrono` represents no such instant.
    pub fn from_timestamp_secs(secs: i64) -> (t: Option<Timestamp>)
        ensures
            t is Some <==> is_chrono_instant(secs as int, 0),
            t matches Some(t) ==> t.seconds() == secs && t.nanoseconds() == 0,
    {
        Self::from_unix(secs, 0)
    }

    /// Whole seconds since the epoch.
    pub fn secs(&self) -> (s: i64)
        ensures
            s == self.seconds(),
            is_chrono_instant(self.seconds(), self.nanoseconds()),
    {
        proof {
            use_type_invariant(self);
        }
        self.secs
    }

    /// Nanoseconds past the whole second.
    pub fn subsec_nanos(&self) -> (n: u32)
        ensures
            n == self.nanoseconds(),
            is_chrono_instant(self.seconds(), self.nanoseconds()),
    {
        proof {
            use_type_invariant(self);
        }
        self.nanos
    }
}

} // verus!

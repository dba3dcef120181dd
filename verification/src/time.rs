//! Instants, their RFC 3339 text and the clock, from `chrono`.

use vstd::prelude::*;

verus! {

/// The RFC 3339 text, in UTC, that `chrono` writes for the instant `secs`
/// seconds and `nanos` nanoseconds after the UNIX epoch; `None` when
/// `chrono` has no such instant.
pub uninterp spec fn rfc3339_text(secs: i64, nanos: u32) -> Option<Seq<char>>;

/// `chrono::DateTime::<Utc>::from_timestamp(secs, nanos)`, then `to_rfc3339`
/// of the instant when there is one. The text depends on the arguments
/// alone; what it is, digit by digit, is left to `chrono` and not stated here.
#[verifier::external_body]
fn format_rfc3339(secs: i64, nanos: u32) -> (res: Option<String>)
    ensures
        res.deep_view() == rfc3339_text(secs, nanos),
{
    match chrono::DateTime::<chrono::Utc>::from_timestamp(secs, nanos) {
        Some(t) => Some(t.to_rfc3339()),
        None => None,
    }
}

/// The current UNIX time in whole seconds (`chrono::Utc::now().timestamp()`).
/// It depends on the clock, so nothing is stated of it.
#[verifier::external_body]
pub(crate) fn clock_now_unix_secs() -> i64 {
    chrono::Utc::now().timestamp()
}

/// Bound on the seconds of an instant: far beyond any date `chrono` can hold.
pub const MAX_INSTANT_SECS: i64 = 0x2000_0000_0000_0000;

/// An instant in UTC: whole seconds since the UNIX epoch and the nanoseconds
/// past them. Every instant has an RFC 3339 text.
#[derive(Clone, Copy, Debug, PartialEq, Eq, Structural)]
pub struct Instant {
    secs: i64,
    nanos: u32,
}

/// Nanoseconds since the UNIX epoch of an instant.
pub open spec fn instant_nanos(t: Instant) -> int {
    t.unix_secs() * 1_000_000_000 + t.subsec_nanos()
}

/// The RFC 3339 text of an instant.
pub open spec fn instant_text(t: Instant) -> Seq<char> {
    rfc3339_text(t.unix_secs(), t.subsec_nanos())->0
}

/// Whether `secs` and `nanos` make an instant: nanoseconds below a second,
/// seconds within the bound, and an instant that `chrono` can write.
pub open spec fn is_instant(secs: i64, nanos: u32) -> bool {
    &&& nanos < 1_000_000_000
    &&& -MAX_INSTANT_SECS < secs < MAX_INSTANT_SECS
    &&& rfc3339_text(secs, nanos) is Some
}

impl Instant {
    /// Whole seconds since the UNIX epoch.
    pub closed spec fn unix_secs(self) -> i64 {
        self.secs
    }

    /// Nanoseconds past the whole seconds.
    pub closed spec fn subsec_nanos(self) -> u32 {
        self.nanos
    }

    #[verifier::type_invariant]
    closed spec fn well_formed(self) -> bool {
        is_instant(self.secs, self.nanos)
    }

    /// The instant `secs` seconds and `nanos` nanoseconds after the UNIX
    /// epoch, if those make an instant.
    pub fn new(secs: i64, nanos: u32) -> (res: Option<Instant>)
        ensures
            match res {
                Some(t) => is_instant(secs, nanos) && t.unix_secs() == secs && t.subsec_nanos() == nanos,
                None => !is_instant(secs, nanos),
            },
    {
        if nanos >= 1_000_000_000 || secs <= -MAX_INSTANT_SECS || secs >= MAX_INSTANT_SECS {
            return None;
        }
        match format_rfc3339(secs, nanos) {
            Some(_) => Some(Instant { secs, nanos }),
            None => None,
        }
    }

    /// Whole seconds since the UNIX epoch.
    pub fn secs(&self) -> (res: i64)
        ensures
            res == self.unix_secs(),
            is_instant(self.unix_secs(), self.subsec_nanos()),
    {
        proof {
            use_type_invariant(self);
        }
        self.secs
    }

    /// Nanoseconds past the whole seconds.
    pub fn nanos(&self) -> (res: u32)
        ensures
            res == self.subsec_nanos(),
            is_instant(self.unix_secs(), self.subsec_nanos()),
    {
        proof {
            use_type_invariant(self);
        }
        self.nanos
    }

    /// The RFC 3339 text of this instant.
    pub fn to_rfc3339(&self) -> (res: String)
        ensures
            res@ == instant_text(*self),
    {
        proof {
            use_type_invariant(self);
        }
        match format_rfc3339(self.secs, self.nanos) {
            Some(text) => text,
            None => {
                assert(false);
                String::new()
            },
        }
    }
}

/// Whole seconds in a span of nanoseconds, rounded toward zero.
pub open spec fn whole_seconds(nanos: int) -> int {
    if nanos >= 0 {
        nanos / 1_000_000_000
    } else {
        -((-nanos) / 1_000_000_000)
    }
}

/// Whole seconds from `since` to `now`, rounded toward zero (as `chrono`'s
/// `(now - since).num_seconds()`).
pub fn seconds_between(since: Instant, now: Instant) -> (res: i64)
    ensures
        res == whole_seconds(instant_nanos(now) - instant_nanos(since)),
{
    let a = since.secs();
    let b = now.secs();
    let an = since.nanos();
    let bn = now.nanos();
    let diff: i128 = ((b as i128) - (a as i128)) * 1_000_000_000 + ((bn as i128) - (an as i128));
    assert(diff == instant_nanos(now) - instant_nanos(since));
    if diff >= 0 {
        (diff / 1_000_000_000) as i64
    } else {
        let m: i128 = -diff;
        -((m / 1_000_000_000) as i64)
    }
}

} // verus!

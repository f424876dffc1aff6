//! Points in time, as seconds since the Unix epoch.
use vstd::prelude::*;

verus! {

/// First second of year 0, UTC.
pub const MIN_SECS: i64 = -62167219200;

/// Last second of year 9999, UTC.
pub const MAX_SECS: i64 = 253402300799;

/// The RFC 2822 text of the UTC time `secs` seconds after the Unix epoch,
/// as the date library writes it.
pub uninterp spec fn rfc2822_of(secs: i64) -> Seq<char>;

/// A UTC time, to the second, in the years 0 to 9999: those an RFC 2822
/// date can show.
#[derive(Debug, Clone, Copy)]
pub struct UtcTime {
    secs: i64,
}

/// Relies on chrono's `DateTime::from_timestamp`, which accepts every
/// second of that range, and on `DateTime::to_rfc2822`, which panics only
/// outside years 0 to 9999.
#[verifier::external_body]
fn rfc2822(secs: i64) -> (r: String)
    requires
        MIN_SECS <= secs <= MAX_SECS,
    ensures
        r@ == rfc2822_of(secs),
{
    match chrono::DateTime::from_timestamp(secs, 0) {
        Some(t) => t.to_rfc2822(),
        None => String::new(),
    }
}

impl UtcTime {
    #[verifier::type_invariant]
    spec fn inv(self) -> bool {
        MIN_SECS <= self.secs <= MAX_SECS
    }

    /// Seconds since the Unix epoch.
    pub closed spec fn seconds(self) -> i64 {
        self.secs
    }

    /// The time `secs` seconds after the Unix epoch, if it lies in the years
    /// 0 to 9999.
    pub fn new(secs: i64) -> (r: Option<UtcTime>)
        ensures
            r is Some <==> MIN_SECS <= secs <= MAX_SECS,
            r is Some ==> r->0.seconds() == secs,
    {
        if MIN_SECS <= secs && secs <= MAX_SECS {
            Some(UtcTime { secs })
        } else {
            None
        }
    }

    /// Seconds since the Unix epoch.
    pub fn timestamp(&self) -> (r: i64)
        ensures
            r == self.seconds(),
    {
        self.secs
    }

    /// The time as RFC 2822 text, such as `Tue, 1 Jul 2003 10:52:37 +0000`.
    pub fn to_rfc2822(&self) -> (r: String)
        ensures
            r@ == rfc2822_of(self.seconds()),
    {
        proof {
            use_type_invariant(self);
        }
        rfc2822(self.secs)
    }
}

} // verus!

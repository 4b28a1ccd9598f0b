//! Plain-value timestamps decoded from the host's 64-bit file times.
//!
//! The host reports times as the number of 100-nanosecond intervals since
//! 1601-01-01.  This module turns such a value into seconds and nanoseconds
//! of the Unix epoch; rendering in a calendar or a local time zone is left
//! to the embedding layer.

use vstd::prelude::*;

verus! {

/// Seconds between 1601-01-01 and the Unix epoch.
pub const FILETIME_UNIX_DIFF_SECS: i64 = 11644473600;

/// One second in the host's 100-nanosecond time unit.
pub const FILETIME_TICKS_PER_SEC: i64 = 10000000;

/// An instant as seconds and nanoseconds of the Unix epoch.
#[derive(Debug, Clone, Copy, PartialEq, Eq, Structural)]
pub struct XwfTimestamp {
    pub secs: i64,
    pub nanos: u32,
}

impl XwfTimestamp {
    /// Decodes a positive host file time.
    pub fn from_filetime(filetime: i64) -> (r: XwfTimestamp)
        requires
            filetime > 0,
        ensures
            r.secs == filetime / FILETIME_TICKS_PER_SEC - FILETIME_UNIX_DIFF_SECS,
            r.nanos == (filetime % FILETIME_TICKS_PER_SEC) * 100,
    {
        XwfTimestamp {
            secs: filetime / FILETIME_TICKS_PER_SEC - FILETIME_UNIX_DIFF_SECS,
            nanos: ((filetime % FILETIME_TICKS_PER_SEC) * 100) as u32,
        }
    }
}

/// An instant together with what the host said about its time zone.
#[derive(Debug, Clone, Copy)]
pub enum XwfDateTime {
    /// The timestamp is given in UTC.
    Utc(XwfTimestamp),
    /// The timestamp is given in UTC but meant for local display.
    Local(XwfTimestamp),
    /// The timestamp carries no time zone information at all.
    NoTimezone(XwfTimestamp),
}

impl XwfDateTime {
    /// The bare instant, with the time zone information dropped.
    #[verifier::allow_in_spec]
    pub fn to_naive(&self) -> XwfTimestamp
        returns (match *self {
            XwfDateTime::Utc(t) => t,
            XwfDateTime::Local(t) => t,
            XwfDateTime::NoTimezone(t) => t,
        })
    {
        match *self {
            XwfDateTime::Utc(t) => t,
            XwfDateTime::Local(t) => t,
            XwfDateTime::NoTimezone(t) => t,
        }
    }
}

/// Two host times are the same moment when their bare instants agree,
/// whatever their time zone markers say.
impl PartialEq for XwfDateTime {
    fn eq(&self, other: &Self) -> (r: bool) {
        self.to_naive() == other.to_naive()
    }
}

impl vstd::std_specs::cmp::PartialEqSpecImpl for XwfDateTime {
    open spec fn obeys_eq_spec() -> bool {
        true
    }

    open spec fn eq_spec(&self, other: &Self) -> bool {
        self.to_naive() == other.to_naive()
    }
}

impl Eq for XwfDateTime {}

} // verus!

//! Millisecond timestamps on the NTP epoch (1900-01-01T00:00:00Z) and their
//! conversions to and from Unix seconds.

use vstd::prelude::*;

verus! {

/// Seconds between the NTP epoch (1900) and the Unix epoch (1970).
pub const NTP_TO_UNIX_EPOCH_SECONDS: u64 = 0x83AA7E80;

/// Milliseconds elapsed since the NTP epoch, as a plain unsigned count.
#[derive(Debug, Copy, Clone, Eq, PartialEq, Structural)]
pub struct NtpEpochTime(u64);

impl View for NtpEpochTime {
    type V = u64;

    closed spec fn view(&self) -> u64 {
        self.0
    }
}

impl NtpEpochTime {
    /// Wraps a raw millisecond count; no validation.
    pub fn new(ms: u64) -> (r: NtpEpochTime)
        ensures
            r@ == ms,
    {
        NtpEpochTime(ms)
    }

    /// Converts Unix seconds to NTP-epoch milliseconds. The arithmetic wraps
    /// modulo 2^64; inputs far outside the calendar range wrap silently.
    pub fn from_unix_seconds(unix: u64) -> (r: NtpEpochTime)
        ensures
            r@ == ((NTP_TO_UNIX_EPOCH_SECONDS + unix) * 1000) % 0x1_0000_0000_0000_0000,
    {
        NtpEpochTime(NTP_TO_UNIX_EPOCH_SECONDS.wrapping_add(unix).wrapping_mul(1000))
    }

    /// The raw millisecond count.
    pub fn to_u64(&self) -> (r: u64)
        ensures
            r == self@,
    {
        let NtpEpochTime(ms) = *self;
        ms
    }

    /// Converts back to Unix seconds. Only defined for timestamps at or after
    /// the Unix epoch: earlier values would underflow.
    pub fn to_unix_seconds(&self) -> (r: u64)
        requires
            self@ / 1000 >= NTP_TO_UNIX_EPOCH_SECONDS,
        ensures
            r == self@ / 1000 - NTP_TO_UNIX_EPOCH_SECONDS,
    {
        (self.to_u64() / 1000) - NTP_TO_UNIX_EPOCH_SECONDS
    }
}

} // verus!

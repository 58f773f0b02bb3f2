use vstd::prelude::*;

verus! {

/// Number of 100-nanosecond ticks between the Windows epoch
/// (1601-01-01) and the Unix epoch (1970-01-01).
pub const WINDOWS_EPOCH: u64 = 116444736000000000;

/// A timer over the system clock. The clock counts 100-nanosecond ticks;
/// the caller samples it (a native query) and hands the samples in.
pub struct Timer {
    start_time: u64,
}

impl Timer {
    /// Starts a timer at the given clock sample.
    pub fn new(now: u64) -> (t: Timer)
        ensures
            t.start() == now,
    {
        Timer { start_time: now }
    }

    /// The clock sample this timer started at.
    pub closed spec fn start(&self) -> u64 {
        self.start_time
    }

    /// The clock sample this timer started at, for the clock's owner.
    pub fn start_time(&self) -> (t: u64)
        ensures
            t == self.start(),
    {
        self.start_time
    }

    /// Returns the time elapsed between this timer's start and the given
    /// clock sample, in microseconds.
    pub fn elapsed(&self, now: u64) -> (micros: u64)
        requires
            now >= self.start(),
        ensures
            micros == (now - self.start()) / 10,
    {
        let elapsed_ticks = now - self.start_time;
        elapsed_ticks / 10
    }
}

/// Converts a Windows clock value (100-nanosecond ticks since 1601)
/// to a Unix timestamp in seconds.
pub fn windows_to_unix_timestamp(sys_time: &u64) -> (secs: u64)
    requires
        *sys_time >= WINDOWS_EPOCH,
    ensures
        secs == (*sys_time - WINDOWS_EPOCH) / 10_000_000,
{
    (sys_time - WINDOWS_EPOCH) / 10_000_000
}

/// Converts the given system clock sample to a Unix timestamp in seconds.
pub fn get_unix_timestamp(now: u64) -> (secs: u64)
    requires
        now >= WINDOWS_EPOCH,
    ensures
        secs == (now - WINDOWS_EPOCH) / 10_000_000,
{
    windows_to_unix_timestamp(&now)
}

} // verus!

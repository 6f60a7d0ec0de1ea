use vstd::prelude::*;

verus! {

/// The number of microseconds in a second.
pub const USEC_PER_SEC: u64 = 1_000_000;

/// The number of nanoseconds in a microsecond.
pub const USEC_TO_NANOS: u64 = 1_000;

/// The number of milliseconds in a second.
pub const MSEC_PER_SEC: u64 = 1_000;

/// The number of nanoseconds in a millisecond.
pub const MSEC_TO_NANOS: u64 = 1_000_000;

/// The shortest wait, in microseconds, that is left to the scheduler. A
/// shorter one is spent spinning, because a sleep cannot be that short.
pub const SPIN_BELOW_USEC: u64 = 100;

/// How a wait is spent.
#[derive(Debug, Copy, Clone, PartialEq, Eq, Structural)]
pub enum Delay {
    /// There is nothing to wait for.
    Nothing,
    /// Spin on the clock until `usec` microseconds have passed.
    Spin { usec: u64 },
    /// Sleep for `secs` seconds and `nanos` nanoseconds.
    Sleep { secs: u64, nanos: u32 },
}

/// How a wait of `usec` microseconds is spent.
pub open spec fn usec_delay(usec: u64) -> Delay {
    if usec == 0 {
        Delay::Nothing
    } else if usec < SPIN_BELOW_USEC {
        Delay::Spin { usec }
    } else {
        Delay::Sleep {
            secs: usec / USEC_PER_SEC,
            nanos: ((usec % USEC_PER_SEC) * USEC_TO_NANOS) as u32,
        }
    }
}

/// How a wait of `ms` milliseconds is spent.
pub open spec fn ms_delay(ms: u64) -> Delay {
    Delay::Sleep { secs: ms / MSEC_PER_SEC, nanos: ((ms % MSEC_PER_SEC) * MSEC_TO_NANOS) as u32 }
}

/// Returns the wait of `usec` microseconds that is spent spinning,
/// whatever its length.
pub fn delay_hard(usec: u64) -> (out: Delay)
    ensures
        out == (Delay::Spin { usec }),
{
    Delay::Spin { usec }
}

/// Returns how a wait of `usec` microseconds is spent: not at all where
/// there is nothing to wait for, spinning where it is shorter than a sleep
/// can be, and sleeping otherwise.
pub fn delay_usec(usec: u64) -> (out: Delay)
    ensures
        out == usec_delay(usec),
        out matches Delay::Sleep { secs, nanos } ==> nanos < 1_000_000_000 && secs * 1_000_000
            + nanos / 1_000 == usec,
{
    if usec == 0 {
        Delay::Nothing
    } else if usec < SPIN_BELOW_USEC {
        delay_hard(usec)
    } else {
        let secs = usec / USEC_PER_SEC;
        let nanos = ((usec % USEC_PER_SEC) * USEC_TO_NANOS) as u32;
        Delay::Sleep { secs, nanos }
    }
}

/// Returns how a wait of `ms` milliseconds is spent: sleeping.
pub fn delay_ms(ms: u64) -> (out: Delay)
    ensures
        out == ms_delay(ms),
        out matches Delay::Sleep { secs, nanos } && nanos < 1_000_000_000 && secs * 1_000
            + nanos / 1_000_000 == ms,
{
    let secs = ms / MSEC_PER_SEC;
    let nanos = ((ms % MSEC_PER_SEC) * MSEC_TO_NANOS) as u32;
    Delay::Sleep { secs, nanos }
}

/// Returns the reading of a microsecond clock at which a spin that starts
/// at `now` and lasts `usec` microseconds is over. A clock that would run
/// past its last reading stays there.
pub fn spin_deadline(now: u64, usec: u64) -> (out: u64)
    ensures
        out == if now + usec <= u64::MAX {
            (now + usec) as u64
        } else {
            u64::MAX
        },
{
    if usec <= u64::MAX - now {
        now + usec
    } else {
        u64::MAX
    }
}

/// Tells whether a spin that is over at `deadline` is over at `now`.
pub fn spin_over(now: u64, deadline: u64) -> (out: bool)
    ensures
        out == (now >= deadline),
{
    !(now < deadline)
}

} // verus!

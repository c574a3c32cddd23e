//! Readings of the system clock and their conversion to whole nanoseconds
//! and milliseconds.
use vstd::prelude::*;

verus! {

#[verifier::external_type_specification]
#[verifier::external_body]
pub struct ExSystemTime(std::time::SystemTime);

#[verifier::external_type_specification]
#[verifier::external_body]
pub struct ExSystemTimeError(std::time::SystemTimeError);

/// Relies on `SystemTime::now`: the current time; nothing is known of its value.
pub assume_specification[ std::time::SystemTime::now ]() -> std::time::SystemTime;

/// Relies on `SystemTime::duration_since`: either the time elapsed since
/// `earlier`, or an error when `earlier` is later; nothing is known of which.
pub assume_specification[ std::time::SystemTime::duration_since ](
    self_: &std::time::SystemTime,
    earlier: std::time::SystemTime,
) -> core::result::Result<core::time::Duration, std::time::SystemTimeError>;

/// Relies on `SystemTimeError::duration`: how far the second time lay after
/// the first.
pub assume_specification[ std::time::SystemTimeError::duration ](
    self_: &std::time::SystemTimeError,
) -> core::time::Duration;

/// Relies on `Duration::as_secs`: the whole seconds of the duration.
pub assume_specification[ core::time::Duration::as_secs ](self_: &core::time::Duration) -> u64;

/// Relies on `Duration::subsec_nanos`: the fractional part in nanoseconds,
/// which its documentation states is always less than one billion.
pub assume_specification[ core::time::Duration::subsec_nanos ](
    self_: &core::time::Duration,
) -> (r: u32)
    ensures
        r < 1_000_000_000,
;

/// Relies on `std::time::UNIX_EPOCH`: the reference instant that readings
/// are measured from.
#[verifier::external_body]
fn unix_epoch() -> std::time::SystemTime {
    std::time::UNIX_EPOCH
}

/// Nanoseconds in one second.
pub const NANOS_PER_SEC: u64 = 1_000_000_000;

/// Nanoseconds in one millisecond.
pub const NANOS_PER_MILLI: u64 = 1_000_000;

/// Milliseconds in one second.
pub const MILLIS_PER_SEC: u64 = 1000;

/// The largest millisecond count: that of the largest nanosecond count.
pub const MAX_MILLIS: u64 = u64::MAX / NANOS_PER_MILLI;

/// Time elapsed since the reference instant: whole seconds, and the
/// nanoseconds of the second under way.
#[derive(Clone, Copy, Debug, PartialEq, Eq)]
pub struct Elapsed {
    pub secs: u64,
    pub nanos: u32,
}

/// `x`, or `cap` where `x` exceeds it.
pub open spec fn capped(x: int, cap: int) -> int {
    if x <= cap {
        x
    } else {
        cap
    }
}

impl Elapsed {
    /// A reading as the clock gives it: the nanosecond part is under a second.
    pub open spec fn wf(self) -> bool {
        self.nanos < NANOS_PER_SEC
    }

    /// The exact number of nanoseconds elapsed.
    pub open spec fn exact_nanos(self) -> int {
        self.secs * NANOS_PER_SEC + self.nanos
    }

    /// The elapsed time in nanoseconds, saturating at `u64::MAX`.
    pub open spec fn nanos_value(self) -> int {
        capped(self.exact_nanos(), u64::MAX as int)
    }

    /// The elapsed time in whole milliseconds (truncated), saturating at the
    /// millisecond count of `u64::MAX` nanoseconds.
    pub open spec fn millis_value(self) -> int {
        capped(self.exact_nanos() / (NANOS_PER_MILLI as int), MAX_MILLIS as int)
    }

    /// The elapsed time in nanoseconds; past `u64::MAX` nanoseconds (some
    /// five centuries) the count stays at `u64::MAX` rather than wrapping,
    /// so that it never goes back.
    pub fn total_nanos(&self) -> (r: u64)
        ensures
            r == self.nanos_value(),
    {
        match self.secs.checked_mul(NANOS_PER_SEC) {
            Some(whole) => match whole.checked_add(self.nanos as u64) {
                Some(t) => t,
                None => u64::MAX,
            },
            None => {
                assert(self.secs * NANOS_PER_SEC > u64::MAX);
                u64::MAX
            },
        }
    }

    /// The elapsed time in whole milliseconds, truncated; it saturates where
    /// `total_nanos` does.
    pub fn total_millis(&self) -> (r: u64)
        ensures
            r == self.millis_value(),
    {
        let ms_in_second: u64 = (self.nanos as u64) / NANOS_PER_MILLI;
        proof {
            lemma_millis_of_parts(self.secs as int, self.nanos as int);
        }
        match self.secs.checked_mul(MILLIS_PER_SEC) {
            Some(whole) => match whole.checked_add(ms_in_second) {
                Some(t) => if t > MAX_MILLIS {
                    MAX_MILLIS
                } else {
                    t
                },
                None => MAX_MILLIS,
            },
            None => MAX_MILLIS,
        }
    }
}

/// The whole milliseconds in `secs` seconds and `nanos` nanoseconds are the
/// seconds' milliseconds and those of the nanoseconds.
proof fn lemma_millis_of_parts(secs: int, nanos: int)
    requires
        secs >= 0,
        nanos >= 0,
    ensures
        (secs * 1_000_000_000 + nanos) / 1_000_000 == secs * 1000 + nanos / 1_000_000,
{
    assert((secs * 1_000_000_000 + nanos) / 1_000_000 == secs * 1000 + nanos / 1_000_000)
        by (nonlinear_arith)
        requires
            secs >= 0,
            nanos >= 0,
    {
        assert(secs * 1_000_000_000 + nanos == (secs * 1000 + nanos / 1_000_000) * 1_000_000
            + nanos % 1_000_000);
    }
}

/// For every reading, the millisecond count is the nanosecond count divided
/// by one million, truncated: the two units agree, saturation included.
pub proof fn lemma_millis_are_nanos_truncated(e: Elapsed)
    ensures
        e.millis_value() == e.nanos_value() / (NANOS_PER_MILLI as int),
{
    let x = e.exact_nanos();
    assert(x >= 0) by (nonlinear_arith)
        requires x == e.secs * 1_000_000_000 + e.nanos, e.secs >= 0, e.nanos >= 0;
    if x > u64::MAX {
        assert(x / 1_000_000 >= (u64::MAX as int) / 1_000_000) by (nonlinear_arith)
            requires x > u64::MAX;
    }
}

/// Converting readings never reverses their order: a later reading gives a
/// nanosecond count and a millisecond count at least those of an earlier one.
pub proof fn lemma_conversions_keep_order(earlier: Elapsed, later: Elapsed)
    requires
        earlier.exact_nanos() <= later.exact_nanos(),
    ensures
        earlier.nanos_value() <= later.nanos_value(),
        earlier.millis_value() <= later.millis_value(),
{
    let a = earlier.exact_nanos();
    let b = later.exact_nanos();
    assert(a / 1_000_000 <= b / 1_000_000) by (nonlinear_arith)
        requires a <= b;
}

/// Reads the system clock: the time elapsed since the Unix epoch. A clock
/// set before the epoch gives the distance to it instead.
pub fn duration_since_epoch() -> (r: Elapsed)
    ensures
        r.wf(),
{
    let now = std::time::SystemTime::now();
    let d = match now.duration_since(unix_epoch()) {
        Ok(d) => d,
        Err(e) => e.duration(),
    };
    Elapsed { secs: d.as_secs(), nanos: d.subsec_nanos() }
}

/// The current value of the clock in nanoseconds since the reference
/// instant. The source is the system clock: successive readings go forward
/// as long as nobody sets that clock back.
pub fn precise_time_ns() -> (r: u64)
    ensures
        exists|e: Elapsed| e.wf() && r == e.nanos_value(),
{
    let e = duration_since_epoch();
    e.total_nanos()
}

/// The current value of the clock in whole milliseconds since the reference
/// instant.
pub fn precise_time_ms() -> (r: u64)
    ensures
        exists|e: Elapsed| e.wf() && r == e.millis_value(),
{
    let e = duration_since_epoch();
    e.total_millis()
}

} // verus!

//! The time that the window's animations run by.
use embassy_time::Instant;
use vstd::prelude::*;

verus! {

/// Time since the board started.
#[derive(Clone, Copy, Debug, PartialEq, Eq, Structural)]
pub struct Uptime {
    /// Whole seconds.
    pub secs: u64,
    /// The rest, in nanoseconds.
    pub nanos: u32,
}

impl Uptime {
    /// The time in nanoseconds.
    pub open spec fn total_nanos(self) -> int {
        self.secs * 1_000_000_000 + self.nanos
    }
}

/// The time from `embassy_time::Instant::from_secs(0)` to the instant of `ticks` clock
/// ticks, as `embassy_time::Instant::duration_since` gives it, in whole seconds and the
/// nanoseconds beyond. What is trusted: the clock ticks once per microsecond, which is the
/// rate that `embassy_time` is built with here, and no part of a tick is lost.
#[verifier::external_body]
fn since_zero(ticks: u64) -> (r: (u64, u32))
    ensures
        r.0 == ticks / 1_000_000,
        r.1 == (ticks % 1_000_000) * 1_000,
{
    let elapsed: core::time::Duration =
        Instant::from_ticks(ticks).duration_since(Instant::from_secs(0)).into();
    (elapsed.as_secs(), elapsed.subsec_nanos())
}

/// The time since the board started, when the clock shows `ticks` microseconds.
pub fn duration_since_start(ticks: u64) -> (uptime: Uptime)
    ensures
        uptime.total_nanos() == ticks * 1_000,
        uptime.nanos < 1_000_000_000,
{
    let (secs, nanos): (u64, u32) = since_zero(ticks);
    Uptime { secs, nanos }
}

/// Time never runs backwards: a later tick count gives a later time, by as many
/// microseconds.
pub proof fn law_time_keeps_pace(t1: int, t2: int, u1: Uptime, u2: Uptime)
    requires
        t1 <= t2,
        u1.total_nanos() == t1 * 1_000,
        u2.total_nanos() == t2 * 1_000,
    ensures
        u2.total_nanos() - u1.total_nanos() == (t2 - t1) * 1_000,
        u1.total_nanos() <= u2.total_nanos(),
{
}

/// A time is written in whole seconds and the microseconds beyond them: only one way of
/// writing amounts to a number of microseconds.
pub proof fn law_uptime_is_normal(ticks: u64, uptime: Uptime)
    requires
        uptime.total_nanos() == ticks * 1_000,
        uptime.nanos < 1_000_000_000,
    ensures
        uptime.secs == ticks / 1_000_000,
        uptime.nanos == (ticks % 1_000_000) * 1_000,
{
    let s = ticks as int / 1_000_000;
    let r = ticks as int % 1_000_000;
    assert(ticks == s * 1_000_000 + r);
    assert(uptime.secs * 1_000_000_000 + uptime.nanos == s * 1_000_000_000 + r * 1_000);
}

} // verus!

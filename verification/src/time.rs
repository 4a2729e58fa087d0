use vstd::prelude::*;

verus! {

/// Nanoseconds in one second.
pub const NANOS_PER_SEC: i128 = 1_000_000_000;

/// Largest distance from the Unix epoch, in seconds, that an instant may lie at.
/// Every UTC instant that `chrono` can represent (years -262143 to 262142)
/// lies within it.
pub const MAX_EPOCH_SECS: i64 = 10_000_000_000_000;

/// An instant in UTC: whole seconds since the Unix epoch, and the nanoseconds
/// that follow that second.
#[derive(Clone, Copy, Debug, PartialEq, Eq)]
pub struct Timestamp {
    pub secs: i64,
    pub nanos: u32,
}

impl Timestamp {
    /// A well-formed instant: the sub-second part is below one second and the
    /// instant lies in the range that the calendar types can represent.
    pub open spec fn wf(self) -> bool {
        &&& self.nanos < 1_000_000_000
        &&& -MAX_EPOCH_SECS <= self.secs <= MAX_EPOCH_SECS
    }

    /// The instant as nanoseconds since the Unix epoch.
    pub open spec fn total_nanos(self) -> int {
        self.secs * 1_000_000_000 + self.nanos
    }
}

/// Signed nanoseconds from `earlier` to `later`.
pub open spec fn nanos_between(later: Timestamp, earlier: Timestamp) -> int {
    later.total_nanos() - earlier.total_nanos()
}

/// `later - earlier` in whole seconds, the fraction dropped toward zero.
pub open spec fn whole_seconds_between(later: Timestamp, earlier: Timestamp) -> int {
    let d = nanos_between(later, earlier);
    if d >= 0 {
        d / 1_000_000_000
    } else {
        -((-d) / 1_000_000_000)
    }
}

/// Computes `later - earlier` in nanoseconds.
pub fn elapsed_nanos(later: Timestamp, earlier: Timestamp) -> (r: i128)
    requires
        later.wf(),
        earlier.wf(),
    ensures
        r == nanos_between(later, earlier),
{
    let ds: i128 = later.secs as i128 - earlier.secs as i128;
    let dn: i128 = later.nanos as i128 - earlier.nanos as i128;
    assert(-20_000_000_000_000 <= ds <= 20_000_000_000_000);
    assert(-20_000_000_000_000_000_000_000 <= ds * 1_000_000_000 <= 20_000_000_000_000_000_000_000)
        by (nonlinear_arith)
        requires
            -20_000_000_000_000 <= ds <= 20_000_000_000_000,
    ;
    ds * NANOS_PER_SEC + dn
}

/// Computes `later - earlier` in whole seconds, dropping the fraction toward
/// zero, as a time span's whole-second count does.
pub fn elapsed_whole_seconds(later: Timestamp, earlier: Timestamp) -> (r: i64)
    requires
        later.wf(),
        earlier.wf(),
    ensures
        r == whole_seconds_between(later, earlier),
        -30_000_000_000_000 <= r <= 30_000_000_000_000,
{
    let d = elapsed_nanos(later, earlier);
    assert(-30_000_000_000_000_000_000_000 <= d <= 30_000_000_000_000_000_000_000) by (nonlinear_arith)
        requires
            d == (later.secs - earlier.secs) * 1_000_000_000 + (later.nanos - earlier.nanos),
            -20_000_000_000_000 <= later.secs - earlier.secs <= 20_000_000_000_000,
            -1_000_000_000 <= later.nanos - earlier.nanos <= 1_000_000_000,
    ;
    let q: i128 = if d >= 0 {
        d / NANOS_PER_SEC
    } else {
        -((-d) / NANOS_PER_SEC)
    };
    assert(-30_000_000_000_000 <= q <= 30_000_000_000_000) by (nonlinear_arith)
        requires
            -30_000_000_000_000_000_000_000 <= d <= 30_000_000_000_000_000_000_000,
            q == (if d >= 0 { d / 1_000_000_000 } else { -((-d) / 1_000_000_000) }),
    ;
    q as i64
}

} // verus!

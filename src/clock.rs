use vstd::arithmetic::div_mod::{lemma_div_is_ordered, lemma_div_pos_is_pos};
use vstd::arithmetic::mul::lemma_mul_inequality;
use vstd::prelude::*;

verus! {

pub const NANOS_PER_SECOND: u64 = 1_000_000_000;

/// Offset of a timestamp from the clock's anchor, in nanoseconds: `pts` time-base units of
/// `num / den` seconds each, rounded down. A timestamp at or before the stream's origin,
/// and any timestamp under a time base that is not a positive ratio, maps onto the anchor
/// itself.
pub open spec fn pts_offset_ns(pts: int, num: int, den: int) -> int {
    if pts <= 0 || num <= 0 || den <= 0 {
        0
    } else {
        (pts * num * NANOS_PER_SECOND) / den
    }
}

/// The monotonic instant (in nanoseconds) at which a frame stamped `pts` is due: anchor
/// plus offset, held at the last representable instant when it lies beyond it.
pub open spec fn deadline_ns(start_ns: int, num: int, den: int, pts: int) -> int {
    if start_ns + pts_offset_ns(pts, num, den) > u64::MAX {
        u64::MAX as int
    } else {
        start_ns + pts_offset_ns(pts, num, den)
    }
}

/// How long to wait at instant `now_ns` before presenting a frame stamped `pts`: the time
/// left until its deadline, or zero when the deadline has already passed.
pub open spec fn wait_ns(start_ns: int, num: int, den: int, pts: int, now_ns: int) -> int {
    let d = deadline_ns(start_ns, num, den, pts);
    if d > now_ns {
        d - now_ns
    } else {
        0
    }
}

/// Turns stream timestamps into waits against a monotonic clock reading. The anchor and
/// the time base are fixed when the clock is made and never change afterwards.
pub struct StreamClock {
    pub time_base_num: i32,
    pub time_base_den: i32,
    pub start_ns: u64,
}

impl StreamClock {
    /// A clock anchored at the monotonic reading `start_ns`, for a stream whose time base
    /// is `time_base_num / time_base_den` seconds.
    pub fn new(time_base_num: i32, time_base_den: i32, start_ns: u64) -> (r: StreamClock)
        ensures
            r.time_base_num == time_base_num,
            r.time_base_den == time_base_den,
            r.start_ns == start_ns,
    {
        StreamClock { time_base_num, time_base_den, start_ns }
    }

    pub open spec fn deadline_spec(&self, pts: i64) -> int {
        deadline_ns(
            self.start_ns as int,
            self.time_base_num as int,
            self.time_base_den as int,
            pts as int,
        )
    }

    pub open spec fn wait_spec(&self, pts: i64, now_ns: u64) -> int {
        wait_ns(
            self.start_ns as int,
            self.time_base_num as int,
            self.time_base_den as int,
            pts as int,
            now_ns as int,
        )
    }

    /// The wait before presenting a frame stamped `pts`, given the monotonic reading
    /// `now_ns`. Every timestamp gets a wait, zero once its deadline has passed; `None`
    /// only when the frame carries no timestamp (present at once).
    pub fn convert_pts_to_instant(&self, pts: Option<i64>, now_ns: u64) -> (r: Option<u64>)
        ensures
            match pts {
                None => r is None,
                Some(p) => r == Some(self.wait_spec(p, now_ns) as u64) && self.wait_spec(
                    p,
                    now_ns,
                ) <= u64::MAX,
            },
    {
        let p: i64 = match pts {
            None => {
                return None;
            },
            Some(p) => p,
        };
        let num = self.time_base_num;
        let den = self.time_base_den;
        let offset: u128 = if p > 0 && num > 0 && den > 0 {
            proof {
                assert((p as int) * (num as int) * 1_000_000_000 <= 0x8000_0000_0000_0000int
                    * 0x8000_0000int * 1_000_000_000) by (nonlinear_arith)
                    requires
                        0 < p <= 0x8000_0000_0000_0000int,
                        0 < num <= 0x8000_0000int,
                ;
            }
            (p as u128) * (num as u128) * 1_000_000_000 / (den as u128)
        } else {
            0
        };
        assert(offset == pts_offset_ns(p as int, num as int, den as int));
        let deadline: u64 = if offset > (u64::MAX - self.start_ns) as u128 {
            u64::MAX
        } else {
            self.start_ns + offset as u64
        };
        if deadline > now_ns {
            Some(deadline - now_ns)
        } else {
            Some(0)
        }
    }
}

proof fn lemma_offset_monotone(a: int, b: int, num: int, den: int)
    requires
        a <= b,
    ensures
        0 <= pts_offset_ns(a, num, den) <= pts_offset_ns(b, num, den),
{
    if num > 0 && den > 0 && b > 0 {
        assert(b * num * NANOS_PER_SECOND >= 0) by (nonlinear_arith)
            requires
                b > 0,
                num > 0,
        ;
        lemma_div_pos_is_pos(b * num * NANOS_PER_SECOND, den);
        if a > 0 {
            lemma_mul_inequality(a, b, num);
            lemma_mul_inequality(a * num, b * num, NANOS_PER_SECOND as int);
            lemma_div_is_ordered(a * num * NANOS_PER_SECOND, b * num * NANOS_PER_SECOND, den);
            assert(a * num * NANOS_PER_SECOND >= 0) by (nonlinear_arith)
                requires
                    a > 0,
                    num > 0,
            ;
            lemma_div_pos_is_pos(a * num * NANOS_PER_SECOND, den);
        }
    }
}

/// A frame whose deadline is already at or behind the current reading is presented with
/// no wait at all: the wait is zero, never negative and never an error.
pub proof fn lemma_late_frame_waits_zero(clock: StreamClock, pts: i64, now_ns: u64)
    requires
        clock.deadline_spec(pts) <= now_ns,
    ensures
        clock.wait_spec(pts, now_ns) == 0,
{
}

/// Every timestamp gets a wait, between zero and the largest representable duration.
pub proof fn lemma_wait_in_range(clock: StreamClock, pts: i64, now_ns: u64)
    ensures
        0 <= clock.wait_spec(pts, now_ns) <= u64::MAX,
{
    lemma_offset_monotone(pts as int, pts as int, clock.time_base_num as int, clock.time_base_den as int);
}

/// At one reading of the clock, a later timestamp never waits less than an earlier one.
pub proof fn lemma_wait_monotone(clock: StreamClock, pts1: i64, pts2: i64, now_ns: u64)
    requires
        pts1 <= pts2,
    ensures
        clock.wait_spec(pts1, now_ns) <= clock.wait_spec(pts2, now_ns),
        clock.deadline_spec(pts1) <= clock.deadline_spec(pts2),
{
    lemma_offset_monotone(
        pts1 as int,
        pts2 as int,
        clock.time_base_num as int,
        clock.time_base_den as int,
    );
}

} // verus!

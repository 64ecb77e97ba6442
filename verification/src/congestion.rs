//! Cubic congestion control: how many acknowledgements it takes to grow the
//! congestion window by one packet.
use crate::clock::{
    duration_as_millis, duration_between, duration_is_zero, instant_duration_since,
    instant_elapsed, instant_now, millis_of,
};
use crate::constants::{CONG_C, CONG_C_SCALE};
use std::time::{Duration, Instant};
use vstd::prelude::*;

verus! {

/// Phase of congestion control.
#[derive(Debug, Clone, Copy, PartialEq, Eq)]
pub enum CongestionState {
    /// Normal operation.
    Open,
    /// Recovering from a loss.
    Recovery,
    /// After a retransmission timeout.
    Loss,
}

impl CongestionState {
    /// The number that identifies the phase: 1 for `Open`, 2 for `Recovery`,
    /// 3 for `Loss`.
    pub fn code(&self) -> (n: u8)
        ensures
            n == (match *self {
                CongestionState::Open => 1u8,
                CongestionState::Recovery => 2u8,
                CongestionState::Loss => 3u8,
            }),
    {
        match self {
            CongestionState::Open => 1,
            CongestionState::Recovery => 2,
            CongestionState::Loss => 3,
        }
    }
}

/// The numbers a `CongestionControl` keeps.
pub struct CubicState {
    /// Time, in ms, the cubic curve takes to climb back to `origin_point`.
    pub k: u32,
    /// Acknowledgements counted in the current epoch.
    pub ack_cnt: u32,
    /// Window at the plateau of the cubic curve.
    pub origin_point: u32,
    /// Smallest delay seen, in ms.
    pub delay_min: u32,
    /// Acknowledgements per window increment.
    pub cnt: u32,
    /// Window before the last reduction.
    pub last_max_cwnd: u32,
    /// Window at the last update.
    pub last_cwnd: u32,
    /// Window a TCP-friendly controller would have.
    pub tcp_cwnd: u32,
}

/// How far, in ms, time `t` lies from `k`.
pub open spec fn distance(k: u32, t: u32) -> u32 {
    if t < k {
        (k - t) as u32
    } else {
        (t - k) as u32
    }
}

/// `CONG_C * d^3`, for the distance `d` of `t` from `k`, fits in 32 bits,
/// the width in which the controller computes it.
pub open spec fn cubic_fits(k: u32, t: u32) -> bool {
    let d = distance(k, t);
    CONG_C * d * d * d <= u32::MAX
}

/// The cubic growth term at distance `d` ms from the plateau:
/// `CONG_C * d^3 / CONG_C_SCALE`.
pub open spec fn cubic_delta(d: u32) -> int {
    (CONG_C * d * d * d) / (CONG_C_SCALE as int)
}

/// The time into the epoch that a controller uses: the whole ms read since
/// the epoch start, taken to 32 bits, plus the smallest delay.
pub open spec fn epoch_time(o: CubicState, since_start_ms: u128) -> u32 {
    ((since_start_ms as u32) + o.delay_min) as u32
}

/// The window the cubic curve aims at `t` ms into an epoch.
pub open spec fn cubic_target(origin_point: u32, k: u32, t: u32) -> int {
    if t < k {
        origin_point - cubic_delta((k - t) as u32)
    } else {
        origin_point + cubic_delta((t - k) as u32)
    }
}

/// Acknowledgements per window increment for window `cwnd` heading to
/// `target`: `cwnd / (target - cwnd)` below the target, `100 * cwnd` at or
/// above it, and at most 20 while no window has been recorded (`last_cwnd == 0`).
pub open spec fn ack_count(cwnd: u32, target: int, last_cwnd: u32) -> int {
    let c = if target > cwnd {
        (cwnd as int) / (target - cwnd)
    } else {
        100 * cwnd
    };
    if last_cwnd == 0 && c > 20 {
        20
    } else {
        c
    }
}

/// Cubic congestion-control state of one stream.
#[derive(Debug, Clone)]
pub struct CongestionControl {
    k: u32,
    ack_cnt: u32,
    origin_point: u32,
    delay_min: u32,
    /// Acknowledgements per window increment.
    pub cnt: u32,
    last_time: Instant,
    start_time: Instant,
    last_max_cwnd: u32,
    last_cwnd: u32,
    tcp_cwnd: u32,
}

impl View for CongestionControl {
    type V = CubicState;

    closed spec fn view(&self) -> CubicState {
        CubicState {
            k: self.k,
            ack_cnt: self.ack_cnt,
            origin_point: self.origin_point,
            delay_min: self.delay_min,
            cnt: self.cnt,
            last_max_cwnd: self.last_max_cwnd,
            last_cwnd: self.last_cwnd,
            tcp_cwnd: self.tcp_cwnd,
        }
    }
}

impl CongestionControl {
    /// Start of the current epoch.
    pub closed spec fn start_time(&self) -> Instant {
        self.start_time
    }

    /// Time of the last recorded window.
    pub closed spec fn last_time(&self) -> Instant {
        self.last_time
    }

    /// The state every controller keeps: no delay has been measured, and no
    /// window or window reduction recorded. So a new epoch never has to climb
    /// back to an old maximum, and `cnt` is capped at 20.
    pub open spec fn wf(&self) -> bool {
        &&& self@.delay_min == 0
        &&& self@.last_max_cwnd == 0
        &&& self@.last_cwnd == 0
    }

    /// The numbers of a new controller: all zero.
    pub open spec fn new_state() -> CubicState {
        CubicState {
            k: 0,
            ack_cnt: 0,
            origin_point: 0,
            delay_min: 0,
            cnt: 0,
            last_max_cwnd: 0,
            last_cwnd: 0,
            tcp_cwnd: 0,
        }
    }

    /// A controller with all counters at zero and both times set to now.
    pub fn new() -> (cc: Self)
        ensures
            cc.wf(),
            cc@ == Self::new_state(),
    {
        CongestionControl {
            k: 0,
            ack_cnt: 0,
            origin_point: 0,
            delay_min: 0,
            cnt: 0,
            last_time: instant_now(),
            start_time: instant_now(),
            last_max_cwnd: 0,
            last_cwnd: 0,
            tcp_cwnd: 0,
        }
    }

    /// Acknowledgements per window increment.
    pub fn cnt(&self) -> (c: u32)
        ensures
            c == self@.cnt,
    {
        self.cnt
    }

    /// The window the cubic curve aims at `t` ms into the epoch. `CONG_C *
    /// d^3`, for the distance `d` of `t` from `k`, must fit in 32 bits.
    pub fn target_window(&self, t: u32) -> (target: u32)
        requires
            cubic_fits(self@.k, t),
        ensures
            target == cubic_target(self@.origin_point, self@.k, t),
    {
        let d = if t < self.k {
            self.k - t
        } else {
            t - self.k
        };
        proof {
            lemma_cubic_partial_products(d);
        }
        let delta: u64 = (CONG_C * d * d * d) as u64 / CONG_C_SCALE;
        proof {
            law_cubic_term_vanishes(d);
        }
        if t < self.k {
            self.origin_point - delta as u32
        } else {
            self.origin_point + delta as u32
        }
    }

    /// Records `acked` acknowledgements for window `cwnd` at time `now`, and
    /// sets `cnt`.
    ///
    /// Within 3 ms of the last recorded time, with the window unchanged, only
    /// the acknowledgements are counted. Otherwise, when the epoch start lies
    /// in the past, a new epoch starts at `now` from the current window; then
    /// `cnt` is set for the window the cubic curve aims at. Whether the epoch
    /// start lies in the past depends on a reading of the clock;
    /// `update_with_readings` states the outcome for each reading. Where the
    /// cubic term for the time into the epoch would not fit in 32 bits, the
    /// controller is left as it was.
    pub fn update(&mut self, cwnd: u32, acked: u32, now: Instant)
        requires
            old(self).wf(),
            old(self)@.ack_cnt + acked <= u32::MAX,
            100 * cwnd <= u32::MAX,
        ensures
            final(self).wf(),
            final(self).last_time() == old(self).last_time(),
            final(self)@.cnt == old(self)@.cnt || final(self)@.cnt <= 20,
            updated_by(old(self)@, final(self)@),
            ({
                let o = old(self)@;
                let since_last = millis_of(duration_between(now, old(self).last_time()));
                let t_new = epoch_time(o, millis_of(duration_between(now, now)));
                !(o.last_cwnd == cwnd && since_last <= 3) ==> exists|elapsed: Duration|
                    #[trigger] millis_of(elapsed) > 0 ==> if cubic_fits(0, t_new) {
                        &&& final(self).start_time() == now
                        &&& final(self)@ == restarted(o, cwnd, acked, t_new)
                    } else {
                        &&& final(self).start_time() == old(self).start_time()
                        &&& final(self)@ == o
                    }
            }),
            ({
                let o = old(self)@;
                let since_last = millis_of(duration_between(now, old(self).last_time()));
                let t_new = epoch_time(o, millis_of(duration_between(now, now)));
                let t_cur = epoch_time(o, millis_of(duration_between(now, old(self).start_time())));
                if o.last_cwnd == cwnd && since_last <= 3 {
                    &&& final(self).start_time() == old(self).start_time()
                    &&& final(self)@ == counted(o, acked)
                } else {
                    ||| {
                        &&& cubic_fits(0, t_new)
                        &&& final(self).start_time() == now
                        &&& final(self)@ == restarted(o, cwnd, acked, t_new)
                    }
                    ||| {
                        &&& cubic_fits(o.k, t_cur)
                        &&& final(self).start_time() == old(self).start_time()
                        &&& final(self)@ == continued(o, cwnd, acked, t_cur)
                    }
                    ||| {
                        &&& !cubic_fits(0, t_new) || !cubic_fits(o.k, t_cur)
                        &&& final(self).start_time() == old(self).start_time()
                        &&& final(self)@ == o
                    }
                }
            }),
    {
        let since_last = duration_as_millis(&instant_duration_since(&now, &self.last_time));
        if self.last_cwnd == cwnd && since_last <= 3 {
            self.update_with_readings(cwnd, acked, now, since_last, true, 0);
            return;
        }
        let elapsed = instant_elapsed(&self.start_time);
        // A reading of a millisecond or more is not zero; the check lets the
        // contract name the reading through its milliseconds.
        let elapsed_ms = duration_as_millis(&elapsed);
        let elapsed_is_zero = duration_is_zero(&elapsed) && elapsed_ms == 0;
        let (k, since_start) = if elapsed_is_zero {
            (self.k, duration_as_millis(&instant_duration_since(&now, &self.start_time)))
        } else {
            (0, duration_as_millis(&instant_duration_since(&now, &now)))
        };
        let t = (since_start as u32) + self.delay_min;
        if cubic_fits_exec(k, t) {
            self.update_with_readings(cwnd, acked, now, since_last, elapsed_is_zero, since_start);
        }
        proof {
            law_update_caps_count(old(self)@, cwnd, acked, t, t);
        }
    }

    /// `update` for given clock readings: `since_last_ms`, the whole ms from
    /// the last recorded time to `now`; `elapsed_is_zero`, whether no time
    /// has passed since the epoch start (so it does not lie in the past);
    /// `since_start_ms`, the whole ms from the start of the epoch (`now`
    /// itself when a new one starts) to `now`. Unless only acknowledgements
    /// are counted, the cubic term for the time into the epoch must fit in
    /// 32 bits.
    pub fn update_with_readings(
        &mut self,
        cwnd: u32,
        acked: u32,
        now: Instant,
        since_last_ms: u128,
        elapsed_is_zero: bool,
        since_start_ms: u128,
    )
        requires
            old(self).wf(),
            old(self)@.ack_cnt + acked <= u32::MAX,
            100 * cwnd <= u32::MAX,
            !(old(self)@.last_cwnd == cwnd && since_last_ms <= 3) ==> cubic_fits(
                if elapsed_is_zero {
                    old(self)@.k
                } else {
                    0
                },
                epoch_time(old(self)@, since_start_ms),
            ),
        ensures
            final(self).wf(),
            final(self).last_time() == old(self).last_time(),
            if old(self)@.last_cwnd == cwnd && since_last_ms <= 3 {
                &&& final(self).start_time() == old(self).start_time()
                &&& final(self)@ == counted(old(self)@, acked)
            } else if !elapsed_is_zero {
                &&& final(self).start_time() == now
                &&& final(self)@ == restarted(
                    old(self)@,
                    cwnd,
                    acked,
                    epoch_time(old(self)@, since_start_ms),
                )
            } else {
                &&& final(self).start_time() == old(self).start_time()
                &&& final(self)@ == continued(
                    old(self)@,
                    cwnd,
                    acked,
                    epoch_time(old(self)@, since_start_ms),
                )
            },
    {
        self.ack_cnt = self.ack_cnt + acked;

        if self.last_cwnd == cwnd && since_last_ms <= 3 {
            return;
        }

        if !elapsed_is_zero {
            self.start_time = now;
            self.ack_cnt = acked;
            self.tcp_cwnd = cwnd;
            // No reduction is ever recorded (`last_max_cwnd` stays 0), so the
            // window is at or above the old maximum: the new epoch starts at
            // the current window with no climb back to make.
            assert(self.last_max_cwnd <= cwnd);
            self.k = 0;
            self.origin_point = cwnd;
        }

        let t = (since_start_ms as u32) + self.delay_min;
        let target = self.target_window(t);

        self.cnt = if target > cwnd {
            cwnd / (target - cwnd)
        } else {
            100 * cwnd
        };

        if self.last_cwnd == 0 && self.cnt > 20 {
            self.cnt = 20;
        }
    }
}

/// Whether `CONG_C * d^3`, for the distance `d` of `t` from `k`, fits in 32 bits.
fn cubic_fits_exec(k: u32, t: u32) -> (b: bool)
    ensures
        b == cubic_fits(k, t),
{
    let d = if t < k {
        k - t
    } else {
        t - k
    };
    proof {
        lemma_cubic_fits_bound(d);
    }
    d <= 220
}

/// The numbers after an update within 3 ms of the last one with the window
/// unchanged: only the acknowledgements are counted.
pub open spec fn counted(o: CubicState, acked: u32) -> CubicState {
    CubicState { ack_cnt: (o.ack_cnt + acked) as u32, ..o }
}

/// The numbers after an update that starts a new epoch at window `cwnd`,
/// `t` ms into it: the count restarts at `acked`, the plateau is the current
/// window, and `cnt` follows the cubic target.
pub open spec fn restarted(o: CubicState, cwnd: u32, acked: u32, t: u32) -> CubicState {
    CubicState {
        k: 0,
        ack_cnt: acked,
        origin_point: cwnd,
        tcp_cwnd: cwnd,
        cnt: ack_count(cwnd, cubic_target(cwnd, 0, t), o.last_cwnd) as u32,
        ..o
    }
}

/// The numbers after an update at window `cwnd`, `t` ms into the current
/// epoch: the acknowledgements are counted and `cnt` follows the cubic target.
pub open spec fn continued(o: CubicState, cwnd: u32, acked: u32, t: u32) -> CubicState {
    CubicState {
        ack_cnt: (o.ack_cnt + acked) as u32,
        cnt: ack_count(cwnd, cubic_target(o.origin_point, o.k, t), o.last_cwnd) as u32,
        ..o
    }
}

/// The numbers one update can leave behind, starting from `o`.
pub open spec fn updated_by(o: CubicState, n: CubicState) -> bool {
    ||| n == o
    ||| exists|acked: u32| #[trigger] counted(o, acked) == n
    ||| exists|cwnd: u32, acked: u32, t: u32|
        cubic_fits(0, t) && #[trigger] restarted(o, cwnd, acked, t) == n
    ||| exists|cwnd: u32, acked: u32, t: u32|
        cubic_fits(o.k, t) && #[trigger] continued(o, cwnd, acked, t) == n
}

/// Every update of a controller leaves `cnt` at most 20, unless it only
/// counted acknowledgements; and the time into the epoch has no effect, as
/// the cubic curve aims at its plateau.
pub proof fn law_update_caps_count(o: CubicState, cwnd: u32, acked: u32, t: u32, u: u32)
    requires
        o.last_cwnd == 0,
    ensures
        cubic_fits(0, t) ==> restarted(o, cwnd, acked, t).cnt <= 20,
        cubic_fits(o.k, t) ==> continued(o, cwnd, acked, t).cnt <= 20,
        counted(o, acked).cnt == o.cnt,
        cubic_fits(0, t) && cubic_fits(0, u) ==> restarted(o, cwnd, acked, t) == restarted(
            o,
            cwnd,
            acked,
            u,
        ),
        cubic_fits(o.k, t) && cubic_fits(o.k, u) ==> continued(o, cwnd, acked, t) == continued(
            o,
            cwnd,
            acked,
            u,
        ),
{
    if cubic_fits(0, t) {
        law_cubic_target_is_plateau(cwnd, 0, t);
    }
    if cubic_fits(0, u) {
        law_cubic_target_is_plateau(cwnd, 0, u);
    }
    if cubic_fits(o.k, t) {
        law_cubic_target_is_plateau(o.origin_point, o.k, t);
    }
    if cubic_fits(o.k, u) {
        law_cubic_target_is_plateau(o.origin_point, o.k, u);
    }
    law_ack_count_capped(cwnd, cwnd as int);
    law_ack_count_capped(cwnd, o.origin_point as int);
}

/// What each kind of update does to the numbers of a controller that has
/// recorded no window:
/// - counting only adds `acked` to the acknowledgement count and changes
///   nothing else;
/// - a new epoch at window `cwnd` restarts the count at `acked`, puts the
///   plateau and the TCP window at `cwnd` with no climb back (`k == 0`), and
///   sets `cnt` to 20, or to 0 for an empty window;
/// - continuing the epoch adds `acked` to the count and keeps the plateau,
///   `k` and the TCP window. Below the plateau, at distance `gap`, `cnt` is
///   the quotient of `cwnd` by `gap` (`cnt * gap <= cwnd < (cnt + 1) * gap`)
///   while that is at most 20, and 20 beyond; at or above the plateau it is
///   20, or 0 for an empty window.
/// The smallest delay, the old maximum and the last window never change.
pub proof fn law_update_outcomes(o: CubicState, cwnd: u32, acked: u32, t: u32)
    requires
        o.last_cwnd == 0,
        o.ack_cnt + acked <= u32::MAX,
    ensures
        ({
            let n = counted(o, acked);
            &&& n.ack_cnt == o.ack_cnt + acked
            &&& n.k == o.k
            &&& n.origin_point == o.origin_point
            &&& n.tcp_cwnd == o.tcp_cwnd
            &&& n.cnt == o.cnt
            &&& n.delay_min == o.delay_min
            &&& n.last_max_cwnd == o.last_max_cwnd
            &&& n.last_cwnd == o.last_cwnd
        }),
        cubic_fits(0, t) ==> ({
            let n = restarted(o, cwnd, acked, t);
            &&& n.ack_cnt == acked
            &&& n.k == 0
            &&& n.origin_point == cwnd
            &&& n.tcp_cwnd == cwnd
            &&& n.cnt == if cwnd == 0 {
                0u32
            } else {
                20u32
            }
            &&& n.delay_min == o.delay_min
            &&& n.last_max_cwnd == o.last_max_cwnd
            &&& n.last_cwnd == o.last_cwnd
        }),
        cubic_fits(o.k, t) ==> ({
            let n = continued(o, cwnd, acked, t);
            let gap = o.origin_point - cwnd;
            &&& n.ack_cnt == o.ack_cnt + acked
            &&& n.k == o.k
            &&& n.origin_point == o.origin_point
            &&& n.tcp_cwnd == o.tcp_cwnd
            &&& n.delay_min == o.delay_min
            &&& n.last_max_cwnd == o.last_max_cwnd
            &&& n.last_cwnd == o.last_cwnd
            &&& (gap > 0 && cwnd < 21 * gap) ==> n.cnt * gap <= cwnd < (n.cnt + 1) * gap
            &&& (gap > 0 && cwnd >= 21 * gap) ==> n.cnt == 20
            &&& gap <= 0 ==> n.cnt == if cwnd == 0 {
                0u32
            } else {
                20u32
            }
        }),
{
    if cubic_fits(0, t) {
        law_cubic_target_is_plateau(cwnd, 0, t);
    }
    if cubic_fits(o.k, t) {
        law_cubic_target_is_plateau(o.origin_point, o.k, t);
        let gap: int = o.origin_point - cwnd;
        if gap > 0 {
            let q: int = (cwnd as int) / gap;
            assert(q * gap <= cwnd < (q + 1) * gap) by (nonlinear_arith)
                requires
                    gap > 0,
                    cwnd >= 0,
                    q == (cwnd as int) / gap,
            ;
            if cwnd < 21 * gap {
                assert(q <= 20) by (nonlinear_arith)
                    requires
                        gap > 0,
                        q * gap <= cwnd,
                        cwnd < 21 * gap,
                ;
                assert(q >= 0) by (nonlinear_arith)
                    requires
                        gap > 0,
                        cwnd >= 0,
                        q == (cwnd as int) / gap,
                ;
            } else {
                assert(q >= 21) by (nonlinear_arith)
                    requires
                        gap > 0,
                        cwnd >= 21 * gap,
                        cwnd < (q + 1) * gap,
                ;
            }
        }
    }
}

/// A controller made by `new` and changed only by updates never records a
/// window, and its `cnt` stays at most 20.
pub proof fn law_count_stays_capped(states: Seq<CubicState>)
    requires
        states.len() > 0,
        states[0] == CongestionControl::new_state(),
        forall|i: int| 0 <= i < states.len() - 1 ==> updated_by(states[i], #[trigger] states[i + 1]),
    ensures
        forall|i: int| 0 <= i < states.len() ==> (#[trigger] states[i]).cnt <= 20 && states[i].last_cwnd == 0,
    decreases states.len(),
{
    if states.len() > 1 {
        let prefix = states.drop_last();
        assert forall|i: int| 0 <= i < prefix.len() - 1 implies updated_by(
            prefix[i],
            #[trigger] prefix[i + 1],
        ) by {
            assert(updated_by(states[i], states[i + 1]));
        }
        law_count_stays_capped(prefix);
        let j = states.len() - 1;
        let o = states[j - 1];
        assert(prefix[j - 1] == o);
        assert(o.cnt <= 20 && o.last_cwnd == 0);
        let i = j - 1;
        assert(updated_by(states[i], states[i + 1]));
        assert(states[i + 1] == states[j]);
        if exists|acked: u32| #[trigger] counted(o, acked) == states[j] {
            let acked = choose|acked: u32| #[trigger] counted(o, acked) == states[j];
            law_update_caps_count(o, 0, acked, 0, 0);
        } else if exists|cwnd: u32, acked: u32, t: u32|
            cubic_fits(0, t) && #[trigger] restarted(o, cwnd, acked, t) == states[j] {
            let (cwnd, acked, t) = choose|cwnd: u32, acked: u32, t: u32|
                cubic_fits(0, t) && #[trigger] restarted(o, cwnd, acked, t) == states[j];
            law_update_caps_count(o, cwnd, acked, t, t);
        } else if exists|cwnd: u32, acked: u32, t: u32|
            cubic_fits(o.k, t) && #[trigger] continued(o, cwnd, acked, t) == states[j] {
            let (cwnd, acked, t) = choose|cwnd: u32, acked: u32, t: u32|
                cubic_fits(o.k, t) && #[trigger] continued(o, cwnd, acked, t) == states[j];
            law_update_caps_count(o, cwnd, acked, t, t);
        }
        assert forall|i: int| 0 <= i < states.len() implies (#[trigger] states[i]).cnt <= 20
            && states[i].last_cwnd == 0 by {
            if i < j {
                assert(prefix[i] == states[i]);
            }
        }
    }
}

impl Default for CongestionControl {
    /// Same as `CongestionControl::new`.
    fn default() -> (cc: Self)
        ensures
            cc.wf(),
            cc@ == Self::new_state(),
    {
        Self::new()
    }
}

/// `CONG_C * d^3` fits in 32 bits exactly for distances up to 220 ms.
proof fn lemma_cubic_fits_bound(d: u32)
    ensures
        (CONG_C * d * d * d <= u32::MAX) <==> d <= 220,
{
    if d <= 220 {
        assert(CONG_C * d * d * d <= 400 * 220 * 220 * 220) by (nonlinear_arith)
            requires
                0 <= d <= 220,
        ;
    } else {
        assert(CONG_C * d * d * d >= 400 * 221 * 221 * 221) by (nonlinear_arith)
            requires
                d >= 221,
        ;
    }
}

/// When `CONG_C * d^3` fits in 32 bits, so do the products on the way to it.
proof fn lemma_cubic_partial_products(d: u32)
    ensures
        CONG_C * d * d * d <= u32::MAX ==> CONG_C * d <= u32::MAX && CONG_C * d * d <= u32::MAX,
{
    if CONG_C * d * d * d <= u32::MAX && d > 0 {
        assert(CONG_C * d <= CONG_C * d * d && CONG_C * d * d <= CONG_C * d * d * d)
            by (nonlinear_arith)
            requires
                d >= 1,
        ;
    }
}

/// The cubic growth term is zero wherever `CONG_C * d^3` fits in 32 bits:
/// such a value is below `CONG_C_SCALE`.
pub proof fn law_cubic_term_vanishes(d: u32)
    requires
        CONG_C * d * d * d <= u32::MAX,
    ensures
        cubic_delta(d) == 0,
{
}

/// Wherever the cubic term fits in 32 bits, the cubic curve aims at its plateau.
pub proof fn law_cubic_target_is_plateau(origin_point: u32, k: u32, t: u32)
    requires
        cubic_fits(k, t),
    ensures
        cubic_target(origin_point, k, t) == origin_point,
{
    law_cubic_term_vanishes(distance(k, t));
}

/// While no window has been recorded, the acknowledgement count is at most 20,
/// and it is 0 exactly for an empty window at or above its target.
pub proof fn law_ack_count_capped(cwnd: u32, target: int)
    requires
        0 <= target <= u32::MAX,
    ensures
        0 <= ack_count(cwnd, target, 0) <= 20,
        cwnd == 0 ==> ack_count(cwnd, target, 0) == 0,
        (cwnd > 0 && target <= cwnd) ==> ack_count(cwnd, target, 0) == 20,
{
    if target > cwnd {
        assert((cwnd as int) / (target - cwnd) >= 0) by (nonlinear_arith)
            requires
                target > cwnd,
                cwnd >= 0,
        ;
    }
}

} // verus!

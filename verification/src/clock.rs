//! The game clock: fixed or variable time steps, the way FNA's `Game.Tick` makes them.
//!
//! The clock does not read the time itself. Each frame the caller waits as
//! [`GameClock::frame_wait`] says, hands the measured time to [`GameClock::tick`], and then
//! calls [`GameClockTick::next`] until it returns `None`: each `Some` is one update.

use vstd::prelude::*;
use crate::time::{Duration, MAX_NANOS, NANOS_PER_MILLI};

verus! {

/// The longest time, in milliseconds, that one frame may advance the clock by.
pub const MAX_ELAPSED_MILLIS: u64 = 500;

/// The longest time, in nanoseconds, that one frame may advance the clock by.
pub const MAX_ELAPSED_NANOS: u128 = 500_000_000;

/// A wanted frame rate (not used by the clock yet).
pub enum TargetFps {
    Fixed(u32),
    Variable(u32),
}

/// Delta time of one update or one draw. Its view is the elapsed time in nanoseconds.
#[derive(Clone, Copy, Debug)]
pub struct TimeStep {
    pub(crate) elapsed: Duration,
}

impl View for TimeStep {
    type V = nat;

    closed spec fn view(&self) -> nat {
        self.elapsed@
    }
}

impl TimeStep {
    /// A step of no time.
    pub fn new() -> (ts: TimeStep)
        ensures
            ts@ == 0,
    {
        TimeStep { elapsed: Duration::zero() }
    }

    pub fn elapsed(&self) -> (d: Duration)
        ensures
            d@ == self@,
    {
        self.elapsed
    }
}

impl Default for TimeStep {
    fn default() -> (ts: TimeStep)
        ensures
            ts@ == 0,
    {
        TimeStep::new()
    }
}

/// What the caller does before the next frame: go on, or sleep for the given span and
/// measure again.
#[derive(Debug)]
pub enum FrameWait {
    Ready,
    Sleep(Duration),
}

/// The state of a [`GameClock`], in nanoseconds.
pub ghost struct ClockModel {
    /// The time step handed out for updates, and for drawing once a frame is done
    pub time_step: nat,
    /// Measured time not yet spent on updates
    pub accum: nat,
    /// Time spent on updates since the clock was made
    pub total: nat,
    /// Grows by `n - 1` on every frame with `n > 0` fixed updates
    pub lag: nat,
    /// Set while the lag is high, cleared once it is back to zero
    pub is_slow: bool,
    pub is_fixed_timestep: bool,
    /// The length of one fixed update
    pub target: nat,
}

/// The lag and the slow flag after a frame of `n_updates` fixed updates.
pub open spec fn settled_lag(lag: nat, is_slow: bool, n_updates: nat) -> (nat, bool) {
    let lag1: nat = if n_updates > 0 { (lag + n_updates - 1) as nat } else { lag };
    let slow = if is_slow && lag1 == 0 {
        false
    } else if !is_slow && lag1 >= 5 {
        true
    } else {
        is_slow
    };
    let lag2: nat = if n_updates == 1 && lag1 > 0 { (lag1 - 1) as nat } else { lag1 };
    (lag2, slow)
}

/// One call of [`GameClockTick::next`] on a clock in state `m` after `n` updates of this
/// frame: the new state, the new number of updates, and the step handed out, if any.
pub open spec fn clock_step(m: ClockModel, n: nat) -> (ClockModel, nat, Option<nat>) {
    if m.is_fixed_timestep {
        if m.accum >= m.target {
            (
                ClockModel { accum: (m.accum - m.target) as nat, total: m.total + m.target, ..m },
                n + 1,
                Some(m.time_step),
            )
        } else {
            let (lag, is_slow) = settled_lag(m.lag, m.is_slow, n);
            (ClockModel { lag, is_slow, time_step: m.target * n, ..m }, n, None)
        }
    } else if n > 0 {
        (m, n, None)
    } else {
        (ClockModel { total: m.total + m.accum, accum: 0, time_step: m.accum, ..m }, 1, Some(m.accum))
    }
}

/// `n` updates handed out and the time left in `m` fit in one frame (a variable-step frame
/// has at most one update).
pub open spec fn frame_fits(m: ClockModel, n: nat) -> bool {
    if m.is_fixed_timestep {
        n * m.target + m.accum <= MAX_ELAPSED_NANOS
    } else {
        n <= 1
    }
}

/// Whether that call stays within the integer ranges (elsewhere the counters overflow).
pub open spec fn clock_step_in_range(m: ClockModel, n: nat) -> bool {
    if m.is_fixed_timestep {
        if m.accum >= m.target {
            m.total + m.target <= MAX_NANOS
        } else {
            m.lag + n <= u32::MAX + 1
        }
    } else {
        n == 0 ==> m.total + m.accum <= MAX_NANOS
    }
}

/// Updates the lag and the slow flag at the end of a frame of `n_updates` fixed updates.
pub fn settle_lag(lag: u32, is_slow: bool, n_updates: u32) -> (r: (u32, bool))
    requires
        lag + n_updates <= u32::MAX + 1,
    ensures
        (r.0 as nat, r.1) == settled_lag(lag as nat, is_slow, n_updates as nat),
{
    // Every update after the first accumulates lag
    let mut lag = lag;
    if n_updates > 0 {
        lag = lag + (n_updates - 1);
    }
    // If we think we are running slowly, wait until the lag clears before resetting it
    let mut is_slow = is_slow;
    if is_slow && lag == 0 {
        is_slow = false;
    } else if !is_slow && lag >= 5 {
        is_slow = true;
    }
    // One update in a frame means we are not running slowly, so the lag decreases
    if n_updates == 1 && lag > 0 {
        lag = lag - 1;
    }
    (lag, is_slow)
}

/// Makes frames: accumulates measured time and hands it out as fixed or variable steps.
#[derive(Clone, Copy, Debug)]
pub struct GameClock {
    time_step: TimeStep,
    accum: Duration,
    total: Duration,
    lag: u32,
    is_slow: bool,
    is_fixed_timestep: bool,
    target_elapsed: Duration,
}

impl View for GameClock {
    type V = ClockModel;

    closed spec fn view(&self) -> ClockModel {
        ClockModel {
            time_step: self.time_step@,
            accum: self.accum@,
            total: self.total@,
            lag: self.lag as nat,
            is_slow: self.is_slow,
            is_fixed_timestep: self.is_fixed_timestep,
            target: self.target_elapsed@,
        }
    }
}

impl GameClock {
    /// What every clock keeps: a positive update length, and no more measured time left
    /// than one frame may bring.
    pub open spec fn wf(self) -> bool {
        &&& self@.target > 0
        &&& self@.accum <= MAX_ELAPSED_NANOS
    }

    /// A clock whose fixed updates last `target_elapsed` (one over the updates per second).
    pub fn new(target_elapsed: Duration, is_fixed_timestep: bool) -> (c: GameClock)
        requires
            target_elapsed@ > 0,
        ensures
            c.wf(),
            c@ == (ClockModel {
                time_step: 0,
                accum: 0,
                total: 0,
                lag: 0,
                is_slow: false,
                is_fixed_timestep,
                target: target_elapsed@,
            }),
    {
        GameClock {
            time_step: TimeStep::new(),
            accum: Duration::zero(),
            total: Duration::zero(),
            lag: 0,
            is_slow: false,
            is_fixed_timestep,
            target_elapsed,
        }
    }

    /// The length of one fixed update.
    pub fn target_elapsed(&self) -> (d: Duration)
        ensures
            d@ == self@.target,
    {
        self.target_elapsed
    }

    /// The longest time one frame may advance the clock by: 500 ms.
    pub fn max_elapsed() -> (d: Duration)
        ensures
            d@ == MAX_ELAPSED_NANOS,
    {
        Duration::from_millis(MAX_ELAPSED_MILLIS)
    }

    /// Measured time not yet spent on updates; the wait for the next frame starts from it.
    pub fn accum(&self) -> (d: Duration)
        ensures
            d@ == self@.accum,
    {
        self.accum
    }

    /// Time spent on updates since the clock was made.
    pub fn total(&self) -> (d: Duration)
        ensures
            d@ == self@.total,
    {
        self.total
    }

    /// The lag counter.
    pub fn lag(&self) -> (l: u32)
        ensures
            l == self@.lag,
    {
        self.lag
    }

    /// Whether the clock thinks the game runs slowly.
    pub fn is_slow(&self) -> (b: bool)
        ensures
            b == self@.is_slow,
    {
        self.is_slow
    }

    /// The decision of one round of the wait for the next frame, `elapsed` being the time
    /// accumulated so far: a variable-step clock never waits; a fixed-step one waits until
    /// more than one update length has passed.
    pub fn frame_wait(&self, elapsed: Duration) -> (w: FrameWait)
        ensures
            (!self@.is_fixed_timestep || elapsed@ > self@.target) <==> w is Ready,
            w matches FrameWait::Sleep(d) ==> d@ == self@.target - elapsed@,
    {
        if !self.is_fixed_timestep {
            return FrameWait::Ready;
        }
        let target = self.target_elapsed;
        if elapsed.as_nanos() > target.as_nanos() {
            FrameWait::Ready
        } else {
            FrameWait::Sleep(target.checked_sub(elapsed).unwrap())
        }
    }

    /// Starts a frame with `elapsed`, the time measured by the wait: no update may take longer
    /// than [`GameClock::max_elapsed`], and the draw step is reset to one update length.
    pub fn tick(&mut self, elapsed: Duration) -> (t: GameClockTick)
        requires
            old(self).wf(),
        ensures
            final(self).wf(),
            final(self)@ == (ClockModel {
                accum: if elapsed@ > MAX_ELAPSED_NANOS { MAX_ELAPSED_NANOS as nat } else { elapsed@ },
                time_step: old(self)@.target,
                ..old(self)@
            }),
            t@ == 0,
            t.within_frame(final(self)@),
    {
        let max = Self::max_elapsed();
        if elapsed.as_nanos() > max.as_nanos() {
            self.accum = max;
        } else {
            self.accum = elapsed;
        }
        self.time_step = TimeStep { elapsed: self.target_elapsed };
        GameClockTick { n_updates: 0 }
    }

    /// The time step for drawing: the time the updates of the last frame covered.
    pub fn timestep(&self) -> (ts: TimeStep)
        ensures
            ts@ == self@.time_step,
    {
        self.time_step
    }

    /// The time step for drawing, as a span.
    pub fn timestep_draw(&self) -> (d: Duration)
        ensures
            d@ == self@.time_step,
    {
        self.time_step.elapsed
    }
}

/// The updates of one frame, handed out one by one by [`GameClockTick::next`].
/// Its view is the number of updates handed out so far.
#[derive(Debug)]
pub struct GameClockTick {
    n_updates: u32,
}

impl View for GameClockTick {
    type V = nat;

    closed spec fn view(&self) -> nat {
        self.n_updates as nat
    }
}

impl GameClockTick {
    /// The updates handed out and the time left fit in one frame (a variable-step frame
    /// has at most one update).
    pub open spec fn within_frame(self, clock: ClockModel) -> bool {
        frame_fits(clock, self@)
    }

    /// The number of updates handed out so far in this frame.
    pub fn n_updates(&self) -> (n: u32)
        ensures
            n == self@,
    {
        self.n_updates
    }

    /// Whether the next call of [`GameClockTick::next`] stays within the integer ranges.
    pub fn can_advance(&self, clock: &GameClock) -> (b: bool)
        ensures
            b == clock_step_in_range(clock@, self@),
    {
        if clock.is_fixed_timestep {
            if clock.accum.as_nanos() >= clock.target_elapsed.as_nanos() {
                clock.total.as_nanos() <= MAX_NANOS - clock.target_elapsed.as_nanos()
            } else {
                clock.lag as u64 + self.n_updates as u64 <= u32::MAX as u64 + 1
            }
        } else {
            self.n_updates > 0 || clock.total.as_nanos() <= MAX_NANOS - clock.accum.as_nanos()
        }
    }

    /// The next update of this frame, or `None` once the frame is done.
    pub fn next(&mut self, clock: &mut GameClock) -> (r: Option<TimeStep>)
        requires
            old(clock).wf(),
            old(self).within_frame(old(clock)@),
            clock_step_in_range(old(clock)@, old(self)@),
        ensures
            final(clock).wf(),
            final(self).within_frame(final(clock)@),
            ({
                let (m, n, y) = clock_step(old(clock)@, old(self)@);
                &&& final(clock)@ == m
                &&& final(self)@ == n
                &&& (r is Some <==> y is Some)
                &&& (r matches Some(ts) ==> ts@ == y->0)
            }),
    {
        if clock.is_fixed_timestep {
            self.next_fixed(clock)
        } else {
            self.next_variable(clock)
        }
    }

    fn next_fixed(&mut self, clock: &mut GameClock) -> (r: Option<TimeStep>)
        requires
            old(clock).wf(),
            old(clock)@.is_fixed_timestep,
            old(self).within_frame(old(clock)@),
            clock_step_in_range(old(clock)@, old(self)@),
        ensures
            final(clock).wf(),
            final(self).within_frame(final(clock)@),
            ({
                let (m, n, y) = clock_step(old(clock)@, old(self)@);
                &&& final(clock)@ == m
                &&& final(self)@ == n
                &&& (r is Some <==> y is Some)
                &&& (r matches Some(ts) ==> ts@ == y->0)
            }),
    {
        let target = clock.target_elapsed;
        let n = self.n_updates;
        let ghost t = target@;
        let ghost a = clock.accum@;
        // Perform as many full fixed length time steps as we can
        if clock.accum.as_nanos() >= target.as_nanos() {
            proof {
                assert(n <= n * t) by (nonlinear_arith)
                    requires t >= 1;
                assert((n + 1) * t + (a - t) == n * t + a) by (nonlinear_arith);
            }
            clock.total = clock.total.checked_add(target).unwrap();
            clock.accum = clock.accum.checked_sub(target).unwrap();
            self.n_updates = n + 1;
            return Some(clock.time_step);
        }
        let (lag, is_slow) = settle_lag(clock.lag, clock.is_slow, n);
        clock.lag = lag;
        clock.is_slow = is_slow;
        proof {
            assert(t * n == n * t) by (nonlinear_arith);
        }
        clock.time_step = TimeStep { elapsed: target.checked_mul(n).unwrap() };
        None
    }

    fn next_variable(&mut self, clock: &mut GameClock) -> (r: Option<TimeStep>)
        requires
            old(clock).wf(),
            !old(clock)@.is_fixed_timestep,
            old(self).within_frame(old(clock)@),
            clock_step_in_range(old(clock)@, old(self)@),
        ensures
            final(clock).wf(),
            final(self).within_frame(final(clock)@),
            ({
                let (m, n, y) = clock_step(old(clock)@, old(self)@);
                &&& final(clock)@ == m
                &&& final(self)@ == n
                &&& (r is Some <==> y is Some)
                &&& (r matches Some(ts) ==> ts@ == y->0)
            }),
    {
        if self.n_updates > 0 {
            return None;
        }
        // Perform a single variable length update, spending all the measured time on it
        clock.time_step = TimeStep { elapsed: clock.accum };
        clock.total = clock.total.checked_add(clock.accum).unwrap();
        clock.accum = Duration::zero();
        self.n_updates = 1;
        Some(clock.time_step)
    }
}

} // verus!

verus! {

/// `k` calls of [`GameClockTick::next`] from state `m` after `n` updates.
pub open spec fn clock_steps(m: ClockModel, n: nat, k: nat) -> (ClockModel, nat)
    decreases k,
{
    if k == 0 {
        (m, n)
    } else {
        let (m1, n1, _) = clock_step(m, n);
        clock_steps(m1, n1, (k - 1) as nat)
    }
}

/// In a fixed-step clock no time is made or lost: each call of [`GameClockTick::next`]
/// leaves the sum of the unspent and the spent time as it was.
pub proof fn lemma_fixed_step_conserves_time(m: ClockModel, n: nat)
    requires
        m.is_fixed_timestep,
    ensures
        clock_step(m, n).0.accum + clock_step(m, n).0.total == m.accum + m.total,
{
}

/// `k` whole updates in a row, while the measured time lasts, spend `k` update lengths.
proof fn lemma_whole_steps(m: ClockModel, n: nat, k: nat)
    requires
        m.is_fixed_timestep,
        k * m.target <= m.accum,
    ensures
        clock_steps(m, n, k) == (
            ClockModel {
                accum: (m.accum - k * m.target) as nat,
                total: m.total + k * m.target,
                ..m
            },
            n + k,
        ),
    decreases k,
{
    let t = m.target;
    if k > 0 {
        assert(k * t == t + (k - 1) * t) by (nonlinear_arith);
        let (m1, n1, _) = clock_step(m, n);
        assert(m.accum >= t) by (nonlinear_arith)
            requires k * t <= m.accum, k >= 1, t >= 0;
        lemma_whole_steps(m1, n1, (k - 1) as nat);
        assert(m1.accum - (k - 1) * t == m.accum - k * t);
        assert(m1.total + (k - 1) * t == m.total + k * t);
    } else {
        assert(k * t == 0) by (nonlinear_arith)
            requires k == 0;
    }
}

/// A fixed-step frame that starts with `a` of measured time hands out exactly
/// `a / target` updates, then ends: `a % target` is left for the next frame, the total
/// grows by the time the updates covered, and that time becomes the draw step.
pub proof fn lemma_fixed_frame_updates(m: ClockModel)
    requires
        m.is_fixed_timestep,
        m.target > 0,
    ensures
        forall|k: nat|
            k < m.accum / m.target ==> (#[trigger] clock_steps(m, 0, k)).0.accum >= m.target
                && clock_step(clock_steps(m, 0, k).0, clock_steps(m, 0, k).1).2 is Some,
        ({
            let q = m.accum / m.target;
            let (mq, nq) = clock_steps(m, 0, q);
            let (me, ne, y) = clock_step(mq, nq);
            &&& y is None
            &&& ne == q
            &&& me.accum == m.accum % m.target
            &&& me.total == m.total + m.target * q
            &&& me.time_step == m.target * q
        }),
{
    let t = m.target as int;
    let a = m.accum as int;
    let q = a / t;
    vstd::arithmetic::div_mod::lemma_fundamental_div_mod(a, t);
    vstd::arithmetic::div_mod::lemma_mod_pos_bound(a, t);
    assert forall|k: nat| k < m.accum / m.target implies (#[trigger] clock_steps(m, 0, k)).0.accum
        >= m.target && clock_step(clock_steps(m, 0, k).0, clock_steps(m, 0, k).1).2 is Some by {
        assert((k + 1) * t <= q * t) by (nonlinear_arith)
            requires k + 1 <= q, t > 0;
        assert((k + 1) * t == k * t + t) by (nonlinear_arith);
        assert(k * t <= a);
        lemma_whole_steps(m, 0, k);
    }
    assert(q * t <= a) by (nonlinear_arith)
        requires a == t * q + a % t, a % t >= 0;
    assert(q >= 0) by (nonlinear_arith)
        requires a >= 0, t > 0, q == a / t;
    lemma_whole_steps(m, 0, q as nat);
    assert(t * q == q * t) by (nonlinear_arith);
}

proof fn lemma_calls_follow_steps(ms: Seq<ClockModel>, ns: Seq<nat>, rs: Seq<Option<nat>>, i: int, k: nat)
    requires
        ms.len() == rs.len() + 1,
        ns.len() == rs.len() + 1,
        forall|j: int| 0 <= j < rs.len() ==> #[trigger] clock_step(ms[j], ns[j]) == (ms[j + 1], ns[j + 1], rs[j]),
        0 <= i,
        i + k < ms.len(),
    ensures
        clock_steps(ms[i], ns[i], k) == (ms[i + k], ns[i + k]),
    decreases k,
{
    if k > 0 {
        assert(clock_step(ms[i], ns[i]) == (ms[i + 1], ns[i + 1], rs[i]));
        lemma_calls_follow_steps(ms, ns, rs, i + 1, (k - 1) as nat);
        assert(i + 1 + (k - 1) == i + k);
    }
}

/// Calls of [`GameClockTick::next`] one after another in a fixed-step frame, right after
/// [`GameClock::tick`] (`ms[k]` and `ns[k]` are the clock and the count before call `k`,
/// `rs[k]` the length of the update it gave): with `a` of measured time and updates of
/// length `t`, the first `a / t` calls each give an update of length `t`, and the next one
/// gives none and ends the frame, leaving `a % t` for the next frame, the total grown by
/// the time the updates covered, and that time as the draw step.
pub proof fn lemma_fixed_frame_calls(ms: Seq<ClockModel>, ns: Seq<nat>, rs: Seq<Option<nat>>)
    requires
        ms.len() == rs.len() + 1,
        ns.len() == rs.len() + 1,
        ms[0].is_fixed_timestep,
        ms[0].target > 0,
        ms[0].time_step == ms[0].target,
        ns[0] == 0,
        forall|k: int| 0 <= k < rs.len() ==> #[trigger] clock_step(ms[k], ns[k]) == (ms[k + 1], ns[k + 1], rs[k]),
    ensures
        forall|k: int| 0 <= k < rs.len() && k < ms[0].accum / ms[0].target ==> #[trigger] rs[k] == Some(ms[0].target),
        forall|k: int|
            0 <= k < rs.len() && k < ms[0].accum / ms[0].target ==> #[trigger] ms[k + 1].total
                == ms[0].total + ms[0].target * (k + 1),
        ({
            let q = (ms[0].accum / ms[0].target) as int;
            rs.len() > q ==> {
                &&& rs[q] is None
                &&& ns[q + 1] == q
                &&& ms[q + 1].accum == ms[0].accum % ms[0].target
                &&& ms[q + 1].total == ms[0].total + ms[0].target * q
                &&& ms[q + 1].time_step == ms[0].target * q
                &&& (q >= 2 ==> ms[q + 1].lag == ms[0].lag + q - 1)
            }
        }),
{
    let m = ms[0];
    let t = m.target as int;
    let a = m.accum as int;
    let q = a / t;
    vstd::arithmetic::div_mod::lemma_fundamental_div_mod(a, t);
    vstd::arithmetic::div_mod::lemma_mod_pos_bound(a, t);
    assert forall|k: int| 0 <= k < rs.len() && k < ms[0].accum / ms[0].target implies #[trigger] rs[k]
        == Some(ms[0].target) by {
        lemma_calls_follow_steps(ms, ns, rs, 0, k as nat);
        assert((k + 1) * t <= q * t) by (nonlinear_arith)
            requires k + 1 <= q, t > 0;
        assert(q * t <= a) by (nonlinear_arith)
            requires a == t * q + a % t, a % t >= 0;
        assert((k + 1) * t == k * t + t) by (nonlinear_arith);
        lemma_whole_steps(m, 0, k as nat);
        assert(clock_step(ms[k], ns[k]) == (ms[k + 1], ns[k + 1], rs[k]));
    }
    assert forall|k: int| 0 <= k < rs.len() && k < ms[0].accum / ms[0].target implies #[trigger] ms[k
        + 1].total == ms[0].total + ms[0].target * (k + 1) by {
        lemma_calls_follow_steps(ms, ns, rs, 0, (k + 1) as nat);
        assert((k + 1) * t <= q * t) by (nonlinear_arith)
            requires k + 1 <= q, t > 0;
        assert(q * t <= a) by (nonlinear_arith)
            requires a == t * q + a % t, a % t >= 0;
        assert(t * (k + 1) == (k + 1) * t) by (nonlinear_arith);
        lemma_whole_steps(m, 0, (k + 1) as nat);
    }
    if rs.len() > q {
        assert(q >= 0) by (nonlinear_arith)
            requires a >= 0, t > 0, q == a / t;
        lemma_calls_follow_steps(ms, ns, rs, 0, q as nat);
        lemma_fixed_frame_updates(m);
        lemma_whole_steps(m, 0, q as nat);
        lemma_lag_per_frame(m.lag, m.is_slow, q as nat);
        assert(clock_step(ms[q], ns[q]) == (ms[q + 1], ns[q + 1], rs[q]));
    }
}

/// The lag after a frame of `n_updates` fixed updates, from `lag`: every update after the
/// first adds one, so a frame of two or more updates adds `n_updates - 1`; a frame of one
/// update takes one off (down to zero); a frame of none leaves it. The slow flag, once the
/// extra updates are added, turns on when the lag is five or more and off only when it is
/// zero.
pub proof fn lemma_lag_per_frame(lag: nat, is_slow: bool, n_updates: nat)
    ensures
        n_updates >= 2 ==> settled_lag(lag, is_slow, n_updates).0 == lag + n_updates - 1,
        n_updates == 1 ==> settled_lag(lag, is_slow, n_updates).0 == (if lag > 0 { lag - 1 } else { 0 }),
        n_updates == 0 ==> settled_lag(lag, is_slow, n_updates).0 == lag,
        ({
            let grown = if n_updates > 0 { lag + n_updates - 1 } else { lag as int };
            settled_lag(lag, is_slow, n_updates).1 == if is_slow { grown != 0 } else { grown >= 5 }
        }),
{
}

/// The lag and the slow flag after `k` frames of `m` fixed updates each.
pub open spec fn settle_frames(lag: nat, is_slow: bool, m: nat, k: nat) -> (nat, bool)
    decreases k,
{
    if k == 0 {
        (lag, is_slow)
    } else {
        let (l, s) = settle_frames(lag, is_slow, m, (k - 1) as nat);
        settled_lag(l, s, m)
    }
}

/// Frames of two or more updates each pile their extra updates up: after `k` frames of `m`
/// updates the lag has grown by `k * (m - 1)`, and the game is taken as slow exactly when it
/// already was or the lag has reached five.
pub proof fn lemma_lag_accumulates(lag: nat, is_slow: bool, m: nat, k: nat)
    requires
        m >= 2,
    ensures
        settle_frames(lag, is_slow, m, k).0 == lag + k * (m - 1),
        settle_frames(lag, is_slow, m, k).1 == (is_slow || (k > 0 && lag + k * (m - 1) >= 5)),
    decreases k,
{
    if k > 0 {
        lemma_lag_accumulates(lag, is_slow, m, (k - 1) as nat);
        assert(k * (m - 1) == (k - 1) * (m - 1) + (m - 1)) by (nonlinear_arith);
        assert((k - 1) * (m - 1) >= 0) by (nonlinear_arith)
            requires k >= 1, m >= 2;
    } else {
        assert(k * (m - 1) == 0) by (nonlinear_arith)
            requires k == 0;
    }
}

/// The slow flag is set only when the lag reaches five, and cleared only when the lag is
/// back to zero.
pub proof fn lemma_slow_flag_hysteresis(lag: nat, is_slow: bool, n_updates: nat)
    ensures
        ({
            let lag1: nat = if n_updates > 0 { (lag + n_updates - 1) as nat } else { lag };
            let (_, slow) = settled_lag(lag, is_slow, n_updates);
            &&& (!is_slow && slow) ==> lag1 >= 5
            &&& (is_slow && !slow) ==> lag1 == 0
        }),
{
}

/// A variable-step frame hands out one update as long as all the measured time, spends
/// that time on it (the total grows by it, nothing is left, it becomes the draw step), and
/// then ends without a change.
pub proof fn lemma_variable_frame_single_update(m: ClockModel)
    requires
        !m.is_fixed_timestep,
    ensures
        clock_step(m, 0).1 == 1,
        clock_step(m, 0).2 == Some(m.accum),
        clock_step(m, 0).0.total == m.total + m.accum,
        clock_step(m, 0).0.accum == 0,
        clock_step(m, 0).0.time_step == m.accum,
        clock_step(clock_step(m, 0).0, 1).0 == clock_step(m, 0).0,
        clock_step(clock_step(m, 0).0, 1).2 is None,
{
}

} // verus!

//! The game clock of the lifecycle loop: like [`crate::clock`], but the measured time of a
//! frame is not carried over to the next one, and each time step also tells the total time.

use vstd::prelude::*;
use crate::clock::{
    clock_step, clock_step_in_range, frame_fits, lemma_fixed_frame_calls, settle_lag,
    ClockModel, FrameWait, MAX_ELAPSED_MILLIS, MAX_ELAPSED_NANOS,
};
use crate::time::{Duration, MAX_NANOS};

verus! {

/// Delta time, with the total time spent on updates. Its view is `(elapsed, total)` in
/// nanoseconds.
#[derive(Clone, Copy, Debug)]
pub struct TimeStep {
    elapsed: Duration,
    /// Total duration passed in game time; the game can stop, so it is accumulated here
    total: Duration,
}

impl View for TimeStep {
    type V = (nat, nat);

    closed spec fn view(&self) -> (nat, nat) {
        (self.elapsed@, self.total@)
    }
}

impl TimeStep {
    /// No time elapsed and none spent.
    pub fn new() -> (ts: TimeStep)
        ensures
            ts@ == (0nat, 0nat),
    {
        TimeStep { elapsed: Duration::zero(), total: Duration::zero() }
    }

    pub fn elapsed(&self) -> (d: Duration)
        ensures
            d@ == self@.0,
    {
        self.elapsed
    }

    pub fn total(&self) -> (d: Duration)
        ensures
            d@ == self@.1,
    {
        self.total
    }
}

/// The state of a clock with no time carried over: `accum` is zero.
pub open spec fn with_accum(m: ClockModel, accum: nat) -> ClockModel {
    ClockModel { accum, ..m }
}

/// One call of [`TimeStepIter::next`]: the clock `c` and the iterator `it` before it, `c2`
/// and `it2` after it, and the time step `y` it gave, as `(elapsed, total)`. It is the call
/// of the clock's step on the clock with the iterator's time left as its measured time.
pub open spec fn iter_step(
    c: ClockModel,
    it: (nat, nat),
    c2: ClockModel,
    it2: (nat, nat),
    y: Option<(nat, nat)>,
) -> bool {
    let (m, n, r) = clock_step(with_accum(c, it.0), it.1);
    &&& c2 == with_accum(m, 0)
    &&& it2 == (m.accum, n)
    &&& (y is Some <==> r is Some)
    &&& (y matches Some(ts) ==> ts == (r->0, m.total))
}

/// Generates [`TimeStep`]s.
#[derive(Clone, Copy, Debug)]
pub struct GameClock {
    time: TimeStep,
    is_fixed_timestep: bool,
    target_elapsed: Duration,
    lag: u32,
    is_slow: bool,
}

impl View for GameClock {
    type V = ClockModel;

    closed spec fn view(&self) -> ClockModel {
        ClockModel {
            time_step: self.time.elapsed@,
            accum: 0,
            total: self.time.total@,
            lag: self.lag as nat,
            is_slow: self.is_slow,
            is_fixed_timestep: self.is_fixed_timestep,
            target: self.target_elapsed@,
        }
    }
}

impl GameClock {
    /// A positive update length.
    pub open spec fn wf(self) -> bool {
        self@.target > 0
    }

    /// A clock whose fixed updates last `target_elapsed`.
    pub fn new(target_elapsed: Duration, is_fixed_timestep: bool) -> (c: GameClock)
        requires
            target_elapsed@ > 0,
        ensures
            c.wf(),
            c@ == (ClockModel {
                time_step: 0,
                accum: 0,
                total: 0,
                lag: 0,
                is_slow: false,
                is_fixed_timestep,
                target: target_elapsed@,
            }),
    {
        GameClock {
            time: TimeStep::new(),
            is_fixed_timestep,
            target_elapsed,
            lag: 0,
            is_slow: false,
        }
    }

    /// The length of one fixed update.
    pub fn target_elapsed(&self) -> (d: Duration)
        ensures
            d@ == self@.target,
    {
        self.target_elapsed
    }

    /// The longest time one frame may advance the clock by: 500 ms.
    pub fn max_elapsed() -> (d: Duration)
        ensures
            d@ == MAX_ELAPSED_NANOS,
    {
        Duration::from_millis(MAX_ELAPSED_MILLIS)
    }

    /// The decision after measuring `elapsed` since the last frame: a fixed-step clock that
    /// measured no more than one update length sleeps for the rest of it once, and the frame
    /// then goes on with the time measured before the sleep.
    pub fn frame_wait(&self, elapsed: Duration) -> (w: FrameWait)
        ensures
            (!self@.is_fixed_timestep || elapsed@ > self@.target) <==> w is Ready,
            w matches FrameWait::Sleep(d) ==> d@ == self@.target - elapsed@,
    {
        if !self.is_fixed_timestep {
            return FrameWait::Ready;
        }
        let target = self.target_elapsed;
        if elapsed.as_nanos() > target.as_nanos() {
            FrameWait::Ready
        } else {
            FrameWait::Sleep(target.checked_sub(elapsed).unwrap())
        }
    }

    /// Starts a frame with the measured `elapsed`, cut to [`GameClock::max_elapsed`].
    pub fn tick(&mut self, elapsed: Duration) -> (it: TimeStepIter)
        requires
            old(self).wf(),
        ensures
            final(self).wf(),
            final(self)@ == (ClockModel { time_step: old(self)@.target, ..old(self)@ }),
            it@ == (
                if elapsed@ > MAX_ELAPSED_NANOS { MAX_ELAPSED_NANOS as nat } else { elapsed@ },
                0nat,
            ),
            frame_fits(with_accum(final(self)@, it@.0), it@.1),
    {
        let max = Self::max_elapsed();
        let elapsed = if elapsed.as_nanos() > max.as_nanos() {
            max
        } else {
            elapsed
        };
        self.time.elapsed = self.target_elapsed;
        TimeStepIter { elapsed, n_updates: 0 }
    }

    /// The lag counter.
    pub fn lag(&self) -> (l: u32)
        ensures
            l == self@.lag,
    {
        self.lag
    }

    /// The time step for drawing.
    pub fn timestep(&self) -> (ts: TimeStep)
        ensures
            ts@ == (self@.time_step, self@.total),
    {
        self.time
    }
}

/// The updates of one frame. Its view is `(time left, updates handed out)`.
#[derive(Debug)]
pub struct TimeStepIter {
    elapsed: Duration,
    n_updates: u32,
}

impl View for TimeStepIter {
    type V = (nat, nat);

    closed spec fn view(&self) -> (nat, nat) {
        (self.elapsed@, self.n_updates as nat)
    }
}

impl TimeStepIter {
    /// Whether the next call of [`TimeStepIter::next`] stays within the integer ranges.
    pub fn can_advance(&self, clock: &GameClock) -> (b: bool)
        ensures
            b == clock_step_in_range(with_accum(clock@, self@.0), self@.1),
    {
        if clock.is_fixed_timestep {
            if self.elapsed.as_nanos() >= clock.target_elapsed.as_nanos() {
                clock.time.total.as_nanos() <= MAX_NANOS - clock.target_elapsed.as_nanos()
            } else {
                clock.lag as u64 + self.n_updates as u64 <= u32::MAX as u64 + 1
            }
        } else {
            self.n_updates > 0 || clock.time.total.as_nanos() <= MAX_NANOS
                - self.elapsed.as_nanos()
        }
    }

    /// The next update of this frame, with the total time after it, or `None` once the
    /// frame is done.
    pub fn next(&mut self, clock: &mut GameClock) -> (r: Option<TimeStep>)
        requires
            old(clock).wf(),
            frame_fits(with_accum(old(clock)@, old(self)@.0), old(self)@.1),
            clock_step_in_range(with_accum(old(clock)@, old(self)@.0), old(self)@.1),
        ensures
            final(clock).wf(),
            frame_fits(with_accum(final(clock)@, final(self)@.0), final(self)@.1),
            iter_step(
                old(clock)@,
                old(self)@,
                final(clock)@,
                final(self)@,
                match r {
                    Some(ts) => Some(ts@),
                    None => None,
                },
            ),
    {
        let target = clock.target_elapsed;
        let n = self.n_updates;
        if clock.is_fixed_timestep {
            let ghost t = target@;
            let ghost a = self.elapsed@;
            // Perform as many full fixed length time steps as we can
            if self.elapsed.as_nanos() >= target.as_nanos() {
                proof {
                    assert(n <= n * t) by (nonlinear_arith)
                        requires t >= 1;
                    assert((n + 1) * t + (a - t) == n * t + a) by (nonlinear_arith);
                }
                clock.time.total = clock.time.total.checked_add(target).unwrap();
                self.elapsed = self.elapsed.checked_sub(target).unwrap();
                self.n_updates = n + 1;
                return Some(clock.time);
            }
            let (lag, is_slow) = settle_lag(clock.lag, clock.is_slow, n);
            clock.lag = lag;
            clock.is_slow = is_slow;
            proof {
                assert(t * n == n * t) by (nonlinear_arith);
            }
            clock.time.elapsed = target.checked_mul(n).unwrap();
            None
        } else {
            if n > 0 {
                return None;
            }
            // Perform a single variable length update, spending all the measured time on it
            clock.time.elapsed = self.elapsed;
            clock.time.total = clock.time.total.checked_add(self.elapsed).unwrap();
            self.elapsed = Duration::zero();
            self.n_updates = 1;
            Some(clock.time)
        }
    }
}

/// Calls of [`TimeStepIter::next`] one after another in a fixed-step frame, right after
/// [`GameClock::tick`] (`cs[k]` and `its[k]` are the clock and the iterator before call `k`,
/// `ys[k]` the time step it gave): with `e` of measured time and updates of length `t`, the
/// first `e / t` calls each give a step of length `t`, with the total after it; the next
/// one gives none and ends the frame: the total has grown by the time the updates covered,
/// that time is the draw step, and `e % t` is left unspent.
pub proof fn lemma_fixed_frame_iteration(
    cs: Seq<ClockModel>,
    its: Seq<(nat, nat)>,
    ys: Seq<Option<(nat, nat)>>,
)
    requires
        cs.len() == ys.len() + 1,
        its.len() == ys.len() + 1,
        cs[0].is_fixed_timestep,
        cs[0].target > 0,
        cs[0].time_step == cs[0].target,
        its[0].1 == 0,
        forall|k: int| 0 <= k < ys.len() ==> #[trigger] iter_step(cs[k], its[k], cs[k + 1], its[k + 1], ys[k]),
    ensures
        forall|k: int|
            0 <= k < ys.len() && k < its[0].0 / cs[0].target ==> #[trigger] ys[k] == Some(
                (cs[0].target, (cs[0].total + cs[0].target * (k + 1)) as nat),
            ),
        ({
            let q = (its[0].0 / cs[0].target) as int;
            ys.len() > q ==> {
                &&& ys[q] is None
                &&& cs[q + 1].total == cs[0].total + cs[0].target * q
                &&& cs[q + 1].time_step == cs[0].target * q
                &&& its[q + 1] == (its[0].0 % cs[0].target, q as nat)
            }
        }),
{
    let len = cs.len();
    let ms = Seq::new(len, |k: int| with_accum(cs[k], its[k].0));
    let ns = Seq::new(len, |k: int| its[k].1);
    let rs = Seq::new(
        ys.len(),
        |k: int|
            match ys[k] {
                Some(ts) => Some(ts.0),
                None => None,
            },
    );
    assert forall|k: int| 0 <= k < rs.len() implies #[trigger] clock_step(ms[k], ns[k]) == (
        ms[k + 1],
        ns[k + 1],
        rs[k],
    ) by {
        assert(iter_step(cs[k], its[k], cs[k + 1], its[k + 1], ys[k]));
    }
    lemma_fixed_frame_calls(ms, ns, rs);
    assert forall|k: int| 0 <= k < ys.len() && k < its[0].0 / cs[0].target implies #[trigger] ys[k]
        == Some((cs[0].target, (cs[0].total + cs[0].target * (k + 1)) as nat)) by {
        assert(rs[k] == Some(ms[0].target));
        assert(ms[k + 1].total == ms[0].total + ms[0].target * (k + 1));
        assert(iter_step(cs[k], its[k], cs[k + 1], its[k + 1], ys[k]));
    }
    let q = (its[0].0 / cs[0].target) as int;
    if ys.len() > q {
        assert(iter_step(cs[q], its[q], cs[q + 1], its[q + 1], ys[q]));
    }
}

/// Dependencies to update game data: the time step and the screen size.
#[derive(Clone, Copy, Debug)]
pub struct UpdateContext {
    ts: TimeStep,
    screen_size: [u32; 2],
}

impl UpdateContext {
    pub fn new(ts: TimeStep, screen_size: [u32; 2]) -> (c: UpdateContext)
        ensures
            c.ts_spec() == ts@,
            c.screen_size_spec() == screen_size,
    {
        UpdateContext { ts, screen_size }
    }

    pub closed spec fn ts_spec(self) -> (nat, nat) {
        self.ts@
    }

    pub closed spec fn screen_size_spec(self) -> [u32; 2] {
        self.screen_size
    }

    pub fn ts(&self) -> (ts: &TimeStep)
        ensures
            ts@ == self.ts_spec(),
    {
        &self.ts
    }

    pub fn screen_size(&self) -> (s: [u32; 2])
        ensures
            s == self.screen_size_spec(),
    {
        self.screen_size
    }
}

} // verus!

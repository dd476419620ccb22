//! Utilities for framework users.

use vstd::prelude::*;
use crate::time::{Duration, MAX_NANOS, NANOS_PER_SEC};

verus! {

/// Frame rate counter. Its view is `(frames counted, time counted in nanoseconds)`.
#[derive(Clone, Copy, Debug, PartialEq, Eq, Structural, Hash)]
pub struct FpsCounter {
    fps: usize,
    /// For updating view when necessary
    elapsed: Duration,
}

impl View for FpsCounter {
    type V = (nat, nat);

    closed spec fn view(&self) -> (nat, nat) {
        (self.fps as nat, self.elapsed@)
    }
}

/// One call of [`FpsCounter::update`] on a counter at `s` (frames, time) with a frame of
/// `d` nanoseconds: the counter after it, and what it reports.
pub open spec fn fps_step(s: (nat, nat), d: nat) -> ((nat, nat), Option<nat>) {
    if s.1 + d >= NANOS_PER_SEC {
        ((0nat, 0nat), Some(s.0))
    } else {
        ((s.0 + 1, s.1 + d), None)
    }
}

impl Default for FpsCounter {
    fn default() -> (c: FpsCounter)
        ensures
            c@ == (0nat, 0nat),
    {
        FpsCounter { fps: 0, elapsed: Duration::zero() }
    }
}

impl FpsCounter {
    /// Counts one frame that took `elapsed`. Once a second or more has been counted, returns
    /// the number of frames counted before this one and starts counting anew.
    pub fn update(&mut self, elapsed: Duration) -> (r: Option<usize>)
        requires
            old(self)@.0 < usize::MAX,
            old(self)@.1 + elapsed@ <= MAX_NANOS,
        ensures
            ({
                let (s, y) = fps_step(old(self)@, elapsed@);
                &&& final(self)@ == s
                &&& (r is Some <==> y is Some)
                &&& (r matches Some(x) ==> x == y->0)
            }),
    {
        self.fps = self.fps + 1;
        self.elapsed = self.elapsed.checked_add(elapsed).unwrap();
        if self.elapsed.as_nanos() >= Duration::from_secs(1).as_nanos() {
            let fps = self.fps;
            self.fps = 0;
            self.elapsed = Duration::zero();
            // the frame that passed the second is not counted
            Some(fps - 1)
        } else {
            None
        }
    }
}

/// The time of frames `[a, b)` of `ds`.
pub open spec fn frames_time(ds: Seq<nat>, a: int, b: int) -> nat
    decreases b - a,
{
    if b <= a {
        0
    } else {
        frames_time(ds, a, b - 1) + ds[b - 1]
    }
}

/// The first of the first `j` frames counted since the last report among them (0 when none
/// reported).
pub open spec fn last_report_end(rs: Seq<Option<nat>>, j: int) -> int
    decreases j,
{
    if j <= 0 {
        0
    } else if rs[j - 1] is Some {
        j
    } else {
        last_report_end(rs, j - 1)
    }
}

/// The sum of `k + 1` over the reports `Some(k)` among the first `j` frames.
pub open spec fn reported_frames(rs: Seq<Option<nat>>, j: int) -> int
    decreases j,
{
    if j <= 0 {
        0
    } else {
        reported_frames(rs, j - 1) + match rs[j - 1] {
            Some(k) => k + 1,
            None => 0,
        }
    }
}

proof fn lemma_fps_frames_prefix(ds: Seq<nat>, ss: Seq<(nat, nat)>, rs: Seq<Option<nat>>, j: int)
    requires
        ds.len() == rs.len(),
        ss.len() == rs.len() + 1,
        ss[0] == (0nat, 0nat),
        forall|i: int| 0 <= i < rs.len() ==> #[trigger] fps_step(ss[i], ds[i]) == (ss[i + 1], rs[i]),
        0 <= j < ss.len(),
    ensures
        0 <= last_report_end(rs, j) <= j,
        ss[j] == ((j - last_report_end(rs, j)) as nat, frames_time(ds, last_report_end(rs, j), j)),
        ss[j].1 < NANOS_PER_SEC,
        reported_frames(rs, j) == last_report_end(rs, j),
    decreases j,
{
    if j > 0 {
        lemma_fps_frames_prefix(ds, ss, rs, j - 1);
        assert(fps_step(ss[j - 1], ds[j - 1]) == (ss[j], rs[j - 1]));
        let l = last_report_end(rs, j - 1);
        if rs[j - 1] is None {
            assert(frames_time(ds, l, j) == frames_time(ds, l, j - 1) + ds[j - 1]);
        }
    }
}

/// Frames of any lengths counted one after another from a new counter (`ds[j]` is the length
/// of frame `j`, `ss[j]` the counter before it, `rs[j]` what it reports): the counted time
/// is always below a second, and the counter holds the frames since the last report and
/// their time; a frame reports exactly when the time since the last report reaches a
/// second, and it reports the frames counted before it since then; over all the reports,
/// the reported counts plus one each add up to the frames up to the last report.
pub proof fn lemma_fps_frames(ds: Seq<nat>, ss: Seq<(nat, nat)>, rs: Seq<Option<nat>>)
    requires
        ds.len() == rs.len(),
        ss.len() == rs.len() + 1,
        ss[0] == (0nat, 0nat),
        forall|j: int| 0 <= j < rs.len() ==> #[trigger] fps_step(ss[j], ds[j]) == (ss[j + 1], rs[j]),
    ensures
        forall|j: int| 0 <= j < ss.len() ==> (#[trigger] ss[j]).1 < NANOS_PER_SEC,
        forall|j: int|
            0 <= j < ss.len() ==> #[trigger] ss[j] == (
                (j - last_report_end(rs, j)) as nat,
                frames_time(ds, last_report_end(rs, j), j),
            ),
        forall|j: int|
            0 <= j < rs.len() ==> (#[trigger] rs[j] is Some <==> frames_time(
                ds,
                last_report_end(rs, j),
                j + 1,
            ) >= NANOS_PER_SEC),
        forall|j: int|
            0 <= j < rs.len() && #[trigger] rs[j] is Some ==> rs[j] == Some(
                (j - last_report_end(rs, j)) as nat,
            ),
        forall|j: int| 0 <= j < ss.len() ==> #[trigger] reported_frames(rs, j) == last_report_end(rs, j),
{
    assert forall|j: int| 0 <= j < ss.len() implies (#[trigger] ss[j]).1 < NANOS_PER_SEC && ss[j] == (
        (j - last_report_end(rs, j)) as nat,
        frames_time(ds, last_report_end(rs, j), j),
    ) by {
        lemma_fps_frames_prefix(ds, ss, rs, j);
    }
    assert forall|j: int| 0 <= j < rs.len() implies (#[trigger] rs[j] is Some <==> frames_time(
        ds,
        last_report_end(rs, j),
        j + 1,
    ) >= NANOS_PER_SEC) && (rs[j] is Some ==> rs[j] == Some((j - last_report_end(rs, j)) as nat)) by {
        lemma_fps_frames_prefix(ds, ss, rs, j);
        assert(fps_step(ss[j], ds[j]) == (ss[j + 1], rs[j]));
        let l = last_report_end(rs, j);
        assert(frames_time(ds, l, j + 1) == frames_time(ds, l, j) + ds[j]);
    }
    assert forall|j: int| 0 <= j < ss.len() implies #[trigger] reported_frames(rs, j) == last_report_end(rs, j) by {
        lemma_fps_frames_prefix(ds, ss, rs, j);
    }
}

/// Frames of one length `d` counted one after another from a new counter (`ss[j]` is the
/// counter before frame `j`, `rs[j]` what that frame reports): with `k` the fewest frames
/// that make a second, the first `k - 1` frames report nothing, and frame `k` reports
/// `k - 1` and leaves the counter as new, so the same repeats.
pub proof fn lemma_fps_constant_frames(d: nat, ss: Seq<(nat, nat)>, rs: Seq<Option<nat>>)
    requires
        d > 0,
        ss.len() == rs.len() + 1,
        ss[0] == (0nat, 0nat),
        forall|j: int| 0 <= j < rs.len() ==> #[trigger] fps_step(ss[j], d) == (ss[j + 1], rs[j]),
    ensures
        ({
            let k = (NANOS_PER_SEC + d - 1) / (d as int);
            &&& k >= 1
            &&& k * d >= NANOS_PER_SEC
            &&& (k - 1) * d < NANOS_PER_SEC
            &&& forall|j: int| 0 <= j < rs.len() && j < k - 1 ==> #[trigger] rs[j] is None
            &&& forall|j: int| 0 <= j < ss.len() && j < k ==> #[trigger] ss[j] == (j as nat, (j * d) as nat)
            &&& rs.len() >= k ==> rs[k - 1] == Some((k - 1) as nat) && ss[k as int] == (0nat, 0nat)
        }),
{
    let nn = NANOS_PER_SEC as int;
    let di = d as int;
    let k = (nn + di - 1) / di;
    vstd::arithmetic::div_mod::lemma_fundamental_div_mod(nn + di - 1, di);
    vstd::arithmetic::div_mod::lemma_mod_pos_bound(nn + di - 1, di);
    let r = (nn + di - 1) % di;
    assert(k * di >= nn) by (nonlinear_arith)
        requires nn + di - 1 == di * k + r, r < di;
    assert((k - 1) * di < nn) by (nonlinear_arith)
        requires nn + di - 1 == di * k + r, r >= 0;
    assert(k >= 1) by (nonlinear_arith)
        requires k * di >= nn, nn > 0, di > 0;
    assert forall|j: int| 0 <= j < ss.len() && j < k implies #[trigger] ss[j] == (j as nat, (j * d) as nat) by {
        lemma_fps_prefix(d, ss, rs, k, j);
    }
    assert forall|j: int| 0 <= j < rs.len() && j < k - 1 implies #[trigger] rs[j] is None by {
        lemma_fps_prefix(d, ss, rs, k, j);
        assert((j + 1) * di <= (k - 1) * di) by (nonlinear_arith)
            requires j + 1 <= k - 1, di > 0;
        assert(j * di + di == (j + 1) * di) by (nonlinear_arith);
        assert(fps_step(ss[j], d) == (ss[j + 1], rs[j]));
    }
    if rs.len() >= k {
        lemma_fps_prefix(d, ss, rs, k, k - 1);
        assert((k - 1) * di + di == k * di) by (nonlinear_arith);
        assert(fps_step(ss[k - 1], d) == (ss[k], rs[k - 1]));
    }
}

proof fn lemma_fps_prefix(d: nat, ss: Seq<(nat, nat)>, rs: Seq<Option<nat>>, k: int, j: int)
    requires
        d > 0,
        ss.len() == rs.len() + 1,
        ss[0] == (0nat, 0nat),
        forall|i: int| 0 <= i < rs.len() ==> #[trigger] fps_step(ss[i], d) == (ss[i + 1], rs[i]),
        (k - 1) * d < NANOS_PER_SEC,
        0 <= j < ss.len(),
        j < k,
    ensures
        ss[j] == (j as nat, (j * d) as nat),
    decreases j,
{
    if j > 0 {
        lemma_fps_prefix(d, ss, rs, k, j - 1);
        assert(fps_step(ss[j - 1], d) == (ss[j], rs[j - 1]));
        assert(j * d <= (k - 1) * d) by (nonlinear_arith)
            requires j <= k - 1, d > 0;
        assert((j - 1) * d + d == j * d) by (nonlinear_arith);
    } else {
        assert(j * d == 0) by (nonlinear_arith)
            requires j == 0;
    }
}

} // verus!

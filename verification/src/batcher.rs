//! Quad batcher: the texture of each pushed quad, and the draw calls that render them.
//!
//! Quads are counted here; the base vertex of a quad is four times its index, since each
//! quad has four vertices. The index buffer repeats one pattern of six indices per quad,
//! shifted by four vertices each time, so a draw call reads it from its start and lets the
//! base vertex select the quads.

use vstd::prelude::*;
use crate::batch::{is_texture_run, lemma_sprite_indices_own_vertices, sprite_indices};
use crate::texture::Texture2D;

verus! {

/// The most quads one batch holds.
pub const MAX_QUADS: usize = 2048;

/// Accumulated quads: `texture_track[i]` is the texture of quad `i`, for `i < n_quads`.
#[derive(Debug)]
pub struct BatchData {
    pub texture_track: Vec<Texture2D>,
    pub n_quads: usize,
}

impl BatchData {
    /// No more quads than tracked textures, nor than `MAX_QUADS`.
    pub open spec fn wf(&self) -> bool {
        &&& self.n_quads <= self.texture_track@.len()
        &&& self.n_quads <= MAX_QUADS
    }

    /// An empty batch tracking `MAX_QUADS` empty textures.
    pub fn new() -> (b: BatchData)
        ensures
            b.wf(),
            b.n_quads == 0,
            b.texture_track@.len() == MAX_QUADS,
            forall|i: int| 0 <= i < MAX_QUADS ==> #[trigger] b.texture_track@[i] == Texture2D::empty_spec(),
    {
        let mut t: Vec<Texture2D> = Vec::new();
        let mut i: usize = 0;
        while i < MAX_QUADS
            invariant
                i <= MAX_QUADS,
                t@.len() == i,
                forall|j: int| 0 <= j < i ==> #[trigger] t@[j] == Texture2D::empty_spec(),
            decreases MAX_QUADS - i,
        {
            t.push(Texture2D::empty());
            i = i + 1;
        }
        BatchData { texture_track: t, n_quads: 0 }
    }
}

/// `[lo, hi)` span of quads in a [`BatchData`] for one draw call.
#[derive(Clone, Copy, Debug, PartialEq, Eq, Structural)]
pub struct BatchSpan {
    /// low (inclusive)
    pub lo: usize,
    /// high (exclusive)
    pub hi: usize,
}

impl BatchSpan {
    /// The number of quads to draw (twice as many triangles).
    pub fn len(&self) -> (n: usize)
        requires
            self.lo <= self.hi,
        ensures
            n == self.hi - self.lo,
    {
        self.hi - self.lo
    }
}

/// One call of [`BatchSpanIter::next`] on quads `[0, n)` of textures `tex`, with the iterator
/// at `cur` (first quad not handed out, spans handed out): the result `r`, and `cur2`, the
/// iterator after it. Past the last quad it gives `None` and stays; otherwise the whole run
/// of one texture from the first quad not handed out, with that quad as the texture slot.
pub open spec fn span_step(
    tex: Seq<Texture2D>,
    n: int,
    cur: (nat, nat),
    r: Option<(usize, BatchSpan)>,
    cur2: (nat, nat),
) -> bool {
    &&& (cur.0 >= n <==> r is None)
    &&& (r is None ==> cur2 == cur)
    &&& (r matches Some((slot, span)) ==> {
        &&& slot == span.lo
        &&& span.lo == cur.0
        &&& is_texture_run(tex, span.lo as int, span.hi as int, n)
        &&& cur2 == (span.hi as nat, cur.1 + 1)
    })
}

/// Every one of the first `k` calls gave a span.
pub open spec fn all_some(rs: Seq<Option<(usize, BatchSpan)>>, k: int) -> bool {
    forall|j: int| 0 <= j < k ==> (#[trigger] rs[j]) is Some
}

/// The spans the first `k` calls gave, with their slots, cut quads from the first one on,
/// in order, into whole runs of one texture each, none past quad `n`, each with its first
/// quad as the slot.
pub open spec fn spans_cut_runs(tex: Seq<Texture2D>, n: int, rs: Seq<Option<(usize, BatchSpan)>>, k: int) -> bool {
    forall|j: int|
        0 <= j < k ==> {
            let (slot, span) = (#[trigger] rs[j])->0;
            &&& slot == span.lo
            &&& is_texture_run(tex, span.lo as int, span.hi as int, n)
            &&& span.lo == (if j == 0 { 0 } else { (rs[j - 1]->0).1.hi })
        }
}

/// Slices a [`BatchData`] into [`BatchSpan`]s, each of which is one draw call: a run of
/// quads with the same texture. Clear `n_quads` after making the draw calls. Its view is
/// `(first quad not handed out, spans handed out)`.
#[derive(Debug)]
pub struct BatchSpanIter {
    current: usize,
    nth: usize,
}

impl View for BatchSpanIter {
    type V = (nat, nat);

    closed spec fn view(&self) -> (nat, nat) {
        (self.current as nat, self.nth as nat)
    }
}

impl BatchSpanIter {
    pub fn new() -> (it: BatchSpanIter)
        ensures
            it@ == (0nat, 0nat),
    {
        BatchSpanIter { current: 0, nth: 0 }
    }

    /// The texture slot (the first quad of the span) and the next run of quads of one
    /// texture, or `None` when all the quads are handed out.
    pub fn next(&mut self, batch: &BatchData) -> (r: Option<(usize, BatchSpan)>)
        requires
            batch.wf(),
            old(self)@.1 < usize::MAX,
        ensures
            span_step(batch.texture_track@, batch.n_quads as int, old(self)@, r, final(self)@),
    {
        let n = batch.n_quads;
        if self.current >= n {
            return None;
        }
        self.nth = self.nth + 1;
        let lo = self.current;
        let mut hi = lo + 1;
        while hi < n
            invariant
                batch.wf(),
                n == batch.n_quads,
                lo < hi <= n,
                forall|i: int| lo <= i < hi ==> #[trigger] batch.texture_track@[i]
                    == batch.texture_track@[lo as int],
            ensures
                lo < hi <= n,
                forall|i: int| lo <= i < hi ==> #[trigger] batch.texture_track@[i]
                    == batch.texture_track@[lo as int],
                hi == n || batch.texture_track@[hi as int] != batch.texture_track@[lo as int],
            decreases n - hi,
        {
            if batch.texture_track[hi] != batch.texture_track[lo] {
                break;
            }
            hi = hi + 1;
        }
        self.current = hi;
        Some((lo, BatchSpan { lo, hi }))
    }
}

#[verifier::rlimit(30)]
proof fn lemma_span_prefix(
    tex: Seq<Texture2D>,
    n: int,
    rs: Seq<Option<(usize, BatchSpan)>>,
    cs: Seq<(nat, nat)>,
    k: int,
)
    requires
        0 <= n <= tex.len(),
        cs.len() == rs.len() + 1,
        cs[0] == (0nat, 0nat),
        forall|i: int| 0 <= i < rs.len() ==> span_step(tex, n, #[trigger] cs[i], rs[i], cs[i + 1]),
        0 <= k < cs.len(),
    ensures
        cs[k].0 <= n,
        all_some(rs, k) ==> {
            &&& spans_cut_runs(tex, n, rs, k)
            &&& cs[k].0 == (if k == 0 { 0 } else { (rs[k - 1]->0).1.hi as int })
            &&& cs[k].1 == k
            &&& k <= cs[k].0
        },
    decreases k,
{
    if k > 0 {
        lemma_span_prefix(tex, n, rs, cs, k - 1);
        assert(span_step(tex, n, cs[k - 1], rs[k - 1], cs[k]));
        if all_some(rs, k) {
            assert(all_some(rs, k - 1));
            assert(rs[k - 1] is Some);
            assert forall|j: int| 0 <= j < k implies {
                let (slot, span) = (#[trigger] rs[j])->0;
                &&& slot == span.lo
                &&& is_texture_run(tex, span.lo as int, span.hi as int, n)
                &&& span.lo == (if j == 0 { 0 } else { (rs[j - 1]->0).1.hi })
            } by {
                if j < k - 1 {
                    assert(spans_cut_runs(tex, n, rs, k - 1));
                }
            }
        }
    }
}

proof fn lemma_span_done_stays(
    tex: Seq<Texture2D>,
    n: int,
    rs: Seq<Option<(usize, BatchSpan)>>,
    cs: Seq<(nat, nat)>,
    k: int,
    j: int,
)
    requires
        0 <= n <= tex.len(),
        cs.len() == rs.len() + 1,
        cs[0] == (0nat, 0nat),
        forall|i: int| 0 <= i < rs.len() ==> span_step(tex, n, #[trigger] cs[i], rs[i], cs[i + 1]),
        0 <= k <= j < rs.len(),
        rs[k] is None,
    ensures
        rs[j] is None,
        cs[j] == cs[k],
    decreases j - k,
{
    lemma_span_prefix(tex, n, rs, cs, j);
    if j > k {
        lemma_span_done_stays(tex, n, rs, cs, k, j - 1);
        assert(span_step(tex, n, cs[j - 1], rs[j - 1], cs[j]));
    }
    assert(span_step(tex, n, cs[j], rs[j], cs[j + 1]));
}

/// Calls of [`BatchSpanIter::next`] one after another on an unchanged batch of `n` quads,
/// from a new iterator (`rs[k]` is what call `k` gave, `cs[k]` the iterator before it):
/// while every call so far gave a span, those spans cut the quads from the first one into
/// whole runs of one texture, in order, each with its first quad as the slot, and the
/// iterator stands at the end of the last, having counted them; a call gives `None` exactly
/// when all the quads are handed out, so with no quad the first call gives `None`, and no
/// more than `n` calls give a span; once a call gives `None`, every later one does too.
pub proof fn lemma_span_iteration(
    tex: Seq<Texture2D>,
    n: int,
    rs: Seq<Option<(usize, BatchSpan)>>,
    cs: Seq<(nat, nat)>,
)
    requires
        0 <= n <= tex.len(),
        cs.len() == rs.len() + 1,
        cs[0] == (0nat, 0nat),
        forall|k: int| 0 <= k < rs.len() ==> span_step(tex, n, #[trigger] cs[k], rs[k], cs[k + 1]),
    ensures
        forall|k: int| 0 <= k < rs.len() ==> (#[trigger] rs[k] is None <==> cs[k].0 == n),
        forall|k: int|
            0 <= k < cs.len() && #[trigger] all_some(rs, k) ==> {
                &&& spans_cut_runs(tex, n, rs, k)
                &&& cs[k].0 == (if k == 0 { 0 } else { (rs[k - 1]->0).1.hi as int })
                &&& cs[k].1 == k
            },
        forall|k: int| 0 <= k < rs.len() && #[trigger] all_some(rs, k + 1) ==> k < n,
        forall|k: int, j: int| 0 <= k <= j < rs.len() && #[trigger] rs[k] is None ==> #[trigger] rs[j] is None,
{
    assert forall|k: int| 0 <= k < rs.len() implies (#[trigger] rs[k] is None <==> cs[k].0 == n) by {
        lemma_span_prefix(tex, n, rs, cs, k);
        assert(span_step(tex, n, cs[k], rs[k], cs[k + 1]));
    }
    assert forall|k: int|
        0 <= k < cs.len() && #[trigger] all_some(rs, k) implies {
            &&& spans_cut_runs(tex, n, rs, k)
            &&& cs[k].0 == (if k == 0 { 0 } else { (rs[k - 1]->0).1.hi as int })
            &&& cs[k].1 == k
        } by {
        lemma_span_prefix(tex, n, rs, cs, k);
    }
    assert forall|k: int| 0 <= k < rs.len() && #[trigger] all_some(rs, k + 1) implies k < n by {
        assert(all_some(rs, k));
        lemma_span_prefix(tex, n, rs, cs, k);
        assert(rs[k] is Some);
        assert(span_step(tex, n, cs[k], rs[k], cs[k + 1]));
    }
    assert forall|k: int, j: int| 0 <= k <= j < rs.len() && #[trigger] rs[k] is None implies #[trigger] rs[j] is None by {
        lemma_span_done_stays(tex, n, rs, cs, k, j);
    }
}

/// The parameters of one indexed draw call of triangles.
#[derive(Clone, Copy, Debug, PartialEq, Eq, Structural)]
pub struct DrawCall {
    /// The quad whose texture is sampled
    pub slot: usize,
    /// The number of vertices to skip
    pub base_vertex: usize,
    /// The number of indices to skip
    pub start_index: usize,
    /// The number of triangles to draw
    pub n_primitives: usize,
}

/// The draw call for quads `[lo, hi)`: vertices from `4 * lo`, indices from the start of the
/// index buffer, two triangles for each quad.
pub open spec fn draw_call_of(lo: int, hi: int) -> DrawCall {
    DrawCall {
        slot: lo as usize,
        base_vertex: (4 * lo) as usize,
        start_index: 0,
        n_primitives: (2 * (hi - lo)) as usize,
    }
}

/// Call `k` draws quads `[ends[k - 1], ends[k])` (from quad 0 for the first), a whole run
/// of one texture.
pub open spec fn call_covers_run(tex: Seq<Texture2D>, n: int, calls: Seq<DrawCall>, ends: Seq<int>, k: int) -> bool {
    let lo = if k == 0 { 0 } else { ends[k - 1] };
    &&& is_texture_run(tex, lo, ends[k], n)
    &&& calls[k] == draw_call_of(lo, ends[k])
}

/// The draw calls cover the first `n` quads with runs of one texture, in order: call `k`
/// draws quads `[ends[k - 1], ends[k])` (from quad 0 for the first).
#[verifier::opaque]
pub open spec fn calls_cover_runs(tex: Seq<Texture2D>, n: int, calls: Seq<DrawCall>, ends: Seq<int>) -> bool {
    &&& calls.len() == ends.len()
    &&& forall|k: int| 0 <= k < calls.len() ==> #[trigger] call_covers_run(tex, n, calls, ends, k)
}

proof fn lemma_cover_push(
    tex: Seq<Texture2D>,
    n: int,
    calls: Seq<DrawCall>,
    ends: Seq<int>,
    hi: int,
    call: DrawCall,
)
    requires
        calls_cover_runs(tex, n, calls, ends),
        is_texture_run(tex, if ends.len() == 0 { 0 } else { ends.last() }, hi, n),
        call == draw_call_of(if ends.len() == 0 { 0 } else { ends.last() }, hi),
    ensures
        calls_cover_runs(tex, n, calls.push(call), ends.push(hi)),
{
    reveal(calls_cover_runs);
    let calls2 = calls.push(call);
    let ends2 = ends.push(hi);
    assert forall|k: int| 0 <= k < calls2.len() implies #[trigger] call_covers_run(tex, n, calls2, ends2, k) by {
        if k < calls.len() {
            assert(call_covers_run(tex, n, calls, ends, k));
            assert(ends2[k] == ends[k]);
            assert(calls2[k] == calls[k]);
            if k > 0 {
                assert(ends2[k - 1] == ends[k - 1]);
            }
        } else {
            assert(ends2[k] == hi);
            assert(calls2[k] == call);
            if k > 0 {
                assert(ends2[k - 1] == ends.last());
            }
        }
    }
}

/// Draw calls for quads `[0, n)` read, through the index buffer, exactly the vertices of their
/// own quads: each call's slot is the first quad of its run and its base vertex is four
/// times that quad, it reads indices from the start of the buffer and draws two triangles
/// per quad; the runs follow each other from quad 0 to quad `n`; and every index the call
/// reads, shifted by its base vertex, lands on a vertex of one of its own quads.
pub open spec fn calls_read_own_quads(calls: Seq<DrawCall>, n: int) -> bool {
    &&& calls.len() > 0
    &&& calls[0].slot == 0
    &&& calls.last().slot + calls.last().n_primitives / 2 == n
    &&& forall|k: int|
        0 <= k < calls.len() ==> {
            &&& (#[trigger] calls[k]).base_vertex == 4 * calls[k].slot
            &&& calls[k].start_index == 0
            &&& calls[k].n_primitives >= 2
            &&& calls[k].n_primitives % 2 == 0
            &&& (k > 0 ==> calls[k].slot == calls[k - 1].slot + calls[k - 1].n_primitives / 2)
        }
    &&& forall|k: int, m: int, j: int|
        #![trigger calls[k], sprite_indices(m)[j]]
        0 <= k < calls.len() && 0 <= m < calls[k].n_primitives / 2 && 0 <= j < 6 ==> 4
            * calls[k].slot <= calls[k].base_vertex + sprite_indices(m)[j] < 4 * (calls[k].slot
            + calls[k].n_primitives / 2)
}

/// The draw calls that cover quads `[0, n)` with runs of one texture read exactly the
/// vertices of their own quads.
pub proof fn lemma_covering_calls_read_own_quads(tex: Seq<Texture2D>, n: int, calls: Seq<DrawCall>, ends: Seq<int>)
    requires
        calls_cover_runs(tex, n, calls, ends),
        ends.len() > 0,
        ends.last() == n,
        n <= MAX_QUADS,
    ensures
        calls_read_own_quads(calls, n),
{
    reveal(calls_cover_runs);
    assert forall|k: int| 0 <= k < calls.len() implies {
        let lo = if k == 0 { 0 } else { ends[k - 1] };
        &&& 0 <= lo < ends[k] <= n
        &&& (#[trigger] calls[k]).slot == lo
        &&& calls[k].base_vertex == 4 * lo
        &&& calls[k].start_index == 0
        &&& calls[k].n_primitives == 2 * (ends[k] - lo)
    } by {
        assert(call_covers_run(tex, n, calls, ends, k));
    }
    let last = calls.len() - 1;
    assert(calls.last() == calls[last]);
    assert forall|k: int| 0 <= k < calls.len() implies {
        &&& (#[trigger] calls[k]).base_vertex == 4 * calls[k].slot
        &&& calls[k].start_index == 0
        &&& calls[k].n_primitives >= 2
        &&& calls[k].n_primitives % 2 == 0
        &&& (k > 0 ==> calls[k].slot == calls[k - 1].slot + calls[k - 1].n_primitives / 2)
    } by {
        if k > 0 {
            let km = k - 1;
            assert(calls[km].slot == (if km == 0 { 0 } else { ends[km - 1] }));
        }
    }
    assert forall|k: int, m: int, j: int|
        #![trigger calls[k], sprite_indices(m)[j]]
        0 <= k < calls.len() && 0 <= m < calls[k].n_primitives / 2 && 0 <= j < 6 implies 4
            * calls[k].slot <= calls[k].base_vertex + sprite_indices(m)[j] < 4 * (calls[k].slot
            + calls[k].n_primitives / 2) by {
        lemma_sprite_indices_own_vertices(m);
        assert(4 * m <= sprite_indices(m)[j] < 4 * m + 4);
    }
}

/// A flush of a begun pass with quads pushed makes draw calls that read exactly the vertices
/// of their own quads, covering every pushed quad.
pub proof fn lemma_flush_reads_own_quads(
    before: (bool, Seq<Texture2D>, nat),
    after: (bool, Seq<Texture2D>, nat),
    r: FlushOutcome,
)
    requires
        Batcher::flushed(before, after, r),
        before.0,
        before.2 > 0,
        before.2 <= MAX_QUADS,
    ensures
        r matches FlushOutcome::Draw(calls) && calls_read_own_quads(calls@, before.2 as int),
{
    if let FlushOutcome::Draw(calls) = r {
        let ends = choose|ends: Seq<int>|
            {
                &&& calls_cover_runs(before.1, before.2 as int, calls@, ends)
                &&& ends.len() > 0
                &&& ends.last() == before.2
            };
        lemma_covering_calls_read_own_quads(before.1, before.2 as int, calls@, ends);
    }
}

/// What a flush of the [`Batcher`] comes to.
#[derive(Debug)]
pub enum FlushOutcome {
    /// The pass was not begun: nothing is drawn (a warning is due)
    NotBegun,
    /// Nothing was pushed: nothing is drawn
    Empty,
    /// These draw calls, in order
    Draw(Vec<DrawCall>),
}

/// Batches draw calls as much as possible. Its view is
/// `(begun, textures, number of quads)`.
#[derive(Debug)]
pub struct Batcher {
    batch: BatchData,
    is_begin_called: bool,
}

impl View for Batcher {
    type V = (bool, Seq<Texture2D>, nat);

    closed spec fn view(&self) -> (bool, Seq<Texture2D>, nat) {
        (self.is_begin_called, self.batch.texture_track@, self.batch.n_quads as nat)
    }
}

impl Batcher {
    /// The batch holds no more quads than tracked textures, nor than `MAX_QUADS`.
    pub open spec fn wf(&self) -> bool {
        &&& self@.2 <= self@.1.len()
        &&& self@.2 <= MAX_QUADS
    }

    /// No pass begun, and an empty batch.
    pub fn new() -> (b: Batcher)
        ensures
            b.wf(),
            !b@.0,
            b@.2 == 0,
            b@.1.len() == MAX_QUADS,
    {
        Batcher { batch: BatchData::new(), is_begin_called: false }
    }

    pub fn is_begin_called(&self) -> (b: bool)
        ensures
            b == self@.0,
    {
        self.is_begin_called
    }

    /// Begins a pass.
    pub fn begin(&mut self)
        ensures
            final(self)@ == (true, old(self)@.1, old(self)@.2),
    {
        self.is_begin_called = true;
    }

    /// The accumulated quads.
    pub fn batch(&self) -> (b: &BatchData)
        ensures
            b.texture_track@ == self@.1,
            b.n_quads == self@.2,
    {
        &self.batch
    }

    /// The number of quads pushed since the last flush.
    pub fn n_quads(&self) -> (n: usize)
        ensures
            n == self@.2,
    {
        self.batch.n_quads
    }

    /// The number of quads the batch can hold.
    pub fn capacity(&self) -> (n: usize)
        ensures
            n == self@.1.len(),
    {
        self.batch.texture_track.len()
    }

    /// The texture tracked for quad `i`.
    pub fn texture(&self, i: usize) -> (t: Texture2D)
        requires
            i < self@.1.len(),
        ensures
            t == self@.1[i as int],
    {
        self.batch.texture_track[i]
    }

    /// Records that the next quad uses `texture`.
    pub fn push_texture(&mut self, texture: Texture2D)
        requires
            old(self).wf(),
            old(self)@.2 < old(self)@.1.len(),
            old(self)@.2 < MAX_QUADS,
        ensures
            final(self).wf(),
            final(self)@ == (
                old(self)@.0,
                old(self)@.1.update(old(self)@.2 as int, texture),
                old(self)@.2 + 1,
            ),
    {
        let n = self.batch.n_quads;
        self.batch.texture_track.set(n, texture);
        self.batch.n_quads = n + 1;
    }

    /// Ends the pass and flushes the batch (a warning is due where no pass was begun).
    pub fn end(&mut self) -> (r: FlushOutcome)
        requires
            old(self).wf(),
        ensures
            final(self).wf(),
            Self::flushed(old(self)@, final(self)@, r),
            old(self)@.0 && old(self)@.2 > 0 ==> (r matches FlushOutcome::Draw(calls)
                && calls_read_own_quads(calls@, old(self)@.2 as int)),
    {
        if !self.is_begin_called {
            return FlushOutcome::NotBegun;
        }
        self.flush()
    }

    /// What a flush does: nothing without a begun pass; otherwise the pass ends, and, where
    /// quads were pushed, there is one draw call for each run of quads of one texture,
    /// covering them in order, and the batch is emptied.
    pub open spec fn flushed(
        before: (bool, Seq<Texture2D>, nat),
        after: (bool, Seq<Texture2D>, nat),
        r: FlushOutcome,
    ) -> bool {
        if !before.0 {
            r is NotBegun && after == before
        } else if before.2 == 0 {
            r is Empty && after == (false, before.1, 0nat)
        } else {
            &&& after == (false, before.1, 0nat)
            &&& r matches FlushOutcome::Draw(calls) && exists|ends: Seq<int>|
                {
                    &&& calls_cover_runs(before.1, before.2 as int, calls@, ends)
                    &&& ends.len() > 0
                    &&& ends.last() == before.2
                }
        }
    }

    /// Draws all the pushed quads: the draw calls to make.
    pub fn flush(&mut self) -> (r: FlushOutcome)
        requires
            old(self).wf(),
        ensures
            final(self).wf(),
            Self::flushed(old(self)@, final(self)@, r),
            old(self)@.0 && old(self)@.2 > 0 ==> (r matches FlushOutcome::Draw(calls)
                && calls_read_own_quads(calls@, old(self)@.2 as int)),
    {
        if !self.is_begin_called {
            return FlushOutcome::NotBegun;
        }
        self.is_begin_called = false;
        if self.batch.n_quads == 0 {
            return FlushOutcome::Empty;
        }
        let mut calls: Vec<DrawCall> = Vec::new();
        let ghost mut ends: Seq<int> = Seq::empty();
        let mut iter = BatchSpanIter::new();
        proof {
            reveal(calls_cover_runs);
        }
        let ghost tex = self.batch.texture_track@;
        let n = self.batch.n_quads;
        loop
            invariant
                self.batch.wf(),
                self.batch.texture_track@ == tex,
                self.batch.n_quads == n,
                n > 0,
                iter@.0 <= n,
                iter@.1 == calls@.len(),
                calls@.len() <= iter@.0,
                ends.len() == calls@.len(),
                iter@.0 == (if ends.len() == 0 { 0 } else { ends.last() }),
                calls_cover_runs(tex, n as int, calls@, ends),
            ensures
                iter@.0 == n,
                calls@.len() > 0,
                ends.len() > 0 && ends.last() == n,
                calls_cover_runs(tex, n as int, calls@, ends),
            decreases n - iter@.0,
        {
            match iter.next(&self.batch) {
                Some((slot, span)) => {
                    let n_quads = span.len();
                    let call = DrawCall {
                        slot,
                        base_vertex: span.lo * 4,
                        start_index: 0,
                        n_primitives: n_quads * 2,
                    };
                    proof {
                        lemma_cover_push(tex, n as int, calls@, ends, span.hi as int, call);
                        ends = ends.push(span.hi as int);
                    }
                    calls.push(call);
                },
                None => {
                    break;
                },
            }
        }
        self.batch.n_quads = 0;
        let r = FlushOutcome::Draw(calls);
        proof {
            lemma_flush_reads_own_quads(old(self)@, self@, r);
        }
        r
    }
}

} // verus!

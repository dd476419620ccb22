//! Sprite batch: the textures of the pushed sprites, and how they are cut into draw calls.
//!
//! A sprite is a quad: four vertices and six indices (two triangles). The vertex data
//! themselves are floating-point and stay with the caller; this module tracks which texture
//! each sprite uses and decides the draw calls.

use vstd::prelude::*;
use crate::texture::Texture2D;

verus! {

/// The most sprites one batch holds.
pub const MAX_SPRITES: usize = 2048;
/// The vertices of `MAX_SPRITES` sprites.
pub const MAX_VERTICES: usize = 8192;
/// The indices of `MAX_SPRITES` sprites.
pub const MAX_INDICES: usize = 12288;
/// The number of texture slots a new [`BatchData`] has.
pub const TEXTURE_SLOTS: usize = 16;

/// The six indices of sprite `n`: triangles (4n, 4n+1, 4n+2) and (4n+3, 4n+2, 4n+1).
pub open spec fn sprite_indices(n: int) -> Seq<i16> {
    seq![
        (4 * n) as i16,
        (4 * n + 1) as i16,
        (4 * n + 2) as i16,
        (4 * n + 3) as i16,
        (4 * n + 2) as i16,
        (4 * n + 1) as i16,
    ]
}

/// Each sprite's six indices name only its own four vertices, `[4n, 4n + 4)`, and every
/// sprite follows the pattern of the first one, shifted by its four vertices: the triangles
/// `(0, 1, 2)` and `(3, 2, 1)` of its corners.
pub proof fn lemma_sprite_indices_own_vertices(n: int)
    requires
        0 <= n < MAX_SPRITES,
    ensures
        sprite_indices(n).len() == 6,
        forall|k: int| 0 <= k < 6 ==> 4 * n <= #[trigger] sprite_indices(n)[k] < 4 * n + 4,
        forall|k: int| 0 <= k < 6 ==> #[trigger] sprite_indices(n)[k] - 4 * n == sprite_indices(0)[k],
        sprite_indices(0) == seq![0i16, 1, 2, 3, 2, 1],
{
    assert(sprite_indices(0) =~= seq![0i16, 1, 2, 3, 2, 1]);
}

/// The contents of the index buffer: six indices for each of the `MAX_SPRITES` sprites.
/// Every index names one of the `MAX_VERTICES` vertices, so 16 bits hold it.
pub fn gen_index_array() -> (data: [i16; MAX_INDICES])
    ensures
        forall|n: int, k: int|
            0 <= n < MAX_SPRITES && 0 <= k < 6 ==> #[trigger] data@[6 * n + k]
                == sprite_indices(n)[k],
        forall|i: int| 0 <= i < MAX_INDICES ==> 0 <= #[trigger] data@[i] < MAX_VERTICES,
        forall|n: int, k: int|
            0 <= n < MAX_SPRITES && 0 <= k < 6 ==> 4 * n <= #[trigger] data@[6 * n + k] < 4 * n + 4
                && data@[6 * n + k] - 4 * n == data@[k],
{
    let mut data = [0i16; MAX_INDICES];
    let mut n: i16 = 0;
    // for each sprite, two triangles (six indices)
    while n < MAX_SPRITES as i16
        invariant
            0 <= n <= MAX_SPRITES,
            data@.len() == MAX_INDICES,
            forall|m: int, k: int|
                0 <= m < n && 0 <= k < 6 ==> #[trigger] data@[6 * m + k] == sprite_indices(m)[k],
        decreases MAX_SPRITES - n,
    {
        let (i, v) = (n * 6, n * 4);
        data[i as usize] = v;
        data[(i + 1) as usize] = v + 1;
        data[(i + 2) as usize] = v + 2;
        data[(i + 3) as usize] = v + 3;
        data[(i + 4) as usize] = v + 2;
        data[(i + 5) as usize] = v + 1;
        proof {
            assert forall|m: int, k: int|
                0 <= m < n + 1 && 0 <= k < 6 implies #[trigger] data@[6 * m + k]
                == sprite_indices(m)[k] by {
                if m < n {
                    assert(6 * m + k < 6 * n);
                } else {
                    assert(m == n);
                }
            }
        }
        n = n + 1;
    }
    assert forall|i: int| 0 <= i < MAX_INDICES implies 0 <= #[trigger] data@[i] < MAX_VERTICES by {
        let m = i / 6;
        let k = i % 6;
        assert(i == 6 * m + k);
        assert(data@[6 * m + k] == sprite_indices(m)[k]);
    }
    assert forall|n: int, k: int|
        0 <= n < MAX_SPRITES && 0 <= k < 6 implies 4 * n <= #[trigger] data@[6 * n + k] < 4 * n + 4
            && data@[6 * n + k] - 4 * n == data@[k] by {
        lemma_sprite_indices_own_vertices(n);
        assert(data@[6 * 0 + k] == sprite_indices(0)[k]);
    }
    data
}

/// How sprites are pushed.
#[derive(Clone, Copy, Debug, PartialEq, Eq, Structural)]
pub struct DrawPolicy {
    pub do_round: bool,
}

/// The texture corner that vertex `i` of a quad samples under the flip bits `effects`
/// (1 flips horizontally, 2 vertically). Corners are numbered top-left, top-right,
/// bottom-left, bottom-right.
pub fn flipped_corner(i: usize, effects: u8) -> (c: usize)
    requires
        i < 4,
        effects < 4,
    ensures
        c == i ^ (effects as usize),
        c < 4,
{
    let c = i ^ (effects as usize);
    assert(c < 4) by (bit_vector)
        requires
            i < 4,
            effects < 4,
            c == i ^ (effects as usize);
    c
}

/// Textures of the sprites pushed so far: `texture_info[i]` is the texture of sprite `i`,
/// for `i < n_sprites`.
#[derive(Debug)]
pub struct BatchData {
    pub texture_info: Vec<Texture2D>,
    pub n_sprites: usize,
}

/// A draw call of the batch: `n_sprites` sprites from `sprite_offset`, with `texture`.
#[derive(Clone, Copy, Debug, PartialEq, Eq, Structural)]
pub struct DrawRun {
    pub texture: Texture2D,
    pub sprite_offset: usize,
    pub n_sprites: usize,
}

impl BatchData {
    /// No more sprites than texture slots, nor than one batch holds.
    pub open spec fn wf(&self) -> bool {
        &&& self.n_sprites <= self.texture_info@.len()
        &&& self.n_sprites <= MAX_SPRITES
    }

    /// An empty batch with `TEXTURE_SLOTS` empty texture slots.
    pub fn new() -> (b: BatchData)
        ensures
            b.wf(),
            b.n_sprites == 0,
            b.texture_info@.len() == TEXTURE_SLOTS,
            forall|i: int| 0 <= i < TEXTURE_SLOTS ==> #[trigger] b.texture_info@[i] == Texture2D::empty_spec(),
    {
        let mut t: Vec<Texture2D> = Vec::new();
        let mut i: usize = 0;
        while i < TEXTURE_SLOTS
            invariant
                i <= TEXTURE_SLOTS,
                t@.len() == i,
                forall|j: int| 0 <= j < i ==> #[trigger] t@[j] == Texture2D::empty_spec(),
            decreases TEXTURE_SLOTS - i,
        {
            t.push(Texture2D::empty());
            i = i + 1;
        }
        BatchData { texture_info: t, n_sprites: 0 }
    }

    /// Records that the next sprite uses `texture`.
    pub fn push_texture(&mut self, texture: Texture2D)
        requires
            old(self).wf(),
            old(self).n_sprites < old(self).texture_info@.len(),
            old(self).n_sprites < MAX_SPRITES,
        ensures
            final(self).wf(),
            final(self).n_sprites == old(self).n_sprites + 1,
            final(self).texture_info@ == old(self).texture_info@.update(
                old(self).n_sprites as int,
                texture,
            ),
    {
        let n = self.n_sprites;
        self.texture_info.set(n, texture);
        self.n_sprites = n + 1;
    }
}


/// `[lo, hi)` is a run of sprites of one texture that goes on as far as it can: up to
/// `n`, or up to a sprite of another texture.
pub open spec fn is_texture_run(tex: Seq<Texture2D>, lo: int, hi: int, n: int) -> bool {
    &&& 0 <= lo < hi <= n
    &&& forall|i: int| lo <= i < hi ==> #[trigger] tex[i] == tex[lo]
    &&& hi == n || tex[hi] != tex[lo]
}

/// `spans` cut sprites from the first one on, in order, into whole runs of one texture
/// each, none past sprite `n`.
pub open spec fn spans_cut_runs(tex: Seq<Texture2D>, n: int, spans: Seq<BatchSpan>) -> bool {
    &&& forall|k: int|
        0 <= k < spans.len() ==> is_texture_run(
            tex,
            #[trigger] spans[k].offset as int,
            spans[k].offset + spans[k].len,
            n,
        )
    &&& forall|k: int|
        0 <= k < spans.len() ==> #[trigger] spans[k].offset == (if k == 0 {
            0
        } else {
            spans[k - 1].offset + spans[k - 1].len
        })
}

/// The sprite that follows the last of `spans` (zero when there are none).
pub open spec fn spans_end(spans: Seq<BatchSpan>) -> int {
    if spans.len() == 0 {
        0
    } else {
        spans.last().offset + spans.last().len
    }
}

/// One call of [`BatchSpanIter::next`] on sprites `[0, n)` of textures `tex`, from sprite
/// `cur` on: the result `r`, and `cur2`, where the next call starts. Past the last sprite it
/// gives `None` and stays; otherwise the whole run of one texture from `cur`.
pub open spec fn span_step(tex: Seq<Texture2D>, n: int, cur: int, r: Option<BatchSpan>, cur2: int) -> bool {
    &&& (cur >= n <==> r is None)
    &&& (r is None ==> cur2 == cur)
    &&& (r matches Some(span) ==> {
        &&& span.offset == cur
        &&& is_texture_run(tex, span.offset as int, span.offset + span.len, n)
        &&& cur2 == span.offset + span.len
    })
}

/// Slices a [`BatchData`] into [`BatchSpan`]s, each of which is one draw call: a run of
/// sprites with the same texture. Clear `n_sprites` after making the draw calls.
#[derive(Debug)]
pub struct BatchSpanIter {
    current: usize,
}

/// Span of a [`BatchData`] for one draw call: `len` sprites from `offset`.
#[derive(Clone, Copy, Debug, PartialEq, Eq, Structural)]
pub struct BatchSpan {
    pub offset: usize,
    pub len: usize,
}

impl View for BatchSpanIter {
    type V = nat;

    /// The first sprite not yet handed out in a span.
    closed spec fn view(&self) -> nat {
        self.current as nat
    }
}

impl BatchSpanIter {
    /// Starts from the first sprite.
    pub fn new() -> (it: BatchSpanIter)
        ensures
            it@ == 0,
    {
        BatchSpanIter { current: 0 }
    }

    /// The next run of sprites of one texture, or `None` when all the sprites are handed out.
    pub fn next(&mut self, batch: &BatchData) -> (r: Option<BatchSpan>)
        requires
            batch.wf(),
        ensures
            span_step(batch.texture_info@, batch.n_sprites as int, old(self)@ as int, r, final(self)@ as int),
    {
        let n = batch.n_sprites;
        if self.current >= n {
            return None;
        }
        let lo = self.current;
        let mut hi = lo + 1;
        while hi < n
            invariant
                batch.wf(),
                n == batch.n_sprites,
                lo < hi <= n,
                forall|i: int| lo <= i < hi ==> #[trigger] batch.texture_info@[i]
                    == batch.texture_info@[lo as int],
            ensures
                lo < hi <= n,
                forall|i: int| lo <= i < hi ==> #[trigger] batch.texture_info@[i]
                    == batch.texture_info@[lo as int],
                hi == n || batch.texture_info@[hi as int] != batch.texture_info@[lo as int],
            decreases n - hi,
        {
            if batch.texture_info[hi] != batch.texture_info[lo] {
                break;
            }
            hi = hi + 1;
        }
        self.current = hi;
        Some(BatchSpan { offset: lo, len: hi - lo })
    }
}

/// Every one of the first `k` calls gave a span.
pub open spec fn all_some(rs: Seq<Option<BatchSpan>>, k: int) -> bool {
    forall|j: int| 0 <= j < k ==> (#[trigger] rs[j]) is Some
}

/// The spans that the first `k` calls gave, in order.
pub open spec fn spans_of(rs: Seq<Option<BatchSpan>>, k: int) -> Seq<BatchSpan> {
    Seq::new(k as nat, |j: int| rs[j]->0)
}

proof fn lemma_span_prefix(tex: Seq<Texture2D>, n: int, rs: Seq<Option<BatchSpan>>, cs: Seq<int>, k: int)
    requires
        0 <= n <= tex.len(),
        cs.len() == rs.len() + 1,
        cs[0] == 0,
        forall|i: int| 0 <= i < rs.len() ==> span_step(tex, n, #[trigger] cs[i], rs[i], cs[i + 1]),
        0 <= k < cs.len(),
    ensures
        0 <= cs[k] <= n,
        all_some(rs, k) ==> {
            &&& spans_cut_runs(tex, n, spans_of(rs, k))
            &&& spans_end(spans_of(rs, k)) == cs[k]
            &&& k <= cs[k]
        },
    decreases k,
{
    if k > 0 {
        lemma_span_prefix(tex, n, rs, cs, k - 1);
        assert(span_step(tex, n, cs[k - 1], rs[k - 1], cs[k]));
        if all_some(rs, k) {
            assert(all_some(rs, k - 1));
            let prev = spans_of(rs, k - 1);
            let cur = spans_of(rs, k);
            assert(rs[k - 1] is Some);
            assert(cur == prev.push(rs[k - 1]->0));
            assert forall|i: int| 0 <= i < cur.len() implies is_texture_run(
                tex,
                #[trigger] cur[i].offset as int,
                cur[i].offset + cur[i].len,
                n,
            ) by {
                if i < k - 1 {
                    assert(cur[i] == prev[i]);
                }
            }
            assert forall|i: int| 0 <= i < cur.len() implies #[trigger] cur[i].offset == (if i == 0 {
                0
            } else {
                cur[i - 1].offset + cur[i - 1].len
            }) by {
                if i < k - 1 {
                    assert(cur[i] == prev[i]);
                    if i > 0 {
                        assert(cur[i - 1] == prev[i - 1]);
                    }
                } else if i > 0 {
                    assert(cur[i - 1] == prev[i - 1]);
                    assert(prev.last() == prev[i - 1]);
                }
            }
        }
    }
}

proof fn lemma_span_done_stays(tex: Seq<Texture2D>, n: int, rs: Seq<Option<BatchSpan>>, cs: Seq<int>, k: int, j: int)
    requires
        0 <= n <= tex.len(),
        cs.len() == rs.len() + 1,
        cs[0] == 0,
        forall|i: int| 0 <= i < rs.len() ==> span_step(tex, n, #[trigger] cs[i], rs[i], cs[i + 1]),
        0 <= k <= j < rs.len(),
        rs[k] is None,
    ensures
        rs[j] is None,
        cs[j] == n,
    decreases j - k,
{
    lemma_span_prefix(tex, n, rs, cs, j);
    if j > k {
        lemma_span_done_stays(tex, n, rs, cs, k, j - 1);
        assert(span_step(tex, n, cs[j - 1], rs[j - 1], cs[j]));
    } else {
        assert(span_step(tex, n, cs[j], rs[j], cs[j + 1]));
    }
    assert(span_step(tex, n, cs[j], rs[j], cs[j + 1]));
}

/// Calls of [`BatchSpanIter::next`] one after another on an unchanged batch of `n` sprites,
/// from a new iterator (`rs[k]` is what call `k` gave, `cs[k]` where the iterator stood
/// before it): while every call so far gave a span, those spans cut the sprites from the
/// first one into whole runs of one texture, in order, and the iterator stands at the end
/// of the last; a call gives `None` exactly when all the sprites are handed out, so with no
/// sprite the first call gives `None`, and no more than `n` calls give a span; once a call
/// gives `None`, every later one does too.
pub proof fn lemma_span_iteration(tex: Seq<Texture2D>, n: int, rs: Seq<Option<BatchSpan>>, cs: Seq<int>)
    requires
        0 <= n <= tex.len(),
        cs.len() == rs.len() + 1,
        cs[0] == 0,
        forall|k: int| 0 <= k < rs.len() ==> span_step(tex, n, #[trigger] cs[k], rs[k], cs[k + 1]),
    ensures
        forall|k: int| 0 <= k < rs.len() ==> (#[trigger] rs[k] is None <==> cs[k] == n),
        forall|k: int|
            0 <= k < cs.len() && #[trigger] all_some(rs, k) ==> {
                &&& spans_cut_runs(tex, n, spans_of(rs, k))
                &&& spans_end(spans_of(rs, k)) == cs[k]
            },
        forall|k: int| 0 <= k < rs.len() && #[trigger] all_some(rs, k + 1) ==> k < n,
        forall|k: int, j: int| 0 <= k <= j < rs.len() && #[trigger] rs[k] is None ==> #[trigger] rs[j] is None,
{
    assert forall|k: int| 0 <= k < rs.len() implies (#[trigger] rs[k] is None <==> cs[k] == n) by {
        lemma_span_prefix(tex, n, rs, cs, k);
        assert(span_step(tex, n, cs[k], rs[k], cs[k + 1]));
    }
    assert forall|k: int|
        0 <= k < cs.len() && #[trigger] all_some(rs, k) implies {
            &&& spans_cut_runs(tex, n, spans_of(rs, k))
            &&& spans_end(spans_of(rs, k)) == cs[k]
        } by {
        lemma_span_prefix(tex, n, rs, cs, k);
    }
    assert forall|k: int| 0 <= k < rs.len() && #[trigger] all_some(rs, k + 1) implies k < n by {
        assert(all_some(rs, k));
        lemma_span_prefix(tex, n, rs, cs, k);
        assert(rs[k] is Some);
        assert(span_step(tex, n, cs[k], rs[k], cs[k + 1]));
    }
    assert forall|k: int, j: int| 0 <= k <= j < rs.len() && #[trigger] rs[k] is None implies #[trigger] rs[j] is None by {
        lemma_span_done_stays(tex, n, rs, cs, k, j);
    }
}

/// A draw call of sprites `[offset, offset + n_sprites)`: a whole run of one texture,
/// drawn with that texture.
pub open spec fn is_drawn_run(tex: Seq<Texture2D>, call: DrawRun, n: int) -> bool {
    &&& is_texture_run(tex, call.sprite_offset as int, call.sprite_offset + call.n_sprites, n)
    &&& call.texture == tex[call.sprite_offset as int]
}

/// Each draw call starts where the one before it ends, the first at sprite 0.
pub open spec fn calls_contiguous(calls: Seq<DrawRun>) -> bool {
    forall|k: int|
        0 <= k < calls.len() ==> #[trigger] calls[k].sprite_offset == (if k == 0 {
            0
        } else {
            calls[k - 1].sprite_offset + calls[k - 1].n_sprites
        })
}

impl BatchData {
    /// The draw calls for the pushed sprites, and empties the batch: one call for each whole
    /// run of sprites of one texture, in order, drawn with that texture. An empty batch
    /// still makes one call, of no sprite, with the texture of the first slot.
    pub fn flush(&mut self) -> (calls: Vec<DrawRun>)
        requires
            old(self).wf(),
            old(self).texture_info@.len() > 0,
        ensures
            final(self).n_sprites == 0,
            final(self).texture_info@ == old(self).texture_info@,
            calls@.len() >= 1,
            calls_contiguous(calls@),
            ({
                let tex = old(self).texture_info@;
                let n = old(self).n_sprites as int;
                let last = calls@.last();
                &&& last.sprite_offset + last.n_sprites == n
                &&& (n > 0 ==> forall|k: int|
                    0 <= k < calls@.len() ==> is_drawn_run(tex, #[trigger] calls@[k], n))
                &&& (n == 0 ==> calls@.len() == 1 && last.n_sprites == 0 && last.texture == tex[0])
            }),
    {
        let n = self.n_sprites;
        let mut calls: Vec<DrawRun> = Vec::new();
        if n == 0 {
            calls.push(DrawRun { texture: self.texture_info[0], sprite_offset: 0, n_sprites: 0 });
            return calls;
        }
        let mut current: usize = 0;
        let mut i: usize = 1;
        let ghost tex = self.texture_info@;
        while i < n
            invariant
                self.wf(),
                self.texture_info@ == tex,
                n == self.n_sprites,
                current < i <= n,
                forall|j: int| current <= j < i ==> #[trigger] tex[j] == tex[current as int],
                calls@.len() > 0 ==> calls@.last().sprite_offset + calls@.last().n_sprites
                    == current,
                calls@.len() == 0 ==> current == 0,
                forall|k: int|
                    0 <= k < calls@.len() ==> is_drawn_run(tex, #[trigger] calls@[k], n as int),
                calls_contiguous(calls@),
            decreases n - i,
        {
            if self.texture_info[i] != self.texture_info[current] {
                calls.push(
                    DrawRun {
                        texture: self.texture_info[current],
                        sprite_offset: current,
                        n_sprites: i - current,
                    },
                );
                current = i;
            }
            i = i + 1;
        }
        calls.push(
            DrawRun {
                texture: self.texture_info[current],
                sprite_offset: current,
                n_sprites: n - current,
            },
        );
        self.n_sprites = 0;
        calls
    }
}

/// What a flush of the [`Batcher`] comes to.
#[derive(Debug)]
pub enum FlushOutcome {
    /// The pass was not begun: nothing is drawn (a warning is due)
    NotBegun,
    /// Nothing was pushed: nothing is drawn
    Empty,
    /// One draw call for each span, in order
    Draw(Vec<BatchSpan>),
}

/// The batching state of the sprite renderer: the pushed sprites, and whether a pass is
/// begun. Its view is `(begun, textures, number of sprites)`.
#[derive(Debug)]
pub struct Batcher {
    batch: BatchData,
    is_begin_called: bool,
}

impl View for Batcher {
    type V = (bool, Seq<Texture2D>, nat);

    closed spec fn view(&self) -> (bool, Seq<Texture2D>, nat) {
        (self.is_begin_called, self.batch.texture_info@, self.batch.n_sprites as nat)
    }
}

impl Batcher {
    /// The batch holds no more sprites than texture slots, nor than `MAX_SPRITES`.
    pub open spec fn wf(&self) -> bool {
        &&& self@.2 <= self@.1.len()
        &&& self@.2 <= MAX_SPRITES
    }

    /// No pass begun, and an empty batch with `TEXTURE_SLOTS` empty slots.
    pub fn new() -> (b: Batcher)
        ensures
            b.wf(),
            !b@.0,
            b@.2 == 0,
            b@.1.len() == TEXTURE_SLOTS,
    {
        Batcher { batch: BatchData::new(), is_begin_called: false }
    }

    pub fn is_begin_called(&self) -> (b: bool)
        ensures
            b == self@.0,
    {
        self.is_begin_called
    }

    /// Begins a pass.
    pub fn begin(&mut self)
        ensures
            final(self)@ == (true, old(self)@.1, old(self)@.2),
    {
        self.is_begin_called = true;
    }

    /// The pushed sprites.
    pub fn batch(&self) -> (b: &BatchData)
        ensures
            b.texture_info@ == self@.1,
            b.n_sprites == self@.2,
    {
        &self.batch
    }

    /// The number of sprites pushed since the last flush.
    pub fn n_sprites(&self) -> (n: usize)
        ensures
            n == self@.2,
    {
        self.batch.n_sprites
    }

    /// The number of sprites the batch can hold.
    pub fn capacity(&self) -> (n: usize)
        ensures
            n == self@.1.len(),
    {
        self.batch.texture_info.len()
    }

    /// The texture of slot `i`.
    pub fn texture(&self, i: usize) -> (t: Texture2D)
        requires
            i < self@.1.len(),
        ensures
            t == self@.1[i as int],
    {
        self.batch.texture_info[i]
    }

    /// Records that the next sprite uses `texture`.
    pub fn push_texture(&mut self, texture: Texture2D)
        requires
            old(self).wf(),
            old(self)@.2 < old(self)@.1.len(),
            old(self)@.2 < MAX_SPRITES,
        ensures
            final(self).wf(),
            final(self)@ == (
                old(self)@.0,
                old(self)@.1.update(old(self)@.2 as int, texture),
                old(self)@.2 + 1,
            ),
    {
        self.batch.push_texture(texture);
    }

    /// Ends the pass: flushes the batch (a warning is due where no pass was begun).
    pub fn end(&mut self) -> (r: FlushOutcome)
        requires
            old(self).wf(),
        ensures
            final(self).wf(),
            Self::flushed(old(self)@, final(self)@, r),
    {
        self.flush()
    }

    /// What a flush does: nothing without a begun pass or without sprites; otherwise one
    /// span for each run of one texture, covering the sprites in order, and the batch is
    /// emptied. The pass stays begun.
    pub open spec fn flushed(
        before: (bool, Seq<Texture2D>, nat),
        after: (bool, Seq<Texture2D>, nat),
        r: FlushOutcome,
    ) -> bool {
        if !before.0 {
            r is NotBegun && after == before
        } else if before.2 == 0 {
            r is Empty && after == before
        } else {
            &&& after == (before.0, before.1, 0nat)
            &&& r matches FlushOutcome::Draw(spans) && {
                &&& spans@.len() > 0
                &&& spans_cut_runs(before.1, before.2 as int, spans@)
                &&& spans_end(spans@) == before.2
            }
        }
    }

    /// Draws all the pushed sprites: the spans to make draw calls for.
    pub fn flush(&mut self) -> (r: FlushOutcome)
        requires
            old(self).wf(),
        ensures
            final(self).wf(),
            Self::flushed(old(self)@, final(self)@, r),
    {
        if !self.is_begin_called {
            return FlushOutcome::NotBegun;
        }
        if self.batch.n_sprites == 0 {
            return FlushOutcome::Empty;
        }
        let mut spans: Vec<BatchSpan> = Vec::new();
        let mut iter = BatchSpanIter::new();
        let ghost tex = self.batch.texture_info@;
        let n = self.batch.n_sprites;
        loop
            invariant
                self.batch.wf(),
                self.batch.texture_info@ == tex,
                self.batch.n_sprites == n,
                n > 0,
                iter@ <= n,
                iter@ == spans_end(spans@),
                spans_cut_runs(tex, n as int, spans@),
            ensures
                iter@ == n,
                spans_end(spans@) == n,
                spans_cut_runs(tex, n as int, spans@),
            decreases n - iter@,
        {
            match iter.next(&self.batch) {
                Some(span) => {
                    spans.push(span);
                },
                None => {
                    break;
                },
            }
        }
        self.batch.n_sprites = 0;
        FlushOutcome::Draw(spans)
    }
}

} // verus!

use anf::batch::{
    flipped_corner, gen_index_array, BatchData, BatchSpan, BatchSpanIter, Batcher, DrawPolicy,
    DrawRun, FlushOutcome, MAX_INDICES, MAX_SPRITES, TEXTURE_SLOTS,
};
use anf::batcher;
use anf::texture::{SurfaceFormat, Texture2D};

fn tex(raw: usize) -> Texture2D {
    Texture2D { raw, w: 8, h: 8, fmt: SurfaceFormat::Color }
}

fn batch_of(raws: &[usize]) -> BatchData {
    let mut b = BatchData::new();
    for &r in raws {
        b.push_texture(tex(r));
    }
    b
}

#[test]
fn index_array_has_two_triangles_per_sprite() {
    let data = gen_index_array();
    assert_eq!(data.len(), MAX_INDICES);
    assert_eq!(&data[0..6], &[0, 1, 2, 3, 2, 1]);
    assert_eq!(&data[6..12], &[4, 5, 6, 7, 6, 5]);
    let last = (MAX_SPRITES - 1) * 6;
    assert_eq!(&data[last..last + 6], &[8188, 8189, 8190, 8191, 8190, 8189]);
}

#[test]
fn flipped_corners() {
    assert_eq!((0..4).map(|i| flipped_corner(i, 0)).collect::<Vec<_>>(), vec![0, 1, 2, 3]);
    assert_eq!((0..4).map(|i| flipped_corner(i, 1)).collect::<Vec<_>>(), vec![1, 0, 3, 2]);
    assert_eq!((0..4).map(|i| flipped_corner(i, 2)).collect::<Vec<_>>(), vec![2, 3, 0, 1]);
    assert_eq!((0..4).map(|i| flipped_corner(i, 3)).collect::<Vec<_>>(), vec![3, 2, 1, 0]);
}

#[test]
fn new_batch_data_is_empty() {
    let b = BatchData::new();
    assert_eq!(b.n_sprites, 0);
    assert_eq!(b.texture_info.len(), TEXTURE_SLOTS);
    assert!(b.texture_info.iter().all(|t| *t == Texture2D::empty()));
    let _ = DrawPolicy { do_round: true };
}

#[test]
fn span_iter_cuts_runs_of_one_texture() {
    let b = batch_of(&[1, 1, 2, 1, 1, 1]);
    let mut it = BatchSpanIter::new();
    let mut spans = Vec::new();
    while let Some(span) = it.next(&b) {
        spans.push(span);
    }
    assert_eq!(
        spans,
        vec![
            BatchSpan { offset: 0, len: 2 },
            BatchSpan { offset: 2, len: 1 },
            BatchSpan { offset: 3, len: 3 },
        ]
    );
    assert!(it.next(&b).is_none());
}

#[test]
fn span_iter_on_empty_batch() {
    let b = BatchData::new();
    let mut it = BatchSpanIter::new();
    assert!(it.next(&b).is_none());
}

#[test]
fn batch_data_flush_draws_runs() {
    let mut b = batch_of(&[1, 1, 2, 3, 3]);
    let calls = b.flush();
    assert_eq!(
        calls,
        vec![
            DrawRun { texture: tex(1), sprite_offset: 0, n_sprites: 2 },
            DrawRun { texture: tex(2), sprite_offset: 2, n_sprites: 1 },
            DrawRun { texture: tex(3), sprite_offset: 3, n_sprites: 2 },
        ]
    );
    assert_eq!(b.n_sprites, 0);
}

#[test]
fn batch_data_flush_of_empty_batch_draws_nothing_once() {
    let mut b = BatchData::new();
    let calls = b.flush();
    assert_eq!(calls, vec![DrawRun { texture: Texture2D::empty(), sprite_offset: 0, n_sprites: 0 }]);
}

#[test]
fn batcher_flush_needs_begin() {
    let mut batcher = Batcher::new();
    batcher.push_texture(tex(5));
    assert!(matches!(batcher.end(), FlushOutcome::NotBegun));
    assert!(matches!(batcher.flush(), FlushOutcome::NotBegun));
    assert_eq!(batcher.n_sprites(), 1);
    assert_eq!(batcher.texture(0), tex(5));
    assert_eq!(batcher.batch().n_sprites, 1);
    batcher.begin();
    assert!(batcher.is_begin_called());
    match batcher.end() {
        FlushOutcome::Draw(spans) => assert_eq!(spans, vec![BatchSpan { offset: 0, len: 1 }]),
        _ => panic!("expected draw calls"),
    }
    assert_eq!(batcher.n_sprites(), 0);
    assert_eq!(batcher.capacity(), TEXTURE_SLOTS);
    // the pass stays begun; with nothing pushed, nothing is drawn
    assert!(batcher.is_begin_called());
    assert!(matches!(batcher.flush(), FlushOutcome::Empty));
}

#[test]
fn batcher_flush_spans_cover_the_batch() {
    let mut batcher = Batcher::new();
    batcher.begin();
    for r in [4, 4, 4, 9, 4] {
        batcher.push_texture(tex(r));
    }
    match batcher.flush() {
        FlushOutcome::Draw(spans) => assert_eq!(
            spans,
            vec![
                BatchSpan { offset: 0, len: 3 },
                BatchSpan { offset: 3, len: 1 },
                BatchSpan { offset: 4, len: 1 },
            ]
        ),
        _ => panic!("expected draw calls"),
    }
}

#[test]
fn quad_batch_data_new() {
    let b = batcher::BatchData::new();
    assert_eq!(b.n_quads, 0);
    assert_eq!(b.texture_track.len(), batcher::MAX_QUADS);
}

#[test]
fn quad_span_len() {
    assert_eq!(batcher::BatchSpan { lo: 3, hi: 7 }.len(), 4);
    assert_eq!(batcher::BatchSpan { lo: 2, hi: 2 }.len(), 0);
}

#[test]
fn quad_span_iter_returns_slots() {
    let mut b = batcher::BatchData::new();
    for (i, r) in [7, 8, 8, 7].iter().enumerate() {
        b.texture_track[i] = tex(*r);
    }
    b.n_quads = 4;
    let mut it = batcher::BatchSpanIter::new();
    let mut got = Vec::new();
    while let Some((slot, span)) = it.next(&b) {
        got.push((slot, span.lo, span.hi));
    }
    assert_eq!(got, vec![(0, 0, 1), (1, 1, 3), (3, 3, 4)]);
    // once done, it stays done
    assert!(it.next(&b).is_none());
    assert!(it.next(&b).is_none());
}

#[test]
fn quad_span_iter_on_empty_batch() {
    let b = batcher::BatchData::new();
    let mut it = batcher::BatchSpanIter::new();
    assert!(it.next(&b).is_none());
}

#[test]
fn quad_batcher_draw_calls() {
    let mut q = batcher::Batcher::new();
    assert!(matches!(q.end(), batcher::FlushOutcome::NotBegun));
    q.begin();
    for r in [1, 1, 2] {
        q.push_texture(tex(r));
    }
    assert_eq!(q.n_quads(), 3);
    assert_eq!(q.texture(2), tex(2));
    assert_eq!(q.capacity(), batcher::MAX_QUADS);
    match q.end() {
        batcher::FlushOutcome::Draw(calls) => assert_eq!(
            calls,
            vec![
                batcher::DrawCall { slot: 0, base_vertex: 0, start_index: 0, n_primitives: 4 },
                batcher::DrawCall { slot: 2, base_vertex: 8, start_index: 0, n_primitives: 2 },
            ]
        ),
        _ => panic!("expected draw calls"),
    }
    assert_eq!(q.n_quads(), 0);
    assert_eq!(q.batch().n_quads, 0);
    // the flush ended the pass
    assert!(!q.is_begin_called());
    assert!(matches!(q.flush(), batcher::FlushOutcome::NotBegun));
    q.begin();
    assert!(matches!(q.flush(), batcher::FlushOutcome::Empty));
    assert!(!q.is_begin_called());
}

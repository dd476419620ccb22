use anf::clear::{clear_targets, ClearTargets};
use anf::adapter::{DepthFormat, DisplayMode, DisplayModeCollection, GraphicsAdapter, GraphicsProfile};
use anf::config::{AnfConfig, AppConfig, WindowConfig};
use anf::event::{handle_event, InputEvent, Key, UpdateResult};
use anf::font::{font_texture_data, FontBookState};
use anf::texture::{get_init_format, SurfaceFormat, Texture2D, TextureKind};
use anf::time::Duration;
use anf::utils::FpsCounter;
use anf::vertices::{index_buffer_size, index_stride, vertex_buffer_size, IndexElementSize};

#[test]
fn configs_default_to_a_720p_window() {
    let a = AppConfig::default();
    assert_eq!((a.title.as_str(), a.w, a.h), ("† ANF game †", 1280, 720));
    let b = AnfConfig::default();
    assert_eq!((b.title.as_str(), b.w, b.h), ("† ANF game †", 1280, 720));
    let c = WindowConfig::default();
    assert_eq!((c.title.as_str(), c.w, c.h), ("† ANF game †", 1280, 720));
    assert!(c.is_debug && !c.rm_decoration && c.allow_high_dpi && !c.is_resizable);
}

#[test]
fn fps_counter_reports_once_a_second() {
    let mut fps = FpsCounter::default();
    let frame = Duration::from_millis(250);
    assert_eq!(fps.update(frame), None);
    assert_eq!(fps.update(frame), None);
    assert_eq!(fps.update(frame), None);
    // the fourth frame reaches a second: three frames counted before it
    assert_eq!(fps.update(frame), Some(3));
    assert_eq!(fps, FpsCounter::default());
    assert_eq!(fps.update(Duration::from_secs(2)), Some(0));
}

#[test]
fn fps_counter_repeats_with_frames_of_one_length() {
    // 300 ms frames: four make a second, so every fourth frame reports three
    let mut fps = FpsCounter::default();
    let frame = Duration::from_millis(300);
    for _ in 0..3 {
        assert_eq!(fps.update(frame), None);
        assert_eq!(fps.update(frame), None);
        assert_eq!(fps.update(frame), None);
        assert_eq!(fps.update(frame), Some(3));
        assert_eq!(fps, FpsCounter::default());
    }
}

#[test]
fn fps_counter_with_frames_of_mixed_lengths() {
    let mut fps = FpsCounter::default();
    let ms = Duration::from_millis;
    let mut reports = Vec::new();
    let mut calls_to_last_report = 0;
    for (i, d) in [400, 700, 100, 100, 100, 900, 50, 999, 1].iter().enumerate() {
        if let Some(k) = fps.update(ms(*d)) {
            reports.push(k);
            calls_to_last_report = i + 1;
        }
    }
    // 400 + 700 reaches a second at the second frame: one frame before it
    // 100 * 3 + 900 at the sixth: three before it; 50 + 999 at the eighth: one before it
    assert_eq!(reports, vec![1, 3, 1]);
    assert_eq!(reports.iter().map(|k| k + 1).sum::<usize>(), calls_to_last_report);
}

#[test]
fn durations() {
    let d = Duration::new(1, 1_500_000_000);
    assert_eq!(d.as_nanos(), 2_500_000_000);
    assert_eq!(d.as_secs(), 2);
    assert_eq!(d.subsec_nanos(), 500_000_000);
    assert_eq!(Duration::from_nanos(7).as_nanos(), 7);
    assert_eq!(Duration::zero().as_nanos(), 0);
    let max = Duration::new(u64::MAX, 999_999_999);
    assert!(max.checked_add(Duration::from_nanos(1)).is_none());
    assert_eq!(max.checked_add(Duration::zero()), Some(max));
    assert!(Duration::zero().checked_sub(Duration::from_nanos(1)).is_none());
    assert_eq!(d.checked_sub(Duration::from_secs(2)).unwrap().as_nanos(), 500_000_000);
    assert_eq!(Duration::from_millis(3).checked_mul(4).unwrap().as_nanos(), 12_000_000);
    assert!(max.checked_mul(2).is_none());
}

#[test]
fn escape_and_quit_stop_the_loop() {
    assert_eq!(handle_event(&InputEvent::Quit), UpdateResult::Quit);
    assert_eq!(handle_event(&InputEvent::KeyDown(Some(Key::Escape))), UpdateResult::Quit);
    assert_eq!(handle_event(&InputEvent::KeyDown(Some(Key::Other))), UpdateResult::Continue);
    assert_eq!(handle_event(&InputEvent::KeyDown(None)), UpdateResult::Continue);
    assert_eq!(handle_event(&InputEvent::Other), UpdateResult::Continue);
}

#[test]
fn font_pixels_become_white_with_alpha() {
    let data = font_texture_data(&[0, 128, 255, 7, 9], 2, 2);
    assert_eq!(data, vec![255, 255, 255, 0, 255, 255, 255, 128, 255, 255, 255, 255, 255, 255, 255, 7]);
}

#[test]
fn texture_formats() {
    assert_eq!(get_init_format(SurfaceFormat::Rg32, TextureKind::RenderTarget), SurfaceFormat::Rg32);
    assert_eq!(get_init_format(SurfaceFormat::Dxt1, TextureKind::RenderTarget), SurfaceFormat::Color);
    assert_eq!(get_init_format(SurfaceFormat::Rg32, TextureKind::Texture), SurfaceFormat::Color);
    assert_eq!(
        Texture2D::creation_format(SurfaceFormat::Vector4, TextureKind::RenderTarget),
        (SurfaceFormat::Color, true)
    );
    let t = Texture2D::empty();
    assert_eq!((t.raw(), t.w, t.h, t.fmt), (0, 0, 0, SurfaceFormat::Color));
}

#[test]
fn texture_data_rect() {
    let t = Texture2D { raw: 1, w: 64, h: 16, fmt: SurfaceFormat::Color };
    assert_eq!(t.data_rect(0, None), (0, 0, 64, 16));
    assert_eq!(t.data_rect(2, None), (0, 0, 16, 4));
    assert_eq!(t.data_rect(5, None), (0, 0, 2, 1));
    assert_eq!(t.data_rect(9, None), (0, 0, 1, 1));
    assert_eq!(t.data_rect(3, Some([1, 2, 3, 4])), (1, 2, 3, 4));
    assert_eq!(t.data_rect(40, Some([1, 2, 3, 4])), (1, 2, 3, 4));
}

#[test]
fn buffer_sizes() {
    assert_eq!(index_stride(IndexElementSize::Bits16), 2);
    assert_eq!(index_stride(IndexElementSize::Bits32), 4);
    assert_eq!(index_buffer_size(IndexElementSize::Bits16, 12288), Some(24576));
    assert_eq!(index_buffer_size(IndexElementSize::Bits32, u32::MAX / 2), None);
    assert_eq!(vertex_buffer_size(8192, 24), Some(196608));
    assert_eq!(vertex_buffer_size(1 << 27, 16), None);
    assert_eq!(vertex_buffer_size(u32::MAX, 2), None);
}

#[test]
fn display_modes_by_format() {
    let modes = DisplayModeCollection {
        modes: vec![
            DisplayMode { format: SurfaceFormat::Color, width: 800, height: 600 },
            DisplayMode { format: SurfaceFormat::Bgr565, width: 640, height: 480 },
            DisplayMode { format: SurfaceFormat::Color, width: 1280, height: 720 },
        ],
    };
    let got = modes.fmt2modes(SurfaceFormat::Color);
    assert_eq!(got.iter().map(|m| m.width).collect::<Vec<_>>(), vec![800, 1280]);
    assert!(modes.fmt2modes(SurfaceFormat::Dxt5).is_empty());
    let _adapter = GraphicsAdapter { supported_display_modes: modes };
}

#[test]
fn adapter_queries() {
    assert!(GraphicsAdapter::is_profile_supported(GraphicsProfile::Reach));
    assert!(GraphicsAdapter::is_profile_supported(GraphicsProfile::HiDef));
    assert_eq!(
        GraphicsAdapter::QueryRenderTargetFormat(GraphicsProfile::HiDef, SurfaceFormat::Dxt1, DepthFormat::D24, 0),
        (false, SurfaceFormat::Color, DepthFormat::D24, 0)
    );
    assert_eq!(
        GraphicsAdapter::QueryRenderTargetFormat(GraphicsProfile::HiDef, SurfaceFormat::Rg32, DepthFormat::D16, 0),
        (true, SurfaceFormat::Rg32, DepthFormat::D16, 0)
    );
    assert_eq!(
        GraphicsAdapter::QueryRenderTargetFormat(GraphicsProfile::HiDef, SurfaceFormat::Rgba64, DepthFormat::NoDepth, 0),
        (true, SurfaceFormat::Rgba64, DepthFormat::NoDepth, 0)
    );
    assert_eq!(
        GraphicsAdapter::QueryRenderTargetFormat(GraphicsProfile::Reach, SurfaceFormat::Color, DepthFormat::NoDepth, 4),
        (false, SurfaceFormat::Color, DepthFormat::NoDepth, 0)
    );
    assert_eq!(
        GraphicsAdapter::query_back_buffer_format(GraphicsProfile::Reach, SurfaceFormat::Color, DepthFormat::D24S8, 0),
        (true, SurfaceFormat::Color, DepthFormat::D24S8, 0)
    );
    assert_eq!(
        GraphicsAdapter::query_back_buffer_format(GraphicsProfile::Reach, SurfaceFormat::Alpha8, DepthFormat::D24S8, 0),
        (false, SurfaceFormat::Color, DepthFormat::D24S8, 0)
    );
}

#[test]
fn clear_targets_follow_the_given_values() {
    assert_eq!(clear_targets(false, false, false), None);
    assert_eq!(
        clear_targets(true, false, true),
        Some(ClearTargets { target: true, depth_buffer: false, stencil: true })
    );
    assert_eq!(
        clear_targets(false, true, false),
        Some(ClearTargets { target: false, depth_buffer: true, stencil: false })
    );
}

#[test]
fn font_book_texture_follows_the_atlas() {
    let mut book = FontBookState::new(512, 256);
    assert_eq!((book.w(), book.h(), book.is_dirty()), (512, 256, true));
    // the pixels are uploaded once
    assert!(book.take_dirty());
    assert!(!book.take_dirty());
    // a change of the atlas asks for another upload
    book.on_update();
    assert!(book.is_dirty());
    assert!(book.take_dirty());
    // a full atlas asks to double; the texture then takes the new size
    assert_eq!(book.expand_size(), (1024, 512));
    book.on_create(1024, 512);
    assert_eq!((book.w(), book.h(), book.is_dirty()), (1024, 512, true));
}

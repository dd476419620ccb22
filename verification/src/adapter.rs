//! Graphics adapters: display modes and the formats a device settles on.

use vstd::prelude::*;
use crate::texture::{is_render_target_format, supports_render_target, SurfaceFormat};

verus! {

/// Format of the depth buffer, with the variants of `fna3d::DepthFormat` (`NoDepth` is its
/// `None`).
#[derive(Clone, Copy, Debug, PartialEq, Eq, Structural)]
pub enum DepthFormat {
    NoDepth,
    D16,
    D24,
    D24S8,
}

/// Defines a set of graphic capabilities.
#[derive(Clone, Copy, Debug, PartialEq, Eq, Structural)]
pub enum GraphicsProfile {
    /// Use a limited set of graphic features and capabilities, allowing the game to support
    /// the widest variety of devices.
    Reach,
    /// Use the largest available set of graphic features and capabilities to target devices
    /// that have more enhanced graphic capabilities.
    HiDef,
}

#[derive(Clone, Copy, Debug, PartialEq, Eq, Structural)]
pub struct DisplayMode {
    pub format: SurfaceFormat,
    pub width: u32,
    pub height: u32,
}

pub struct DisplayModeCollection {
    pub modes: Vec<DisplayMode>,
}

impl DisplayModeCollection {
    /// The modes of the given format, in order.
    pub fn fmt2modes(&self, format: SurfaceFormat) -> (res: Vec<DisplayMode>)
        ensures
            res@ == self.modes@.filter(|m: DisplayMode| m.format == format),
    {
        let mut res: Vec<DisplayMode> = Vec::new();
        let mut i: usize = 0;
        while i < self.modes.len()
            invariant
                i <= self.modes@.len(),
                res@ == self.modes@.take(i as int).filter(|m: DisplayMode| m.format == format),
            decreases self.modes@.len() - i,
        {
            let mode = self.modes[i];
            proof {
                reveal_with_fuel(Seq::<_>::filter, 1);
                assert(self.modes@.take(i + 1).drop_last() == self.modes@.take(i as int));
                assert(self.modes@.take(i + 1).last() == mode);
            }
            if mode.format == format {
                res.push(mode);
            }
            i = i + 1;
        }
        proof {
            assert(self.modes@.take(self.modes@.len() as int) == self.modes@);
        }
        res
    }
}

pub struct GraphicsAdapter {
    pub supported_display_modes: DisplayModeCollection,
}

/// A format of the render-target list is kept; any other format turns into `Color`.
pub open spec fn render_target_format_of(format: SurfaceFormat) -> SurfaceFormat {
    if is_render_target_format(format) {
        format
    } else {
        SurfaceFormat::Color
    }
}

impl GraphicsAdapter {
    /// Every profile is supported.
    pub fn is_profile_supported(prof: GraphicsProfile) -> (b: bool)
        ensures
            b,
    {
        true
    }

    /// The format, depth format and multisample count a render target gets for the wanted
    /// ones, and whether they are the wanted ones: the format as
    /// [`render_target_format_of`] says, the depth format as wanted, no multisampling.
    #[allow(non_snake_case)]
    pub fn QueryRenderTargetFormat(
        prof: GraphicsProfile,
        format: SurfaceFormat,
        depthFormat: DepthFormat,
        multiSampleCount: usize,
    ) -> (r: (bool, SurfaceFormat, DepthFormat, usize))
        ensures
            r.1 == render_target_format_of(format),
            r.2 == depthFormat,
            r.3 == 0,
            r.0 == (format == render_target_format_of(format) && multiSampleCount == 0),
    {
        let new_fmt = if supports_render_target(format) {
            format
        } else {
            SurfaceFormat::Color
        };
        let new_depth = depthFormat;
        let new_count: usize = 0;
        let b = format == new_fmt && depthFormat == new_depth && multiSampleCount == new_count;
        (b, new_fmt, new_depth, new_count)
    }

    /// The format, depth format and multisample count the back buffer gets for the wanted
    /// ones, and whether they are the wanted ones: always `Color`, the depth format as
    /// wanted, no multisampling.
    #[allow(non_snake_case)]
    pub fn query_back_buffer_format(
        prof: GraphicsProfile,
        format: SurfaceFormat,
        depthFormat: DepthFormat,
        multiSampleCount: usize,
    ) -> (r: (bool, SurfaceFormat, DepthFormat, usize))
        ensures
            r.1 == SurfaceFormat::Color,
            r.2 == depthFormat,
            r.3 == 0,
            r.0 == (format == SurfaceFormat::Color && multiSampleCount == 0),
    {
        let new_fmt = SurfaceFormat::Color;
        let new_depth = depthFormat;
        let new_count: usize = 0;
        let b = format == new_fmt && depthFormat == new_depth && multiSampleCount == new_count;
        (b, new_fmt, new_depth, new_count)
    }
}

} // verus!

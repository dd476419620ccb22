//! Which buffers a clear command clears.

use vstd::prelude::*;

verus! {

/// The buffers to clear: color (target), depth and stencil.
#[derive(Clone, Copy, Debug, PartialEq, Eq, Structural)]
pub struct ClearTargets {
    pub target: bool,
    pub depth_buffer: bool,
    pub stencil: bool,
}

/// The buffers that a clear command with the given values clears: each buffer whose value
/// is given; `None` where no value is given, and nothing is to be done.
pub fn clear_targets(has_color: bool, has_depth: bool, has_stencil: bool) -> (r: Option<
    ClearTargets,
>)
    ensures
        !has_color && !has_depth && !has_stencil <==> r is None,
        r matches Some(t) ==> t == (ClearTargets {
            target: has_color,
            depth_buffer: has_depth,
            stencil: has_stencil,
        }),
{
    let opts = ClearTargets { target: has_color, depth_buffer: has_depth, stencil: has_stencil };
    if !opts.target && !opts.depth_buffer && !opts.stencil {
        return None;
    }
    Some(opts)
}

} // verus!

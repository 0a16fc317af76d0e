use vstd::prelude::*;
use crate::cable_control::CableControl;
use crate::geom::Pos;

verus! {

/// The three control points of the cable's quadratic bezier curve.
#[derive(Debug, Copy, Clone, PartialEq, Eq, Structural)]
pub struct BezierPoints {
    pub from: Pos,
    pub control: Pos,
    pub to: Pos,
}

/// What the cable's renderer draws from each frame: the visual flags, the
/// reshape handle, and the curve. Built by `Cable::frame_params` and
/// consumed by whichever widget paints the cable.
#[derive(Debug)]
pub struct CableParams {
    /// The cable is active (selected).
    pub active: bool,
    /// The pointer is near the curve, or the handle is being dragged.
    pub line_hovered: bool,
    /// One of the cable's plugs is hovered or dragged this frame; the
    /// reshape handle then stays hidden so it cannot steal the
    /// interaction.
    pub plugs_interacted: bool,
    /// The reshape handle.
    pub cable_control: CableControl,
    /// The curve to paint.
    pub bezier: BezierPoints,
}

} // verus!

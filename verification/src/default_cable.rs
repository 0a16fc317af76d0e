use vstd::prelude::*;
use crate::cable_params::BezierPoints;
use crate::geom::{dist_sq, isqrt, spec_dist_sq, sqrt_floor, Pos};

verus! {

/// The shape a cable paints as.
#[derive(Debug, Copy, Clone, PartialEq, Eq, Structural)]
pub enum CablePath {
    /// A self-loop: drawn as a circle spanned between the endpoint and
    /// the reshape handle.
    Circle { center: Pos, radius: i64 },
    /// An ordinary cable: drawn as the quadratic bezier curve.
    Bezier { from: Pos, control: Pos, to: Pos },
}

/// The shape to paint for a cable with the given curve and handle
/// position: when the two endpoints coincide the bezier would collapse,
/// so a self-loop paints as a circle centered between the endpoint and
/// the handle, with half their distance as radius; every other cable
/// paints as the bezier curve.
pub fn path_shape(bezier: BezierPoints, control_anchor: Pos) -> (r: CablePath)
    requires
        bezier.from.wf(),
        bezier.to.wf(),
        control_anchor.wf(),
    ensures
        bezier.from == bezier.to ==> r == (CablePath::Circle {
            center: bezier.from.spec_midpoint(control_anchor),
            radius: (sqrt_floor(spec_dist_sq(control_anchor, bezier.from)) / 2) as i64,
        }),
        bezier.from != bezier.to ==> r == (CablePath::Bezier {
            from: bezier.from,
            control: bezier.control,
            to: bezier.to,
        }),
{
    if bezier.from == bezier.to {
        let center = bezier.from.midpoint(control_anchor);
        let d = isqrt(dist_sq(control_anchor, bezier.from));
        proof {
            assert(d as int <= 300_000) by (nonlinear_arith)
                requires
                    (d as int) * (d as int) <= 80_000_000_000,
                    0 <= d as int,
            ;
        }
        let radius = (d / 2) as i64;
        CablePath::Circle { center, radius }
    } else {
        CablePath::Bezier { from: bezier.from, control: bezier.control, to: bezier.to }
    }
}

/// Whether the reshape handle is shown: only when the cable counts as
/// line-hovered and neither of its plugs is being interacted with, so the
/// handle cannot steal the interaction from a plug.
pub fn control_shown(line_hovered: bool, plugs_interacted: bool) -> (r: bool)
    ensures
        r == (line_hovered && !plugs_interacted),
{
    line_hovered && !plugs_interacted
}

/// The default look of the cable's reshape handle: a small rounded
/// rectangle. Painting itself is the host toolkit's business.
#[derive(Debug)]
pub struct DefaultControl;

} // verus!

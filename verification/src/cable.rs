use vstd::prelude::*;
use crate::cable_control::CableControl;
use crate::cable_params::{BezierPoints, CableParams};
use crate::geom::{
    clip, div400_floor, dist_sq, isqrt, lemma_mul_bound, lemma_mul_nonneg_bound,
    lemma_square_bound, quarter_floor, spec_dist_sq, sqrt_floor, Pos, Vect,
};
use crate::id::{Id, IdKey};
use crate::kv::StoreItem;
use crate::plug::{Plug, PlugId, PlugType};

verus! {

/// An identity naming a cable.
pub type CableId = Id;

/// How near the pointer must come to the sampled curve for the cable to
/// count as hovered, as a squared distance in pixels.
pub const BEZIER_HOVER_DISTANCE_SQ: i64 = 300;

/// The cross-frame state of a cable: how its curve is bent, whether its
/// reshape handle is being dragged and from where, whether the cable is
/// active (selected), and the directions its curve leaves the plugs in.
#[derive(Debug, Copy, Clone, PartialEq, Eq, Structural)]
pub struct CableState {
    /// Offset of the bezier control point from the midpoint of the two
    /// plug positions.
    pub bezier_control_point_offset: Vect,
    /// Whether the reshape handle is being dragged.
    pub dragged: bool,
    /// Captured on drag start to keep the handle from jumping to the
    /// pointer.
    pub drag_offset: Vect,
    /// Whether the cable is active (selected by a click).
    pub active: bool,
    /// Direction the curve leaves the in-plug in, while that plug is
    /// dragged.
    pub in_vec: Option<Vect>,
    /// Direction the curve leaves the out-plug in, while that plug is
    /// dragged.
    pub out_vec: Option<Vect>,
}

impl View for CableState {
    type V = CableState;

    open spec fn view(&self) -> CableState {
        *self
    }
}

impl StoreItem for CableState {
    fn dup(&self) -> (r: Self) {
        *self
    }
}

impl Default for CableState {
    /// The state of a cable never seen before. The control-point offset
    /// is not zero, so a fresh cable already hangs in a visible bow.
    fn default() -> (r: Self)
        ensures
            (r == CableState {
                bezier_control_point_offset: Vect { x: 20, y: 25 },
                dragged: false,
                drag_offset: Vect { x: 0, y: 0 },
                active: false,
                in_vec: None,
                out_vec: None,
            }),
    {
        CableState {
            bezier_control_point_offset: Vect { x: 20, y: 25 },
            dragged: false,
            drag_offset: Vect { x: 0, y: 0 },
            active: false,
            in_vec: None,
            out_vec: None,
        }
    }
}

/// The length of a segment between two points, rounded down.
pub open spec fn spec_seg_len(a: Pos, b: Pos) -> int {
    sqrt_floor(spec_dist_sq(a, b))
}

/// How many evenly spaced parametric points the proximity test samples on
/// a curve: the rounded-down polyline length of its control points.
pub open spec fn spec_sample_count(p0: Pos, c: Pos, p1: Pos) -> int {
    spec_seg_len(p0, c) + spec_seg_len(c, p1)
}

/// `n * n` times the horizontal distance from the query point to the
/// curve point at parameter `i / n`, where the curve is the quadratic
/// bezier through `p0`, `c`, `p1`.
pub open spec fn sample_err_x(p0: Pos, c: Pos, p1: Pos, q: Pos, n: int, i: int) -> int {
    ((n - i) * (n - i)) * p0.x + (2 * ((n - i) * i)) * c.x + (i * i) * p1.x - (n * n) * q.x
}

/// The vertical counterpart of `sample_err_x`.
pub open spec fn sample_err_y(p0: Pos, c: Pos, p1: Pos, q: Pos, n: int, i: int) -> int {
    ((n - i) * (n - i)) * p0.y + (2 * ((n - i) * i)) * c.y + (i * i) * p1.y - (n * n) * q.y
}

/// Whether the curve point at parameter `i / n` lies strictly within the
/// threshold squared distance of the query point. Both sides are scaled
/// by `n^4`, so the comparison is exact in whole numbers.
pub open spec fn sample_within(p0: Pos, c: Pos, p1: Pos, q: Pos, thr: int, n: int, i: int) -> bool {
    let ex = sample_err_x(p0, c, p1, q, n, i);
    let ey = sample_err_y(p0, c, p1, q, n, i);
    ex * ex + ey * ey < thr * ((n * n) * (n * n))
}

/// The proximity test: the curve counts as close to the query point when
/// any of its sampled points does.
pub open spec fn spec_bezier_close(p0: Pos, c: Pos, p1: Pos, q: Pos, thr: int) -> bool {
    let n = spec_sample_count(p0, c, p1);
    exists|i: int| 0 <= i < n && sample_within(p0, c, p1, q, thr, n, i)
}

/// Whether the quadratic bezier through `p0`, `c`, `p1` comes within the
/// given squared distance of the query point `q`, judged at evenly spaced
/// sample points — one per pixel of polyline length. This approximation
/// trades exactness for a cost linear in the curve's length; it is not a
/// true nearest-point computation.
pub fn bezier_close(p0: Pos, c: Pos, p1: Pos, q: Pos, distance_sq: i64) -> (r: bool)
    requires
        p0.wf(),
        c.wf(),
        p1.wf(),
        q.wf(),
        0 <= distance_sq <= 1_000_000,
    ensures
        r == spec_bezier_close(p0, c, p1, q, distance_sq as int),
{
    let d1 = isqrt(dist_sq(p0, c));
    let d2 = isqrt(dist_sq(c, p1));
    proof {
        assert(d1 as int <= 300_000) by (nonlinear_arith)
            requires
                (d1 as int) * (d1 as int) <= 80_000_000_000,
                0 <= d1 as int,
        ;
        assert(d2 as int <= 300_000) by (nonlinear_arith)
            requires
                (d2 as int) * (d2 as int) <= 80_000_000_000,
                0 <= d2 as int,
        ;
    }
    let n: u64 = d1 + d2;
    proof {
        lemma_mul_nonneg_bound(n as int, 600_000, n as int, 600_000);
    }
    let nn: i128 = (n as i128) * (n as i128);
    proof {
        lemma_mul_nonneg_bound(nn as int, 360_000_000_000, nn as int, 360_000_000_000);
    }
    let n4: i128 = nn * nn;
    proof {
        lemma_mul_nonneg_bound(
            distance_sq as int,
            1_000_000,
            n4 as int,
            129_600_000_000_000_000_000_000,
        );
    }
    let rhs: i128 = (distance_sq as i128) * n4;
    let mut i: u64 = 0;
    while i < n
        invariant
            p0.wf(),
            c.wf(),
            p1.wf(),
            q.wf(),
            0 <= distance_sq <= 1_000_000,
            n as int == spec_sample_count(p0, c, p1),
            n <= 600_000,
            i <= n,
            nn as int == (n as int) * (n as int),
            0 <= nn <= 360_000_000_000,
            rhs as int == (distance_sq as int) * (((n as int) * (n as int)) * ((n as int) * (
            n as int))),
            forall|j: int|
                0 <= j < i ==> !sample_within(p0, c, p1, q, distance_sq as int, n as int, j),
        decreases n - i,
    {
        let a: i128 = (n - i) as i128;
        let b: i128 = i as i128;
        proof {
            lemma_mul_nonneg_bound(a as int, 600_000, a as int, 600_000);
            lemma_mul_nonneg_bound(a as int, 600_000, b as int, 600_000);
            lemma_mul_nonneg_bound(b as int, 600_000, b as int, 600_000);
        }
        let aa: i128 = a * a;
        let ab: i128 = a * b;
        let bb: i128 = b * b;
        proof {
            lemma_mul_bound(aa as int, 360_000_000_000, p0.x as int, 100_000);
            lemma_mul_bound(aa as int, 360_000_000_000, p0.y as int, 100_000);
            lemma_mul_bound(2 * ab as int, 720_000_000_000, c.x as int, 100_000);
            lemma_mul_bound(2 * ab as int, 720_000_000_000, c.y as int, 100_000);
            lemma_mul_bound(bb as int, 360_000_000_000, p1.x as int, 100_000);
            lemma_mul_bound(bb as int, 360_000_000_000, p1.y as int, 100_000);
            lemma_mul_bound(nn as int, 360_000_000_000, q.x as int, 100_000);
            lemma_mul_bound(nn as int, 360_000_000_000, q.y as int, 100_000);
        }
        let ex: i128 = aa * (p0.x as i128) + (2 * ab) * (c.x as i128) + bb * (p1.x as i128) - nn
            * (q.x as i128);
        let ey: i128 = aa * (p0.y as i128) + (2 * ab) * (c.y as i128) + bb * (p1.y as i128) - nn
            * (q.y as i128);
        proof {
            lemma_square_bound(ex as int, 200_000_000_000_000_000);
            lemma_square_bound(ey as int, 200_000_000_000_000_000);
        }
        let lhs: i128 = ex * ex + ey * ey;
        if lhs < rhs {
            proof {
                assert(sample_within(p0, c, p1, q, distance_sq as int, n as int, i as int));
            }
            return true;
        }
        proof {
            assert(!sample_within(p0, c, p1, q, distance_sq as int, n as int, i as int));
        }
        i = i + 1;
    }
    false
}

/// The geometry a cable derives each frame from its two resolved plug
/// positions and its stored control-point offset.
#[derive(Debug, Copy, Clone, PartialEq, Eq, Structural)]
pub struct CableGeometry {
    /// The in-plug position, clipped to the working range.
    pub in_pos: Pos,
    /// The out-plug position, clipped to the working range.
    pub out_pos: Pos,
    /// The midpoint of the two plug positions.
    pub midpoint: Pos,
    /// The bezier control point: the midpoint displaced by the stored
    /// offset.
    pub control_pos: Pos,
    /// The curve point at the middle parameter, where the reshape handle
    /// sits.
    pub control_anchor: Pos,
}

/// The curve point at the middle parameter of the quadratic bezier
/// through `p0`, `c`, `p1` (coordinates rounded down).
pub open spec fn spec_quarter_point(p0: Pos, c: Pos, p1: Pos) -> Pos {
    Pos {
        x: clip((p0.x + 2 * c.x + p1.x) / 4) as i64,
        y: clip((p0.y + 2 * c.y + p1.y) / 4) as i64,
    }
}

/// The curve point at the middle parameter.
pub fn quarter_point(p0: Pos, c: Pos, p1: Pos) -> (r: Pos)
    requires
        p0.wf(),
        c.wf(),
        p1.wf(),
    ensures
        r == spec_quarter_point(p0, c, p1),
        r.wf(),
{
    proof {
        crate::geom::lemma_clip_in_range((p0.x + 2 * c.x + p1.x) as int / 4);
        crate::geom::lemma_clip_in_range((p0.y + 2 * c.y + p1.y) as int / 4);
    }
    Pos {
        x: quarter_floor(p0.x as i128 + 2 * (c.x as i128) + p1.x as i128),
        y: quarter_floor(p0.y as i128 + 2 * (c.y as i128) + p1.y as i128),
    }
}

/// Derives the frame's curve geometry from the two resolved plug
/// positions and the stored control-point offset.
pub fn cable_geometry(in_pos: Pos, out_pos: Pos, offset: Vect) -> (r: CableGeometry)
    ensures
        r.in_pos == in_pos.spec_clipped(),
        r.out_pos == out_pos.spec_clipped(),
        r.midpoint == r.in_pos.spec_midpoint(r.out_pos),
        r.control_pos == r.midpoint.spec_offset_by(offset.spec_clipped()),
        r.control_anchor == spec_quarter_point(r.in_pos, r.control_pos, r.out_pos),
        r.in_pos.wf() && r.out_pos.wf() && r.midpoint.wf() && r.control_pos.wf()
            && r.control_anchor.wf(),
{
    let in_c = in_pos.clipped();
    let out_c = out_pos.clipped();
    let midpoint = in_c.midpoint(out_c);
    let control_pos = midpoint.offset_by(offset.clipped());
    let control_anchor = quarter_point(in_c, control_pos, out_c);
    CableGeometry { in_pos: in_c, out_pos: out_c, midpoint, control_pos, control_anchor }
}

/// The direction the curve leaves the in-plug in: the displacement from
/// the sample just past the start back to the start, scaled to pixels.
pub open spec fn spec_start_direction(p0: Pos, c: Pos, p1: Pos) -> Vect {
    Vect {
        x: clip((39 * p0.x - 38 * c.x - p1.x) / 400) as i64,
        y: clip((39 * p0.y - 38 * c.y - p1.y) / 400) as i64,
    }
}

/// The direction the curve leaves the out-plug in.
pub open spec fn spec_end_direction(p0: Pos, c: Pos, p1: Pos) -> Vect {
    Vect {
        x: clip((39 * p1.x - 38 * c.x - p0.x) / 400) as i64,
        y: clip((39 * p1.y - 38 * c.y - p0.y) / 400) as i64,
    }
}

pub fn start_direction(p0: Pos, c: Pos, p1: Pos) -> (r: Vect)
    requires
        p0.wf(),
        c.wf(),
        p1.wf(),
    ensures
        r == spec_start_direction(p0, c, p1),
{
    Vect {
        x: div400_floor(39 * (p0.x as i128) - 38 * (c.x as i128) - p1.x as i128),
        y: div400_floor(39 * (p0.y as i128) - 38 * (c.y as i128) - p1.y as i128),
    }
}

pub fn end_direction(p0: Pos, c: Pos, p1: Pos) -> (r: Vect)
    requires
        p0.wf(),
        c.wf(),
        p1.wf(),
    ensures
        r == spec_end_direction(p0, c, p1),
{
    Vect {
        x: div400_floor(39 * (p1.x as i128) - 38 * (c.x as i128) - p0.x as i128),
        y: div400_floor(39 * (p1.y as i128) - 38 * (c.y as i128) - p0.y as i128),
    }
}

/// What the frame's input and the rendered cable's response say about the
/// cable this frame.
#[derive(Debug, Copy, Clone, PartialEq, Eq, Structural)]
pub struct CableResponseInput {
    /// A drag of the reshape handle started this frame.
    pub drag_started: bool,
    /// A drag of the reshape handle ended this frame.
    pub drag_released: bool,
    /// The reshape handle is being dragged.
    pub dragged: bool,
    /// The cable (handle or curve) was clicked.
    pub clicked: bool,
    /// A click landed outside the cable's region.
    pub clicked_elsewhere: bool,
    /// Where the pointer is, if anywhere.
    pub pointer: Option<Pos>,
    /// Where the press that started the drag began, if known.
    pub press_origin: Option<Pos>,
    /// The in-plug is being dragged.
    pub in_dragged: bool,
    /// The out-plug is being dragged.
    pub out_dragged: bool,
}

impl CableState {
    /// The cable state after one frame's interaction, in the order the
    /// events are applied: drag capture, drag release, handle drag
    /// deforming the curve, click toggling activity (a click on the cable
    /// activates it, a click elsewhere deactivates it), and the leaving
    /// directions while a plug is dragged.
    pub open spec fn spec_integrated(self, geom: CableGeometry, input: CableResponseInput) -> CableState {
        let st1 = if input.drag_started {
            CableState {
                dragged: true,
                drag_offset: match input.press_origin {
                    Some(origin) => geom.control_anchor.spec_minus(origin),
                    None => Vect { x: 0, y: 0 },
                },
                ..self
            }
        } else {
            self
        };
        let st2 = if input.drag_released {
            CableState { dragged: false, ..st1 }
        } else {
            st1
        };
        let st3 = if input.dragged {
            match input.pointer {
                Some(p) => CableState {
                    bezier_control_point_offset: st2.bezier_control_point_offset.spec_plus(
                        p.spec_offset_by(st2.drag_offset).spec_minus(geom.control_anchor),
                    ),
                    ..st2
                },
                None => st2,
            }
        } else {
            st2
        };
        let st4 = if input.clicked {
            CableState { active: true, ..st3 }
        } else {
            st3
        };
        let st5 = if input.clicked_elsewhere {
            CableState { active: false, ..st4 }
        } else {
            st4
        };
        let st6 = if input.in_dragged {
            CableState {
                in_vec: Some(
                    spec_start_direction(geom.in_pos, geom.control_pos, geom.out_pos),
                ),
                ..st5
            }
        } else {
            st5
        };
        if input.out_dragged {
            CableState {
                out_vec: Some(spec_end_direction(geom.in_pos, geom.control_pos, geom.out_pos)),
                ..st6
            }
        } else {
            st6
        }
    }

    /// Applies one frame's interaction to the cable state.
    pub fn integrate(self, geom: &CableGeometry, input: CableResponseInput) -> (r: CableState)
        requires
            geom.in_pos.wf(),
            geom.out_pos.wf(),
            geom.control_pos.wf(),
            geom.control_anchor.wf(),
        ensures
            r == self.spec_integrated(*geom, input),
    {
        let mut st = self;
        if input.drag_started {
            st.dragged = true;
            st.drag_offset = match input.press_origin {
                Some(origin) => geom.control_anchor.minus(origin),
                None => Vect { x: 0, y: 0 },
            };
        }
        if input.drag_released {
            st.dragged = false;
        }
        if input.dragged {
            if let Some(p) = input.pointer {
                st.bezier_control_point_offset = st.bezier_control_point_offset.plus(
                    p.offset_by(st.drag_offset).minus(geom.control_anchor),
                );
            }
        }
        if input.clicked {
            st.active = true;
        }
        if input.clicked_elsewhere {
            st.active = false;
        }
        if input.in_dragged {
            st.in_vec = Some(start_direction(geom.in_pos, geom.control_pos, geom.out_pos));
        }
        if input.out_dragged {
            st.out_vec = Some(end_direction(geom.in_pos, geom.control_pos, geom.out_pos));
        }
        st
    }
}

/// A cable widget: an identity and the two plugs it owns. Rendered every
/// frame; all surviving state lives in the store under the cable's
/// identity.
#[derive(Debug)]
pub struct Cable {
    pub id: CableId,
    pub in_plug: Plug,
    pub out_plug: Plug,
}

impl Cable {
    /// A cable named by the given key, owning the two plugs.
    pub fn new<T: IdKey>(id: T, in_plug: Plug, out_plug: Plug) -> (r: Cable)
        ensures
            r.id@ == id.key_view(),
            r.in_plug == in_plug,
            r.out_plug == out_plug,
    {
        Cable { id: CableId::new(id), in_plug, out_plug }
    }

    /// Wires the two plugs for rendering: their terminus identities,
    /// default anchors a little inside the available area, the cable's
    /// active flag and the curve's leaving directions.
    pub fn prepare(self, avail_min: Pos, st: &CableState) -> (r: (CableId, Plug, Plug))
        ensures
            r.0@ == self.id@,
            (match r.1.id {
                Some(i) => i@ == (crate::plug::PlugIdView { cable: self.id@, end: PlugType::In }),
                None => false,
            }),
            r.1.plug_to == self.in_plug.plug_to,
            r.1.pos == self.in_plug.pos,
            r.1.default_pos == Some(avail_min.spec_offset_by(Vect { x: 10, y: 0 })),
            r.1.cable_active == st.active,
            r.1.vec == st.in_vec,
            (match r.2.id {
                Some(i) => i@ == (crate::plug::PlugIdView { cable: self.id@, end: PlugType::Out }),
                None => false,
            }),
            r.2.plug_to == self.out_plug.plug_to,
            r.2.pos == self.out_plug.pos,
            r.2.default_pos == Some(avail_min.spec_offset_by(Vect { x: 50, y: 0 })),
            r.2.cable_active == st.active,
            r.2.vec == st.out_vec,
    {
        let in_plug = self.in_plug.id(PlugId::new(self.id.clone(), PlugType::In)).default_pos(
            avail_min.offset_by(Vect { x: 10, y: 0 }),
        ).cable_active(st.active).vec(st.in_vec);
        let out_plug = self.out_plug.id(PlugId::new(self.id.clone(), PlugType::Out)).default_pos(
            avail_min.offset_by(Vect { x: 50, y: 0 }),
        ).cable_active(st.active).vec(st.out_vec);
        (self.id, in_plug, out_plug)
    }

    /// The per-frame parameters the cable's renderer draws from: its
    /// visual flags, the reshape handle, and the curve. The cable counts
    /// as line-hovered when the pointer is near the curve or the handle is
    /// already being dragged.
    pub fn frame_params(
        id: &CableId,
        st: &CableState,
        geom: &CableGeometry,
        pointer: Option<Pos>,
        in_hovered: bool,
        in_dragged: bool,
        out_hovered: bool,
        out_dragged: bool,
    ) -> (r: CableParams)
        requires
            geom.in_pos.wf(),
            geom.out_pos.wf(),
            geom.control_pos.wf(),
        ensures
            r.active == st.active,
            r.line_hovered == ((match pointer {
                Some(q) => spec_bezier_close(
                    geom.in_pos,
                    geom.control_pos,
                    geom.out_pos,
                    q.spec_clipped(),
                    BEZIER_HOVER_DISTANCE_SQ as int,
                ),
                None => false,
            }) || st.dragged),
            r.plugs_interacted == (in_hovered || in_dragged || out_hovered || out_dragged),
            r.cable_control.id@ == id@,
            r.cable_control.pos == geom.control_anchor,
            r.bezier == (BezierPoints {
                from: geom.in_pos,
                control: geom.control_pos,
                to: geom.out_pos,
            }),
    {
        let is_close = match pointer {
            Some(q) => bezier_close(
                geom.in_pos,
                geom.control_pos,
                geom.out_pos,
                q.clipped(),
                BEZIER_HOVER_DISTANCE_SQ,
            ),
            None => false,
        };
        CableParams {
            active: st.active,
            line_hovered: is_close || st.dragged,
            plugs_interacted: in_hovered || in_dragged || out_hovered || out_dragged,
            cable_control: CableControl { id: id.clone(), pos: geom.control_anchor },
            bezier: BezierPoints {
                from: geom.in_pos,
                control: geom.control_pos,
                to: geom.out_pos,
            },
        }
    }
}

} // verus!

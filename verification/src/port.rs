use vstd::prelude::*;
use crate::geom::{dist_sq, lemma_square_bound, spec_dist_sq, Pos, Vect};
use crate::id::IdKey;
use crate::plug::DraggedPlug;
use crate::port_params::PortParams;
use crate::state::{State, StateView};

pub use crate::port_id::PortId;

verus! {

/// The smaller component of a displacement.
pub open spec fn spec_min_side(v: Vect) -> int {
    if v.x <= v.y {
        v.x as int
    } else {
        v.y as int
    }
}

/// Whether a dragged plug counts as hovering a port: the squared distance
/// between the two region centers must come under the square of half the
/// sum of the two regions' smaller sides. Both sides of the comparison
/// are scaled by four, so it is exact in whole numbers; coordinates are
/// read clipped to the working range.
pub open spec fn spec_port_plug_close(
    center: Pos,
    size: Vect,
    plug_pos: Pos,
    plug_size: Vect,
) -> bool {
    let c = center.spec_clipped();
    let p = plug_pos.spec_clipped();
    let m = spec_min_side(size.spec_clipped()) + spec_min_side(plug_size.spec_clipped());
    4 * spec_dist_sq(c, p) < m * m
}

/// The proximity test between a port's region and the dragged plug's
/// region.
pub fn port_plug_close(center: Pos, size: Vect, plug_pos: Pos, plug_size: Vect) -> (r: bool)
    ensures
        r == spec_port_plug_close(center, size, plug_pos, plug_size),
{
    let c = center.clipped();
    let p = plug_pos.clipped();
    let sc = size.clipped();
    let pc = plug_size.clipped();
    let m: i64 = sc.min_side() + pc.min_side();
    let d = dist_sq(c, p);
    proof {
        lemma_square_bound(m as int, 200_000);
    }
    let lhs: i128 = 4 * (d as i128);
    let rhs: i128 = (m as i128) * (m as i128);
    lhs < rhs
}

/// The stand-in geometry for "no plug is being dragged": far away and of
/// no size, so nothing on an ordinary canvas counts as close to it.
pub open spec fn spec_far_plug() -> DraggedPlug {
    DraggedPlug { pos: Pos { x: -100i64, y: -100i64 }, size: Vect { x: 0, y: 0 } }
}

/// Whether a port with the given center and size counts as hovered this
/// frame: the pointer hovers its region directly, or the plug being
/// dragged overlaps it. The second test compensates for the dragged plug
/// sitting over the port and so stealing the pointer's direct hover.
pub open spec fn spec_port_hover(
    sv: StateView,
    center: Pos,
    size: Vect,
    pointer_hovered: bool,
) -> bool {
    let d = match sv.dragged_plug_of() {
        Some(d) => d,
        None => spec_far_plug(),
    };
    pointer_hovered || spec_port_plug_close(center, size, d.pos, d.size)
}

/// A port widget: a connection endpoint named by a port identity.
/// Rendered every frame; its position and hover state are written into
/// the store on every render.
#[derive(Debug)]
pub struct Port {
    pub port_id: PortId,
}

impl Port {
    /// A port named by the given key.
    pub fn new<T: IdKey>(port_id: T) -> (r: Port)
        ensures
            r.port_id@ == port_id.key_view(),
    {
        Port { port_id: PortId::new(port_id) }
    }

    /// The parameters the port's renderer draws from, read before the
    /// port writes anything this frame: whether this port is the hovered
    /// one.
    pub fn params(&self, state: &State) -> (r: PortParams)
        ensures
            r.hovered == (state@.hovered_port_of() == Some(self.port_id@)),
    {
        let hovered = match state.hovered_port_id() {
            Some(p) => p == self.port_id,
            None => false,
        };
        PortParams { hovered }
    }

    /// The whole effect of rendering the port: a generation rollover if
    /// the same port already rendered this frame, then the position
    /// write, then the hovered-port singleton when the port counts as
    /// hovered. Returns whether it does.
    pub fn integrate(self, state: &mut State, rect_min: Pos, size: Vect, pointer_hovered: bool) -> (hovered:
        bool)
        ensures
            hovered == spec_port_hover(
                old(state)@.port_seen(self.port_id@).with_port_pos(self.port_id@, rect_min),
                rect_min.spec_offset_by(size.spec_half()),
                size,
                pointer_hovered,
            ),
            final(state)@ == old(state)@.port_rendered(self.port_id@, rect_min, hovered),
    {
        state.advance_generation_if_twice(self.port_id.clone());
        state.update_port_pos(self.port_id.clone(), rect_min);
        let center = rect_min.offset_by(size.half());
        let hovered = match state.dragged_plug() {
            Some(d) => pointer_hovered || port_plug_close(center, size, d.pos, d.size),
            None => pointer_hovered || port_plug_close(
                center,
                size,
                Pos { x: -100, y: -100 },
                Vect { x: 0, y: 0 },
            ),
        };
        if hovered {
            state.update_hovered_port_id(self.port_id);
        }
        hovered
    }
}

} // verus!

use vstd::prelude::*;
use vstd::pervasive::unreached;
use crate::cable::CableId;
use crate::event::{Event, EventView};
use crate::geom::{Pos, Vect};
use crate::id::IdView;
use crate::kv::{StoreItem, StoreKey};
use crate::plug_params::PlugParams;
use crate::port_id::PortId;
use crate::response::ResponseId;
use crate::state::{State, StateView};

verus! {

/// Which terminus of a cable a plug is.
#[derive(Debug, Copy, Clone, PartialEq, Eq, Hash, Structural)]
pub enum PlugType {
    In,
    Out,
}

/// The mathematical value of a plug identity.
pub struct PlugIdView {
    pub cable: IdView,
    pub end: PlugType,
}

/// Identifies one of a cable's two termini: the cable's identity plus the
/// end the plug sits on.
#[derive(Debug, Hash)]
pub struct PlugId {
    cable_id: CableId,
    plug_type: PlugType,
}

impl View for PlugId {
    type V = PlugIdView;

    closed spec fn view(&self) -> PlugIdView {
        PlugIdView { cable: self.cable_id@, end: self.plug_type }
    }
}

impl PlugId {
    pub fn new(cable_id: CableId, plug_type: PlugType) -> (r: PlugId)
        ensures
            r@ == (PlugIdView { cable: cable_id@, end: plug_type }),
    {
        PlugId { cable_id, plug_type }
    }
}

impl Clone for PlugId {
    fn clone(&self) -> (r: Self)
        ensures
            r@ == self@,
    {
        PlugId { cable_id: self.cable_id.clone(), plug_type: self.plug_type }
    }
}

impl PartialEq for PlugId {
    fn eq(&self, other: &Self) -> (r: bool) {
        self.cable_id == other.cable_id && self.plug_type == other.plug_type
    }
}

impl vstd::std_specs::cmp::PartialEqSpecImpl for PlugId {
    open spec fn obeys_eq_spec() -> bool {
        true
    }

    open spec fn eq_spec(&self, other: &PlugId) -> bool {
        self@ == other@
    }
}

impl Eq for PlugId {}

impl StoreItem for PlugId {
    fn dup(&self) -> (r: Self) {
        self.clone()
    }
}

impl StoreKey for PlugId {
    fn key_eq(&self, other: &Self) -> (r: bool) {
        self == other
    }
}

/// The cross-frame state of a plug: where it sits relative to its default
/// anchor, and whether it is being dragged.
#[derive(Debug, Copy, Clone, PartialEq, Eq, Structural)]
pub struct PlugState {
    pub pos_offset: Vect,
    pub dragged: bool,
}

impl View for PlugState {
    type V = PlugState;

    open spec fn view(&self) -> PlugState {
        *self
    }
}

impl StoreItem for PlugState {
    fn dup(&self) -> (r: Self) {
        *self
    }
}

impl PlugState {
    /// The state of a plug never seen before: sitting on its default
    /// anchor, not dragged.
    pub fn initial() -> (r: PlugState)
        ensures
            r == (PlugState { pos_offset: Vect { x: 0, y: 0 }, dragged: false }),
    {
        PlugState { pos_offset: Vect { x: 0, y: 0 }, dragged: false }
    }
}

/// The geometry of the plug currently being dragged, published so that
/// ports can compute hover-by-proximity against it.
#[derive(Debug, Copy, Clone, PartialEq, Eq, Structural)]
pub struct DraggedPlug {
    pub pos: Pos,
    pub size: Vect,
}

impl View for DraggedPlug {
    type V = DraggedPlug;

    open spec fn view(&self) -> DraggedPlug {
        *self
    }
}

impl StoreItem for DraggedPlug {
    fn dup(&self) -> (r: Self) {
        *self
    }
}

/// The event a plug emits when a drag over it is released: dropped while
/// some port is hovered, it connects to that port; dropped elsewhere while
/// bound to a port, it disconnects; dropped elsewhere while free, nothing
/// happens.
pub open spec fn spec_release_event(plug_to: Option<IdView>, hovered: Option<IdView>) -> Option<
    EventView,
> {
    match hovered {
        Some(port) => Some(EventView::Connected { port_id: port }),
        None => match plug_to {
            Some(_) => Some(EventView::Disconnected),
            None => None,
        },
    }
}

/// The event fired on drag release, given the port the plug was bound to
/// and the port currently hovered.
pub fn release_event(plug_to: &Option<PortId>, hovered: &Option<PortId>) -> (r: Option<Event>)
    ensures
        (match r {
            Some(e) => spec_release_event(view_opt_port(*plug_to), view_opt_port(*hovered))
                == Some(e@),
            None => spec_release_event(view_opt_port(*plug_to), view_opt_port(*hovered)) is None,
        }),
{
    match hovered {
        Some(port_id) => Some(Event::Connected { port_id: port_id.clone() }),
        None => match plug_to {
            Some(_) => Some(Event::Disconnected),
            None => None,
        },
    }
}

/// The release-event law: dropping a plug while some port is hovered
/// connects to that port, whatever the plug was bound to; dropping it
/// away from every port disconnects exactly when the plug was bound; a
/// free plug dropped away from every port emits nothing.
pub proof fn lemma_release_event(plug_to: Option<IdView>, hovered: Option<IdView>)
    ensures
        (hovered matches Some(port) ==> spec_release_event(plug_to, hovered) == Some(
            EventView::Connected { port_id: port },
        )),
        (hovered is None && plug_to is Some) ==> spec_release_event(plug_to, hovered) == Some(
            EventView::Disconnected,
        ),
        (hovered is None && plug_to is None) ==> spec_release_event(plug_to, hovered) is None,
{
}

/// The frame's data flow, end to end: when a port render this frame
/// marked the port as hovered, a plug whose drag is released later in the
/// same frame files a connect event to exactly that port under its own
/// response identity.
pub proof fn lemma_release_connects_to_hovered_port(
    sv: StateView,
    k: IdView,
    port_pos: Pos,
    plug: Plug,
    pos: Pos,
    input: PlugResponseInput,
)
    requires
        plug.id is Some,
        plug.default_pos is Some,
        input.drag_released,
    ensures
        ({
            let after_port = sv.port_rendered(k, port_pos, true);
            let after_plug = plug.spec_integrated(after_port, pos, input).0;
            after_plug.ephemeral.event_of_plug.contains_key(input.id)
                && after_plug.ephemeral.event_of_plug[input.id] == (EventView::Connected {
                port_id: k,
            })
        }),
{
}

/// The view of an optional port identity.
pub open spec fn view_opt_port(o: Option<PortId>) -> Option<IdView> {
    match o {
        Some(p) => Some(p@),
        None => None,
    }
}

/// A plug: the draggable terminus of a cable. Either bound to a port (it
/// follows that port's position) or free (it keeps a dragged offset from
/// its default anchor). The identity, default anchor and cable flags are
/// filled in by the cable that renders the plug.
#[derive(Debug)]
pub struct Plug {
    /// The port this plug is bound to, if any.
    pub plug_to: Option<PortId>,
    /// An explicit position, overriding the stored offset.
    pub pos: Option<Pos>,
    /// Set by the cable widget: which terminus this plug is.
    pub id: Option<PlugId>,
    /// Set by the cable widget: where the plug sits when it has never been
    /// dragged and is not bound.
    pub default_pos: Option<Pos>,
    /// Set by the cable widget: whether the owning cable is active.
    pub cable_active: bool,
    /// Set by the cable widget: the direction the cable leaves the plug
    /// in, used by the default look while dragging.
    pub vec: Option<Vect>,
}

impl Plug {
    /// A plug bound to no port.
    pub fn unplugged() -> (r: Plug)
        ensures
            r.plug_to is None,
            r.pos is None,
            r.id is None,
            r.default_pos is None,
            r.cable_active == false,
            r.vec is None,
    {
        Plug {
            plug_to: None,
            pos: None,
            id: None,
            default_pos: None,
            cable_active: false,
            vec: None,
        }
    }

    /// A plug bound to the port named by the given key.
    pub fn to<T: crate::id::IdKey>(port: T) -> (r: Plug)
        ensures
            (match r.plug_to {
                Some(p) => p@ == port.key_view(),
                None => false,
            }),
            r.pos is None,
            r.id is None,
            r.default_pos is None,
            r.cable_active == false,
            r.vec is None,
    {
        Plug {
            plug_to: Some(PortId::new(port)),
            pos: None,
            id: None,
            default_pos: None,
            cable_active: false,
            vec: None,
        }
    }

    /// The plug with an explicit position.
    pub fn pos(self, pos: Pos) -> (r: Plug)
        ensures
            r == (Plug { pos: Some(pos), ..self }),
    {
        Plug { pos: Some(pos), ..self }
    }

    /// The plug with a default anchor position.
    pub fn default_pos(self, pos: Pos) -> (r: Plug)
        ensures
            r == (Plug { default_pos: Some(pos), ..self }),
    {
        Plug { default_pos: Some(pos), ..self }
    }

    /// The plug with a default anchor position, unless one was already
    /// set.
    pub fn default_pos_no_overwrite(self, pos: Pos) -> (r: Plug)
        ensures
            (r == (Plug {
                default_pos: if self.default_pos is None {
                    Some(pos)
                } else {
                    self.default_pos
                },
                ..self
            })),
    {
        if self.default_pos.is_none() {
            Plug { default_pos: Some(pos), ..self }
        } else {
            self
        }
    }

    /// The plug with its terminus identity, set by the cable widget.
    pub fn id(self, id: PlugId) -> (r: Plug)
        ensures
            (match r.id {
                Some(i) => i@ == id@,
                None => false,
            }),
            r.plug_to == self.plug_to,
            r.pos == self.pos,
            r.default_pos == self.default_pos,
            r.cable_active == self.cable_active,
            r.vec == self.vec,
    {
        Plug { id: Some(id), ..self }
    }

    /// The plug with the owning cable's active flag, set by the cable
    /// widget.
    pub fn cable_active(self, active: bool) -> (r: Plug)
        ensures
            r == (Plug { cable_active: active, ..self }),
    {
        Plug { cable_active: active, ..self }
    }

    /// The plug with the cable's leaving direction, set by the cable
    /// widget.
    pub fn vec(self, vec: Option<Vect>) -> (r: Plug)
        ensures
            r == (Plug { vec, ..self }),
    {
        Plug { vec, ..self }
    }

    /// The parameters the plug's renderer draws from.
    pub fn params(&self) -> (r: PlugParams)
        ensures
            r.vector == self.vec,
            r.active == (self.cable_active || self.plug_to is None),
            r.plugged == (self.plug_to is Some),
            r.locked == false,
    {
        PlugParams {
            vector: self.vec,
            active: self.cable_active || self.plug_to.is_none(),
            plugged: self.plug_to.is_some(),
            locked: false,
        }
    }

    /// Where the plug draws this frame, before this frame's drag is
    /// applied: an explicit position wins; a plug being dragged keeps its
    /// stored offset from the default anchor; an idle plug bound to a
    /// port follows the port's recorded position, falling back to the
    /// stored offset while the port is not on screen.
    pub open spec fn spec_resolved_pos(self, sv: StateView) -> Pos
        recommends
            self.id is Some,
            self.default_pos is Some,
    {
        let ps = match sv.plug_state_of(self.id->0@) {
            Some(ps) => ps,
            None => PlugState { pos_offset: Vect { x: 0, y: 0 }, dragged: false },
        };
        let fallback = match self.pos {
            Some(p) => p,
            None => self.default_pos->0.spec_offset_by(ps.pos_offset),
        };
        if ps.dragged {
            fallback
        } else {
            match self.plug_to {
                Some(port) => match sv.port_pos_of(port@) {
                    Some(p) => p,
                    None => fallback,
                },
                None => fallback,
            }
        }
    }

    /// Resolves the plug's draw position from the store.
    pub fn resolve_pos(&self, state: &State) -> (r: Pos)
        requires
            self.id is Some,
            self.default_pos is Some,
        ensures
            r == self.spec_resolved_pos(state@),
    {
        let ps: PlugState = match &self.id {
            Some(i) => match state.plug_state(i) {
                Some(ps) => ps,
                None => PlugState::initial(),
            },
            None => unreached(),
        };
        let dp: Pos = match &self.default_pos {
            Some(p) => *p,
            None => unreached(),
        };
        let fallback: Pos = match &self.pos {
            Some(p) => *p,
            None => dp.offset_by(ps.pos_offset),
        };
        if ps.dragged {
            fallback
        } else {
            match &self.plug_to {
                Some(port) => match state.port_pos(port) {
                    Some(p) => p,
                    None => fallback,
                },
                None => fallback,
            }
        }
    }

    /// The new store and the plug's moved position after one frame's
    /// interaction: the drag is applied to the resolved position; while
    /// dragging, the plug's geometry is published for port proximity; on
    /// drag release, the connect or disconnect event is filed under the
    /// plug's response identity; and the plug's offset from its default
    /// anchor is recorded.
    pub open spec fn spec_integrated(
        self,
        sv: StateView,
        pos: Pos,
        input: PlugResponseInput,
    ) -> (StateView, Pos)
        recommends
            self.id is Some,
            self.default_pos is Some,
    {
        let moved = pos.spec_offset_by(input.drag_delta);
        let center = moved.spec_offset_by(input.size.spec_half());
        let s1 = if input.dragged {
            sv.with_dragged(DraggedPlug { pos: center, size: input.size })
        } else {
            sv
        };
        let s2 = if input.drag_released {
            match spec_release_event(view_opt_port(self.plug_to), s1.hovered_port_of()) {
                Some(e) => s1.with_plug_event(input.id, e),
                None => s1,
            }
        } else {
            s1
        };
        let ps = PlugState {
            pos_offset: moved.spec_minus(self.default_pos->0),
            dragged: input.dragged,
        };
        (s2.with_plug_state(self.id->0@, ps), moved)
    }

    /// Applies one frame's interaction to the plug, and returns the
    /// plug's moved position.
    pub fn integrate(self, state: &mut State, pos: Pos, input: PlugResponseInput) -> (next: Pos)
        requires
            self.id is Some,
            self.default_pos is Some,
        ensures
            final(state)@ == self.spec_integrated(old(state)@, pos, input).0,
            next == self.spec_integrated(old(state)@, pos, input).1,
    {
        let moved = pos.offset_by(input.drag_delta);
        let center = moved.offset_by(input.size.half());
        if input.dragged {
            state.update_dragged_plug(DraggedPlug { pos: center, size: input.size });
        }
        if input.drag_released {
            let hovered = state.hovered_port_id();
            match release_event(&self.plug_to, &hovered) {
                Some(e) => state.record_plug_event(input.id, e),
                None => {},
            }
        }
        let dp: Pos = match &self.default_pos {
            Some(p) => *p,
            None => unreached(),
        };
        let id: PlugId = match self.id {
            Some(i) => i,
            None => unreached(),
        };
        state.update_plug_state(id, PlugState { pos_offset: moved.minus(dp), dragged: input.dragged });
        moved
    }
}

/// What the rendered plug's response says about this frame.
#[derive(Debug, Copy, Clone, PartialEq, Eq, Structural)]
pub struct PlugResponseInput {
    /// The identity of the plug's rendered region, under which its event
    /// is filed.
    pub id: ResponseId,
    /// The rendered region's size.
    pub size: Vect,
    /// How far the pointer dragged the plug this frame.
    pub drag_delta: Vect,
    /// The plug is being dragged.
    pub dragged: bool,
    /// A drag of the plug ended this frame.
    pub drag_released: bool,
}

} // verus!

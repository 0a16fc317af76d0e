use vstd::prelude::*;
use crate::cable::{CableId, CableState};
use crate::event::{Event, EventView};
use crate::geom::{Pos, Vect};
use crate::id::IdView;
use crate::kv::KvList;
use crate::plug::{DraggedPlug, PlugId, PlugIdView, PlugState};
use crate::port_id::PortId;
use crate::response::{PlugPair, ResponseId};

verus! {

/// One generation's worth of widget data: the per-identity maps and the
/// singleton values.
pub struct GenerationState {
    pub port_pos: KvList<PortId, Pos>,
    pub plug_state: KvList<PlugId, PlugState>,
    pub cable_state: KvList<CableId, CableState>,
    pub cable_control_size: KvList<CableId, Vect>,
    pub hovered_port: Option<PortId>,
    pub dragged_plug: Option<DraggedPlug>,
}

/// The mathematical value of one generation.
#[verifier::ext_equal]
pub struct GenerationView {
    pub port_pos: Map<IdView, Pos>,
    pub plug_state: Map<PlugIdView, PlugState>,
    pub cable_state: Map<IdView, CableState>,
    pub cable_control_size: Map<IdView, Vect>,
    pub hovered_port: Option<IdView>,
    pub dragged_plug: Option<DraggedPlug>,
}

impl GenerationView {
    pub open spec fn empty() -> GenerationView {
        GenerationView {
            port_pos: Map::empty(),
            plug_state: Map::empty(),
            cable_state: Map::empty(),
            cable_control_size: Map::empty(),
            hovered_port: None,
            dragged_plug: None,
        }
    }
}

impl View for GenerationState {
    type V = GenerationView;

    open spec fn view(&self) -> GenerationView {
        GenerationView {
            port_pos: self.port_pos@,
            plug_state: self.plug_state@,
            cable_state: self.cable_state@,
            cable_control_size: self.cable_control_size@,
            hovered_port: match self.hovered_port {
                Some(p) => Some(p@),
                None => None,
            },
            dragged_plug: self.dragged_plug,
        }
    }
}

impl GenerationState {
    /// A generation holding nothing.
    pub fn empty() -> (r: GenerationState)
        ensures
            r@ == GenerationView::empty(),
    {
        GenerationState {
            port_pos: KvList::empty(),
            plug_state: KvList::empty(),
            cable_state: KvList::empty(),
            cable_control_size: KvList::empty(),
            hovered_port: None,
            dragged_plug: None,
        }
    }
}

/// The per-frame scratch space: rebuilt every frame, never read across
/// frames. Maps a rendered widget's response identity to the event that
/// happened to it, and a cable's response identity to the responses of its
/// two plugs.
pub struct EphemeralState {
    pub event_of_plug: KvList<ResponseId, Event>,
    pub plug_responses_of_cable: KvList<ResponseId, PlugPair>,
}

/// The mathematical value of the per-frame scratch space.
#[verifier::ext_equal]
pub struct EphemeralView {
    pub event_of_plug: Map<ResponseId, EventView>,
    pub plug_responses_of_cable: Map<ResponseId, PlugPair>,
}

impl EphemeralView {
    pub open spec fn empty() -> EphemeralView {
        EphemeralView { event_of_plug: Map::empty(), plug_responses_of_cable: Map::empty() }
    }
}

impl View for EphemeralState {
    type V = EphemeralView;

    open spec fn view(&self) -> EphemeralView {
        EphemeralView {
            event_of_plug: self.event_of_plug@,
            plug_responses_of_cable: self.plug_responses_of_cable@,
        }
    }
}

impl EphemeralState {
    /// A scratch space holding nothing.
    pub fn empty() -> (r: EphemeralState)
        ensures
            r@ == EphemeralView::empty(),
    {
        EphemeralState {
            event_of_plug: KvList::empty(),
            plug_responses_of_cable: KvList::empty(),
        }
    }
}

/// The mathematical value of the whole store: two generations plus the
/// per-frame scratch space.
#[verifier::ext_equal]
pub struct StateView {
    pub previous: GenerationView,
    pub current: GenerationView,
    pub ephemeral: EphemeralView,
}

impl StateView {
    /// The store as it is before anything was rendered.
    pub open spec fn init() -> StateView {
        StateView {
            previous: GenerationView::empty(),
            current: GenerationView::empty(),
            ephemeral: EphemeralView::empty(),
        }
    }

    /// Advancing a generation: the current snapshot becomes the previous
    /// one, and the new current snapshot and the scratch space start
    /// empty. Nothing survives two advances untouched.
    pub open spec fn generation_advanced(self) -> StateView {
        StateView {
            previous: self.current,
            current: GenerationView::empty(),
            ephemeral: EphemeralView::empty(),
        }
    }

    /// What seeing a port render does before the write: if the port
    /// already wrote a position this generation, the generation advances,
    /// so the two positions land in different generations.
    pub open spec fn port_seen(self, k: IdView) -> StateView {
        if self.current.port_pos.contains_key(k) {
            self.generation_advanced()
        } else {
            self
        }
    }

    pub open spec fn with_port_pos(self, k: IdView, p: Pos) -> StateView {
        StateView {
            current: GenerationView { port_pos: self.current.port_pos.insert(k, p), ..self.current },
            ..self
        }
    }

    pub open spec fn with_plug_state(self, k: PlugIdView, v: PlugState) -> StateView {
        StateView {
            current: GenerationView {
                plug_state: self.current.plug_state.insert(k, v),
                ..self.current
            },
            ..self
        }
    }

    pub open spec fn with_cable_state(self, k: IdView, v: CableState) -> StateView {
        StateView {
            current: GenerationView {
                cable_state: self.current.cable_state.insert(k, v),
                ..self.current
            },
            ..self
        }
    }

    pub open spec fn with_cable_control_size(self, k: IdView, v: Vect) -> StateView {
        StateView {
            current: GenerationView {
                cable_control_size: self.current.cable_control_size.insert(k, v),
                ..self.current
            },
            ..self
        }
    }

    pub open spec fn with_hovered(self, k: IdView) -> StateView {
        StateView {
            current: GenerationView { hovered_port: Some(k), ..self.current },
            ..self
        }
    }

    pub open spec fn with_dragged(self, d: DraggedPlug) -> StateView {
        StateView {
            current: GenerationView { dragged_plug: Some(d), ..self.current },
            ..self
        }
    }

    pub open spec fn with_plug_event(self, rid: ResponseId, e: EventView) -> StateView {
        StateView {
            ephemeral: EphemeralView {
                event_of_plug: self.ephemeral.event_of_plug.insert(rid, e),
                ..self.ephemeral
            },
            ..self
        }
    }

    pub open spec fn with_plug_pair(self, rid: ResponseId, pair: PlugPair) -> StateView {
        StateView {
            ephemeral: EphemeralView {
                plug_responses_of_cable: self.ephemeral.plug_responses_of_cable.insert(rid, pair),
                ..self.ephemeral
            },
            ..self
        }
    }

    /// Reading a keyed value: the current generation wins; a key absent
    /// there falls back to the previous generation; a key absent in both
    /// was never seen.
    pub open spec fn port_pos_of(self, k: IdView) -> Option<Pos> {
        if self.current.port_pos.contains_key(k) {
            Some(self.current.port_pos[k])
        } else if self.previous.port_pos.contains_key(k) {
            Some(self.previous.port_pos[k])
        } else {
            None
        }
    }

    pub open spec fn plug_state_of(self, k: PlugIdView) -> Option<PlugState> {
        if self.current.plug_state.contains_key(k) {
            Some(self.current.plug_state[k])
        } else if self.previous.plug_state.contains_key(k) {
            Some(self.previous.plug_state[k])
        } else {
            None
        }
    }

    pub open spec fn cable_state_of(self, k: IdView) -> Option<CableState> {
        if self.current.cable_state.contains_key(k) {
            Some(self.current.cable_state[k])
        } else if self.previous.cable_state.contains_key(k) {
            Some(self.previous.cable_state[k])
        } else {
            None
        }
    }

    pub open spec fn cable_control_size_of(self, k: IdView) -> Option<Vect> {
        if self.current.cable_control_size.contains_key(k) {
            Some(self.current.cable_control_size[k])
        } else if self.previous.cable_control_size.contains_key(k) {
            Some(self.previous.cable_control_size[k])
        } else {
            None
        }
    }

    pub open spec fn hovered_port_of(self) -> Option<IdView> {
        if self.current.hovered_port is Some {
            self.current.hovered_port
        } else {
            self.previous.hovered_port
        }
    }

    pub open spec fn dragged_plug_of(self) -> Option<DraggedPlug> {
        if self.current.dragged_plug is Some {
            self.current.dragged_plug
        } else {
            self.previous.dragged_plug
        }
    }

    /// The whole effect of one port render: a rollover if the port was
    /// already seen this generation, then the position write, then the
    /// hovered-port singleton if the port counts as hovered.
    pub open spec fn port_rendered(self, k: IdView, pos: Pos, hovered: bool) -> StateView {
        let seen = self.port_seen(k);
        let written = seen.with_port_pos(k, pos);
        if hovered {
            written.with_hovered(k)
        } else {
            written
        }
    }
}

/// The generational store: all cross-frame widget data lives here, keyed
/// by identity. Two full snapshots are kept; reads check the current
/// generation first and fall back to the previous one, so data not
/// rewritten this frame stays readable for exactly one more generation.
pub struct State {
    previous: GenerationState,
    current: GenerationState,
    ephemeral: EphemeralState,
}

impl View for State {
    type V = StateView;

    closed spec fn view(&self) -> StateView {
        StateView { previous: self.previous@, current: self.current@, ephemeral: self.ephemeral@ }
    }
}

impl Default for State {
    fn default() -> (r: State)
        ensures
            r@ == StateView::init(),
    {
        State {
            previous: GenerationState::empty(),
            current: GenerationState::empty(),
            ephemeral: EphemeralState::empty(),
        }
    }
}

impl State {
    /// Swaps the current snapshot into the previous one and starts a fresh
    /// current snapshot and a fresh scratch space.
    pub fn next_generation(&mut self)
        ensures
            final(self)@ == old(self)@.generation_advanced(),
    {
        let mut fresh = GenerationState::empty();
        core::mem::swap(&mut self.current, &mut fresh);
        self.previous = fresh;
        self.ephemeral = EphemeralState::empty();
    }

    /// Rolls the generation if this port already wrote a position this
    /// generation: the trigger is the same port being rendered a second
    /// time within one frame, and the rollover keeps the two positions in
    /// different generations instead of overwriting one another.
    pub fn advance_generation_if_twice(&mut self, port_id: PortId)
        ensures
            final(self)@ == old(self)@.port_seen(port_id@),
    {
        if self.current.port_pos.contains(&port_id) {
            self.next_generation();
        }
    }

    pub fn port_pos(&self, id: &PortId) -> (r: Option<Pos>)
        ensures
            r == self@.port_pos_of(id@),
    {
        match self.current.port_pos.read(id) {
            Some(p) => Some(p),
            None => self.previous.port_pos.read(id),
        }
    }

    pub fn update_port_pos(&mut self, id: PortId, pos: Pos)
        ensures
            final(self)@ == old(self)@.with_port_pos(id@, pos),
    {
        self.current.port_pos.put(id, pos);
    }

    pub fn plug_state(&self, id: &PlugId) -> (r: Option<PlugState>)
        ensures
            r == self@.plug_state_of(id@),
    {
        match self.current.plug_state.read(id) {
            Some(p) => Some(p),
            None => self.previous.plug_state.read(id),
        }
    }

    pub fn update_plug_state(&mut self, id: PlugId, value: PlugState)
        ensures
            final(self)@ == old(self)@.with_plug_state(id@, value),
    {
        self.current.plug_state.put(id, value);
    }

    pub fn cable_state(&self, id: &CableId) -> (r: Option<CableState>)
        ensures
            r == self@.cable_state_of(id@),
    {
        match self.current.cable_state.read(id) {
            Some(p) => Some(p),
            None => self.previous.cable_state.read(id),
        }
    }

    pub fn update_cable_state(&mut self, id: CableId, value: CableState)
        ensures
            final(self)@ == old(self)@.with_cable_state(id@, value),
    {
        self.current.cable_state.put(id, value);
    }

    pub fn cable_control_size(&self, id: &CableId) -> (r: Option<Vect>)
        ensures
            r == self@.cable_control_size_of(id@),
    {
        match self.current.cable_control_size.read(id) {
            Some(p) => Some(p),
            None => self.previous.cable_control_size.read(id),
        }
    }

    pub fn update_cable_control_size(&mut self, id: CableId, value: Vect)
        ensures
            final(self)@ == old(self)@.with_cable_control_size(id@, value),
    {
        self.current.cable_control_size.put(id, value);
    }

    pub fn hovered_port_id(&self) -> (r: Option<PortId>)
        ensures
            crate::plug::view_opt_port(r) == self@.hovered_port_of(),
    {
        match &self.current.hovered_port {
            Some(p) => Some(p.clone()),
            None => match &self.previous.hovered_port {
                Some(p) => Some(p.clone()),
                None => None,
            },
        }
    }

    pub fn update_hovered_port_id(&mut self, id: PortId)
        ensures
            final(self)@ == old(self)@.with_hovered(id@),
    {
        self.current.hovered_port = Some(id);
    }

    pub fn dragged_plug(&self) -> (r: Option<DraggedPlug>)
        ensures
            r == self@.dragged_plug_of(),
    {
        match &self.current.dragged_plug {
            Some(d) => Some(*d),
            None => match &self.previous.dragged_plug {
                Some(d) => Some(*d),
                None => None,
            },
        }
    }

    pub fn update_dragged_plug(&mut self, value: DraggedPlug)
        ensures
            final(self)@ == old(self)@.with_dragged(value),
    {
        self.current.dragged_plug = Some(value);
    }

    /// Files an event under a rendered plug's response identity, for the
    /// response layer to read back this frame.
    pub fn record_plug_event(&mut self, rid: ResponseId, event: Event)
        ensures
            final(self)@ == old(self)@.with_plug_event(rid, event@),
    {
        self.ephemeral.event_of_plug.put(rid, event);
    }

    /// The event filed under a response identity this frame, if any.
    pub fn plug_event(&self, rid: &ResponseId) -> (r: Option<Event>)
        ensures
            (match r {
                Some(e) => self@.ephemeral.event_of_plug.contains_key(*rid) && e@
                    == self@.ephemeral.event_of_plug[*rid],
                None => !self@.ephemeral.event_of_plug.contains_key(*rid),
            }),
    {
        self.ephemeral.event_of_plug.read(rid)
    }

    /// Files the responses of a cable's two plugs under the cable's own
    /// response identity.
    pub fn record_plug_responses(&mut self, rid: ResponseId, pair: PlugPair)
        ensures
            final(self)@ == old(self)@.with_plug_pair(rid, pair),
    {
        self.ephemeral.plug_responses_of_cable.put(rid, pair);
    }

    /// The plug responses filed under a cable's response identity this
    /// frame, if any.
    pub fn plug_responses(&self, rid: &ResponseId) -> (r: Option<PlugPair>)
        ensures
            (match r {
                Some(pair) => self@.ephemeral.plug_responses_of_cable.contains_key(*rid) && pair
                    == self@.ephemeral.plug_responses_of_cable[*rid],
                None => !self@.ephemeral.plug_responses_of_cable.contains_key(*rid),
            }),
    {
        self.ephemeral.plug_responses_of_cable.read(rid)
    }
}

/// Reading order of the two generations: a key written this generation
/// reads back at the written value; a key written only last generation
/// reads back at that value; a key written in neither generation reads
/// back as absent.
pub proof fn lemma_lookup_order(s: StateView, k: IdView)
    ensures
        s.current.port_pos.contains_key(k) ==> s.port_pos_of(k) == Some(s.current.port_pos[k]),
        (!s.current.port_pos.contains_key(k) && s.previous.port_pos.contains_key(k))
            ==> s.port_pos_of(k) == Some(s.previous.port_pos[k]),
        (!s.current.port_pos.contains_key(k) && !s.previous.port_pos.contains_key(k))
            ==> s.port_pos_of(k) is None,
{
}

/// The grace window of the two-generation scheme: a key written this
/// generation survives one advance, reading back at its written value,
/// and is gone after a second advance with no rewrite in between.
pub proof fn lemma_generation_grace(s: StateView, k: IdView)
    requires
        s.current.port_pos.contains_key(k),
    ensures
        s.generation_advanced().port_pos_of(k) == Some(s.current.port_pos[k]),
        s.generation_advanced().generation_advanced().port_pos_of(k) is None,
{
}

/// The rollover policy: rendering the same port a second time within a
/// frame rolls the generation, while rendering three distinct ports once
/// each leaves the previous generation untouched.
pub proof fn lemma_rollover_policy(
    s: StateView,
    k1: IdView,
    k2: IdView,
    k3: IdView,
    p1: Pos,
    p2: Pos,
    p3: Pos,
    q: Pos,
    h1: bool,
    h2: bool,
    h3: bool,
    hq: bool,
)
    requires
        !s.current.port_pos.contains_key(k1),
        !s.current.port_pos.contains_key(k2),
        !s.current.port_pos.contains_key(k3),
        k1 != k2,
        k1 != k3,
        k2 != k3,
    ensures
        s.port_rendered(k1, p1, h1).port_rendered(k2, p2, h2).port_rendered(k3, p3, h3).previous
            == s.previous,
        s.port_rendered(k1, p1, h1).port_rendered(k1, q, hq).previous == s.port_rendered(
            k1,
            p1,
            h1,
        ).current,
{
}

/// The hovered-port singleton persists for exactly one extra generation
/// after last being set, and expires after a second advance.
pub proof fn lemma_hovered_grace(s: StateView, k: IdView)
    ensures
        s.with_hovered(k).hovered_port_of() == Some(k),
        s.with_hovered(k).generation_advanced().hovered_port_of() == Some(k),
        s.with_hovered(k).generation_advanced().generation_advanced().hovered_port_of() is None,
{
}

} // verus!


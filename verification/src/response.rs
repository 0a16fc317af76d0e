use vstd::prelude::*;
use crate::event::{Event, EventView};
use crate::geom::{Pos, Vect};
use crate::kv::{StoreItem, StoreKey};
use crate::port_id::PortId;
use crate::state::State;

verus! {

/// The identity the host toolkit gave to a rendered widget's interactive
/// region. Events of a frame are filed under it.
#[derive(Debug, Copy, Clone, PartialEq, Eq, Hash, Structural)]
pub struct ResponseId {
    pub raw: u64,
}

impl View for ResponseId {
    type V = ResponseId;

    open spec fn view(&self) -> ResponseId {
        *self
    }
}

impl StoreItem for ResponseId {
    fn dup(&self) -> (r: Self) {
        *self
    }
}

impl StoreKey for ResponseId {
    fn key_eq(&self, other: &Self) -> (r: bool) {
        self.raw == other.raw
    }
}

/// What a frame's render of one plug left behind: the identity of its
/// region, where the region sat, and how far the pointer dragged it.
#[derive(Debug, Copy, Clone, PartialEq, Eq, Structural)]
pub struct PlugResponse {
    pub id: ResponseId,
    pub rect_min: Pos,
    pub drag_delta: Vect,
}

impl View for PlugResponse {
    type V = PlugResponse;

    open spec fn view(&self) -> PlugResponse {
        *self
    }
}

impl StoreItem for PlugResponse {
    fn dup(&self) -> (r: Self) {
        *self
    }
}

/// The two plug responses a cable's render left behind, filed under the
/// cable's own response identity.
#[derive(Debug, Copy, Clone, PartialEq, Eq, Structural)]
pub struct PlugPair {
    pub in_plug: PlugResponse,
    pub out_plug: PlugResponse,
}

impl View for PlugPair {
    type V = PlugPair;

    open spec fn view(&self) -> PlugPair {
        *self
    }
}

impl StoreItem for PlugPair {
    fn dup(&self) -> (r: Self) {
        *self
    }
}

impl PlugResponse {
    /// Where the plug's region will sit next frame: its position this
    /// frame plus the drag it received.
    pub fn next_position(&self) -> (r: Pos)
        ensures
            r == self.rect_min.spec_offset_by(self.drag_delta),
    {
        self.rect_min.offset_by(self.drag_delta)
    }

    /// The port this plug connected to this frame, if a connect event was
    /// filed for it.
    pub fn connected_to(&self, state: &State) -> (r: Option<PortId>)
        ensures
            (match r {
                Some(p) => state@.ephemeral.event_of_plug.contains_key(self.id)
                    && state@.ephemeral.event_of_plug[self.id] == (EventView::Connected {
                    port_id: p@,
                }),
                None => !(state@.ephemeral.event_of_plug.contains_key(self.id)
                    && state@.ephemeral.event_of_plug[self.id] is Connected),
            }),
    {
        match state.plug_event(&self.id) {
            Some(Event::Connected { port_id }) => Some(port_id),
            _ => None,
        }
    }

    /// Whether this plug disconnected this frame.
    pub fn disconnected(&self, state: &State) -> (r: bool)
        ensures
            r == (state@.ephemeral.event_of_plug.contains_key(self.id)
                && state@.ephemeral.event_of_plug[self.id] is Disconnected),
    {
        match state.plug_event(&self.id) {
            Some(Event::Disconnected) => true,
            _ => false,
        }
    }

    /// The port this plug hovers over this frame, if a hover event was
    /// filed for it.
    pub fn hovered_on(&self, state: &State) -> (r: Option<PortId>)
        ensures
            (match r {
                Some(p) => state@.ephemeral.event_of_plug.contains_key(self.id)
                    && state@.ephemeral.event_of_plug[self.id] == (EventView::Hovered {
                    port_id: p@,
                }),
                None => !(state@.ephemeral.event_of_plug.contains_key(self.id)
                    && state@.ephemeral.event_of_plug[self.id] is Hovered),
            }),
    {
        match state.plug_event(&self.id) {
            Some(Event::Hovered { port_id }) => Some(port_id),
            _ => None,
        }
    }
}

/// The response of a cable's in-plug, read back from the frame's scratch
/// space by the cable's response identity.
pub fn in_plug(state: &State, cable_response: ResponseId) -> (r: Option<PlugResponse>)
    ensures
        (match r {
            Some(p) => state@.ephemeral.plug_responses_of_cable.contains_key(cable_response) && p
                == state@.ephemeral.plug_responses_of_cable[cable_response].in_plug,
            None => !state@.ephemeral.plug_responses_of_cable.contains_key(cable_response),
        }),
{
    match state.plug_responses(&cable_response) {
        Some(pair) => Some(pair.in_plug),
        None => None,
    }
}

/// The response of a cable's out-plug, read back from the frame's scratch
/// space by the cable's response identity.
pub fn out_plug(state: &State, cable_response: ResponseId) -> (r: Option<PlugResponse>)
    ensures
        (match r {
            Some(p) => state@.ephemeral.plug_responses_of_cable.contains_key(cable_response) && p
                == state@.ephemeral.plug_responses_of_cable[cable_response].out_plug,
            None => !state@.ephemeral.plug_responses_of_cable.contains_key(cable_response),
        }),
{
    match state.plug_responses(&cable_response) {
        Some(pair) => Some(pair.out_plug),
        None => None,
    }
}

} // verus!

use vstd::prelude::*;
use crate::id::IdView;
use crate::kv::StoreItem;
use crate::port_id::PortId;

verus! {

/// The mathematical value of an interaction event.
pub enum EventView {
    Connected { port_id: IdView },
    Disconnected,
    Hovered { port_id: IdView },
}

/// What happened to a plug this frame: it was dropped on a port, it was
/// dropped away from every port while bound to one, or it hovers over a
/// port.
#[derive(Clone, Debug, PartialEq, Eq)]
pub enum Event {
    Connected { port_id: PortId },
    Disconnected,
    Hovered { port_id: PortId },
}

impl View for Event {
    type V = EventView;

    open spec fn view(&self) -> EventView {
        match self {
            Event::Connected { port_id } => EventView::Connected { port_id: port_id@ },
            Event::Disconnected => EventView::Disconnected,
            Event::Hovered { port_id } => EventView::Hovered { port_id: port_id@ },
        }
    }
}

impl StoreItem for Event {
    /// A copy of the event, wrapping a copy of the same port identity.
    fn dup(&self) -> (r: Event) {
        match self {
            Event::Connected { port_id } => Event::Connected { port_id: port_id.clone() },
            Event::Disconnected => Event::Disconnected,
            Event::Hovered { port_id } => Event::Hovered { port_id: port_id.clone() },
        }
    }
}

} // verus!

use egui_cable::event::Event;
use egui_cable::geom::{Pos, Vect};
use egui_cable::port_id::PortId;
use egui_cable::response::{in_plug, out_plug, PlugPair, PlugResponse, ResponseId};
use egui_cable::state::State;

fn plug_response(raw: u64) -> PlugResponse {
    PlugResponse {
        id: ResponseId { raw },
        rect_min: Pos { x: raw as i64, y: 0 },
        drag_delta: Vect { x: 0, y: 0 },
    }
}

#[test]
fn cable_plug_responses_read_back() {
    let mut state = State::default();
    let pair = PlugPair { in_plug: plug_response(1), out_plug: plug_response(2) };
    state.record_plug_responses(ResponseId { raw: 100 }, pair);
    assert_eq!(in_plug(&state, ResponseId { raw: 100 }), Some(plug_response(1)));
    assert_eq!(out_plug(&state, ResponseId { raw: 100 }), Some(plug_response(2)));
    assert_eq!(in_plug(&state, ResponseId { raw: 101 }), None);
    assert_eq!(out_plug(&state, ResponseId { raw: 101 }), None);
}

#[test]
fn next_position_applies_drag() {
    let response = PlugResponse {
        id: ResponseId { raw: 1 },
        rect_min: Pos { x: 10, y: 20 },
        drag_delta: Vect { x: 3, y: -4 },
    };
    assert_eq!(response.next_position(), Pos { x: 13, y: 16 });
}

#[test]
fn hovered_event_read_back() {
    let mut state = State::default();
    state.record_plug_event(
        ResponseId { raw: 7 },
        Event::Hovered { port_id: PortId::new(2) },
    );
    let response = plug_response(7);
    assert_eq!(response.hovered_on(&state), Some(PortId::new(2)));
    assert_eq!(response.connected_to(&state), None);
    assert!(!response.disconnected(&state));
}

#[test]
fn events_cleared_by_generation() {
    let mut state = State::default();
    state.record_plug_event(
        ResponseId { raw: 7 },
        Event::Connected { port_id: PortId::new(2) },
    );
    let response = plug_response(7);
    assert_eq!(response.connected_to(&state), Some(PortId::new(2)));
    state.next_generation();
    assert_eq!(response.connected_to(&state), None);
}

#[test]
fn latest_event_wins() {
    let mut state = State::default();
    state.record_plug_event(ResponseId { raw: 7 }, Event::Disconnected);
    state.record_plug_event(
        ResponseId { raw: 7 },
        Event::Connected { port_id: PortId::new(9) },
    );
    let response = plug_response(7);
    assert_eq!(response.connected_to(&state), Some(PortId::new(9)));
    assert!(!response.disconnected(&state));
}

use egui_cable::event::Event;
use egui_cable::geom::{Pos, Vect};
use egui_cable::id::Id;
use egui_cable::plug::{release_event, Plug, PlugId, PlugResponseInput, PlugType};
use egui_cable::port_id::PortId;
use egui_cable::response::ResponseId;
use egui_cable::state::State;

fn wired_plug(plug: Plug) -> Plug {
    plug.id(PlugId::new(Id::new(0), PlugType::In)).default_pos(Pos { x: 0, y: 0 })
}

#[test]
fn release_event_cases() {
    // a hovered port wins, whatever the plug was bound to
    assert_eq!(
        release_event(&None, &Some(PortId::new(3))),
        Some(Event::Connected { port_id: PortId::new(3) })
    );
    assert_eq!(
        release_event(&Some(PortId::new(1)), &Some(PortId::new(3))),
        Some(Event::Connected { port_id: PortId::new(3) })
    );
    // no hovered port: a bound plug disconnects
    assert_eq!(release_event(&Some(PortId::new(1)), &None), Some(Event::Disconnected));
    // no hovered port, no binding: nothing happens
    assert_eq!(release_event(&None, &None), None);
}

#[test]
fn plug_connect_on_release() {
    let mut state = State::default();
    state.update_hovered_port_id(PortId::new(3));
    let plug = wired_plug(Plug::unplugged());
    let pos = plug.resolve_pos(&state);
    plug.integrate(
        &mut state,
        pos,
        PlugResponseInput {
            id: ResponseId { raw: 11 },
            size: Vect { x: 16, y: 16 },
            drag_delta: Vect { x: 0, y: 0 },
            dragged: false,
            drag_released: true,
        },
    );
    let response = egui_cable::response::PlugResponse {
        id: ResponseId { raw: 11 },
        rect_min: pos,
        drag_delta: Vect { x: 0, y: 0 },
    };
    assert_eq!(response.connected_to(&state), Some(PortId::new(3)));
    assert!(!response.disconnected(&state));
}

#[test]
fn plug_disconnect_on_release() {
    let mut state = State::default();
    let plug = wired_plug(Plug::to(4));
    let pos = plug.resolve_pos(&state);
    plug.integrate(
        &mut state,
        pos,
        PlugResponseInput {
            id: ResponseId { raw: 12 },
            size: Vect { x: 16, y: 16 },
            drag_delta: Vect { x: 0, y: 0 },
            dragged: false,
            drag_released: true,
        },
    );
    let response = egui_cable::response::PlugResponse {
        id: ResponseId { raw: 12 },
        rect_min: pos,
        drag_delta: Vect { x: 0, y: 0 },
    };
    assert_eq!(response.connected_to(&state), None);
    assert!(response.disconnected(&state));
}

#[test]
fn plug_no_event_on_release() {
    let mut state = State::default();
    let plug = wired_plug(Plug::unplugged());
    let pos = plug.resolve_pos(&state);
    plug.integrate(
        &mut state,
        pos,
        PlugResponseInput {
            id: ResponseId { raw: 13 },
            size: Vect { x: 16, y: 16 },
            drag_delta: Vect { x: 0, y: 0 },
            dragged: false,
            drag_released: true,
        },
    );
    let response = egui_cable::response::PlugResponse {
        id: ResponseId { raw: 13 },
        rect_min: pos,
        drag_delta: Vect { x: 0, y: 0 },
    };
    assert_eq!(response.connected_to(&state), None);
    assert!(!response.disconnected(&state));
}

#[test]
fn plug_follows_port() {
    let mut state = State::default();
    state.update_port_pos(PortId::new(4), Pos { x: 40, y: 40 });
    let plug = wired_plug(Plug::to(4));
    assert_eq!(plug.resolve_pos(&state), Pos { x: 40, y: 40 });
    // the port not being on screen falls back to the default anchor
    let free = wired_plug(Plug::to(5));
    assert_eq!(free.resolve_pos(&state), Pos { x: 0, y: 0 });
}

#[test]
fn plug_keeps_drag_offset() {
    let mut state = State::default();
    let plug = wired_plug(Plug::unplugged());
    let pos = plug.resolve_pos(&state);
    assert_eq!(pos, Pos { x: 0, y: 0 });
    let next = plug.integrate(
        &mut state,
        pos,
        PlugResponseInput {
            id: ResponseId { raw: 14 },
            size: Vect { x: 16, y: 16 },
            drag_delta: Vect { x: 5, y: 7 },
            dragged: true,
            drag_released: false,
        },
    );
    assert_eq!(next, Pos { x: 5, y: 7 });
    // next frame the plug sits at its stored offset
    let plug = wired_plug(Plug::unplugged());
    assert_eq!(plug.resolve_pos(&state), Pos { x: 5, y: 7 });
}

#[test]
fn plug_explicit_pos_wins() {
    let state = State::default();
    let plug = wired_plug(Plug::unplugged().pos(Pos { x: 77, y: 78 }));
    assert_eq!(plug.resolve_pos(&state), Pos { x: 77, y: 78 });
}

#[test]
fn dragged_plug_published() {
    let mut state = State::default();
    let plug = wired_plug(Plug::unplugged());
    let pos = plug.resolve_pos(&state);
    plug.integrate(
        &mut state,
        pos,
        PlugResponseInput {
            id: ResponseId { raw: 15 },
            size: Vect { x: 16, y: 16 },
            drag_delta: Vect { x: 0, y: 0 },
            dragged: true,
            drag_released: false,
        },
    );
    let d = state.dragged_plug().unwrap();
    assert_eq!(d.pos, Pos { x: 8, y: 8 });
    assert_eq!(d.size, Vect { x: 16, y: 16 });
}

#[test]
fn default_pos_no_overwrite() {
    let plug = Plug::unplugged()
        .default_pos(Pos { x: 1, y: 1 })
        .default_pos_no_overwrite(Pos { x: 9, y: 9 });
    assert_eq!(plug.default_pos, Some(Pos { x: 1, y: 1 }));
    let fresh = Plug::unplugged().default_pos_no_overwrite(Pos { x: 9, y: 9 });
    assert_eq!(fresh.default_pos, Some(Pos { x: 9, y: 9 }));
}

#[test]
fn plug_params_flags() {
    let bound = wired_plug(Plug::to(4)).cable_active(false);
    let p = bound.params();
    assert!(!p.active);
    assert!(p.plugged);
    let free = wired_plug(Plug::unplugged());
    let p = free.params();
    assert!(p.active);
    assert!(!p.plugged);
    let active_bound = wired_plug(Plug::to(4)).cable_active(true);
    assert!(active_bound.params().active);
}

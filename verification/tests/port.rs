use egui_cable::geom::{Pos, Vect};
use egui_cable::plug::DraggedPlug;
use egui_cable::port::{port_plug_close, Port};
use egui_cable::port_id::PortId;
use egui_cable::state::State;

#[test]
fn port_records_position() {
    let mut state = State::default();
    let port = Port::new(1);
    let hovered = port.integrate(&mut state, Pos { x: 30, y: 40 }, Vect { x: 16, y: 16 }, false);
    assert!(!hovered);
    assert_eq!(state.port_pos(&PortId::new(1)), Some(Pos { x: 30, y: 40 }));
    assert_eq!(state.hovered_port_id(), None);
}

#[test]
fn port_double_render_rolls_generation() {
    let mut state = State::default();
    // a key written before the renders marks the generation
    state.update_port_pos(PortId::new(9), Pos { x: 5, y: 5 });
    // three distinct ports once each: no rollover
    Port::new(1).integrate(&mut state, Pos { x: 0, y: 0 }, Vect { x: 16, y: 16 }, false);
    Port::new(2).integrate(&mut state, Pos { x: 20, y: 0 }, Vect { x: 16, y: 16 }, false);
    Port::new(3).integrate(&mut state, Pos { x: 40, y: 0 }, Vect { x: 16, y: 16 }, false);
    assert_eq!(state.port_pos(&PortId::new(9)), Some(Pos { x: 5, y: 5 }));
    // the same port a second time: one rollover, the marker survives once
    Port::new(1).integrate(&mut state, Pos { x: 0, y: 10 }, Vect { x: 16, y: 16 }, false);
    assert_eq!(state.port_pos(&PortId::new(9)), Some(Pos { x: 5, y: 5 }));
    assert_eq!(state.port_pos(&PortId::new(1)), Some(Pos { x: 0, y: 10 }));
    // and a third time: a second rollover, the marker expires
    Port::new(1).integrate(&mut state, Pos { x: 0, y: 20 }, Vect { x: 16, y: 16 }, false);
    assert_eq!(state.port_pos(&PortId::new(9)), None);
    assert_eq!(state.port_pos(&PortId::new(1)), Some(Pos { x: 0, y: 20 }));
}

#[test]
fn port_hover_by_pointer() {
    let mut state = State::default();
    let hovered = Port::new(1).integrate(
        &mut state,
        Pos { x: 0, y: 0 },
        Vect { x: 16, y: 16 },
        true,
    );
    assert!(hovered);
    assert_eq!(state.hovered_port_id(), Some(PortId::new(1)));
}

#[test]
fn port_hover_by_dragged_plug() {
    let mut state = State::default();
    state.update_dragged_plug(DraggedPlug {
        pos: Pos { x: 10, y: 10 },
        size: Vect { x: 16, y: 16 },
    });
    // port center lands at (8, 8): distance^2 = 8, threshold = 16^2 = 256
    let hovered = Port::new(1).integrate(
        &mut state,
        Pos { x: 0, y: 0 },
        Vect { x: 16, y: 16 },
        false,
    );
    assert!(hovered);
    assert_eq!(state.hovered_port_id(), Some(PortId::new(1)));
}

#[test]
fn port_not_hovered_by_far_plug() {
    let mut state = State::default();
    state.update_dragged_plug(DraggedPlug {
        pos: Pos { x: 500, y: 500 },
        size: Vect { x: 16, y: 16 },
    });
    let hovered = Port::new(1).integrate(
        &mut state,
        Pos { x: 0, y: 0 },
        Vect { x: 16, y: 16 },
        false,
    );
    assert!(!hovered);
    assert_eq!(state.hovered_port_id(), None);
}

#[test]
fn port_plug_close_boundary() {
    let center = Pos { x: 0, y: 0 };
    let size = Vect { x: 16, y: 16 };
    let plug_size = Vect { x: 16, y: 16 };
    // threshold is (16 + 16) / 2 = 16 pixels between centers, exactly 16 is not close
    assert!(port_plug_close(center, size, Pos { x: 15, y: 0 }, plug_size));
    assert!(!port_plug_close(center, size, Pos { x: 16, y: 0 }, plug_size));
}

#[test]
fn port_params_reports_hover() {
    let mut state = State::default();
    let port = Port::new(1);
    assert!(!port.params(&state).hovered);
    state.update_hovered_port_id(PortId::new(1));
    assert!(port.params(&state).hovered);
    assert!(!Port::new(2).params(&state).hovered);
}

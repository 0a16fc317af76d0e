use egui_cable::geom::Pos;
use egui_cable::plug::DraggedPlug;
use egui_cable::geom::Vect;
use egui_cable::port_id::PortId;
use egui_cable::state::State;

#[test]
fn port_pos() {
    let mut state = State::default();
    // first gen
    state.advance_generation_if_twice(PortId::new(1));
    state.update_port_pos(PortId::new(1), Pos { x: 0, y: 0 });
    state.advance_generation_if_twice(PortId::new(2));
    state.update_port_pos(PortId::new(2), Pos { x: 0, y: 0 });
    state.advance_generation_if_twice(PortId::new(3));
    state.update_port_pos(PortId::new(3), Pos { x: 0, y: 0 });
    // second gen
    state.advance_generation_if_twice(PortId::new(1));
    state.update_port_pos(PortId::new(1), Pos { x: 0, y: 0 });
    state.advance_generation_if_twice(PortId::new(2));
    state.update_port_pos(PortId::new(2), Pos { x: 0, y: 0 });

    // assert not advanced for third gen
    assert_eq!(state.port_pos(&PortId::new(3)), Some(Pos { x: 0, y: 0 }));

    // third gen
    state.advance_generation_if_twice(PortId::new(1));
    state.update_port_pos(PortId::new(1), Pos { x: 0, y: 0 });

    assert_eq!(state.port_pos(&PortId::new(1)), Some(Pos { x: 0, y: 0 }));
    assert_eq!(state.port_pos(&PortId::new(2)), Some(Pos { x: 0, y: 0 }));
    assert_eq!(state.port_pos(&PortId::new(3)), None);
}

#[test]
fn update_hovered_port_id() {
    let mut state = State::default();
    state.update_hovered_port_id(PortId::new(1));
    assert_eq!(state.hovered_port_id(), Some(PortId::new(1)));

    state.next_generation();
    assert_eq!(state.hovered_port_id(), Some(PortId::new(1)));

    state.next_generation();
    assert_eq!(state.hovered_port_id(), None);
}

#[test]
fn generation_rollover() {
    let mut state = State::default();
    // generation 1: three keys
    state.advance_generation_if_twice(PortId::new(1));
    state.update_port_pos(PortId::new(1), Pos { x: 1, y: 2 });
    state.advance_generation_if_twice(PortId::new(2));
    state.update_port_pos(PortId::new(2), Pos { x: 2, y: 2 });
    state.advance_generation_if_twice(PortId::new(3));
    state.update_port_pos(PortId::new(3), Pos { x: 3, y: 2 });
    // generation 2: keys 1 and 2 rewritten
    state.advance_generation_if_twice(PortId::new(1));
    state.update_port_pos(PortId::new(1), Pos { x: 1, y: 3 });
    state.advance_generation_if_twice(PortId::new(2));
    state.update_port_pos(PortId::new(2), Pos { x: 2, y: 3 });
    // generation 3: only key 1 rewritten
    state.advance_generation_if_twice(PortId::new(1));
    state.update_port_pos(PortId::new(1), Pos { x: 1, y: 4 });

    assert_eq!(state.port_pos(&PortId::new(1)), Some(Pos { x: 1, y: 4 }));
    assert_eq!(state.port_pos(&PortId::new(2)), Some(Pos { x: 2, y: 3 }));
    assert_eq!(state.port_pos(&PortId::new(3)), None);
}

#[test]
fn current_generation_wins() {
    let mut state = State::default();
    state.update_port_pos(PortId::new(1), Pos { x: 5, y: 5 });
    state.next_generation();
    // readable from the previous generation
    assert_eq!(state.port_pos(&PortId::new(1)), Some(Pos { x: 5, y: 5 }));
    // a rewrite in the current generation supersedes it
    state.update_port_pos(PortId::new(1), Pos { x: 9, y: 9 });
    assert_eq!(state.port_pos(&PortId::new(1)), Some(Pos { x: 9, y: 9 }));
}

#[test]
fn dragged_plug_singleton() {
    let mut state = State::default();
    assert_eq!(state.dragged_plug(), None);
    let d = DraggedPlug { pos: Pos { x: 8, y: 8 }, size: Vect { x: 16, y: 16 } };
    state.update_dragged_plug(d);
    assert_eq!(state.dragged_plug(), Some(d));
    state.next_generation();
    assert_eq!(state.dragged_plug(), Some(d));
    state.next_generation();
    assert_eq!(state.dragged_plug(), None);
}

use egui_cable::cable::{
    cable_geometry, Cable, CableResponseInput, CableState,
};
use egui_cable::cable_params::BezierPoints;
use egui_cable::default_cable::{control_shown, path_shape, CablePath};
use egui_cable::geom::{Pos, Vect};
use egui_cable::id::Id;
use egui_cable::plug::Plug;
use egui_cable::state::State;

fn no_input() -> CableResponseInput {
    CableResponseInput {
        drag_started: false,
        drag_released: false,
        dragged: false,
        clicked: false,
        clicked_elsewhere: false,
        pointer: None,
        press_origin: None,
        in_dragged: false,
        out_dragged: false,
    }
}

#[test]
fn geometry_values() {
    let g = cable_geometry(Pos { x: 0, y: 0 }, Pos { x: 100, y: 0 }, Vect { x: 20, y: 25 });
    assert_eq!(g.midpoint, Pos { x: 50, y: 0 });
    assert_eq!(g.control_pos, Pos { x: 70, y: 25 });
    // curve point at the middle parameter: (0 + 2 * 70 + 100) / 4 = 60
    assert_eq!(g.control_anchor, Pos { x: 60, y: 12 });
}

#[test]
fn self_loop_paints_circle() {
    let p = Pos { x: 30, y: 30 };
    let anchor = Pos { x: 50, y: 30 };
    let shape = path_shape(BezierPoints { from: p, control: Pos { x: 40, y: 10 }, to: p }, anchor);
    assert_eq!(shape, CablePath::Circle { center: Pos { x: 40, y: 30 }, radius: 10 });
}

#[test]
fn ordinary_cable_paints_bezier() {
    let from = Pos { x: 0, y: 0 };
    let control = Pos { x: 10, y: 20 };
    let to = Pos { x: 20, y: 0 };
    let shape = path_shape(BezierPoints { from, control, to }, Pos { x: 10, y: 10 });
    assert_eq!(shape, CablePath::Bezier { from, control, to });
}

#[test]
fn cable_default_state() {
    let st = CableState::default();
    assert_eq!(st.bezier_control_point_offset, Vect { x: 20, y: 25 });
    assert!(!st.dragged);
    assert!(!st.active);
    assert_eq!(st.in_vec, None);
    assert_eq!(st.out_vec, None);
}

#[test]
fn click_toggles_active() {
    let g = cable_geometry(Pos { x: 0, y: 0 }, Pos { x: 100, y: 0 }, Vect { x: 20, y: 25 });
    let st = CableState::default();
    let clicked = st.integrate(&g, CableResponseInput { clicked: true, ..no_input() });
    assert!(clicked.active);
    let elsewhere = clicked.integrate(
        &g,
        CableResponseInput { clicked_elsewhere: true, ..no_input() },
    );
    assert!(!elsewhere.active);
}

#[test]
fn drag_capture_and_deform() {
    let g = cable_geometry(Pos { x: 0, y: 0 }, Pos { x: 100, y: 0 }, Vect { x: 20, y: 25 });
    let st = CableState::default();
    // drag starts: the offset from the press to the handle is captured
    let st = st.integrate(
        &g,
        CableResponseInput {
            drag_started: true,
            press_origin: Some(Pos { x: 55, y: 5 }),
            ..no_input()
        },
    );
    assert!(st.dragged);
    assert_eq!(st.drag_offset, Vect { x: 5, y: 7 });
    // dragging to a pointer position moves the stored control offset by
    // pointer + captured offset - handle position
    let st = st.integrate(
        &g,
        CableResponseInput {
            dragged: true,
            pointer: Some(Pos { x: 65, y: 15 }),
            ..no_input()
        },
    );
    assert_eq!(st.bezier_control_point_offset, Vect { x: 30, y: 35 });
    // release ends the drag
    let st = st.integrate(&g, CableResponseInput { drag_released: true, ..no_input() });
    assert!(!st.dragged);
}

#[test]
fn leaving_directions_recorded() {
    let g = cable_geometry(Pos { x: 0, y: 0 }, Pos { x: 100, y: 0 }, Vect { x: 0, y: 0 });
    let st = CableState::default().integrate(
        &g,
        CableResponseInput { in_dragged: true, out_dragged: true, ..no_input() },
    );
    // control point sits at (50, 0): the curve leaves both plugs along the x axis
    assert_eq!(st.in_vec, Some(Vect { x: -5, y: 0 }));
    assert_eq!(st.out_vec, Some(Vect { x: 5, y: 0 }));
}

#[test]
fn frame_params_flags() {
    let id = Id::new(0);
    let st = CableState::default();
    // geometry chosen so the curve is the quarter circle used by the
    // proximity tests: in (0,0), control (0,20), out (20,20)
    let g = cable_geometry(Pos { x: 0, y: 0 }, Pos { x: 20, y: 20 }, Vect { x: -10, y: 10 });
    assert_eq!(g.control_pos, Pos { x: 0, y: 20 });
    let near = Cable::frame_params(&id, &st, &g, Some(Pos { x: 10, y: 18 }), false, false, false, false);
    assert!(near.line_hovered);
    assert!(!near.plugs_interacted);
    let far = Cable::frame_params(&id, &st, &g, Some(Pos { x: 10, y: -500 }), false, false, false, false);
    assert!(!far.line_hovered);
    let no_pointer = Cable::frame_params(&id, &st, &g, None, false, false, false, false);
    assert!(!no_pointer.line_hovered);
    let interacted = Cable::frame_params(&id, &st, &g, None, false, true, false, false);
    assert!(interacted.plugs_interacted);
}

#[test]
fn control_shown_rule() {
    assert!(control_shown(true, false));
    assert!(!control_shown(true, true));
    assert!(!control_shown(false, false));
    assert!(!control_shown(false, true));
}

#[test]
fn prepare_wires_plugs() {
    let cable = Cable::new(0, Plug::unplugged(), Plug::to(4));
    let st = CableState { active: true, ..CableState::default() };
    let (id, in_plug, out_plug) = cable.prepare(Pos { x: 100, y: 200 }, &st);
    assert_eq!(id, Id::new(0));
    assert_eq!(in_plug.default_pos, Some(Pos { x: 110, y: 200 }));
    assert_eq!(out_plug.default_pos, Some(Pos { x: 150, y: 200 }));
    assert!(in_plug.cable_active);
    assert!(out_plug.cable_active);
    assert!(in_plug.id.is_some());
    assert!(out_plug.id.is_some());
    assert_eq!(out_plug.plug_to.clone().unwrap().downcast_ref::<i32>(), Some(&4));
}

#[test]
fn cable_state_survives_one_generation() {
    let mut state = State::default();
    let st = CableState { active: true, ..CableState::default() };
    state.update_cable_state(Id::new(0), st);
    state.next_generation();
    assert_eq!(state.cable_state(&Id::new(0)), Some(st));
    state.next_generation();
    assert_eq!(state.cable_state(&Id::new(0)), None);
}

use egui_cable::default_plug::{plug_drag_sense, plug_visuals};
use egui_cable::default_port::port_visuals;
use egui_cable::utils::{cable_visuals, widget_visuals, VisualKind};

#[test]
fn widget_visuals_precedence() {
    assert_eq!(widget_visuals(true, true), VisualKind::Hovered);
    assert_eq!(widget_visuals(true, false), VisualKind::Hovered);
    assert_eq!(widget_visuals(false, true), VisualKind::Active);
    assert_eq!(widget_visuals(false, false), VisualKind::Inactive);
}

#[test]
fn active_cable_visual_wins() {
    assert_eq!(cable_visuals(true, true, true), VisualKind::Active);
    assert_eq!(cable_visuals(true, false, false), VisualKind::Active);
    assert_eq!(cable_visuals(false, true, false), VisualKind::Hovered);
    assert_eq!(cable_visuals(false, false, false), VisualKind::Inactive);
}

#[test]
fn plug_drag_sense_rule() {
    assert!(plug_drag_sense(true, true, false));
    assert!(plug_drag_sense(false, false, false));
    assert!(!plug_drag_sense(false, true, false));
    assert!(!plug_drag_sense(true, true, true));
    assert!(!plug_drag_sense(true, false, true));
}

#[test]
fn locked_plug_visual() {
    assert_eq!(plug_visuals(true, true, true), VisualKind::Noninteractive);
    assert_eq!(plug_visuals(false, true, false), VisualKind::Hovered);
}

#[test]
fn hovered_port_visual() {
    assert_eq!(port_visuals(true, false, false), VisualKind::Hovered);
    assert_eq!(port_visuals(false, false, true), VisualKind::Active);
    assert_eq!(port_visuals(false, false, false), VisualKind::Inactive);
}

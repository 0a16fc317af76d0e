use vstd::prelude::*;
use crate::utils::{spec_widget_visuals, widget_visuals, VisualKind};

verus! {

/// The default look of a plug: a dot that grows while its cable is
/// active, with an arrow showing the cable's leaving direction while
/// dragged. Painting itself is the host toolkit's business.
#[derive(Debug)]
pub struct DefaultPlug;

/// Whether the default plug look takes drag input: an active or free
/// plug does, unless it is locked.
pub fn plug_drag_sense(active: bool, plugged: bool, locked: bool) -> (r: bool)
    ensures
        r == ((active || !plugged) && !locked),
{
    (active || !plugged) && !locked
}

/// The visual the default plug look paints: a locked plug always paints
/// as taking no input.
pub fn plug_visuals(locked: bool, hovered: bool, dragged: bool) -> (r: VisualKind)
    ensures
        r == (if locked {
            VisualKind::Noninteractive
        } else {
            spec_widget_visuals(hovered, dragged)
        }),
{
    if locked {
        VisualKind::Noninteractive
    } else {
        widget_visuals(hovered, dragged)
    }
}

} // verus!

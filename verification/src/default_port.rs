use vstd::prelude::*;
use crate::utils::{spec_widget_visuals, widget_visuals, VisualKind};

verus! {

/// The default look of a port: a circle filling its region. Painting
/// itself is the host toolkit's business.
#[derive(Debug)]
pub struct DefaultPort;

/// The visual the default port look paints: a port the store reports as
/// hovered paints the hovered variant even when the pointer's direct
/// hover goes to the dragged plug above it.
pub fn port_visuals(params_hovered: bool, hovered: bool, dragged: bool) -> (r: VisualKind)
    ensures
        r == (if params_hovered {
            VisualKind::Hovered
        } else {
            spec_widget_visuals(hovered, dragged)
        }),
{
    if params_hovered {
        VisualKind::Hovered
    } else {
        widget_visuals(hovered, dragged)
    }
}

} // verus!

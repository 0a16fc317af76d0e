use vstd::prelude::*;

verus! {

/// The visual variants a widget picks from. They are mutually exclusive:
/// each render paints exactly one of them.
#[derive(Debug, Copy, Clone, PartialEq, Eq, Structural)]
pub enum VisualKind {
    /// The pointer hovers the widget.
    Hovered,
    /// The widget is being interacted with, or is selected.
    Active,
    /// Nothing special happens to the widget.
    Inactive,
    /// The widget takes no input.
    Noninteractive,
}

/// The visual an ordinary widget paints: hover wins over drag, drag over
/// rest.
pub open spec fn spec_widget_visuals(hovered: bool, dragged: bool) -> VisualKind {
    if hovered {
        VisualKind::Hovered
    } else if dragged {
        VisualKind::Active
    } else {
        VisualKind::Inactive
    }
}

pub fn widget_visuals(hovered: bool, dragged: bool) -> (r: VisualKind)
    ensures
        r == spec_widget_visuals(hovered, dragged),
{
    if hovered {
        VisualKind::Hovered
    } else if dragged {
        VisualKind::Active
    } else {
        VisualKind::Inactive
    }
}

/// The visual the cable's curve paints: an active cable always paints the
/// active variant — activity takes precedence over hover and drag
/// styling.
pub fn cable_visuals(active: bool, hovered: bool, dragged: bool) -> (r: VisualKind)
    ensures
        r == (if active {
            VisualKind::Active
        } else {
            spec_widget_visuals(hovered, dragged)
        }),
{
    if active {
        VisualKind::Active
    } else {
        widget_visuals(hovered, dragged)
    }
}

} // verus!

use vstd::prelude::*;
use crate::geom::Vect;

verus! {

/// What the plug's renderer draws from.
#[derive(Debug, Copy, Clone, PartialEq, Eq, Structural)]
pub struct PlugParams {
    /// The direction the cable leaves the plug in, shown as an arrow
    /// while the plug is dragged.
    pub vector: Option<Vect>,
    /// The plug takes drag input: its cable is active, or it is bound to
    /// no port.
    pub active: bool,
    /// The plug is bound to a port.
    pub plugged: bool,
    /// The plug is locked and takes no input.
    pub locked: bool,
}

} // verus!

use vstd::prelude::*;

verus! {

/// What the port's renderer draws from: whether this port is the hovered
/// one.
#[derive(Debug, Copy, Clone, PartialEq, Eq, Structural)]
pub struct PortParams {
    pub hovered: bool,
}

} // verus!

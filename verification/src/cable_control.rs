use vstd::prelude::*;
use crate::cable::CableId;
use crate::geom::{Pos, Vect};
use crate::state::State;

verus! {

/// The cable's reshape handle: a small hit region at the curve's middle,
/// dragged to deform the curve and clicked to toggle the cable's active
/// state.
#[derive(Debug)]
pub struct CableControl {
    pub id: CableId,
    pub pos: Pos,
}

impl CableControl {
    /// Where the handle's region starts: its center sits on the curve's
    /// middle, so the region is pulled back by half its stored size. The
    /// size is only known once the handle rendered before; until it did,
    /// the handle is not shown.
    pub fn anchor(&self, state: &State) -> (r: Option<Pos>)
        ensures
            (match state@.cable_control_size_of(self.id@) {
                Some(size) => r == Some(
                    self.pos.spec_offset_by(
                        (Vect { x: 0, y: 0 }).spec_minus(size.spec_half()),
                    ),
                ),
                None => r is None,
            }),
    {
        match state.cable_control_size(&self.id) {
            Some(size) => {
                let back = (Vect { x: 0, y: 0 }).minus(size.half());
                Some(self.pos.offset_by(back))
            },
            None => None,
        }
    }

    /// Records the handle's rendered size, for placing it next frame.
    pub fn record_size(&self, state: &mut State, size: Vect)
        ensures
            final(state)@ == old(state)@.with_cable_control_size(self.id@, size),
    {
        state.update_cable_control_size(self.id.clone(), size);
    }
}

} // verus!

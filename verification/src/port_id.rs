use vstd::prelude::*;
use crate::id::{Id, IdKey, IdView};

verus! {

/// An identity specialized to name a port: same equality, hash and
/// downcast behaviour as [`Id`], but a type of its own, so port names and
/// cable names cannot be mixed up.
#[derive(Debug, Hash)]
pub struct PortId {
    id: Id,
}

impl View for PortId {
    type V = IdView;

    closed spec fn view(&self) -> IdView {
        self.id@
    }
}

impl PortId {
    /// Wraps a key value into a port identity.
    pub fn new<T: IdKey>(id: T) -> (r: PortId)
        ensures
            r@ == id.key_view(),
    {
        PortId { id: Id::new(id) }
    }

    /// The wrapped value, typed as `T`; `None` if the port identity wraps
    /// a value of a different key type.
    pub fn downcast_ref<T: IdKey>(&self) -> (r: Option<&T>)
        ensures
            (match r {
                Some(t) => t.key_view() == self@ && T::kind_matches(self@),
                None => !T::kind_matches(self@),
            }),
    {
        self.id.downcast_ref()
    }

    /// The wrapped value, typed as `T`; the port identity must wrap a
    /// value of that key type.
    pub fn as_ref<T: IdKey>(&self) -> (r: &T)
        requires
            T::kind_matches(self@),
        ensures
            r.key_view() == self@,
    {
        self.id.as_ref()
    }
}

impl Clone for PortId {
    fn clone(&self) -> (r: Self)
        ensures
            r@ == self@,
    {
        PortId { id: self.id.clone() }
    }
}

impl PartialEq for PortId {
    fn eq(&self, other: &Self) -> (r: bool) {
        self.id == other.id
    }
}

impl vstd::std_specs::cmp::PartialEqSpecImpl for PortId {
    open spec fn obeys_eq_spec() -> bool {
        true
    }

    open spec fn eq_spec(&self, other: &PortId) -> bool {
        self@ == other@
    }
}

impl Eq for PortId {}

impl crate::kv::StoreItem for PortId {
    fn dup(&self) -> (r: Self) {
        self.clone()
    }
}

impl crate::kv::StoreKey for PortId {
    fn key_eq(&self, other: &Self) -> (r: bool) {
        self == other
    }
}

} // verus!

use std::collections::HashSet;

use egui_cable::port_id::PortId;

#[test]
fn port_id_as_ref() {
    let id = PortId::new(42 as usize);
    let r: &usize = id.as_ref();
    assert_eq!(r, &42);
}

#[test]
fn port_id_partial_eq() {
    let id1 = PortId::new(42 as usize);
    let id2 = PortId::new(42 as usize);
    let id3 = PortId::new(43 as usize);
    let id4 = PortId::new(42 as u8);
    assert_eq!(id1, id2);
    assert_ne!(id1, id3);
    assert_ne!(id1, id4);
}

#[test]
fn port_id_hash() {
    let id1 = PortId::new(42 as usize);
    let id2 = PortId::new(42 as usize);
    let id3 = PortId::new(43 as usize);
    let id4 = PortId::new(42 as u8);
    let mut set = HashSet::new();
    set.insert(id1);
    set.insert(id2);
    assert_eq!(set.len(), 1);
    set.insert(id3);
    assert_eq!(set.len(), 2);
    set.insert(id4);
    assert_eq!(set.len(), 3);
}

use std::collections::HashSet;

use egui_cable::id::Id;

#[test]
fn id_as_ref() {
    let id = Id::new(42_usize);
    let r: &usize = id.as_ref();
    assert_eq!(r, &42);
}

#[test]
fn id_partial_eq() {
    let id1 = Id::new(42_usize);
    let id2 = Id::new(42_usize);
    let id3 = Id::new(43_usize);
    let id4 = Id::new(42_u8);
    assert_eq!(id1, id2);
    assert_ne!(id1, id3);
    assert_ne!(id1, id4);
}

#[test]
fn id_hash() {
    let id1 = Id::new(42_usize);
    let id2 = Id::new(42_usize);
    let id3 = Id::new(43_usize);
    let id4 = Id::new(42_u8);
    let mut set = HashSet::new();
    set.insert(id1);
    set.insert(id2);
    assert_eq!(set.len(), 1);
    set.insert(id3);
    assert_eq!(set.len(), 2);
    set.insert(id4);
    assert_eq!(set.len(), 3);
}

#[test]
fn id_downcast() {
    let id = Id::new(7_u64);
    assert_eq!(id.downcast_ref::<u64>(), Some(&7));
    assert_eq!(id.downcast_ref::<usize>(), None);
    let text = Id::new(String::from("alpha"));
    assert_eq!(text.downcast_ref::<String>(), Some(&String::from("alpha")));
    assert_eq!(text.downcast_ref::<u8>(), None);
}

#[test]
fn id_text_equality() {
    let a = Id::new(String::from("42"));
    let b = Id::new(String::from("42"));
    let c = Id::new(42_usize);
    assert_eq!(a, b.clone());
    assert_ne!(a, c);
    assert_ne!(b, c);
}

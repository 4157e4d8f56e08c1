use raytrace::scene::SurfaceList;
use std::rc::Rc;

#[test]
fn new_list_is_empty() {
    let list: SurfaceList<u32> = SurfaceList::new();
    assert_eq!(list.len(), 0);
}

#[test]
fn add_keeps_insertion_order() {
    let mut list = SurfaceList::new();
    list.add(Rc::new("ground"));
    list.add(Rc::new("center"));
    list.add(Rc::new("left"));
    assert_eq!(list.len(), 3);
    let names: Vec<&str> = list.surface_list.iter().map(|s| **s).collect();
    assert_eq!(names, vec!["ground", "center", "left"]);
}

#[test]
fn shared_surface_is_not_copied() {
    let shared = Rc::new(5u8);
    let mut a = SurfaceList::new();
    let mut b = SurfaceList::new();
    a.add(shared.clone());
    b.add(shared.clone());
    assert!(Rc::ptr_eq(&a.surface_list[0], &b.surface_list[0]));
    assert_eq!(Rc::strong_count(&shared), 3);
}

#[test]
fn clear_removes_everything() {
    let mut list = SurfaceList::new();
    list.add(Rc::new(1));
    list.add(Rc::new(2));
    list.clear();
    assert_eq!(list.len(), 0);
    list.add(Rc::new(3));
    assert_eq!(list.len(), 1);
}

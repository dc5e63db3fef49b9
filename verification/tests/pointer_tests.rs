use rc_bench::custom_rc::{CustomRc, RcHeap};
use rc_bench::entity::Entity;

fn entity(id: usize, x: i64, y: i64) -> Entity {
    Entity { id, x, y }
}

#[test]
fn construct_starts_at_count_one() {
    let mut heap: RcHeap<Entity> = RcHeap::new();
    let h = CustomRc::new(&mut heap, entity(0, 1, 2));
    let idx = h.block_index();
    assert!(heap.is_allocated(idx));
    assert_eq!(heap.count_at(idx), 1);
    h.drop_rc(&mut heap);
}

#[test]
fn count_conservation_over_clones_and_destroys() {
    // After 1 construction, 3 clones and 2 destroys the live-handle
    // count is 1 + 3 - 2 = 2.
    let mut heap: RcHeap<Entity> = RcHeap::new();
    let h = CustomRc::new(&mut heap, entity(7, 0, 0));
    let idx = h.block_index();
    let c1 = h.clone_rc(&mut heap);
    let c2 = h.clone_rc(&mut heap);
    let c3 = c1.clone_rc(&mut heap);
    assert_eq!(heap.count_at(idx), 4);
    c1.drop_rc(&mut heap);
    c2.drop_rc(&mut heap);
    assert_eq!(heap.count_at(idx), 2);
    h.drop_rc(&mut heap);
    c3.drop_rc(&mut heap);
}

#[test]
fn single_deallocation_on_last_destroy() {
    let mut heap: RcHeap<Entity> = RcHeap::new();
    let h = CustomRc::new(&mut heap, entity(0, 5, 6));
    let idx = h.block_index();
    let c = h.clone_rc(&mut heap);
    h.drop_rc(&mut heap);
    // A sibling still lives: the block must not be released yet.
    assert!(heap.is_allocated(idx));
    assert_eq!(heap.count_at(idx), 1);
    c.drop_rc(&mut heap);
    // The destroy that brought the count from 1 to 0 released it.
    assert!(!heap.is_allocated(idx));
}

#[test]
fn clone_transparency() {
    let mut heap: RcHeap<Entity> = RcHeap::new();
    let h = CustomRc::new(&mut heap, entity(3, 10, 20));
    let c = h.clone_rc(&mut heap);
    assert_eq!(*h.deref(&heap), *c.deref(&heap));
    assert_eq!(c.deref(&heap).id, 3);
    assert_eq!(c.deref(&heap).x, 10);
    assert_eq!(c.deref(&heap).y, 20);
    h.drop_rc(&mut heap);
    c.drop_rc(&mut heap);
}

#[test]
fn no_use_after_free_while_handle_lives() {
    // Destroying every sibling leaves the surviving handle
    // dereferenceable, with the value intact.
    let mut heap: RcHeap<Entity> = RcHeap::new();
    let h = CustomRc::new(&mut heap, entity(1, -4, 9));
    let c1 = h.clone_rc(&mut heap);
    let c2 = h.clone_rc(&mut heap);
    h.drop_rc(&mut heap);
    c1.drop_rc(&mut heap);
    let seen = *c2.deref(&heap);
    assert_eq!(seen.id, 1);
    assert_eq!(seen.x, -4);
    assert_eq!(seen.y, 9);
    c2.drop_rc(&mut heap);
}

#[test]
fn blocks_are_independent() {
    let mut heap: RcHeap<Entity> = RcHeap::new();
    let a = CustomRc::new(&mut heap, entity(0, 1, 1));
    let b = CustomRc::new(&mut heap, entity(1, 2, 2));
    let a_idx = a.block_index();
    let b_idx = b.block_index();
    assert_ne!(a_idx, b_idx);
    a.drop_rc(&mut heap);
    assert!(!heap.is_allocated(a_idx));
    assert!(heap.is_allocated(b_idx));
    assert_eq!(b.deref(&heap).id, 1);
    b.drop_rc(&mut heap);
}

#[test]
fn entity_update_moves_coordinates() {
    let mut e = entity(5, 0, 0);
    e.update();
    assert_eq!(e.id, 5);
    assert_eq!(e.x, 1);
    assert_eq!(e.y, 1);
    e.update();
    assert_eq!(e.x, 2);
    assert_eq!(e.y, 2);
}

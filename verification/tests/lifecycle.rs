use growvec::vec::Vec as GrowVec;
use std::cell::Cell;
use std::rc::Rc;

/// An element type that counts how often it is dropped, shared through a
/// counter cell, so a test can see that teardown reaches each live element
/// exactly once.
struct Counting {
    drops: Rc<Cell<usize>>,
}

impl Drop for Counting {
    fn drop(&mut self) {
        self.drops.set(self.drops.get() + 1);
    }
}

fn counting(drops: &Rc<Cell<usize>>) -> Counting {
    Counting { drops: Rc::clone(drops) }
}

#[test]
fn teardown_drops_each_live_element_exactly_once() {
    let drops: Rc<Cell<usize>> = Rc::new(Cell::new(0));
    let mut v: GrowVec<Counting> = GrowVec::new();
    for _ in 0..5usize {
        v.push(counting(&drops));
    }
    assert_eq!(drops.get(), 0);
    drop(v);
    assert_eq!(drops.get(), 5);
}

#[test]
fn teardown_of_empty_container_drops_nothing() {
    let drops: Rc<Cell<usize>> = Rc::new(Cell::new(0));
    let v: GrowVec<Counting> = GrowVec::new();
    drop(v);
    assert_eq!(drops.get(), 0);
}

#[test]
fn removal_hands_ownership_to_the_caller() {
    let drops: Rc<Cell<usize>> = Rc::new(Cell::new(0));
    let mut v: GrowVec<Counting> = GrowVec::new();
    for _ in 0..3usize {
        v.push(counting(&drops));
    }
    let taken: Counting = v.pop().expect("an element is live");
    // The removed element now belongs to the caller: the container no longer
    // drops it, and dropping it here counts it exactly once.
    assert_eq!(drops.get(), 0);
    drop(taken);
    assert_eq!(drops.get(), 1);
    drop(v);
    assert_eq!(drops.get(), 3);
}

#[test]
fn removed_slots_are_not_dropped_again_at_teardown() {
    let drops: Rc<Cell<usize>> = Rc::new(Cell::new(0));
    let mut v: GrowVec<Counting> = GrowVec::new();
    for _ in 0..4usize {
        v.push(counting(&drops));
    }
    v.pop();
    v.pop();
    assert_eq!(drops.get(), 2);
    // Two live elements are left in four reserved slots; teardown must drop
    // exactly those two, never the vacated slots.
    assert_eq!(v.capacity(), 4);
    drop(v);
    assert_eq!(drops.get(), 4);
}

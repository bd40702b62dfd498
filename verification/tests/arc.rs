use inline_arc::Arc;
use std::cell::Cell;
use std::rc::Rc;

/// A payload that counts how often it is duplicated: every `clone` bumps a
/// counter shared by the original and all its copies.
struct Counted {
    value: i32,
    clones: Rc<Cell<u32>>,
}

impl Counted {
    fn new(value: i32) -> Counted {
        Counted { value, clones: Rc::new(Cell::new(0)) }
    }
}

impl Clone for Counted {
    fn clone(&self) -> Counted {
        self.clones.set(self.clones.get() + 1);
        Counted { value: self.value, clones: Rc::clone(&self.clones) }
    }
}

#[test]
fn can_make_mut() {
    let mut data = Arc::new(5);

    *Arc::make_mut(&mut data) += 1; // Won't clone anything
    let mut other_data = Arc::clone(&mut data); // Won't clone inner data
    *Arc::make_mut(&mut data) += 1; // Clones inner data
    *Arc::make_mut(&mut data) += 1; // Won't clone anything
    *Arc::make_mut(&mut other_data) *= 2; // Won't clone anything

    // Now `data` and `other_data` point to different values.
    assert_eq!(*Arc::get(&data), 8);
    assert_eq!(*Arc::get(&other_data), 12);
}

#[test]
fn fresh_cell_counts() {
    let mut a = Arc::new(41);
    assert_eq!(Arc::strong_count(&a), 1);
    assert_eq!(Arc::weak_count(&a), 0);
    match Arc::get_mut(&mut a) {
        Some(v) => assert_eq!(*v, 41),
        None => panic!("a fresh cell must grant mutable access"),
    }
}

#[test]
fn clone_shares_value_without_duplication() {
    let mut a = Arc::new(Counted::new(9));
    let counter = Rc::clone(&Arc::get(&a).clones);

    let mut b = Arc::clone(&mut a);
    assert_eq!(Arc::get(&a).value, 9);
    assert_eq!(Arc::get(&b).value, 9);
    assert_eq!(Arc::strong_count(&a), 2);
    assert_eq!(Arc::strong_count(&b), 2);
    // Promotion moves the payload; no duplication happens.
    assert_eq!(counter.get(), 0);

    // Further clones only bump the reference count.
    let c = Arc::clone(&mut b);
    assert_eq!(Arc::strong_count(&a), 3);
    assert_eq!(Arc::get(&c).value, 9);
    assert_eq!(counter.get(), 0);
}

#[test]
fn get_mut_unavailable_once_shared() {
    let mut a = Arc::new(7);
    let mut b = Arc::clone(&mut a);
    assert!(Arc::get_mut(&mut a).is_none());
    assert!(Arc::get_mut(&mut b).is_none());
}

#[test]
fn make_mut_duplicates_exactly_once_when_shared() {
    let mut a = Arc::new(Counted::new(3));
    let counter = Rc::clone(&Arc::get(&a).clones);

    // Exclusive: mutable access without duplication.
    Arc::make_mut(&mut a).value += 1;
    assert_eq!(counter.get(), 0);

    // Shared: the first mutable access duplicates the payload once, and the
    // two cells then diverge independently.
    let mut b = Arc::clone(&mut a);
    Arc::make_mut(&mut a).value = 100;
    assert_eq!(counter.get(), 1);
    assert_eq!(Arc::get(&a).value, 100);
    assert_eq!(Arc::get(&b).value, 4);

    // Each cell is now the sole holder of its branch: no more duplication.
    Arc::make_mut(&mut a).value += 1;
    Arc::make_mut(&mut b).value += 1;
    assert_eq!(counter.get(), 1);
    assert_eq!(Arc::get(&a).value, 101);
    assert_eq!(Arc::get(&b).value, 5);
}

#[test]
fn cow_scenario() {
    let mut a = Arc::new(5);

    *Arc::make_mut(&mut a) += 1;
    assert_eq!(*Arc::get(&a), 6);

    let mut b = Arc::clone(&mut a);
    assert_eq!(*Arc::get(&a), 6);
    assert_eq!(*Arc::get(&b), 6);
    assert_eq!(Arc::strong_count(&a), 2);

    *Arc::make_mut(&mut a) += 1;
    assert_eq!(*Arc::get(&a), 7);
    assert_eq!(*Arc::get(&b), 6);

    *Arc::make_mut(&mut a) += 1;
    assert_eq!(*Arc::get(&a), 8);

    *Arc::make_mut(&mut b) *= 2;
    assert_eq!(*Arc::get(&b), 12);
    assert_eq!(*Arc::get(&a), 8);
}

#[test]
fn unwrap_fresh_cell_succeeds() {
    let a = Arc::new(String::from("payload"));
    match Arc::try_unwrap(a) {
        Ok(v) => assert_eq!(v, "payload"),
        Err(_) => panic!("unwrapping a fresh cell must succeed"),
    }
}

#[test]
fn unwrap_contended_fails_and_loses_nothing() {
    let mut a = Arc::new(13);
    let b = Arc::clone(&mut a);
    match Arc::try_unwrap(a) {
        Ok(_) => panic!("unwrapping with a live clone must fail"),
        Err(cell) => {
            assert_eq!(*Arc::get(&cell), 13);
            assert_eq!(Arc::strong_count(&cell), 2);
        },
    }
    assert_eq!(*Arc::get(&b), 13);
}

#[test]
fn unwrap_sole_shared_holder_succeeds() {
    let mut a = Arc::new(21);
    let b = Arc::clone(&mut a);
    drop(b);
    // The clone is gone, so this cell is again the last strong holder.
    match Arc::try_unwrap(a) {
        Ok(v) => assert_eq!(v, 21),
        Err(_) => panic!("unwrapping the last strong holder must succeed"),
    }
}

#[test]
fn downgrade_promotes_and_counts_weak() {
    let mut a = Arc::new(17);
    let w = Arc::downgrade(&mut a);
    assert_eq!(Arc::strong_count(&a), 1);
    assert_eq!(Arc::weak_count(&a), 1);
    assert!(w.upgrade().is_some());
}

#[test]
fn weak_round_trip() {
    let mut a = Arc::new(29);
    let w = Arc::downgrade(&mut a);
    match w.upgrade() {
        Some(cell) => {
            assert_eq!(*Arc::get(&cell), 29);
            assert_eq!(*Arc::get(&a), 29);
        },
        None => panic!("upgrading before any strong holder drops must succeed"),
    }
}

#[test]
fn weak_after_drop_is_unavailable() {
    let mut a = Arc::new(3);
    let w = Arc::downgrade(&mut a);
    drop(a);
    assert!(w.upgrade().is_none());
}

#[test]
fn from_shared_starts_shared() {
    let handle = std::sync::Arc::new(55);
    let mut a: Arc<i32> = Arc::from_shared(handle);
    assert_eq!(*Arc::get(&a), 55);
    // A reconstructed cell is shared, so it never claims uniqueness.
    assert!(Arc::get_mut(&mut a).is_none());
    // It is still the last strong holder, so unwrapping recovers the value.
    match Arc::try_unwrap(a) {
        Ok(v) => assert_eq!(v, 55),
        Err(_) => panic!("the last strong holder must unwrap"),
    }
}

use cellrc::cell::Cell;
use cellrc::cell::RefCell;
use cellrc::cell::UnsafeCell;

#[test]
fn test_cell() {
    let mut t = Cell::new(5);
    t.set(3);
    println!("{}", t.get());
}

#[test]
fn test_ref_cell() {
    let mut s = RefCell::new(String::from("abc"));

    let t = s.borrow_mut().unwrap();
    s.get_mut(&t).push_str("acv");

    s.release_mut(t);

    let g = s.borrow().unwrap();
    assert_eq!(s.get(&g).to_uppercase(), "ABCACV");
    s.release(g);
}

#[test]
fn unsafe_cell_round_trip() {
    let cell = UnsafeCell::new(41);
    assert_eq!(*cell.get(), 41);
    assert_eq!(*UnsafeCell::raw_get(&cell), 41);
    let mut cell = cell;
    *cell.get_mut() = 42;
    assert_eq!(cell.into_inner(), 42);
}

#[test]
fn get_after_set_returns_set_value() {
    let mut c = Cell::new(0);
    c.set(7);
    assert_eq!(c.get(), 7);
    c.set(-3);
    assert_eq!(c.get(), -3);
    c.set(i32::MAX);
    assert_eq!(c.get(), i32::MAX);
}

#[test]
fn replace_returns_previous_value() {
    let mut c = Cell::new(String::from("first"));
    let previous = c.replace(String::from("second"));
    assert_eq!(previous, "first");
    assert_eq!(c.into_inner(), "second");
}

#[test]
fn swap_exchanges_contents() {
    let mut a = Cell::new(1);
    let mut b = Cell::new(2);
    a.swap(&mut b);
    assert_eq!(a.get(), 2);
    assert_eq!(b.get(), 1);
}

#[test]
fn swap_of_equal_values_changes_nothing() {
    let mut a = Cell::new(9);
    let mut b = Cell::new(9);
    a.swap(&mut b);
    assert_eq!(a.get(), 9);
    assert_eq!(b.get(), 9);
}

#[test]
fn update_applies_function_and_stores_result() {
    let mut c = Cell::new(10);
    let new_value = c.update(|x| x + 5);
    assert_eq!(new_value, 15);
    assert_eq!(c.get(), 15);
}

#[test]
fn take_leaves_default_behind() {
    let mut c = Cell::new(27);
    let previous = c.take();
    assert_eq!(previous, 27);
    assert_eq!(c.get(), 0);
}

#[test]
fn clone_copies_current_value() {
    let mut original = Cell::new(6);
    let duplicate = original.clone();
    original.set(1);
    assert_eq!(duplicate.get(), 6);
    assert_eq!(original.get(), 1);
}

#[test]
fn cell_get_mut_writes_through() {
    let mut c = Cell::new(3);
    *c.get_mut() = 8;
    assert_eq!(c.get(), 8);
    assert_eq!(*c.as_ptr(), 8);
}

#[test]
fn borrow_mut_refused_while_shared_guard_live() {
    let mut cell = RefCell::new(1);
    let shared = cell.borrow().unwrap();
    assert!(cell.borrow_mut().is_none());
    cell.release(shared);
    assert!(cell.borrow_mut().is_some());
}

#[test]
fn borrows_refused_while_exclusive_guard_live() {
    let mut cell = RefCell::new(1);
    let exclusive = cell.borrow_mut().unwrap();
    assert!(cell.borrow().is_none());
    assert!(cell.borrow_mut().is_none());
    cell.release_mut(exclusive);
    assert!(cell.borrow().is_some());
}

#[test]
fn shared_guards_stack_and_release_one_by_one() {
    let mut cell = RefCell::new(5);
    let first = cell.borrow().unwrap();
    let second = cell.borrow().unwrap();
    assert_eq!(*cell.get(&first), 5);
    assert_eq!(*cell.get(&second), 5);
    cell.release(first);
    assert!(cell.borrow_mut().is_none());
    cell.release(second);
    let exclusive = cell.borrow_mut().unwrap();
    *cell.get_mut(&exclusive) = 6;
    cell.release_mut(exclusive);
    let reader = cell.borrow().unwrap();
    assert_eq!(*cell.get(&reader), 6);
    cell.release(reader);
}

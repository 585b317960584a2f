use cellrc::arc::Arc;
use cellrc::rc::Rc;

#[test]
fn test_rc() {
    let mut t = Rc::new(String::from("abcd"));
    let b = Rc::clone(&mut t);
    let s = Rc::clone(&mut t);

    assert_eq!(Rc::count(&t), 3);
    assert_eq!(Rc::get(&t).to_uppercase(), "ABCD");
    Rc::drop_handle(&mut t, s);
    Rc::drop_handle(&mut t, b);
    assert_eq!(Rc::count(&t), 1);
}

#[test]
fn rc_new_starts_with_one_handle() {
    let block = Rc::new(11);
    assert_eq!(Rc::count(&block), 1);
    assert_eq!(*Rc::get(&block), 11);
    assert_eq!(Rc::into_inner(block), 11);
}

#[test]
fn rc_value_survives_clone_and_drop() {
    let mut block = Rc::new(String::from("payload"));
    let handle = Rc::clone(&mut block);
    assert_eq!(Rc::count(&block), 2);
    assert_eq!(Rc::get(&block), "payload");
    Rc::drop_handle(&mut block, handle);
    assert_eq!(Rc::count(&block), 1);
    assert_eq!(Rc::into_inner(block), "payload");
}

#[test]
fn arc_balanced_clones_and_drops() {
    let mut block = Arc::new(String::from("shared"));
    let first = Arc::clone(&mut block);
    let second = Arc::clone(&mut block);
    assert_eq!(Arc::get(&block), "shared");
    Arc::drop_handle(&mut block, first);
    Arc::drop_handle(&mut block, second);
    assert_eq!(Arc::into_inner(block), "shared");
}

#[test]
fn arc_value_readable_through_block() {
    let mut block = Arc::new(250);
    let handle = Arc::clone(&mut block);
    assert_eq!(*Arc::get(&block), 250);
    Arc::drop_handle(&mut block, handle);
    assert_eq!(*Arc::get(&block), 250);
}

use cellrc::cell::UnsafeCell;

#[test]
fn it_works() {
    let t = &[1, 2, 3];
    println!("{:#?}", t);
}

#[test]
fn unsafe_cell_new_holds_value() {
    let cell = UnsafeCell::new(String::from("held"));
    assert_eq!(cell.get(), "held");
    assert_eq!(cell.into_inner(), "held");
}

use refcell::cell::Cell;

struct Thingy(i32);

impl Default for Thingy {
    fn default() -> Self {
        Thingy(42)
    }
}

#[test]
fn shared_cell_ref_can_get_copy() {
    let mut cell = Cell::new(42);
    let first: &mut Cell<i32> = &mut cell;
    first.set(52);
    assert_eq!(first.get(), 52);

    let second: &Cell<i32> = &cell;
    assert_eq!(second.get(), 52);
    assert_eq!(cell.get(), 52);
}

#[test]
fn shared_cell_can_take_and_leave_default() {
    let mut cell = Cell::new(Thingy(12));

    let first = &mut cell;
    assert_eq!(first.take().0, 12);
    let second = &mut cell;
    assert_eq!(second.take().0, 42);
    assert_eq!(cell.take().0, 42);
}

#[test]
fn shared_cell_can_replace() {
    let mut cell = Cell::new(42);

    let first = &mut cell;
    assert_eq!(first.replace(43), 42);
    let second = &mut cell;
    assert_eq!(second.replace(44), 43);
    assert_eq!(cell.replace(45), 44);
}

#[test]
fn mutable_cell_ref_can_get_mut() {
    let mut cell = Cell::new(42);

    let p = &mut cell;

    assert_eq!(p.get_mut(), &42);
    assert_eq!(cell.get_mut(), &42);
}

#[test]
fn owned_cell_can_implode_with_into_inner() {
    let cell = Cell::new(42);

    assert_eq!(cell.into_inner(), 42);
}

#[test]
fn replace_leaves_the_new_value_in_the_cell() {
    let mut cell = Cell::new(42);
    assert_eq!(cell.replace(45), 42);
    assert_eq!(cell.get(), 45);
    assert_eq!(cell.into_inner(), 45);
}

#[test]
fn take_leaves_the_default_in_the_cell() {
    let mut cell = Cell::new(12u64);
    assert_eq!(cell.take(), 12);
    assert_eq!(cell.get(), 0);
    assert_eq!(cell.take(), 0);

    let mut thing = Cell::new(Thingy(12));
    assert_eq!(thing.take().0, 12);
    assert_eq!(thing.into_inner().0, 42);
}

#[test]
fn set_overwrites_whatever_was_there() {
    let mut cell = Cell::new(String::from("first"));
    cell.set(String::from("second"));
    assert_eq!(cell.get_mut().as_str(), "second");
    cell.set(String::from("third"));
    assert_eq!(cell.into_inner(), "third");
}

#[test]
fn get_mut_writes_through_to_the_cell() {
    let mut cell = Cell::new(1u32);
    *cell.get_mut() = 2;
    assert_eq!(cell.get(), 2);
    *cell.get_mut() += 40;
    assert_eq!(cell.replace(0), 42);
}

#[test]
fn get_does_not_change_the_cell() {
    let cell = Cell::new((3u8, true));
    assert_eq!(cell.get(), (3, true));
    assert_eq!(cell.get(), (3, true));
}

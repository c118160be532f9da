use windows_helpers::cell::BorrowConflict;
use windows_helpers::cell::ReentrantRefCell;

#[test]
fn construct_then_read() {
    let cell = ReentrantRefCell::new(41u32);
    assert_eq!(cell.borrow(), Ok(&41));
    assert_eq!(cell.depth(), 0);
}

#[test]
fn mutate_returns_result_and_read_reflects() {
    let cell = ReentrantRefCell::new(1u32);
    let (cell, doubled) = cell.borrow_mut_reentrant(|mut c| {
        *c.get_mut() *= 2;
        let result = *c.get_mut();
        (c, result)
    });
    assert_eq!(doubled, 2);
    assert_eq!(cell.borrow(), Ok(&2));
    assert_eq!(cell.depth(), 0);
}

#[test]
fn nested_reentry() {
    let cell = ReentrantRefCell::new(5u32);
    let (cell, seen_by_nested) = cell.borrow_mut_reentrant(|mut c| {
        *c.get_mut() += 1; // now 6
        assert_eq!(c.depth(), 1);
        let (mut c, seen) = c.borrow_mut_reentrant(|mut c2| {
            assert_eq!(c2.depth(), 2);
            let seen = *c2.get_mut(); // observes the outer session's mutation
            *c2.get_mut() += 10;
            (c2, seen)
        });
        assert_eq!(c.depth(), 1);
        *c.get_mut() += 100;
        (c, seen)
    });
    assert_eq!(seen_by_nested, 6);
    assert_eq!(cell.depth(), 0);
    assert_eq!(cell.borrow(), Ok(&116));
}

#[test]
fn depth_restored_on_error() {
    let cell = ReentrantRefCell::new(0u32);
    let (cell, outcome) = cell.borrow_mut_reentrant(|c| {
        let (c, inner): (_, Result<u32, &str>) =
            c.borrow_mut_reentrant(|c2| (c2, Err("callback failure")));
        (c, inner)
    });
    assert_eq!(outcome, Err("callback failure"));
    assert_eq!(cell.depth(), 0);

    // Not permanently locked out: a later session succeeds.
    let (cell, v) = cell.borrow_mut_reentrant(|mut c| {
        *c.get_mut() += 1;
        let v = *c.get_mut();
        (c, v)
    });
    assert_eq!(v, 1);
    assert_eq!(cell.depth(), 0);
}

#[test]
fn conflicting_access_rejected() {
    let cell = ReentrantRefCell::new(7u32);
    let (cell, ()) = cell.borrow_mut_reentrant(|mut c| {
        assert_eq!(c.borrow().err(), Some(BorrowConflict));
        assert!(c.borrow_mut().is_err());
        (c, ())
    });
    assert_eq!(cell.borrow(), Ok(&7));
}

#[test]
fn nested_mutation_scenario() {
    let cell = ReentrantRefCell::new(0i32);
    let (cell, ret) = cell.borrow_mut_reentrant(|mut c| {
        *c.get_mut() += 1;
        let (mut c, ()) = c.borrow_mut_reentrant(|mut c2| {
            *c2.get_mut() += 10;
            (c2, ())
        });
        *c.get_mut() += 100;
        let ret = *c.get_mut();
        (c, ret)
    });
    assert_eq!(ret, 111);
    assert_eq!(cell.depth(), 0);
    assert_eq!(cell.borrow(), Ok(&111));
}

#[test]
fn read_idempotent() {
    let cell = ReentrantRefCell::new(9u8);
    let first = cell.borrow().map(|v| *v);
    let second = cell.borrow().map(|v| *v);
    assert_eq!(first, second);
    assert_eq!(first, Ok(9));
}

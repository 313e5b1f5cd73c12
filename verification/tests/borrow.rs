use typed_accounts::borrow::BorrowCell;
use typed_accounts::error::Error;

#[test]
fn new_cell_is_free() {
    let cell = BorrowCell::new();
    assert_eq!(cell.readers(), 0);
    assert!(!cell.is_writing());
    assert!(!cell.is_borrowed());
}

#[test]
fn second_writer_is_refused_until_release() {
    let mut cell = BorrowCell::new();
    assert_eq!(cell.try_borrow_mut(), Ok(()));
    assert!(cell.is_writing());
    assert_eq!(cell.try_borrow_mut(), Err(Error::BorrowConflict));
    assert!(cell.is_writing());
    cell.release_mut();
    assert!(!cell.is_borrowed());
    assert_eq!(cell.try_borrow_mut(), Ok(()));
}

#[test]
fn readers_share_and_exclude_a_writer() {
    let mut cell = BorrowCell::new();
    for expected in 1..=20usize {
        assert_eq!(cell.try_borrow(), Ok(()));
        assert_eq!(cell.readers(), expected);
    }
    assert_eq!(cell.try_borrow_mut(), Err(Error::BorrowConflict));
    for _ in 0..19 {
        cell.release();
    }
    assert_eq!(cell.readers(), 1);
    assert_eq!(cell.try_borrow_mut(), Err(Error::BorrowConflict));
    cell.release();
    assert_eq!(cell.try_borrow_mut(), Ok(()));
}

#[test]
fn writer_excludes_readers() {
    let mut cell = BorrowCell::new();
    assert_eq!(cell.try_borrow_mut(), Ok(()));
    assert_eq!(cell.try_borrow(), Err(Error::BorrowConflict));
    assert_eq!(cell.readers(), 0);
    cell.release_mut();
    assert_eq!(cell.try_borrow(), Ok(()));
    assert_eq!(cell.readers(), 1);
}

#[test]
fn release_of_a_free_cell_changes_nothing() {
    let mut cell = BorrowCell::new();
    cell.release();
    cell.release_mut();
    assert_eq!(cell.readers(), 0);
    assert!(!cell.is_borrowed());
}

#[test]
fn release_of_a_reader_leaves_the_others() {
    let mut cell = BorrowCell::new();
    assert_eq!(cell.try_borrow(), Ok(()));
    assert_eq!(cell.try_borrow(), Ok(()));
    cell.release_mut();
    assert_eq!(cell.readers(), 2);
    cell.release();
    assert_eq!(cell.readers(), 1);
    assert!(cell.is_borrowed());
}

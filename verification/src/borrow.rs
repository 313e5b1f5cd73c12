//! The runtime reader/writer discipline of one shared cell.
//!
//! A cell is lent out either to any number of readers or to one writer, never
//! to both. Nothing here is checked when the program is compiled: every
//! borrow is asked for while the program runs and is refused by
//! `Error::BorrowConflict` where it would break the discipline. A borrow ends
//! by an explicit release.

use vstd::prelude::*;
use crate::error::Error;

verus! {

/// What is known of a cell: how many readers hold it, and whether a writer does.
pub struct BorrowView {
    pub readers: nat,
    pub writing: bool,
}

impl BorrowView {
    /// No borrow is outstanding.
    pub open spec fn is_free(self) -> bool {
        self.readers == 0 && !self.writing
    }

    /// Readers and a writer never hold the cell together.
    pub open spec fn is_consistent(self) -> bool {
        !(self.writing && self.readers > 0)
    }

    /// One more reader can be admitted.
    pub open spec fn can_read(self) -> bool {
        !self.writing && self.readers < usize::MAX
    }

    /// A writer can be admitted.
    pub open spec fn can_write(self) -> bool {
        !self.writing && self.readers == 0
    }

    /// The cell once one more reader holds it.
    pub open spec fn reading(self) -> BorrowView {
        BorrowView { readers: self.readers + 1, writing: self.writing }
    }

    /// The cell once a writer holds it.
    pub open spec fn written(self) -> BorrowView {
        BorrowView { readers: self.readers, writing: true }
    }

    /// The cell once one reader has let go of it.
    pub open spec fn read_released(self) -> BorrowView {
        BorrowView {
            readers: if self.readers > 0 {
                (self.readers - 1) as nat
            } else {
                0
            },
            writing: self.writing,
        }
    }

    /// The cell once the writer has let go of it.
    pub open spec fn write_released(self) -> BorrowView {
        BorrowView { readers: self.readers, writing: false }
    }
}

/// The borrow counter attached to one cell of an account.
#[derive(Debug, Clone, Copy)]
pub struct BorrowCell {
    readers: usize,
    writing: bool,
}

impl View for BorrowCell {
    type V = BorrowView;

    closed spec fn view(&self) -> BorrowView {
        BorrowView { readers: self.readers as nat, writing: self.writing }
    }
}

impl BorrowCell {
    /// A cell that nobody holds.
    pub fn new() -> (cell: Self)
        ensures
            cell@.is_free(),
    {
        BorrowCell { readers: 0, writing: false }
    }

    /// The number of readers that hold the cell.
    pub fn readers(&self) -> (count: usize)
        ensures
            count == self@.readers,
    {
        self.readers
    }

    /// Whether a writer holds the cell.
    pub fn is_writing(&self) -> (writing: bool)
        ensures
            writing == self@.writing,
    {
        self.writing
    }

    /// Whether any borrow is outstanding.
    pub fn is_borrowed(&self) -> (borrowed: bool)
        ensures
            borrowed == !self@.is_free(),
    {
        self.writing || self.readers > 0
    }

    /// Admits one more reader, unless a writer holds the cell.
    pub fn try_borrow(&mut self) -> (granted: Result<(), Error>)
        ensures
            old(self)@.can_read() ==> granted.is_ok() && final(self)@ == old(self)@.reading(),
            !old(self)@.can_read() ==> granted == Err::<(), Error>(Error::BorrowConflict)
                && final(self)@ == old(self)@,
    {
        if self.writing || self.readers == usize::MAX {
            return Err(Error::BorrowConflict);
        }
        self.readers = self.readers + 1;
        Ok(())
    }

    /// Admits a writer, unless anybody holds the cell.
    pub fn try_borrow_mut(&mut self) -> (granted: Result<(), Error>)
        ensures
            old(self)@.can_write() ==> granted.is_ok() && final(self)@ == old(self)@.written(),
            !old(self)@.can_write() ==> granted == Err::<(), Error>(Error::BorrowConflict)
                && final(self)@ == old(self)@,
    {
        if self.writing || self.readers > 0 {
            return Err(Error::BorrowConflict);
        }
        self.writing = true;
        Ok(())
    }

    /// Ends the borrow of one reader; a cell without readers stays as it is.
    pub fn release(&mut self)
        ensures
            final(self)@ == old(self)@.read_released(),
    {
        if self.readers > 0 {
            self.readers = self.readers - 1;
        }
    }

    /// Ends the borrow of the writer; a cell without a writer stays as it is.
    pub fn release_mut(&mut self)
        ensures
            final(self)@ == old(self)@.write_released(),
    {
        self.writing = false;
    }
}

/// While a writer holds a cell, no second writer and no reader is admitted.
pub proof fn lemma_writer_excludes_others(cell: BorrowView)
    requires
        cell.can_write(),
    ensures
        !cell.written().can_write(),
        !cell.written().can_read(),
{
}

/// Once the only writer has let go, a writer is admitted again.
pub proof fn lemma_release_readmits_writer(cell: BorrowView)
    requires
        cell.can_write(),
    ensures
        cell.written().write_released() == cell,
        cell.written().write_released().can_write(),
{
}

/// While readers hold a cell, no writer is admitted; once the last reader has
/// let go, one is.
pub proof fn lemma_readers_exclude_writer(cell: BorrowView)
    requires
        cell.can_read(),
    ensures
        !cell.reading().can_write(),
        cell.reading().read_released() == cell,
{
}

/// Every way of taking and ending a borrow keeps readers and writer apart.
pub proof fn lemma_discipline_is_kept(cell: BorrowView)
    requires
        cell.is_consistent(),
    ensures
        cell.can_read() ==> cell.reading().is_consistent(),
        cell.can_write() ==> cell.written().is_consistent(),
        cell.read_released().is_consistent(),
        cell.write_released().is_consistent(),
{
}

} // verus!

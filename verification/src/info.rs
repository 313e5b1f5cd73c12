//! The raw account: what the execution environment hands to a program.
//!
//! An account has a fixed key, an owner that can be reassigned, a balance in
//! lamports and a data buffer. Behind the data lies a reserve of
//! `MAX_PERMITTED_DATA_INCREASE` bytes into which the data can grow. Balance
//! and data are two independent cells, each lent out under the discipline of
//! `crate::borrow`.

use vstd::prelude::*;
use crate::borrow::{BorrowCell, BorrowView};
use crate::codec::slice_range_mut;
use crate::error::Error;
use crate::pubkey::{pubkey_eq, Pubkey};

verus! {

/// The number of bytes by which the data of an account can grow.
pub const MAX_PERMITTED_DATA_INCREASE: usize = 10240;

/// An account as a value: the model that every contract speaks of.
pub struct AccountView {
    pub key: Pubkey,
    pub owner: Pubkey,
    pub lamports: u64,
    pub data: Seq<u8>,
    pub reserve: Seq<u8>,
    pub is_signer: bool,
    pub is_writable: bool,
    pub lamports_borrow: BorrowView,
    pub data_borrow: BorrowView,
}

impl AccountView {
    /// The largest length that the data can be given.
    pub open spec fn capacity(self) -> nat {
        self.data.len() + self.reserve.len()
    }

    /// No borrow of balance or data is outstanding.
    pub open spec fn is_unborrowed(self) -> bool {
        self.lamports_borrow.is_free() && self.data_borrow.is_free()
    }

    /// The account with another owner.
    pub open spec fn with_owner(self, owner: Pubkey) -> AccountView {
        AccountView { owner, ..self }
    }

    /// The account with another balance.
    pub open spec fn with_lamports(self, lamports: u64) -> AccountView {
        AccountView { lamports, ..self }
    }

    /// The account with other bytes as its data.
    pub open spec fn with_data(self, data: Seq<u8>) -> AccountView {
        AccountView { data, ..self }
    }

    /// The account with another state of its balance cell.
    pub open spec fn with_lamports_borrow(self, lamports_borrow: BorrowView) -> AccountView {
        AccountView { lamports_borrow, ..self }
    }

    /// The account with another state of its data cell.
    pub open spec fn with_data_borrow(self, data_borrow: BorrowView) -> AccountView {
        AccountView { data_borrow, ..self }
    }

    /// Both are the same account with the same capabilities: key and flags
    /// agree.
    pub open spec fn same_identity(self, other: AccountView) -> bool {
        self.key == other.key && self.is_signer == other.is_signer && self.is_writable
            == other.is_writable
    }

    /// The account with its data cut or grown to `new_len` bytes.
    ///
    /// Bytes that are cut off go to the front of the reserve. Bytes that are
    /// added are zero when `zero_init` is set, and otherwise what the front of
    /// the reserve held.
    pub open spec fn resized(self, new_len: int, zero_init: bool) -> AccountView
        recommends
            0 <= new_len <= self.capacity(),
    {
        if new_len <= self.data.len() {
            AccountView {
                data: self.data.subrange(0, new_len),
                reserve: self.data.subrange(new_len, self.data.len() as int) + self.reserve,
                ..self
            }
        } else {
            let added = new_len - self.data.len();
            AccountView {
                data: self.data + if zero_init {
                    Seq::new(added as nat, |i: int| 0u8)
                } else {
                    self.reserve.subrange(0, added)
                },
                reserve: self.reserve.subrange(added, self.reserve.len() as int),
                ..self
            }
        }
    }

    /// What `AccountInfo::realloc` does to the account, or why it refuses.
    pub open spec fn realloc(self, new_len: int, zero_init: bool) -> Result<AccountView, Error> {
        if !self.data_borrow.can_write() {
            Err(Error::BorrowConflict)
        } else if new_len > self.capacity() {
            Err(Error::InvalidRealloc)
        } else {
            Ok(self.resized(new_len, zero_init))
        }
    }
}

/// A raw account.
pub struct AccountInfo {
    key: Pubkey,
    owner: Pubkey,
    lamports: u64,
    data: Vec<u8>,
    reserve: Vec<u8>,
    is_signer: bool,
    is_writable: bool,
    lamports_borrow: BorrowCell,
    data_borrow: BorrowCell,
}

impl View for AccountInfo {
    type V = AccountView;

    closed spec fn view(&self) -> AccountView {
        AccountView {
            key: self.key,
            owner: self.owner,
            lamports: self.lamports,
            data: self.data@,
            reserve: self.reserve@,
            is_signer: self.is_signer,
            is_writable: self.is_writable,
            lamports_borrow: self.lamports_borrow@,
            data_borrow: self.data_borrow@,
        }
    }
}

impl AccountInfo {
    /// An account as the environment hands it over at the start of an
    /// instruction: nothing is borrowed, and the reserve is zeroed.
    pub fn new(
        key: Pubkey,
        owner: Pubkey,
        lamports: u64,
        data: Vec<u8>,
        is_signer: bool,
        is_writable: bool,
    ) -> (info: Self)
        ensures
            info@.key == key,
            info@.owner == owner,
            info@.lamports == lamports,
            info@.data == data@,
            info@.reserve == Seq::new(MAX_PERMITTED_DATA_INCREASE as nat, |i: int| 0u8),
            info@.is_signer == is_signer,
            info@.is_writable == is_writable,
            info@.is_unborrowed(),
    {
        let reserve: Vec<u8> = vec![0u8; MAX_PERMITTED_DATA_INCREASE];
        assert(reserve@ =~= Seq::new(MAX_PERMITTED_DATA_INCREASE as nat, |i: int| 0u8));
        AccountInfo {
            key,
            owner,
            lamports,
            data,
            reserve,
            is_signer,
            is_writable,
            lamports_borrow: BorrowCell::new(),
            data_borrow: BorrowCell::new(),
        }
    }

    /// The address of the account.
    pub fn key(&self) -> (key: &Pubkey)
        ensures
            *key == self@.key,
    {
        &self.key
    }

    /// The program that owns the account.
    pub fn owner(&self) -> (owner: &Pubkey)
        ensures
            *owner == self@.owner,
    {
        &self.owner
    }

    /// Whether the account signed the transaction.
    pub fn is_signer(&self) -> (flag: bool)
        ensures
            flag == self@.is_signer,
    {
        self.is_signer
    }

    /// Whether the account may be written to.
    pub fn is_writable(&self) -> (flag: bool)
        ensures
            flag == self@.is_writable,
    {
        self.is_writable
    }

    /// The balance of the account.
    pub fn lamports(&self) -> (lamports: u64)
        ensures
            lamports == self@.lamports,
    {
        self.lamports
    }

    /// The length of the data.
    pub fn data_len(&self) -> (len: usize)
        ensures
            len == self@.data.len(),
    {
        self.data.len()
    }

    /// Whether the account has no data.
    pub fn data_is_empty(&self) -> (empty: bool)
        ensures
            empty == (self@.data.len() == 0),
    {
        self.data.len() == 0
    }

    /// Whether `program` owns the account.
    pub fn is_owned_by(&self, program: &Pubkey) -> (owned: bool)
        ensures
            owned == (self@.owner == *program),
    {
        pubkey_eq(&self.owner, program)
    }

    /// Whether any borrow of balance or data is outstanding.
    pub fn is_borrowed(&self) -> (borrowed: bool)
        ensures
            borrowed == !self@.is_unborrowed(),
    {
        self.lamports_borrow.is_borrowed() || self.data_borrow.is_borrowed()
    }

    /// Whether the balance can be lent to one more reader.
    pub fn can_borrow_lamports(&self) -> (free: bool)
        ensures
            free == self@.lamports_borrow.can_read(),
    {
        !self.lamports_borrow.is_writing() && self.lamports_borrow.readers() < usize::MAX
    }

    /// Whether the balance can be lent to a writer.
    pub fn can_borrow_mut_lamports(&self) -> (free: bool)
        ensures
            free == self@.lamports_borrow.can_write(),
    {
        !self.lamports_borrow.is_borrowed()
    }

    /// Whether the data can be lent to one more reader.
    pub fn can_borrow_data(&self) -> (free: bool)
        ensures
            free == self@.data_borrow.can_read(),
    {
        !self.data_borrow.is_writing() && self.data_borrow.readers() < usize::MAX
    }

    /// Whether the data can be lent to a writer.
    pub fn can_borrow_mut_data(&self) -> (free: bool)
        ensures
            free == self@.data_borrow.can_write(),
    {
        !self.data_borrow.is_borrowed()
    }

    /// Sets the balance, whoever holds it.
    pub(crate) fn set_lamports(&mut self, lamports: u64)
        ensures
            final(self)@ == old(self)@.with_lamports(lamports),
    {
        self.lamports = lamports;
    }

    /// The data as it is, whoever holds it.
    pub(crate) fn data_unguarded(&self) -> (data: &[u8])
        ensures
            data@ == self@.data,
    {
        self.data.as_slice()
    }

    /// Hands the account to another owner. The data is left as it is.
    pub fn assign(&mut self, new_owner: &Pubkey)
        ensures
            final(self)@ == old(self)@.with_owner(*new_owner),
    {
        self.owner = *new_owner;
    }

    /// Lends the balance to one more reader.
    pub fn try_borrow_lamports(&mut self) -> (lamports: Result<&u64, Error>)
        ensures
            old(self)@.lamports_borrow.can_read() ==> lamports.is_ok() && *lamports.unwrap() == old(self)@.lamports && final(self)@ == old(self)@.with_lamports_borrow(
                old(self)@.lamports_borrow.reading(),
            ),
            !old(self)@.lamports_borrow.can_read() ==> lamports == Err::<&u64, Error>(
                Error::BorrowConflict,
            ) && final(self)@ == old(self)@,
    {
        match self.lamports_borrow.try_borrow() {
            Ok(()) => Ok(&self.lamports),
            Err(e) => Err(e),
        }
    }

    /// Lends the balance to a writer.
    ///
    /// What is written through the result becomes the balance.
    pub fn try_borrow_mut_lamports(&mut self) -> (lamports: Result<&mut u64, Error>)
        ensures
            old(self)@.lamports_borrow.can_write() ==> lamports.is_ok() && *lamports.unwrap()
                == old(self)@.lamports && final(self)@ == old(self)@.with_lamports_borrow(
                old(self)@.lamports_borrow.written(),
            ).with_lamports(*final(lamports.unwrap())),
            !old(self)@.lamports_borrow.can_write() ==> lamports.is_err() && lamports.unwrap_err()
                == Error::BorrowConflict && final(self)@ == old(self)@,
    {
        match self.lamports_borrow.try_borrow_mut() {
            Ok(()) => Ok(&mut self.lamports),
            Err(e) => Err(e),
        }
    }

    /// Lends the data to one more reader.
    pub fn try_borrow_data(&mut self) -> (data: Result<&[u8], Error>)
        ensures
            old(self)@.data_borrow.can_read() ==> data.is_ok() && data.unwrap()@ == old(self)@.data
                && final(self)@ == old(self)@.with_data_borrow(old(self)@.data_borrow.reading()),
            !old(self)@.data_borrow.can_read() ==> data == Err::<&[u8], Error>(
                Error::BorrowConflict,
            ) && final(self)@ == old(self)@,
    {
        match self.data_borrow.try_borrow() {
            Ok(()) => Ok(self.data.as_slice()),
            Err(e) => Err(e),
        }
    }

    /// Lends the data to a writer.
    ///
    /// What is written through the result becomes the data; its length cannot
    /// change this way.
    pub fn try_borrow_mut_data(&mut self) -> (data: Result<&mut [u8], Error>)
        ensures
            old(self)@.data_borrow.can_write() ==> data.is_ok() && data.unwrap()@ == old(self)@.data && final(data.unwrap())@.len() == old(self)@.data.len() && final(self)@ == old(self)@.with_data_borrow(old(self)@.data_borrow.written()).with_data(
                final(data.unwrap())@,
            ),
            !old(self)@.data_borrow.can_write() ==> data.is_err() && data.unwrap_err()
                == Error::BorrowConflict && final(self)@ == old(self)@,
    {
        match self.data_borrow.try_borrow_mut() {
            Ok(()) => {
                let len = self.data.len();
                let whole = self.data.as_mut_slice();
                Ok(slice_range_mut(whole, 0, len))
            },
            Err(e) => Err(e),
        }
    }

    /// Cuts or grows the data to `new_len` bytes.
    ///
    /// The data cell must be free. Growing takes bytes from the reserve and
    /// fails with `Error::InvalidRealloc` beyond it; bytes that are added are
    /// zeroed when `zero_init` is set. Cutting never gives memory back: the
    /// bytes that are cut off return to the reserve.
    pub fn realloc(&mut self, new_len: usize, zero_init: bool) -> (done: Result<(), Error>)
        ensures
            match old(self)@.realloc(new_len as int, zero_init) {
                Ok(account) => done.is_ok() && final(self)@ == account,
                Err(e) => done == Err::<(), Error>(e) && final(self)@ == old(self)@,
            },
    {
        if self.data_borrow.is_borrowed() {
            return Err(Error::BorrowConflict);
        }
        let len = self.data.len();
        if new_len <= len {
            let mut tail = self.data.split_off(new_len);
            tail.append(&mut self.reserve);
            self.reserve = tail;
        } else {
            let added = new_len - len;
            if added > self.reserve.len() {
                return Err(Error::InvalidRealloc);
            }
            let rest = self.reserve.split_off(added);
            if zero_init {
                let mut zeros: Vec<u8> = vec![0u8; added];
                assert(zeros@ =~= Seq::new(added as nat, |i: int| 0u8));
                self.data.append(&mut zeros);
            } else {
                self.data.append(&mut self.reserve);
            }
            self.reserve = rest;
        }
        assert(self@ =~= old(self)@.resized(new_len as int, zero_init));
        Ok(())
    }

    /// Ends one reader's borrow of the balance.
    pub fn release_lamports(&mut self)
        ensures
            final(self)@ == old(self)@.with_lamports_borrow(
                old(self)@.lamports_borrow.read_released(),
            ),
    {
        self.lamports_borrow.release();
    }

    /// Ends the writer's borrow of the balance.
    pub fn release_mut_lamports(&mut self)
        ensures
            final(self)@ == old(self)@.with_lamports_borrow(
                old(self)@.lamports_borrow.write_released(),
            ),
    {
        self.lamports_borrow.release_mut();
    }

    /// Ends one reader's borrow of the data.
    pub fn release_data(&mut self)
        ensures
            final(self)@ == old(self)@.with_data_borrow(old(self)@.data_borrow.read_released()),
    {
        self.data_borrow.release();
    }

    /// Ends the writer's borrow of the data.
    pub fn release_mut_data(&mut self)
        ensures
            final(self)@ == old(self)@.with_data_borrow(old(self)@.data_borrow.write_released()),
    {
        self.data_borrow.release_mut();
    }
}

/// Growing with `zero_init` set keeps the bytes that were there and adds
/// zeros behind them.
pub proof fn lemma_realloc_zero_fills(account: AccountView, new_len: int)
    requires
        account.data_borrow.can_write(),
        account.data.len() <= new_len <= account.capacity(),
    ensures
        account.realloc(new_len, true).is_ok(),
        account.realloc(new_len, true).unwrap().data.len() == new_len,
        account.realloc(new_len, true).unwrap().data.subrange(0, account.data.len() as int)
            == account.data,
        forall|i: int|
            account.data.len() <= i < new_len ==> account.realloc(new_len, true).unwrap().data[i]
                == 0,
{
    let grown = account.realloc(new_len, true).unwrap();
    assert(grown.data.subrange(0, account.data.len() as int) =~= account.data);
}

/// Cutting keeps the first `new_len` bytes as they were and drops the rest.
pub proof fn lemma_realloc_truncates(account: AccountView, new_len: int, zero_init: bool)
    requires
        account.data_borrow.can_write(),
        0 <= new_len <= account.data.len(),
    ensures
        account.realloc(new_len, zero_init).is_ok(),
        account.realloc(new_len, zero_init).unwrap().data == account.data.subrange(0, new_len),
        forall|i: int|
            0 <= i < new_len ==> account.realloc(new_len, zero_init).unwrap().data[i]
                == account.data[i],
{
}

/// A resize changes the data and the reserve only, and never the room that
/// both have together.
pub proof fn lemma_realloc_frame(account: AccountView, new_len: int, zero_init: bool)
    requires
        account.realloc(new_len, zero_init).is_ok(),
        0 <= new_len,
    ensures
        account.realloc(new_len, zero_init).unwrap().capacity() == account.capacity(),
        account.realloc(new_len, zero_init).unwrap().data.len() == new_len,
        account.realloc(new_len, zero_init).unwrap() == (AccountView {
            data: account.realloc(new_len, zero_init).unwrap().data,
            reserve: account.realloc(new_len, zero_init).unwrap().reserve,
            ..account
        }),
{
}

/// Key and flags of an account are fixed: no change of owner, balance, data
/// or borrows touches them, so what was checked when a view was made still
/// holds whenever the view is used.
pub proof fn lemma_identity_is_stable(
    account: AccountView,
    owner: Pubkey,
    lamports: u64,
    data: Seq<u8>,
    cell: BorrowView,
    new_len: int,
    zero_init: bool,
)
    ensures
        account.same_identity(account.with_owner(owner)),
        account.same_identity(account.with_lamports(lamports)),
        account.same_identity(account.with_data(data)),
        account.same_identity(account.with_lamports_borrow(cell)),
        account.same_identity(account.with_data_borrow(cell)),
        account.same_identity(account.resized(new_len, zero_init)),
{
}

} // verus!

//! Typed views over a raw account.
//!
//! Each view narrows what can be done with the account: `UncheckedAccount`
//! reads it as it is, `SystemAccount` and `Account<T>` ask for an owner,
//! `Signer` for a signature, and `Mut<A>` adds writing to any of them. The
//! flags of an account are checked once, when the view is made. Ownership and
//! the discriminator of a record are checked again on every access to the data.

use vstd::prelude::*;
use vstd::layout::size_of;
use core::marker::PhantomData;
use crate::codec::{has_discriminator, is_tagged, record_at, with_record, Discriminator};
use crate::codec::slice_range_mut;
use crate::error::Error;
use crate::info::{AccountInfo, AccountView};
use crate::pubkey::{pubkey_eq, Pubkey, SYSTEM_PROGRAM_ID};
use crate::sealed::Sealed;

verus! {

/// A program with one address.
pub trait ProgramId {
    const ID: Pubkey;
}

/// A program that is known under several addresses.
pub trait ProgramIds {
    const IDS: &'static [Pubkey];
}

/// A record whose accounts belong to one program.
pub trait Owner {
    const OWNER: Pubkey;
}

/// A record whose accounts may belong to any of several programs.
pub trait Owners {
    const OWNERS: &'static [Pubkey];
}

/// What a reader gets from an account: the bytes of the range, unless the
/// data cell refuses a reader or the account cannot be read as this view.
pub open spec fn read_outcome(account: AccountView, range: Result<(int, int), Error>) -> Result<
    Seq<u8>,
    Error,
> {
    if !account.data_borrow.can_read() {
        Err(Error::BorrowConflict)
    } else {
        match range {
            Ok(found) => Ok(account.data.subrange(found.0, found.0 + found.1)),
            Err(e) => Err(e),
        }
    }
}

/// What a writer gets from an account: the bytes of the range, unless the
/// data cell refuses a writer or the account cannot be read as this view.
pub open spec fn write_outcome(account: AccountView, range: Result<(int, int), Error>) -> Result<
    Seq<u8>,
    Error,
> {
    if !account.data_borrow.can_write() {
        Err(Error::BorrowConflict)
    } else {
        match range {
            Ok(found) => Ok(account.data.subrange(found.0, found.0 + found.1)),
            Err(e) => Err(e),
        }
    }
}

/// Where a record of `size` bytes lies in the data of an account that should
/// belong to `program` and hold the given discriminator, as start and length.
///
/// The owner is looked at first, then the discriminator, then the length.
pub open spec fn record_location(
    owner: Pubkey,
    data: Seq<u8>,
    program: Pubkey,
    discriminator: Seq<u8>,
    size: int,
) -> Result<(int, int), Error> {
    if owner != program {
        Err(Error::InvalidOwner)
    } else if !is_tagged(data, discriminator) {
        Err(Error::InvalidDiscriminator)
    } else if record_at(data, discriminator.len() as int, size).is_none() {
        Err(Error::DeserializationError)
    } else {
        Ok((discriminator.len() as int, size))
    }
}

/// Finds the record of `size` bytes in the data of an account, after the
/// checks of `record_location`.
pub fn locate_record(
    owner: &Pubkey,
    data: &[u8],
    program: &Pubkey,
    discriminator: &[u8],
    size: usize,
) -> (range: Result<(usize, usize), Error>)
    ensures
        match record_location(*owner, data@, *program, discriminator@, size as int) {
            Ok(found) => range.is_ok() && range.unwrap().0 == found.0 && range.unwrap().1
                == found.1,
            Err(e) => range == Err::<(usize, usize), Error>(e),
        },
{
    if !pubkey_eq(owner, program) {
        return Err(Error::InvalidOwner);
    }
    if !has_discriminator(data, discriminator) {
        return Err(Error::InvalidDiscriminator);
    }
    let prefix = discriminator.len();
    if size > data.len() - prefix {
        return Err(Error::DeserializationError);
    }
    Ok((prefix, size))
}

/// What a view stands on, and which part of the data it shows.
pub trait AccountLayout: Sized {
    /// The account that the view stands on.
    spec fn account(&self) -> AccountView;

    /// Where in the data the view's record lies, as start and length, or why
    /// the account cannot be read as this kind of view.
    spec fn record_range(account: AccountView) -> Result<(int, int), Error>;

    /// The range promised by `record_range` always lies inside the data.
    proof fn lemma_record_range_in_bounds(account: AccountView)
        ensures
            Self::record_range(account) matches Ok(range) ==> 0 <= range.0 && 0 <= range.1
                && range.0 + range.1 <= account.data.len(),
    ;
}

/// A view that is made from a raw account, after a check.
pub trait FromAccountInfo: Sealed {
    /// Whether a view of this kind can be made of the account.
    spec fn admits(account: AccountView) -> Result<(), Error>;

    /// Makes the view, or says why the account does not admit it.
    fn try_from_info(info: AccountInfo) -> (view: Result<Self, Error>)
        ensures
            match Self::admits(info@) {
                Ok(()) => view.is_ok() && view.unwrap().account() == info@,
                Err(e) => view matches Err(refusal) && refusal == e,
            },
    ;
}

/// A view through which an account can be read.
pub trait ReadableAccount: Sealed {
    /// The raw account.
    fn as_info(&self) -> (info: &AccountInfo)
        ensures
            info@ == self.account(),
    ;

    /// Gives the raw account back.
    fn into_info(self) -> (info: AccountInfo)
        ensures
            info@ == self.account(),
    ;

    /// The address of the account.
    fn key(&self) -> (key: &Pubkey)
        ensures
            *key == self.account().key,
    {
        self.as_info().key()
    }

    /// Whether `owner` owns the account.
    fn is_owned_by(&self, owner: &Pubkey) -> (owned: bool)
        ensures
            owned == (self.account().owner == *owner),
    {
        self.as_info().is_owned_by(owner)
    }

    /// Borrows the balance for reading.
    fn lamports(&mut self) -> (lamports: Result<&u64, Error>)
        ensures
            old(self).account().lamports_borrow.can_read() ==> lamports.is_ok()
                && *lamports.unwrap() == old(self).account().lamports && final(self).account()
                == old(self).account().with_lamports_borrow(
                old(self).account().lamports_borrow.reading(),
            ),
            !old(self).account().lamports_borrow.can_read() ==> lamports == Err::<&u64, Error>(
                Error::BorrowConflict,
            ) && final(self).account() == old(self).account(),
    {
        self.info_mut().try_borrow_lamports()
    }

    /// Ends one reader's borrow of the balance.
    fn release_lamports(&mut self)
        ensures
            final(self).account() == old(self).account().with_lamports_borrow(
                old(self).account().lamports_borrow.read_released(),
            ),
    {
        self.info_mut().release_lamports()
    }

    /// Borrows the data for reading and returns the record of this view.
    ///
    /// The borrow is taken only when the record is returned: an account that
    /// cannot be read as this view is left as it was.
    fn data(&mut self) -> (data: Result<&[u8], Error>)
        ensures
            match read_outcome(old(self).account(), Self::record_range(old(self).account())) {
                Ok(bytes) => data.is_ok() && data.unwrap()@ == bytes && final(self).account()
                    == old(self).account().with_data_borrow(
                    old(self).account().data_borrow.reading(),
                ),
                Err(e) => data == Err::<&[u8], Error>(e) && final(self).account() == old(self).account(),
            },
    {
        let info = self.info_mut();
        if !info.can_borrow_data() {
            return Err(Error::BorrowConflict);
        }
        match Self::locate(info) {
            Err(e) => Err(e),
            Ok((start, len)) => {
                let total = info.data_len();
                proof {
                    Self::lemma_record_range_in_bounds(info@);
                    assert(start + len <= total);
                }
                match info.try_borrow_data() {
                    Ok(bytes) => Ok(vstd::slice::slice_subrange(bytes, start, start + len)),
                    Err(e) => Err(e),
                }
            },
        }
    }

    /// Ends one reader's borrow of the data.
    fn release_data(&mut self)
        ensures
            final(self).account() == old(self).account().with_data_borrow(
                old(self).account().data_borrow.read_released(),
            ),
    {
        self.info_mut().release_data()
    }
}

/// A view through which an account can be changed.
pub trait WritableAccount: ReadableAccount {
    /// Hands the account to another owner. The data is left as it is, so it
    /// need not be a valid record of the new owner.
    fn assign(&mut self, new_owner: &Pubkey)
        ensures
            final(self).account() == old(self).account().with_owner(*new_owner),
    {
        self.info_mut().assign(new_owner)
    }

    /// Cuts or grows the data to `new_len` bytes.
    fn realloc(&mut self, new_len: usize, zero_init: bool) -> (done: Result<(), Error>)
        ensures
            match old(self).account().realloc(new_len as int, zero_init) {
                Ok(account) => done.is_ok() && final(self).account() == account,
                Err(e) => done == Err::<(), Error>(e) && final(self).account() == old(self).account(),
            },
    {
        self.info_mut().realloc(new_len, zero_init)
    }

    /// Borrows the balance for writing.
    fn mut_lamports(&mut self) -> (lamports: Result<&mut u64, Error>)
        ensures
            old(self).account().lamports_borrow.can_write() ==> lamports.is_ok()
                && *lamports.unwrap() == old(self).account().lamports && final(self).account()
                == old(self).account().with_lamports_borrow(
                old(self).account().lamports_borrow.written(),
            ).with_lamports(*final(lamports.unwrap())),
            !old(self).account().lamports_borrow.can_write() ==> lamports.is_err()
                && lamports.unwrap_err() == Error::BorrowConflict && final(self).account() == old(self).account(),
    {
        self.info_mut().try_borrow_mut_lamports()
    }

    /// Ends the writer's borrow of the balance.
    fn release_mut_lamports(&mut self)
        ensures
            final(self).account() == old(self).account().with_lamports_borrow(
                old(self).account().lamports_borrow.write_released(),
            ),
    {
        self.info_mut().release_mut_lamports()
    }

    /// Borrows the data for writing and returns the record of this view.
    ///
    /// What is written through the result replaces the record; the rest of
    /// the data stays as it was. The borrow is taken only when the record is
    /// returned.
    fn mut_data(&mut self) -> (data: Result<&mut [u8], Error>)
        ensures
            match write_outcome(old(self).account(), Self::record_range(old(self).account())) {
                Ok(bytes) => data.is_ok() && data.unwrap()@ == bytes && final(data.unwrap())@.len()
                    == bytes.len() && final(self).account() == old(self).account().with_data_borrow(
                    old(self).account().data_borrow.written(),
                ).with_data(
                    with_record(
                        old(self).account().data,
                        Self::record_range(old(self).account()).unwrap().0,
                        final(data.unwrap())@,
                    ),
                ),
                Err(e) => data.is_err() && data.unwrap_err() == e && final(self).account() == old(self).account(),
            },
    {
        let info = self.info_mut();
        if !info.can_borrow_mut_data() {
            return Err(Error::BorrowConflict);
        }
        match Self::locate(info) {
            Err(e) => Err(e),
            Ok((start, len)) => {
                let total = info.data_len();
                proof {
                    Self::lemma_record_range_in_bounds(info@);
                    assert(start + len <= total);
                }
                match info.try_borrow_mut_data() {
                    Ok(bytes) => Ok(slice_range_mut(bytes, start, start + len)),
                    Err(e) => Err(e),
                }
            },
        }
    }

    /// Ends the writer's borrow of the data.
    fn release_mut_data(&mut self)
        ensures
            final(self).account() == old(self).account().with_data_borrow(
                old(self).account().data_borrow.write_released(),
            ),
    {
        self.info_mut().release_mut_data()
    }
}

/// A view over an account that signed the transaction.
pub trait SignerAccount: ReadableAccount {
}

/// A view that asks nothing of the account.
pub struct UncheckedAccount {
    info: AccountInfo,
}

impl AccountLayout for UncheckedAccount {
    closed spec fn account(&self) -> AccountView {
        self.info@
    }

    open spec fn record_range(account: AccountView) -> Result<(int, int), Error> {
        Ok((0, account.data.len() as int))
    }

    proof fn lemma_record_range_in_bounds(account: AccountView) {
    }
}

impl Sealed for UncheckedAccount {
    fn locate(info: &AccountInfo) -> (range: Result<(usize, usize), Error>) {
        Ok((0, info.data_len()))
    }

    fn info_mut(&mut self) -> (info: &mut AccountInfo) {
        &mut self.info
    }

    fn from_raw_info(info: AccountInfo) -> (view: Self) {
        UncheckedAccount { info }
    }
}

impl FromAccountInfo for UncheckedAccount {
    open spec fn admits(account: AccountView) -> Result<(), Error> {
        Ok(())
    }

    fn try_from_info(info: AccountInfo) -> (view: Result<Self, Error>) {
        Ok(UncheckedAccount { info })
    }
}

impl ReadableAccount for UncheckedAccount {
    fn as_info(&self) -> (info: &AccountInfo) {
        assert(self.info@ == self.account());
        &self.info
    }

    fn into_info(self) -> (info: AccountInfo) {
        self.info
    }
}

/// A view over an account that the system program owns.
pub struct SystemAccount {
    info: AccountInfo,
}

impl AccountLayout for SystemAccount {
    closed spec fn account(&self) -> AccountView {
        self.info@
    }

    open spec fn record_range(account: AccountView) -> Result<(int, int), Error> {
        Ok((0, account.data.len() as int))
    }

    proof fn lemma_record_range_in_bounds(account: AccountView) {
    }
}

impl Sealed for SystemAccount {
    fn locate(info: &AccountInfo) -> (range: Result<(usize, usize), Error>) {
        Ok((0, info.data_len()))
    }

    fn info_mut(&mut self) -> (info: &mut AccountInfo) {
        &mut self.info
    }

    fn from_raw_info(info: AccountInfo) -> (view: Self) {
        SystemAccount { info }
    }
}

impl FromAccountInfo for SystemAccount {
    open spec fn admits(account: AccountView) -> Result<(), Error> {
        if account.owner == SYSTEM_PROGRAM_ID {
            Ok(())
        } else {
            Err(Error::InvalidOwner)
        }
    }

    fn try_from_info(info: AccountInfo) -> (view: Result<Self, Error>) {
        if !info.is_owned_by(&SYSTEM_PROGRAM_ID) {
            return Err(Error::InvalidOwner);
        }
        Ok(SystemAccount { info })
    }
}

impl ReadableAccount for SystemAccount {
    fn as_info(&self) -> (info: &AccountInfo) {
        assert(self.info@ == self.account());
        &self.info
    }

    fn into_info(self) -> (info: AccountInfo) {
        self.info
    }
}

/// A view over an account that signed the transaction.
pub struct Signer {
    info: AccountInfo,
}

impl AccountLayout for Signer {
    closed spec fn account(&self) -> AccountView {
        self.info@
    }

    open spec fn record_range(account: AccountView) -> Result<(int, int), Error> {
        Ok((0, account.data.len() as int))
    }

    proof fn lemma_record_range_in_bounds(account: AccountView) {
    }
}

impl Sealed for Signer {
    fn locate(info: &AccountInfo) -> (range: Result<(usize, usize), Error>) {
        Ok((0, info.data_len()))
    }

    fn info_mut(&mut self) -> (info: &mut AccountInfo) {
        &mut self.info
    }

    fn from_raw_info(info: AccountInfo) -> (view: Self) {
        Signer { info }
    }
}

impl FromAccountInfo for Signer {
    open spec fn admits(account: AccountView) -> Result<(), Error> {
        if account.is_signer {
            Ok(())
        } else {
            Err(Error::AccountNotSigner)
        }
    }

    fn try_from_info(info: AccountInfo) -> (view: Result<Self, Error>) {
        if !info.is_signer() {
            return Err(Error::AccountNotSigner);
        }
        Ok(Signer { info })
    }
}

impl ReadableAccount for Signer {
    fn as_info(&self) -> (info: &AccountInfo) {
        assert(self.info@ == self.account());
        &self.info
    }

    fn into_info(self) -> (info: AccountInfo) {
        self.info
    }
}

impl SignerAccount for Signer {
}

/// A view over an account that holds a record of type `T`.
///
/// The record is what follows `T::DISCRIMINATOR` in the data, as many bytes
/// as `T` is long.
pub struct Account<T> {
    info: AccountInfo,
    record: PhantomData<T>,
}

impl<T: Owner + Discriminator> AccountLayout for Account<T> {
    closed spec fn account(&self) -> AccountView {
        self.info@
    }

    open spec fn record_range(account: AccountView) -> Result<(int, int), Error> {
        record_location(
            account.owner,
            account.data,
            T::OWNER,
            T::DISCRIMINATOR@,
            size_of::<T>() as int,
        )
    }

    proof fn lemma_record_range_in_bounds(account: AccountView) {
    }
}

impl<T: Owner + Discriminator> Sealed for Account<T> {
    fn locate(info: &AccountInfo) -> (range: Result<(usize, usize), Error>) {
        locate_record(
            info.owner(),
            info.data_unguarded(),
            &T::OWNER,
            T::DISCRIMINATOR,
            core::mem::size_of::<T>(),
        )
    }

    fn info_mut(&mut self) -> (info: &mut AccountInfo) {
        &mut self.info
    }

    fn from_raw_info(info: AccountInfo) -> (view: Self) {
        Account { info, record: PhantomData }
    }
}

impl<T: Owner + Discriminator> FromAccountInfo for Account<T> {
    open spec fn admits(account: AccountView) -> Result<(), Error> {
        if account.owner == T::OWNER {
            Ok(())
        } else {
            Err(Error::InvalidOwner)
        }
    }

    fn try_from_info(info: AccountInfo) -> (view: Result<Self, Error>) {
        if !info.is_owned_by(&T::OWNER) {
            return Err(Error::InvalidOwner);
        }
        Ok(Account { info, record: PhantomData })
    }
}

impl<T: Owner + Discriminator> ReadableAccount for Account<T> {
    fn as_info(&self) -> (info: &AccountInfo) {
        assert(self.info@ == self.account());
        &self.info
    }

    fn into_info(self) -> (info: AccountInfo) {
        self.info
    }
}

/// A view that adds writing to the view `A`.
pub struct Mut<A> {
    inner: A,
}

impl<A: ReadableAccount> AccountLayout for Mut<A> {
    closed spec fn account(&self) -> AccountView {
        self.inner.account()
    }

    open spec fn record_range(account: AccountView) -> Result<(int, int), Error> {
        A::record_range(account)
    }

    proof fn lemma_record_range_in_bounds(account: AccountView) {
        A::lemma_record_range_in_bounds(account);
    }
}

impl<A: ReadableAccount> Sealed for Mut<A> {
    fn locate(info: &AccountInfo) -> (range: Result<(usize, usize), Error>) {
        A::locate(info)
    }

    fn info_mut(&mut self) -> (info: &mut AccountInfo) {
        self.inner.info_mut()
    }

    fn from_raw_info(info: AccountInfo) -> (view: Self) {
        Mut { inner: A::from_raw_info(info) }
    }
}

impl<A: ReadableAccount + FromAccountInfo> FromAccountInfo for Mut<A> {
    open spec fn admits(account: AccountView) -> Result<(), Error> {
        if account.is_writable {
            A::admits(account)
        } else {
            Err(Error::AccountNotWritable)
        }
    }

    fn try_from_info(info: AccountInfo) -> (view: Result<Self, Error>) {
        if !info.is_writable() {
            return Err(Error::AccountNotWritable);
        }
        match A::try_from_info(info) {
            Ok(inner) => Ok(Mut { inner }),
            Err(e) => Err(e),
        }
    }
}

impl<A: ReadableAccount> ReadableAccount for Mut<A> {
    fn as_info(&self) -> (info: &AccountInfo) {
        self.inner.as_info()
    }

    fn into_info(self) -> (info: AccountInfo) {
        self.inner.into_info()
    }
}

impl<A: ReadableAccount> WritableAccount for Mut<A> {
}

impl<A: SignerAccount> SignerAccount for Mut<A> {
}

/// An account that another program owns is never read as a record, whatever
/// its data holds, as long as its data cell admits the borrow.
pub proof fn lemma_foreign_owner_is_refused<T: Owner + Discriminator>(account: AccountView)
    requires
        account.owner != T::OWNER,
    ensures
        account.data_borrow.can_read() ==> read_outcome(
            account,
            Account::<T>::record_range(account),
        ) == Err::<Seq<u8>, Error>(Error::InvalidOwner),
        account.data_borrow.can_write() ==> write_outcome(
            account,
            Mut::<Account<T>>::record_range(account),
        ) == Err::<Seq<u8>, Error>(Error::InvalidOwner),
        !account.data_borrow.can_read() ==> read_outcome(
            account,
            Account::<T>::record_range(account),
        ) == Err::<Seq<u8>, Error>(Error::BorrowConflict),
        !account.data_borrow.can_write() ==> write_outcome(
            account,
            Mut::<Account<T>>::record_range(account),
        ) == Err::<Seq<u8>, Error>(Error::BorrowConflict),
{
}

/// A record that was stored under its discriminator in an account of its
/// program is what a reader of that account gets.
pub proof fn lemma_stored_record_is_read<T: Owner + Discriminator>(
    account: AccountView,
    record: Seq<u8>,
)
    requires
        account.owner == T::OWNER,
        account.data_borrow.can_read(),
        record.len() == size_of::<T>(),
        account.data == crate::codec::layout(T::DISCRIMINATOR@, record),
    ensures
        read_outcome(account, Account::<T>::record_range(account)) == Ok::<Seq<u8>, Error>(record),
{
    crate::codec::lemma_layout_round_trip(T::DISCRIMINATOR@, record);
}

} // verus!

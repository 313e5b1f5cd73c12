//! The system service, and the protocol that creates an account through it.
//!
//! The service moves lamports between accounts, gives an account its space and
//! hands it to an owner. It touches an account only while nobody holds a
//! borrow of it. `SystemCpi::create_account` composes these calls: it funds the
//! account up to its rent-exempt minimum, gives it space and owner, and writes
//! the discriminator of the record that it is to hold.

use vstd::prelude::*;
use crate::accounts::{Account, Mut, Owner, Signer, SystemAccount, UncheckedAccount};
use crate::accounts::{AccountLayout, ReadableAccount, WritableAccount};
use crate::codec::{is_tagged, tagged, write_discriminator, Discriminator};
use crate::error::Error;
use crate::info::{AccountInfo, AccountView};
use crate::pubkey::Pubkey;
use crate::sealed::Sealed;

verus! {

/// What a transfer of `amount` lamports makes of source and destination.
///
/// The amount must be covered by the source, both accounts must be free of
/// borrows, and the amount must fit into the destination. The refusals come
/// in this order: an overdraft is refused whatever else holds, and an
/// outstanding borrow is refused before the destination is looked at.
pub open spec fn transferred(from: AccountView, to: AccountView, amount: u64) -> Result<
    (AccountView, AccountView),
    Error,
> {
    if amount > from.lamports {
        Err(Error::ArithmeticOverflow)
    } else if !from.is_unborrowed() || !to.is_unborrowed() {
        Err(Error::BorrowConflict)
    } else if to.lamports + amount > u64::MAX {
        Err(Error::ArithmeticOverflow)
    } else {
        Ok(
            (
                from.with_lamports((from.lamports - amount) as u64),
                to.with_lamports((to.lamports + amount) as u64),
            ),
        )
    }
}

/// What the service makes of an account that is given `space` bytes.
///
/// Bytes that are added are zero. The service rejects a space beyond what is
/// reserved for the account, or beyond what the machine can address.
pub open spec fn allocated(account: AccountView, space: u64) -> Result<AccountView, Error> {
    if !account.is_unborrowed() {
        Err(Error::BorrowConflict)
    } else if space > account.capacity() || space > usize::MAX {
        Err(Error::CpiFailure)
    } else {
        Ok(account.resized(space as int, true))
    }
}

/// What the service makes of an account that is handed to `owner`.
pub open spec fn assigned(account: AccountView, owner: Pubkey) -> Result<AccountView, Error> {
    if !account.is_unborrowed() {
        Err(Error::BorrowConflict)
    } else {
        Ok(account.with_owner(owner))
    }
}

/// What the service makes of an account that is given space and owner in one
/// call on behalf of `payer`.
pub open spec fn created(account: AccountView, payer: AccountView, space: u64, owner: Pubkey)
    -> Result<AccountView, Error> {
    if !account.is_unborrowed() || !payer.is_unborrowed() {
        Err(Error::BorrowConflict)
    } else if space > account.capacity() || space > usize::MAX {
        Err(Error::CpiFailure)
    } else {
        Ok(account.resized(space as int, true).with_owner(owner))
    }
}

/// Moves `amount` lamports from one account to another.
///
/// Everything is checked before either balance is touched: a transfer that
/// is refused leaves both accounts as they were.
pub fn system_transfer(from: &mut AccountInfo, to: &mut AccountInfo, amount: u64) -> (done: Result<
    (),
    Error,
>)
    ensures
        match transferred(old(from)@, old(to)@, amount) {
            Ok(after) => done.is_ok() && final(from)@ == after.0 && final(to)@ == after.1,
            Err(e) => done == Err::<(), Error>(e) && final(from)@ == old(from)@ && final(to)@
                == old(to)@,
        },
{
    let debited = match from.lamports().checked_sub(amount) {
        Some(rest) => rest,
        None => {
            return Err(Error::ArithmeticOverflow);
        },
    };
    if from.is_borrowed() || to.is_borrowed() {
        return Err(Error::BorrowConflict);
    }
    let credited = match to.lamports().checked_add(amount) {
        Some(sum) => sum,
        None => {
            return Err(Error::ArithmeticOverflow);
        },
    };
    from.set_lamports(debited);
    to.set_lamports(credited);
    Ok(())
}

/// Gives an account `space` bytes of data.
pub fn system_allocate(account: &mut AccountInfo, space: u64) -> (done: Result<(), Error>)
    ensures
        match allocated(old(account)@, space) {
            Ok(after) => done.is_ok() && final(account)@ == after,
            Err(e) => done == Err::<(), Error>(e) && final(account)@ == old(account)@,
        },
{
    if account.is_borrowed() {
        return Err(Error::BorrowConflict);
    }
    if space > usize::MAX as u64 {
        return Err(Error::CpiFailure);
    }
    match account.realloc(space as usize, true) {
        Ok(()) => Ok(()),
        Err(_) => Err(Error::CpiFailure),
    }
}

/// Hands an account to `owner`.
pub fn system_assign(account: &mut AccountInfo, owner: &Pubkey) -> (done: Result<(), Error>)
    ensures
        match assigned(old(account)@, *owner) {
            Ok(after) => done.is_ok() && final(account)@ == after,
            Err(e) => done == Err::<(), Error>(e) && final(account)@ == old(account)@,
        },
{
    if account.is_borrowed() {
        return Err(Error::BorrowConflict);
    }
    account.assign(owner);
    Ok(())
}

/// Gives an account space and owner in one call on behalf of `payer`.
pub fn system_create_account(
    account: &mut AccountInfo,
    payer: &AccountInfo,
    space: u64,
    owner: &Pubkey,
) -> (done: Result<(), Error>)
    ensures
        match created(old(account)@, payer@, space, *owner) {
            Ok(after) => done.is_ok() && final(account)@ == after,
            Err(e) => done == Err::<(), Error>(e) && final(account)@ == old(account)@,
        },
{
    if account.is_borrowed() || payer.is_borrowed() {
        return Err(Error::BorrowConflict);
    }
    if space > usize::MAX as u64 {
        return Err(Error::CpiFailure);
    }
    match account.realloc(space as usize, true) {
        Ok(()) => {
            account.assign(owner);
            Ok(())
        },
        Err(_) => Err(Error::CpiFailure),
    }
}

/// The lamports that a balance lacks to reach the rent-exempt minimum.
pub open spec fn shortfall(balance: u64, rent_minimum: u64) -> u64 {
    if balance < rent_minimum {
        (rent_minimum - balance) as u64
    } else {
        0
    }
}

/// The calls by which an account is brought to its balance, space and owner.
#[derive(Debug, Clone, Copy, PartialEq, Eq, Structural)]
pub struct CreationPlan {
    /// The lamports to transfer from the payer; none where this is zero.
    pub shortfall: u64,
    /// Whether space and owner are given in one call, or in two.
    pub combined: bool,
}

/// Decides how an account is created, from its balance and the length of its
/// data: the payer covers what the balance lacks, and an account without
/// data gets space and owner in one call.
pub fn plan_creation(balance: u64, data_len: usize, rent_minimum: u64) -> (plan: CreationPlan)
    ensures
        plan.shortfall == shortfall(balance, rent_minimum),
        plan.combined == (data_len == 0),
{
    CreationPlan {
        shortfall: if balance < rent_minimum {
            rent_minimum - balance
        } else {
            0
        },
        combined: data_len == 0,
    }
}

/// How far a creation got: both accounts as it left them, and its outcome.
pub struct Creation {
    pub target: AccountView,
    pub payer: AccountView,
    pub outcome: Result<(), Error>,
}

/// The first step of a creation: the payer covers what the balance of the
/// target lacks.
pub open spec fn funded(target: AccountView, payer: AccountView, rent_minimum: u64) -> Creation {
    let amount = shortfall(target.lamports, rent_minimum);
    if amount == 0 {
        Creation { target, payer, outcome: Ok(()) }
    } else {
        match transferred(payer, target, amount) {
            Ok(after) => Creation { target: after.1, payer: after.0, outcome: Ok(()) },
            Err(e) => Creation { target, payer, outcome: Err(e) },
        }
    }
}

/// The second step of a creation: the target gets space and owner, in one
/// call where it has no data yet and in two calls otherwise.
pub open spec fn housed(target: AccountView, payer: AccountView, space: u64, owner: Pubkey)
    -> Result<AccountView, Error> {
    if target.data.len() == 0 {
        created(target, payer, space, owner)
    } else {
        match allocated(target, space) {
            Ok(after) => assigned(after, owner),
            Err(e) => Err(e),
        }
    }
}

/// The third step of a creation: the discriminator is written at the start
/// of the data, under a writer's borrow that ends with the step.
pub open spec fn tagged_account(target: AccountView, discriminator: Seq<u8>) -> Result<
    AccountView,
    Error,
> {
    if !target.data_borrow.can_write() {
        Err(Error::BorrowConflict)
    } else if discriminator.len() > target.data.len() {
        Err(Error::InvalidDiscriminator)
    } else {
        Ok(target.with_data(tagged(target.data, discriminator)))
    }
}

/// A creation as a whole: its steps in order, stopped by the first that fails.
pub open spec fn creation(
    target: AccountView,
    payer: AccountView,
    rent_minimum: u64,
    owner: Pubkey,
    space: u64,
    discriminator: Seq<u8>,
) -> Creation {
    let step = funded(target, payer, rent_minimum);
    if step.outcome.is_err() {
        step
    } else {
        match housed(step.target, step.payer, space, owner) {
            Err(e) => Creation { target: step.target, payer: step.payer, outcome: Err(e) },
            Ok(with_space) => match tagged_account(with_space, discriminator) {
                Err(e) => Creation { target: with_space, payer: step.payer, outcome: Err(e) },
                Ok(with_tag) => Creation {
                    target: with_tag,
                    payer: step.payer,
                    outcome: Ok(()),
                },
            },
        }
    }
}

/// Calls into the system service on behalf of an account.
///
/// Only writable views have it: `Mut<SystemAccount>`, `Mut<Signer>` and
/// `Mut<UncheckedAccount>`.
pub trait SystemCpi: ReadableAccount {
    /// Asks the service to give the account `new_space` bytes of data.
    fn allocate(&mut self, new_space: u64) -> (done: Result<(), Error>)
        ensures
            match allocated(old(self).account(), new_space) {
                Ok(after) => done.is_ok() && final(self).account() == after,
                Err(e) => done == Err::<(), Error>(e) && final(self).account() == old(self).account(),
            },
    {
        system_allocate(self.info_mut(), new_space)
    }

    /// Asks the service to hand the account to `owner`.
    fn assign(&mut self, owner: &Pubkey) -> (done: Result<(), Error>)
        ensures
            match assigned(old(self).account(), *owner) {
                Ok(after) => done.is_ok() && final(self).account() == after,
                Err(e) => done == Err::<(), Error>(e) && final(self).account() == old(self).account(),
            },
    {
        system_assign(self.info_mut(), owner)
    }

    /// Creates the account that holds a record of type `T`.
    ///
    /// The payer covers what the balance lacks to `rent_minimum`; the account
    /// gets `space` bytes and `owner`; the discriminator of `T` is written at
    /// the start of its data. The first step that fails ends the creation, and
    /// what the steps before it did remains.
    fn create_account<T: Discriminator + Owner, P: WritableAccount>(
        self,
        rent_minimum: u64,
        payer: &mut P,
        owner: &Pubkey,
        space: usize,
    ) -> (account: Result<Mut<Account<T>>, Error>)
        ensures
            final(payer).account() == creation(
                self.account(),
                old(payer).account(),
                rent_minimum,
                *owner,
                space as u64,
                T::DISCRIMINATOR@,
            ).payer,
            match creation(
                self.account(),
                old(payer).account(),
                rent_minimum,
                *owner,
                space as u64,
                T::DISCRIMINATOR@,
            ).outcome {
                Ok(()) => account.is_ok() && account.unwrap().account() == creation(
                    self.account(),
                    old(payer).account(),
                    rent_minimum,
                    *owner,
                    space as u64,
                    T::DISCRIMINATOR@,
                ).target,
                Err(e) => account matches Err(refusal) && refusal == e,
            },
    {
        let mut target = self.into_info();
        let plan = plan_creation(target.lamports(), target.data_len(), rent_minimum);
        if plan.shortfall > 0 {
            match system_transfer(payer.info_mut(), &mut target, plan.shortfall) {
                Ok(()) => {},
                Err(e) => {
                    return Err(e);
                },
            }
        }
        if plan.combined {
            match system_create_account(&mut target, payer.as_info(), space as u64, owner) {
                Ok(()) => {},
                Err(e) => {
                    return Err(e);
                },
            }
        } else {
            match system_allocate(&mut target, space as u64) {
                Ok(()) => {},
                Err(e) => {
                    return Err(e);
                },
            }
            match system_assign(&mut target, owner) {
                Ok(()) => {},
                Err(e) => {
                    return Err(e);
                },
            }
        }
        let written = match target.try_borrow_mut_data() {
            Ok(data) => write_discriminator(data, T::DISCRIMINATOR),
            Err(e) => {
                return Err(e);
            },
        };
        target.release_mut_data();
        match written {
            Ok(()) => Ok(Mut::from_raw_info(target)),
            Err(e) => Err(e),
        }
    }

    /// Moves `amount` lamports from this account to `to`.
    fn transfer<W: WritableAccount>(&mut self, to: &mut W, amount: u64) -> (done: Result<
        (),
        Error,
    >)
        ensures
            match transferred(old(self).account(), old(to).account(), amount) {
                Ok(after) => done.is_ok() && final(self).account() == after.0 && final(to).account() == after.1,
                Err(e) => done == Err::<(), Error>(e) && final(self).account() == old(self).account() && final(to).account() == old(to).account(),
            },
    {
        system_transfer(self.info_mut(), to.info_mut(), amount)
    }
}

impl SystemCpi for Mut<SystemAccount> {
}

impl SystemCpi for Mut<Signer> {
}

impl SystemCpi for Mut<UncheckedAccount> {
}

/// A transfer of more than the source holds is refused, whatever else is
/// true of the two accounts.
pub proof fn lemma_overdraft_is_refused(from: AccountView, to: AccountView, amount: u64)
    requires
        amount > from.lamports,
    ensures
        transferred(from, to, amount) == Err::<(AccountView, AccountView), Error>(
            Error::ArithmeticOverflow,
        ),
{
}

/// A transfer that the source can cover is refused as a borrow conflict
/// while any borrow of either account is outstanding, whatever the
/// destination holds.
pub proof fn lemma_borrowed_transfer_is_refused(from: AccountView, to: AccountView, amount: u64)
    requires
        amount <= from.lamports,
        !from.is_unborrowed() || !to.is_unborrowed(),
    ensures
        transferred(from, to, amount) == Err::<(AccountView, AccountView), Error>(
            Error::BorrowConflict,
        ),
{
}

/// Between accounts that are free of borrows, a transfer that the source can
/// cover is refused exactly when the destination cannot take the amount.
pub proof fn lemma_full_destination_is_refused(from: AccountView, to: AccountView, amount: u64)
    requires
        amount <= from.lamports,
        from.is_unborrowed(),
        to.is_unborrowed(),
    ensures
        to.lamports + amount > u64::MAX <==> transferred(from, to, amount) == Err::<
            (AccountView, AccountView),
            Error,
        >(Error::ArithmeticOverflow),
        to.lamports + amount <= u64::MAX <==> transferred(from, to, amount).is_ok(),
{
}

/// A transfer that is carried out moves exactly `amount` lamports, creates
/// and destroys none, and changes nothing else.
pub proof fn lemma_transfer_conserves(from: AccountView, to: AccountView, amount: u64)
    requires
        transferred(from, to, amount).is_ok(),
    ensures
        transferred(from, to, amount).unwrap().0.lamports == from.lamports - amount,
        transferred(from, to, amount).unwrap().1.lamports == to.lamports + amount,
        transferred(from, to, amount).unwrap().0 == from.with_lamports(
            transferred(from, to, amount).unwrap().0.lamports,
        ),
        transferred(from, to, amount).unwrap().1 == to.with_lamports(
            transferred(from, to, amount).unwrap().1.lamports,
        ),
{
}

/// Creating a fresh account succeeds: one with no lamports and no data, with
/// a payer that can afford the rent-exempt minimum, a space that is reserved
/// for it and that holds the discriminator, and no borrow outstanding. The
/// payer then has paid exactly the minimum, and the account has the balance,
/// the owner, the space and the discriminator that were asked for.
pub proof fn lemma_fresh_account_is_created(
    target: AccountView,
    payer: AccountView,
    rent_minimum: u64,
    owner: Pubkey,
    space: u64,
    discriminator: Seq<u8>,
)
    requires
        target.lamports == 0,
        target.data.len() == 0,
        target.is_unborrowed(),
        payer.is_unborrowed(),
        payer.lamports >= rent_minimum,
        space <= target.capacity(),
        space <= usize::MAX,
        discriminator.len() <= space,
    ensures
        creation(target, payer, rent_minimum, owner, space, discriminator).outcome.is_ok(),
        creation(target, payer, rent_minimum, owner, space, discriminator).payer
            == payer.with_lamports((payer.lamports - rent_minimum) as u64),
        creation(target, payer, rent_minimum, owner, space, discriminator).target.lamports
            == rent_minimum,
        creation(target, payer, rent_minimum, owner, space, discriminator).target.owner == owner,
        creation(target, payer, rent_minimum, owner, space, discriminator).target.data.len()
            == space,
        is_tagged(
            creation(target, payer, rent_minimum, owner, space, discriminator).target.data,
            discriminator,
        ),
        forall|i: int|
            discriminator.len() <= i < space ==> creation(
                target,
                payer,
                rent_minimum,
                owner,
                space,
                discriminator,
            ).target.data[i] == 0,
{
    let made = creation(target, payer, rent_minimum, owner, space, discriminator);
    assert(made.target.data.subrange(0, discriminator.len() as int) =~= discriminator);
}

/// Whatever the account was before, a creation that succeeds leaves it with
/// the space, the owner and the discriminator that were asked for, with a
/// balance that reaches the rent-exempt minimum, and with no borrow
/// outstanding. No lamports are made or lost between it and the payer, and
/// both keep their key and their flags.
pub proof fn lemma_creation_establishes_record(
    target: AccountView,
    payer: AccountView,
    rent_minimum: u64,
    owner: Pubkey,
    space: u64,
    discriminator: Seq<u8>,
)
    requires
        creation(target, payer, rent_minimum, owner, space, discriminator).outcome.is_ok(),
    ensures
        creation(target, payer, rent_minimum, owner, space, discriminator).target.owner == owner,
        creation(target, payer, rent_minimum, owner, space, discriminator).target.data.len()
            == space,
        is_tagged(
            creation(target, payer, rent_minimum, owner, space, discriminator).target.data,
            discriminator,
        ),
        creation(target, payer, rent_minimum, owner, space, discriminator).target.lamports
            >= rent_minimum,
        creation(target, payer, rent_minimum, owner, space, discriminator).target.is_unborrowed(),
        creation(target, payer, rent_minimum, owner, space, discriminator).target.lamports
            + creation(target, payer, rent_minimum, owner, space, discriminator).payer.lamports
            == target.lamports + payer.lamports,
        creation(target, payer, rent_minimum, owner, space, discriminator).target.same_identity(
            target,
        ),
        creation(target, payer, rent_minimum, owner, space, discriminator).payer.same_identity(
            payer,
        ),
{
    let made = creation(target, payer, rent_minimum, owner, space, discriminator);
    assert(made.target.data.subrange(0, discriminator.len() as int) =~= discriminator);
}

/// A creation that fails at its first step has changed neither account.
pub proof fn lemma_unfunded_creation_changes_nothing(
    target: AccountView,
    payer: AccountView,
    rent_minimum: u64,
    owner: Pubkey,
    space: u64,
    discriminator: Seq<u8>,
)
    requires
        funded(target, payer, rent_minimum).outcome.is_err(),
    ensures
        creation(target, payer, rent_minimum, owner, space, discriminator).outcome.is_err(),
        creation(target, payer, rent_minimum, owner, space, discriminator).target == target,
        creation(target, payer, rent_minimum, owner, space, discriminator).payer == payer,
{
}

} // verus!

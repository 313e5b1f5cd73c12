use typed_accounts::accounts::{
    locate_record, Account, FromAccountInfo, Mut, Owner, ReadableAccount, Signer, SystemAccount,
    UncheckedAccount, WritableAccount,
};
use typed_accounts::codec::{write_layout, Discriminator};
use typed_accounts::error::Error;
use typed_accounts::info::AccountInfo;
use typed_accounts::pubkey::{Pubkey, SYSTEM_PROGRAM_ID};

const KEY: Pubkey = [1u8; 32];
const PROGRAM: Pubkey = [7u8; 32];
const OTHER: Pubkey = [8u8; 32];

#[allow(dead_code)]
struct Counter {
    count: [u8; 4],
    bump: u8,
}

impl Discriminator for Counter {
    const DISCRIMINATOR: &'static [u8] = &[0xC0, 0x01];
}

impl Owner for Counter {
    const OWNER: Pubkey = PROGRAM;
}

fn stored_counter() -> Vec<u8> {
    write_layout(Counter::DISCRIMINATOR, &[10, 20, 30, 40, 5])
}

fn info(owner: Pubkey, data: Vec<u8>) -> AccountInfo {
    AccountInfo::new(KEY, owner, 900, data, false, true)
}

#[test]
fn unchecked_account_admits_everything() {
    let raw = AccountInfo::new(KEY, OTHER, 1, vec![1, 2], false, false);
    let mut view = UncheckedAccount::try_from_info(raw).unwrap();
    assert_eq!(view.key(), &KEY);
    assert!(view.is_owned_by(&OTHER));
    assert_eq!(view.data(), Ok(&[1u8, 2][..]));
    assert_eq!(view.lamports(), Ok(&1));
}

#[test]
fn system_account_asks_for_the_system_owner() {
    assert!(SystemAccount::try_from_info(info(SYSTEM_PROGRAM_ID, vec![])).is_ok());
    assert_eq!(SystemAccount::try_from_info(info(PROGRAM, vec![])).err(), Some(Error::InvalidOwner));
}

#[test]
fn signer_asks_for_the_signer_flag() {
    let signed = AccountInfo::new(KEY, PROGRAM, 0, vec![], true, false);
    let unsigned = AccountInfo::new(KEY, PROGRAM, 0, vec![], false, true);
    assert!(Signer::try_from_info(signed).is_ok());
    assert_eq!(Signer::try_from_info(unsigned).err(), Some(Error::AccountNotSigner));
}

#[test]
fn mut_asks_for_the_writable_flag_first() {
    let read_only = AccountInfo::new(KEY, OTHER, 0, vec![], true, false);
    assert_eq!(
        Mut::<Account<Counter>>::try_from_info(read_only).err(),
        Some(Error::AccountNotWritable)
    );
    let foreign = AccountInfo::new(KEY, OTHER, 0, vec![], true, true);
    assert_eq!(Mut::<Account<Counter>>::try_from_info(foreign).err(), Some(Error::InvalidOwner));
    let unsigned = AccountInfo::new(KEY, OTHER, 0, vec![], false, true);
    assert_eq!(Mut::<Signer>::try_from_info(unsigned).err(), Some(Error::AccountNotSigner));
    let good = AccountInfo::new(KEY, PROGRAM, 0, vec![], true, true);
    assert!(Mut::<Account<Counter>>::try_from_info(good).is_ok());
}

#[test]
fn typed_account_asks_for_its_program() {
    assert!(Account::<Counter>::try_from_info(info(PROGRAM, vec![])).is_ok());
    assert_eq!(
        Account::<Counter>::try_from_info(info(OTHER, stored_counter())).err(),
        Some(Error::InvalidOwner)
    );
}

#[test]
fn typed_data_is_the_record_behind_the_discriminator() {
    let mut view = Account::<Counter>::try_from_info(info(PROGRAM, stored_counter())).unwrap();
    assert_eq!(view.data(), Ok(&[10u8, 20, 30, 40, 5][..]));
    assert!(!view.as_info().can_borrow_mut_data());
    view.release_data();
    assert!(view.as_info().can_borrow_mut_data());
}

#[test]
fn typed_data_ignores_what_follows_the_record() {
    let mut data = stored_counter();
    data.extend_from_slice(&[77, 78]);
    let mut view = Account::<Counter>::try_from_info(info(PROGRAM, data)).unwrap();
    assert_eq!(view.data(), Ok(&[10u8, 20, 30, 40, 5][..]));
}

#[test]
fn data_of_a_foreign_account_is_refused_whatever_it_holds() {
    for data in [stored_counter(), vec![], vec![0xC0], vec![1, 2, 3, 4, 5, 6, 7, 8, 9]] {
        let mut view = Mut::<Account<Counter>>::try_from_info(info(PROGRAM, data)).unwrap();
        view.assign(&OTHER);
        assert_eq!(view.data(), Err(Error::InvalidOwner));
        assert_eq!(view.mut_data(), Err(Error::InvalidOwner));
        assert!(!view.as_info().is_borrowed());
    }
}

#[test]
fn data_with_a_wrong_tag_is_refused() {
    for data in [vec![], vec![0xC0], vec![0xC0, 0x02, 1, 2, 3, 4, 5], vec![0u8; 7]] {
        let mut view = Mut::<Account<Counter>>::try_from_info(info(PROGRAM, data)).unwrap();
        assert_eq!(view.data(), Err(Error::InvalidDiscriminator));
        assert_eq!(view.mut_data(), Err(Error::InvalidDiscriminator));
        assert!(!view.as_info().is_borrowed());
    }
}

#[test]
fn data_too_short_for_the_record_is_refused() {
    for len in 2..7usize {
        let data = stored_counter()[..len].to_vec();
        let mut view = Mut::<Account<Counter>>::try_from_info(info(PROGRAM, data)).unwrap();
        assert_eq!(view.data(), Err(Error::DeserializationError));
        assert_eq!(view.mut_data(), Err(Error::DeserializationError));
        assert!(!view.as_info().is_borrowed());
    }
}

#[test]
fn borrow_conflict_comes_before_the_other_checks() {
    let mut view = Mut::<Account<Counter>>::try_from_info(info(PROGRAM, stored_counter())).unwrap();
    assert!(view.mut_data().is_ok());
    view.assign(&OTHER);
    assert_eq!(view.data(), Err(Error::BorrowConflict));
    assert_eq!(view.mut_data(), Err(Error::BorrowConflict));
    view.release_mut_data();
    assert_eq!(view.data(), Err(Error::InvalidOwner));
}

#[test]
fn second_exclusive_borrow_of_the_record_fails_until_release() {
    let mut view = Mut::<Account<Counter>>::try_from_info(info(PROGRAM, stored_counter())).unwrap();
    assert!(view.mut_data().is_ok());
    assert_eq!(view.mut_data(), Err(Error::BorrowConflict));
    assert_eq!(view.data(), Err(Error::BorrowConflict));
    view.release_mut_data();
    assert!(view.mut_data().is_ok());
    view.release_mut_data();
    assert!(view.data().is_ok());
    assert!(view.data().is_ok());
    assert_eq!(view.mut_data(), Err(Error::BorrowConflict));
    view.release_data();
    view.release_data();
    assert!(view.mut_data().is_ok());
}

#[test]
fn record_written_through_mut_data_stays() {
    let mut data = stored_counter();
    data.push(99);
    let mut view = Mut::<Account<Counter>>::try_from_info(info(PROGRAM, data)).unwrap();
    {
        let record = view.mut_data().unwrap();
        assert_eq!(record.len(), 5);
        record[0] = 11;
        record[4] = 6;
    }
    view.release_mut_data();
    assert_eq!(view.data(), Ok(&[11u8, 20, 30, 40, 6][..]));
    view.release_data();
    let mut raw = view.into_info();
    assert_eq!(raw.try_borrow_data(), Ok(&[0xC0u8, 0x01, 11, 20, 30, 40, 6, 99][..]));
}

#[test]
fn raw_views_write_the_whole_data() {
    let mut view = Mut::<UncheckedAccount>::try_from_info(info(OTHER, vec![1, 2, 3])).unwrap();
    view.mut_data().unwrap()[2] = 30;
    view.release_mut_data();
    assert_eq!(view.data(), Ok(&[1u8, 2, 30][..]));
}

#[test]
fn lamports_are_read_and_written_through_the_views() {
    let mut view = Mut::<UncheckedAccount>::try_from_info(info(OTHER, vec![])).unwrap();
    assert_eq!(view.lamports(), Ok(&900));
    assert_eq!(view.mut_lamports(), Err(Error::BorrowConflict));
    view.release_lamports();
    *view.mut_lamports().unwrap() += 100;
    assert_eq!(view.mut_lamports(), Err(Error::BorrowConflict));
    assert_eq!(view.lamports(), Err(Error::BorrowConflict));
    view.release_mut_lamports();
    assert_eq!(view.lamports(), Ok(&1000));
    assert_eq!(view.as_info().lamports(), 1000);
}

#[test]
fn assign_leaves_the_data_untouched() {
    let mut view = Mut::<Account<Counter>>::try_from_info(info(PROGRAM, stored_counter())).unwrap();
    view.assign(&OTHER);
    assert!(view.is_owned_by(&OTHER));
    assert!(!view.is_owned_by(&PROGRAM));
    let mut raw = view.into_info();
    assert_eq!(raw.try_borrow_data().unwrap(), &stored_counter()[..]);
    assert_eq!(raw.lamports(), 900);
}

#[test]
fn realloc_through_a_view() {
    let mut view = Mut::<UncheckedAccount>::try_from_info(info(OTHER, vec![1, 2, 3])).unwrap();
    assert_eq!(view.realloc(5, true), Ok(()));
    assert_eq!(view.data(), Ok(&[1u8, 2, 3, 0, 0][..]));
    assert_eq!(view.realloc(2, true), Err(Error::BorrowConflict));
    view.release_data();
    assert_eq!(view.realloc(2, true), Ok(()));
    assert_eq!(view.data(), Ok(&[1u8, 2][..]));
    view.release_data();
    assert_eq!(view.realloc(20_000, true), Err(Error::InvalidRealloc));
    assert_eq!(view.as_info().data_len(), 2);
}

#[test]
fn realloc_can_cut_a_record_short() {
    let mut view = Mut::<Account<Counter>>::try_from_info(info(PROGRAM, stored_counter())).unwrap();
    assert_eq!(view.realloc(6, false), Ok(()));
    assert_eq!(view.data(), Err(Error::DeserializationError));
    assert_eq!(view.realloc(7, false), Ok(()));
    assert_eq!(view.data(), Ok(&[10u8, 20, 30, 40, 5][..]));
}

#[test]
fn locate_record_checks_owner_then_tag_then_length() {
    let data = [0xC0u8, 0x01, 1, 2, 3];
    assert_eq!(locate_record(&PROGRAM, &data, &PROGRAM, &[0xC0, 0x01], 3), Ok((2, 3)));
    assert_eq!(locate_record(&PROGRAM, &data, &PROGRAM, &[0xC0, 0x01], 0), Ok((2, 0)));
    assert_eq!(locate_record(&PROGRAM, &data, &PROGRAM, &[], 5), Ok((0, 5)));
    assert_eq!(locate_record(&PROGRAM, &data, &PROGRAM, &[0xC0, 0x01], 4), Err(Error::DeserializationError));
    assert_eq!(
        locate_record(&PROGRAM, &data, &PROGRAM, &[0xC0, 0x01], usize::MAX),
        Err(Error::DeserializationError)
    );
    assert_eq!(locate_record(&PROGRAM, &data, &PROGRAM, &[0xC0, 0x02], 3), Err(Error::InvalidDiscriminator));
    assert_eq!(locate_record(&PROGRAM, &[0xC0], &PROGRAM, &[0xC0, 0x01], 0), Err(Error::InvalidDiscriminator));
    assert_eq!(locate_record(&OTHER, &data, &PROGRAM, &[0xC0, 0x01], 3), Err(Error::InvalidOwner));
    assert_eq!(locate_record(&OTHER, &[], &PROGRAM, &[0xC0, 0x02], 9), Err(Error::InvalidOwner));
}

#[test]
fn flags_and_key_survive_every_change() {
    let raw = AccountInfo::new(KEY, PROGRAM, 5, stored_counter(), true, true);
    let mut view = Mut::<Signer>::try_from_info(raw).unwrap();
    view.assign(&OTHER);
    assert_eq!(view.realloc(3, true), Ok(()));
    *view.mut_lamports().unwrap() = 1;
    view.release_mut_lamports();
    view.mut_data().unwrap()[0] = 0;
    view.release_mut_data();
    let raw = view.into_info();
    assert_eq!(raw.key(), &KEY);
    assert!(raw.is_signer());
    assert!(raw.is_writable());
    assert!(Mut::<Signer>::try_from_info(raw).is_ok());
}

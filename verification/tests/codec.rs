use typed_accounts::codec::{
    has_discriminator, read_record, read_record_mut, record_bytes, record_bytes_mut,
    write_discriminator, write_layout, write_record,
};
use typed_accounts::error::Error;

const TAG: [u8; 8] = [0xA1, 0xB2, 0xC3, 0xD4, 0xE5, 0xF6, 0x07, 0x18];

#[test]
fn write_layout_puts_discriminator_first() {
    let stored = write_layout(&TAG, &[9, 8, 7]);
    assert_eq!(stored, vec![0xA1, 0xB2, 0xC3, 0xD4, 0xE5, 0xF6, 0x07, 0x18, 9, 8, 7]);
}

#[test]
fn write_layout_of_empty_record_is_the_discriminator() {
    assert_eq!(write_layout(&TAG, &[]), TAG.to_vec());
    assert_eq!(write_layout(&[], &[]), Vec::<u8>::new());
}

#[test]
fn stored_record_is_read_back() {
    let record = [1u8, 2, 3, 4, 5, 6, 7, 8, 9, 10, 11, 12];
    let stored = write_layout(&TAG, &record);
    assert_eq!(record_bytes(&stored, TAG.len(), record.len()), Some(&record[..]));
    assert!(has_discriminator(&stored, &TAG));
}

#[test]
fn record_is_found_in_a_longer_buffer() {
    let data = [0u8, 1, 2, 3, 4, 5, 6, 7, 8, 9];
    assert_eq!(record_bytes(&data, 2, 3), Some(&[2u8, 3, 4][..]));
    assert_eq!(record_bytes(&data, 0, 10), Some(&data[..]));
    assert_eq!(record_bytes(&data, 10, 0), Some(&[][..]));
}

#[test]
fn short_buffer_holds_no_record() {
    let data = [0u8; 11];
    assert_eq!(record_bytes(&data, 8, 4), None);
    assert_eq!(record_bytes(&data, 12, 0), None);
    assert_eq!(record_bytes(&[], 0, 1), None);
    assert_eq!(record_bytes(&[], 1, 0), None);
    assert_eq!(record_bytes(&data[..7], 8, 4), None);
}

#[test]
fn huge_prefix_or_size_holds_no_record() {
    let data = [0u8; 4];
    assert_eq!(record_bytes(&data, usize::MAX, 1), None);
    assert_eq!(record_bytes(&data, 1, usize::MAX), None);
    assert_eq!(record_bytes(&data, usize::MAX, usize::MAX), None);
}

#[test]
fn record_bytes_mut_changes_only_the_record() {
    let mut data = [10u8, 11, 12, 13, 14, 15];
    {
        let record = record_bytes_mut(&mut data, 2, 3).unwrap();
        assert_eq!(record, &mut [12u8, 13, 14][..]);
        record[0] = 0;
        record[2] = 99;
    }
    assert_eq!(data, [10, 11, 0, 13, 99, 15]);
}

#[test]
fn record_bytes_mut_of_short_buffer_is_none() {
    let mut data = [1u8, 2, 3];
    assert!(record_bytes_mut(&mut data, 2, 2).is_none());
    assert!(record_bytes_mut(&mut data, 4, 0).is_none());
    assert!(record_bytes_mut(&mut data, usize::MAX, 2).is_none());
    assert_eq!(data, [1, 2, 3]);
}

#[test]
fn has_discriminator_compares_the_prefix() {
    assert!(has_discriminator(&[1, 2, 3, 4], &[1, 2]));
    assert!(has_discriminator(&[1, 2], &[1, 2]));
    assert!(has_discriminator(&[1, 2], &[]));
    assert!(has_discriminator(&[], &[]));
    assert!(!has_discriminator(&[1, 2, 3, 4], &[1, 3]));
    assert!(!has_discriminator(&[1, 2, 3, 4], &[2, 2]));
    assert!(!has_discriminator(&[1], &[1, 2]));
    assert!(!has_discriminator(&[], &[1]));
}

#[test]
fn write_discriminator_overwrites_the_prefix_only() {
    let mut data = [0u8, 0, 0, 7, 8];
    assert_eq!(write_discriminator(&mut data, &[1, 2, 3]), Ok(()));
    assert_eq!(data, [1, 2, 3, 7, 8]);
    let mut exact = [9u8, 9];
    assert_eq!(write_discriminator(&mut exact, &[4, 5]), Ok(()));
    assert_eq!(exact, [4, 5]);
    let mut untouched = [6u8, 6];
    assert_eq!(write_discriminator(&mut untouched, &[]), Ok(()));
    assert_eq!(untouched, [6, 6]);
}

#[test]
fn write_discriminator_refuses_a_short_buffer() {
    let mut data = [5u8, 6];
    assert_eq!(write_discriminator(&mut data, &[1, 2, 3]), Err(Error::InvalidDiscriminator));
    assert_eq!(data, [5, 6]);
}

#[test]
fn typed_record_is_read_behind_the_prefix() {
    let data = [1u8, 2, 10, 20, 30, 40, 50];
    assert_eq!(read_record::<[u8; 4]>(&data, 2), Some(&[10u8, 20, 30, 40]));
    assert_eq!(read_record::<u8>(&data, 6), Some(&50u8));
    assert_eq!(read_record::<[u8; 0]>(&data, 7), Some(&[]));
}

#[test]
fn typed_record_of_short_buffer_is_none() {
    let data = [1u8, 2, 10, 20, 30];
    assert_eq!(read_record::<[u8; 4]>(&data, 2), None);
    assert_eq!(read_record::<[u8; 4]>(&data, 6), None);
    assert_eq!(read_record::<u64>(&data, 0), None);
    assert_eq!(read_record::<u8>(&[], 0), None);
    assert_eq!(read_record::<u8>(&data, usize::MAX), None);
}

#[test]
fn typed_record_is_written_in_place() {
    let mut data = [1u8, 2, 10, 20, 30, 40, 50];
    {
        let record = read_record_mut::<[u8; 4]>(&mut data, 2).unwrap();
        assert_eq!(*record, [10, 20, 30, 40]);
        *record = [11, 21, 31, 41];
    }
    assert_eq!(data, [1, 2, 11, 21, 31, 41, 50]);
    assert!(read_record_mut::<[u8; 4]>(&mut data, 4).is_none());
    assert_eq!(data, [1, 2, 11, 21, 31, 41, 50]);
}

#[test]
fn typed_round_trip() {
    let record: [u8; 6] = [3, 1, 4, 1, 5, 9];
    let stored = write_record(&TAG, &record);
    assert_eq!(stored.len(), TAG.len() + 6);
    assert_eq!(&stored[..8], &TAG[..]);
    assert_eq!(&stored[8..], &record[..]);
    assert_eq!(read_record::<[u8; 6]>(&stored, TAG.len()), Some(&record));
}

#[test]
fn typed_round_trip_of_an_integer() {
    let stored = write_record(&[], &0x0102_0304_0506_0708u64);
    assert_eq!(stored.len(), 8);
    assert_eq!(u64::from_ne_bytes([
        stored[0], stored[1], stored[2], stored[3], stored[4], stored[5], stored[6], stored[7],
    ]), 0x0102_0304_0506_0708u64);
}

//! Discriminator-tagged records in a byte buffer.
//!
//! A record of type `T` is stored as the bytes of `T::DISCRIMINATOR` followed
//! by the bytes of the record itself. The functions here find the record
//! inside a buffer of any length and never read outside it: a buffer that is
//! too short yields `None`.

use vstd::prelude::*;
use vstd::layout::{align_of, size_of};
use bytemuck::{AnyBitPattern, NoUninit};
use crate::error::Error;

verus! {

/// A record type with the byte prefix that tags it in storage.
pub trait Discriminator {
    const DISCRIMINATOR: &'static [u8];
}

/// The stored form of a record: its discriminator, then its bytes.
pub open spec fn layout(discriminator: Seq<u8>, record: Seq<u8>) -> Seq<u8> {
    discriminator + record
}

/// The `size` bytes that follow a prefix of `prefix` bytes, if `data` holds them.
pub open spec fn record_at(data: Seq<u8>, prefix: int, size: int) -> Option<Seq<u8>> {
    if 0 <= prefix && 0 <= size && prefix + size <= data.len() {
        Some(data.subrange(prefix, prefix + size))
    } else {
        None
    }
}

/// What a buffer becomes when the record at `prefix` is replaced by `record`.
pub open spec fn with_record(data: Seq<u8>, prefix: int, record: Seq<u8>) -> Seq<u8> {
    data.subrange(0, prefix) + record + data.subrange(
        prefix + record.len(),
        data.len() as int,
    )
}

/// Whether `data` starts with `discriminator`.
pub open spec fn is_tagged(data: Seq<u8>, discriminator: Seq<u8>) -> bool {
    discriminator.len() <= data.len() && data.subrange(0, discriminator.len() as int)
        == discriminator
}

/// What a buffer becomes when `discriminator` is written at its start.
pub open spec fn tagged(data: Seq<u8>, discriminator: Seq<u8>) -> Seq<u8> {
    discriminator + data.subrange(discriminator.len() as int, data.len() as int)
}

/// The part of a slice between two positions, borrowed mutably.
///
/// Trusted: this is `IndexMut::index_mut` of a slice with a range. The contract
/// says that the part holds the bytes between the positions, that it keeps its
/// length while it is borrowed, and that the rest of the slice is untouched.
#[verifier::external_body]
pub(crate) fn slice_range_mut(data: &mut [u8], start: usize, end: usize) -> (part: &mut [u8])
    requires
        start <= end <= old(data)@.len(),
    ensures
        part@ == old(data)@.subrange(start as int, end as int),
        final(part)@.len() == end - start,
        final(data)@ == old(data)@.subrange(0, start as int) + final(part)@
            + old(data)@.subrange(end as int, old(data)@.len() as int),
{
    &mut data[start..end]
}

/// The bytes of the record that follows a prefix of `prefix` bytes.
pub fn record_bytes(data: &[u8], prefix: usize, size: usize) -> (record: Option<&[u8]>)
    ensures
        match record_at(data@, prefix as int, size as int) {
            Some(bytes) => record.is_some() && record.unwrap()@ == bytes,
            None => record.is_none(),
        },
{
    if prefix > data.len() || size > data.len() - prefix {
        return None;
    }
    Some(vstd::slice::slice_subrange(data, prefix, prefix + size))
}

/// The bytes of the record that follows a prefix of `prefix` bytes, for writing.
///
/// What is written through the result replaces the record in `data`; every
/// other byte of `data` stays as it was.
pub fn record_bytes_mut(data: &mut [u8], prefix: usize, size: usize) -> (record: Option<
    &mut [u8],
>)
    ensures
        match record_at(old(data)@, prefix as int, size as int) {
            Some(bytes) => record.is_some() && record.unwrap()@ == bytes
                && final(record.unwrap())@.len() == size
                && final(data)@ == with_record(old(data)@, prefix as int, final(record.unwrap())@),
            None => record.is_none() && final(data)@ == old(data)@,
        },
{
    if prefix > data.len() || size > data.len() - prefix {
        return None;
    }
    Some(slice_range_mut(data, prefix, prefix + size))
}

/// Whether `data` starts with `discriminator`.
pub fn has_discriminator(data: &[u8], discriminator: &[u8]) -> (found: bool)
    ensures
        found == is_tagged(data@, discriminator@),
{
    let n = discriminator.len();
    if n > data.len() {
        return false;
    }
    let mut i: usize = 0;
    while i < n
        invariant
            i <= n,
            n == discriminator@.len(),
            n <= data@.len(),
            forall|j: int| 0 <= j < i ==> data@[j] == discriminator@[j],
        decreases n - i,
    {
        if data[i] != discriminator[i] {
            assert(data@.subrange(0, n as int)[i as int] != discriminator@[i as int]);
            return false;
        }
        i = i + 1;
    }
    assert(data@.subrange(0, n as int) =~= discriminator@);
    true
}

/// Writes `discriminator` at the start of `data`.
///
/// A buffer shorter than the discriminator is left as it was.
pub fn write_discriminator(data: &mut [u8], discriminator: &[u8]) -> (done: Result<(), Error>)
    ensures
        discriminator@.len() <= old(data)@.len() ==> done.is_ok() && final(data)@ == tagged(
            old(data)@,
            discriminator@,
        ),
        discriminator@.len() > old(data)@.len() ==> done == Err::<(), Error>(
            Error::InvalidDiscriminator,
        ) && final(data)@ == old(data)@,
{
    let n = discriminator.len();
    if n > data.len() {
        return Err(Error::InvalidDiscriminator);
    }
    let mut i: usize = 0;
    while i < n
        invariant
            i <= n,
            n == discriminator@.len(),
            data@.len() == old(data)@.len(),
            n <= data@.len(),
            forall|j: int| 0 <= j < i ==> data@[j] == discriminator@[j],
            forall|j: int| i <= j < data@.len() ==> data@[j] == old(data)@[j],
        decreases n - i,
    {
        data[i] = discriminator[i];
        i = i + 1;
    }
    assert(data@ =~= tagged(old(data)@, discriminator@));
    Ok(())
}

/// The stored form of a record, built from its discriminator and its bytes.
pub fn write_layout(discriminator: &[u8], record: &[u8]) -> (stored: Vec<u8>)
    ensures
        stored@ == layout(discriminator@, record@),
{
    let mut stored: Vec<u8> = Vec::new();
    stored.extend_from_slice(discriminator);
    stored.extend_from_slice(record);
    assert(stored@ =~= layout(discriminator@, record@));
    stored
}

/// A view of a byte slice as a record of type `T`.
///
/// Trusted: this is `bytemuck::try_from_bytes`. It yields a record only of a
/// slice that is exactly as long as `T`, and it does so for every such slice
/// when `T` needs no alignment; for other types the outcome also depends on
/// where the slice lies in memory, of which nothing is claimed.
#[verifier::external_body]
fn cast_ref<T: AnyBitPattern>(bytes: &[u8]) -> (record: Option<&T>)
    ensures
        record.is_some() ==> bytes@.len() == size_of::<T>(),
        bytes@.len() == size_of::<T>() && align_of::<T>() == 1 ==> record.is_some(),
{
    bytemuck::try_from_bytes(bytes).ok()
}

/// A view of a byte slice as a record of type `T`, for writing.
///
/// Trusted: this is `bytemuck::try_from_bytes_mut`. It yields a record under
/// the conditions of `cast_ref`; the slice keeps its length, and it keeps its
/// bytes when no record is returned.
#[verifier::external_body]
fn cast_mut<T: NoUninit + AnyBitPattern>(bytes: &mut [u8]) -> (record: Option<&mut T>)
    ensures
        record.is_some() ==> old(bytes)@.len() == size_of::<T>(),
        old(bytes)@.len() == size_of::<T>() && align_of::<T>() == 1 ==> record.is_some(),
        record.is_none() ==> final(bytes)@ == old(bytes)@,
        final(bytes)@.len() == old(bytes)@.len(),
{
    bytemuck::try_from_bytes_mut(bytes).ok()
}

/// The bytes of a record.
///
/// Trusted: this is `bytemuck::bytes_of`. The result is as long as `T`.
#[verifier::external_body]
fn bytes_of_record<T: NoUninit>(record: &T) -> (bytes: &[u8])
    ensures
        bytes@.len() == size_of::<T>(),
{
    bytemuck::bytes_of(record)
}

/// The record of type `T` that follows a prefix of `prefix` bytes.
///
/// There is none where the buffer is shorter than prefix and record together.
/// Where it is long enough, a record of a type that needs no alignment is
/// always found.
pub fn read_record<T: AnyBitPattern>(data: &[u8], prefix: usize) -> (record: Option<&T>)
    ensures
        record.is_some() ==> record_at(data@, prefix as int, size_of::<T>() as int).is_some(),
        record_at(data@, prefix as int, size_of::<T>() as int).is_some() && align_of::<T>() == 1
            ==> record.is_some(),
{
    match record_bytes(data, prefix, core::mem::size_of::<T>()) {
        Some(bytes) => cast_ref::<T>(bytes),
        None => None,
    }
}

/// The record of type `T` that follows a prefix of `prefix` bytes, for writing.
///
/// Only the bytes of the record can change through the result.
pub fn read_record_mut<T: NoUninit + AnyBitPattern>(data: &mut [u8], prefix: usize) -> (record:
    Option<&mut T>)
    ensures
        record.is_some() ==> record_at(old(data)@, prefix as int, size_of::<T>() as int).is_some(),
        record_at(old(data)@, prefix as int, size_of::<T>() as int).is_some() && align_of::<T>()
            == 1 ==> record.is_some(),
        record.is_none() ==> final(data)@ == old(data)@,
        final(data)@.len() == old(data)@.len(),
        forall|i: int|
            0 <= i < old(data)@.len() && !(prefix <= i < prefix + size_of::<T>())
                ==> final(data)@[i] == old(data)@[i],
{
    match record_bytes_mut(data, prefix, core::mem::size_of::<T>()) {
        Some(bytes) => cast_mut::<T>(bytes),
        None => None,
    }
}

/// The stored form of a record of type `T` under the given discriminator.
pub fn write_record<T: NoUninit>(discriminator: &[u8], record: &T) -> (stored: Vec<u8>)
    ensures
        stored@.len() == discriminator@.len() + size_of::<T>(),
        is_tagged(stored@, discriminator@),
{
    let bytes = bytes_of_record(record);
    proof {
        lemma_layout_round_trip(discriminator@, bytes@);
    }
    write_layout(discriminator, bytes)
}

/// Typed access to the record that a buffer holds behind its discriminator.
///
/// The trait is implemented for every tagged type, so nobody can give a type
/// another way of reading than the one written here.
pub trait RefFromBytes: Discriminator + Sized {
    /// The record in `data`, or `None` where `data` is too short for it.
    fn read(data: &[u8]) -> (record: Option<&Self>) where Self: AnyBitPattern
        ensures
            record.is_some() ==> record_at(
                data@,
                Self::DISCRIMINATOR@.len() as int,
                size_of::<Self>() as int,
            ).is_some(),
            record_at(data@, Self::DISCRIMINATOR@.len() as int, size_of::<Self>() as int).is_some()
                && align_of::<Self>() == 1 ==> record.is_some(),
    {
        read_record::<Self>(data, Self::DISCRIMINATOR.len())
    }

    /// The record in `data` for writing, or `None` where `data` is too short.
    fn read_mut(data: &mut [u8]) -> (record: Option<&mut Self>) where Self: NoUninit + AnyBitPattern
        ensures
            record.is_some() ==> record_at(
                old(data)@,
                Self::DISCRIMINATOR@.len() as int,
                size_of::<Self>() as int,
            ).is_some(),
            record_at(
                old(data)@,
                Self::DISCRIMINATOR@.len() as int,
                size_of::<Self>() as int,
            ).is_some() && align_of::<Self>() == 1 ==> record.is_some(),
            record.is_none() ==> final(data)@ == old(data)@,
            final(data)@.len() == old(data)@.len(),
            forall|i: int|
                0 <= i < old(data)@.len() && !(Self::DISCRIMINATOR@.len() <= i
                    < Self::DISCRIMINATOR@.len() + size_of::<Self>()) ==> final(data)@[i] == old(data)@[i],
    {
        read_record_mut::<Self>(data, Self::DISCRIMINATOR.len())
    }
}

/// Every tagged type reads its records in the one way that is given above.
impl<T: Discriminator> RefFromBytes for T {
}

/// A record that is stored and then looked up comes back byte for byte.
pub proof fn lemma_layout_round_trip(discriminator: Seq<u8>, record: Seq<u8>)
    ensures
        record_at(layout(discriminator, record), discriminator.len() as int, record.len() as int)
            == Some(record),
        is_tagged(layout(discriminator, record), discriminator),
{
    let stored = layout(discriminator, record);
    assert(stored.subrange(discriminator.len() as int, discriminator.len() + record.len() as int)
        =~= record);
    assert(stored.subrange(0, discriminator.len() as int) =~= discriminator);
}

/// A buffer shorter than discriminator and record together holds no record.
pub proof fn lemma_short_buffer_has_no_record(data: Seq<u8>, prefix: int, size: int)
    requires
        data.len() < prefix + size,
    ensures
        record_at(data, prefix, size).is_none(),
{
}

} // verus!

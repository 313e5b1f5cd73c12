//! What only this crate may do with the views of an account.

use vstd::prelude::*;
use crate::error::Error;
use crate::accounts::AccountLayout;
use crate::info::AccountInfo;

verus! {

/// A view over one raw account.
///
/// The trait cannot be named outside this crate, so the views that exist are
/// exactly those that the crate defines, and nobody else reaches the raw
/// account for writing.
pub trait Sealed: AccountLayout {
    /// Computes `record_range` for the account as it is now.
    fn locate(info: &AccountInfo) -> (range: Result<(usize, usize), Error>)
        ensures
            match Self::record_range(info@) {
                Ok(found) => range.is_ok() && range.unwrap().0 == found.0 && range.unwrap().1
                    == found.1,
                Err(e) => range == Err::<(usize, usize), Error>(e),
            },
    ;

    /// The raw account, for writing.
    fn info_mut(&mut self) -> (info: &mut AccountInfo)
        ensures
            info@ == old(self).account(),
            final(self).account() == final(info)@,
    ;

    /// A view over `info` that is made without any check.
    fn from_raw_info(info: AccountInfo) -> (view: Self)
        ensures
            view.account() == info@,
    ;
}

} // verus!

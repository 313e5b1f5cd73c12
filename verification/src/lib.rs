//! A typed access layer over raw program accounts.
//!
//! An account is a shared byte buffer with a balance, an owner and two
//! capability flags. This crate models such an account as plain data, guards
//! its balance and its data with a runtime reader/writer discipline, tags
//! fixed-layout records with a discriminator prefix, and states the protocol
//! that funds, allocates, re-owns and tags a fresh account.

pub mod accounts;
pub mod arguments;
pub mod borrow;
pub mod codec;
pub mod error;
pub mod info;
pub mod program_error;
pub mod pubkey;
mod sealed;
pub mod system;

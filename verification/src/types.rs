//! The concrete types that the pallets and the runtime are built on.

use vstd::prelude::*;

verus! {

/// Identifies an account.
pub type AccountId = String;

/// An amount of funds.
pub type Balance = u128;

/// The height of a block.
pub type BlockNumber = u32;

/// How many extrinsics an account has authored.
pub type Nonce = u32;

/// What can be claimed.
pub type Content = &'static str;

/// A call of the runtime together with the account that makes it.
pub type Extrinsic = crate::support::Extrinsic<AccountId, crate::runtime::RuntimeCall>;

/// The header of a block of the runtime.
pub type Header = crate::support::Header<BlockNumber>;

/// A block of the runtime.
pub type Block = crate::support::Block<Header, Extrinsic>;

} // verus!

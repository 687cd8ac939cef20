//! External operations that an escrow operation schedules.  The library
//! mutates its own state and hands one of these back; the host shell
//! performs the cross-contract call and later reports its outcome to the
//! matching callback.

use vstd::prelude::*;
use crate::utils::ProjectTokenType;

verus! {

/// One cross-contract operation for the host shell to perform.
#[derive(PartialEq, Eq, Clone, Debug)]
pub enum Action {
    /// Transfer `amount` smallest units of the stable asset to `to`.
    StableTransfer { to: u64, amount: u128 },
    /// Deploy the final project-token contract and initialize it with the
    /// escrow's token metadata.
    DeployProjectToken {
        kind: ProjectTokenType,
        name: Vec<u8>,
        symbol: Vec<u8>,
        base_uri: Vec<u8>,
        max_supply: u128,
    },
    /// Mint `amount` final project tokens to the account `to`.
    ProjectTokenMint { to: u64, amount: u128 },
    /// Mint `amount` final project tokens to the escrow itself, reserving
    /// inventory for conversions after closing.
    ProjectTokenMintToEscrow { amount: u128 },
    /// Transfer the already-minted project tokens in `token_ids` to `to`.
    ProjectTokenBatchTransfer { to: u64, token_ids: Vec<u128> },
    /// Transfer `amount` of the fungible project token to `to`.
    ProjectTokenTransfer { to: u64, amount: u128 },
    /// Hand ownership of the project-token contract to `new_owner`.
    ProjectTokenSetOwner { new_owner: u64 },
}

/// What one `close_project` round did: either the stage needed no external
/// operation and advanced synchronously, or external operations were
/// scheduled and the stage advances when the callback reports success.
#[derive(PartialEq, Eq, Clone, Debug)]
pub enum CloseProgress {
    Advanced,
    Pending(Action),
}

} // verus!

//! The escrow's proxy-claim operations: minting, burning, the
//! compensating re-mint, and read-side queries, each delegating to the
//! claim ledger and leaving every other part of the escrow untouched.

use vstd::prelude::*;
use crate::escrow::Contract;
use crate::errors::EscrowError;
use crate::ledger::{ClaimLedger, LedgerEntry};

verus! {

/// A proxy claim as the read side reports it: its id, its recorded
/// supply, and the media reference every claim shares.
#[derive(PartialEq, Eq, Clone, Debug)]
pub struct ProxyToken {
    pub token_id: u128,
    pub supply: u128,
    pub media_uri: Vec<u8>,
}

impl Contract {
    /// Mint `amount` sequential fresh claims to `receiver`; returns the
    /// minted ids.  Callers enforce the supply cap; this only requires
    /// the machine limit on the ledger's length.
    pub fn pt_mint(&mut self, receiver: u64, amount: u128) -> (ids: Vec<u128>)
        requires
            old(self).wf(),
            old(self).ledger.entries@.len() + amount <= usize::MAX,
        ensures
            final(self).wf(),
            *final(self) == (Contract { ledger: final(self).ledger, ..*old(self) }),
            final(self).ledger.entries@.len() == old(self).ledger.entries@.len() + amount,
            final(self).ledger.all_total_supply == old(self).ledger.all_total_supply + amount,
            forall|i: int|
                0 <= i < old(self).ledger.entries@.len() ==> final(self).ledger.entries@[i] == old(self).ledger.entries@[i],
            forall|i: int|
                old(self).ledger.entries@.len() <= i < final(self).ledger.entries@.len() ==> final(self).ledger.entries@[i] == (LedgerEntry { supply: 1, holder: receiver }),
            ids@.len() == amount,
            forall|j: int| 0 <= j < amount ==> ids@[j] == old(self).ledger.entries@.len() + j,
    {
        self.ledger.mint(receiver, amount)
    }

    /// Burn the claims in `token_ids` from `from_id`, all or nothing.
    pub fn pt_burn(&mut self, from_id: u64, token_ids: &Vec<u128>) -> (r: Result<(), EscrowError>)
        requires
            old(self).wf(),
        ensures
            final(self).wf(),
            *final(self) == (Contract { ledger: final(self).ledger, ..*old(self) }),
            r is Ok <==> old(self).ledger.burn_ok(from_id, token_ids@),
            r is Err ==> *final(self) == *old(self),
            r is Err ==> (token_ids@.len() == 0 && r->Err_0 == EscrowError::InvalidAmount) || (
            token_ids@.len() > 0 && r->Err_0 == EscrowError::InsufficientBalance),
            r is Ok ==> {
                &&& final(self).ledger.entries@.len() == old(self).ledger.entries@.len()
                &&& final(self).ledger.all_total_supply == old(self).ledger.all_total_supply
                    - token_ids@.len()
                &&& forall|i: int|
                    0 <= i < final(self).ledger.entries@.len() && !token_ids@.contains(i as u128)
                        ==> final(self).ledger.entries@[i] == old(self).ledger.entries@[i]
                &&& forall|j: int|
                    0 <= j < token_ids@.len() ==> final(self).ledger.entries@[
                        #[trigger] token_ids@[j] as int] == (LedgerEntry {
                        supply: 0,
                        holder: old(self).ledger.entries@[token_ids@[j] as int].holder,
                    })
            },
    {
        self.ledger.burn(from_id, token_ids)
    }

    /// Re-mint the claims in `token_ids` back to `from_id` at their
    /// original ids: the compensation for an optimistic burn whose paired
    /// external call failed.
    pub fn revert_pt_burn(&mut self, from_id: u64, token_ids: &Vec<u128>) -> (r: Result<
        (),
        EscrowError,
    >)
        requires
            old(self).wf(),
        ensures
            final(self).wf(),
            *final(self) == (Contract { ledger: final(self).ledger, ..*old(self) }),
            r is Ok <==> old(self).ledger.revert_ok(token_ids@),
            r is Err ==> *final(self) == *old(self) && r->Err_0 == EscrowError::CompensationFailed,
            r is Ok ==> {
                &&& final(self).ledger.entries@.len() == old(self).ledger.entries@.len()
                &&& final(self).ledger.all_total_supply == old(self).ledger.all_total_supply
                    + token_ids@.len()
                &&& forall|i: int|
                    0 <= i < final(self).ledger.entries@.len() && !token_ids@.contains(i as u128)
                        ==> final(self).ledger.entries@[i] == old(self).ledger.entries@[i]
                &&& forall|j: int|
                    0 <= j < token_ids@.len() ==> final(self).ledger.entries@[
                        #[trigger] token_ids@[j] as int] == (LedgerEntry {
                        supply: 1,
                        holder: from_id,
                    })
            },
    {
        self.ledger.revert_burn(from_id, token_ids)
    }

    /// Balance of `owner` in each listed claim id: one where held, zero
    /// anywhere else; a total query that never fails.
    pub fn pt_balance_of(&self, owner: u64, ids: &Vec<u128>) -> (r: Vec<u128>)
        ensures
            r@.len() == ids@.len(),
            forall|j: int|
                0 <= j < ids@.len() ==> r@[j] == self.ledger.spec_balance_of(
                    owner,
                    #[trigger] ids@[j] as nat,
                ),
    {
        self.ledger.balance_of(owner, ids)
    }

    /// The claim with id `token_id`, if it was ever minted.
    pub fn pt_token(&self, token_id: u128) -> (r: Option<ProxyToken>)
        ensures
            match r {
                Some(t) => token_id < self.ledger.entries@.len() && t.token_id == token_id
                    && t.supply == self.ledger.entries@[token_id as int].supply && t.media_uri@
                    == self.pt_media_uri@,
                None => token_id >= self.ledger.entries@.len(),
            },
    {
        match self.ledger.supply_of(token_id) {
            Some(supply) => Some(
                ProxyToken { token_id, supply, media_uri: self.pt_media_uri.clone() },
            ),
            None => None,
        }
    }

    /// Balance of `account_id` in the claim with id `token_id`; the
    /// claim must exist.
    pub fn internal_unwrap_balance_of(&self, token_id: u128, account_id: u64) -> (r: u128)
        requires
            token_id < self.ledger.entries@.len(),
        ensures
            r == self.ledger.spec_balance_of(account_id, token_id as nat),
    {
        let slot_count = self.ledger.entries.len();
        assert(token_id < slot_count as u128);
        let entry = self.ledger.entries[token_id as usize];
        if entry.supply == 1 && entry.holder == account_id {
            1
        } else {
            0
        }
    }

    /// The proxy token's contract-level metadata.
    pub fn pt_metadata(&self) -> (r: PtContractMetadata)
        ensures
            r.name@ == self.name@,
            r.symbol@ == self.symbol@,
    {
        PtContractMetadata { name: self.name.clone(), symbol: self.symbol.clone() }
    }

    /// Total supply of proxy claims currently outstanding on the ledger.
    pub fn pt_pt_all_total_supply(&self) -> (r: u128)
        ensures
            r == self.ledger.all_total_supply,
    {
        self.ledger.all_total_supply
    }
}

/// Contract-level metadata of the proxy token: the project's name and
/// symbol, shared by every claim.
#[derive(PartialEq, Eq, Clone, Debug)]
pub struct PtContractMetadata {
    pub name: Vec<u8>,
    pub symbol: Vec<u8>,
}

} // verus!

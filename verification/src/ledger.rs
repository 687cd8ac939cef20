//! The claim ledger: per-claim-id supply and holder accounting for the
//! proxy claims, with mint, all-or-nothing burn, and the compensating
//! re-mint used when an external call fails after an optimistic burn.

use vstd::prelude::*;
use crate::errors::EscrowError;

verus! {

/// One claim id's slot: its supply (never above one, each claim is a
/// unique unit) and its holder, meaningful only while the supply is one.
#[derive(PartialEq, Eq, Structural, Clone, Copy, Debug)]
pub struct LedgerEntry {
    pub supply: u128,
    pub holder: u64,
}

/// Total supply over a sequence of slots.
pub open spec fn spec_supply_count(s: Seq<LedgerEntry>) -> int
    decreases s.len(),
{
    if s.len() == 0 {
        0
    } else {
        spec_supply_count(s.drop_last()) + s.last().supply
    }
}

/// Appending a slot adds its supply to the count.
pub proof fn lemma_supply_count_push(s: Seq<LedgerEntry>, e: LedgerEntry)
    ensures
        spec_supply_count(s.push(e)) == spec_supply_count(s) + e.supply,
{
    assert(s.push(e).drop_last() =~= s);
}

/// Replacing a slot shifts the count by the supply difference.
pub proof fn lemma_supply_count_update(s: Seq<LedgerEntry>, i: int, e: LedgerEntry)
    requires
        0 <= i < s.len(),
    ensures
        spec_supply_count(s.update(i, e)) == spec_supply_count(s) - s[i].supply + e.supply,
    decreases s.len(),
{
    if i == s.len() - 1 {
        assert(s.update(i, e).drop_last() =~= s.drop_last());
    } else {
        assert(s.update(i, e).drop_last() =~= s.drop_last().update(i, e));
        lemma_supply_count_update(s.drop_last(), i, e);
    }
}

/// The count is at least any single slot's supply.
pub proof fn lemma_supply_count_ge(s: Seq<LedgerEntry>, i: int)
    requires
        0 <= i < s.len(),
        forall|j: int| 0 <= j < s.len() ==> #[trigger] s[j].supply >= 0,
    ensures
        spec_supply_count(s) >= s[i].supply,
    decreases s.len(),
{
    if i == s.len() - 1 {
        lemma_supply_count_nonneg(s.drop_last());
    } else {
        lemma_supply_count_ge(s.drop_last(), i);
    }
}

/// The count is never negative.
pub proof fn lemma_supply_count_nonneg(s: Seq<LedgerEntry>)
    ensures
        spec_supply_count(s) >= 0,
    decreases s.len(),
{
    if s.len() > 0 {
        lemma_supply_count_nonneg(s.drop_last());
    }
}

/// With every slot's supply at most one, the count is at most the length.
pub proof fn lemma_supply_count_le_len(s: Seq<LedgerEntry>)
    requires
        forall|j: int| 0 <= j < s.len() ==> #[trigger] s[j].supply <= 1,
    ensures
        spec_supply_count(s) <= s.len(),
    decreases s.len(),
{
    if s.len() > 0 {
        lemma_supply_count_le_len(s.drop_last());
    }
}

/// The claim ledger: slots indexed by claim id, and the running total
/// supply.  Claim ids are allocated sequentially at the high-water mark,
/// so a freed id is never re-allocated to a new claim and no id's balance
/// can ever exceed one.
#[derive(PartialEq, Clone, Debug)]
pub struct ClaimLedger {
    pub entries: Vec<LedgerEntry>,
    pub all_total_supply: u128,
}

impl ClaimLedger {
    /// Well-formedness: each slot holds at most one unit, and the running
    /// total equals the sum over the slots.
    pub open spec fn wf(self) -> bool {
        &&& forall|j: int| 0 <= j < self.entries@.len() ==> #[trigger] self.entries@[j].supply <= 1
        &&& self.all_total_supply == spec_supply_count(self.entries@)
    }

    /// Balance of `owner` in the claim with id `id`: total for every id,
    /// zero for anything not held.
    pub open spec fn spec_balance_of(self, owner: u64, id: nat) -> nat {
        if id < self.entries@.len() && self.entries@[id as int].supply == 1
            && self.entries@[id as int].holder == owner {
            1
        } else {
            0
        }
    }

    /// An empty ledger.
    pub fn new() -> (r: ClaimLedger)
        ensures
            r.wf(),
            r.entries@.len() == 0,
            r.all_total_supply == 0,
    {
        ClaimLedger { entries: Vec::new(), all_total_supply: 0 }
    }

    /// Mint `amount` fresh claims to `receiver`, allocating sequential
    /// unused ids at the high-water mark; returns the minted ids in order.
    pub fn mint(&mut self, receiver: u64, amount: u128) -> (ids: Vec<u128>)
        requires
            old(self).wf(),
            old(self).entries@.len() + amount <= usize::MAX,
        ensures
            final(self).wf(),
            final(self).entries@.len() == old(self).entries@.len() + amount,
            final(self).all_total_supply == old(self).all_total_supply + amount,
            forall|i: int|
                0 <= i < old(self).entries@.len() ==> final(self).entries@[i] == old(self).entries@[i],
            forall|i: int|
                old(self).entries@.len() <= i < final(self).entries@.len() ==> final(self).entries@[i] == (LedgerEntry { supply: 1, holder: receiver }),
            ids@.len() == amount,
            forall|j: int| 0 <= j < amount ==> ids@[j] == old(self).entries@.len() + j,
    {
        proof {
            lemma_supply_count_le_len(self.entries@);
        }
        let mut ids: Vec<u128> = Vec::new();
        let base = self.entries.len();
        let mut i: u128 = 0;
        while i < amount
            invariant
                old(self).wf(),
                i <= amount,
                base == old(self).entries@.len(),
                base + amount <= usize::MAX,
                self.entries@.len() == base + i,
                self.all_total_supply == old(self).all_total_supply + i,
                old(self).all_total_supply <= base,
                forall|k: int| 0 <= k < base ==> self.entries@[k] == old(self).entries@[k],
                forall|k: int|
                    base <= k < self.entries@.len() ==> self.entries@[k] == (LedgerEntry {
                        supply: 1,
                        holder: receiver,
                    }),
                ids@.len() == i,
                forall|j: int| 0 <= j < i ==> ids@[j] == base + j,
                self.wf(),
            decreases amount - i,
        {
            let id = (base as u128) + i;
            proof {
                lemma_supply_count_push(self.entries@, LedgerEntry { supply: 1, holder: receiver });
            }
            self.entries.push(LedgerEntry { supply: 1, holder: receiver });
            self.all_total_supply = self.all_total_supply + 1;
            ids.push(id);
            i = i + 1;
        }
        ids
    }

    /// Whether burning exactly the claims in `ids` from `owner` is
    /// possible: a nonempty list of pairwise distinct ids, each held by
    /// `owner` with a balance of exactly one.
    pub open spec fn burn_ok(self, owner: u64, ids: Seq<u128>) -> bool {
        &&& ids.len() > 0
        &&& forall|j: int|
            0 <= j < ids.len() ==> (#[trigger] ids[j] as int) < self.entries@.len()
                && self.entries@[ids[j] as int].supply == 1 && self.entries@[ids[j] as int].holder
                == owner
        &&& forall|j1: int, j2: int|
            0 <= j1 < j2 < ids.len() ==> #[trigger] ids[j1] != #[trigger] ids[j2]
    }

    /// Burn the claims in `ids` from `owner`, all or nothing: on any
    /// insufficient balance the ledger is left untouched.
    pub fn burn(&mut self, owner: u64, ids: &Vec<u128>) -> (r: Result<(), EscrowError>)
        requires
            old(self).wf(),
        ensures
            final(self).wf(),
            r is Ok <==> old(self).burn_ok(owner, ids@),
            r is Err ==> *final(self) == *old(self),
            r is Err ==> (ids@.len() == 0 && r->Err_0 == EscrowError::InvalidAmount) || (ids@.len()
                > 0 && r->Err_0 == EscrowError::InsufficientBalance),
            r is Ok ==> {
                &&& final(self).entries@.len() == old(self).entries@.len()
                &&& final(self).all_total_supply == old(self).all_total_supply - ids@.len()
                &&& forall|i: int|
                    0 <= i < final(self).entries@.len() && !ids@.contains(i as u128) ==> final(self).entries@[i] == old(self).entries@[i]
                &&& forall|j: int|
                    0 <= j < ids@.len() ==> final(self).entries@[#[trigger] ids@[j] as int]
                        == (LedgerEntry {
                        supply: 0,
                        holder: old(self).entries@[ids@[j] as int].holder,
                    })
            },
    {
        if ids.len() == 0 {
            return Err(EscrowError::InvalidAmount);
        }
        // Validation pass: every id held by `owner` with balance one, and
        // no id listed twice.
        let mut j: usize = 0;
        while j < ids.len()
            invariant
                old(self).wf(),
                *self == *old(self),
                j <= ids@.len(),
                forall|k: int|
                    0 <= k < j ==> (#[trigger] ids@[k] as int) < self.entries@.len()
                        && self.entries@[ids@[k] as int].supply == 1
                        && self.entries@[ids@[k] as int].holder == owner,
                forall|k1: int, k2: int|
                    0 <= k1 < k2 < j ==> #[trigger] ids@[k1] != #[trigger] ids@[k2],
            decreases ids@.len() - j,
        {
            let id = ids[j];
            if !(id < (self.entries.len() as u128)) {
                return Err(EscrowError::InsufficientBalance);
            }
            let entry = self.entries[id as usize];
            if !(entry.supply == 1 && entry.holder == owner) {
                return Err(EscrowError::InsufficientBalance);
            }
            let mut k: usize = 0;
            while k < j
                invariant
                    old(self).wf(),
                    *self == *old(self),
                    j < ids@.len(),
                    k <= j,
                    forall|k2: int| 0 <= k2 < k ==> #[trigger] ids@[k2] != ids@[j as int],
                decreases j - k,
            {
                if ids[k] == ids[j] {
                    return Err(EscrowError::InsufficientBalance);
                }
                k = k + 1;
            }
            j = j + 1;
        }
        // Mutation pass: release each claim.
        let mut j: usize = 0;
        while j < ids.len()
            invariant
                old(self).burn_ok(owner, ids@),
                self.wf(),
                j <= ids@.len(),
                self.entries@.len() == old(self).entries@.len(),
                self.all_total_supply == old(self).all_total_supply - j,
                forall|i: int|
                    0 <= i < self.entries@.len() ==> #[trigger] self.entries@[i] == old(
                        self,
                    ).entries@[i] || exists|k: int| 0 <= k < j && ids@[k] == i as u128,
                forall|k: int|
                    0 <= k < j ==> self.entries@[#[trigger] ids@[k] as int] == (LedgerEntry {
                        supply: 0,
                        holder: old(self).entries@[ids@[k] as int].holder,
                    }),
                forall|k: int|
                    j <= k < ids@.len() ==> self.entries@[#[trigger] ids@[k] as int] == old(
                        self,
                    ).entries@[ids@[k] as int],
            decreases ids@.len() - j,
        {
            let id = ids[j];
            assert(self.entries@[id as int] == old(self).entries@[id as int]);
            let holder = self.entries[id as usize].holder;
            let ghost prev = self.entries@;
            proof {
                lemma_supply_count_update(prev, id as int, LedgerEntry { supply: 0, holder });
                lemma_supply_count_ge(prev, id as int);
            }
            self.entries.set(id as usize, LedgerEntry { supply: 0, holder });
            self.all_total_supply = self.all_total_supply - 1;
            proof {
                assert forall|i: int|
                    0 <= i < self.entries@.len() implies #[trigger] self.entries@[i] == old(
                    self,
                ).entries@[i] || exists|k: int| 0 <= k < j + 1 && ids@[k] == i as u128 by {
                    if i == id as int {
                        assert(0 <= j < j + 1 && ids@[j as int] == i as u128);
                    } else {
                        assert(self.entries@[i] == prev[i]);
                        if !(prev[i] == old(self).entries@[i]) {
                            let w = choose|k: int| 0 <= k < j && ids@[k] == i as u128;
                            assert(0 <= w < j + 1 && ids@[w] == i as u128);
                        }
                    }
                }
                assert forall|k: int|
                    j + 1 <= k < ids@.len() implies self.entries@[#[trigger] ids@[k] as int]
                    == old(self).entries@[ids@[k] as int] by {
                    assert(ids@[k] != ids@[j as int]);
                }
            }
            j = j + 1;
        }
        proof {
            assert forall|i: int|
                0 <= i < self.entries@.len() && !ids@.contains(i as u128) implies self.entries@[i]
                == old(self).entries@[i] by {
                if !(self.entries@[i] == old(self).entries@[i]) {
                    let w = choose|k: int| 0 <= k < ids@.len() && ids@[k] == i as u128;
                    assert(ids@[w] == i as u128);
                    assert(ids@.contains(i as u128));
                }
            }
        }
        Ok(())
    }

    /// Whether re-inserting the claims in `ids` for `owner` is possible:
    /// pairwise distinct ids, each a released slot of the ledger.
    pub open spec fn revert_ok(self, ids: Seq<u128>) -> bool {
        &&& forall|j: int|
            0 <= j < ids.len() ==> (#[trigger] ids[j] as int) < self.entries@.len()
                && self.entries@[ids[j] as int].supply == 0
        &&& forall|j1: int, j2: int|
            0 <= j1 < j2 < ids.len() ==> #[trigger] ids[j1] != #[trigger] ids[j2]
    }

    /// Re-mint the claims in `ids` back to `owner` at their original ids,
    /// without consuming new sequential ids; the compensation for an
    /// optimistic burn whose paired external call failed.  All or nothing.
    pub fn revert_burn(&mut self, owner: u64, ids: &Vec<u128>) -> (r: Result<(), EscrowError>)
        requires
            old(self).wf(),
        ensures
            final(self).wf(),
            r is Ok <==> old(self).revert_ok(ids@),
            r is Err ==> *final(self) == *old(self) && r->Err_0 == EscrowError::CompensationFailed,
            r is Ok ==> {
                &&& final(self).entries@.len() == old(self).entries@.len()
                &&& final(self).all_total_supply == old(self).all_total_supply + ids@.len()
                &&& forall|i: int|
                    0 <= i < final(self).entries@.len() && !ids@.contains(i as u128) ==> final(self).entries@[i] == old(self).entries@[i]
                &&& forall|j: int|
                    0 <= j < ids@.len() ==> final(self).entries@[#[trigger] ids@[j] as int]
                        == (LedgerEntry { supply: 1, holder: owner })
            },
    {
        // Validation pass: every id names a released slot, none twice.
        let mut j: usize = 0;
        while j < ids.len()
            invariant
                old(self).wf(),
                *self == *old(self),
                j <= ids@.len(),
                forall|k: int|
                    0 <= k < j ==> (#[trigger] ids@[k] as int) < self.entries@.len()
                        && self.entries@[ids@[k] as int].supply == 0,
                forall|k1: int, k2: int|
                    0 <= k1 < k2 < j ==> #[trigger] ids@[k1] != #[trigger] ids@[k2],
            decreases ids@.len() - j,
        {
            let id = ids[j];
            if !(id < (self.entries.len() as u128)) {
                return Err(EscrowError::CompensationFailed);
            }
            if self.entries[id as usize].supply != 0 {
                return Err(EscrowError::CompensationFailed);
            }
            let mut k: usize = 0;
            while k < j
                invariant
                    old(self).wf(),
                    *self == *old(self),
                    j < ids@.len(),
                    k <= j,
                    forall|k2: int| 0 <= k2 < k ==> #[trigger] ids@[k2] != ids@[j as int],
                decreases j - k,
            {
                if ids[k] == ids[j] {
                    return Err(EscrowError::CompensationFailed);
                }
                k = k + 1;
            }
            j = j + 1;
        }
        // Mutation pass: restore each claim.
        let slot_count = self.entries.len();
        let mut j: usize = 0;
        while j < ids.len()
            invariant
                old(self).revert_ok(ids@),
                self.wf(),
                j <= ids@.len(),
                self.entries@.len() == old(self).entries@.len(),
                self.entries@.len() == slot_count,
                self.all_total_supply == old(self).all_total_supply + j,
                forall|i: int|
                    0 <= i < self.entries@.len() ==> #[trigger] self.entries@[i] == old(
                        self,
                    ).entries@[i] || exists|k: int| 0 <= k < j && ids@[k] == i as u128,
                forall|k: int|
                    0 <= k < j ==> self.entries@[#[trigger] ids@[k] as int] == (LedgerEntry {
                        supply: 1,
                        holder: owner,
                    }),
                forall|k: int|
                    j <= k < ids@.len() ==> self.entries@[#[trigger] ids@[k] as int] == old(
                        self,
                    ).entries@[ids@[k] as int],
            decreases ids@.len() - j,
        {
            let id = ids[j];
            assert(self.entries@[id as int] == old(self).entries@[id as int]);
            let ghost prev = self.entries@;
            proof {
                lemma_supply_count_update(prev, id as int, LedgerEntry { supply: 1, holder: owner });
                lemma_supply_count_le_len(prev);
            }
            self.entries.set(id as usize, LedgerEntry { supply: 1, holder: owner });
            self.all_total_supply = self.all_total_supply + 1;
            proof {
                assert forall|i: int|
                    0 <= i < self.entries@.len() implies #[trigger] self.entries@[i] == old(
                    self,
                ).entries@[i] || exists|k: int| 0 <= k < j + 1 && ids@[k] == i as u128 by {
                    if i == id as int {
                        assert(0 <= j < j + 1 && ids@[j as int] == i as u128);
                    } else {
                        assert(self.entries@[i] == prev[i]);
                        if !(prev[i] == old(self).entries@[i]) {
                            let w = choose|k: int| 0 <= k < j && ids@[k] == i as u128;
                            assert(0 <= w < j + 1 && ids@[w] == i as u128);
                        }
                    }
                }
                assert forall|k: int|
                    j + 1 <= k < ids@.len() implies self.entries@[#[trigger] ids@[k] as int]
                    == old(self).entries@[ids@[k] as int] by {
                    assert(ids@[k] != ids@[j as int]);
                }
            }
            j = j + 1;
        }
        proof {
            assert forall|i: int|
                0 <= i < self.entries@.len() && !ids@.contains(i as u128) implies self.entries@[i]
                == old(self).entries@[i] by {
                if !(self.entries@[i] == old(self).entries@[i]) {
                    let w = choose|k: int| 0 <= k < ids@.len() && ids@[k] == i as u128;
                    assert(ids@[w] == i as u128);
                    assert(ids@.contains(i as u128));
                }
            }
        }
        Ok(())
    }

    /// Balance of `owner` in each listed claim id: one where held, zero
    /// anywhere else, never a failure.
    pub fn balance_of(&self, owner: u64, ids: &Vec<u128>) -> (r: Vec<u128>)
        ensures
            r@.len() == ids@.len(),
            forall|j: int|
                0 <= j < ids@.len() ==> r@[j] == self.spec_balance_of(
                    owner,
                    #[trigger] ids@[j] as nat,
                ),
    {
        let mut r: Vec<u128> = Vec::new();
        let mut j: usize = 0;
        while j < ids.len()
            invariant
                j <= ids@.len(),
                r@.len() == j,
                forall|k: int|
                    0 <= k < j ==> r@[k] == self.spec_balance_of(owner, #[trigger] ids@[k] as nat),
            decreases ids@.len() - j,
        {
            let id = ids[j];
            let held = id < (self.entries.len() as u128) && {
                let e = self.entries[id as usize];
                e.supply == 1 && e.holder == owner
            };
            r.push(if held {
                1
            } else {
                0
            });
            j = j + 1;
        }
        r
    }

    /// Burning exactly the claims a mint created restores every balance
    /// and the total supply to their pre-mint values: `l1` is `l0` after
    /// minting `amount` claims to `receiver`, `ids` are the minted ids,
    /// and `l2` is `l1` after burning them again.
    pub proof fn lemma_mint_burn_round_trip(
        l0: ClaimLedger,
        l1: ClaimLedger,
        l2: ClaimLedger,
        receiver: u64,
        amount: u128,
        ids: Seq<u128>,
    )
        requires
            l1.entries@.len() == l0.entries@.len() + amount,
            forall|i: int| 0 <= i < l0.entries@.len() ==> l1.entries@[i] == l0.entries@[i],
            l1.all_total_supply == l0.all_total_supply + amount,
            ids.len() == amount,
            forall|j: int| 0 <= j < amount ==> ids[j] == l0.entries@.len() + j,
            l2.entries@.len() == l1.entries@.len(),
            l2.all_total_supply == l1.all_total_supply - amount,
            forall|i: int|
                0 <= i < l2.entries@.len() && !ids.contains(i as u128) ==> l2.entries@[i]
                    == l1.entries@[i],
            forall|j: int|
                0 <= j < ids.len() ==> l2.entries@[#[trigger] ids[j] as int].supply == 0,
        ensures
            l2.all_total_supply == l0.all_total_supply,
            forall|who: u64, id: nat|
                l2.spec_balance_of(who, id) == #[trigger] l0.spec_balance_of(who, id),
    {
        assert forall|who: u64, id: nat|
            l2.spec_balance_of(who, id) == #[trigger] l0.spec_balance_of(who, id) by {
            if id < l0.entries@.len() {
                assert(!ids.contains(id as u128)) by {
                    if ids.contains(id as u128) {
                        let w = choose|k: int| 0 <= k < ids.len() && ids[k] == id as u128;
                        assert(ids[w] == l0.entries@.len() + w);
                    }
                }
                assert(l2.entries@[id as int] == l1.entries@[id as int]);
            } else if id < l2.entries@.len() {
                let j = id - l0.entries@.len();
                assert(ids[j as int] == id as u128);
                assert(l2.entries@[id as int].supply == 0);
            }
        }
    }

    /// Supply recorded for one claim id, `None` for an id never minted.
    pub fn supply_of(&self, id: u128) -> (r: Option<u128>)
        ensures
            match r {
                Some(s) => id < self.entries@.len() && s == self.entries@[id as int].supply,
                None => id >= self.entries@.len(),
            },
    {
        if id < (self.entries.len() as u128) {
            Some(self.entries[id as usize].supply)
        } else {
            None
        }
    }
}

} // verus!

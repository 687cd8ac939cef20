//! The escrow itself: configuration, accounting counters, the claim
//! ledger, and every caller-facing operation with its callback.
//!
//! Operations follow an optimistic-mutate-then-compensate shape: the entry
//! call validates its guards, applies the local mutation, and returns the
//! external operations to perform; the matching `on_*` callback later
//! commits the remaining counters on success or reverses the optimistic
//! mutation on failure.

use vstd::prelude::*;
use crate::utils::{RunningState, ProjectTokenType, CurveType, CurveArgs, ClosedStep, FEE_DIVISOR};
use crate::errors::EscrowError;
use crate::ledger::{ClaimLedger, LedgerEntry};
use crate::curves::{pow10, spec_quote_buy, quote_buy_ok, quote_buy, spec_sell_gross, spec_quote_sell, quote_sell_ok, quote_sell};
use crate::actions::Action;

verus! {

/// The escrow's whole state: project configuration, accounting counters,
/// and the proxy-claim ledger.
pub struct Contract {
    /// Owner of the escrow.
    pub owner_id: u64,
    /// Project token name.
    pub name: Vec<u8>,
    /// Project token symbol.
    pub symbol: Vec<u8>,
    /// Protocol treasury account.
    pub treasury_id: u64,
    /// Treasury fee in basis points.
    pub treasury_fee: u32,
    /// Finder account, set at activation.
    pub finder_id: Option<u64>,
    /// Finder fee in basis points.
    pub finder_fee: u32,
    /// Kind of the final project token.
    pub project_token_type: ProjectTokenType,
    /// Reference to the final project-token contract, set on activation
    /// success.
    pub project_token_id: Option<u64>,
    /// Funding target in smallest stable-asset units.
    pub fund_threshold: u128,
    /// Timestamp of activation success; zero until activated.
    pub start_timestamp: u64,
    /// Timestamp at which the funding threshold was reached; zero until
    /// then.
    pub tp_timestamp: u64,
    /// Delay after the threshold before conversion opens.
    pub buffer_period: u64,
    /// Window after the buffer during which conversion is allowed.
    pub conversion_period: u64,
    /// The stable-asset contract.
    pub stable_coin_id: u64,
    /// Decimals of the stable asset.
    pub stable_coin_decimals: u8,
    /// Stable asset held against outstanding and claimable proceeds.
    pub total_fund_amount: u128,
    /// Proceeds already withdrawn by the owner.
    pub claimed_fund_amount: u128,
    /// Finder fee already withdrawn.
    pub claimed_finder_fee: u128,
    /// Claims minted to the owner before the public sale.
    pub pre_mint_amount: u128,
    /// Claims already exchanged for final project tokens.
    pub converted_amount: u128,
    /// Claims sold and not yet sold back.
    pub circulating_supply: u128,
    /// Shape of the pricing curve.
    pub curve_type: CurveType,
    /// Arguments of the pricing curve.
    pub curve_args: CurveArgs,
    /// Whether the escrow accepts state-mutating operations.
    pub state: RunningState,
    /// Stage marker of the closing procedure.
    pub closed_step: ClosedStep,
    /// Media reference of the proxy claims.
    pub pt_media_uri: Vec<u8>,
    /// Maximum total supply of proxy claims.
    pub pt_max_supply: u128,
    /// The proxy-claim ledger.
    pub ledger: ClaimLedger,
}

impl Contract {
    /// Well-formedness: the ledger is consistent, fees stay inside the
    /// divisor, and activation data is present once the escrow reports
    /// itself activated.
    pub open spec fn wf(self) -> bool {
        &&& self.ledger.wf()
        &&& self.treasury_fee <= FEE_DIVISOR
        &&& self.finder_fee <= FEE_DIVISOR
        &&& self.tp_timestamp > 0 ==> self.start_timestamp > 0
        &&& self.start_timestamp > 0 ==> self.finder_id is Some && self.project_token_id is Some
    }

    /// Whether `caller` is the escrow owner.
    pub open spec fn is_owner(self, caller: u64) -> bool {
        caller == self.owner_id
    }

    /// The supply bookkeeping identity that holds whenever no operation
    /// is between its optimistic mutation and its callback: the claims
    /// outstanding on the ledger are the pre-minted ones plus those sold
    /// and not yet sold back, less those converted away.
    pub open spec fn balanced(self) -> bool {
        self.ledger.all_total_supply == self.pre_mint_amount + self.circulating_supply
            - self.converted_amount
    }

    /// Whether the escrow accepts state-mutating operations.
    pub open spec fn is_running(self) -> bool {
        self.state == RunningState::Running
    }

    /// Whether the escrow was activated.
    pub open spec fn is_activated(self) -> bool {
        self.start_timestamp > 0
    }

    /// Initialize an escrow with fee defaults and an empty ledger;
    /// rejects out-of-range name, symbol and media-reference lengths.
    pub fn new(
        owner_id: u64,
        name: Vec<u8>,
        symbol: Vec<u8>,
        pt_media_uri: Vec<u8>,
        stable_coin_id: u64,
        stable_coin_decimals: u8,
        curve_type: CurveType,
        curve_args: CurveArgs,
        treasury_id: u64,
    ) -> (r: Result<Contract, EscrowError>)
        ensures
            r is Ok <==> name@.len() > 2 && 2 < symbol@.len() < 13 && pt_media_uri@.len() > 0,
            r is Err ==> r->Err_0 == (if name@.len() <= 2 {
                EscrowError::InvalidName
            } else if !(2 < symbol@.len() < 13) {
                EscrowError::InvalidSymbol
            } else {
                EscrowError::InvalidPtMediaUri
            }),
            r is Ok ==> {
                let c = r->Ok_0;
                &&& c.wf()
                &&& c.owner_id == owner_id
                &&& c.name == name
                &&& c.symbol == symbol
                &&& c.treasury_id == treasury_id
                &&& c.treasury_fee == 100
                &&& c.finder_id is None
                &&& c.finder_fee == 100
                &&& c.project_token_type == ProjectTokenType::NonFungible
                &&& c.project_token_id is None
                &&& c.fund_threshold == 0
                &&& c.start_timestamp == 0
                &&& c.tp_timestamp == 0
                &&& c.buffer_period == 0
                &&& c.conversion_period == 0
                &&& c.stable_coin_id == stable_coin_id
                &&& c.stable_coin_decimals == stable_coin_decimals
                &&& c.total_fund_amount == 0
                &&& c.claimed_fund_amount == 0
                &&& c.claimed_finder_fee == 0
                &&& c.pre_mint_amount == 0
                &&& c.converted_amount == 0
                &&& c.circulating_supply == 0
                &&& c.curve_type == curve_type
                &&& c.curve_args == curve_args
                &&& c.state == RunningState::Running
                &&& c.closed_step == ClosedStep::NotClosed
                &&& c.pt_media_uri == pt_media_uri
                &&& c.pt_max_supply == 0
                &&& c.ledger.entries@.len() == 0
                &&& c.ledger.all_total_supply == 0
            },
    {
        if !(name.len() > 2) {
            return Err(EscrowError::InvalidName);
        }
        if !(symbol.len() < 13 && symbol.len() > 2) {
            return Err(EscrowError::InvalidSymbol);
        }
        if !(pt_media_uri.len() > 0) {
            return Err(EscrowError::InvalidPtMediaUri);
        }
        Ok(
            Contract {
                owner_id,
                name,
                symbol,
                treasury_id,
                treasury_fee: 100,
                finder_id: None,
                finder_fee: 100,
                project_token_type: ProjectTokenType::NonFungible,
                project_token_id: None,
                fund_threshold: 0,
                start_timestamp: 0,
                tp_timestamp: 0,
                buffer_period: 0,
                conversion_period: 0,
                stable_coin_id,
                stable_coin_decimals,
                total_fund_amount: 0,
                claimed_fund_amount: 0,
                claimed_finder_fee: 0,
                pre_mint_amount: 0,
                converted_amount: 0,
                circulating_supply: 0,
                curve_type,
                curve_args,
                state: RunningState::Running,
                closed_step: ClosedStep::NotClosed,
                pt_media_uri,
                pt_max_supply: 0,
                ledger: ClaimLedger::new(),
            },
        )
    }

    /// Whether a purchase of `amount` claims against `deposit` at `now`
    /// passes every guard of `buy`.
    pub open spec fn spec_buy_ok(self, amount: u128, deposit: u128, now: u64) -> bool {
        &&& self.spec_paused_check() is None
        &&& self.spec_ongoing_check(now) is None
        &&& amount > 0
        &&& self.ledger.all_total_supply + amount <= u128::MAX
        &&& self.ledger.all_total_supply + amount < self.pt_max_supply
        &&& quote_buy_ok(
            self.curve_type,
            self.curve_args,
            self.stable_coin_decimals as nat,
            self.circulating_supply as nat,
            amount as nat,
        )
        &&& deposit >= spec_quote_buy(
            self.curve_type,
            self.curve_args,
            pow10(self.stable_coin_decimals as nat),
            self.circulating_supply as nat,
            amount as nat,
        )
        &&& self.ledger.entries@.len() + amount <= usize::MAX
    }

    /// The quote for buying `amount` claims in the current state.
    pub open spec fn spec_buy_reserve(self, amount: u128) -> int {
        spec_quote_buy(
            self.curve_type,
            self.curve_args,
            pow10(self.stable_coin_decimals as nat),
            self.circulating_supply as nat,
            amount as nat,
        )
    }

    /// Buy `amount` proxy claims with a stable-asset `deposit` already
    /// received.  Optimistically mints the claims to `from`; the returned
    /// reserve (the quoted gross price) and minted ids are the context
    /// that `on_buy` needs to commit or compensate.
    pub fn buy(&mut self, from: u64, amount: u128, deposit: u128, now: u64) -> (r: Result<
        (u128, Vec<u128>),
        EscrowError,
    >)
        requires
            old(self).wf(),
        ensures
            final(self).wf(),
            r is Ok <==> old(self).spec_buy_ok(amount, deposit, now),
            r is Err ==> *final(self) == *old(self),
            r is Err ==> {
                let s = *old(self);
                if s.spec_paused_check() is Some {
                    Some(r->Err_0) == s.spec_paused_check()
                } else if s.spec_ongoing_check(now) is Some {
                    Some(r->Err_0) == s.spec_ongoing_check(now)
                } else if amount == 0 {
                    r->Err_0 == EscrowError::InvalidAmount
                } else if s.ledger.all_total_supply + amount > u128::MAX {
                    r->Err_0 == EscrowError::Overflow
                } else if s.ledger.all_total_supply + amount >= s.pt_max_supply {
                    r->Err_0 == EscrowError::OverMaxSupply
                } else if !quote_buy_ok(
                    s.curve_type,
                    s.curve_args,
                    s.stable_coin_decimals as nat,
                    s.circulating_supply as nat,
                    amount as nat,
                ) {
                    r->Err_0 == EscrowError::Overflow || r->Err_0 == EscrowError::MissingCurveArg
                } else if deposit < s.spec_buy_reserve(amount) {
                    r->Err_0 == EscrowError::InsufficientFund
                } else {
                    r->Err_0 == EscrowError::Overflow
                }
            },
            r is Ok ==> {
                let (reserve, ids) = r->Ok_0;
                &&& reserve == old(self).spec_buy_reserve(amount)
                &&& *final(self) == (Contract { ledger: final(self).ledger, ..*old(self) })
                &&& final(self).ledger.entries@.len() == old(self).ledger.entries@.len() + amount
                &&& final(self).ledger.all_total_supply == old(self).ledger.all_total_supply
                    + amount
                &&& forall|i: int|
                    0 <= i < old(self).ledger.entries@.len() ==> final(self).ledger.entries@[i]
                        == old(self).ledger.entries@[i]
                &&& forall|i: int|
                    old(self).ledger.entries@.len() <= i < final(self).ledger.entries@.len()
                        ==> final(self).ledger.entries@[i] == (LedgerEntry {
                        supply: 1,
                        holder: from,
                    })
                &&& ids@.len() == amount
                &&& forall|j: int| 0 <= j < amount ==> ids@[j] == old(self).ledger.entries@.len() + j
            },
    {
        match self.check_not_paused() {
            Ok(()) => (),
            Err(e) => {
                return Err(e);
            },
        }
        match self.check_is_ongoing(now) {
            Ok(()) => (),
            Err(e) => {
                return Err(e);
            },
        }
        if amount == 0 {
            return Err(EscrowError::InvalidAmount);
        }
        let grown = match self.ledger.all_total_supply.checked_add(amount) {
            Some(v) => v,
            None => {
                return Err(EscrowError::Overflow);
            },
        };
        if !(grown < self.pt_max_supply) {
            return Err(EscrowError::OverMaxSupply);
        }
        let reserve = match quote_buy(
            &self.curve_type,
            &self.curve_args,
            self.stable_coin_decimals,
            self.circulating_supply,
            amount,
        ) {
            Ok(v) => v,
            Err(e) => {
                return Err(e);
            },
        };
        if deposit < reserve {
            return Err(EscrowError::InsufficientFund);
        }
        if amount > (usize::MAX as u128) - (self.ledger.entries.len() as u128) {
            return Err(EscrowError::Overflow);
        }
        let ids = self.pt_mint(from, amount);
        Ok((reserve, ids))
    }

    /// Whether the success leg of `on_buy` can commit: the fee split, the
    /// fund totals and the circulating supply all stay in range.
    pub open spec fn spec_on_buy_commit_ok(self, amount: u128, deposit: u128, reserve: u128) -> bool {
        &&& reserve * self.treasury_fee <= u128::MAX
        &&& self.total_fund_amount + (reserve - reserve * self.treasury_fee / (FEE_DIVISOR as int))
            <= u128::MAX
        &&& self.circulating_supply + amount <= u128::MAX
        &&& deposit >= reserve
    }

    /// Callback of `buy`.  On success: carve the treasury fee out of the
    /// reserve, accumulate the fund total, record the threshold timestamp
    /// the first time the total reaches the target, grow the circulating
    /// supply, and schedule the fee transfer plus any excess-deposit
    /// refund.  On failure: burn the optimistically minted claims back and
    /// refund the entire deposit.
    pub fn on_buy(
        &mut self,
        success: bool,
        from: u64,
        amount: u128,
        deposit: u128,
        reserve: u128,
        token_ids: &Vec<u128>,
        now: u64,
    ) -> (r: Result<(bool, Vec<Action>), EscrowError>)
        requires
            old(self).wf(),
            old(self).is_activated(),
        ensures
            final(self).wf(),
            r is Err ==> *final(self) == *old(self),
            success ==> (r is Ok <==> old(self).spec_on_buy_commit_ok(amount, deposit, reserve)),
            success ==> r is Err ==> r->Err_0 == EscrowError::Overflow,
            (success && r is Ok) ==> {
                let fee = reserve * old(self).treasury_fee / (FEE_DIVISOR as int);
                let gathered = (old(self).total_fund_amount + (reserve - fee)) as u128;
                let remain = deposit - reserve;
                &&& r->Ok_0.0 == true
                &&& *final(self) == (Contract {
                    total_fund_amount: gathered,
                    tp_timestamp: if old(self).tp_timestamp == 0 && gathered >= old(
                        self,
                    ).fund_threshold {
                        now
                    } else {
                        old(self).tp_timestamp
                    },
                    circulating_supply: (old(self).circulating_supply + amount) as u128,
                    ..*old(self)
                })
                &&& (remain > 0 ==> r->Ok_0.1@ == seq![
                    Action::StableTransfer { to: old(self).treasury_id, amount: fee as u128 },
                    Action::StableTransfer { to: from, amount: remain as u128 },
                ])
                &&& (remain == 0 ==> r->Ok_0.1@ == seq![
                    Action::StableTransfer { to: old(self).treasury_id, amount: fee as u128 },
                ])
            },
            !success ==> (r is Ok <==> old(self).ledger.burn_ok(from, token_ids@)),
            !success ==> r is Err ==> r->Err_0 == EscrowError::CompensationFailed,
            (!success && r is Ok) ==> {
                &&& r->Ok_0.0 == false
                &&& r->Ok_0.1@ == seq![Action::StableTransfer { to: from, amount: deposit }]
                &&& *final(self) == (Contract { ledger: final(self).ledger, ..*old(self) })
                &&& final(self).ledger.entries@.len() == old(self).ledger.entries@.len()
                &&& final(self).ledger.all_total_supply == old(self).ledger.all_total_supply
                    - token_ids@.len()
                &&& forall|i: int|
                    0 <= i < final(self).ledger.entries@.len() && !token_ids@.contains(i as u128)
                        ==> final(self).ledger.entries@[i] == old(self).ledger.entries@[i]
                &&& forall|j: int|
                    0 <= j < token_ids@.len() ==> final(self).ledger.entries@[
                        #[trigger] token_ids@[j] as int].supply == 0
            },
    {
        if success {
            let scaled = match reserve.checked_mul(self.treasury_fee as u128) {
                Some(v) => v,
                None => {
                    return Err(EscrowError::Overflow);
                },
            };
            let fee = scaled / (FEE_DIVISOR as u128);
            proof {
                assert((reserve as int) * (self.treasury_fee as int) <= (reserve as int) * (
                FEE_DIVISOR as int)) by (nonlinear_arith)
                    requires
                        self.treasury_fee <= FEE_DIVISOR,
                ;
                vstd::arithmetic::div_mod::lemma_div_is_ordered(
                    scaled as int,
                    (reserve as int) * (FEE_DIVISOR as int),
                    FEE_DIVISOR as int,
                );
                vstd::arithmetic::div_mod::lemma_div_by_multiple(
                    reserve as int,
                    FEE_DIVISOR as int,
                );
            }
            let reserve_fund = reserve - fee;
            let gathered = match self.total_fund_amount.checked_add(reserve_fund) {
                Some(v) => v,
                None => {
                    return Err(EscrowError::Overflow);
                },
            };
            let new_circulating = match self.circulating_supply.checked_add(amount) {
                Some(v) => v,
                None => {
                    return Err(EscrowError::Overflow);
                },
            };
            let remain = match deposit.checked_sub(reserve) {
                Some(v) => v,
                None => {
                    return Err(EscrowError::Overflow);
                },
            };
            self.total_fund_amount = gathered;
            if self.tp_timestamp == 0 && self.total_fund_amount >= self.fund_threshold {
                self.tp_timestamp = now;
            }
            self.circulating_supply = new_circulating;
            let mut actions: Vec<Action> = Vec::new();
            actions.push(Action::StableTransfer { to: self.treasury_id, amount: fee });
            if remain > 0 {
                actions.push(Action::StableTransfer { to: from, amount: remain });
            }
            proof {
                if deposit - reserve > 0 {
                    assert(actions@ =~= seq![
                        Action::StableTransfer {
                            to: old(self).treasury_id,
                            amount: (reserve * old(self).treasury_fee / (
                            FEE_DIVISOR as int)) as u128,
                        },
                        Action::StableTransfer { to: from, amount: (deposit - reserve) as u128 },
                    ]);
                } else {
                    assert(actions@ =~= seq![
                        Action::StableTransfer {
                            to: old(self).treasury_id,
                            amount: (reserve * old(self).treasury_fee / (
                            FEE_DIVISOR as int)) as u128,
                        },
                    ]);
                }
            }
            Ok((true, actions))
        } else {
            match self.pt_burn(from, token_ids) {
                Ok(()) => (),
                Err(_) => {
                    return Err(EscrowError::CompensationFailed);
                },
            }
            let mut actions: Vec<Action> = Vec::new();
            actions.push(Action::StableTransfer { to: from, amount: deposit });
            proof {
                assert(actions@ =~= seq![Action::StableTransfer { to: from, amount: deposit }]);
            }
            Ok((false, actions))
        }
    }

    /// The gross marginal value of the claims in `ids` in the current
    /// state.
    pub open spec fn spec_sell_gross_of(self, ids: Seq<u128>) -> int {
        spec_sell_gross(
            self.curve_type,
            self.curve_args,
            pow10(self.stable_coin_decimals as nat),
            self.pre_mint_amount as nat,
            ids,
        )
    }

    /// The net sell quote of the claims in `ids` in the current state.
    pub open spec fn spec_sell_refund(self, ids: Seq<u128>) -> int {
        spec_quote_sell(self.spec_sell_gross_of(ids), self.treasury_fee as nat)
    }

    /// Whether selling exactly the claims in `ids` at `now` passes every
    /// guard of `sell`.
    pub open spec fn spec_sell_ok(self, from: u64, ids: Seq<u128>, now: u64) -> bool {
        &&& self.spec_paused_check() is None
        &&& self.spec_ongoing_check(now) is None
        &&& quote_sell_ok(
            self.curve_type,
            self.curve_args,
            self.stable_coin_decimals as nat,
            self.pre_mint_amount as nat,
            self.treasury_fee as nat,
            ids,
        )
        &&& self.spec_sell_refund(ids) > 0
        &&& self.ledger.burn_ok(from, ids)
    }

    /// Sell the claims in `token_ids` back to the curve.  Optimistically
    /// burns the claims and schedules the stable-asset payout; the
    /// returned refund is the context that `on_sell` needs.
    pub fn sell(&mut self, from: u64, token_ids: &Vec<u128>, now: u64) -> (r: Result<
        (u128, Vec<Action>),
        EscrowError,
    >)
        requires
            old(self).wf(),
        ensures
            final(self).wf(),
            r is Ok <==> old(self).spec_sell_ok(from, token_ids@, now),
            r is Err ==> *final(self) == *old(self),
            r is Err ==> {
                let s = *old(self);
                if s.spec_paused_check() is Some {
                    Some(r->Err_0) == s.spec_paused_check()
                } else if s.spec_ongoing_check(now) is Some {
                    Some(r->Err_0) == s.spec_ongoing_check(now)
                } else if !quote_sell_ok(
                    s.curve_type,
                    s.curve_args,
                    s.stable_coin_decimals as nat,
                    s.pre_mint_amount as nat,
                    s.treasury_fee as nat,
                    token_ids@,
                ) {
                    r->Err_0 == EscrowError::Overflow || r->Err_0 == EscrowError::MissingCurveArg
                } else if s.spec_sell_refund(token_ids@) <= 0 {
                    r->Err_0 == EscrowError::InvalidAction
                } else {
                    r->Err_0 == EscrowError::InsufficientBalance || r->Err_0
                        == EscrowError::InvalidAmount
                }
            },
            r is Ok ==> {
                let (refund, actions) = r->Ok_0;
                &&& refund == old(self).spec_sell_refund(token_ids@)
                &&& actions@ == seq![Action::StableTransfer { to: from, amount: refund }]
                &&& *final(self) == (Contract { ledger: final(self).ledger, ..*old(self) })
                &&& final(self).ledger.entries@.len() == old(self).ledger.entries@.len()
                &&& final(self).ledger.all_total_supply == old(self).ledger.all_total_supply
                    - token_ids@.len()
                &&& forall|i: int|
                    0 <= i < final(self).ledger.entries@.len() && !token_ids@.contains(i as u128)
                        ==> final(self).ledger.entries@[i] == old(self).ledger.entries@[i]
                &&& forall|j: int|
                    0 <= j < token_ids@.len() ==> final(self).ledger.entries@[
                        #[trigger] token_ids@[j] as int].supply == 0
            },
    {
        match self.check_not_paused() {
            Ok(()) => (),
            Err(e) => {
                return Err(e);
            },
        }
        match self.check_is_ongoing(now) {
            Ok(()) => (),
            Err(e) => {
                return Err(e);
            },
        }
        let refund = match quote_sell(
            &self.curve_type,
            &self.curve_args,
            self.stable_coin_decimals,
            self.pre_mint_amount,
            self.treasury_fee,
            token_ids,
        ) {
            Ok(v) => v,
            Err(e) => {
                return Err(e);
            },
        };
        if refund == 0 {
            return Err(EscrowError::InvalidAction);
        }
        match self.pt_burn(from, token_ids) {
            Ok(()) => (),
            Err(e) => {
                return Err(e);
            },
        }
        let mut actions: Vec<Action> = Vec::new();
        actions.push(Action::StableTransfer { to: from, amount: refund });
        proof {
            assert(actions@ =~= seq![Action::StableTransfer { to: from, amount: refund }]);
        }
        Ok((refund, actions))
    }

    /// Callback of `sell`.  On success: release the refunded value from
    /// the fund total and shrink the circulating supply.  On failure:
    /// re-mint the optimistically burned claims back to the seller.
    pub fn on_sell(&mut self, success: bool, from: u64, refund: u128, token_ids: &Vec<u128>) -> (r:
        Result<bool, EscrowError>)
        requires
            old(self).wf(),
        ensures
            final(self).wf(),
            r is Err ==> *final(self) == *old(self),
            success ==> (r is Ok <==> old(self).total_fund_amount >= refund && old(
                self,
            ).circulating_supply >= token_ids@.len()),
            success ==> r is Err ==> r->Err_0 == EscrowError::Overflow,
            (success && r is Ok) ==> {
                &&& r->Ok_0 == true
                &&& *final(self) == (Contract {
                    total_fund_amount: (old(self).total_fund_amount - refund) as u128,
                    circulating_supply: (old(self).circulating_supply - token_ids@.len()) as u128,
                    ..*old(self)
                })
            },
            !success ==> (r is Ok <==> old(self).ledger.revert_ok(token_ids@)),
            !success ==> r is Err ==> r->Err_0 == EscrowError::CompensationFailed,
            (!success && r is Ok) ==> {
                &&& r->Ok_0 == false
                &&& *final(self) == (Contract { ledger: final(self).ledger, ..*old(self) })
                &&& final(self).ledger.entries@.len() == old(self).ledger.entries@.len()
                &&& final(self).ledger.all_total_supply == old(self).ledger.all_total_supply
                    + token_ids@.len()
                &&& forall|i: int|
                    0 <= i < final(self).ledger.entries@.len() && !token_ids@.contains(i as u128)
                        ==> final(self).ledger.entries@[i] == old(self).ledger.entries@[i]
                &&& forall|j: int|
                    0 <= j < token_ids@.len() ==> final(self).ledger.entries@[
                        #[trigger] token_ids@[j] as int] == (LedgerEntry {
                        supply: 1,
                        holder: from,
                    })
            },
    {
        if success {
            let len128 = token_ids.len() as u128;
            let new_fund = match self.total_fund_amount.checked_sub(refund) {
                Some(v) => v,
                None => {
                    return Err(EscrowError::Overflow);
                },
            };
            let new_circulating = match self.circulating_supply.checked_sub(len128) {
                Some(v) => v,
                None => {
                    return Err(EscrowError::Overflow);
                },
            };
            self.total_fund_amount = new_fund;
            self.circulating_supply = new_circulating;
            Ok(true)
        } else {
            match self.revert_pt_burn(from, token_ids) {
                Ok(()) => (),
                Err(_) => {
                    return Err(EscrowError::CompensationFailed);
                },
            }
            Ok(false)
        }
    }

    /// The external mint that hands `amount` fresh final project tokens
    /// to `to`, for either project-token kind.
    pub fn internal_project_token_mint(&self, to: u64, amount: u128) -> (r: Action)
        ensures
            r == (Action::ProjectTokenMint { to, amount }),
    {
        Action::ProjectTokenMint { to, amount }
    }

    /// The external transfer that hands `amount` already-minted final
    /// project tokens to `to`: the next `amount` reserved ids for a
    /// collection, a plain transfer for a fungible token.
    pub fn internal_convert_transfer(&self, to: u64, amount: u128) -> (r: Result<
        Action,
        EscrowError,
    >)
        ensures
            self.project_token_type == ProjectTokenType::Fungible ==> r == Result::<
                Action,
                EscrowError,
            >::Ok(Action::ProjectTokenTransfer { to, amount }),
            self.project_token_type == ProjectTokenType::NonFungible ==> {
                &&& r is Ok <==> self.pre_mint_amount + self.converted_amount + amount
                    <= u128::MAX
                &&& r is Err ==> r->Err_0 == EscrowError::Overflow
                &&& r is Ok ==> (r->Ok_0 matches Action::ProjectTokenBatchTransfer {
                    to: t,
                    token_ids,
                } && t == to && token_ids@.len() == amount && (forall|j: int|
                    0 <= j < amount ==> token_ids@[j] == self.pre_mint_amount
                        + self.converted_amount + j))
            },
    {
        match self.project_token_type {
            ProjectTokenType::Fungible => Ok(Action::ProjectTokenTransfer { to, amount }),
            ProjectTokenType::NonFungible => {
                let base = match self.pre_mint_amount.checked_add(self.converted_amount) {
                    Some(v) => v,
                    None => {
                        return Err(EscrowError::Overflow);
                    },
                };
                if amount > u128::MAX - base {
                    return Err(EscrowError::Overflow);
                }
                let mut token_ids: Vec<u128> = Vec::new();
                let mut i: u128 = 0;
                while i < amount
                    invariant
                        i <= amount,
                        base == self.pre_mint_amount + self.converted_amount,
                        base + amount <= u128::MAX,
                        token_ids@.len() == i,
                        forall|j: int| 0 <= j < i ==> token_ids@[j] == base + j,
                    decreases amount - i,
                {
                    token_ids.push(base + i);
                    i = i + 1;
                }
                Ok(Action::ProjectTokenBatchTransfer { to, token_ids })
            },
        }
    }

    /// Whether converting the claims in `ids` at `now` passes every guard
    /// of `convert`.
    pub open spec fn spec_convert_ok(self, from: u64, ids: Seq<u128>, now: u64) -> bool {
        &&& self.spec_paused_check() is None
        &&& self.spec_after_buffer_check(now) is None
        &&& (self.closed_step.index() >= 2 && self.project_token_type
            == ProjectTokenType::NonFungible ==> self.pre_mint_amount + self.converted_amount
            + ids.len() <= u128::MAX)
        &&& self.ledger.burn_ok(from, ids)
    }

    /// Convert the claims in `token_ids` into final project tokens, one
    /// for one.  Optimistically burns the claims; the scheduled external
    /// operation mints fresh supply before closing reserved inventory,
    /// and transfers reserved inventory afterwards.
    pub fn convert(&mut self, from: u64, token_ids: &Vec<u128>, now: u64) -> (r: Result<
        Vec<Action>,
        EscrowError,
    >)
        requires
            old(self).wf(),
        ensures
            final(self).wf(),
            r is Ok <==> old(self).spec_convert_ok(from, token_ids@, now),
            r is Err ==> *final(self) == *old(self),
            r is Err ==> {
                let s = *old(self);
                if s.spec_paused_check() is Some {
                    Some(r->Err_0) == s.spec_paused_check()
                } else if s.spec_after_buffer_check(now) is Some {
                    Some(r->Err_0) == s.spec_after_buffer_check(now)
                } else if s.closed_step.index() >= 2 && s.project_token_type
                    == ProjectTokenType::NonFungible && s.pre_mint_amount + s.converted_amount
                    + token_ids@.len() > u128::MAX {
                    r->Err_0 == EscrowError::Overflow
                } else {
                    r->Err_0 == EscrowError::InsufficientBalance || r->Err_0
                        == EscrowError::InvalidAmount
                }
            },
            r is Ok ==> {
                let actions = r->Ok_0;
                &&& actions@.len() == 1
                &&& (old(self).closed_step.index() < 2 ==> actions@[0]
                    == (Action::ProjectTokenMint { to: from, amount: token_ids@.len() as u128 }))
                &&& (old(self).closed_step.index() >= 2 && old(self).project_token_type
                    == ProjectTokenType::Fungible ==> actions@[0] == (Action::ProjectTokenTransfer {
                    to: from,
                    amount: token_ids@.len() as u128,
                }))
                &&& (old(self).closed_step.index() >= 2 && old(self).project_token_type
                    == ProjectTokenType::NonFungible ==> (actions@[0]
                    matches Action::ProjectTokenBatchTransfer { to: t, token_ids: pids } && t
                    == from && pids@.len() == token_ids@.len() && (forall|j: int|
                    0 <= j < pids@.len() ==> pids@[j] == old(self).pre_mint_amount + old(self).converted_amount + j)))
                &&& *final(self) == (Contract { ledger: final(self).ledger, ..*old(self) })
                &&& final(self).ledger.entries@.len() == old(self).ledger.entries@.len()
                &&& final(self).ledger.all_total_supply == old(self).ledger.all_total_supply
                    - token_ids@.len()
                &&& forall|i: int|
                    0 <= i < final(self).ledger.entries@.len() && !token_ids@.contains(i as u128)
                        ==> final(self).ledger.entries@[i] == old(self).ledger.entries@[i]
                &&& forall|j: int|
                    0 <= j < token_ids@.len() ==> final(self).ledger.entries@[
                        #[trigger] token_ids@[j] as int].supply == 0
            },
    {
        match self.check_not_paused() {
            Ok(()) => (),
            Err(e) => {
                return Err(e);
            },
        }
        match self.check_after_buffer(now) {
            Ok(()) => (),
            Err(e) => {
                return Err(e);
            },
        }
        let len128 = token_ids.len() as u128;
        let past_remain_proxy = match self.closed_step {
            ClosedStep::RemainProxy => true,
            ClosedStep::TransferOwnership => true,
            _ => false,
        };
        let convert_action = if past_remain_proxy {
            match self.internal_convert_transfer(from, len128) {
                Ok(a) => a,
                Err(e) => {
                    return Err(e);
                },
            }
        } else {
            self.internal_project_token_mint(from, len128)
        };
        match self.pt_burn(from, token_ids) {
            Ok(()) => (),
            Err(e) => {
                return Err(e);
            },
        }
        let mut actions: Vec<Action> = Vec::new();
        actions.push(convert_action);
        Ok(actions)
    }

    /// Callback of `convert`.  On success: record the converted amount.
    /// On failure: re-mint the optimistically burned claims back to the
    /// converter.
    pub fn on_convert(&mut self, success: bool, from: u64, token_ids: &Vec<u128>) -> (r: Result<
        bool,
        EscrowError,
    >)
        requires
            old(self).wf(),
        ensures
            final(self).wf(),
            r is Err ==> *final(self) == *old(self),
            success ==> (r is Ok <==> old(self).converted_amount + token_ids@.len()
                <= u128::MAX),
            success ==> r is Err ==> r->Err_0 == EscrowError::Overflow,
            (success && r is Ok) ==> {
                &&& r->Ok_0 == true
                &&& *final(self) == (Contract {
                    converted_amount: (old(self).converted_amount + token_ids@.len()) as u128,
                    ..*old(self)
                })
            },
            !success ==> (r is Ok <==> old(self).ledger.revert_ok(token_ids@)),
            !success ==> r is Err ==> r->Err_0 == EscrowError::CompensationFailed,
            (!success && r is Ok) ==> {
                &&& r->Ok_0 == false
                &&& *final(self) == (Contract { ledger: final(self).ledger, ..*old(self) })
                &&& final(self).ledger.entries@.len() == old(self).ledger.entries@.len()
                &&& final(self).ledger.all_total_supply == old(self).ledger.all_total_supply
                    + token_ids@.len()
                &&& forall|i: int|
                    0 <= i < final(self).ledger.entries@.len() && !token_ids@.contains(i as u128)
                        ==> final(self).ledger.entries@[i] == old(self).ledger.entries@[i]
                &&& forall|j: int|
                    0 <= j < token_ids@.len() ==> final(self).ledger.entries@[
                        #[trigger] token_ids@[j] as int] == (LedgerEntry {
                        supply: 1,
                        holder: from,
                    })
            },
    {
        if success {
            let len128 = token_ids.len() as u128;
            let new_converted = match self.converted_amount.checked_add(len128) {
                Some(v) => v,
                None => {
                    return Err(EscrowError::Overflow);
                },
            };
            self.converted_amount = new_converted;
            Ok(true)
        } else {
            match self.revert_pt_burn(from, token_ids) {
                Ok(()) => (),
                Err(_) => {
                    return Err(EscrowError::CompensationFailed);
                },
            }
            Ok(false)
        }
    }

    /// Mint `amount` claims to the owner before the public sale opens.
    pub fn pre_mint(&mut self, caller: u64, amount: u128) -> (r: Result<(), EscrowError>)
        requires
            old(self).wf(),
        ensures
            final(self).wf(),
            r is Ok <==> old(self).is_owner(caller) && amount > 0 && old(self).start_timestamp == 0
                && old(self).pre_mint_amount + amount <= u128::MAX && old(
                self,
            ).ledger.entries@.len() + amount <= usize::MAX,
            r is Err ==> *final(self) == *old(self),
            r is Err ==> r->Err_0 == (if !old(self).is_owner(caller) {
                EscrowError::NotAllowed
            } else if amount == 0 {
                EscrowError::InvalidAmount
            } else if old(self).start_timestamp != 0 {
                EscrowError::AlreadyActivated
            } else {
                EscrowError::Overflow
            }),
            r is Ok ==> {
                &&& *final(self) == (Contract {
                    pre_mint_amount: (old(self).pre_mint_amount + amount) as u128,
                    ledger: final(self).ledger,
                    ..*old(self)
                })
                &&& final(self).ledger.entries@.len() == old(self).ledger.entries@.len() + amount
                &&& final(self).ledger.all_total_supply == old(self).ledger.all_total_supply
                    + amount
                &&& forall|i: int|
                    0 <= i < old(self).ledger.entries@.len() ==> final(self).ledger.entries@[i]
                        == old(self).ledger.entries@[i]
                &&& forall|i: int|
                    old(self).ledger.entries@.len() <= i < final(self).ledger.entries@.len()
                        ==> final(self).ledger.entries@[i] == (LedgerEntry {
                        supply: 1,
                        holder: old(self).owner_id,
                    })
            },
    {
        match self.check_owner(caller) {
            Ok(()) => (),
            Err(e) => {
                return Err(e);
            },
        }
        if amount == 0 {
            return Err(EscrowError::InvalidAmount);
        }
        if self.start_timestamp != 0 {
            return Err(EscrowError::AlreadyActivated);
        }
        let grown = match self.pre_mint_amount.checked_add(amount) {
            Some(v) => v,
            None => {
                return Err(EscrowError::Overflow);
            },
        };
        if amount > (usize::MAX as u128) - (self.ledger.entries.len() as u128) {
            return Err(EscrowError::Overflow);
        }
        self.pre_mint_amount = grown;
        let receiver = self.owner_id;
        let _ids = self.pt_mint(receiver, amount);
        Ok(())
    }

    /// Whether an activation request passes every validation of the two
    /// `active_*_project` operations; a collection additionally needs a
    /// nonempty base reference.
    pub open spec fn spec_activate_ok(
        self,
        caller: u64,
        max_supply: u128,
        fund_threshold: u128,
        conversion_period: u64,
    ) -> bool {
        &&& self.is_owner(caller)
        &&& self.closed_step == ClosedStep::NotClosed
        &&& max_supply > 0 && self.pre_mint_amount < max_supply
        &&& fund_threshold > 0
        &&& conversion_period >= 86400
    }

    /// The activation error for a given request, in validation order.
    pub open spec fn spec_activate_err(
        self,
        caller: u64,
        max_supply: u128,
        fund_threshold: u128,
        conversion_period: u64,
    ) -> EscrowError {
        if !self.is_owner(caller) {
            EscrowError::NotAllowed
        } else if self.closed_step != ClosedStep::NotClosed {
            EscrowError::AlreadyClosed
        } else if !(max_supply > 0 && self.pre_mint_amount < max_supply) {
            EscrowError::InvalidMaxSupply
        } else if fund_threshold == 0 {
            EscrowError::InvalidFundingTarget
        } else {
            EscrowError::InvalidConversionPeriod
        }
    }

    /// The state after a validated activation request of kind `kind`.
    pub open spec fn spec_activated_state(
        self,
        kind: ProjectTokenType,
        max_supply: u128,
        finder_id: u64,
        fund_threshold: u128,
        buffer_period: u64,
        conversion_period: u64,
    ) -> Contract {
        Contract {
            finder_id: Some(finder_id),
            fund_threshold,
            buffer_period,
            conversion_period,
            project_token_type: kind,
            pt_max_supply: max_supply,
            ..self
        }
    }

    /// Activate the escrow around a non-fungible project token: validate
    /// the request, record the sale parameters, and schedule deployment
    /// of the collection contract.
    pub fn active_nft_project(
        &mut self,
        caller: u64,
        base_uri: Vec<u8>,
        max_supply: u128,
        finder_id: u64,
        fund_threshold: u128,
        buffer_period: u64,
        conversion_period: u64,
    ) -> (r: Result<Action, EscrowError>)
        requires
            old(self).wf(),
        ensures
            final(self).wf(),
            r is Ok <==> old(self).spec_activate_ok(caller, max_supply, fund_threshold, conversion_period)
                && base_uri@.len() > 0,
            r is Err ==> *final(self) == *old(self),
            r is Err ==> r->Err_0 == (if old(self).is_owner(caller) && old(self).closed_step
                == ClosedStep::NotClosed && base_uri@.len() == 0 {
                EscrowError::InvalidCollectionBaseUri
            } else {
                old(self).spec_activate_err(caller, max_supply, fund_threshold, conversion_period)
            }),
            r is Ok ==> {
                &&& *final(self) == old(self).spec_activated_state(
                    ProjectTokenType::NonFungible,
                    max_supply,
                    finder_id,
                    fund_threshold,
                    buffer_period,
                    conversion_period,
                )
                &&& (r->Ok_0 matches Action::DeployProjectToken {
                    kind,
                    name,
                    symbol,
                    base_uri: uri,
                    max_supply: cap,
                } && kind == ProjectTokenType::NonFungible && name@ == old(self).name@ && symbol@
                    == old(self).symbol@ && uri@ == base_uri@ && cap == max_supply)
            },
    {
        match self.check_owner(caller) {
            Ok(()) => (),
            Err(e) => {
                return Err(e);
            },
        }
        if self.closed_step != ClosedStep::NotClosed {
            return Err(EscrowError::AlreadyClosed);
        }
        if base_uri.len() == 0 {
            return Err(EscrowError::InvalidCollectionBaseUri);
        }
        if !(max_supply > 0 && self.pre_mint_amount < max_supply) {
            return Err(EscrowError::InvalidMaxSupply);
        }
        if fund_threshold == 0 {
            return Err(EscrowError::InvalidFundingTarget);
        }
        if conversion_period < 86400 {
            return Err(EscrowError::InvalidConversionPeriod);
        }
        self.finder_id = Some(finder_id);
        self.fund_threshold = fund_threshold;
        self.buffer_period = buffer_period;
        self.conversion_period = conversion_period;
        self.project_token_type = ProjectTokenType::NonFungible;
        self.pt_max_supply = max_supply;
        Ok(
            Action::DeployProjectToken {
                kind: ProjectTokenType::NonFungible,
                name: self.name.clone(),
                symbol: self.symbol.clone(),
                base_uri,
                max_supply,
            },
        )
    }

    /// Activate the escrow around a fungible project token: validate the
    /// request, record the sale parameters, and schedule deployment of
    /// the token contract.
    pub fn active_ft_project(
        &mut self,
        caller: u64,
        max_supply: u128,
        finder_id: u64,
        fund_threshold: u128,
        buffer_period: u64,
        conversion_period: u64,
    ) -> (r: Result<Action, EscrowError>)
        requires
            old(self).wf(),
        ensures
            final(self).wf(),
            r is Ok <==> old(self).spec_activate_ok(
                caller,
                max_supply,
                fund_threshold,
                conversion_period,
            ),
            r is Err ==> *final(self) == *old(self),
            r is Err ==> r->Err_0 == old(self).spec_activate_err(
                caller,
                max_supply,
                fund_threshold,
                conversion_period,
            ),
            r is Ok ==> {
                &&& *final(self) == old(self).spec_activated_state(
                    ProjectTokenType::Fungible,
                    max_supply,
                    finder_id,
                    fund_threshold,
                    buffer_period,
                    conversion_period,
                )
                &&& (r->Ok_0 matches Action::DeployProjectToken {
                    kind,
                    name,
                    symbol,
                    base_uri: uri,
                    max_supply: cap,
                } && kind == ProjectTokenType::Fungible && name@ == old(self).name@ && symbol@
                    == old(self).symbol@ && uri@.len() == 0 && cap == max_supply)
            },
    {
        match self.check_owner(caller) {
            Ok(()) => (),
            Err(e) => {
                return Err(e);
            },
        }
        if self.closed_step != ClosedStep::NotClosed {
            return Err(EscrowError::AlreadyClosed);
        }
        if !(max_supply > 0 && self.pre_mint_amount < max_supply) {
            return Err(EscrowError::InvalidMaxSupply);
        }
        if fund_threshold == 0 {
            return Err(EscrowError::InvalidFundingTarget);
        }
        if conversion_period < 86400 {
            return Err(EscrowError::InvalidConversionPeriod);
        }
        self.finder_id = Some(finder_id);
        self.fund_threshold = fund_threshold;
        self.buffer_period = buffer_period;
        self.conversion_period = conversion_period;
        self.project_token_type = ProjectTokenType::Fungible;
        self.pt_max_supply = max_supply;
        Ok(
            Action::DeployProjectToken {
                kind: ProjectTokenType::Fungible,
                name: self.name.clone(),
                symbol: self.symbol.clone(),
                base_uri: Vec::new(),
                max_supply,
            },
        )
    }

    /// Callback of the activation deployment.  On success the project
    /// token reference and the start timestamp are recorded; on failure
    /// nothing is, and the owner may request activation again.
    pub fn on_activate(&mut self, success: bool, project_token_id: u64, now: u64) -> (r: bool)
        requires
            old(self).wf(),
            old(self).finder_id is Some,
            now > 0,
        ensures
            final(self).wf(),
            r == success,
            success ==> *final(self) == (Contract {
                project_token_id: Some(project_token_id),
                start_timestamp: now,
                ..*old(self)
            }),
            !success ==> *final(self) == *old(self),
    {
        if success {
            self.project_token_id = Some(project_token_id);
            self.start_timestamp = now;
            true
        } else {
            false
        }
    }

    /// Total finder fee owed out of the current fund total.
    pub open spec fn spec_total_finder_fee(self) -> int {
        self.total_fund_amount * self.finder_fee / (FEE_DIVISOR as int)
    }

    /// Whether a proceeds claim of `amount` at `now` passes every guard
    /// of `claim_fund`.
    pub open spec fn spec_claim_fund_ok(self, caller: u64, amount: u128, now: u64) -> bool {
        &&& self.is_owner(caller)
        &&& self.spec_after_conversion_check(now) is None
        &&& self.total_fund_amount * self.finder_fee <= u128::MAX
        &&& amount > 0
        &&& self.claimed_fund_amount <= self.total_fund_amount - self.spec_total_finder_fee()
        &&& self.total_fund_amount - self.spec_total_finder_fee() - self.claimed_fund_amount
            >= amount
    }

    /// Claim `amount` of the gathered proceeds to `to`, bounded by the
    /// fund total less the finder's cut and what was already claimed.
    pub fn claim_fund(&mut self, caller: u64, to: u64, amount: u128, now: u64) -> (r: Result<
        Vec<Action>,
        EscrowError,
    >)
        requires
            old(self).wf(),
        ensures
            final(self).wf(),
            *final(self) == *old(self),
            r is Ok <==> old(self).spec_claim_fund_ok(caller, amount, now),
            r is Err ==> {
                let s = *old(self);
                if !s.is_owner(caller) {
                    r->Err_0 == EscrowError::NotAllowed
                } else if s.spec_after_conversion_check(now) is Some {
                    Some(r->Err_0) == s.spec_after_conversion_check(now)
                } else if s.total_fund_amount * s.finder_fee > u128::MAX {
                    r->Err_0 == EscrowError::Overflow
                } else if amount == 0 {
                    r->Err_0 == EscrowError::InvalidAmount
                } else if s.claimed_fund_amount > s.total_fund_amount - s.spec_total_finder_fee() {
                    r->Err_0 == EscrowError::Overflow
                } else {
                    r->Err_0 == EscrowError::InvalidAmount
                }
            },
            r is Ok ==> r->Ok_0@ == seq![Action::StableTransfer { to, amount }],
    {
        match self.check_owner(caller) {
            Ok(()) => (),
            Err(e) => {
                return Err(e);
            },
        }
        match self.check_after_conversion(now) {
            Ok(()) => (),
            Err(e) => {
                return Err(e);
            },
        }
        let scaled = match self.total_fund_amount.checked_mul(self.finder_fee as u128) {
            Some(v) => v,
            None => {
                return Err(EscrowError::Overflow);
            },
        };
        let total_finder_fee = scaled / (FEE_DIVISOR as u128);
        proof {
            assert((self.total_fund_amount as int) * (self.finder_fee as int) <= (
            self.total_fund_amount as int) * (FEE_DIVISOR as int)) by (nonlinear_arith)
                requires
                    self.finder_fee <= FEE_DIVISOR,
            ;
            vstd::arithmetic::div_mod::lemma_div_is_ordered(
                scaled as int,
                (self.total_fund_amount as int) * (FEE_DIVISOR as int),
                FEE_DIVISOR as int,
            );
            vstd::arithmetic::div_mod::lemma_div_by_multiple(
                self.total_fund_amount as int,
                FEE_DIVISOR as int,
            );
        }
        let total_claimable_fund = self.total_fund_amount - total_finder_fee;
        if amount == 0 {
            return Err(EscrowError::InvalidAmount);
        }
        let open_claim = match total_claimable_fund.checked_sub(self.claimed_fund_amount) {
            Some(v) => v,
            None => {
                return Err(EscrowError::Overflow);
            },
        };
        if open_claim < amount {
            return Err(EscrowError::InvalidAmount);
        }
        let mut actions: Vec<Action> = Vec::new();
        actions.push(Action::StableTransfer { to, amount });
        proof {
            assert(actions@ =~= seq![Action::StableTransfer { to, amount }]);
        }
        Ok(actions)
    }

    /// Callback of `claim_fund`: commit the claimed counter only when the
    /// transfer succeeded.
    pub fn on_claim_fund(&mut self, success: bool, amount: u128) -> (r: Result<bool, EscrowError>)
        requires
            old(self).wf(),
        ensures
            final(self).wf(),
            r is Err ==> *final(self) == *old(self) && r->Err_0 == EscrowError::Overflow,
            success ==> (r is Ok <==> old(self).claimed_fund_amount + amount <= u128::MAX),
            (success && r is Ok) ==> r->Ok_0 == true && *final(self) == (Contract {
                claimed_fund_amount: (old(self).claimed_fund_amount + amount) as u128,
                ..*old(self)
            }),
            !success ==> r is Ok && r->Ok_0 == false && *final(self) == *old(self),
    {
        if success {
            let grown = match self.claimed_fund_amount.checked_add(amount) {
                Some(v) => v,
                None => {
                    return Err(EscrowError::Overflow);
                },
            };
            self.claimed_fund_amount = grown;
            Ok(true)
        } else {
            Ok(false)
        }
    }

    /// Whether a finder-fee claim of `amount` at `now` passes every guard
    /// of `claim_finder_fee`.
    pub open spec fn spec_claim_finder_fee_ok(self, caller: u64, amount: u128, now: u64) -> bool {
        &&& self.is_owner(caller)
        &&& self.spec_after_conversion_check(now) is None
        &&& self.total_fund_amount * self.finder_fee <= u128::MAX
        &&& amount > 0
        &&& self.claimed_finder_fee <= self.spec_total_finder_fee()
        &&& self.spec_total_finder_fee() - self.claimed_finder_fee >= amount
    }

    /// Claim `amount` of the finder's fee to the finder, bounded by the
    /// total finder fee less what was already claimed.
    pub fn claim_finder_fee(&mut self, caller: u64, amount: u128, now: u64) -> (r: Result<
        Vec<Action>,
        EscrowError,
    >)
        requires
            old(self).wf(),
        ensures
            final(self).wf(),
            *final(self) == *old(self),
            r is Ok <==> old(self).spec_claim_finder_fee_ok(caller, amount, now),
            r is Err ==> {
                let s = *old(self);
                if !s.is_owner(caller) {
                    r->Err_0 == EscrowError::NotAllowed
                } else if s.spec_after_conversion_check(now) is Some {
                    Some(r->Err_0) == s.spec_after_conversion_check(now)
                } else if s.total_fund_amount * s.finder_fee > u128::MAX {
                    r->Err_0 == EscrowError::Overflow
                } else if amount == 0 {
                    r->Err_0 == EscrowError::InvalidAmount
                } else if s.claimed_finder_fee > s.spec_total_finder_fee() {
                    r->Err_0 == EscrowError::Overflow
                } else {
                    r->Err_0 == EscrowError::InvalidAmount
                }
            },
            r is Ok ==> r->Ok_0@ == seq![
                Action::StableTransfer { to: old(self).finder_id->0, amount },
            ],
    {
        match self.check_owner(caller) {
            Ok(()) => (),
            Err(e) => {
                return Err(e);
            },
        }
        match self.check_after_conversion(now) {
            Ok(()) => (),
            Err(e) => {
                return Err(e);
            },
        }
        let scaled = match self.total_fund_amount.checked_mul(self.finder_fee as u128) {
            Some(v) => v,
            None => {
                return Err(EscrowError::Overflow);
            },
        };
        let total_finder_fee = scaled / (FEE_DIVISOR as u128);
        if amount == 0 {
            return Err(EscrowError::InvalidAmount);
        }
        let open_claim = match total_finder_fee.checked_sub(self.claimed_finder_fee) {
            Some(v) => v,
            None => {
                return Err(EscrowError::Overflow);
            },
        };
        if open_claim < amount {
            return Err(EscrowError::InvalidAmount);
        }
        let finder = match self.finder_id {
            Some(f) => f,
            None => {
                proof {
                    assert(false);
                }
                return Err(EscrowError::NotAllowed);
            },
        };
        let mut actions: Vec<Action> = Vec::new();
        actions.push(Action::StableTransfer { to: finder, amount });
        proof {
            assert(actions@ =~= seq![Action::StableTransfer { to: finder, amount }]);
        }
        Ok(actions)
    }

    /// Callback of `claim_finder_fee`: commit the claimed counter only
    /// when the transfer succeeded.
    pub fn on_claim_finder_fee(&mut self, success: bool, amount: u128) -> (r: Result<
        bool,
        EscrowError,
    >)
        requires
            old(self).wf(),
        ensures
            final(self).wf(),
            r is Err ==> *final(self) == *old(self) && r->Err_0 == EscrowError::Overflow,
            success ==> (r is Ok <==> old(self).claimed_finder_fee + amount <= u128::MAX),
            (success && r is Ok) ==> r->Ok_0 == true && *final(self) == (Contract {
                claimed_finder_fee: (old(self).claimed_finder_fee + amount) as u128,
                ..*old(self)
            }),
            !success ==> r is Ok && r->Ok_0 == false && *final(self) == *old(self),
    {
        if success {
            let grown = match self.claimed_finder_fee.checked_add(amount) {
                Some(v) => v,
                None => {
                    return Err(EscrowError::Overflow);
                },
            };
            self.claimed_finder_fee = grown;
            Ok(true)
        } else {
            Ok(false)
        }
    }

    /// The ids of the owner's pre-minted claims: the first
    /// `pre_mint_amount` ids of the ledger.
    pub open spec fn spec_premint_ids(self) -> Seq<u128> {
        Seq::new(self.pre_mint_amount as nat, |i: int| i as u128)
    }

    /// The guard error of closing at `now`, if any: the escrow must never
    /// have been activated, or be past the conversion period.
    pub open spec fn spec_close_available_check(self, now: u64) -> Option<EscrowError> {
        if self.start_timestamp == 0 {
            None
        } else if self.tp_timestamp == 0 {
            Some(EscrowError::NotAvailableToClose)
        } else if self.tp_timestamp + self.buffer_period + self.conversion_period > u64::MAX {
            Some(EscrowError::Overflow)
        } else if now <= self.tp_timestamp + self.buffer_period + self.conversion_period {
            Some(EscrowError::NotAvailableToClose)
        } else {
            None
        }
    }

    /// Whether one `close_project` round by `caller` at `now` succeeds
    /// from the current stage.
    pub open spec fn spec_close_ok(self, caller: u64, now: u64) -> bool {
        &&& self.is_owner(caller)
        &&& self.spec_close_available_check(now) is None
        &&& match self.closed_step {
            ClosedStep::NotClosed => self.pre_mint_amount == 0 || (self.pre_mint_amount
                <= usize::MAX && self.ledger.burn_ok(self.owner_id, self.spec_premint_ids())),
            ClosedStep::PreMint => self.circulating_supply >= self.converted_amount,
            ClosedStep::RemainProxy => true,
            ClosedStep::TransferOwnership => false,
        }
    }

    /// One round of the resumable closing procedure.  Each stage either
    /// needs no external operation and advances synchronously, or burns
    /// and schedules as the stage demands and advances in
    /// `on_close_project` when the external operation succeeds.
    pub fn close_project(&mut self, caller: u64, now: u64) -> (r: Result<
        crate::actions::CloseProgress,
        EscrowError,
    >)
        requires
            old(self).wf(),
        ensures
            final(self).wf(),
            r is Ok <==> old(self).spec_close_ok(caller, now),
            r is Err ==> *final(self) == *old(self),
            r is Err ==> {
                let s = *old(self);
                if !s.is_owner(caller) {
                    r->Err_0 == EscrowError::NotAllowed
                } else if s.spec_close_available_check(now) is Some {
                    Some(r->Err_0) == s.spec_close_available_check(now)
                } else {
                    match s.closed_step {
                        ClosedStep::NotClosed => (s.pre_mint_amount > usize::MAX && r->Err_0
                            == EscrowError::Overflow) || (s.pre_mint_amount <= usize::MAX
                            && r->Err_0 == EscrowError::InsufficientBalance),
                        ClosedStep::PreMint => r->Err_0 == EscrowError::Overflow,
                        ClosedStep::RemainProxy => false,
                        ClosedStep::TransferOwnership => r->Err_0 == EscrowError::AlreadyClosed,
                    }
                }
            },
            r is Ok ==> {
                let s = *old(self);
                match s.closed_step {
                    ClosedStep::NotClosed => {
                        if s.pre_mint_amount == 0 {
                            &&& r->Ok_0 == crate::actions::CloseProgress::Advanced
                            &&& *final(self) == (Contract {
                                closed_step: ClosedStep::PreMint,
                                ..s
                            })
                        } else {
                            &&& r->Ok_0 == crate::actions::CloseProgress::Pending(
                                Action::ProjectTokenMint {
                                    to: s.owner_id,
                                    amount: s.pre_mint_amount,
                                },
                            )
                            &&& *final(self) == (Contract { ledger: final(self).ledger, ..s })
                            &&& final(self).ledger.entries@.len() == s.ledger.entries@.len()
                            &&& final(self).ledger.all_total_supply == s.ledger.all_total_supply
                                - s.pre_mint_amount
                            &&& forall|i: int|
                                s.pre_mint_amount <= i < final(self).ledger.entries@.len()
                                    ==> final(self).ledger.entries@[i] == s.ledger.entries@[i]
                            &&& forall|i: int|
                                0 <= i < s.pre_mint_amount ==> final(self).ledger.entries@[i].supply == 0
                        }
                    },
                    ClosedStep::PreMint => {
                        if s.circulating_supply == s.converted_amount {
                            &&& r->Ok_0 == crate::actions::CloseProgress::Advanced
                            &&& *final(self) == (Contract {
                                closed_step: ClosedStep::RemainProxy,
                                ..s
                            })
                        } else {
                            &&& r->Ok_0 == crate::actions::CloseProgress::Pending(
                                Action::ProjectTokenMintToEscrow {
                                    amount: (s.circulating_supply - s.converted_amount) as u128,
                                },
                            )
                            &&& *final(self) == s
                        }
                    },
                    ClosedStep::RemainProxy => {
                        &&& r->Ok_0 == crate::actions::CloseProgress::Pending(
                            Action::ProjectTokenSetOwner { new_owner: s.owner_id },
                        )
                        &&& *final(self) == s
                    },
                    ClosedStep::TransferOwnership => false,
                }
            },
    {
        match self.check_owner(caller) {
            Ok(()) => (),
            Err(e) => {
                return Err(e);
            },
        }
        if self.start_timestamp != 0 {
            if self.tp_timestamp == 0 {
                return Err(EscrowError::NotAvailableToClose);
            }
            let d1 = match self.tp_timestamp.checked_add(self.buffer_period) {
                Some(v) => v,
                None => {
                    return Err(EscrowError::Overflow);
                },
            };
            let d2 = match d1.checked_add(self.conversion_period) {
                Some(v) => v,
                None => {
                    return Err(EscrowError::Overflow);
                },
            };
            if !(now > d2) {
                return Err(EscrowError::NotAvailableToClose);
            }
        }
        match self.closed_step {
            ClosedStep::NotClosed => {
                if self.pre_mint_amount > 0 {
                    if self.pre_mint_amount > (usize::MAX as u128) {
                        return Err(EscrowError::Overflow);
                    }
                    let mut token_ids: Vec<u128> = Vec::new();
                    let mut i: u128 = 0;
                    let count = self.pre_mint_amount;
                    while i < count
                        invariant
                            i <= count,
                            token_ids@.len() == i,
                            forall|j: int| 0 <= j < i ==> token_ids@[j] == j,
                        decreases count - i,
                    {
                        token_ids.push(i);
                        i = i + 1;
                    }
                    proof {
                        assert(token_ids@ =~= old(self).spec_premint_ids());
                    }
                    let owner = self.owner_id;
                    match self.pt_burn(owner, &token_ids) {
                        Ok(()) => (),
                        Err(_) => {
                            return Err(EscrowError::InsufficientBalance);
                        },
                    }
                    let slot_count = self.ledger.entries.len();
                    proof {
                        let s = *old(self);
                        let pids = s.spec_premint_ids();
                        assert forall|i: int|
                            s.pre_mint_amount <= i < self.ledger.entries@.len()
                                implies self.ledger.entries@[i] == s.ledger.entries@[i] by {
                            if pids.contains(i as u128) {
                                let w = choose|w: int|
                                    0 <= w < pids.len() && pids[w] == i as u128;
                                assert(pids[w] == w as u128);
                                assert(i < slot_count);
                                assert(false);
                            }
                        }
                        assert forall|i: int|
                            0 <= i < s.pre_mint_amount implies self.ledger.entries@[i].supply
                            == 0 by {
                            assert(pids[i] == i as u128);
                            assert(self.ledger.entries@[pids[i] as int].supply == 0);
                        }
                    }
                    Ok(
                        crate::actions::CloseProgress::Pending(
                            self.internal_project_token_mint(self.owner_id, self.pre_mint_amount),
                        ),
                    )
                } else {
                    self.closed_step = self.closed_step.increase();
                    Ok(crate::actions::CloseProgress::Advanced)
                }
            },
            ClosedStep::PreMint => {
                let remain_proxys = match self.circulating_supply.checked_sub(
                    self.converted_amount,
                ) {
                    Some(v) => v,
                    None => {
                        return Err(EscrowError::Overflow);
                    },
                };
                if remain_proxys > 0 {
                    Ok(
                        crate::actions::CloseProgress::Pending(
                            Action::ProjectTokenMintToEscrow { amount: remain_proxys },
                        ),
                    )
                } else {
                    self.closed_step = self.closed_step.increase();
                    Ok(crate::actions::CloseProgress::Advanced)
                }
            },
            ClosedStep::RemainProxy => {
                Ok(
                    crate::actions::CloseProgress::Pending(
                        Action::ProjectTokenSetOwner { new_owner: self.owner_id },
                    ),
                )
            },
            ClosedStep::TransferOwnership => Err(EscrowError::AlreadyClosed),
        }
    }

    /// Callback of `close_project`.  On success the stage marker advances
    /// by exactly one; on a failure at the first stage the pre-minted
    /// claims burned by the entry call are re-minted to the owner, and
    /// the marker stays where it was.
    pub fn on_close_project(&mut self, success: bool) -> (r: Result<bool, EscrowError>)
        requires
            old(self).wf(),
        ensures
            final(self).wf(),
            r is Err ==> *final(self) == *old(self),
            success ==> r is Ok && r->Ok_0 == true && *final(self) == (Contract {
                closed_step: old(self).closed_step.next_step(),
                ..*old(self)
            }),
            (!success && !(old(self).closed_step == ClosedStep::NotClosed && old(
                self,
            ).pre_mint_amount > 0)) ==> r is Ok && r->Ok_0 == false && *final(self) == *old(self),
            (!success && old(self).closed_step == ClosedStep::NotClosed && old(
                self,
            ).pre_mint_amount > 0) ==> {
                &&& (r is Ok <==> old(self).pre_mint_amount <= usize::MAX && old(
                    self,
                ).ledger.revert_ok(old(self).spec_premint_ids()))
                &&& r is Err ==> (r->Err_0 == EscrowError::Overflow || r->Err_0
                    == EscrowError::CompensationFailed)
                &&& r is Ok ==> {
                    &&& r->Ok_0 == false
                    &&& *final(self) == (Contract { ledger: final(self).ledger, ..*old(self) })
                    &&& final(self).ledger.entries@.len() == old(self).ledger.entries@.len()
                    &&& final(self).ledger.all_total_supply == old(self).ledger.all_total_supply
                        + old(self).pre_mint_amount
                    &&& forall|i: int|
                        old(self).pre_mint_amount <= i < final(self).ledger.entries@.len()
                            ==> final(self).ledger.entries@[i] == old(self).ledger.entries@[i]
                    &&& forall|i: int|
                        0 <= i < old(self).pre_mint_amount ==> final(self).ledger.entries@[i]
                            == (LedgerEntry { supply: 1, holder: old(self).owner_id })
                }
            },
    {
        if success {
            self.closed_step = self.closed_step.increase();
            return Ok(true);
        }
        let at_first_stage = match self.closed_step {
            ClosedStep::NotClosed => true,
            _ => false,
        };
        if at_first_stage && self.pre_mint_amount > 0 {
            if self.pre_mint_amount > (usize::MAX as u128) {
                return Err(EscrowError::Overflow);
            }
            let mut token_ids: Vec<u128> = Vec::new();
            let mut i: u128 = 0;
            let count = self.pre_mint_amount;
            while i < count
                invariant
                    i <= count,
                    token_ids@.len() == i,
                    forall|j: int| 0 <= j < i ==> token_ids@[j] == j,
                decreases count - i,
            {
                token_ids.push(i);
                i = i + 1;
            }
            proof {
                assert(token_ids@ =~= old(self).spec_premint_ids());
            }
            let owner = self.owner_id;
            match self.revert_pt_burn(owner, &token_ids) {
                Ok(()) => (),
                Err(_) => {
                    return Err(EscrowError::CompensationFailed);
                },
            }
            let slot_count = self.ledger.entries.len();
            proof {
                let s = *old(self);
                let pids = s.spec_premint_ids();
                assert forall|i: int|
                    s.pre_mint_amount <= i < self.ledger.entries@.len()
                        implies self.ledger.entries@[i] == s.ledger.entries@[i] by {
                    if pids.contains(i as u128) {
                        let w = choose|w: int| 0 <= w < pids.len() && pids[w] == i as u128;
                        assert(pids[w] == w as u128);
                        assert(i < slot_count);
                        assert(false);
                    }
                }
                assert forall|i: int|
                    0 <= i < s.pre_mint_amount implies self.ledger.entries@[i] == (LedgerEntry {
                    supply: 1,
                    holder: s.owner_id,
                }) by {
                    assert(pids[i] == i as u128);
                    assert(self.ledger.entries@[pids[i] as int] == (LedgerEntry {
                        supply: 1,
                        holder: s.owner_id,
                    }));
                }
            }
        }
        Ok(false)
    }
}

/// A committed purchase grows the circulating supply and the outstanding
/// claim supply by exactly the purchased amount: `s1` is `s0` after a
/// successful `buy` of `amount` claims, and `s2` is `s1` after its
/// `on_buy` callback committed.
pub proof fn lemma_buy_commit_deltas(s0: Contract, s1: Contract, s2: Contract, amount: u128)
    requires
        s1 == (Contract { ledger: s1.ledger, ..s0 }),
        s1.ledger.all_total_supply == s0.ledger.all_total_supply + amount,
        s2 == (Contract {
            total_fund_amount: s2.total_fund_amount,
            tp_timestamp: s2.tp_timestamp,
            circulating_supply: s2.circulating_supply,
            ..s1
        }),
        s2.circulating_supply == s1.circulating_supply + amount,
    ensures
        s2.circulating_supply == s0.circulating_supply + amount,
        s2.ledger.all_total_supply == s0.ledger.all_total_supply + amount,
        s0.balanced() ==> s2.balanced(),
{
}

/// A failed purchase leaves no trace: `s1` is `s0` after a successful
/// `buy` of `amount` claims minted as `ids`, and `s2` is `s1` after its
/// `on_buy` callback compensated.  Every claim balance, the outstanding
/// claim supply, the circulating supply and the fund totals return to
/// their pre-purchase values; the refund of the full deposit is stated by
/// `on_buy` itself.
pub proof fn lemma_buy_failure_restores(
    s0: Contract,
    s1: Contract,
    s2: Contract,
    from: u64,
    amount: u128,
    ids: Seq<u128>,
)
    requires
        s1 == (Contract { ledger: s1.ledger, ..s0 }),
        s1.ledger.entries@.len() == s0.ledger.entries@.len() + amount,
        s1.ledger.all_total_supply == s0.ledger.all_total_supply + amount,
        forall|i: int|
            0 <= i < s0.ledger.entries@.len() ==> s1.ledger.entries@[i] == s0.ledger.entries@[i],
        ids.len() == amount,
        forall|j: int| 0 <= j < amount ==> ids[j] == s0.ledger.entries@.len() + j,
        s2 == (Contract { ledger: s2.ledger, ..s1 }),
        s2.ledger.entries@.len() == s1.ledger.entries@.len(),
        s2.ledger.all_total_supply == s1.ledger.all_total_supply - ids.len(),
        forall|i: int|
            0 <= i < s2.ledger.entries@.len() && !ids.contains(i as u128) ==> s2.ledger.entries@[i]
                == s1.ledger.entries@[i],
        forall|j: int| 0 <= j < ids.len() ==> s2.ledger.entries@[#[trigger] ids[j] as int].supply == 0,
    ensures
        s2.circulating_supply == s0.circulating_supply,
        s2.total_fund_amount == s0.total_fund_amount,
        s2.ledger.all_total_supply == s0.ledger.all_total_supply,
        forall|who: u64, id: nat|
            s2.ledger.spec_balance_of(who, id) == #[trigger] s0.ledger.spec_balance_of(who, id),
        s0.balanced() ==> s2.balanced(),
{
    ClaimLedger::lemma_mint_burn_round_trip(s0.ledger, s1.ledger, s2.ledger, from, amount, ids);
}

/// A committed sale shrinks the circulating supply and the outstanding
/// claim supply by exactly the claims sold, keeping the supply identity:
/// `s1` is `s0` after a successful `sell` of the claims in `ids`, and
/// `s2` is `s1` after its `on_sell` callback committed.
pub proof fn lemma_sell_commit_deltas(s0: Contract, s1: Contract, s2: Contract, ids: Seq<u128>)
    requires
        s1 == (Contract { ledger: s1.ledger, ..s0 }),
        s1.ledger.all_total_supply == s0.ledger.all_total_supply - ids.len(),
        s2 == (Contract {
            total_fund_amount: s2.total_fund_amount,
            circulating_supply: s2.circulating_supply,
            ..s1
        }),
        s2.circulating_supply == s1.circulating_supply - ids.len(),
    ensures
        s2.circulating_supply == s0.circulating_supply - ids.len(),
        s2.ledger.all_total_supply == s0.ledger.all_total_supply - ids.len(),
        s0.balanced() ==> s2.balanced(),
{
}

/// A committed conversion moves exactly the converted claims from the
/// ledger into the converted counter, keeping the supply identity: `s1`
/// is `s0` after a successful `convert` of the claims in `ids`, and `s2`
/// is `s1` after its `on_convert` callback committed.
pub proof fn lemma_convert_commit_deltas(s0: Contract, s1: Contract, s2: Contract, ids: Seq<u128>)
    requires
        s1 == (Contract { ledger: s1.ledger, ..s0 }),
        s1.ledger.all_total_supply == s0.ledger.all_total_supply - ids.len(),
        s2 == (Contract { converted_amount: s2.converted_amount, ..s1 }),
        s2.converted_amount == s1.converted_amount + ids.len(),
    ensures
        s2.converted_amount == s0.converted_amount + ids.len(),
        s2.ledger.all_total_supply == s0.ledger.all_total_supply - ids.len(),
        s0.balanced() ==> s2.balanced(),
{
}

/// Successful closing rounds walk the stage marker through every stage in
/// order, one stage per round, never skipping or repeating one, until
/// `TransferOwnership`, where it stays; `close_project` rejects any
/// further round there as already closed.
pub proof fn lemma_closing_reaches_transfer_ownership()
    ensures
        ClosedStep::NotClosed.next_step() == ClosedStep::PreMint,
        ClosedStep::PreMint.next_step() == ClosedStep::RemainProxy,
        ClosedStep::RemainProxy.next_step() == ClosedStep::TransferOwnership,
        forall|s: ClosedStep|
            s.index() < 3 ==> (#[trigger] s.next_step()).index() == s.index() + 1,
        forall|s: ClosedStep| s.index() == 3 ==> (#[trigger] s.next_step()) == s,
        forall|s: Contract, caller: u64, now: u64|
            s.closed_step == ClosedStep::TransferOwnership ==> !(#[trigger] s.spec_close_ok(
                caller,
                now,
            )),
{
}

} // verus!

//! Read-only views over the escrow state, and the escrow-level pricing
//! queries that bind the pricing engine to the stored configuration.

use vstd::prelude::*;
use crate::escrow::Contract;
use crate::errors::EscrowError;
use crate::utils::{CurveType, CurveArgs, ProjectTokenType, RunningState, ClosedStep};
use crate::curves::{pow10, sum_price, sum_price_ok, spec_sum_price, token_price, token_price_ok, spec_token_price, quote_buy, quote_buy_ok, spec_quote_buy, quote_sell, quote_sell_ok, spec_sell_gross, spec_quote_sell};

verus! {

impl Contract {
    /// Cumulative price of the first `to_token_id` claims under the
    /// stored curve.
    pub fn get_sum_price(&self, to_token_id: u128) -> (r: Result<u128, EscrowError>)
        ensures
            r is Ok <==> sum_price_ok(
                self.curve_type,
                self.curve_args,
                self.stable_coin_decimals as nat,
                to_token_id as nat,
            ),
            r is Ok ==> r->Ok_0 == spec_sum_price(
                self.curve_type,
                self.curve_args,
                pow10(self.stable_coin_decimals as nat),
                to_token_id as nat,
            ),
            r is Err ==> r->Err_0 == EscrowError::Overflow || r->Err_0
                == EscrowError::MissingCurveArg,
    {
        sum_price(&self.curve_type, &self.curve_args, self.stable_coin_decimals, to_token_id)
    }

    /// Marginal price of the claim with id `token_id`; zero for every
    /// pre-minted claim.
    pub fn get_token_price(&self, token_id: u128) -> (r: Result<u128, EscrowError>)
        ensures
            r is Ok <==> token_price_ok(
                self.curve_type,
                self.curve_args,
                self.stable_coin_decimals as nat,
                self.pre_mint_amount as nat,
                token_id as nat,
            ),
            r is Ok ==> r->Ok_0 == spec_token_price(
                self.curve_type,
                self.curve_args,
                pow10(self.stable_coin_decimals as nat),
                self.pre_mint_amount as nat,
                token_id as nat,
            ),
            r is Err ==> r->Err_0 == EscrowError::Overflow || r->Err_0
                == EscrowError::MissingCurveArg,
    {
        token_price(
            &self.curve_type,
            &self.curve_args,
            self.stable_coin_decimals,
            self.pre_mint_amount,
            token_id,
        )
    }

    /// Gross price of buying `amount` claims on top of the circulating
    /// supply.
    pub fn calculate_buy_proxy_token(&self, amount: u128) -> (r: Result<u128, EscrowError>)
        ensures
            r is Ok <==> quote_buy_ok(
                self.curve_type,
                self.curve_args,
                self.stable_coin_decimals as nat,
                self.circulating_supply as nat,
                amount as nat,
            ),
            r is Ok ==> r->Ok_0 == spec_quote_buy(
                self.curve_type,
                self.curve_args,
                pow10(self.stable_coin_decimals as nat),
                self.circulating_supply as nat,
                amount as nat,
            ),
            r is Err ==> r->Err_0 == EscrowError::Overflow || r->Err_0
                == EscrowError::MissingCurveArg,
    {
        quote_buy(
            &self.curve_type,
            &self.curve_args,
            self.stable_coin_decimals,
            self.circulating_supply,
            amount,
        )
    }

    /// Net proceeds of selling the claims in `token_ids`, after the
    /// treasury fee.
    pub fn calculate_sell_proxy_token(&self, token_ids: &Vec<u128>) -> (r: Result<
        u128,
        EscrowError,
    >)
        ensures
            r is Ok <==> crate::curves::quote_sell_ok(
                self.curve_type,
                self.curve_args,
                self.stable_coin_decimals as nat,
                self.pre_mint_amount as nat,
                self.treasury_fee as nat,
                token_ids@,
            ),
            r is Ok ==> r->Ok_0 == spec_quote_sell(
                spec_sell_gross(
                    self.curve_type,
                    self.curve_args,
                    pow10(self.stable_coin_decimals as nat),
                    self.pre_mint_amount as nat,
                    token_ids@,
                ),
                self.treasury_fee as nat,
            ),
            r is Err ==> r->Err_0 == EscrowError::Overflow || r->Err_0
                == EscrowError::MissingCurveArg,
    {
        quote_sell(
            &self.curve_type,
            &self.curve_args,
            self.stable_coin_decimals,
            self.pre_mint_amount,
            self.treasury_fee,
            token_ids,
        )
    }

    /// The stored curve shape.
    pub fn get_curve_type(&self) -> (r: CurveType)
        ensures
            r == self.curve_type,
    {
        self.curve_type
    }

    /// The stored curve arguments.
    pub fn get_curve_args(&self) -> (r: CurveArgs)
        ensures
            r == self.curve_args,
    {
        self.curve_args
    }

    /// The kind of the final project token.
    pub fn get_project_token_type(&self) -> (r: ProjectTokenType)
        ensures
            r == self.project_token_type,
    {
        self.project_token_type
    }

    /// The final project-token contract reference; only after activation.
    pub fn get_project_token_id(&self) -> (r: u64)
        requires
            self.project_token_id is Some,
        ensures
            r == self.project_token_id->0,
    {
        match self.project_token_id {
            Some(v) => v,
            None => 0,
        }
    }

    /// The finder's fee in basis points.
    pub fn get_finder_fee(&self) -> (r: u32)
        ensures
            r == self.finder_fee,
    {
        self.finder_fee
    }

    /// The finder account; only after activation.
    pub fn get_finder_id(&self) -> (r: u64)
        requires
            self.finder_id is Some,
        ensures
            r == self.finder_id->0,
    {
        match self.finder_id {
            Some(v) => v,
            None => 0,
        }
    }

    /// The treasury fee in basis points.
    pub fn get_treasury_fee(&self) -> (r: u32)
        ensures
            r == self.treasury_fee,
    {
        self.treasury_fee
    }

    /// The treasury account.
    pub fn get_treasury_id(&self) -> (r: u64)
        ensures
            r == self.treasury_id,
    {
        self.treasury_id
    }

    /// The funding target.
    pub fn get_fund_threshold(&self) -> (r: u128)
        ensures
            r == self.fund_threshold,
    {
        self.fund_threshold
    }

    /// The stable asset held against outstanding proceeds.
    pub fn get_total_fund_amount(&self) -> (r: u128)
        ensures
            r == self.total_fund_amount,
    {
        self.total_fund_amount
    }

    /// The claims pre-minted to the owner.
    pub fn get_pre_mint_amount(&self) -> (r: u128)
        ensures
            r == self.pre_mint_amount,
    {
        self.pre_mint_amount
    }

    /// The activation timestamp; zero until activated.
    pub fn get_start_timestamp(&self) -> (r: u64)
        ensures
            r == self.start_timestamp,
    {
        self.start_timestamp
    }

    /// The threshold timestamp; zero until the target was reached.
    pub fn get_tp_timestamp(&self) -> (r: u64)
        ensures
            r == self.tp_timestamp,
    {
        self.tp_timestamp
    }

    /// The buffer period.
    pub fn get_buffer_period(&self) -> (r: u64)
        ensures
            r == self.buffer_period,
    {
        self.buffer_period
    }

    /// The conversion period.
    pub fn get_conversion_period(&self) -> (r: u64)
        ensures
            r == self.conversion_period,
    {
        self.conversion_period
    }

    /// The stable-asset contract reference.
    pub fn get_stable_coin_id(&self) -> (r: u64)
        ensures
            r == self.stable_coin_id,
    {
        self.stable_coin_id
    }

    /// Whether the escrow is running or paused.
    pub fn get_running_state(&self) -> (r: RunningState)
        ensures
            r == self.state,
    {
        self.state
    }

    /// The current stage of the closing procedure.
    pub fn get_closed_step(&self) -> (r: ClosedStep)
        ensures
            r == self.closed_step,
    {
        self.closed_step
    }

    /// Whether the closing procedure has run to its end.
    pub fn get_is_closed(&self) -> (r: bool)
        ensures
            r == (self.closed_step == ClosedStep::TransferOwnership),
    {
        match self.closed_step {
            ClosedStep::TransferOwnership => true,
            _ => false,
        }
    }

    /// The claims already exchanged for final project tokens.
    pub fn get_converted_amount(&self) -> (r: u128)
        ensures
            r == self.converted_amount,
    {
        self.converted_amount
    }

    /// The claims sold and not yet sold back.
    pub fn get_circulating_supply(&self) -> (r: u128)
        ensures
            r == self.circulating_supply,
    {
        self.circulating_supply
    }
}

} // verus!

//! Escrow lifecycle tests: activation, pre-mint, purchase and sale with
//! their callbacks, conversion, proceeds claims, and the multi-step
//! closing procedure.

use nft_escrow::escrow::Contract;
use nft_escrow::actions::{Action, CloseProgress};
use nft_escrow::errors::EscrowError;
use nft_escrow::utils::{CurveType, CurveArgs, ClosedStep, RunningState};

const OWNER: u64 = 1;
const ALICE: u64 = 2;
const FINDER: u64 = 4;
const TREASURY: u64 = 5;
const PROJECT_TOKEN: u64 = 7;
const STABLE_COIN: u64 = 9;
const ONE_COIN: u128 = 1_000_000_000_000_000_000_000_000;
const DAY: u64 = 86_400;

fn horizontal_escrow() -> Contract {
    Contract::new(
        OWNER,
        b"Proxy Project".to_vec(),
        b"PRX".to_vec(),
        b"ipfs://blank".to_vec(),
        STABLE_COIN,
        24,
        CurveType::Horizontal,
        CurveArgs { arg_a: Some(100), arg_b: None, arg_c: None, arg_d: None },
        TREASURY,
    )
    .unwrap()
}

/// An activated escrow with two pre-minted claims and a funding target of
/// `fund_threshold`.
fn activated_escrow(fund_threshold: u128) -> Contract {
    let mut c = horizontal_escrow();
    c.pre_mint(OWNER, 2).unwrap();
    c.active_nft_project(OWNER, b"ipfs://base".to_vec(), 1000, FINDER, fund_threshold, 5, DAY)
        .unwrap();
    assert!(c.on_activate(true, PROJECT_TOKEN, 10));
    c
}

#[test]
fn new_validates_inputs() {
    let bad_name = Contract::new(
        OWNER,
        b"ab".to_vec(),
        b"PRX".to_vec(),
        b"u".to_vec(),
        STABLE_COIN,
        24,
        CurveType::Horizontal,
        CurveArgs { arg_a: Some(100), arg_b: None, arg_c: None, arg_d: None },
        TREASURY,
    );
    assert_eq!(bad_name.err(), Some(EscrowError::InvalidName));
    let bad_symbol = Contract::new(
        OWNER,
        b"abc".to_vec(),
        b"THIRTEENCHAR5".to_vec(),
        b"u".to_vec(),
        STABLE_COIN,
        24,
        CurveType::Horizontal,
        CurveArgs { arg_a: Some(100), arg_b: None, arg_c: None, arg_d: None },
        TREASURY,
    );
    assert_eq!(bad_symbol.err(), Some(EscrowError::InvalidSymbol));
    let bad_uri = Contract::new(
        OWNER,
        b"abc".to_vec(),
        b"PRX".to_vec(),
        b"".to_vec(),
        STABLE_COIN,
        24,
        CurveType::Horizontal,
        CurveArgs { arg_a: Some(100), arg_b: None, arg_c: None, arg_d: None },
        TREASURY,
    );
    assert_eq!(bad_uri.err(), Some(EscrowError::InvalidPtMediaUri));
}

#[test]
fn activation_validates_request() {
    let mut c = horizontal_escrow();
    assert_eq!(
        c.active_nft_project(ALICE, b"b".to_vec(), 1000, FINDER, 1, 5, DAY).err(),
        Some(EscrowError::NotAllowed)
    );
    assert_eq!(
        c.active_nft_project(OWNER, b"".to_vec(), 1000, FINDER, 1, 5, DAY).err(),
        Some(EscrowError::InvalidCollectionBaseUri)
    );
    assert_eq!(
        c.active_nft_project(OWNER, b"b".to_vec(), 0, FINDER, 1, 5, DAY).err(),
        Some(EscrowError::InvalidMaxSupply)
    );
    assert_eq!(
        c.active_nft_project(OWNER, b"b".to_vec(), 1000, FINDER, 0, 5, DAY).err(),
        Some(EscrowError::InvalidFundingTarget)
    );
    assert_eq!(
        c.active_nft_project(OWNER, b"b".to_vec(), 1000, FINDER, 1, 5, DAY - 1).err(),
        Some(EscrowError::InvalidConversionPeriod)
    );
    let action = c.active_ft_project(OWNER, 1000, FINDER, 1, 5, DAY).unwrap();
    match action {
        Action::DeployProjectToken { max_supply, .. } => assert_eq!(max_supply, 1000),
        _ => panic!("expected a deployment"),
    }
}

#[test]
fn pre_mint_only_before_activation() {
    let mut c = horizontal_escrow();
    assert_eq!(c.pre_mint(ALICE, 1).err(), Some(EscrowError::NotAllowed));
    assert_eq!(c.pre_mint(OWNER, 0).err(), Some(EscrowError::InvalidAmount));
    c.pre_mint(OWNER, 2).unwrap();
    assert_eq!(c.get_pre_mint_amount(), 2);
    assert_eq!(c.pt_balance_of(OWNER, &vec![0, 1]), vec![1, 1]);
    let mut a = activated_escrow(u128::MAX);
    assert_eq!(a.pre_mint(OWNER, 1).err(), Some(EscrowError::AlreadyActivated));
}

#[test]
fn buy_requires_activation_and_deposit() {
    let mut c = horizontal_escrow();
    assert_eq!(c.buy(ALICE, 1, ONE_COIN, 20).err(), Some(EscrowError::NotActivated));
    let mut a = activated_escrow(u128::MAX);
    assert_eq!(a.buy(ALICE, 0, 0, 20).err(), Some(EscrowError::InvalidAmount));
    assert_eq!(
        a.buy(ALICE, 1, 100 * ONE_COIN - 1, 20).err(),
        Some(EscrowError::InsufficientFund)
    );
    assert_eq!(a.buy(ALICE, 1000, u128::MAX, 20).err(), Some(EscrowError::OverMaxSupply));
    let mut paused = activated_escrow(u128::MAX);
    paused.pause_contract(OWNER).unwrap();
    assert_eq!(paused.buy(ALICE, 1, ONE_COIN, 20).err(), Some(EscrowError::Paused));
    paused.resume_contract(OWNER).unwrap();
    assert_eq!(paused.get_running_state(), RunningState::Running);
    assert!(paused.buy(ALICE, 1, 100 * ONE_COIN, 20).is_ok());
}

#[test]
fn successful_buy_grows_both_supplies() {
    let mut c = activated_escrow(u128::MAX);
    let amount = 200u128;
    let deposit = c.calculate_buy_proxy_token(amount).unwrap();
    assert_eq!(deposit, 100 * amount * ONE_COIN);
    let before_total = c.pt_pt_all_total_supply();
    let before_circulating = c.get_circulating_supply();
    let (reserve, ids) = c.buy(ALICE, amount, deposit, 20).unwrap();
    assert_eq!(reserve, deposit);
    assert_eq!(ids, (2..202u128).collect::<Vec<u128>>());
    let (committed, actions) = c.on_buy(true, ALICE, amount, deposit, reserve, &ids, 20).unwrap();
    assert!(committed);
    assert_eq!(c.get_circulating_supply(), before_circulating + amount);
    assert_eq!(c.pt_pt_all_total_supply(), before_total + amount);
    let fee = reserve * 100 / 10_000;
    assert_eq!(actions, vec![Action::StableTransfer { to: TREASURY, amount: fee }]);
    assert_eq!(c.get_total_fund_amount(), reserve - fee);
}

#[test]
fn excess_deposit_is_refunded() {
    let mut c = activated_escrow(u128::MAX);
    let quote = c.calculate_buy_proxy_token(10).unwrap();
    let deposit = quote + 7;
    let (reserve, ids) = c.buy(ALICE, 10, deposit, 20).unwrap();
    let (_, actions) = c.on_buy(true, ALICE, 10, deposit, reserve, &ids, 20).unwrap();
    let fee = reserve * 100 / 10_000;
    assert_eq!(
        actions,
        vec![
            Action::StableTransfer { to: TREASURY, amount: fee },
            Action::StableTransfer { to: ALICE, amount: 7 },
        ]
    );
}

#[test]
fn failed_buy_restores_everything() {
    let mut c = activated_escrow(u128::MAX);
    let amount = 5u128;
    let deposit = c.calculate_buy_proxy_token(amount).unwrap();
    let before_total = c.pt_pt_all_total_supply();
    let before_circulating = c.get_circulating_supply();
    let (reserve, ids) = c.buy(ALICE, amount, deposit, 20).unwrap();
    assert_eq!(c.pt_balance_of(ALICE, &ids), vec![1, 1, 1, 1, 1]);
    let (committed, actions) = c.on_buy(false, ALICE, amount, deposit, reserve, &ids, 20).unwrap();
    assert!(!committed);
    assert_eq!(actions, vec![Action::StableTransfer { to: ALICE, amount: deposit }]);
    assert_eq!(c.pt_balance_of(ALICE, &ids), vec![0, 0, 0, 0, 0]);
    assert_eq!(c.pt_pt_all_total_supply(), before_total);
    assert_eq!(c.get_circulating_supply(), before_circulating);
    assert_eq!(c.get_total_fund_amount(), 0);
}

#[test]
fn buy_then_sell_restores_fund() {
    let mut c = activated_escrow(u128::MAX);
    let amount = 200u128;
    let deposit = c.calculate_buy_proxy_token(amount).unwrap();
    let (reserve, ids) = c.buy(ALICE, amount, deposit, 20).unwrap();
    c.on_buy(true, ALICE, amount, deposit, reserve, &ids, 20).unwrap();
    assert_eq!(c.pt_balance_of(ALICE, &ids)[..], [1u128; 200][..]);
    let (refund, actions) = c.sell(ALICE, &ids, 30).unwrap();
    assert_eq!(refund, c.get_total_fund_amount());
    assert_eq!(actions, vec![Action::StableTransfer { to: ALICE, amount: refund }]);
    assert!(c.on_sell(true, ALICE, refund, &ids).unwrap());
    assert_eq!(c.pt_balance_of(ALICE, &ids)[..], [0u128; 200][..]);
    assert_eq!(c.get_total_fund_amount(), 0);
    assert_eq!(c.get_circulating_supply(), 0);
}

#[test]
fn failed_sell_restores_claims() {
    let mut c = activated_escrow(u128::MAX);
    let deposit = c.calculate_buy_proxy_token(3).unwrap();
    let (reserve, ids) = c.buy(ALICE, 3, deposit, 20).unwrap();
    c.on_buy(true, ALICE, 3, deposit, reserve, &ids, 20).unwrap();
    let (refund, _) = c.sell(ALICE, &ids, 30).unwrap();
    assert_eq!(c.pt_balance_of(ALICE, &ids), vec![0, 0, 0]);
    assert!(!c.on_sell(false, ALICE, refund, &ids).unwrap());
    assert_eq!(c.pt_balance_of(ALICE, &ids), vec![1, 1, 1]);
    assert_eq!(c.get_circulating_supply(), 3);
}

#[test]
fn sell_of_worthless_claims_is_rejected() {
    let mut c = activated_escrow(u128::MAX);
    // The pre-minted claims are priced at zero, so their sale quotes zero.
    assert_eq!(c.sell(OWNER, &vec![0, 1], 20).err(), Some(EscrowError::InvalidAction));
}

#[test]
fn convert_needs_threshold_and_buffer() {
    let mut c = activated_escrow(u128::MAX);
    assert_eq!(
        c.convert(ALICE, &vec![2], 20).err(),
        Some(EscrowError::NotOverFundingTarget)
    );
    // Reach the threshold, then convert during the buffer period.
    let mut r = activated_escrow(ONE_COIN);
    let deposit = r.calculate_buy_proxy_token(4).unwrap();
    let (reserve, ids) = r.buy(ALICE, 4, deposit, 20).unwrap();
    r.on_buy(true, ALICE, 4, deposit, reserve, &ids, 20).unwrap();
    assert_eq!(r.get_tp_timestamp(), 20);
    assert_eq!(r.convert(ALICE, &ids, 21).err(), Some(EscrowError::InBufferPeriod));
    // Past the buffer the conversion mints fresh project tokens.
    let actions = r.convert(ALICE, &ids, 26).unwrap();
    assert_eq!(actions, vec![Action::ProjectTokenMint { to: ALICE, amount: 4 }]);
    assert!(r.on_convert(true, ALICE, &ids).unwrap());
    assert_eq!(r.get_converted_amount(), 4);
    assert_eq!(r.pt_balance_of(ALICE, &ids), vec![0, 0, 0, 0]);
}

#[test]
fn failed_convert_restores_claims() {
    let mut c = activated_escrow(ONE_COIN);
    let deposit = c.calculate_buy_proxy_token(2).unwrap();
    let (reserve, ids) = c.buy(ALICE, 2, deposit, 20).unwrap();
    c.on_buy(true, ALICE, 2, deposit, reserve, &ids, 20).unwrap();
    c.convert(ALICE, &ids, 26).unwrap();
    assert!(!c.on_convert(false, ALICE, &ids).unwrap());
    assert_eq!(c.pt_balance_of(ALICE, &ids), vec![1, 1]);
    assert_eq!(c.get_converted_amount(), 0);
}

/// Drive an activated escrow past its conversion period: threshold at
/// `now == 20`, buffer 5, conversion one day.
fn escrow_past_conversion() -> (Contract, u64) {
    let mut c = activated_escrow(ONE_COIN);
    let deposit = c.calculate_buy_proxy_token(4).unwrap();
    let (reserve, ids) = c.buy(ALICE, 4, deposit, 20).unwrap();
    c.on_buy(true, ALICE, 4, deposit, reserve, &ids, 20).unwrap();
    let late = 20 + 5 + DAY + 1;
    (c, late)
}

#[test]
fn claim_fund_before_conversion_period_is_rejected() {
    let (mut c, _) = escrow_past_conversion();
    assert_eq!(
        c.claim_fund(OWNER, OWNER, 1, 25).err(),
        Some(EscrowError::NotOverConversionPeriod)
    );
}

#[test]
fn claim_fund_pays_up_to_the_claimable_bound() {
    let (mut c, late) = escrow_past_conversion();
    let total = c.get_total_fund_amount();
    let finder_fee = total * 100 / 10_000;
    let claimable = total - finder_fee;
    assert_eq!(
        c.claim_fund(OWNER, OWNER, claimable + 1, late).err(),
        Some(EscrowError::InvalidAmount)
    );
    let actions = c.claim_fund(OWNER, OWNER, claimable, late).unwrap();
    assert_eq!(actions, vec![Action::StableTransfer { to: OWNER, amount: claimable }]);
    assert!(c.on_claim_fund(true, claimable).unwrap());
    assert_eq!(c.claim_fund(OWNER, OWNER, 1, late).err(), Some(EscrowError::InvalidAmount));
}

#[test]
fn claim_finder_fee_pays_the_finder() {
    let (mut c, late) = escrow_past_conversion();
    let total = c.get_total_fund_amount();
    let finder_fee = total * 100 / 10_000;
    assert_eq!(
        c.claim_finder_fee(ALICE, 1, late).err(),
        Some(EscrowError::NotAllowed)
    );
    let actions = c.claim_finder_fee(OWNER, finder_fee, late).unwrap();
    assert_eq!(actions, vec![Action::StableTransfer { to: FINDER, amount: finder_fee }]);
    assert!(c.on_claim_finder_fee(true, finder_fee).unwrap());
    assert_eq!(c.claim_finder_fee(OWNER, 1, late).err(), Some(EscrowError::InvalidAmount));
    // A failed transfer commits nothing.
    assert!(!c.on_claim_finder_fee(false, 1).unwrap());
}

#[test]
fn close_project_walks_every_stage_once() {
    let (mut c, late) = escrow_past_conversion();
    assert_eq!(c.close_project(OWNER, 25).err(), Some(EscrowError::NotAvailableToClose));
    // First stage: burn the pre-mint, mint project tokens to the owner.
    match c.close_project(OWNER, late).unwrap() {
        CloseProgress::Pending(a) => {
            assert_eq!(a, Action::ProjectTokenMint { to: OWNER, amount: 2 })
        },
        CloseProgress::Advanced => panic!("expected an external operation"),
    }
    assert_eq!(c.pt_balance_of(OWNER, &vec![0, 1]), vec![0, 0]);
    assert!(c.on_close_project(true).unwrap());
    assert_eq!(c.get_closed_step(), ClosedStep::PreMint);
    // Second stage: reserve inventory for the unconverted claims.
    match c.close_project(OWNER, late).unwrap() {
        CloseProgress::Pending(a) => {
            assert_eq!(a, Action::ProjectTokenMintToEscrow { amount: 4 })
        },
        CloseProgress::Advanced => panic!("expected an external operation"),
    }
    assert!(c.on_close_project(true).unwrap());
    assert_eq!(c.get_closed_step(), ClosedStep::RemainProxy);
    // Third stage: hand the project token back to the owner.
    match c.close_project(OWNER, late).unwrap() {
        CloseProgress::Pending(a) => {
            assert_eq!(a, Action::ProjectTokenSetOwner { new_owner: OWNER })
        },
        CloseProgress::Advanced => panic!("expected an external operation"),
    }
    assert!(c.on_close_project(true).unwrap());
    assert_eq!(c.get_closed_step(), ClosedStep::TransferOwnership);
    assert!(c.get_is_closed());
    // Closing again is rejected.
    assert_eq!(c.close_project(OWNER, late).err(), Some(EscrowError::AlreadyClosed));
}

#[test]
fn failed_close_stays_and_compensates() {
    let (mut c, late) = escrow_past_conversion();
    match c.close_project(OWNER, late).unwrap() {
        CloseProgress::Pending(_) => (),
        CloseProgress::Advanced => panic!("expected an external operation"),
    }
    assert_eq!(c.pt_balance_of(OWNER, &vec![0, 1]), vec![0, 0]);
    assert!(!c.on_close_project(false).unwrap());
    assert_eq!(c.get_closed_step(), ClosedStep::NotClosed);
    assert_eq!(c.pt_balance_of(OWNER, &vec![0, 1]), vec![1, 1]);
}

#[test]
fn close_without_pre_mint_advances_synchronously() {
    let mut c = horizontal_escrow();
    c.active_nft_project(OWNER, b"ipfs://base".to_vec(), 1000, FINDER, ONE_COIN, 5, DAY)
        .unwrap();
    assert!(c.on_activate(true, PROJECT_TOKEN, 10));
    let mut one = c;
    let deposit = one.calculate_buy_proxy_token(1).unwrap();
    let (reserve, ids) = one.buy(ALICE, 1, deposit, 20).unwrap();
    one.on_buy(true, ALICE, 1, deposit, reserve, &ids, 20).unwrap();
    // Sell the claim back so nothing circulates, then close.
    let (refund, _) = one.sell(ALICE, &ids, 30).unwrap();
    one.on_sell(true, ALICE, refund, &ids).unwrap();
    let late = 20 + 5 + DAY + 1;
    assert_eq!(one.close_project(OWNER, late).unwrap(), CloseProgress::Advanced);
    assert_eq!(one.get_closed_step(), ClosedStep::PreMint);
    assert_eq!(one.close_project(OWNER, late).unwrap(), CloseProgress::Advanced);
    assert_eq!(one.get_closed_step(), ClosedStep::RemainProxy);
}

#[test]
fn convert_after_closing_transfers_reserved_inventory() {
    let (mut c, late) = escrow_past_conversion();
    match c.close_project(OWNER, late).unwrap() {
        CloseProgress::Pending(_) => (),
        CloseProgress::Advanced => panic!("expected an external operation"),
    }
    assert!(c.on_close_project(true).unwrap());
    match c.close_project(OWNER, late).unwrap() {
        CloseProgress::Pending(_) => (),
        CloseProgress::Advanced => panic!("expected an external operation"),
    }
    assert!(c.on_close_project(true).unwrap());
    match c.close_project(OWNER, late).unwrap() {
        CloseProgress::Pending(_) => (),
        CloseProgress::Advanced => panic!("expected an external operation"),
    }
    assert!(c.on_close_project(true).unwrap());
    assert_eq!(c.get_closed_step(), ClosedStep::TransferOwnership);
    // Conversion now hands out the reserved collection ids, but the
    // conversion window itself has passed for trading; conversion remains
    // open after the buffer, so it still succeeds.
    let ids: Vec<u128> = vec![2, 3];
    let actions = c.convert(ALICE, &ids, late).unwrap();
    match &actions[0] {
        Action::ProjectTokenBatchTransfer { to, token_ids } => {
            assert_eq!(*to, ALICE);
            assert_eq!(token_ids, &vec![2, 3]);
        },
        _ => panic!("expected a batch transfer of reserved inventory"),
    }
    assert!(c.on_convert(true, ALICE, &ids).unwrap());
    assert_eq!(c.get_converted_amount(), 2);
}

#[test]
fn closed_step_order_walks_both_ways() {
    assert_eq!(ClosedStep::NotClosed.increase(), ClosedStep::PreMint);
    assert_eq!(ClosedStep::PreMint.increase(), ClosedStep::RemainProxy);
    assert_eq!(ClosedStep::RemainProxy.increase(), ClosedStep::TransferOwnership);
    assert_eq!(ClosedStep::TransferOwnership.increase(), ClosedStep::TransferOwnership);
    assert_eq!(ClosedStep::TransferOwnership.decrease(), ClosedStep::RemainProxy);
    assert_eq!(ClosedStep::RemainProxy.decrease(), ClosedStep::PreMint);
    assert_eq!(ClosedStep::PreMint.decrease(), ClosedStep::NotClosed);
    assert_eq!(ClosedStep::NotClosed.decrease(), ClosedStep::NotClosed);
}

#[test]
fn views_report_the_configuration() {
    let c = activated_escrow(ONE_COIN);
    assert_eq!(c.get_treasury_id(), TREASURY);
    assert_eq!(c.get_treasury_fee(), 100);
    assert_eq!(c.get_finder_id(), FINDER);
    assert_eq!(c.get_finder_fee(), 100);
    assert_eq!(c.get_project_token_id(), PROJECT_TOKEN);
    assert_eq!(
        c.get_project_token_type(),
        nft_escrow::utils::ProjectTokenType::NonFungible
    );
    assert_eq!(c.get_stable_coin_id(), STABLE_COIN);
    assert_eq!(c.get_fund_threshold(), ONE_COIN);
    assert_eq!(c.get_start_timestamp(), 10);
    assert_eq!(c.get_tp_timestamp(), 0);
    assert_eq!(c.get_buffer_period(), 5);
    assert_eq!(c.get_conversion_period(), DAY);
    assert_eq!(c.get_closed_step(), ClosedStep::NotClosed);
    assert!(!c.get_is_closed());
    assert_eq!(c.get_converted_amount(), 0);
    assert_eq!(c.get_sum_price(1), Ok(100 * ONE_COIN));
    assert_eq!(c.pt_pt_all_total_supply(), 2);
}

#[test]
fn set_owner_changes_authorization() {
    let mut c = horizontal_escrow();
    assert_eq!(c.set_owner(ALICE, ALICE).err(), Some(EscrowError::NotAllowed));
    c.set_owner(OWNER, ALICE).unwrap();
    assert_eq!(c.pre_mint(OWNER, 1).err(), Some(EscrowError::NotAllowed));
    c.pre_mint(ALICE, 1).unwrap();
}

#[test]
fn buy_after_window_is_rejected() {
    let (mut c, late) = escrow_past_conversion();
    assert_eq!(c.buy(ALICE, 1, ONE_COIN, late).err(), Some(EscrowError::NotOngoing));
    assert_eq!(c.sell(ALICE, &vec![2], late).err(), Some(EscrowError::NotOngoing));
}

#[test]
fn missing_curve_args_surface_in_views() {
    let c = Contract::new(
        OWNER,
        b"abc".to_vec(),
        b"PRX".to_vec(),
        b"u".to_vec(),
        STABLE_COIN,
        24,
        CurveType::Sigmoidal,
        CurveArgs { arg_a: Some(1), arg_b: None, arg_c: None, arg_d: None },
        TREASURY,
    )
    .unwrap();
    assert_eq!(c.get_sum_price(1).err(), Some(EscrowError::MissingCurveArg));
    assert_eq!(c.get_curve_type(), CurveType::Sigmoidal);
}

#[test]
fn token_price_after_pre_mint_matches_curve() {
    // Horizontal curve with a=100 and a unit of 10^24: any claim past
    // the pre-mint window is priced at exactly 100 units.
    let mut c = horizontal_escrow();
    c.pre_mint(OWNER, 2).unwrap();
    assert_eq!(c.get_token_price(c.get_pre_mint_amount() + 1), Ok(100 * ONE_COIN));
    assert_eq!(c.get_token_price(0), Ok(0));
}

#[test]
fn pt_metadata_and_balances_report_stored_values() {
    let mut c = horizontal_escrow();
    c.pre_mint(OWNER, 1).unwrap();
    let meta = c.pt_metadata();
    assert_eq!(meta.name, b"Proxy Project".to_vec());
    assert_eq!(meta.symbol, b"PRX".to_vec());
    assert_eq!(c.internal_unwrap_balance_of(0, OWNER), 1);
    assert_eq!(c.internal_unwrap_balance_of(0, ALICE), 0);
}

#[test]
fn pt_token_reports_supply_and_media() {
    let mut c = horizontal_escrow();
    c.pre_mint(OWNER, 1).unwrap();
    let t = c.pt_token(0).unwrap();
    assert_eq!(t.token_id, 0);
    assert_eq!(t.supply, 1);
    assert_eq!(t.media_uri, b"ipfs://blank".to_vec());
    assert!(c.pt_token(1).is_none());
}

#[test]
fn burning_unheld_claims_is_all_or_nothing() {
    let mut c = horizontal_escrow();
    c.pre_mint(OWNER, 2).unwrap();
    assert_eq!(
        c.pt_burn(OWNER, &vec![0, 5]).err(),
        Some(EscrowError::InsufficientBalance)
    );
    assert_eq!(c.pt_balance_of(OWNER, &vec![0, 1]), vec![1, 1]);
    assert_eq!(
        c.pt_burn(OWNER, &vec![0, 0]).err(),
        Some(EscrowError::InsufficientBalance)
    );
    assert_eq!(c.pt_burn(ALICE, &vec![0]).err(), Some(EscrowError::InsufficientBalance));
    assert_eq!(c.pt_burn(OWNER, &vec![]).err(), Some(EscrowError::InvalidAmount));
    c.pt_burn(OWNER, &vec![0, 1]).unwrap();
    assert_eq!(c.pt_pt_all_total_supply(), 0);
}

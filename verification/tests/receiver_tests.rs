//! Transfer-hook tests: the `buy:<amount>` message grammar and the hook's
//! dispatch into a purchase.

use nft_escrow::escrow::Contract;
use nft_escrow::errors::EscrowError;
use nft_escrow::token_receiver::parse_buy_message;
use nft_escrow::utils::{CurveType, CurveArgs};

const OWNER: u64 = 1;
const ALICE: u64 = 2;
const FINDER: u64 = 4;
const TREASURY: u64 = 5;
const PROJECT_TOKEN: u64 = 7;
const STABLE_COIN: u64 = 9;
const OTHER_COIN: u64 = 11;
const ONE_COIN: u128 = 1_000_000_000_000_000_000_000_000;

fn activated_escrow() -> Contract {
    let mut c = Contract::new(
        OWNER,
        b"Proxy Project".to_vec(),
        b"PRX".to_vec(),
        b"ipfs://blank".to_vec(),
        STABLE_COIN,
        24,
        CurveType::Horizontal,
        CurveArgs { arg_a: Some(100), arg_b: None, arg_c: None, arg_d: None },
        TREASURY,
    )
    .unwrap();
    c.active_nft_project(OWNER, b"ipfs://base".to_vec(), 1000, FINDER, u128::MAX, 5, 86_400)
        .unwrap();
    assert!(c.on_activate(true, PROJECT_TOKEN, 10));
    c
}

#[test]
fn parse_accepts_well_formed_amounts() {
    assert_eq!(parse_buy_message(&b"buy:200".to_vec()), Ok(Some(200)));
    assert_eq!(parse_buy_message(&b"buy:0".to_vec()), Ok(Some(0)));
    assert_eq!(
        parse_buy_message(&b"buy:340282366920938463463374607431768211455".to_vec()),
        Ok(Some(u128::MAX))
    );
}

#[test]
fn parse_ignores_other_messages() {
    assert_eq!(parse_buy_message(&b"".to_vec()), Ok(None));
    assert_eq!(parse_buy_message(&b"sell:1".to_vec()), Ok(None));
    assert_eq!(parse_buy_message(&b"buy".to_vec()), Ok(None));
    assert_eq!(parse_buy_message(&b"BUY:1".to_vec()), Ok(None));
    // A second colon makes three parts: not a purchase message.
    assert_eq!(parse_buy_message(&b"buy:12:3".to_vec()), Ok(None));
}

#[test]
fn parse_rejects_bad_amounts() {
    assert_eq!(parse_buy_message(&b"buy:".to_vec()), Err(EscrowError::InvalidAmount));
    assert_eq!(parse_buy_message(&b"buy:abc".to_vec()), Err(EscrowError::InvalidAmount));
    assert_eq!(parse_buy_message(&b"buy:12x".to_vec()), Err(EscrowError::InvalidAmount));
    assert_eq!(
        parse_buy_message(&b"buy:340282366920938463463374607431768211456".to_vec()),
        Err(EscrowError::InvalidAmount)
    );
}

#[test]
fn hook_triggers_a_purchase() {
    let mut c = activated_escrow();
    let deposit = 100 * 3 * ONE_COIN;
    let r = c
        .ft_on_transfer(ALICE, deposit, &b"buy:3".to_vec(), STABLE_COIN, 20)
        .unwrap();
    let (reserve, ids) = r.unwrap();
    assert_eq!(reserve, deposit);
    assert_eq!(ids, vec![0, 1, 2]);
    assert_eq!(c.pt_balance_of(ALICE, &ids), vec![1, 1, 1]);
}

#[test]
fn hook_ignores_foreign_tokens_and_other_messages() {
    let mut c = activated_escrow();
    assert_eq!(
        c.ft_on_transfer(ALICE, ONE_COIN, &b"buy:3".to_vec(), OTHER_COIN, 20),
        Ok(None)
    );
    assert_eq!(
        c.ft_on_transfer(ALICE, ONE_COIN, &b"hello".to_vec(), STABLE_COIN, 20),
        Ok(None)
    );
    // A malformed amount on a foreign token stays ignored.
    assert_eq!(
        c.ft_on_transfer(ALICE, ONE_COIN, &b"buy:x".to_vec(), OTHER_COIN, 20),
        Ok(None)
    );
    assert_eq!(c.pt_pt_all_total_supply(), 0);
}

#[test]
fn hook_rejects_bad_amounts_on_the_stable_asset() {
    let mut c = activated_escrow();
    assert_eq!(
        c.ft_on_transfer(ALICE, ONE_COIN, &b"buy:x".to_vec(), STABLE_COIN, 20),
        Err(EscrowError::InvalidAmount)
    );
    // An underfunded purchase propagates the purchase guard.
    assert_eq!(
        c.ft_on_transfer(ALICE, ONE_COIN, &b"buy:3".to_vec(), STABLE_COIN, 20),
        Err(EscrowError::InsufficientFund)
    );
}

#[test]
fn hook_enforces_trading_guards_first() {
    let mut c = activated_escrow();
    c.pause_contract(OWNER).unwrap();
    assert_eq!(
        c.ft_on_transfer(ALICE, ONE_COIN, &b"buy:1".to_vec(), STABLE_COIN, 20),
        Err(EscrowError::Paused)
    );
}

//! The stable-asset transfer hook.  A deposit arrives together with a
//! message; a message of the form `buy:<amount>` triggers a purchase of
//! that many claims against the deposited value.

use vstd::prelude::*;
use crate::escrow::Contract;
use crate::errors::EscrowError;
use crate::ledger::LedgerEntry;

verus! {

/// Whether `b` is an ASCII decimal digit.
pub open spec fn is_ascii_digit(b: u8) -> bool {
    48 <= b <= 57
}

/// Whether every byte of `s` is an ASCII decimal digit.
pub open spec fn all_ascii_digits(s: Seq<u8>) -> bool {
    forall|i: int| 0 <= i < s.len() ==> is_ascii_digit(#[trigger] s[i])
}

/// The number the ASCII digits of `s` spell in decimal.
pub open spec fn digits_value(s: Seq<u8>) -> int
    decreases s.len(),
{
    if s.len() == 0 {
        0
    } else {
        digits_value(s.drop_last()) * 10 + (s.last() - 48)
    }
}

/// The value of an all-digit string is never negative.
pub proof fn lemma_digits_value_nonneg(s: Seq<u8>)
    requires
        all_ascii_digits(s),
    ensures
        digits_value(s) >= 0,
    decreases s.len(),
{
    if s.len() > 0 {
        assert(all_ascii_digits(s.drop_last())) by {
            assert(forall|i: int|
                0 <= i < s.len() - 1 ==> #[trigger] s.drop_last()[i] == s[i]);
        }
        lemma_digits_value_nonneg(s.drop_last());
    }
}

/// A prefix of an all-digit string spells at most the whole string's
/// value.
pub proof fn lemma_digits_value_prefix_le(s: Seq<u8>, i: int)
    requires
        all_ascii_digits(s),
        0 <= i <= s.len(),
    ensures
        digits_value(s.take(i)) <= digits_value(s),
    decreases s.len(),
{
    if i == s.len() {
        assert(s.take(i) =~= s);
    } else {
        assert(all_ascii_digits(s.drop_last())) by {
            assert(forall|k: int|
                0 <= k < s.len() - 1 ==> #[trigger] s.drop_last()[k] == s[k]);
        }
        assert(s.drop_last().take(i) =~= s.take(i));
        lemma_digits_value_prefix_le(s.drop_last(), i);
        lemma_digits_value_nonneg(s.drop_last());
    }
}

/// Whether `s` is shaped like a purchase message: the four bytes `buy:`
/// followed by a payload free of further colons.
pub open spec fn is_buy_shape(s: Seq<u8>) -> bool {
    &&& s.len() >= 4
    &&& s[0] == 98 && s[1] == 117 && s[2] == 121 && s[3] == 58
    &&& forall|i: int| 4 <= i < s.len() ==> #[trigger] s[i] != 58
}

/// Parse a transfer message.  `Ok(None)` for anything not shaped like a
/// purchase, which the hook ignores; `Ok(Some(n))` for `buy:` followed by
/// decimal digits spelling `n`; an error for a purchase-shaped message
/// whose amount is empty, non-numeric or out of range.
pub fn parse_buy_message(msg: &Vec<u8>) -> (r: Result<Option<u128>, EscrowError>)
    ensures
        !is_buy_shape(msg@) ==> r == Result::<Option<u128>, EscrowError>::Ok(None),
        is_buy_shape(msg@) ==> {
            let payload = msg@.skip(4);
            if payload.len() > 0 && all_ascii_digits(payload) && digits_value(payload)
                <= u128::MAX {
                r == Result::<Option<u128>, EscrowError>::Ok(
                    Some(digits_value(payload) as u128),
                )
            } else {
                r == Result::<Option<u128>, EscrowError>::Err(EscrowError::InvalidAmount)
            }
        },
{
    if msg.len() < 4 {
        return Ok(None);
    }
    if !(msg[0] == 98 && msg[1] == 117 && msg[2] == 121 && msg[3] == 58) {
        return Ok(None);
    }
    // A further colon means the message splits into more than two parts:
    // not a purchase message.
    let mut i: usize = 4;
    while i < msg.len()
        invariant
            4 <= i <= msg@.len(),
            forall|k: int| 4 <= k < i ==> #[trigger] msg@[k] != 58,
        decreases msg@.len() - i,
    {
        if msg[i] == 58 {
            return Ok(None);
        }
        i = i + 1;
    }
    let ghost payload = msg@.skip(4);
    proof {
        assert(payload.len() == msg@.len() - 4);
        assert(forall|k: int| 0 <= k < payload.len() ==> #[trigger] payload[k] == msg@[k + 4]);
    }
    if msg.len() == 4 {
        return Err(EscrowError::InvalidAmount);
    }
    let mut acc: u128 = 0;
    let mut j: usize = 4;
    while j < msg.len()
        invariant
            4 <= j <= msg@.len(),
            msg@.len() > 4,
            is_buy_shape(msg@),
            payload == msg@.skip(4),
            payload.len() == msg@.len() - 4,
            forall|k: int| 0 <= k < payload.len() ==> #[trigger] payload[k] == msg@[k + 4],
            all_ascii_digits(payload.take(j - 4)),
            acc == digits_value(payload.take(j - 4)),
        decreases msg@.len() - j,
    {
        let b = msg[j];
        if !(48 <= b && b <= 57) {
            assert(!is_ascii_digit(payload[j - 4]));
            return Err(EscrowError::InvalidAmount);
        }
        let scaled = match acc.checked_mul(10) {
            Some(v) => v,
            None => {
                proof {
                    overflow_means_out_of_range(payload, j as int - 4, acc, b);
                }
                return Err(EscrowError::InvalidAmount);
            },
        };
        let next = match scaled.checked_add((b - 48) as u128) {
            Some(v) => v,
            None => {
                proof {
                    overflow_means_out_of_range(payload, j as int - 4, acc, b);
                }
                return Err(EscrowError::InvalidAmount);
            },
        };
        proof {
            assert(payload.take(j as int - 4 + 1).drop_last() =~= payload.take(j as int - 4));
            assert(payload.take(j as int - 4 + 1).last() == payload[j as int - 4]);
        }
        acc = next;
        j = j + 1;
    }
    proof {
        assert(payload.take(payload.len() as int) =~= payload);
    }
    Ok(Some(acc))
}

/// If appending one more digit overflows the accumulator, the whole
/// payload either is not all digits or spells a value out of range.
proof fn overflow_means_out_of_range(payload: Seq<u8>, i: int, acc: u128, b: u8)
    requires
        0 <= i < payload.len(),
        payload[i] == b,
        is_ascii_digit(b),
        all_ascii_digits(payload.take(i)),
        acc == digits_value(payload.take(i)),
        acc * 10 + (b - 48) > u128::MAX,
    ensures
        all_ascii_digits(payload) ==> digits_value(payload) > u128::MAX,
{
    if all_ascii_digits(payload) {
        assert(payload.take(i + 1).drop_last() =~= payload.take(i));
        assert(payload.take(i + 1).last() == payload[i]);
        assert(digits_value(payload.take(i + 1)) == acc * 10 + (b - 48));
        lemma_digits_value_prefix_le(payload, i + 1);
    }
}

impl Contract {
    /// The stable-asset transfer-notification hook: a received deposit of
    /// `amount` from `sender_id`, carrying `msg`, sent by the token
    /// contract `token_in`.  A well-shaped `buy:<n>` message on the
    /// escrow's own stable asset triggers a purchase and hands back its
    /// reserve and minted ids; anything else is ignored.
    pub fn ft_on_transfer(
        &mut self,
        sender_id: u64,
        amount: u128,
        msg: &Vec<u8>,
        token_in: u64,
        now: u64,
    ) -> (r: Result<Option<(u128, Vec<u128>)>, EscrowError>)
        requires
            old(self).wf(),
        ensures
            final(self).wf(),
            old(self).spec_paused_check() is Some ==> r is Err && Some(r->Err_0) == old(self).spec_paused_check() && *final(self) == *old(self),
            (old(self).spec_paused_check() is None && old(self).spec_ongoing_check(now) is Some)
                ==> r is Err && Some(r->Err_0) == old(self).spec_ongoing_check(now) && *final(self)
                == *old(self),
            ({
                let guards_pass = old(self).spec_paused_check() is None && old(self).spec_ongoing_check(now) is None;
                let payload = msg@.skip(4);
                let parse_ignored = !is_buy_shape(msg@);
                let parse_bad = is_buy_shape(msg@) && !(payload.len() > 0 && all_ascii_digits(
                    payload,
                ) && digits_value(payload) <= u128::MAX);
                &&& (guards_pass && parse_ignored ==> r == Result::<
                    Option<(u128, Vec<u128>)>,
                    EscrowError,
                >::Ok(None) && *final(self) == *old(self))
                &&& (guards_pass && !parse_ignored && token_in != old(self).stable_coin_id ==> r
                    == Result::<Option<(u128, Vec<u128>)>, EscrowError>::Ok(None) && *final(self)
                    == *old(self))
                &&& (guards_pass && parse_bad && token_in == old(self).stable_coin_id ==> r
                    == Result::<Option<(u128, Vec<u128>)>, EscrowError>::Err(
                    EscrowError::InvalidAmount,
                ) && *final(self) == *old(self))
                &&& (guards_pass && is_buy_shape(msg@) && !parse_bad && token_in == old(self).stable_coin_id ==> {
                    let buy_amount = digits_value(payload) as u128;
                    &&& (r is Ok <==> old(self).spec_buy_ok(buy_amount, amount, now))
                    &&& (r is Err ==> *final(self) == *old(self))
                    &&& (r is Ok ==> {
                        let (reserve, ids) = r->Ok_0->0;
                        &&& r->Ok_0 is Some
                        &&& reserve == old(self).spec_buy_reserve(buy_amount)
                        &&& *final(self) == (Contract { ledger: final(self).ledger, ..*old(self) })
                        &&& final(self).ledger.entries@.len() == old(self).ledger.entries@.len()
                            + buy_amount
                        &&& final(self).ledger.all_total_supply == old(self).ledger.all_total_supply + buy_amount
                        &&& forall|i: int|
                            0 <= i < old(self).ledger.entries@.len() ==> final(self).ledger.entries@[i] == old(self).ledger.entries@[i]
                        &&& forall|i: int|
                            old(self).ledger.entries@.len() <= i < final(self).ledger.entries@.len() ==> final(self).ledger.entries@[i]
                                == (LedgerEntry { supply: 1, holder: sender_id })
                        &&& ids@.len() == buy_amount
                        &&& forall|j: int|
                            0 <= j < buy_amount ==> ids@[j] == old(self).ledger.entries@.len() + j
                    })
                })
            }),
    {
        match self.check_not_paused() {
            Ok(()) => (),
            Err(e) => {
                return Err(e);
            },
        }
        match self.check_is_ongoing(now) {
            Ok(()) => (),
            Err(e) => {
                return Err(e);
            },
        }
        let parsed = parse_buy_message(msg);
        match parsed {
            Ok(None) => Ok(None),
            Ok(Some(buy_amount)) => {
                if token_in != self.stable_coin_id {
                    return Ok(None);
                }
                match self.buy(sender_id, buy_amount, amount, now) {
                    Ok((reserve, ids)) => Ok(Some((reserve, ids))),
                    Err(e) => Err(e),
                }
            },
            Err(e) => {
                if token_in != self.stable_coin_id {
                    return Ok(None);
                }
                Err(e)
            },
        }
    }
}

} // verus!

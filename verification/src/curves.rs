//! The pricing engine: cumulative price of a claim prefix (the curve
//! integral), marginal claim price, and buy/sell quotes, with exact
//! overflow accounting.

use vstd::prelude::*;
use vstd::arithmetic::div_mod::lemma_div_is_ordered;
use crate::utils::{CurveType, CurveArgs, U256, sqrt_floor, integer_sqrt, lemma_isqrt_monotonic, FEE_DIVISOR};
use crate::errors::EscrowError;

verus! {

/// 10 raised to `d`: the smallest-unit scale of the stable asset.
pub open spec fn pow10(d: nat) -> nat
    decreases d,
{
    if d == 0 {
        1
    } else {
        10 * pow10((d - 1) as nat)
    }
}

/// `pow10` never decreases in the exponent.
pub proof fn lemma_pow10_monotonic(d1: nat, d2: nat)
    requires
        d1 <= d2,
    ensures
        pow10(d1) <= pow10(d2),
        pow10(d1) >= 1,
    decreases d2,
{
    if d2 > 0 {
        if d1 == d2 {
            lemma_pow10_monotonic((d1 - 1) as nat, (d2 - 1) as nat);
        } else {
            lemma_pow10_monotonic(d1, (d2 - 1) as nat);
        }
    }
}

/// 10^d as an executable value; `None` when it exceeds `u128`.
pub fn pow10_u128(d: u8) -> (r: Option<u128>)
    ensures
        match r {
            Some(v) => v == pow10(d as nat),
            None => pow10(d as nat) > u128::MAX,
        },
{
    let mut i: u8 = 0;
    let mut acc: u128 = 1;
    while i < d
        invariant
            i <= d,
            acc == pow10(i as nat),
        decreases d - i,
    {
        match acc.checked_mul(10) {
            Some(next) => {
                assert(next == pow10(i as nat + 1));
                acc = next;
                i = i + 1;
            },
            None => {
                proof {
                    lemma_pow10_monotonic((i + 1) as nat, d as nat);
                }
                return None;
            },
        }
    }
    Some(acc)
}

/// The value of an optional curve argument; zero when absent.
pub open spec fn arg_val(o: Option<u128>) -> nat {
    match o {
        Some(v) => v as nat,
        None => 0,
    }
}

/// Whether the arguments that the curve shape reads are all present.
pub open spec fn curve_args_present(curve: CurveType, args: CurveArgs) -> bool {
    match curve {
        CurveType::Horizontal => args.arg_a is Some,
        CurveType::Linear => args.arg_a is Some && args.arg_b is Some,
        CurveType::Sigmoidal => args.arg_a is Some && args.arg_b is Some && args.arg_c is Some
            && args.arg_d is Some,
    }
}

/// Cumulative price of the first `n` claims, in smallest units of the
/// stable asset: the integral of the curve from 0 to `n`.
pub open spec fn spec_sum_price(curve: CurveType, args: CurveArgs, one: nat, n: nat) -> nat {
    let a = arg_val(args.arg_a);
    let b = arg_val(args.arg_b);
    let c = arg_val(args.arg_c);
    let d = arg_val(args.arg_d);
    match curve {
        CurveType::Horizontal => a * n * one,
        CurveType::Linear => (a * (n * n) / 2 + b * n) * one,
        CurveType::Sigmoidal => a * sqrt_floor((c + (n + b) * (n + b)) * one * one) + n * (d + a)
            * one,
    }
}

/// Whether every intermediate of the cumulative-price computation fits its
/// integer range, mirroring the checked operations one by one.
pub open spec fn sum_price_fits(curve: CurveType, args: CurveArgs, one: nat, n: nat) -> bool {
    let a = arg_val(args.arg_a);
    let b = arg_val(args.arg_b);
    let c = arg_val(args.arg_c);
    let d = arg_val(args.arg_d);
    let m = u128::MAX as nat;
    match curve {
        CurveType::Horizontal => a * n <= m && a * n * one <= m,
        CurveType::Linear => n * n <= m && a * (n * n) <= m && a * (n * n) / 2 + b * n <= m && b
            * n <= m && (a * (n * n) / 2 + b * n) * one <= m,
        CurveType::Sigmoidal => {
            &&& n + b <= m
            &&& (n + b) * (n + b) <= m
            &&& c + (n + b) * (n + b) <= m
            &&& (c + (n + b) * (n + b)) * one * one < crate::utils::two_pow_256()
            &&& a * sqrt_floor((c + (n + b) * (n + b)) * one * one) <= m
            &&& d + a <= m
            &&& n * (d + a) <= m
            &&& n * (d + a) * one <= m
            &&& a * sqrt_floor((c + (n + b) * (n + b)) * one * one) + n * (d + a) * one <= m
        },
    }
}

/// Whether the cumulative price of the first `n` claims is computable: the
/// unit scale fits, the curve's arguments are present, and nothing
/// overflows.
pub open spec fn sum_price_ok(curve: CurveType, args: CurveArgs, decimals: nat, n: nat) -> bool {
    &&& pow10(decimals) <= u128::MAX
    &&& curve_args_present(curve, args)
    &&& sum_price_fits(curve, args, pow10(decimals), n)
}

/// Cumulative price of the first `n` claims.
///
/// Fails with `Overflow` when the unit scale or any intermediate exceeds
/// its range, and with `MissingCurveArg` when the curve shape reads an
/// absent argument; otherwise returns exactly the curve integral.
pub fn sum_price(curve: &CurveType, args: &CurveArgs, decimals: u8, n: u128) -> (r: Result<
    u128,
    EscrowError,
>)
    ensures
        r is Ok <==> sum_price_ok(*curve, *args, decimals as nat, n as nat),
        r is Ok ==> r->Ok_0 == spec_sum_price(*curve, *args, pow10(decimals as nat), n as nat),
        r == Result::<u128, EscrowError>::Err(EscrowError::MissingCurveArg) <==> pow10(
            decimals as nat,
        ) <= u128::MAX && !curve_args_present(*curve, *args),
        r is Err ==> r->Err_0 == EscrowError::Overflow || r->Err_0 == EscrowError::MissingCurveArg,
{
    let one = match pow10_u128(decimals) {
        Some(v) => v,
        None => {
            return Err(EscrowError::Overflow);
        },
    };
    match curve {
        CurveType::Horizontal => {
            let a = match args.arg_a {
                Some(v) => v,
                None => {
                    return Err(EscrowError::MissingCurveArg);
                },
            };
            let p1 = match a.checked_mul(n) {
                Some(v) => v,
                None => {
                    return Err(EscrowError::Overflow);
                },
            };
            match p1.checked_mul(one) {
                Some(v) => Ok(v),
                None => Err(EscrowError::Overflow),
            }
        },
        CurveType::Linear => {
            let a = match args.arg_a {
                Some(v) => v,
                None => {
                    return Err(EscrowError::MissingCurveArg);
                },
            };
            let b = match args.arg_b {
                Some(v) => v,
                None => {
                    return Err(EscrowError::MissingCurveArg);
                },
            };
            let n2 = match n.checked_mul(n) {
                Some(v) => v,
                None => {
                    return Err(EscrowError::Overflow);
                },
            };
            let p1 = match a.checked_mul(n2) {
                Some(v) => v,
                None => {
                    return Err(EscrowError::Overflow);
                },
            };
            let half = p1 / 2;
            let bn = match b.checked_mul(n) {
                Some(v) => v,
                None => {
                    return Err(EscrowError::Overflow);
                },
            };
            let s = match half.checked_add(bn) {
                Some(v) => v,
                None => {
                    return Err(EscrowError::Overflow);
                },
            };
            match s.checked_mul(one) {
                Some(v) => Ok(v),
                None => Err(EscrowError::Overflow),
            }
        },
        CurveType::Sigmoidal => {
            let a = match args.arg_a {
                Some(v) => v,
                None => {
                    return Err(EscrowError::MissingCurveArg);
                },
            };
            let b = match args.arg_b {
                Some(v) => v,
                None => {
                    return Err(EscrowError::MissingCurveArg);
                },
            };
            let c = match args.arg_c {
                Some(v) => v,
                None => {
                    return Err(EscrowError::MissingCurveArg);
                },
            };
            let d = match args.arg_d {
                Some(v) => v,
                None => {
                    return Err(EscrowError::MissingCurveArg);
                },
            };
            let nb = match n.checked_add(b) {
                Some(v) => v,
                None => {
                    return Err(EscrowError::Overflow);
                },
            };
            let nb2 = match nb.checked_mul(nb) {
                Some(v) => v,
                None => {
                    return Err(EscrowError::Overflow);
                },
            };
            let u = match c.checked_add(nb2) {
                Some(v) => v,
                None => {
                    return Err(EscrowError::Overflow);
                },
            };
            let m1 = U256::mul_u128(u, one);
            let m = match m1.checked_mul_u128(one) {
                Some(v) => v,
                None => {
                    return Err(EscrowError::Overflow);
                },
            };
            let aa = integer_sqrt(m);
            let p1 = match a.checked_mul(aa.lo) {
                Some(v) => v,
                None => {
                    return Err(EscrowError::Overflow);
                },
            };
            let da = match d.checked_add(a) {
                Some(v) => v,
                None => {
                    return Err(EscrowError::Overflow);
                },
            };
            let p2 = match n.checked_mul(da) {
                Some(v) => v,
                None => {
                    return Err(EscrowError::Overflow);
                },
            };
            let p3 = match p2.checked_mul(one) {
                Some(v) => v,
                None => {
                    return Err(EscrowError::Overflow);
                },
            };
            match p1.checked_add(p3) {
                Some(v) => Ok(v),
                None => Err(EscrowError::Overflow),
            }
        },
    }
}

/// The cumulative price never decreases in the claim count, whatever the
/// curve shape and arguments.
pub proof fn lemma_sum_price_monotonic(curve: CurveType, args: CurveArgs, one: nat, n1: nat, n2: nat)
    requires
        n1 <= n2,
    ensures
        spec_sum_price(curve, args, one, n1) <= spec_sum_price(curve, args, one, n2),
{
    let a = arg_val(args.arg_a);
    let b = arg_val(args.arg_b);
    let c = arg_val(args.arg_c);
    let d = arg_val(args.arg_d);
    match curve {
        CurveType::Horizontal => {
            assert(a * n1 * one <= a * n2 * one) by (nonlinear_arith)
                requires
                    n1 <= n2,
            ;
        },
        CurveType::Linear => {
            assert(n1 * n1 <= n2 * n2 && a * (n1 * n1) <= a * (n2 * n2) && b * n1 <= b * n2)
                by (nonlinear_arith)
                requires
                    n1 <= n2,
            ;
            lemma_div_is_ordered((a * (n1 * n1)) as int, (a * (n2 * n2)) as int, 2);
            let s1 = a * (n1 * n1) / 2 + b * n1;
            let s2 = a * (n2 * n2) / 2 + b * n2;
            assert(s1 * one <= s2 * one) by (nonlinear_arith)
                requires
                    s1 <= s2,
            ;
        },
        CurveType::Sigmoidal => {
            let u1 = c + (n1 + b) * (n1 + b);
            let u2 = c + (n2 + b) * (n2 + b);
            assert(u1 <= u2 && u1 * one * one <= u2 * one * one) by (nonlinear_arith)
                requires
                    n1 <= n2,
                    u1 == c + (n1 + b) * (n1 + b),
                    u2 == c + (n2 + b) * (n2 + b),
            ;
            lemma_isqrt_monotonic(u1 * one * one, u2 * one * one);
            let s1 = sqrt_floor(u1 * one * one);
            let s2 = sqrt_floor(u2 * one * one);
            assert(a * s1 <= a * s2) by (nonlinear_arith)
                requires
                    s1 <= s2,
            ;
            assert(n1 * (d + a) * one <= n2 * (d + a) * one) by (nonlinear_arith)
                requires
                    n1 <= n2,
            ;
        },
    }
}

/// Marginal price of the claim with id `token_id`: the price step of the
/// curve at its index, and zero for every pre-minted claim.
pub open spec fn spec_token_price(
    curve: CurveType,
    args: CurveArgs,
    one: nat,
    pre_mint: nat,
    token_id: nat,
) -> int {
    if token_id < pre_mint {
        0
    } else {
        spec_sum_price(curve, args, one, (token_id - pre_mint) as nat + 1) - spec_sum_price(
            curve,
            args,
            one,
            (token_id - pre_mint) as nat,
        )
    }
}

/// The marginal price of any claim is never negative.
pub proof fn lemma_token_price_nonneg(
    curve: CurveType,
    args: CurveArgs,
    one: nat,
    pre_mint: nat,
    token_id: nat,
)
    ensures
        spec_token_price(curve, args, one, pre_mint, token_id) >= 0,
{
    if token_id >= pre_mint {
        let idx = (token_id - pre_mint) as nat;
        lemma_sum_price_monotonic(curve, args, one, idx, idx + 1);
    }
}

/// Whether the marginal price of `token_id` is computable.
pub open spec fn token_price_ok(
    curve: CurveType,
    args: CurveArgs,
    decimals: nat,
    pre_mint: nat,
    token_id: nat,
) -> bool {
    token_id < pre_mint || {
        let idx = (token_id - pre_mint) as nat;
        &&& idx + 1 <= u128::MAX
        &&& sum_price_ok(curve, args, decimals, idx + 1)
        &&& sum_price_ok(curve, args, decimals, idx)
    }
}

/// Marginal price of the claim with id `token_id`.
pub fn token_price(
    curve: &CurveType,
    args: &CurveArgs,
    decimals: u8,
    pre_mint: u128,
    token_id: u128,
) -> (r: Result<u128, EscrowError>)
    ensures
        r is Ok <==> token_price_ok(*curve, *args, decimals as nat, pre_mint as nat, token_id as nat),
        r is Ok ==> r->Ok_0 == spec_token_price(
            *curve,
            *args,
            pow10(decimals as nat),
            pre_mint as nat,
            token_id as nat,
        ),
        r is Err ==> r->Err_0 == EscrowError::Overflow || r->Err_0 == EscrowError::MissingCurveArg,
{
    if token_id < pre_mint {
        return Ok(0);
    }
    let idx = token_id - pre_mint;
    let next = match idx.checked_add(1) {
        Some(v) => v,
        None => {
            return Err(EscrowError::Overflow);
        },
    };
    let upper = match sum_price(curve, args, decimals, next) {
        Ok(v) => v,
        Err(e) => {
            return Err(e);
        },
    };
    let lower = match sum_price(curve, args, decimals, idx) {
        Ok(v) => v,
        Err(e) => {
            return Err(e);
        },
    };
    proof {
        lemma_sum_price_monotonic(
            *curve,
            *args,
            pow10(decimals as nat),
            idx as nat,
            idx as nat + 1,
        );
    }
    Ok(upper - lower)
}

/// Price of buying `amount` claims on top of `supply` outstanding ones:
/// the curve integral between the two supplies.
pub open spec fn spec_quote_buy(
    curve: CurveType,
    args: CurveArgs,
    one: nat,
    supply: nat,
    amount: nat,
) -> int {
    spec_sum_price(curve, args, one, supply + amount) - spec_sum_price(curve, args, one, supply)
}

/// Whether the buy quote is computable.
pub open spec fn quote_buy_ok(
    curve: CurveType,
    args: CurveArgs,
    decimals: nat,
    supply: nat,
    amount: nat,
) -> bool {
    &&& supply + amount <= u128::MAX
    &&& sum_price_ok(curve, args, decimals, supply + amount)
    &&& sum_price_ok(curve, args, decimals, supply)
}

/// Price of buying `amount` claims on top of `supply` outstanding ones.
pub fn quote_buy(curve: &CurveType, args: &CurveArgs, decimals: u8, supply: u128, amount: u128) -> (r:
    Result<u128, EscrowError>)
    ensures
        r is Ok <==> quote_buy_ok(*curve, *args, decimals as nat, supply as nat, amount as nat),
        r is Ok ==> r->Ok_0 == spec_quote_buy(
            *curve,
            *args,
            pow10(decimals as nat),
            supply as nat,
            amount as nat,
        ),
        r is Err ==> r->Err_0 == EscrowError::Overflow || r->Err_0 == EscrowError::MissingCurveArg,
{
    let total = match supply.checked_add(amount) {
        Some(v) => v,
        None => {
            return Err(EscrowError::Overflow);
        },
    };
    let upper = match sum_price(curve, args, decimals, total) {
        Ok(v) => v,
        Err(e) => {
            return Err(e);
        },
    };
    let lower = match sum_price(curve, args, decimals, supply) {
        Ok(v) => v,
        Err(e) => {
            return Err(e);
        },
    };
    proof {
        lemma_sum_price_monotonic(
            *curve,
            *args,
            pow10(decimals as nat),
            supply as nat,
            supply as nat + amount as nat,
        );
    }
    Ok(upper - lower)
}

/// Quoting a purchase in two consecutive steps totals the same as quoting
/// it at once: the curve integral is additive over adjacent ranges.
pub proof fn lemma_quote_buy_additive(
    curve: CurveType,
    args: CurveArgs,
    one: nat,
    supply: nat,
    amount1: nat,
    amount2: nat,
)
    ensures
        spec_quote_buy(curve, args, one, supply, amount1) + spec_quote_buy(
            curve,
            args,
            one,
            supply + amount1,
            amount2,
        ) == spec_quote_buy(curve, args, one, supply, amount1 + amount2),
{
}

/// Gross value of a list of claims: the sum of their marginal prices.
pub open spec fn spec_sell_gross(
    curve: CurveType,
    args: CurveArgs,
    one: nat,
    pre_mint: nat,
    ids: Seq<u128>,
) -> int
    decreases ids.len(),
{
    if ids.len() == 0 {
        0
    } else {
        spec_sell_gross(curve, args, one, pre_mint, ids.drop_last()) + spec_token_price(
            curve,
            args,
            one,
            pre_mint,
            ids.last() as nat,
        )
    }
}

/// The gross value of any list of claims is never negative.
pub proof fn lemma_sell_gross_nonneg(
    curve: CurveType,
    args: CurveArgs,
    one: nat,
    pre_mint: nat,
    ids: Seq<u128>,
)
    ensures
        spec_sell_gross(curve, args, one, pre_mint, ids) >= 0,
    decreases ids.len(),
{
    if ids.len() > 0 {
        lemma_sell_gross_nonneg(curve, args, one, pre_mint, ids.drop_last());
        lemma_token_price_nonneg(curve, args, one, pre_mint, ids.last() as nat);
    }
}

/// The gross value of a prefix never exceeds the gross value of the whole
/// list.
pub proof fn lemma_sell_gross_prefix(
    curve: CurveType,
    args: CurveArgs,
    one: nat,
    pre_mint: nat,
    ids: Seq<u128>,
    i: int,
)
    requires
        0 <= i <= ids.len(),
    ensures
        spec_sell_gross(curve, args, one, pre_mint, ids.take(i)) <= spec_sell_gross(
            curve,
            args,
            one,
            pre_mint,
            ids,
        ),
    decreases ids.len(),
{
    if i == ids.len() {
        assert(ids.take(i) =~= ids);
    } else {
        assert(ids.drop_last().take(i) =~= ids.take(i));
        lemma_sell_gross_prefix(curve, args, one, pre_mint, ids.drop_last(), i);
        lemma_token_price_nonneg(curve, args, one, pre_mint, ids.last() as nat);
    }
}

/// Net proceeds of selling claims of gross value `gross` after the
/// treasury fee.
pub open spec fn spec_quote_sell(gross: int, treasury_fee: nat) -> int {
    gross * (FEE_DIVISOR - treasury_fee) / (FEE_DIVISOR as int)
}

/// Whether the sell quote of `ids` is computable.
pub open spec fn quote_sell_ok(
    curve: CurveType,
    args: CurveArgs,
    decimals: nat,
    pre_mint: nat,
    treasury_fee: nat,
    ids: Seq<u128>,
) -> bool {
    let gross = spec_sell_gross(curve, args, pow10(decimals), pre_mint, ids);
    &&& forall|i: int|
        0 <= i < ids.len() ==> token_price_ok(curve, args, decimals, pre_mint, #[trigger] ids[i] as nat)
    &&& gross <= u128::MAX
    &&& treasury_fee <= FEE_DIVISOR
    &&& gross * (FEE_DIVISOR - treasury_fee) <= u128::MAX
}

/// Net proceeds of selling the claims in `ids`: the sum of their marginal
/// prices, less the treasury fee.
pub fn quote_sell(
    curve: &CurveType,
    args: &CurveArgs,
    decimals: u8,
    pre_mint: u128,
    treasury_fee: u32,
    ids: &Vec<u128>,
) -> (r: Result<u128, EscrowError>)
    ensures
        r is Ok <==> quote_sell_ok(
            *curve,
            *args,
            decimals as nat,
            pre_mint as nat,
            treasury_fee as nat,
            ids@,
        ),
        r is Ok ==> r->Ok_0 == spec_quote_sell(
            spec_sell_gross(*curve, *args, pow10(decimals as nat), pre_mint as nat, ids@),
            treasury_fee as nat,
        ),
        r is Err ==> r->Err_0 == EscrowError::Overflow || r->Err_0 == EscrowError::MissingCurveArg,
{
    let ghost one: nat = pow10(decimals as nat);
    let mut total: u128 = 0;
    let mut j: usize = 0;
    while j < ids.len()
        invariant
            j <= ids.len(),
            total == spec_sell_gross(*curve, *args, one, pre_mint as nat, ids@.take(j as int)),
            forall|i: int|
                0 <= i < j ==> token_price_ok(
                    *curve,
                    *args,
                    decimals as nat,
                    pre_mint as nat,
                    #[trigger] ids@[i] as nat,
                ),
            one == pow10(decimals as nat),
        decreases ids.len() - j,
    {
        let price = match token_price(curve, args, decimals, pre_mint, ids[j]) {
            Ok(v) => v,
            Err(e) => {
                return Err(e);
            },
        };
        let next = match total.checked_add(price) {
            Some(v) => v,
            None => {
                proof {
                    assert(ids@.take(j as int + 1).drop_last() =~= ids@.take(j as int));
                    assert(spec_sell_gross(*curve, *args, one, pre_mint as nat, ids@.take(j as int + 1))
                        > u128::MAX);
                    lemma_sell_gross_prefix(
                        *curve,
                        *args,
                        one,
                        pre_mint as nat,
                        ids@,
                        j as int + 1,
                    );
                }
                return Err(EscrowError::Overflow);
            },
        };
        proof {
            assert(ids@.take(j as int + 1).drop_last() =~= ids@.take(j as int));
        }
        total = next;
        j = j + 1;
    }
    proof {
        assert(ids@.take(ids@.len() as int) =~= ids@);
    }
    let keep = match FEE_DIVISOR.checked_sub(treasury_fee) {
        Some(v) => v,
        None => {
            return Err(EscrowError::Overflow);
        },
    };
    let scaled = match total.checked_mul(keep as u128) {
        Some(v) => v,
        None => {
            return Err(EscrowError::Overflow);
        },
    };
    Ok(scaled / (FEE_DIVISOR as u128))
}

/// Selling exactly the claims that a purchase minted quotes the purchase
/// price less the treasury fee: the ids' marginal prices telescope back
/// into the curve integral of the purchase.
pub proof fn lemma_buy_sell_round_trip(
    curve: CurveType,
    args: CurveArgs,
    one: nat,
    pre_mint: nat,
    supply: nat,
    ids: Seq<u128>,
    treasury_fee: nat,
)
    requires
        forall|i: int| 0 <= i < ids.len() ==> #[trigger] ids[i] as nat == pre_mint + supply + i,
    ensures
        spec_sell_gross(curve, args, one, pre_mint, ids) == spec_quote_buy(
            curve,
            args,
            one,
            supply,
            ids.len(),
        ),
        spec_quote_sell(spec_sell_gross(curve, args, one, pre_mint, ids), treasury_fee)
            == spec_quote_buy(curve, args, one, supply, ids.len()) * (FEE_DIVISOR - treasury_fee)
            / (FEE_DIVISOR as int),
    decreases ids.len(),
{
    if ids.len() == 0 {
    } else {
        lemma_buy_sell_round_trip(
            curve,
            args,
            one,
            pre_mint,
            supply,
            ids.drop_last(),
            treasury_fee,
        );
        assert(ids.last() as nat == pre_mint + supply + (ids.len() - 1));
        assert(ids.last() as nat >= pre_mint);
    }
}

} // verus!

use vstd::prelude::*;
use vstd::arithmetic::div_mod::lemma_basic_div;
use vstd::arithmetic::div_mod::lemma_div_multiples_vanish;
use vstd::arithmetic::div_mod::lemma_div_multiples_vanish_quotient;
use vstd::arithmetic::div_mod::lemma_fundamental_div_mod;
use vstd::arithmetic::div_mod::lemma_mod_bound;
use vstd::arithmetic::div_mod::lemma_mod_multiples_basic;
use vstd::arithmetic::div_mod::lemma_div_pos_is_pos;
use crate::errors::VaultError;

verus! {

/// Decimals of the volatile asset's native unit.
pub const SOL_DECIMALS: u8 = 9;

/// Decimals of the oracle's price.
pub const PRICE_DECIMALS: u8 = 8;

/// Decimals of the canonical USD unit.
pub const USD_DECIMALS: u8 = 6;

/// Native units times price units in one USD unit, for the volatile asset:
/// ten to the power 9 + 8 - 6.
pub const SOL_PRICE_SCALE: u128 = 100_000_000_000;

/// Ten to the power `e`.
pub open spec fn pow10(e: nat) -> nat
    decreases e,
{
    if e == 0 {
        1
    } else {
        10 * pow10((e - 1) as nat)
    }
}

/// A power of ten is at least one.
pub proof fn lemma_pow10_positive(e: nat)
    ensures
        pow10(e) >= 1,
    decreases e,
{
    if e > 0 {
        lemma_pow10_positive((e - 1) as nat);
    }
}

/// A larger exponent gives a power of ten that is no smaller.
pub proof fn lemma_pow10_increases(a: nat, b: nat)
    requires
        a <= b,
    ensures
        pow10(a) <= pow10(b),
    decreases b,
{
    if a < b {
        lemma_pow10_increases(a, (b - 1) as nat);
        lemma_pow10_positive((b - 1) as nat);
    }
}

/// Exponents add where powers of ten multiply.
pub proof fn lemma_pow10_adds(a: nat, b: nat)
    ensures
        pow10(a + b) == pow10(a) * pow10(b),
    decreases a,
{
    if a == 0 {
        assert(pow10(0) == 1);
        assert(a + b == b);
        assert(1 * pow10(b) == pow10(b));
    } else {
        lemma_pow10_adds((a - 1) as nat, b);
        let x = pow10((a - 1) as nat);
        let y = pow10(b);
        assert(pow10(a + b) == 10 * pow10((a + b - 1) as nat));
        assert((a + b - 1) as nat == (a - 1) as nat + b);
        assert(10 * (x * y) == (10 * x) * y) by (nonlinear_arith);
    }
}

/// Ten to the power 38 still fits in 128 bits; ten to the power 39 does not.
pub proof fn lemma_pow10_limits()
    ensures
        pow10(11) == 100_000_000_000,
        pow10(38) == 100_000_000_000_000_000_000_000_000_000_000_000_000,
        pow10(38) <= u128::MAX,
        pow10(39) > u128::MAX,
{
    reveal_with_fuel(pow10, 40);
}

/// Computes ten to the power `e`, or `None` when it does not fit in 128 bits.
pub fn checked_pow10(e: u32) -> (power: Option<u128>)
    ensures
        match power {
            Some(v) => v == pow10(e as nat),
            None => pow10(e as nat) > u128::MAX,
        },
{
    if e > 38 {
        proof {
            lemma_pow10_limits();
            lemma_pow10_increases(39, e as nat);
        }
        return None;
    }
    let mut power: u128 = 1;
    let mut i: u32 = 0;
    while i < e
        invariant
            i <= e <= 38,
            power == pow10(i as nat),
        decreases e - i,
    {
        proof {
            lemma_pow10_limits();
            lemma_pow10_increases((i + 1) as nat, 38);
        }
        power = power * 10;
        i = i + 1;
    }
    Some(power)
}

/// The USD value of `amount` native units at `price`: amount times price,
/// rescaled from `asset_decimals + price_decimals` to `usd_decimals`,
/// truncated. A price that is not positive gives zero.
pub open spec fn to_usd_spec(
    amount: u64,
    price: i128,
    asset_decimals: u8,
    price_decimals: u8,
    usd_decimals: u8,
) -> int {
    if price <= 0 {
        0
    } else {
        (amount * price * pow10(usd_decimals as nat)) / (pow10(
            (asset_decimals + price_decimals) as nat,
        ) as int)
    }
}

/// When `to_usd` fails: the 128-bit product of amount and price overflows,
/// or the value does not fit in 64 bits.
pub open spec fn to_usd_fails(
    amount: u64,
    price: i128,
    asset_decimals: u8,
    price_decimals: u8,
    usd_decimals: u8,
) -> bool {
    price > 0 && (amount * price > u128::MAX || to_usd_spec(
        amount,
        price,
        asset_decimals,
        price_decimals,
        usd_decimals,
    ) > u64::MAX)
}

/// The native amount worth `usd` at `price`: the inverse rescaling, divided
/// by the price, truncated. A price that is not positive gives zero.
pub open spec fn from_usd_spec(
    usd: u64,
    price: i128,
    asset_decimals: u8,
    price_decimals: u8,
    usd_decimals: u8,
) -> int {
    if price <= 0 {
        0
    } else {
        (usd * pow10((asset_decimals + price_decimals) as nat)) / (price * pow10(
            usd_decimals as nat,
        ))
    }
}

/// When `from_usd` fails: the rescaled 128-bit numerator overflows, or the
/// amount does not fit in 64 bits.
pub open spec fn from_usd_fails(
    usd: u64,
    price: i128,
    asset_decimals: u8,
    price_decimals: u8,
    usd_decimals: u8,
) -> bool {
    price > 0 && ((asset_decimals + price_decimals >= usd_decimals && usd * pow10(
        (asset_decimals + price_decimals - usd_decimals) as nat,
    ) > u128::MAX) || from_usd_spec(usd, price, asset_decimals, price_decimals, usd_decimals)
        > u64::MAX)
}

/// `x * 10^u / 10^(s + u)` is `x / 10^s`.
proof fn lemma_cancel_scale_down(x: int, s: nat, u: nat)
    requires
        x >= 0,
    ensures
        (x * pow10(u)) / (pow10(s + u) as int) == x / (pow10(s) as int),
{
    lemma_pow10_adds(s, u);
    lemma_pow10_positive(s);
    lemma_pow10_positive(u);
    let c = pow10(u) as int;
    let d = pow10(s) as int;
    lemma_div_multiples_vanish_quotient(c, x, d);
    assert(c * x == x * c) by (nonlinear_arith);
    assert(c * d == d * c) by (nonlinear_arith);
}

/// `x * 10^(a + t) / 10^a` is `x * 10^t`.
proof fn lemma_cancel_scale_up(x: int, a: nat, t: nat)
    requires
        x >= 0,
    ensures
        (x * pow10(a + t)) / (pow10(a) as int) == x * pow10(t),
{
    lemma_pow10_adds(a, t);
    lemma_pow10_positive(a);
    let d = pow10(a) as int;
    let y = x * pow10(t);
    assert(x * (d * pow10(t)) == d * y) by (nonlinear_arith)
        requires
            y == x * pow10(t),
    ;
    lemma_div_multiples_vanish(y, d);
}

/// With the powers of ten cancelled, [`to_usd_spec`] is one division or one
/// multiplication of the product of amount and price.
pub proof fn lemma_to_usd_rescaled(
    amount: u64,
    price: i128,
    asset_decimals: u8,
    price_decimals: u8,
    usd_decimals: u8,
)
    requires
        price > 0,
    ensures
        amount * price >= 0,
        asset_decimals + price_decimals >= usd_decimals ==> to_usd_spec(
            amount,
            price,
            asset_decimals,
            price_decimals,
            usd_decimals,
        ) == (amount * price) / (pow10(
            (asset_decimals + price_decimals - usd_decimals) as nat,
        ) as int) && pow10((asset_decimals + price_decimals - usd_decimals) as nat) >= 1,
        asset_decimals + price_decimals < usd_decimals ==> to_usd_spec(
            amount,
            price,
            asset_decimals,
            price_decimals,
            usd_decimals,
        ) == (amount * price) * pow10((usd_decimals - asset_decimals - price_decimals) as nat)
            >= amount * price,
{
    let from_decimals = (asset_decimals + price_decimals) as nat;
    let to_decimals = usd_decimals as nat;
    let exact = to_usd_spec(amount, price, asset_decimals, price_decimals, usd_decimals);
    let product = amount * price;
    assert(product >= 0) by (nonlinear_arith)
        requires
            product == amount * price,
            price > 0,
    ;
    if from_decimals >= to_decimals {
        let s = (from_decimals - to_decimals) as nat;
        lemma_cancel_scale_down(product, s, to_decimals);
        assert(s + to_decimals == from_decimals);
        lemma_pow10_positive(s);
    } else {
        let t = (to_decimals - from_decimals) as nat;
        lemma_cancel_scale_up(product, from_decimals, t);
        assert(from_decimals + t == to_decimals);
        lemma_pow10_positive(t);
        assert(product * pow10(t) >= product) by (nonlinear_arith)
            requires
                product >= 0,
                pow10(t) >= 1,
        ;
    }
}

/// With the powers of ten cancelled, [`from_usd_spec`] is one division: of
/// the rescaled value by the price, or of the value by the rescaled price.
pub proof fn lemma_from_usd_rescaled(
    usd: u64,
    price: i128,
    asset_decimals: u8,
    price_decimals: u8,
    usd_decimals: u8,
)
    requires
        price > 0,
    ensures
        asset_decimals + price_decimals >= usd_decimals ==> from_usd_spec(
            usd,
            price,
            asset_decimals,
            price_decimals,
            usd_decimals,
        ) == (usd * pow10((asset_decimals + price_decimals - usd_decimals) as nat)) / (
        price as int) && usd * pow10((asset_decimals + price_decimals - usd_decimals) as nat)
            >= usd,
        asset_decimals + price_decimals < usd_decimals ==> from_usd_spec(
            usd,
            price,
            asset_decimals,
            price_decimals,
            usd_decimals,
        ) == (usd as int) / (price * pow10(
            (usd_decimals - asset_decimals - price_decimals) as nat,
        )) && price * pow10((usd_decimals - asset_decimals - price_decimals) as nat) >= pow10(
            (usd_decimals - asset_decimals - price_decimals) as nat,
        ) >= 1,
{
    let from_decimals = (asset_decimals + price_decimals) as nat;
    let to_decimals = usd_decimals as nat;
    let exact = from_usd_spec(usd, price, asset_decimals, price_decimals, usd_decimals);
    if from_decimals >= to_decimals {
        let s = (from_decimals - to_decimals) as nat;
        let c = pow10(to_decimals) as int;
        let x = usd * pow10(s);
        lemma_pow10_adds(s, to_decimals);
        lemma_pow10_positive(s);
        lemma_pow10_positive(to_decimals);
        assert(s + to_decimals == from_decimals);
        assert(x >= 0) by (nonlinear_arith)
            requires
                x == usd * pow10(s),
        ;
        lemma_div_multiples_vanish_quotient(c, x, price as int);
        assert(c * x == usd * (pow10(s) * pow10(to_decimals))) by (nonlinear_arith)
            requires
                x == usd * pow10(s),
                c == pow10(to_decimals),
        ;
        assert(c * price == price * pow10(to_decimals)) by (nonlinear_arith)
            requires
                c == pow10(to_decimals),
        ;
        assert(exact == x / (price as int));
        assert(x >= usd) by (nonlinear_arith)
            requires
                x == usd * pow10(s),
                pow10(s) >= 1,
        ;
    } else {
        let t = (to_decimals - from_decimals) as nat;
        let divisor = price * pow10(t);
        let c = pow10(from_decimals) as int;
        lemma_pow10_adds(from_decimals, t);
        lemma_pow10_positive(from_decimals);
        lemma_pow10_positive(t);
        assert(from_decimals + t == to_decimals);
        assert(divisor >= pow10(t) && divisor >= 1) by (nonlinear_arith)
            requires
                divisor == price * pow10(t),
                price >= 1,
                pow10(t) >= 1,
        ;
        lemma_div_multiples_vanish_quotient(c, usd as int, divisor);
        assert(c * usd == usd * pow10(from_decimals)) by (nonlinear_arith)
            requires
                c == pow10(from_decimals),
        ;
        assert(c * divisor == price * (pow10(from_decimals) * pow10(t))) by (nonlinear_arith)
            requires
                c == pow10(from_decimals),
                divisor == price * pow10(t),
        ;
        assert(exact == usd as int / divisor);
    }
}

/// Converts a native amount to USD.
///
/// The product of amount and price is taken in 128 bits before anything is
/// divided, and every division truncates. A price that is zero or negative
/// gives zero. The only failure is overflow: of the 128-bit product, or of
/// the 64-bit result.
pub fn to_usd(
    amount: u64,
    price: i128,
    asset_decimals: u8,
    price_decimals: u8,
    usd_decimals: u8,
) -> (usd: Result<u64, VaultError>)
    ensures
        to_usd_fails(amount, price, asset_decimals, price_decimals, usd_decimals) ==> usd == Err::<
            u64,
            VaultError,
        >(VaultError::MathError),
        !to_usd_fails(amount, price, asset_decimals, price_decimals, usd_decimals) ==> usd == Ok::<
            u64,
            VaultError,
        >(to_usd_spec(amount, price, asset_decimals, price_decimals, usd_decimals) as u64),
{
    if price <= 0 {
        return Ok(0);
    }
    let from_decimals: u32 = asset_decimals as u32 + price_decimals as u32;
    let to_decimals: u32 = usd_decimals as u32;
    let ghost exact = to_usd_spec(amount, price, asset_decimals, price_decimals, usd_decimals);
    let ghost product = amount * price;
    proof {
        lemma_to_usd_rescaled(amount, price, asset_decimals, price_decimals, usd_decimals);
    }
    let widened = match (amount as u128).checked_mul(price as u128) {
        Some(p) => p,
        None => {
            return Err(VaultError::MathError);
        },
    };
    let scaled: u128 = if from_decimals >= to_decimals {
        match checked_pow10(from_decimals - to_decimals) {
            Some(divisor) => widened / divisor,
            None => {
                proof {
                    lemma_basic_div(
                        widened as int,
                        pow10((from_decimals - to_decimals) as nat) as int,
                    );
                }
                0
            },
        }
    } else {
        if widened == 0 {
            assert(product * pow10((to_decimals - from_decimals) as nat) == 0) by (nonlinear_arith)
                requires
                    product == 0,
            ;
            0
        } else {
            let factor = match checked_pow10(to_decimals - from_decimals) {
                Some(f) => f,
                None => {
                    proof {
                        let t = (to_decimals - from_decimals) as nat;
                        assert(product * pow10(t) >= pow10(t)) by (nonlinear_arith)
                            requires
                                product >= 1,
                        ;
                    }
                    return Err(VaultError::MathError);
                },
            };
            match widened.checked_mul(factor) {
                Some(v) => v,
                None => {
                    return Err(VaultError::MathError);
                },
            }
        }
    };
    assert(scaled == exact);
    if scaled > u64::MAX as u128 {
        return Err(VaultError::MathError);
    }
    Ok(scaled as u64)
}

/// Converts a USD value to a native amount: the inverse of [`to_usd`].
///
/// The numerator is rescaled in 128 bits before it is divided by the price,
/// and the division truncates. A price that is zero or negative gives zero,
/// and so does a divisor too large for 128 bits. The only failure is
/// overflow: of the 128-bit numerator, or of the 64-bit result.
pub fn from_usd(
    usd: u64,
    price: i128,
    asset_decimals: u8,
    price_decimals: u8,
    usd_decimals: u8,
) -> (amount: Result<u64, VaultError>)
    ensures
        from_usd_fails(usd, price, asset_decimals, price_decimals, usd_decimals) ==> amount
            == Err::<u64, VaultError>(VaultError::MathError),
        !from_usd_fails(usd, price, asset_decimals, price_decimals, usd_decimals) ==> amount
            == Ok::<u64, VaultError>(
            from_usd_spec(usd, price, asset_decimals, price_decimals, usd_decimals) as u64,
        ),
{
    if price <= 0 {
        return Ok(0);
    }
    let from_decimals: u32 = asset_decimals as u32 + price_decimals as u32;
    let to_decimals: u32 = usd_decimals as u32;
    let ghost exact = from_usd_spec(usd, price, asset_decimals, price_decimals, usd_decimals);
    let scaled: u128 = if from_decimals >= to_decimals {
        let ghost s = (from_decimals - to_decimals) as nat;
        proof {
            lemma_from_usd_rescaled(usd, price, asset_decimals, price_decimals, usd_decimals);
        }
        if usd == 0 {
            assert(0 * pow10(s) == 0);
            0
        } else {
            let factor = match checked_pow10(from_decimals - to_decimals) {
                Some(f) => f,
                None => {
                    assert(usd * pow10(s) >= pow10(s)) by (nonlinear_arith)
                        requires
                            usd >= 1,
                    ;
                    return Err(VaultError::MathError);
                },
            };
            match (usd as u128).checked_mul(factor) {
                Some(numerator) => numerator / (price as u128),
                None => {
                    return Err(VaultError::MathError);
                },
            }
        }
    } else {
        let ghost t = (to_decimals - from_decimals) as nat;
        let ghost divisor = price * pow10(t);
        proof {
            lemma_from_usd_rescaled(usd, price, asset_decimals, price_decimals, usd_decimals);
            if divisor > usd {
                lemma_basic_div(usd as int, divisor);
            }
        }
        match checked_pow10(to_decimals - from_decimals) {
            Some(factor) => match (price as u128).checked_mul(factor) {
                Some(d) => (usd as u128) / d,
                None => 0,
            },
            None => 0,
        }
    };
    assert(scaled == exact);
    if scaled > u64::MAX as u128 {
        return Err(VaultError::MathError);
    }
    Ok(scaled as u64)
}

/// The USD value (six decimals) of `sol_amount` (nine decimals) at
/// `sol_usd_price` (eight decimals): their product over ten to the eleventh,
/// truncated; zero where the price is not positive.
pub open spec fn sol_usd_value(sol_amount: u64, sol_usd_price: i128) -> int {
    if sol_usd_price <= 0 {
        0
    } else {
        (sol_amount * sol_usd_price) / (SOL_PRICE_SCALE as int)
    }
}

/// The volatile-asset amount (nine decimals) worth `usd_value` (six
/// decimals) at `sol_usd_price` (eight decimals): the value times ten to the
/// eleventh over the price, truncated; zero where the price is not positive.
pub open spec fn sol_amount_from_usd(usd_value: u64, sol_usd_price: i128) -> int {
    if sol_usd_price <= 0 {
        0
    } else {
        (usd_value * SOL_PRICE_SCALE) / (sol_usd_price as int)
    }
}

/// With the decimals of the volatile asset, the price and the USD unit, the
/// general conversions are the two formulas above, and the rescaled numerator
/// of the inverse always fits in 128 bits.
pub proof fn lemma_sol_conversions(amount: u64, price: i128)
    ensures
        to_usd_spec(amount, price, SOL_DECIMALS, PRICE_DECIMALS, USD_DECIMALS) == sol_usd_value(
            amount,
            price,
        ),
        from_usd_spec(amount, price, SOL_DECIMALS, PRICE_DECIMALS, USD_DECIMALS)
            == sol_amount_from_usd(amount, price),
        to_usd_fails(amount, price, SOL_DECIMALS, PRICE_DECIMALS, USD_DECIMALS) <==> price > 0 && (
        amount * price > u128::MAX || sol_usd_value(amount, price) > u64::MAX),
        from_usd_fails(amount, price, SOL_DECIMALS, PRICE_DECIMALS, USD_DECIMALS) <==> price > 0
            && sol_amount_from_usd(amount, price) > u64::MAX,
{
    lemma_pow10_limits();
    if price > 0 {
        let product = amount * price;
        assert(product >= 0) by (nonlinear_arith)
            requires
                product == amount * price,
                price > 0,
        ;
        lemma_cancel_scale_down(product, 11, 6);
        let c = pow10(6) as int;
        let x = amount * pow10(11);
        lemma_pow10_adds(11, 6);
        lemma_pow10_positive(6);
        lemma_div_multiples_vanish_quotient(c, x as int, price as int);
        assert(c * x == amount * (pow10(11) * pow10(6))) by (nonlinear_arith)
            requires
                x == amount * pow10(11),
                c == pow10(6),
        ;
        assert(c * price == price * pow10(6)) by (nonlinear_arith)
            requires
                c == pow10(6),
        ;
        assert(amount * pow10(11) <= u128::MAX) by (nonlinear_arith)
            requires
                amount <= u64::MAX,
                pow10(11) == 100_000_000_000,
        ;
    }
}

/// What a conversion there and back loses.
///
/// For a positive price `p`, a native amount `x` and the scale `s` (native
/// units times price units in one USD unit), converting to USD and back never
/// gives more than `x`. The loss, priced, is the sum of the two remainders
/// that the two truncations drop: it is less than one USD unit plus one
/// native unit.
pub proof fn lemma_round_trip(x: int, p: int, s: int)
    requires
        x >= 0,
        p > 0,
        s > 0,
    ensures
        ({
            let usd = (x * p) / s;
            let back = (usd * s) / p;
            &&& 0 <= usd
            &&& 0 <= back <= x
            &&& (x - back) * p == (x * p) % s + (usd * s) % p
            &&& (x - back) * p < s + p
        }),
{
    let usd = (x * p) / s;
    let back = (usd * s) / p;
    assert(x * p >= 0) by (nonlinear_arith)
        requires
            x >= 0,
            p > 0,
    ;
    lemma_fundamental_div_mod(x * p, s);
    lemma_mod_bound(x * p, s);
    lemma_div_pos_is_pos(x * p, s);
    assert(usd * s >= 0) by (nonlinear_arith)
        requires
            usd >= 0,
            s > 0,
    ;
    lemma_fundamental_div_mod(usd * s, p);
    lemma_mod_bound(usd * s, p);
    lemma_div_pos_is_pos(usd * s, p);
    let r1 = (x * p) % s;
    let r2 = (usd * s) % p;
    assert(s * usd == usd * s) by (nonlinear_arith);
    assert(x * p == p * back + r2 + r1);
    assert((x - back) * p == r1 + r2) by (nonlinear_arith)
        requires
            x * p == p * back + r2 + r1,
    ;
    assert(back <= x) by (nonlinear_arith)
        requires
            (x - back) * p == r1 + r2,
            r1 + r2 >= 0,
            p > 0,
    ;
}

/// The same, for a USD value converted to native units and back: the result
/// never exceeds the value, and falls short of it by less than the worth of
/// one native unit, rounded up to a whole USD unit.
pub proof fn lemma_round_trip_from_usd(usd: int, p: int, s: int)
    requires
        usd >= 0,
        p > 0,
        s > 0,
    ensures
        ({
            let native = (usd * s) / p;
            let back = (native * p) / s;
            &&& 0 <= native
            &&& 0 <= back <= usd
            &&& (usd - back) * s == (usd * s) % p + (native * p) % s
            &&& (usd - back) * s < p + s
        }),
{
    lemma_round_trip(usd, s, p);
}

/// The truncation bound of the general conversions.
///
/// Converting an amount to USD and back never gives more than the amount.
/// Where the USD unit is the finer one, nothing is lost. Otherwise, with `s`
/// the native units times price units in one USD unit, the loss, priced, is
/// less than `s` plus the price: less than one USD unit plus one native unit.
pub proof fn lemma_to_usd_and_back(
    amount: u64,
    price: i128,
    asset_decimals: u8,
    price_decimals: u8,
    usd_decimals: u8,
)
    requires
        to_usd_spec(amount, price, asset_decimals, price_decimals, usd_decimals) <= u64::MAX,
    ensures
        ({
            let usd = to_usd_spec(amount, price, asset_decimals, price_decimals, usd_decimals);
            let back = from_usd_spec(
                usd as u64,
                price,
                asset_decimals,
                price_decimals,
                usd_decimals,
            );
            &&& 0 <= usd
            &&& 0 <= back <= amount
            &&& price > 0 && asset_decimals + price_decimals < usd_decimals ==> back == amount
            &&& price > 0 && asset_decimals + price_decimals >= usd_decimals ==> (amount - back)
                * price < pow10((asset_decimals + price_decimals - usd_decimals) as nat) + price
        }),
{
    if price > 0 {
        let usd = to_usd_spec(amount, price, asset_decimals, price_decimals, usd_decimals);
        lemma_to_usd_rescaled(amount, price, asset_decimals, price_decimals, usd_decimals);
        if asset_decimals + price_decimals >= usd_decimals {
            let s = pow10((asset_decimals + price_decimals - usd_decimals) as nat) as int;
            lemma_round_trip(amount as int, price as int, s);
            lemma_from_usd_rescaled(
                usd as u64,
                price,
                asset_decimals,
                price_decimals,
                usd_decimals,
            );
        } else {
            let t = pow10((usd_decimals - asset_decimals - price_decimals) as nat) as int;
            let d = price * t;
            lemma_pow10_positive((usd_decimals - asset_decimals - price_decimals) as nat);
            assert(usd == d * amount && d >= 1) by (nonlinear_arith)
                requires
                    usd == (amount * price) * t,
                    d == price * t,
                    price >= 1,
                    t >= 1,
            ;
            lemma_from_usd_rescaled(
                usd as u64,
                price,
                asset_decimals,
                price_decimals,
                usd_decimals,
            );
            lemma_div_multiples_vanish(amount as int, d);
        }
    }
}

/// The truncation bound of the volatile asset's conversions.
///
/// Converting an amount to USD and back never gives more than the amount.
/// The loss, priced, is exactly what the two truncations drop, and less than
/// one USD unit plus one native unit.
pub proof fn lemma_sol_usd_and_back(sol_amount: u64, sol_usd_price: i128)
    requires
        sol_usd_price > 0,
        sol_usd_value(sol_amount, sol_usd_price) <= u64::MAX,
    ensures
        ({
            let usd = sol_usd_value(sol_amount, sol_usd_price);
            let back = sol_amount_from_usd(usd as u64, sol_usd_price);
            &&& 0 <= usd
            &&& 0 <= back <= sol_amount
            &&& (sol_amount - back) * sol_usd_price == (sol_amount * sol_usd_price) % (
            SOL_PRICE_SCALE as int) + (usd * SOL_PRICE_SCALE) % (sol_usd_price as int)
            &&& (sol_amount - back) * sol_usd_price < SOL_PRICE_SCALE + sol_usd_price
        }),
{
    lemma_round_trip(sol_amount as int, sol_usd_price as int, SOL_PRICE_SCALE as int);
}

/// The worth of the coarser of the two units, the native one and the USD
/// one, in native units times price units.
pub open spec fn coarser_unit(sol_usd_price: i128) -> int {
    if sol_usd_price >= SOL_PRICE_SCALE {
        sol_usd_price as int
    } else {
        SOL_PRICE_SCALE as int
    }
}

/// Less than one unit of the coarser precision is lost wherever the two
/// truncations together drop less than that.
///
/// They can drop more: seven native units at a price of 700.00000000 come
/// back as five, and the two that are lost are worth 1.4 USD units.
pub proof fn lemma_sol_usd_and_back_within_one_unit(sol_amount: u64, sol_usd_price: i128)
    requires
        sol_usd_price > 0,
        sol_usd_value(sol_amount, sol_usd_price) <= u64::MAX,
        (sol_amount * sol_usd_price) % (SOL_PRICE_SCALE as int) + (sol_usd_value(
            sol_amount,
            sol_usd_price,
        ) * SOL_PRICE_SCALE) % (sol_usd_price as int) < coarser_unit(sol_usd_price),
    ensures
        ({
            let usd = sol_usd_value(sol_amount, sol_usd_price);
            let back = sol_amount_from_usd(usd as u64, sol_usd_price);
            &&& 0 <= back <= sol_amount
            &&& (sol_amount - back) * sol_usd_price < coarser_unit(sol_usd_price)
        }),
{
    lemma_sol_usd_and_back(sol_amount, sol_usd_price);
}

/// Less than one USD unit is lost at every price that divides the scale,
/// such as one dollar even: there the way back drops nothing.
pub proof fn lemma_sol_usd_and_back_at_even_price(sol_amount: u64, sol_usd_price: i128)
    requires
        sol_usd_price > 0,
        SOL_PRICE_SCALE as int % sol_usd_price as int == 0,
        sol_usd_value(sol_amount, sol_usd_price) <= u64::MAX,
    ensures
        ({
            let usd = sol_usd_value(sol_amount, sol_usd_price);
            let back = sol_amount_from_usd(usd as u64, sol_usd_price);
            &&& 0 <= back <= sol_amount
            &&& (sol_amount - back) * sol_usd_price < SOL_PRICE_SCALE
        }),
{
    lemma_sol_usd_and_back(sol_amount, sol_usd_price);
    let usd = sol_usd_value(sol_amount, sol_usd_price);
    let scale = SOL_PRICE_SCALE as int;
    let price = sol_usd_price as int;
    let k = scale / price;
    lemma_fundamental_div_mod(scale, price);
    assert(usd * scale == (usd * k) * price) by (nonlinear_arith)
        requires
            scale == price * k,
    ;
    lemma_mod_multiples_basic(usd * k, price);
    lemma_mod_bound(sol_amount * sol_usd_price, scale);
}

} // verus!

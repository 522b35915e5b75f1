//! The constant-product AMM bundled with the bridge programs.
//!
//! A pool holds reserves of two tokens and a supply of liquidity tokens.
//! Deposits mint liquidity in proportion to the reserves, withdrawals burn
//! it pro rata, and swaps price against the product of the reserves, all in
//! the pool programs' 64/64 fixed-point arithmetic — which, on integer
//! inputs, is exact integer floor arithmetic (see `fixed_math`).  Each
//! operation is specified by a total transition function over the abstract
//! pool and proved to follow it; the conservation law for a deposit
//! followed by a full withdrawal is proved at the bottom.

use vstd::arithmetic::div_mod::lemma_div_is_ordered;
use vstd::arithmetic::div_mod::lemma_div_multiples_vanish;
use vstd::arithmetic::div_mod::lemma_fundamental_div_mod;
use vstd::arithmetic::mul::lemma_mul_inequality;
use vstd::prelude::*;

use crate::errors::ErrorType;
use crate::fixed_math::fixed_mul_div;
use crate::fixed_math::fixed_sqrt_prod;
use crate::keys::Key32;
use crate::state::TokenAccount;

verus! {

/// Liquidity locked forever at pool creation, so a pool can never be fully
/// drained by its first depositor.
pub const MINIMUM_LIQUIDITY: u64 = 100;

/// Basis-point denominator for swap fees.
pub const FEE_DENOMINATOR: u64 = 10000;

/// Exclusive bound on the integers the pools' fixed-point type can hold.
pub const FIXED_LIMIT: u64 = 0x8000_0000_0000_0000;

/// An AMM instance: an identity, its admin, and the swap fee in basis
/// points.
#[derive(Clone, Copy, Debug)]
pub struct Amm {
    /// The instance's identity.
    pub id: Key32,
    /// Identity allowed to administer the instance.
    pub admin: Key32,
    /// Swap fee in basis points; always below [`FEE_DENOMINATOR`].
    pub fee: u16,
}

/// A pool of one AMM instance: which instance it belongs to and which two
/// mints it trades.
#[derive(Clone, Copy, Debug)]
pub struct Pool {
    /// Address of the owning AMM instance.
    pub amm: Key32,
    /// First traded mint.
    pub mint_a: Key32,
    /// Second traded mint.
    pub mint_b: Key32,
}

/// The balances a pool owns: its two reserves and the circulating supply of
/// its liquidity token.
#[derive(Clone, Copy, PartialEq, Eq, Structural, Debug)]
pub struct PoolVaults {
    /// Reserve of token A.
    pub reserve_a: u64,
    /// Reserve of token B.
    pub reserve_b: u64,
    /// Circulating liquidity tokens (the locked minimum not included).
    pub lp_supply: u64,
}

/// A pool nobody has deposited into yet.
pub open spec fn pool_is_empty(v: PoolVaults) -> bool {
    v.reserve_a == 0 && v.reserve_b == 0 && v.lp_supply == 0
}

/// What a deposit took and minted.
#[derive(Clone, Copy, PartialEq, Eq, Structural, Debug)]
pub struct DepositReceipt {
    /// Units of token A moved into the pool.
    pub amount_a: u64,
    /// Units of token B moved into the pool.
    pub amount_b: u64,
    /// Liquidity tokens minted to the depositor.
    pub liquidity: u64,
}

/// The smaller of a requested amount and the balance available for it.
pub open spec fn spec_clamp(requested: u64, balance: u64) -> u64 {
    if requested > balance {
        balance
    } else {
        requested
    }
}

/// The integer square root: the largest `r` with `r * r <= n`.
pub open spec fn spec_isqrt(n: int) -> int
    decreases n,
{
    if n <= 0 {
        0
    } else {
        let r = spec_isqrt(n - 1);
        if (r + 1) * (r + 1) <= n {
            r + 1
        } else {
            r
        }
    }
}

/// `spec_isqrt` is the integer square root.
pub proof fn lemma_isqrt_bounds(n: int)
    requires
        n >= 0,
    ensures
        spec_isqrt(n) >= 0,
        spec_isqrt(n) * spec_isqrt(n) <= n,
        n < (spec_isqrt(n) + 1) * (spec_isqrt(n) + 1),
    decreases n,
{
    if n > 0 {
        lemma_isqrt_bounds(n - 1);
        let r = spec_isqrt(n - 1);
        if (r + 1) * (r + 1) <= n {
            assert(n - 1 < (r + 1) * (r + 1));
            assert((r + 2) * (r + 2) > (r + 1) * (r + 1)) by (nonlinear_arith)
                requires
                    r >= 0,
            ;
        }
    }
}

/// Any `r` within the square-root bounds is `spec_isqrt(n)`.
pub proof fn lemma_isqrt_unique(n: int, r: int)
    requires
        n >= 0,
        r >= 0,
        r * r <= n,
        n < (r + 1) * (r + 1),
    ensures
        r == spec_isqrt(n),
{
    lemma_isqrt_bounds(n);
    let s = spec_isqrt(n);
    if r < s {
        assert((r + 1) * (r + 1) <= s * s) by (nonlinear_arith)
            requires
                0 <= r + 1 <= s,
        ;
    } else if s < r {
        assert((s + 1) * (s + 1) <= r * r) by (nonlinear_arith)
            requires
                0 <= s + 1 <= r,
        ;
    }
}

/// Which deposit an input yields: the amounts actually taken (clamped to
/// the depositor's balances, then matched to the pool's current ratio), the
/// liquidity minted, and the pool afterwards — or why it is refused.
pub open spec fn deposit_spec(
    v: PoolVaults,
    bal_a: u64,
    bal_b: u64,
    amount_a: u64,
    amount_b: u64,
) -> Result<(PoolVaults, DepositReceipt), ErrorType> {
    if amount_a == 0 || amount_b == 0 {
        Err(ErrorType::DepositTooSmall)
    } else {
        let a0 = spec_clamp(amount_a, bal_a);
        let b0 = spec_clamp(amount_b, bal_b);
        if pool_is_empty(v) {
            let root = spec_isqrt(a0 as int * b0 as int);
            if root < MINIMUM_LIQUIDITY as int {
                Err(ErrorType::DepositTooSmall)
            } else {
                let liq = (root - MINIMUM_LIQUIDITY) as u64;
                Ok(
                    (
                        PoolVaults { reserve_a: a0, reserve_b: b0, lp_supply: liq },
                        DepositReceipt { amount_a: a0, amount_b: b0, liquidity: liq },
                    ),
                )
            }
        } else {
            let ideal_b = a0 as int * v.reserve_b as int / v.reserve_a as int;
            let a1 = if ideal_b <= b0 as int {
                a0 as int
            } else {
                b0 as int * v.reserve_a as int / v.reserve_b as int
            };
            let b1 = if ideal_b <= b0 as int {
                ideal_b
            } else {
                b0 as int
            };
            let liq_a = a1 * v.lp_supply as int / v.reserve_a as int;
            let liq_b = b1 * v.lp_supply as int / v.reserve_b as int;
            let liq = if liq_a <= liq_b {
                liq_a
            } else {
                liq_b
            };
            if liq == 0 {
                Err(ErrorType::DepositTooSmall)
            } else {
                Ok(
                    (
                        PoolVaults {
                            reserve_a: (v.reserve_a + a1) as u64,
                            reserve_b: (v.reserve_b + b1) as u64,
                            lp_supply: (v.lp_supply + liq) as u64,
                        },
                        DepositReceipt {
                            amount_a: a1 as u64,
                            amount_b: b1 as u64,
                            liquidity: liq as u64,
                        },
                    ),
                )
            }
        }
    }
}

/// The machine limits under which a deposit runs: everything the pool
/// programs feed to their fixed-point type stays below its width (they
/// abort the transaction otherwise), a non-empty pool has both reserves,
/// and the balances being credited stay within 64 bits.
pub open spec fn deposit_fits(
    v: PoolVaults,
    bal_a: u64,
    bal_b: u64,
    lp_bal: u64,
    amount_a: u64,
    amount_b: u64,
) -> bool {
    let a0 = spec_clamp(amount_a, bal_a) as int;
    let b0 = spec_clamp(amount_b, bal_b) as int;
    &&& a0 < FIXED_LIMIT
    &&& b0 < FIXED_LIMIT
    &&& v.reserve_a < FIXED_LIMIT
    &&& v.reserve_b < FIXED_LIMIT
    &&& v.lp_supply < FIXED_LIMIT
    &&& (pool_is_empty(v) ==> a0 * b0 < FIXED_LIMIT)
    &&& (!pool_is_empty(v) ==> {
        &&& v.reserve_a > 0
        &&& v.reserve_b > 0
        &&& a0 * v.reserve_b < FIXED_LIMIT
        &&& b0 * v.reserve_a < FIXED_LIMIT
        &&& a0 * v.lp_supply < FIXED_LIMIT
        &&& b0 * v.lp_supply < FIXED_LIMIT
    })
    &&& match deposit_spec(v, bal_a, bal_b, amount_a, amount_b) {
        Ok((v2, rec)) => {
            &&& v.reserve_a + rec.amount_a <= u64::MAX
            &&& v.reserve_b + rec.amount_b <= u64::MAX
            &&& v.lp_supply + rec.liquidity <= u64::MAX
            &&& lp_bal + rec.liquidity <= u64::MAX
        },
        Err(_) => true,
    }
}

/// Deposit liquidity: move matched amounts of both tokens into the pool
/// and mint liquidity tokens, exactly as [`deposit_spec`] says; on refusal
/// nothing moves.
pub fn deposit_liquidity(
    vaults: &mut PoolVaults,
    depositor_a: &mut TokenAccount,
    depositor_b: &mut TokenAccount,
    depositor_lp: &mut TokenAccount,
    amount_a: u64,
    amount_b: u64,
) -> (r: Result<DepositReceipt, ErrorType>)
    requires
        deposit_fits(
            *old(vaults),
            old(depositor_a).amount,
            old(depositor_b).amount,
            old(depositor_lp).amount,
            amount_a,
            amount_b,
        ),
    ensures
        match r {
            Ok(rec) => {
                &&& deposit_spec(
                    *old(vaults),
                    old(depositor_a).amount,
                    old(depositor_b).amount,
                    amount_a,
                    amount_b,
                ) == Ok::<_, ErrorType>((*final(vaults), rec))
                &&& final(depositor_a).amount == old(depositor_a).amount - rec.amount_a
                &&& final(depositor_b).amount == old(depositor_b).amount - rec.amount_b
                &&& final(depositor_lp).amount == old(depositor_lp).amount + rec.liquidity
            },
            Err(e) => {
                &&& deposit_spec(
                    *old(vaults),
                    old(depositor_a).amount,
                    old(depositor_b).amount,
                    amount_a,
                    amount_b,
                ) == Err::<(PoolVaults, DepositReceipt), ErrorType>(e)
                &&& *final(vaults) == *old(vaults)
                &&& *final(depositor_a) == *old(depositor_a)
                &&& *final(depositor_b) == *old(depositor_b)
                &&& *final(depositor_lp) == *old(depositor_lp)
            },
        },
{
    if amount_a == 0 || amount_b == 0 {
        return Err(ErrorType::DepositTooSmall);
    }
    let a0 = if amount_a > depositor_a.amount {
        depositor_a.amount
    } else {
        amount_a
    };
    let b0 = if amount_b > depositor_b.amount {
        depositor_b.amount
    } else {
        amount_b
    };
    let pool_creation = vaults.reserve_a == 0 && vaults.reserve_b == 0 && vaults.lp_supply == 0;

    if pool_creation {
        let root = fixed_sqrt_prod(a0, b0);
        proof {
            lemma_isqrt_unique(a0 as int * b0 as int, root as int);
        }
        if root < MINIMUM_LIQUIDITY {
            return Err(ErrorType::DepositTooSmall);
        }
        let liq = root - MINIMUM_LIQUIDITY;
        depositor_a.amount = depositor_a.amount - a0;
        depositor_b.amount = depositor_b.amount - b0;
        depositor_lp.amount = depositor_lp.amount + liq;
        vaults.reserve_a = a0;
        vaults.reserve_b = b0;
        vaults.lp_supply = liq;
        Ok(DepositReceipt { amount_a: a0, amount_b: b0, liquidity: liq })
    } else {
        let ideal_b = fixed_mul_div(a0, vaults.reserve_b, vaults.reserve_a);
        let a1: u64;
        let b1: u64;
        if ideal_b <= b0 {
            a1 = a0;
            b1 = ideal_b;
        } else {
            a1 = fixed_mul_div(b0, vaults.reserve_a, vaults.reserve_b);
            b1 = b0;
            proof {
                // the recomputed A side never exceeds what was offered
                lemma_amounts_shrink(
                    a0 as int,
                    b0 as int,
                    vaults.reserve_a as int,
                    vaults.reserve_b as int,
                );
            }
        }
        proof {
            lemma_mul_inequality(a1 as int, a0 as int, vaults.lp_supply as int);
            lemma_mul_inequality(b1 as int, b0 as int, vaults.lp_supply as int);
        }
        let liq_a = fixed_mul_div(a1, vaults.lp_supply, vaults.reserve_a);
        let liq_b = fixed_mul_div(b1, vaults.lp_supply, vaults.reserve_b);
        let liq = if liq_a <= liq_b {
            liq_a
        } else {
            liq_b
        };
        if liq == 0 {
            return Err(ErrorType::DepositTooSmall);
        }
        depositor_a.amount = depositor_a.amount - a1;
        depositor_b.amount = depositor_b.amount - b1;
        depositor_lp.amount = depositor_lp.amount + liq;
        vaults.reserve_a = vaults.reserve_a + a1;
        vaults.reserve_b = vaults.reserve_b + b1;
        vaults.lp_supply = vaults.lp_supply + liq;
        Ok(DepositReceipt { amount_a: a1, amount_b: b1, liquidity: liq })
    }
}

/// When the offered B is short of the pool ratio, the recomputed A amount
/// is at most the offered A, and the B side of a ratio match never exceeds
/// the offer it was computed from.
proof fn lemma_amounts_shrink(a0: int, b0: int, ra: int, rb: int)
    requires
        a0 >= 0,
        b0 >= 0,
        ra > 0,
        rb > 0,
        a0 * rb / ra > b0,
    ensures
        b0 * ra / rb <= a0,
{
    // from the hypothesis: a0 * rb / ra >= b0 + 1, so a0 * rb >= (b0 + 1) * ra > b0 * ra
    lemma_fundamental_div_mod(a0 * rb, ra);
    assert((b0 + 1) * ra <= (a0 * rb / ra) * ra) by (nonlinear_arith)
        requires
            ra > 0,
            b0 + 1 <= a0 * rb / ra,
    ;
    assert((a0 * rb / ra) * ra <= a0 * rb) by (nonlinear_arith)
        requires
            ra > 0,
            a0 * rb == ra * (a0 * rb / ra) + (a0 * rb) % ra,
            (a0 * rb) % ra >= 0,
    ;
    assert(b0 * ra < a0 * rb) by (nonlinear_arith)
        requires
            (b0 + 1) * ra <= a0 * rb,
            ra > 0,
    ;
    // hence b0 * ra / rb <= a0
    assert(b0 * ra <= a0 * rb - 1);
    lemma_div_is_ordered(b0 * ra, a0 * rb - 1, rb);
    lemma_fundamental_div_mod(a0 * rb - 1, rb);
    vstd::arithmetic::div_mod::lemma_mod_bound(a0 * rb - 1, rb);
    assert((a0 * rb - 1) / rb <= a0) by (nonlinear_arith)
        requires
            rb > 0,
            a0 >= 0,
            a0 * rb - 1 == rb * ((a0 * rb - 1) / rb) + (a0 * rb - 1) % rb,
            0 <= (a0 * rb - 1) % rb < rb,
    ;
}

/// Which swap an input yields: the input actually taken (clamped to the
/// trader's balance), the output priced against the constant product after
/// the fee, and the pool afterwards — or why it is refused.
pub open spec fn swap_spec(
    fee: u16,
    v: PoolVaults,
    bal_a: u64,
    bal_b: u64,
    swap_a: bool,
    input_amount: u64,
    min_output_amount: u64,
) -> Result<(PoolVaults, u64, u64), ErrorType> {
    let input = spec_clamp(input_amount, if swap_a { bal_a } else { bal_b }) as int;
    let taxed = input - input * fee as int / FEE_DENOMINATOR as int;
    let rin = if swap_a { v.reserve_a } else { v.reserve_b } as int;
    let rout = if swap_a { v.reserve_b } else { v.reserve_a } as int;
    let output = taxed * rout / (rin + taxed);
    if output < min_output_amount as int {
        Err(ErrorType::OutputTooSmall)
    } else if rin * rout > (rin + input) * (rout - output) {
        Err(ErrorType::InvariantViolated)
    } else {
        let v2 = if swap_a {
            PoolVaults {
                reserve_a: (v.reserve_a + input) as u64,
                reserve_b: (v.reserve_b - output) as u64,
                lp_supply: v.lp_supply,
            }
        } else {
            PoolVaults {
                reserve_a: (v.reserve_a - output) as u64,
                reserve_b: (v.reserve_b + input) as u64,
                lp_supply: v.lp_supply,
            }
        };
        Ok((v2, input as u64, output as u64))
    }
}

/// The machine limits under which a swap runs: a live pool, fee and
/// fixed-point operands in range, and headroom on the balances credited.
pub open spec fn swap_fits(
    fee: u16,
    v: PoolVaults,
    bal_a: u64,
    bal_b: u64,
    swap_a: bool,
    input_amount: u64,
) -> bool {
    let input = spec_clamp(input_amount, if swap_a { bal_a } else { bal_b }) as int;
    let taxed = input - input * fee as int / FEE_DENOMINATOR as int;
    let rin = if swap_a { v.reserve_a } else { v.reserve_b } as int;
    let rout = if swap_a { v.reserve_b } else { v.reserve_a } as int;
    let bal_out = if swap_a { bal_b } else { bal_a } as int;
    &&& (fee as int) < FEE_DENOMINATOR as int
    &&& rin > 0
    &&& rout > 0
    &&& input * fee as int <= u64::MAX
    &&& input < FIXED_LIMIT
    &&& rout < FIXED_LIMIT
    &&& rin + taxed < FIXED_LIMIT
    &&& taxed * rout < FIXED_LIMIT
    &&& rin + input <= u64::MAX
    &&& (rin + input) * rout <= u64::MAX
    &&& bal_out + rout <= u64::MAX
}

/// Swap a fixed input of one token for the other, exactly as [`swap_spec`]
/// says; on refusal nothing moves.  The fee stays in the pool, so the
/// product of the reserves never decreases.
pub fn swap_tokens_for_tokens(
    amm: &Amm,
    vaults: &mut PoolVaults,
    trader_a: &mut TokenAccount,
    trader_b: &mut TokenAccount,
    swap_a: bool,
    input_amount: u64,
    min_output_amount: u64,
) -> (r: Result<u64, ErrorType>)
    requires
        swap_fits(
            amm.fee,
            *old(vaults),
            old(trader_a).amount,
            old(trader_b).amount,
            swap_a,
            input_amount,
        ),
    ensures
        match r {
            Ok(output) => {
                &&& swap_spec(
                    amm.fee,
                    *old(vaults),
                    old(trader_a).amount,
                    old(trader_b).amount,
                    swap_a,
                    input_amount,
                    min_output_amount,
                ) matches Ok((v2, input, out)) && v2 == *final(vaults) && out == output && {
                    if swap_a {
                        &&& final(trader_a).amount == old(trader_a).amount - input
                        &&& final(trader_b).amount == old(trader_b).amount + output
                    } else {
                        &&& final(trader_b).amount == old(trader_b).amount - input
                        &&& final(trader_a).amount == old(trader_a).amount + output
                    }
                }
            },
            Err(e) => {
                &&& swap_spec(
                    amm.fee,
                    *old(vaults),
                    old(trader_a).amount,
                    old(trader_b).amount,
                    swap_a,
                    input_amount,
                    min_output_amount,
                ) == Err::<(PoolVaults, u64, u64), ErrorType>(e)
                &&& *final(vaults) == *old(vaults)
                &&& *final(trader_a) == *old(trader_a)
                &&& *final(trader_b) == *old(trader_b)
            },
        },
{
    let bal_in = if swap_a {
        trader_a.amount
    } else {
        trader_b.amount
    };
    let input = if input_amount > bal_in {
        bal_in
    } else {
        input_amount
    };
    proof {
        let i = input as int;
        let f = amm.fee as int;
        let d = FEE_DENOMINATOR as int;
        assert(i * f <= i * d) by (nonlinear_arith)
            requires
                i >= 0,
                0 <= f <= d,
        ;
        lemma_div_is_ordered(i * f, i * d, d);
        lemma_div_multiples_vanish(i, d);
        assert(i * d == d * i) by (nonlinear_arith);
    }
    let taxed_input = input - input * (amm.fee as u64) / FEE_DENOMINATOR;
    let rin = if swap_a {
        vaults.reserve_a
    } else {
        vaults.reserve_b
    };
    let rout = if swap_a {
        vaults.reserve_b
    } else {
        vaults.reserve_a
    };

    let output = fixed_mul_div(taxed_input, rout, rin + taxed_input);
    proof {
        lemma_output_below_reserve(taxed_input as int, rin as int, rout as int, output as int);
    }
    if output < min_output_amount {
        return Err(ErrorType::OutputTooSmall);
    }

    proof {
        lemma_mul_inequality(rin as int, rin + input, rout as int);
        assert((rin + input) * (rout - output) <= (rin + input) * rout) by (nonlinear_arith)
            requires
                rin + input >= 0,
                0 <= output <= rout,
        ;
    }
    let invariant_before = rin * rout;
    let invariant_after = (rin + input) * (rout - output);
    if invariant_before > invariant_after {
        return Err(ErrorType::InvariantViolated);
    }

    if swap_a {
        trader_a.amount = trader_a.amount - input;
        trader_b.amount = trader_b.amount + output;
        vaults.reserve_a = vaults.reserve_a + input;
        vaults.reserve_b = vaults.reserve_b - output;
    } else {
        trader_b.amount = trader_b.amount - input;
        trader_a.amount = trader_a.amount + output;
        vaults.reserve_b = vaults.reserve_b + input;
        vaults.reserve_a = vaults.reserve_a - output;
    }
    Ok(output)
}

/// A swap's output never reaches the far reserve: the input side of the
/// quotient is strictly smaller than its denominator.
proof fn lemma_output_below_reserve(taxed: int, rin: int, rout: int, output: int)
    requires
        taxed >= 0,
        rin > 0,
        rout > 0,
        output == taxed * rout / (rin + taxed),
    ensures
        0 <= output < rout,
{
    lemma_fundamental_div_mod(taxed * rout, rin + taxed);
    vstd::arithmetic::div_mod::lemma_mod_bound(taxed * rout, rin + taxed);
    vstd::arithmetic::div_mod::lemma_div_pos_is_pos(taxed * rout, rin + taxed);
    assert(taxed * rout >= 0) by (nonlinear_arith)
        requires
            taxed >= 0,
            rout > 0,
    ;
    if output >= rout {
        assert(false) by (nonlinear_arith)
            requires
                rin > 0,
                rout > 0,
                taxed >= 0,
                output >= rout,
                taxed * rout == (rin + taxed) * output + (taxed * rout) % (rin + taxed),
                (taxed * rout) % (rin + taxed) >= 0,
        ;
    }
}

/// Which withdrawal a liquidity burn yields: both reserves pro rata to the
/// burned share, against the supply with the locked minimum counted back
/// in — or why it is refused.
pub open spec fn withdraw_spec(v: PoolVaults, lp_bal: u64, amount: u64) -> Result<
    (PoolVaults, u64, u64),
    ErrorType,
> {
    if lp_bal < amount {
        Err(ErrorType::InsufficientLiquidity)
    } else {
        let supply = v.lp_supply as int + MINIMUM_LIQUIDITY as int;
        let out_a = amount as int * v.reserve_a as int / supply;
        let out_b = amount as int * v.reserve_b as int / supply;
        if out_a == 0 || out_b == 0 {
            Err(ErrorType::ZeroWithdrawal)
        } else {
            Ok(
                (
                    PoolVaults {
                        reserve_a: (v.reserve_a - out_a) as u64,
                        reserve_b: (v.reserve_b - out_b) as u64,
                        lp_supply: (v.lp_supply - amount) as u64,
                    },
                    out_a as u64,
                    out_b as u64,
                ),
            )
        }
    }
}

/// The machine limits under which a withdrawal runs: the caller's
/// liquidity is part of the circulating supply, fixed-point operands stay
/// in range, and the balances credited have headroom.
pub open spec fn withdraw_fits(v: PoolVaults, lp_bal: u64, bal_a: u64, bal_b: u64, amount: u64) -> bool {
    &&& lp_bal <= v.lp_supply
    &&& v.reserve_a < FIXED_LIMIT
    &&& v.reserve_b < FIXED_LIMIT
    &&& (v.lp_supply as int + MINIMUM_LIQUIDITY as int) < FIXED_LIMIT
    &&& (amount as int * v.reserve_a as int) < FIXED_LIMIT
    &&& (amount as int * v.reserve_b as int) < FIXED_LIMIT
    &&& bal_a + v.reserve_a <= u64::MAX
    &&& bal_b + v.reserve_b <= u64::MAX
}

/// Burn liquidity tokens and pay out both reserves pro rata, exactly as
/// [`withdraw_spec`] says; on refusal nothing moves.
pub fn withdraw_liquidity(
    vaults: &mut PoolVaults,
    depositor_lp: &mut TokenAccount,
    depositor_a: &mut TokenAccount,
    depositor_b: &mut TokenAccount,
    amount: u64,
) -> (r: Result<(u64, u64), ErrorType>)
    requires
        withdraw_fits(
            *old(vaults),
            old(depositor_lp).amount,
            old(depositor_a).amount,
            old(depositor_b).amount,
            amount,
        ),
    ensures
        match r {
            Ok((out_a, out_b)) => {
                &&& withdraw_spec(*old(vaults), old(depositor_lp).amount, amount) == Ok::<
                    _,
                    ErrorType,
                >((*final(vaults), out_a, out_b))
                &&& final(depositor_lp).amount == old(depositor_lp).amount - amount
                &&& final(depositor_a).amount == old(depositor_a).amount + out_a
                &&& final(depositor_b).amount == old(depositor_b).amount + out_b
            },
            Err(e) => {
                &&& withdraw_spec(*old(vaults), old(depositor_lp).amount, amount) == Err::<
                    (PoolVaults, u64, u64),
                    ErrorType,
                >(e)
                &&& *final(vaults) == *old(vaults)
                &&& *final(depositor_lp) == *old(depositor_lp)
                &&& *final(depositor_a) == *old(depositor_a)
                &&& *final(depositor_b) == *old(depositor_b)
            },
        },
{
    if depositor_lp.amount < amount {
        return Err(ErrorType::InsufficientLiquidity);
    }
    let supply = vaults.lp_supply + MINIMUM_LIQUIDITY;
    let out_a = fixed_mul_div(amount, vaults.reserve_a, supply);
    let out_b = fixed_mul_div(amount, vaults.reserve_b, supply);
    if out_a == 0 || out_b == 0 {
        return Err(ErrorType::ZeroWithdrawal);
    }
    proof {
        lemma_payout_below_reserve(
            amount as int,
            vaults.lp_supply as int,
            vaults.reserve_a as int,
            out_a as int,
        );
        lemma_payout_below_reserve(
            amount as int,
            vaults.lp_supply as int,
            vaults.reserve_b as int,
            out_b as int,
        );
    }
    depositor_lp.amount = depositor_lp.amount - amount;
    depositor_a.amount = depositor_a.amount + out_a;
    depositor_b.amount = depositor_b.amount + out_b;
    vaults.reserve_a = vaults.reserve_a - out_a;
    vaults.reserve_b = vaults.reserve_b - out_b;
    vaults.lp_supply = vaults.lp_supply - amount;
    Ok((out_a, out_b))
}

/// A pro-rata payout never exceeds the reserve it is paid from: the burned
/// amount is below the supply the quotient divides by.
proof fn lemma_payout_below_reserve(amount: int, lp_supply: int, reserve: int, out: int)
    requires
        0 <= amount <= lp_supply,
        reserve >= 0,
        out == amount * reserve / (lp_supply + MINIMUM_LIQUIDITY as int),
    ensures
        0 <= out <= reserve,
{
    let supply = lp_supply + MINIMUM_LIQUIDITY as int;
    lemma_mul_inequality(amount, supply, reserve);
    lemma_div_is_ordered(amount * reserve, supply * reserve, supply);
    lemma_div_multiples_vanish(reserve, supply);
    assert(supply * reserve == reserve * supply) by (nonlinear_arith);
    vstd::arithmetic::div_mod::lemma_div_pos_is_pos(amount * reserve, supply);
    assert(amount * reserve >= 0) by (nonlinear_arith)
        requires
            amount >= 0,
            reserve >= 0,
    ;
}

/// Law: deposits and withdrawals conserve the pool.  A deposit followed
/// immediately by a withdrawal of all the liquidity it minted returns at
/// most the deposited amounts: rounding may lose a few base units to the
/// pool, never mint value out of it.  (A withdrawal refused as too small
/// returns nothing at all.)
pub proof fn lemma_deposit_withdraw_conservation(
    v: PoolVaults,
    bal_a: u64,
    bal_b: u64,
    lp_bal: u64,
    amount_a: u64,
    amount_b: u64,
)
    requires
        deposit_fits(v, bal_a, bal_b, lp_bal, amount_a, amount_b),
        deposit_spec(v, bal_a, bal_b, amount_a, amount_b) is Ok,
    ensures
        ({
            let (v2, rec) = deposit_spec(v, bal_a, bal_b, amount_a, amount_b)->Ok_0;
            match withdraw_spec(v2, rec.liquidity, rec.liquidity) {
                Ok((v3, out_a, out_b)) => out_a <= rec.amount_a && out_b <= rec.amount_b,
                Err(_) => true,
            }
        }),
{
    let a0 = spec_clamp(amount_a, bal_a) as int;
    let b0 = spec_clamp(amount_b, bal_b) as int;
    let (v2, rec) = deposit_spec(v, bal_a, bal_b, amount_a, amount_b)->Ok_0;
    let m = MINIMUM_LIQUIDITY as int;
    if pool_is_empty(v) {
        let root = spec_isqrt(a0 * b0);
        lemma_isqrt_bounds(a0 * b0);
        let liq = root - m;
        assert(root >= m);
        assert(root < 0x1_0000_0000) by (nonlinear_arith)
            requires
                root >= 0,
                root * root <= a0 * b0,
                a0 * b0 < 0x8000_0000_0000_0000,
        ;
        // the withdrawal divides by exactly the original root
        assert(v2.lp_supply as int + m == root);
        lemma_prorata_bound(liq, a0, root);
        lemma_prorata_bound(liq, b0, root);
    } else {
        let ra = v.reserve_a as int;
        let rb = v.reserve_b as int;
        let s = v.lp_supply as int;
        let ideal_b = a0 * rb / ra;
        let a1 = if ideal_b <= b0 {
            a0
        } else {
            b0 * ra / rb
        };
        let b1 = if ideal_b <= b0 {
            ideal_b
        } else {
            b0
        };
        let liq_a = a1 * s / ra;
        let liq_b = b1 * s / rb;
        let liq = if liq_a <= liq_b {
            liq_a
        } else {
            liq_b
        };
        assert(rec.amount_a == a1 && rec.amount_b == b1 && rec.liquidity == liq);
        assert(v2.lp_supply as int + m == s + liq + m);
        // liq * ra <= a1 * s, since liq <= floor(a1 * s / ra)
        lemma_fundamental_div_mod(a1 * s, ra);
        vstd::arithmetic::div_mod::lemma_mod_bound(a1 * s, ra);
        assert(liq * ra <= a1 * s) by (nonlinear_arith)
            requires
                ra > 0,
                liq <= a1 * s / ra,
                a1 * s == ra * (a1 * s / ra) + (a1 * s) % ra,
                (a1 * s) % ra >= 0,
        ;
        lemma_fundamental_div_mod(b1 * s, rb);
        vstd::arithmetic::div_mod::lemma_mod_bound(b1 * s, rb);
        assert(liq * rb <= b1 * s) by (nonlinear_arith)
            requires
                rb > 0,
                liq <= b1 * s / rb,
                b1 * s == rb * (b1 * s / rb) + (b1 * s) % rb,
                (b1 * s) % rb >= 0,
        ;
        // hence each payout numerator is bounded by its deposit share
        assert(liq * (ra + a1) <= a1 * (s + liq + m)) by (nonlinear_arith)
            requires
                a1 >= 0,
                liq >= 0,
                m >= 0,
                liq * ra <= a1 * s,
        ;
        assert(liq * (rb + b1) <= b1 * (s + liq + m)) by (nonlinear_arith)
            requires
                b1 >= 0,
                liq >= 0,
                m >= 0,
                liq * rb <= b1 * s,
        ;
        lemma_div_le_multiple(liq * (ra + a1), a1, s + liq + m);
        lemma_div_le_multiple(liq * (rb + b1), b1, s + liq + m);
        assert(v2.reserve_a as int == ra + a1 && v2.reserve_b as int == rb + b1);
    }
}

/// A share of at most the whole, divided by the whole, pays out at most
/// the reserve: `liq <= whole` gives `liq * x / whole <= x`.
proof fn lemma_prorata_bound(liq: int, x: int, whole: int)
    requires
        0 <= liq <= whole,
        0 < whole,
        x >= 0,
    ensures
        liq * x / whole <= x,
{
    assert(liq * x <= x * whole) by (nonlinear_arith)
        requires
            0 <= liq <= whole,
            x >= 0,
    ;
    lemma_div_le_multiple(liq * x, x, whole);
}

/// If `n <= q * d` with `d > 0` and `q >= 0`, then `n / d <= q`.
proof fn lemma_div_le_multiple(n: int, q: int, d: int)
    requires
        d > 0,
        q >= 0,
        n <= q * d,
    ensures
        n / d <= q,
{
    lemma_div_is_ordered(n, q * d, d);
    lemma_div_multiples_vanish(q, d);
    assert(q * d == d * q) by (nonlinear_arith);
}

/// Create an AMM instance.  The fee must be below the basis-point
/// denominator.
pub fn create_amm(id: Key32, admin: Key32, fee: u16) -> (r: Result<Amm, ErrorType>)
    ensures
        match r {
            Ok(amm) => {
                &&& (fee as u64) < FEE_DENOMINATOR
                &&& amm.id == id
                &&& amm.admin == admin
                &&& amm.fee == fee
            },
            Err(e) => {
                &&& e == ErrorType::InvalidFee
                &&& (fee as u64) >= FEE_DENOMINATOR
            },
        },
{
    if (fee as u64) < FEE_DENOMINATOR {
        Ok(Amm { id: id, admin: admin, fee: fee })
    } else {
        Err(ErrorType::InvalidFee)
    }
}

/// Create a pool of an AMM instance for a pair of mints.
pub fn create_pool(amm_key: Key32, mint_a: Key32, mint_b: Key32) -> (p: Pool)
    ensures
        p.amm == amm_key,
        p.mint_a == mint_a,
        p.mint_b == mint_b,
{
    Pool { amm: amm_key, mint_a: mint_a, mint_b: mint_b }
}

} // verus!

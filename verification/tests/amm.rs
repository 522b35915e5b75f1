use bridging_solana::amm::create_amm;
use bridging_solana::amm::create_pool;
use bridging_solana::amm::deposit_liquidity;
use bridging_solana::amm::swap_tokens_for_tokens;
use bridging_solana::amm::withdraw_liquidity;
use bridging_solana::amm::PoolVaults;
use bridging_solana::errors::ErrorType;
use bridging_solana::state::TokenAccount;

fn key(tag: u8) -> [u8; 32] {
    let mut k = [0u8; 32];
    k[0] = tag;
    k
}

#[test]
fn amm_rejects_fee_at_denominator() {
    assert_eq!(create_amm(key(1), key(2), 10000).unwrap_err(), ErrorType::InvalidFee);
    let amm = create_amm(key(1), key(2), 30).unwrap();
    assert_eq!(amm.fee, 30);
    assert_eq!(amm.id, key(1));
    assert_eq!(amm.admin, key(2));
}

#[test]
fn pool_remembers_its_mints() {
    let p = create_pool(key(1), key(2), key(3));
    assert_eq!(p.amm, key(1));
    assert_eq!(p.mint_a, key(2));
    assert_eq!(p.mint_b, key(3));
}

#[test]
fn first_deposit_mints_the_geometric_mean() {
    let mut vaults = PoolVaults { reserve_a: 0, reserve_b: 0, lp_supply: 0 };
    let mut dep_a = TokenAccount { amount: 100_000 };
    let mut dep_b = TokenAccount { amount: 40_000 };
    let mut dep_lp = TokenAccount { amount: 0 };

    let rec = deposit_liquidity(&mut vaults, &mut dep_a, &mut dep_b, &mut dep_lp, 100_000, 40_000)
        .unwrap();
    // isqrt(100_000 * 40_000) = 63_245, minus the locked minimum
    assert_eq!(rec.liquidity, 63_145);
    assert_eq!(rec.amount_a, 100_000);
    assert_eq!(rec.amount_b, 40_000);
    assert_eq!(vaults, PoolVaults { reserve_a: 100_000, reserve_b: 40_000, lp_supply: 63_145 });
    assert_eq!(dep_a.amount, 0);
    assert_eq!(dep_b.amount, 0);
    assert_eq!(dep_lp.amount, 63_145);
}

#[test]
fn first_deposit_of_a_perfect_square_is_exact() {
    let mut vaults = PoolVaults { reserve_a: 0, reserve_b: 0, lp_supply: 0 };
    let mut dep_a = TokenAccount { amount: 40_000 };
    let mut dep_b = TokenAccount { amount: 40_000 };
    let mut dep_lp = TokenAccount { amount: 0 };

    let rec = deposit_liquidity(&mut vaults, &mut dep_a, &mut dep_b, &mut dep_lp, 40_000, 40_000)
        .unwrap();
    assert_eq!(rec.liquidity, 39_900);
}

#[test]
fn tiny_first_deposit_is_rejected() {
    let mut vaults = PoolVaults { reserve_a: 0, reserve_b: 0, lp_supply: 0 };
    let mut dep_a = TokenAccount { amount: 50 };
    let mut dep_b = TokenAccount { amount: 50 };
    let mut dep_lp = TokenAccount { amount: 0 };

    let r = deposit_liquidity(&mut vaults, &mut dep_a, &mut dep_b, &mut dep_lp, 50, 50);
    assert_eq!(r.unwrap_err(), ErrorType::DepositTooSmall);
    assert_eq!(vaults, PoolVaults { reserve_a: 0, reserve_b: 0, lp_supply: 0 });
    assert_eq!(dep_a.amount, 50);
}

#[test]
fn zero_deposit_is_rejected() {
    let mut vaults = PoolVaults { reserve_a: 10, reserve_b: 10, lp_supply: 10 };
    let mut dep_a = TokenAccount { amount: 50 };
    let mut dep_b = TokenAccount { amount: 50 };
    let mut dep_lp = TokenAccount { amount: 0 };
    let r = deposit_liquidity(&mut vaults, &mut dep_a, &mut dep_b, &mut dep_lp, 0, 50);
    assert_eq!(r.unwrap_err(), ErrorType::DepositTooSmall);
}

#[test]
fn later_deposit_is_matched_to_the_pool_ratio() {
    let mut vaults = PoolVaults { reserve_a: 100_000, reserve_b: 40_000, lp_supply: 63_145 };
    let mut dep_a = TokenAccount { amount: 50_000 };
    let mut dep_b = TokenAccount { amount: 50_000 };
    let mut dep_lp = TokenAccount { amount: 0 };

    let rec = deposit_liquidity(&mut vaults, &mut dep_a, &mut dep_b, &mut dep_lp, 50_000, 50_000)
        .unwrap();
    // the offered B exceeds the ratio, so B is cut to 50_000 * 40/100
    assert_eq!(rec.amount_a, 50_000);
    assert_eq!(rec.amount_b, 20_000);
    assert_eq!(rec.liquidity, 31_572);
    assert_eq!(vaults, PoolVaults { reserve_a: 150_000, reserve_b: 60_000, lp_supply: 94_717 });
    assert_eq!(dep_a.amount, 0);
    assert_eq!(dep_b.amount, 30_000);
    assert_eq!(dep_lp.amount, 31_572);
}

#[test]
fn withdraw_pays_out_pro_rata() {
    let mut vaults = PoolVaults { reserve_a: 150_000, reserve_b: 60_000, lp_supply: 94_717 };
    let mut dep_lp = TokenAccount { amount: 31_572 };
    let mut dep_a = TokenAccount { amount: 0 };
    let mut dep_b = TokenAccount { amount: 30_000 };

    let (out_a, out_b) =
        withdraw_liquidity(&mut vaults, &mut dep_lp, &mut dep_a, &mut dep_b, 31_572).unwrap();
    assert_eq!(out_a, 49_946);
    assert_eq!(out_b, 19_978);
    assert_eq!(dep_lp.amount, 0);
    assert_eq!(dep_a.amount, 49_946);
    assert_eq!(dep_b.amount, 49_978);
    assert_eq!(vaults.lp_supply, 63_145);
}

#[test]
fn deposit_then_full_withdraw_never_gains() {
    // conservation: a deposit followed by withdrawing all minted liquidity
    // returns at most the deposited amounts
    let mut vaults = PoolVaults { reserve_a: 100_000, reserve_b: 40_000, lp_supply: 63_145 };
    let mut dep_a = TokenAccount { amount: 50_000 };
    let mut dep_b = TokenAccount { amount: 50_000 };
    let mut dep_lp = TokenAccount { amount: 0 };

    let rec = deposit_liquidity(&mut vaults, &mut dep_a, &mut dep_b, &mut dep_lp, 50_000, 50_000)
        .unwrap();
    let (out_a, out_b) =
        withdraw_liquidity(&mut vaults, &mut dep_lp, &mut dep_a, &mut dep_b, rec.liquidity)
            .unwrap();
    assert!(out_a <= rec.amount_a);
    assert!(out_b <= rec.amount_b);
}

#[test]
fn withdraw_more_than_held_is_rejected() {
    let mut vaults = PoolVaults { reserve_a: 1_000, reserve_b: 1_000, lp_supply: 900 };
    let mut dep_lp = TokenAccount { amount: 10 };
    let mut dep_a = TokenAccount { amount: 0 };
    let mut dep_b = TokenAccount { amount: 0 };
    let r = withdraw_liquidity(&mut vaults, &mut dep_lp, &mut dep_a, &mut dep_b, 11);
    assert_eq!(r.unwrap_err(), ErrorType::InsufficientLiquidity);
}

#[test]
fn dust_withdrawal_is_rejected() {
    let mut vaults = PoolVaults { reserve_a: 1, reserve_b: 1, lp_supply: 900 };
    let mut dep_lp = TokenAccount { amount: 10 };
    let mut dep_a = TokenAccount { amount: 0 };
    let mut dep_b = TokenAccount { amount: 0 };
    let r = withdraw_liquidity(&mut vaults, &mut dep_lp, &mut dep_a, &mut dep_b, 10);
    assert_eq!(r.unwrap_err(), ErrorType::ZeroWithdrawal);
    assert_eq!(vaults.reserve_a, 1);
}

#[test]
fn swap_prices_against_the_constant_product() {
    let amm = create_amm(key(1), key(2), 30).unwrap();
    let mut vaults = PoolVaults { reserve_a: 100_000, reserve_b: 40_000, lp_supply: 63_145 };
    let mut trader_a = TokenAccount { amount: 10_000 };
    let mut trader_b = TokenAccount { amount: 0 };

    let output =
        swap_tokens_for_tokens(&amm, &mut vaults, &mut trader_a, &mut trader_b, true, 10_000, 0)
            .unwrap();
    // 30 bp fee leaves 9_970 in; 9_970 * 40_000 / 109_970 = 3_626
    assert_eq!(output, 3_626);
    assert_eq!(trader_a.amount, 0);
    assert_eq!(trader_b.amount, 3_626);
    assert_eq!(vaults, PoolVaults { reserve_a: 110_000, reserve_b: 36_374, lp_supply: 63_145 });
    // the product never decreased
    assert!(110_000u64 * 36_374 >= 100_000u64 * 40_000);
}

#[test]
fn swap_below_minimum_output_is_rejected() {
    let amm = create_amm(key(1), key(2), 30).unwrap();
    let mut vaults = PoolVaults { reserve_a: 100_000, reserve_b: 40_000, lp_supply: 63_145 };
    let mut trader_a = TokenAccount { amount: 10_000 };
    let mut trader_b = TokenAccount { amount: 0 };

    let r = swap_tokens_for_tokens(&amm, &mut vaults, &mut trader_a, &mut trader_b, true, 10_000, 4_000);
    assert_eq!(r.unwrap_err(), ErrorType::OutputTooSmall);
    assert_eq!(trader_a.amount, 10_000);
    assert_eq!(vaults.reserve_a, 100_000);
}

#[test]
fn swap_clamps_to_the_trader_balance() {
    let amm = create_amm(key(1), key(2), 0).unwrap();
    let mut vaults = PoolVaults { reserve_a: 1_000, reserve_b: 1_000, lp_supply: 900 };
    let mut trader_a = TokenAccount { amount: 100 };
    let mut trader_b = TokenAccount { amount: 0 };

    // asks for more than held: only the balance is taken
    let output =
        swap_tokens_for_tokens(&amm, &mut vaults, &mut trader_a, &mut trader_b, true, 500, 0)
            .unwrap();
    assert_eq!(trader_a.amount, 0);
    assert_eq!(output, 100 * 1_000 / 1_100);
}

#[test]
fn swap_the_other_direction_moves_token_a_out() {
    let amm = create_amm(key(1), key(2), 0).unwrap();
    let mut vaults = PoolVaults { reserve_a: 2_000, reserve_b: 1_000, lp_supply: 900 };
    let mut trader_a = TokenAccount { amount: 0 };
    let mut trader_b = TokenAccount { amount: 500 };

    let output =
        swap_tokens_for_tokens(&amm, &mut vaults, &mut trader_a, &mut trader_b, false, 500, 0)
            .unwrap();
    assert_eq!(output, 500 * 2_000 / 1_500);
    assert_eq!(trader_a.amount, output);
    assert_eq!(trader_b.amount, 0);
    assert_eq!(vaults.reserve_b, 1_500);
    assert_eq!(vaults.reserve_a, 2_000 - output);
}

use nocturne_swap::engine::add_liquidity;
use nocturne_swap::engine::swap;
use nocturne_swap::engine::AddLiquidity;
use nocturne_swap::engine::Swap;
use nocturne_swap::engine::TransferAuthority;
use nocturne_swap::engine::VaultAccount;
use nocturne_swap::errors::SwapError;
use nocturne_swap::pool::Pool;

fn test_pool(fee_rate: u64) -> Pool {
    Pool {
        authority: 1,
        token_a_mint: 10,
        token_b_mint: 11,
        token_a_vault: 20,
        token_b_vault: 21,
        fee_rate,
        bump: 255,
    }
}

fn test_swap_ctx(reserve_in: u64, reserve_out: u64, fee_rate: u64) -> Swap {
    Swap {
        user: 2,
        pool: test_pool(fee_rate),
        user_token_in: 30,
        user_token_out: 31,
        vault_in: VaultAccount { id: 20, amount: reserve_in },
        vault_out: VaultAccount { id: 21, amount: reserve_out },
    }
}

#[test]
fn swap_describes_both_transfers() {
    let ctx = test_swap_ctx(1_000_000, 1_000_000, 30);
    let outcome = swap(&ctx, 10_000, 9_871, true).unwrap();

    assert_eq!(outcome.transfer_in.amount, 10_000);
    assert_eq!(outcome.transfer_in.from_account, 30);
    assert_eq!(outcome.transfer_in.to_account, 20);
    assert_eq!(outcome.transfer_in.authority, TransferAuthority::User(2));

    assert_eq!(outcome.transfer_out.amount, 9_871);
    assert_eq!(outcome.transfer_out.from_account, 21);
    assert_eq!(outcome.transfer_out.to_account, 31);
    assert_eq!(
        outcome.transfer_out.authority,
        TransferAuthority::PoolDerived { token_a_mint: 10, token_b_mint: 11, bump: 255 }
    );

    assert_eq!(outcome.event.user, 2);
    assert_eq!(outcome.event.token_in, 10);
    assert_eq!(outcome.event.token_out, 11);
    assert_eq!(outcome.event.amount_in, 10_000);
    assert_eq!(outcome.event.amount_out, 9_871);
    assert_eq!(outcome.event.fee_amount, 30);
}

#[test]
fn swap_event_follows_direction() {
    let ctx = test_swap_ctx(1_000_000, 1_000_000, 30);
    let outcome = swap(&ctx, 10_000, 0, false).unwrap();
    assert_eq!(outcome.event.token_in, 11);
    assert_eq!(outcome.event.token_out, 10);
}

#[test]
fn swap_refuses_excess_slippage() {
    // The curve owes 9871; asking for one more unit must fail.
    let ctx = test_swap_ctx(1_000_000, 1_000_000, 30);
    let r = swap(&ctx, 10_000, 9_872, true);
    assert_eq!(r, Err(SwapError::SlippageExceeded));
}

#[test]
fn swap_refuses_empty_reserve() {
    let ctx = test_swap_ctx(500, 0, 30);
    let r = swap(&ctx, 5, 0, true);
    assert_eq!(r, Err(SwapError::InsufficientLiquidity));
}

fn test_liquidity_ctx() -> AddLiquidity {
    AddLiquidity {
        user: 2,
        pool: test_pool(30),
        user_token_a: 30,
        user_token_b: 31,
        vault_a: 20,
        vault_b: 21,
    }
}

#[test]
fn add_liquidity_issues_smaller_amount() {
    let ctx = test_liquidity_ctx();
    let outcome = add_liquidity(&ctx, 100, 50, 50).unwrap();
    assert_eq!(outcome.liquidity_issued, 50);

    assert_eq!(outcome.transfer_a.amount, 100);
    assert_eq!(outcome.transfer_a.from_account, 30);
    assert_eq!(outcome.transfer_a.to_account, 20);
    assert_eq!(outcome.transfer_a.authority, TransferAuthority::User(2));

    assert_eq!(outcome.transfer_b.amount, 50);
    assert_eq!(outcome.transfer_b.from_account, 31);
    assert_eq!(outcome.transfer_b.to_account, 21);
    assert_eq!(outcome.transfer_b.authority, TransferAuthority::User(2));
}

#[test]
fn add_liquidity_refuses_below_minimum() {
    let ctx = test_liquidity_ctx();
    let r = add_liquidity(&ctx, 100, 50, 60);
    assert_eq!(r, Err(SwapError::InsufficientLiquidity));
}

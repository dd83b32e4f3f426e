use vstd::prelude::*;

use crate::errors::SwapError;
use crate::pool::Pool;
use crate::pricing::calculate_swap_amounts;
use crate::pricing::spec_amount_out;
use crate::pricing::spec_fee_amount;

verus! {

/// Who authorizes a requested transfer.
#[derive(Clone, Copy, Debug, PartialEq, Eq, Structural)]
pub enum TransferAuthority {
    /// The end user moving a balance of their own.
    User(u64),
    /// The pool's own signing authority, re-derived by the ledger from
    /// the asset pair and the derivation tag — used for every transfer
    /// out of a vault.
    PoolDerived { token_a_mint: u64, token_b_mint: u64, bump: u8 },
}

/// One balance movement for the external ledger to execute.
///
/// The engine only describes transfers; it never performs them. An
/// operation hands its transfers out together, and the ledger must apply
/// them as one atomic unit: either all of them or none.
#[derive(Clone, Copy, Debug, PartialEq, Eq, Structural)]
pub struct TransferRequest {
    /// How much of the asset to move.
    pub amount: u64,
    /// The account debited.
    pub from_account: u64,
    /// The account credited.
    pub to_account: u64,
    /// Who signs the movement.
    pub authority: TransferAuthority,
}

/// The record emitted for every completed swap, for external
/// observability only; the engine never reads it back.
#[derive(Clone, Copy, Debug, PartialEq, Eq, Structural)]
pub struct SwapEvent {
    /// The trading identity.
    pub user: u64,
    /// The asset type the user paid in.
    pub token_in: u64,
    /// The asset type the user received.
    pub token_out: u64,
    /// What the user paid, fee included.
    pub amount_in: u64,
    /// What the user received.
    pub amount_out: u64,
    /// The fee retained by the pool, already part of `amount_in`.
    pub fee_amount: u64,
}

/// A vault account as the ledger reports it: its address and the reserve
/// it currently holds.
#[derive(Clone, Copy, Debug, PartialEq, Eq, Structural)]
pub struct VaultAccount {
    /// The ledger address of the vault.
    pub id: u64,
    /// Its current balance, i.e. one side's reserve.
    pub amount: u64,
}

/// The accounts a swap reads, resolved and authenticated by the
/// environment: the pool, the user's two asset accounts, and the two
/// vaults in trade direction (input side first).
#[derive(Clone, Copy, Debug, PartialEq, Eq, Structural)]
pub struct Swap {
    /// The trading identity.
    pub user: u64,
    /// The pool being traded against.
    pub pool: Pool,
    /// The user's account for the asset paid in.
    pub user_token_in: u64,
    /// The user's account for the asset received.
    pub user_token_out: u64,
    /// The vault of the input asset, with its reserve.
    pub vault_in: VaultAccount,
    /// The vault of the output asset, with its reserve.
    pub vault_out: VaultAccount,
}

/// Everything a validated swap asks of the ledger, plus the record to
/// emit once the transfers have been executed.
#[derive(Clone, Copy, Debug, PartialEq, Eq, Structural)]
pub struct SwapOutcome {
    /// Moves `amount_in` from the user into the input vault, signed by
    /// the user; logically committed first.
    pub transfer_in: TransferRequest,
    /// Moves `amount_out` from the output vault to the user, signed by
    /// the pool's derived authority.
    pub transfer_out: TransferRequest,
    /// The trade record to emit on success.
    pub event: SwapEvent,
}

/// Whether the pricing function accepts this swap: both reserves are
/// positive and the fee does not exceed the input (always true at a fee
/// rate within basis-point range).
pub open spec fn spec_swap_priceable(ctx: Swap, amount_in: u64) -> bool {
    &&& ctx.vault_in.amount > 0
    &&& ctx.vault_out.amount > 0
    &&& spec_fee_amount(amount_in as int, ctx.pool.fee_rate as int) <= amount_in
}

/// The output the curve owes this swap.
pub open spec fn spec_swap_amount_out(ctx: Swap, amount_in: u64) -> int {
    spec_amount_out(
        amount_in as int,
        ctx.vault_in.amount as int,
        ctx.vault_out.amount as int,
        ctx.pool.fee_rate as int,
    )
}

/// The exact outcome a valid swap produces.
pub open spec fn spec_swap_outcome(ctx: Swap, amount_in: u64, is_a_to_b: bool) -> SwapOutcome {
    let amount_out = spec_swap_amount_out(ctx, amount_in) as u64;
    let fee_amount = spec_fee_amount(amount_in as int, ctx.pool.fee_rate as int) as u64;
    SwapOutcome {
        transfer_in: TransferRequest {
            amount: amount_in,
            from_account: ctx.user_token_in,
            to_account: ctx.vault_in.id,
            authority: TransferAuthority::User(ctx.user),
        },
        transfer_out: TransferRequest {
            amount: amount_out,
            from_account: ctx.vault_out.id,
            to_account: ctx.user_token_out,
            authority: TransferAuthority::PoolDerived {
                token_a_mint: ctx.pool.token_a_mint,
                token_b_mint: ctx.pool.token_b_mint,
                bump: ctx.pool.bump,
            },
        },
        event: SwapEvent {
            user: ctx.user,
            token_in: if is_a_to_b {
                ctx.pool.token_a_mint
            } else {
                ctx.pool.token_b_mint
            },
            token_out: if is_a_to_b {
                ctx.pool.token_b_mint
            } else {
                ctx.pool.token_a_mint
            },
            amount_in: amount_in,
            amount_out: amount_out,
            fee_amount: fee_amount,
        },
    }
}

/// Validate one swap and describe the transfers it requires.
///
/// The input reserve is read from `vault_in`, the output reserve from
/// `vault_out`; `is_a_to_b` only selects which asset the emitted record
/// names as input and output. Pricing failures propagate unchanged;
/// `SlippageExceeded` comes exactly when the priced output falls below
/// `minimum_amount_out`. No transfer is described on any failure: the
/// ledger receives requests only through a returned `SwapOutcome`, so a
/// refused swap moves nothing.
pub fn swap(ctx: &Swap, amount_in: u64, minimum_amount_out: u64, is_a_to_b: bool) -> (r: Result<
    SwapOutcome,
    SwapError,
>)
    ensures
        r is Ok <==> (spec_swap_priceable(*ctx, amount_in) && spec_swap_amount_out(*ctx, amount_in)
            >= minimum_amount_out),
        ctx.vault_in.amount == 0 || ctx.vault_out.amount == 0 ==> r == Err::<
            SwapOutcome,
            SwapError,
        >(SwapError::InsufficientLiquidity),
        ctx.vault_in.amount > 0 && ctx.vault_out.amount > 0 && spec_fee_amount(
            amount_in as int,
            ctx.pool.fee_rate as int,
        ) > amount_in ==> r == Err::<SwapOutcome, SwapError>(SwapError::ArithmeticOverflow),
        spec_swap_priceable(*ctx, amount_in) && spec_swap_amount_out(*ctx, amount_in)
            < minimum_amount_out ==> r == Err::<SwapOutcome, SwapError>(
            SwapError::SlippageExceeded,
        ),
        r is Ok ==> r->Ok_0 == spec_swap_outcome(*ctx, amount_in, is_a_to_b),
{
    let priced = calculate_swap_amounts(
        amount_in,
        ctx.vault_in.amount,
        ctx.vault_out.amount,
        ctx.pool.fee_rate,
    );
    let (amount_out, fee_amount) = match priced {
        Ok(p) => p,
        Err(e) => {
            return Err(e);
        },
    };
    if amount_out < minimum_amount_out {
        return Err(SwapError::SlippageExceeded);
    }
    let transfer_in = TransferRequest {
        amount: amount_in,
        from_account: ctx.user_token_in,
        to_account: ctx.vault_in.id,
        authority: TransferAuthority::User(ctx.user),
    };
    let transfer_out = TransferRequest {
        amount: amount_out,
        from_account: ctx.vault_out.id,
        to_account: ctx.user_token_out,
        authority: TransferAuthority::PoolDerived {
            token_a_mint: ctx.pool.token_a_mint,
            token_b_mint: ctx.pool.token_b_mint,
            bump: ctx.pool.bump,
        },
    };
    let event = SwapEvent {
        user: ctx.user,
        token_in: if is_a_to_b {
            ctx.pool.token_a_mint
        } else {
            ctx.pool.token_b_mint
        },
        token_out: if is_a_to_b {
            ctx.pool.token_b_mint
        } else {
            ctx.pool.token_a_mint
        },
        amount_in: amount_in,
        amount_out: amount_out,
        fee_amount: fee_amount,
    };
    Ok(SwapOutcome { transfer_in, transfer_out, event })
}

/// The accounts a deposit reads: the pool, the user's two asset
/// accounts, and the two vaults. A deposit never reads vault balances,
/// so only addresses appear here.
#[derive(Clone, Copy, Debug, PartialEq, Eq, Structural)]
pub struct AddLiquidity {
    /// The depositing identity.
    pub user: u64,
    /// The pool deposited into.
    pub pool: Pool,
    /// The user's account for asset A.
    pub user_token_a: u64,
    /// The user's account for asset B.
    pub user_token_b: u64,
    /// The vault credited with asset A.
    pub vault_a: u64,
    /// The vault credited with asset B.
    pub vault_b: u64,
}

/// What a validated deposit asks of the ledger, and the figure returned
/// to the caller for their own bookkeeping.
#[derive(Clone, Copy, Debug, PartialEq, Eq, Structural)]
pub struct LiquidityOutcome {
    /// `min(amount_a, amount_b)` — a computed quantity only; no
    /// on-ledger claim is minted for it.
    pub liquidity_issued: u64,
    /// Moves `amount_a` from the user into vault A, signed by the user.
    pub transfer_a: TransferRequest,
    /// Moves `amount_b` from the user into vault B, signed by the user.
    pub transfer_b: TransferRequest,
}

/// The liquidity figure a deposit of `amount_a` and `amount_b` is
/// credited with: the smaller of the two.
pub open spec fn spec_liquidity_issued(amount_a: u64, amount_b: u64) -> u64 {
    if amount_a <= amount_b {
        amount_a
    } else {
        amount_b
    }
}

/// The exact outcome a valid deposit produces.
pub open spec fn spec_liquidity_outcome(
    ctx: AddLiquidity,
    amount_a: u64,
    amount_b: u64,
) -> LiquidityOutcome {
    LiquidityOutcome {
        liquidity_issued: spec_liquidity_issued(amount_a, amount_b),
        transfer_a: TransferRequest {
            amount: amount_a,
            from_account: ctx.user_token_a,
            to_account: ctx.vault_a,
            authority: TransferAuthority::User(ctx.user),
        },
        transfer_b: TransferRequest {
            amount: amount_b,
            from_account: ctx.user_token_b,
            to_account: ctx.vault_b,
            authority: TransferAuthority::User(ctx.user),
        },
    }
}

/// Validate one deposit and describe the transfers it requires.
///
/// The deposit policy is deliberately simple: it does not hold the two
/// amounts to the current reserve ratio, and the liquidity figure is
/// `min(amount_a, amount_b)`, returned for bookkeeping only. Fails with
/// `InsufficientLiquidity` — and only then — when that figure falls below
/// `min_liquidity`. As with swaps, a refused deposit describes no
/// transfer at all.
pub fn add_liquidity(ctx: &AddLiquidity, amount_a: u64, amount_b: u64, min_liquidity: u64) -> (r:
    Result<LiquidityOutcome, SwapError>)
    ensures
        r is Ok <==> spec_liquidity_issued(amount_a, amount_b) >= min_liquidity,
        r is Err ==> r == Err::<LiquidityOutcome, SwapError>(SwapError::InsufficientLiquidity),
        r is Ok ==> r->Ok_0 == spec_liquidity_outcome(*ctx, amount_a, amount_b),
{
    let liquidity_tokens: u64 = if amount_a <= amount_b {
        amount_a
    } else {
        amount_b
    };
    if liquidity_tokens < min_liquidity {
        return Err(SwapError::InsufficientLiquidity);
    }
    let transfer_a = TransferRequest {
        amount: amount_a,
        from_account: ctx.user_token_a,
        to_account: ctx.vault_a,
        authority: TransferAuthority::User(ctx.user),
    };
    let transfer_b = TransferRequest {
        amount: amount_b,
        from_account: ctx.user_token_b,
        to_account: ctx.vault_b,
        authority: TransferAuthority::User(ctx.user),
    };
    Ok(LiquidityOutcome { liquidity_issued: liquidity_tokens, transfer_a, transfer_b })
}

} // verus!

use vstd::prelude::*;

use crate::errors::SwapError;

verus! {

/// One pool record: the identities of its trading pair and vaults, its
/// fee configuration, and the tag from which its own signing authority is
/// re-derived.
///
/// Account identities are plain `u64` identifiers standing for ledger
/// addresses; the external ledger is responsible for resolving them. The
/// reserves themselves live in the two vault accounts and are read from
/// the ledger at each operation, never stored here.
#[derive(Clone, Copy, Debug, PartialEq, Eq, Structural)]
pub struct Pool {
    /// The identity permitted to have created this pool.
    pub authority: u64,
    /// Identifier of the first tradable asset type.
    pub token_a_mint: u64,
    /// Identifier of the second tradable asset type.
    pub token_b_mint: u64,
    /// The pool-owned account holding the reserve of asset A.
    pub token_a_vault: u64,
    /// The pool-owned account holding the reserve of asset B.
    pub token_b_vault: u64,
    /// Fee in basis points (10000 = 100%), immutable after creation.
    pub fee_rate: u64,
    /// Opaque byte used to re-derive the pool's signing authority from
    /// its asset pair.
    pub bump: u8,
}

impl Pool {
    /// A pool is well formed when its fee rate is within basis-point
    /// range and its two asset identifiers differ.
    pub open spec fn well_formed(self) -> bool {
        self.fee_rate <= 10000 && self.token_a_mint != self.token_b_mint
    }
}

/// The identities initialization reads: the creator, the asset pair, the
/// two freshly created (empty) vaults, and the derivation tag the
/// environment computed for the pool's signing authority.
#[derive(Clone, Copy, Debug, PartialEq, Eq, Structural)]
pub struct InitializePool {
    /// The creating identity, recorded in the pool.
    pub authority: u64,
    /// Identifier of the first tradable asset type.
    pub token_a_mint: u64,
    /// Identifier of the second tradable asset type.
    pub token_b_mint: u64,
    /// The empty vault created for asset A.
    pub token_a_vault: u64,
    /// The empty vault created for asset B.
    pub token_b_vault: u64,
    /// Derivation tag for the pool's signing authority.
    pub bump: u8,
}

/// Create the pool record for one trading pair.
///
/// Fails with `InvalidConfiguration` — and only then — when the fee rate
/// exceeds 10000 basis points or the two asset identifiers coincide. On
/// success the record carries the given identities and fee rate verbatim
/// and is well formed; the reserves start at zero because the vaults were
/// created empty by the external ledger.
pub fn initialize_pool(ctx: &InitializePool, fee_rate: u64) -> (r: Result<Pool, SwapError>)
    ensures
        r is Ok <==> (fee_rate <= 10000 && ctx.token_a_mint != ctx.token_b_mint),
        r is Err ==> r == Err::<Pool, SwapError>(SwapError::InvalidConfiguration),
        r is Ok ==> r->Ok_0 == (Pool {
            authority: ctx.authority,
            token_a_mint: ctx.token_a_mint,
            token_b_mint: ctx.token_b_mint,
            token_a_vault: ctx.token_a_vault,
            token_b_vault: ctx.token_b_vault,
            fee_rate: fee_rate,
            bump: ctx.bump,
        }),
        r is Ok ==> r->Ok_0.well_formed(),
{
    if fee_rate > 10000 || ctx.token_a_mint == ctx.token_b_mint {
        return Err(SwapError::InvalidConfiguration);
    }
    Ok(
        Pool {
            authority: ctx.authority,
            token_a_mint: ctx.token_a_mint,
            token_b_mint: ctx.token_b_mint,
            token_a_vault: ctx.token_a_vault,
            token_b_vault: ctx.token_b_vault,
            fee_rate: fee_rate,
            bump: ctx.bump,
        },
    )
}

} // verus!

use vstd::prelude::*;

verus! {

/// The ways a pool operation can be refused.
///
/// Every refusal is reported synchronously to the caller and aborts the
/// whole operation before any transfer is requested.
#[derive(Clone, Copy, Debug, PartialEq, Eq, Structural)]
pub enum SwapError {
    /// A fee rate above 10000 basis points, or a pool whose two asset
    /// identifiers coincide, at initialization.
    InvalidConfiguration,
    /// A priced reserve is empty, or a deposit falls below the caller's
    /// stated minimum.
    InsufficientLiquidity,
    /// The computed swap output falls below the caller's stated minimum.
    SlippageExceeded,
    /// An intermediate value of the pricing computation cannot be
    /// represented.
    ArithmeticOverflow,
}

} // verus!

use vstd::prelude::*;

verus! {

/// Why an operation on a pool was refused.
#[derive(Clone, Copy, Debug, PartialEq, Eq, Structural)]
pub enum AMMError {
    /// A swap would pay out less than the trader's floor.
    SlippageExceeded,
    /// One of the two vaults is empty, so there is no price.
    InsufficientLiquidity,
    /// The amount offered for a swap is zero.
    InvalidInput,
    /// A deposit would earn fewer shares than the provider's floor.
    SlippageExceededForLP,
    /// The provider offered less than the deposit that the shares call for.
    InsufficientAmount,
    /// The redeemer holds no shares of the pool.
    ZeroContriInPool,
    /// A redemption would return less than one of the redeemer's floors.
    SlippageExceededForLR,
    /// A quotient has a zero divisor, or a quantity does not fit its width.
    ArithmeticFault,
}

} // verus!

//! Why a router operation is refused.
use vstd::prelude::*;

verus! {

/// The reasons for which the router refuses an operation. A refused
/// operation changes nothing.
#[derive(Clone, Copy, Debug, PartialEq, Eq, Structural)]
pub enum RouterError {
    /// `initialize` was called on a router that already has an admin.
    AlreadyInitialized,
    /// An admin operation was called before `initialize`.
    NotInitialized,
    /// `initialize_soroswap` was called by someone other than the admin.
    NotAdminForSoroswap,
    /// `init_gold_trustline` was called by someone other than the admin.
    NotAdminForGoldTrustline,
    /// The reserve offered for the gold trustline is below the base reserve.
    InsufficientReserve,
    /// The three allocation percentages add up to more than 100.
    AllocationExceeds100,
    /// A deposit was made before the USDC token was configured.
    UsdcNotInitialized,
    /// Liquidity was to be provided before the Soroswap router was configured.
    SoroswapNotInitialized,
    /// Liquidity was to be provided before the XLM token was configured.
    XlmNotInitialized,
    /// A withdrawal asked for a negative amount.
    NegativeAmount,
    /// A withdrawal asked for more than the user holds in all buckets.
    InsufficientBalance,
    /// The withdrawal waterfall could not settle the requested amount (no
    /// withdrawal that passes the other checks ends here).
    WithdrawalCalculationFailed,
    /// The swap reported fewer than two amounts, so no XLM amount is known.
    MissingSwapOutput,
    /// The stored gold asset has no Stellar asset XDR (its code is empty or
    /// longer than 12 bytes, or its issuer is not an account).
    InvalidGoldAsset,
    /// An intermediate amount fell outside the range of its integer type.
    ArithmeticOverflow,
}

/// The text with which the contract aborts for each error.
pub open spec fn error_message(e: RouterError) -> Seq<char> {
    match e {
        RouterError::AlreadyInitialized => "Already initialized"@,
        RouterError::NotInitialized => "Contract not initialized"@,
        RouterError::NotAdminForSoroswap => "Only admin can initialize Soroswap"@,
        RouterError::NotAdminForGoldTrustline => "Only admin can initialize Gold trustline"@,
        RouterError::InsufficientReserve => "Insufficient base reserve for trustline"@,
        RouterError::AllocationExceeds100 => "Allocation exceeds 100%"@,
        RouterError::UsdcNotInitialized => "USDC not initialized"@,
        RouterError::SoroswapNotInitialized => "Soroswap not initialized"@,
        RouterError::XlmNotInitialized => "XLM not initialized"@,
        RouterError::NegativeAmount => "Withdrawal amount must not be negative"@,
        RouterError::InsufficientBalance => "Insufficient balance"@,
        RouterError::WithdrawalCalculationFailed => "Withdrawal calculation failed"@,
        RouterError::MissingSwapOutput => "Swap returned no output amount"@,
        RouterError::InvalidGoldAsset => "Invalid gold asset"@,
        RouterError::ArithmeticOverflow => "Arithmetic overflow"@,
    }
}

impl RouterError {
    /// The abort message of this error.
    pub fn message(&self) -> (r: &'static str)
        ensures
            r@ == error_message(*self),
    {
        match self {
            RouterError::AlreadyInitialized => "Already initialized",
            RouterError::NotInitialized => "Contract not initialized",
            RouterError::NotAdminForSoroswap => "Only admin can initialize Soroswap",
            RouterError::NotAdminForGoldTrustline => "Only admin can initialize Gold trustline",
            RouterError::InsufficientReserve => "Insufficient base reserve for trustline",
            RouterError::AllocationExceeds100 => "Allocation exceeds 100%",
            RouterError::UsdcNotInitialized => "USDC not initialized",
            RouterError::SoroswapNotInitialized => "Soroswap not initialized",
            RouterError::XlmNotInitialized => "XLM not initialized",
            RouterError::NegativeAmount => "Withdrawal amount must not be negative",
            RouterError::InsufficientBalance => "Insufficient balance",
            RouterError::WithdrawalCalculationFailed => "Withdrawal calculation failed",
            RouterError::MissingSwapOutput => "Swap returned no output amount",
            RouterError::InvalidGoldAsset => "Invalid gold asset",
            RouterError::ArithmeticOverflow => "Arithmetic overflow",
        }
    }
}

} // verus!

//! Failures of the ledger's operations.

use vstd::prelude::*;
use crate::decimal::DecimalError;

verus! {

/// Why an operation was rejected. A rejected operation changes nothing.
#[derive(PartialEq, Eq, Structural, Debug, Clone, Copy)]
pub enum PreSaleProgramError {
    /// The vault mint does not match the vault's token account.
    InvalidVaultMint,
    /// The payer's token account does not match the payer mint.
    InvalidTokenAccount,
    /// The price feed's reading is not a positive price.
    InvalidPriceFeed,
    /// The oracle program is not the configured one.
    InvalidChainlinkProgram,
    /// The feed is not registered for the payer mint.
    InvalidChainlinkFeed,
    /// An arithmetic step left the representable range.
    MathOverflow,
    /// The purchase is worth less than one unit of the vault asset.
    BelowMinimalValue,
    /// The collected-funds account is not the configured one.
    InvalidCollectedFundsAccount,
    /// The vault, or the holder's balance, cannot cover the amount.
    InsufficientVaultBalance,
    /// A converted amount does not fit in a token amount.
    ConversionError,
    /// The sale is still open.
    PreSaleStillOn,
    /// The sale has closed.
    PreSaleEnded,
    /// A purchase of zero.
    InvalidTokenAmount,
    /// An unlock percentage above one hundred.
    InvalidUnlockPercentage,
    /// Two feeds registered for one asset.
    DuplicateFeedAsset,
}

impl PreSaleProgramError {
    /// The ledger error for a failure of the decimal engine.
    pub open spec fn of_decimal(e: DecimalError) -> PreSaleProgramError {
        match e {
            DecimalError::ConversionError => PreSaleProgramError::ConversionError,
            _ => PreSaleProgramError::MathOverflow,
        }
    }

    pub fn from_decimal(e: DecimalError) -> (r: PreSaleProgramError)
        ensures
            r == Self::of_decimal(e),
    {
        match e {
            DecimalError::ConversionError => PreSaleProgramError::ConversionError,
            _ => PreSaleProgramError::MathOverflow,
        }
    }
}

} // verus!

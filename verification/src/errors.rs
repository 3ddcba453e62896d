//! The ways in which an operation of the protocol can fail.

use vstd::prelude::*;

verus! {

/// Every failure aborts the whole operation that met it.
#[derive(Clone, Copy, Debug, PartialEq, Eq, Structural)]
pub enum ErrorCode {
    /// Every collateral slot of the obligation is taken.
    CollateralCapacityExceeded,
    /// The obligation, or the market, has no room for another entry.
    NoFreeObligation,
    /// The market has no room for another reserve.
    NoFreeReserves,
    /// The obligation already holds collateral.
    DuplicateCollateral,
    /// The account is already registered as a position.
    DuplicatePosition,
    /// The obligation already has a position in that reserve.
    ReserveAlreadyRegistered,
    /// The collateral item is not registered with the obligation.
    UnregisteredCollateral,
    /// No position to unregister was found for the account.
    ObligationPositionNotFound,
    /// The account is not a position of the obligation.
    UnregisteredPosition,
    /// A loan from another reserve is still outstanding.
    AnotherLoanOutstanding,
    /// The amount's units cannot be converted to the units asked for.
    InvalidUnits,
    /// The obligation is healthy, so it cannot be liquidated.
    ObligationHealthy,
    /// The operation would leave the obligation unhealthy.
    ObligationUnhealthy,
    /// The collateral does not cover the loan asked for.
    InsufficientCollateral,
    /// The oracle gave a price that cannot be used.
    InvalidOraclePrice,
    /// A cached value is older than the caller requires.
    StaleData,
    /// The bid was made in another token than the reserve holds.
    BidMintMismatch,
    /// The bid's escrow does not cover the debt to pay off.
    LiquidationLowCollateral,
    /// An argument has a value that the operation cannot work with.
    InvalidParameter,
    /// An arithmetic result does not fit its type.
    Overflow,
    /// None of the item's verified creators is the expected one.
    VerifiedCreatorMismatch,
    /// The metadata account is not the one derived for the item.
    InvalidMetadata,
    /// An account is not the one that was expected in its place.
    KeyMismatch,
    /// The account still holds notes.
    AccountNotEmpty,
}

/// The value, or `Overflow` where there is none.
pub open spec fn overflow_unless_spec<T>(value: Option<T>) -> Result<T, ErrorCode> {
    match value {
        Some(v) => Ok(v),
        None => Err(ErrorCode::Overflow),
    }
}

/// The value, or `Overflow` where there is none.
pub fn overflow_unless<T>(value: Option<T>) -> (r: Result<T, ErrorCode>)
    ensures
        r == overflow_unless_spec(value),
{
    match value {
        Some(v) => Ok(v),
        None => Err(ErrorCode::Overflow),
    }
}

} // verus!

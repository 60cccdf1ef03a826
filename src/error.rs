use vstd::prelude::*;

verus! {

/// Every way an operation of this library can fail.
#[derive(Clone, Copy, Debug, PartialEq, Eq, Structural)]
pub enum ErrorCode {
    /// A checked arithmetic operation or cast left its representable range.
    MathError,
    /// The account does not meet its maintenance margin requirement.
    InsufficientCollateralForSettlingPnl,
    /// Somebody other than the account's authority tried to take its positive PnL.
    UserMustSettleTheirOwnPositiveUnsettledPnl,
    /// Expired-position settlement on a market that is not in settlement.
    MarketNotInSettlement,
    /// The taker order is post-only.
    CantMatchTwoPostOnlys,
    /// The margin ratio was asked for without ratio tracking.
    MarginRatioTrackingNotEnabled,
    /// Ratio tracking was asked for outside liquidation mode.
    MarginRatioTrackingOutsideLiquidation,
    /// Spot liabilities were counted but no margin requirement was.
    InvalidMarginRatio,
    /// The account holds no position in the market.
    UserHasNoPositionInMarket,
}

/// The result type of fallible operations of this library.
pub type ClearingResult<T> = Result<T, ErrorCode>;

} // verus!

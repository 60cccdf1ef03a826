use vstd::prelude::*;
use crate::error::{ClearingResult, ErrorCode};
use crate::math::{abs_i128, fits_i128, unsigned_abs};

verus! {

/// Scale of margin ratios and liquidation buffers.
pub const MARGIN_PRECISION_U128: u128 = 10_000;

/// Scale of prices, and of the margin ratio.
pub const PRICE_PRECISION: u128 = 1_000_000;

/// The tier a margin verdict is evaluated against.
#[derive(Clone, Copy, Debug, PartialEq, Eq, Structural)]
pub enum MarginRequirementType {
    Initial,
    Maintenance,
}

/// How a margin calculation accumulates.
#[derive(Clone, Copy, Debug, PartialEq, Eq, Structural)]
pub enum MarginCalculationMode {
    Standard,
    Liquidation { margin_buffer: u128, track_margin_ratio: bool },
}

/// What a margin calculation is built for.
#[derive(Clone, Copy, Debug, PartialEq, Eq, Structural)]
pub struct MarginContext {
    pub margin_type: MarginRequirementType,
    pub mode: MarginCalculationMode,
    pub strict: bool,
}

impl MarginContext {
    /// A plain health check at the given tier.
    pub fn standard(margin_type: MarginRequirementType) -> (r: Self)
        ensures
            r == (MarginContext { margin_type, mode: MarginCalculationMode::Standard, strict: false }),
    {
        MarginContext { margin_type, mode: MarginCalculationMode::Standard, strict: false }
    }

    /// The same context with the given strictness.
    pub fn strict(self, strict: bool) -> (r: Self)
        ensures
            r == (MarginContext { strict, ..self }),
    {
        MarginContext { strict, ..self }
    }

    /// A maintenance check in liquidation mode, with a buffer in margin
    /// precision and ratio tracking off.
    pub fn liquidation(margin_buffer: u32) -> (r: Self)
        ensures
            r == (MarginContext {
                margin_type: MarginRequirementType::Maintenance,
                mode: MarginCalculationMode::Liquidation {
                    margin_buffer: margin_buffer as u128,
                    track_margin_ratio: false,
                },
                strict: false,
            }),
    {
        MarginContext {
            margin_type: MarginRequirementType::Maintenance,
            mode: MarginCalculationMode::Liquidation {
                margin_buffer: margin_buffer as u128,
                track_margin_ratio: false,
            },
            strict: false,
        }
    }

    /// The same context with ratio tracking on; only a liquidation context
    /// can track the margin ratio.
    pub fn track_margin_ratio(self) -> (r: ClearingResult<Self>)
        ensures
            match self.mode {
                MarginCalculationMode::Liquidation { margin_buffer, .. } => r == Ok::<
                    Self,
                    ErrorCode,
                >(
                    (MarginContext {
                        mode: MarginCalculationMode::Liquidation {
                            margin_buffer,
                            track_margin_ratio: true,
                        },
                        ..self
                    }),
                ),
                MarginCalculationMode::Standard => r == Err::<Self, ErrorCode>(
                    ErrorCode::MarginRatioTrackingOutsideLiquidation,
                ),
            },
    {
        match self.mode {
            MarginCalculationMode::Liquidation { margin_buffer, .. } => Ok(
                MarginContext {
                    mode: MarginCalculationMode::Liquidation {
                        margin_buffer,
                        track_margin_ratio: true,
                    },
                    ..self
                },
            ),
            MarginCalculationMode::Standard => Err(
                ErrorCode::MarginRatioTrackingOutsideLiquidation,
            ),
        }
    }

    /// Whether the context asks for the margin ratio.
    pub open spec fn tracks_margin_ratio(self) -> bool {
        match self.mode {
            MarginCalculationMode::Liquidation { track_margin_ratio, .. } => track_margin_ratio,
            MarginCalculationMode::Standard => false,
        }
    }

    /// The liquidation buffer, in liquidation mode.
    pub open spec fn buffer(self) -> Option<u128> {
        match self.mode {
            MarginCalculationMode::Liquidation { margin_buffer, .. } => Some(margin_buffer),
            MarginCalculationMode::Standard => None,
        }
    }
}

/// The accumulator of one margin check over an account's positions.
#[derive(Clone, Copy, Debug)]
pub struct MarginCalculation {
    pub context: MarginContext,
    pub total_collateral: i128,
    pub margin_requirement: u128,
    pub margin_requirement_plus_buffer: u128,
    pub num_spot_liabilities: u8,
    pub num_perp_liabilities: u8,
    pub all_oracles_valid: bool,
    pub with_isolated_liability: bool,
    pub total_spot_asset_value: i128,
    pub total_spot_liability_value: u128,
    pub total_perp_liability_value: u128,
}

impl MarginCalculation {
    /// Accumulation keeps the buffered requirement in step with its mode:
    /// untouched outside liquidation, never below the plain requirement in it.
    pub open spec fn wf(self) -> bool {
        match self.context.mode {
            MarginCalculationMode::Standard => self.margin_requirement_plus_buffer == 0,
            MarginCalculationMode::Liquidation { .. } => self.margin_requirement
                <= self.margin_requirement_plus_buffer,
        }
    }

    /// Collateral covers the plain requirement.
    pub open spec fn meets_margin_requirement_spec(self) -> bool {
        self.total_collateral >= self.margin_requirement
    }

    /// The bar an account in liquidation must clear to leave it: the buffered
    /// requirement in liquidation mode; outside it there is no buffer, and the
    /// bar is the plain requirement.
    pub open spec fn exit_requirement(self) -> int {
        match self.context.mode {
            MarginCalculationMode::Standard => self.margin_requirement as int,
            MarginCalculationMode::Liquidation { .. } => self.margin_requirement_plus_buffer as int,
        }
    }

    /// Collateral covers the bar for leaving liquidation.
    pub open spec fn can_exit_liquidation_spec(self) -> bool {
        self.total_collateral >= self.exit_requirement()
    }

    /// Net spot asset value over all tracked liabilities, at price precision;
    /// zero where there is no positive net asset value.
    pub open spec fn margin_ratio(self) -> ClearingResult<u128> {
        let nav = if self.total_spot_asset_value >= self.total_spot_liability_value {
            self.total_spot_asset_value - self.total_spot_liability_value
        } else {
            0
        };
        let total_liability = self.total_perp_liability_value + self.total_spot_liability_value;
        if !self.context.tracks_margin_ratio() {
            Err(ErrorCode::MarginRatioTrackingNotEnabled)
        } else if self.total_spot_asset_value < 0 || nav == 0 {
            Ok(0)
        } else if nav * PRICE_PRECISION > u128::MAX || total_liability > u128::MAX
            || total_liability == 0 {
            Err(ErrorCode::MathError)
        } else {
            Ok(((nav * PRICE_PRECISION) / total_liability) as u128)
        }
    }

    /// A zeroed accumulator for the given context.
    pub fn new(context: MarginContext) -> (r: Self)
        ensures
            r == (MarginCalculation {
                context,
                total_collateral: 0,
                margin_requirement: 0,
                margin_requirement_plus_buffer: 0,
                num_spot_liabilities: 0,
                num_perp_liabilities: 0,
                all_oracles_valid: true,
                with_isolated_liability: false,
                total_spot_asset_value: 0,
                total_spot_liability_value: 0,
                total_perp_liability_value: 0,
            }),
            r.wf(),
    {
        MarginCalculation {
            context,
            total_collateral: 0,
            margin_requirement: 0,
            margin_requirement_plus_buffer: 0,
            num_spot_liabilities: 0,
            num_perp_liabilities: 0,
            all_oracles_valid: true,
            with_isolated_liability: false,
            total_spot_asset_value: 0,
            total_spot_liability_value: 0,
            total_perp_liability_value: 0,
        }
    }

    /// Adds a signed amount to the total collateral.
    pub fn add_total_collateral(&mut self, total_collateral: i128) -> (r: ClearingResult<()>)
        ensures
            old(self).total_collateral + total_collateral <= i128::MAX
                && old(self).total_collateral + total_collateral >= i128::MIN ==> r is Ok
                && *final(self) == (MarginCalculation {
                total_collateral: (old(self).total_collateral + total_collateral) as i128,
                ..*old(self)
            }),
            !(old(self).total_collateral + total_collateral <= i128::MAX
                && old(self).total_collateral + total_collateral >= i128::MIN) ==> r
                == Err::<(), ErrorCode>(ErrorCode::MathError) && *final(self) == *old(self),
    {
        match self.total_collateral.checked_add(total_collateral) {
            Some(v) => {
                self.total_collateral = v;
                Ok(())
            },
            None => Err(ErrorCode::MathError),
        }
    }

    /// The accumulator after a margin requirement for a position of the given
    /// liability value, or `None` where a sum leaves its range.
    pub open spec fn with_margin_requirement(self, margin_requirement: u128, liability_value: u128) -> Option<Self> {
        let req = self.margin_requirement + margin_requirement;
        match self.context.mode {
            MarginCalculationMode::Standard => if req <= u128::MAX {
                Some(MarginCalculation { margin_requirement: req as u128, ..self })
            } else {
                None
            },
            MarginCalculationMode::Liquidation { margin_buffer, .. } => {
                let weighted = liability_value * margin_buffer;
                let step = margin_requirement + weighted / (MARGIN_PRECISION_U128 as int);
                let plus = self.margin_requirement_plus_buffer + step;
                if req <= u128::MAX && weighted <= u128::MAX && step <= u128::MAX && plus
                    <= u128::MAX {
                    Some(
                        MarginCalculation {
                            margin_requirement: req as u128,
                            margin_requirement_plus_buffer: plus as u128,
                            ..self
                        },
                    )
                } else {
                    None
                }
            },
        }
    }

    /// Adds a position's margin requirement; in liquidation mode also adds it,
    /// with the buffer share of the liability value, to the buffered requirement.
    pub fn add_margin_requirement(&mut self, margin_requirement: u128, liability_value: u128) -> (r:
        ClearingResult<()>)
        ensures
            match old(self).with_margin_requirement(margin_requirement, liability_value) {
                Some(next) => r is Ok && *final(self) == next,
                None => r == Err::<(), ErrorCode>(ErrorCode::MathError) && *final(self) == *old(
                    self,
                ),
            },
            old(self).wf() ==> final(self).wf(),
    {
        let req = match self.margin_requirement.checked_add(margin_requirement) {
            Some(v) => v,
            None => {
                return Err(ErrorCode::MathError);
            },
        };
        if let MarginCalculationMode::Liquidation { margin_buffer, .. } = self.context.mode {
            let weighted = match liability_value.checked_mul(margin_buffer) {
                Some(v) => v,
                None => {
                    return Err(ErrorCode::MathError);
                },
            };
            let step = match margin_requirement.checked_add(weighted / MARGIN_PRECISION_U128) {
                Some(v) => v,
                None => {
                    return Err(ErrorCode::MathError);
                },
            };
            let plus = match self.margin_requirement_plus_buffer.checked_add(step) {
                Some(v) => v,
                None => {
                    return Err(ErrorCode::MathError);
                },
            };
            self.margin_requirement_plus_buffer = plus;
        }
        self.margin_requirement = req;
        Ok(())
    }

    /// Whether the margin ratio is being tracked.
    pub fn track_margin_ratio_enabled(&self) -> (r: bool)
        ensures
            r == self.context.tracks_margin_ratio(),
    {
        if let MarginCalculationMode::Liquidation { track_margin_ratio, .. } = self.context.mode {
            track_margin_ratio
        } else {
            false
        }
    }

    /// The accumulator once a spot asset value has come back.
    pub open spec fn with_spot_asset_value(self, v: ClearingResult<i128>) -> (ClearingResult<()>, Self) {
        match v {
            Err(e) => (Err(e), self),
            Ok(x) => if fits_i128(self.total_spot_asset_value + x) {
                (
                    Ok(()),
                    MarginCalculation {
                        total_spot_asset_value: (self.total_spot_asset_value + x) as i128,
                        ..self
                    },
                )
            } else {
                (Err(ErrorCode::MathError), self)
            },
        }
    }

    /// The accumulator once a spot liability value has come back.
    pub open spec fn with_spot_liability_value(self, v: ClearingResult<u128>) -> (ClearingResult<()>, Self) {
        match v {
            Err(e) => (Err(e), self),
            Ok(x) => if self.total_spot_liability_value + x <= u128::MAX {
                (
                    Ok(()),
                    MarginCalculation {
                        total_spot_liability_value: (self.total_spot_liability_value + x) as u128,
                        ..self
                    },
                )
            } else {
                (Err(ErrorCode::MathError), self)
            },
        }
    }

    /// The accumulator once a perp liability value has come back.
    pub open spec fn with_perp_liability_value(self, v: ClearingResult<u128>) -> (ClearingResult<()>, Self) {
        match v {
            Err(e) => (Err(e), self),
            Ok(x) => if self.total_perp_liability_value + x <= u128::MAX {
                (
                    Ok(()),
                    MarginCalculation {
                        total_perp_liability_value: (self.total_perp_liability_value + x) as u128,
                        ..self
                    },
                )
            } else {
                (Err(ErrorCode::MathError), self)
            },
        }
    }

    /// Adds a spot asset value when the margin ratio is tracked; otherwise the
    /// value function is never called.
    pub fn add_spot_asset_value<F: Fn() -> ClearingResult<i128>>(&mut self, asset_value_fn: F) -> (r:
        ClearingResult<()>)
        requires
            old(self).context.tracks_margin_ratio() ==> asset_value_fn.requires(()),
        ensures
            !old(self).context.tracks_margin_ratio() ==> r is Ok && *final(self) == *old(self),
            old(self).context.tracks_margin_ratio() ==> exists|v: ClearingResult<i128>|
                #[trigger] asset_value_fn.ensures((), v) && (r, *final(self)) == old(
                    self,
                ).with_spot_asset_value(v),
    {
        if self.track_margin_ratio_enabled() {
            let v = asset_value_fn();
            match v {
                Ok(x) => match self.total_spot_asset_value.checked_add(x) {
                    Some(t) => {
                        self.total_spot_asset_value = t;
                    },
                    None => {
                        return Err(ErrorCode::MathError);
                    },
                },
                Err(e) => {
                    return Err(e);
                },
            }
        }
        Ok(())
    }

    /// Adds a spot liability value when the margin ratio is tracked; otherwise
    /// the value function is never called.
    pub fn add_spot_liability_value<F: Fn() -> ClearingResult<u128>>(&mut self, liability_value_fn: F) -> (r:
        ClearingResult<()>)
        requires
            old(self).context.tracks_margin_ratio() ==> liability_value_fn.requires(()),
        ensures
            !old(self).context.tracks_margin_ratio() ==> r is Ok && *final(self) == *old(self),
            old(self).context.tracks_margin_ratio() ==> exists|v: ClearingResult<u128>|
                #[trigger] liability_value_fn.ensures((), v) && (r, *final(self)) == old(
                    self,
                ).with_spot_liability_value(v),
    {
        if self.track_margin_ratio_enabled() {
            let v = liability_value_fn();
            match v {
                Ok(x) => match self.total_spot_liability_value.checked_add(x) {
                    Some(t) => {
                        self.total_spot_liability_value = t;
                    },
                    None => {
                        return Err(ErrorCode::MathError);
                    },
                },
                Err(e) => {
                    return Err(e);
                },
            }
        }
        Ok(())
    }

    /// Adds a perp liability value when the margin ratio is tracked; otherwise
    /// the value function is never called.
    pub fn add_perp_liability_value<F: Fn() -> ClearingResult<u128>>(&mut self, perp_value_fn: F) -> (r:
        ClearingResult<()>)
        requires
            old(self).context.tracks_margin_ratio() ==> perp_value_fn.requires(()),
        ensures
            !old(self).context.tracks_margin_ratio() ==> r is Ok && *final(self) == *old(self),
            old(self).context.tracks_margin_ratio() ==> exists|v: ClearingResult<u128>|
                #[trigger] perp_value_fn.ensures((), v) && (r, *final(self)) == old(
                    self,
                ).with_perp_liability_value(v),
    {
        if self.track_margin_ratio_enabled() {
            let v = perp_value_fn();
            match v {
                Ok(x) => match self.total_perp_liability_value.checked_add(x) {
                    Some(t) => {
                        self.total_perp_liability_value = t;
                    },
                    None => {
                        return Err(ErrorCode::MathError);
                    },
                },
                Err(e) => {
                    return Err(e);
                },
            }
        }
        Ok(())
    }

    /// Counts one more spot liability.
    pub fn add_spot_liability(&mut self) -> (r: ClearingResult<()>)
        ensures
            old(self).num_spot_liabilities < u8::MAX ==> r is Ok && *final(self) == (
            MarginCalculation { num_spot_liabilities: (old(self).num_spot_liabilities + 1) as u8, ..*old(self) }),
            old(self).num_spot_liabilities == u8::MAX ==> r == Err::<(), ErrorCode>(ErrorCode::MathError)
                && *final(self) == *old(self),
    {
        match self.num_spot_liabilities.checked_add(1) {
            Some(n) => {
                self.num_spot_liabilities = n;
                Ok(())
            },
            None => Err(ErrorCode::MathError),
        }
    }

    /// Counts one more perp liability.
    pub fn add_perp_liability(&mut self) -> (r: ClearingResult<()>)
        ensures
            old(self).num_perp_liabilities < u8::MAX ==> r is Ok && *final(self) == (
            MarginCalculation { num_perp_liabilities: (old(self).num_perp_liabilities + 1) as u8, ..*old(self) }),
            old(self).num_perp_liabilities == u8::MAX ==> r == Err::<(), ErrorCode>(ErrorCode::MathError)
                && *final(self) == *old(self),
    {
        match self.num_perp_liabilities.checked_add(1) {
            Some(n) => {
                self.num_perp_liabilities = n;
                Ok(())
            },
            None => Err(ErrorCode::MathError),
        }
    }

    /// Folds one oracle's validity into the overall flag; once false it stays false.
    pub fn update_all_oracles_valid(&mut self, valid: bool)
        ensures
            *final(self) == (MarginCalculation {
                all_oracles_valid: old(self).all_oracles_valid && valid,
                ..*old(self)
            }),
    {
        self.all_oracles_valid = self.all_oracles_valid && valid;
    }

    /// A counted spot liability must have contributed some requirement.
    pub fn validate_num_spot_liabilities(&self) -> (r: ClearingResult<()>)
        ensures
            r == (if self.num_spot_liabilities > 0 && self.margin_requirement == 0 {
                Err::<(), ErrorCode>(ErrorCode::InvalidMarginRatio)
            } else {
                Ok(())
            }),
    {
        if self.num_spot_liabilities > 0 && self.margin_requirement == 0 {
            return Err(ErrorCode::InvalidMarginRatio);
        }
        Ok(())
    }

    /// Spot and perp liabilities counted together.
    pub fn get_num_of_liabilities(&self) -> (r: ClearingResult<u8>)
        ensures
            self.num_spot_liabilities + self.num_perp_liabilities <= u8::MAX ==> r == Ok::<u8, ErrorCode>(
                (self.num_spot_liabilities + self.num_perp_liabilities) as u8,
            ),
            self.num_spot_liabilities + self.num_perp_liabilities > u8::MAX ==> r == Err::<u8, ErrorCode>(
                ErrorCode::MathError,
            ),
    {
        match self.num_spot_liabilities.checked_add(self.num_perp_liabilities) {
            Some(n) => Ok(n),
            None => Err(ErrorCode::MathError),
        }
    }

    /// Whether the total collateral covers the margin requirement.
    pub fn meets_margin_requirement(&self) -> (r: bool)
        ensures
            r == self.meets_margin_requirement_spec(),
            r == (self.total_collateral >= self.margin_requirement),
    {
        self.margin_requirement <= i128::MAX as u128 && self.total_collateral
            >= self.margin_requirement as i128
    }

    /// Whether the total collateral covers the buffered requirement in
    /// liquidation mode, or the plain requirement outside it.
    pub fn can_exit_liquidation(&self) -> (r: bool)
        ensures
            r == self.can_exit_liquidation_spec(),
            r == (self.total_collateral >= match self.context.mode {
                MarginCalculationMode::Standard => self.margin_requirement as int,
                MarginCalculationMode::Liquidation { .. } => self.margin_requirement_plus_buffer as int,
            }),
            self.context.mode == MarginCalculationMode::Standard ==> r
                == self.meets_margin_requirement_spec(),
    {
        let bar = match self.context.mode {
            MarginCalculationMode::Standard => self.margin_requirement,
            MarginCalculationMode::Liquidation { .. } => self.margin_requirement_plus_buffer,
        };
        bar <= i128::MAX as u128 && self.total_collateral >= bar as i128
    }

    /// How far the total collateral is from the bar for leaving liquidation:
    /// the buffered requirement in liquidation mode, the plain one outside it.
    pub fn margin_shortage(&self) -> (r: ClearingResult<u128>)
        ensures
            ({
                let d = self.exit_requirement() - self.total_collateral;
                if self.exit_requirement() <= i128::MAX && fits_i128(d) {
                    r == Ok::<u128, ErrorCode>(unsigned_abs(d) as u128)
                } else {
                    r == Err::<u128, ErrorCode>(ErrorCode::MathError)
                }
            }),
            !self.can_exit_liquidation_spec() ==> (r matches Ok(s) ==> s > 0
                && self.total_collateral + s == self.exit_requirement()),
    {
        let bar = match self.context.mode {
            MarginCalculationMode::Standard => self.margin_requirement,
            MarginCalculationMode::Liquidation { .. } => self.margin_requirement_plus_buffer,
        };
        if bar > i128::MAX as u128 {
            return Err(ErrorCode::MathError);
        }
        match (bar as i128).checked_sub(self.total_collateral) {
            Some(d) => Ok(abs_i128(d)),
            None => Err(ErrorCode::MathError),
        }
    }

    /// Total collateral less the margin requirement, floored at zero.
    pub fn get_free_collateral(&self) -> (r: ClearingResult<u128>)
        ensures
            ({
                let d = self.total_collateral - self.margin_requirement;
                if self.margin_requirement <= i128::MAX && fits_i128(d) {
                    r == Ok::<u128, ErrorCode>(if d > 0 { d as u128 } else { 0 })
                } else {
                    r == Err::<u128, ErrorCode>(ErrorCode::MathError)
                }
            }),
    {
        if self.margin_requirement > i128::MAX as u128 {
            return Err(ErrorCode::MathError);
        }
        match self.total_collateral.checked_sub(self.margin_requirement as i128) {
            Some(d) => if d > 0 {
                Ok(d as u128)
            } else {
                Ok(0)
            },
            None => Err(ErrorCode::MathError),
        }
    }

    /// The cushion of net spot assets over all liabilities, at price precision.
    pub fn get_margin_ratio(&self) -> (r: ClearingResult<u128>)
        ensures
            r == self.margin_ratio(),
    {
        if !self.track_margin_ratio_enabled() {
            return Err(ErrorCode::MarginRatioTrackingNotEnabled);
        }
        if self.total_spot_asset_value < 0 {
            return Ok(0);
        }
        let net_asset_value = abs_i128(self.total_spot_asset_value).saturating_sub(
            self.total_spot_liability_value,
        );
        if net_asset_value == 0 {
            return Ok(0);
        }
        let scaled = match net_asset_value.checked_mul(PRICE_PRECISION) {
            Some(v) => v,
            None => {
                return Err(ErrorCode::MathError);
            },
        };
        let total_liability = match self.total_perp_liability_value.checked_add(
            self.total_spot_liability_value,
        ) {
            Some(v) => v,
            None => {
                return Err(ErrorCode::MathError);
            },
        };
        match scaled.checked_div(total_liability) {
            Some(v) => Ok(v),
            None => Err(ErrorCode::MathError),
        }
    }
}

/// The buffer never lowers the bar: the requirement for leaving liquidation
/// is at least the plain one (equal to it outside liquidation mode), so an
/// account that can exit liquidation also meets its margin requirement.
pub proof fn lemma_buffer_never_lowers_the_bar(calc: MarginCalculation)
    requires
        calc.wf(),
    ensures
        calc.margin_requirement <= calc.exit_requirement(),
        calc.context.buffer() is None ==> calc.exit_requirement() == calc.margin_requirement,
        calc.can_exit_liquidation_spec() ==> calc.meets_margin_requirement_spec(),
{
}

/// The margin ratio is only ever given where ratio tracking was asked for:
/// a context from `standard`, or from `liquidation` without
/// `track_margin_ratio`, makes every accumulation refuse it.
pub proof fn lemma_margin_ratio_needs_tracking(
    calc: MarginCalculation,
    margin_type: MarginRequirementType,
    margin_buffer: u32,
    strict: bool,
)
    requires
        calc.context == (MarginContext {
            margin_type,
            mode: MarginCalculationMode::Standard,
            strict,
        }) || calc.context == (MarginContext {
            margin_type: MarginRequirementType::Maintenance,
            mode: MarginCalculationMode::Liquidation {
                margin_buffer: margin_buffer as u128,
                track_margin_ratio: false,
            },
            strict,
        }),
    ensures
        calc.margin_ratio() == Err::<u128, ErrorCode>(ErrorCode::MarginRatioTrackingNotEnabled),
{
}

} // verus!

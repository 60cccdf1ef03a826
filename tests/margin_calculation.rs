use std::cell::Cell;

use clearing_house::error::{ClearingResult, ErrorCode};
use clearing_house::margin_calculation::{
    MarginCalculation, MarginCalculationMode, MarginContext, MarginRequirementType,
};

fn ratio_tracking_calculation() -> MarginCalculation {
    MarginCalculation::new(MarginContext::liquidation(100).track_margin_ratio().unwrap())
}

#[test]
fn contexts_are_built_as_described() {
    let standard = MarginContext::standard(MarginRequirementType::Initial);
    assert_eq!(standard.mode, MarginCalculationMode::Standard);
    assert_eq!(standard.margin_type, MarginRequirementType::Initial);
    assert!(!standard.strict);
    assert!(standard.strict(true).strict);
    let liquidation = MarginContext::liquidation(250);
    assert_eq!(liquidation.margin_type, MarginRequirementType::Maintenance);
    assert_eq!(
        liquidation.mode,
        MarginCalculationMode::Liquidation { margin_buffer: 250, track_margin_ratio: false }
    );
    assert_eq!(
        liquidation.track_margin_ratio().unwrap().mode,
        MarginCalculationMode::Liquidation { margin_buffer: 250, track_margin_ratio: true }
    );
}

#[test]
fn track_margin_ratio_needs_liquidation_mode() {
    let standard = MarginContext::standard(MarginRequirementType::Maintenance);
    assert_eq!(
        standard.track_margin_ratio(),
        Err(ErrorCode::MarginRatioTrackingOutsideLiquidation)
    );
}

#[test]
fn new_calculation_is_zeroed() {
    let calc = MarginCalculation::new(MarginContext::standard(MarginRequirementType::Initial));
    assert_eq!(calc.total_collateral, 0);
    assert_eq!(calc.margin_requirement, 0);
    assert_eq!(calc.margin_requirement_plus_buffer, 0);
    assert_eq!(calc.get_num_of_liabilities(), Ok(0));
    assert!(calc.all_oracles_valid);
    assert!(calc.meets_margin_requirement());
}

#[test]
fn collateral_overflow_fails() {
    let mut calc = MarginCalculation::new(MarginContext::standard(MarginRequirementType::Initial));
    assert_eq!(calc.add_total_collateral(i128::MAX), Ok(()));
    assert_eq!(calc.add_total_collateral(1), Err(ErrorCode::MathError));
    assert_eq!(calc.total_collateral, i128::MAX);
    assert_eq!(calc.add_total_collateral(-5), Ok(()));
    assert_eq!(calc.total_collateral, i128::MAX - 5);
}

#[test]
fn requirement_boundary_meets() {
    let mut calc = MarginCalculation::new(MarginContext::standard(MarginRequirementType::Maintenance));
    calc.add_margin_requirement(1000, 50_000).unwrap();
    calc.add_total_collateral(999).unwrap();
    assert!(!calc.meets_margin_requirement());
    calc.add_total_collateral(1).unwrap();
    assert!(calc.meets_margin_requirement());
    calc.add_total_collateral(-2000).unwrap();
    assert!(!calc.meets_margin_requirement());
}

#[test]
fn buffer_only_in_liquidation_mode() {
    let mut standard = MarginCalculation::new(MarginContext::standard(MarginRequirementType::Maintenance));
    standard.add_margin_requirement(1000, 50_000).unwrap();
    assert_eq!(standard.margin_requirement, 1000);
    assert_eq!(standard.margin_requirement_plus_buffer, 0);

    let mut liquidation = MarginCalculation::new(MarginContext::liquidation(100));
    liquidation.add_margin_requirement(1000, 50_000).unwrap();
    assert_eq!(liquidation.margin_requirement, 1000);
    assert_eq!(liquidation.margin_requirement_plus_buffer, 1500);
    liquidation.add_margin_requirement(10, 99).unwrap();
    assert_eq!(liquidation.margin_requirement, 1010);
    assert_eq!(liquidation.margin_requirement_plus_buffer, 1510);
}

#[test]
fn requirement_overflow_leaves_calculation_unchanged() {
    let mut calc = MarginCalculation::new(MarginContext::liquidation(100));
    calc.add_margin_requirement(5, 0).unwrap();
    assert_eq!(calc.add_margin_requirement(1, u128::MAX), Err(ErrorCode::MathError));
    assert_eq!(calc.margin_requirement, 5);
    assert_eq!(calc.margin_requirement_plus_buffer, 5);
    assert_eq!(calc.add_margin_requirement(u128::MAX, 0), Err(ErrorCode::MathError));
    assert_eq!(calc.margin_requirement, 5);
}

#[test]
fn exit_liquidation_needs_buffered_requirement() {
    let mut calc = MarginCalculation::new(MarginContext::liquidation(100));
    calc.add_margin_requirement(1000, 50_000).unwrap();
    calc.add_total_collateral(1200).unwrap();
    assert!(calc.meets_margin_requirement());
    assert!(!calc.can_exit_liquidation());
    assert_eq!(calc.margin_shortage(), Ok(300));
    calc.add_total_collateral(300).unwrap();
    assert!(calc.can_exit_liquidation());
    assert_eq!(calc.margin_shortage(), Ok(0));
    calc.add_total_collateral(500).unwrap();
    assert!(calc.can_exit_liquidation() && calc.meets_margin_requirement());
    assert_eq!(calc.margin_shortage(), Ok(500));
}

#[test]
fn free_collateral_floors_at_zero() {
    let mut calc = MarginCalculation::new(MarginContext::standard(MarginRequirementType::Initial));
    calc.add_margin_requirement(1000, 0).unwrap();
    calc.add_total_collateral(1200).unwrap();
    assert_eq!(calc.get_free_collateral(), Ok(200));
    calc.add_total_collateral(-700).unwrap();
    assert_eq!(calc.get_free_collateral(), Ok(0));
    let mut huge = MarginCalculation::new(MarginContext::standard(MarginRequirementType::Initial));
    huge.add_margin_requirement(u128::MAX, 0).unwrap();
    assert_eq!(huge.get_free_collateral(), Err(ErrorCode::MathError));
    assert!(!huge.meets_margin_requirement());
}

#[test]
fn shortage_overflow_fails() {
    let mut calc = MarginCalculation::new(MarginContext::liquidation(0));
    calc.add_margin_requirement(i128::MAX as u128, 0).unwrap();
    calc.add_total_collateral(-1).unwrap();
    assert_eq!(calc.margin_shortage(), Err(ErrorCode::MathError));
}

#[test]
fn value_functions_skipped_without_tracking() {
    let calls = Cell::new(0u32);
    let asset = || -> ClearingResult<i128> {
        calls.set(calls.get() + 1);
        Ok(10)
    };
    let liability = || -> ClearingResult<u128> {
        calls.set(calls.get() + 1);
        Ok(10)
    };
    for context in [
        MarginContext::standard(MarginRequirementType::Initial),
        MarginContext::liquidation(100),
    ] {
        let mut calc = MarginCalculation::new(context);
        assert_eq!(calc.add_spot_asset_value(&asset), Ok(()));
        assert_eq!(calc.add_spot_liability_value(&liability), Ok(()));
        assert_eq!(calc.add_perp_liability_value(&liability), Ok(()));
        assert_eq!(calc.total_spot_asset_value, 0);
        assert_eq!(calc.total_spot_liability_value, 0);
        assert_eq!(calc.total_perp_liability_value, 0);
    }
    assert_eq!(calls.get(), 0);
    let mut calc = ratio_tracking_calculation();
    calc.add_spot_asset_value(&asset).unwrap();
    calc.add_spot_liability_value(&liability).unwrap();
    calc.add_perp_liability_value(&liability).unwrap();
    assert_eq!(calls.get(), 3);
    assert_eq!(calc.total_spot_asset_value, 10);
    assert_eq!(calc.total_spot_liability_value, 10);
    assert_eq!(calc.total_perp_liability_value, 10);
}

#[test]
fn value_function_error_propagates() {
    let mut calc = ratio_tracking_calculation();
    assert_eq!(
        calc.add_spot_asset_value(|| Err(ErrorCode::UserHasNoPositionInMarket)),
        Err(ErrorCode::UserHasNoPositionInMarket)
    );
    assert_eq!(calc.total_spot_asset_value, 0);
    calc.add_perp_liability_value(|| Ok(u128::MAX)).unwrap();
    assert_eq!(calc.add_perp_liability_value(|| Ok(1)), Err(ErrorCode::MathError));
}

#[test]
fn liability_counters() {
    let mut calc = MarginCalculation::new(MarginContext::standard(MarginRequirementType::Initial));
    for _ in 0..255 {
        calc.add_spot_liability().unwrap();
    }
    assert_eq!(calc.add_spot_liability(), Err(ErrorCode::MathError));
    assert_eq!(calc.num_spot_liabilities, 255);
    assert_eq!(calc.get_num_of_liabilities(), Ok(255));
    calc.add_perp_liability().unwrap();
    assert_eq!(calc.num_perp_liabilities, 1);
    assert_eq!(calc.get_num_of_liabilities(), Err(ErrorCode::MathError));
}

#[test]
fn oracle_validity_is_sticky() {
    let mut calc = MarginCalculation::new(MarginContext::standard(MarginRequirementType::Initial));
    calc.update_all_oracles_valid(true);
    assert!(calc.all_oracles_valid);
    calc.update_all_oracles_valid(false);
    calc.update_all_oracles_valid(true);
    assert!(!calc.all_oracles_valid);
}

#[test]
fn spot_liabilities_need_requirement() {
    let mut calc = MarginCalculation::new(MarginContext::standard(MarginRequirementType::Initial));
    assert_eq!(calc.validate_num_spot_liabilities(), Ok(()));
    calc.add_spot_liability().unwrap();
    assert_eq!(calc.validate_num_spot_liabilities(), Err(ErrorCode::InvalidMarginRatio));
    calc.add_margin_requirement(1, 0).unwrap();
    assert_eq!(calc.validate_num_spot_liabilities(), Ok(()));
}

#[test]
fn margin_ratio_needs_tracking() {
    let contexts = [
        MarginContext::standard(MarginRequirementType::Initial),
        MarginContext::standard(MarginRequirementType::Maintenance).strict(true),
        MarginContext::liquidation(0),
        MarginContext::liquidation(500).strict(true),
    ];
    for context in contexts {
        let mut calc = MarginCalculation::new(context);
        calc.add_total_collateral(1000).unwrap();
        assert_eq!(calc.get_margin_ratio(), Err(ErrorCode::MarginRatioTrackingNotEnabled));
    }
}

#[test]
fn margin_ratio_values() {
    let mut calc = ratio_tracking_calculation();
    calc.add_spot_asset_value(|| Ok(1000)).unwrap();
    calc.add_spot_liability_value(|| Ok(200)).unwrap();
    calc.add_perp_liability_value(|| Ok(300)).unwrap();
    assert!(calc.track_margin_ratio_enabled());
    assert_eq!(calc.get_margin_ratio(), Ok(1_600_000));

    let mut negative = ratio_tracking_calculation();
    negative.add_spot_asset_value(|| Ok(-5)).unwrap();
    negative.add_perp_liability_value(|| Ok(300)).unwrap();
    assert_eq!(negative.get_margin_ratio(), Ok(0));

    let mut underwater = ratio_tracking_calculation();
    underwater.add_spot_asset_value(|| Ok(100)).unwrap();
    underwater.add_spot_liability_value(|| Ok(150)).unwrap();
    assert_eq!(underwater.get_margin_ratio(), Ok(0));

    let mut no_liability = ratio_tracking_calculation();
    no_liability.add_spot_asset_value(|| Ok(100)).unwrap();
    assert_eq!(no_liability.get_margin_ratio(), Err(ErrorCode::MathError));
}

#[test]
fn standard_mode_exit_matches_requirement() {
    let mut calc = MarginCalculation::new(MarginContext::standard(MarginRequirementType::Maintenance));
    calc.add_margin_requirement(100, 1_000).unwrap();
    calc.add_total_collateral(50).unwrap();
    assert!(!calc.meets_margin_requirement());
    assert!(!calc.can_exit_liquidation());
    calc.add_total_collateral(50).unwrap();
    assert!(calc.meets_margin_requirement());
    assert!(calc.can_exit_liquidation());
}

#[test]
fn standard_mode_shortage_uses_plain_requirement() {
    let mut calc = MarginCalculation::new(MarginContext::standard(MarginRequirementType::Maintenance));
    calc.add_total_collateral(30).unwrap();
    calc.add_margin_requirement(100, 0).unwrap();
    assert!(!calc.can_exit_liquidation());
    assert_eq!(calc.margin_shortage(), Ok(70));
    calc.add_total_collateral(70).unwrap();
    assert!(calc.can_exit_liquidation());
    assert_eq!(calc.margin_shortage(), Ok(0));
}

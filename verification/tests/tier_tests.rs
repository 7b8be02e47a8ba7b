use gtop::tier::{
    gauge_tier, junction_tier, mem_temp_tier, pct_ratio, power_tier, temp_tier, tier_color,
    vram_ratio, ColorName, Tier, RATIO_SCALE,
};

#[test]
fn temp_tier_boundaries() {
    assert_eq!(temp_tier(&Some(799)), Tier::Normal);
    assert_eq!(temp_tier(&Some(800)), Tier::Warning);
    assert_eq!(temp_tier(&Some(899)), Tier::Warning);
    assert_eq!(temp_tier(&Some(900)), Tier::Critical);
    assert_eq!(temp_tier(&None), Tier::Unknown);
}

#[test]
fn junction_tier_boundaries() {
    assert_eq!(junction_tier(&Some(949)), Tier::Normal);
    assert_eq!(junction_tier(&Some(950)), Tier::Warning);
    assert_eq!(junction_tier(&Some(1049)), Tier::Warning);
    assert_eq!(junction_tier(&Some(1050)), Tier::Critical);
    assert_eq!(junction_tier(&None), Tier::Unknown);
}

#[test]
fn mem_temp_tier_boundaries() {
    assert_eq!(mem_temp_tier(&Some(849)), Tier::Normal);
    assert_eq!(mem_temp_tier(&Some(850)), Tier::Warning);
    assert_eq!(mem_temp_tier(&Some(949)), Tier::Warning);
    assert_eq!(mem_temp_tier(&Some(950)), Tier::Critical);
    assert_eq!(mem_temp_tier(&None), Tier::Unknown);
}

#[test]
fn power_tier_boundaries() {
    assert_eq!(power_tier(&Some(2199)), Tier::Normal);
    assert_eq!(power_tier(&Some(2200)), Tier::Warning);
    assert_eq!(power_tier(&Some(2999)), Tier::Warning);
    assert_eq!(power_tier(&Some(3000)), Tier::Critical);
    assert_eq!(power_tier(&None), Tier::Unknown);
}

#[test]
fn gauge_tier_boundaries() {
    assert_eq!(gauge_tier(0), Tier::Normal);
    assert_eq!(gauge_tier(7499), Tier::Normal);
    assert_eq!(gauge_tier(7500), Tier::Warning);
    assert_eq!(gauge_tier(8999), Tier::Warning);
    assert_eq!(gauge_tier(9000), Tier::Critical);
    assert_eq!(gauge_tier(RATIO_SCALE), Tier::Critical);
}

#[test]
fn tier_colors_are_fixed() {
    assert_eq!(tier_color(Tier::Critical), ColorName::Red);
    assert_eq!(tier_color(Tier::Warning), ColorName::Yellow);
    assert_eq!(tier_color(Tier::Normal), ColorName::Green);
    assert_eq!(tier_color(Tier::Unknown), ColorName::DarkGray);
}

#[test]
fn vram_ratio_clamps_into_unit_interval() {
    // Used above total clamps to a full gauge rather than failing.
    assert_eq!(vram_ratio(Some(20000), Some(16384)), RATIO_SCALE);
    assert_eq!(vram_ratio(Some(8192), Some(16384)), 5000);
    assert_eq!(vram_ratio(Some(0), Some(16384)), 0);
}

#[test]
fn vram_ratio_zero_when_absent_or_zero_total() {
    assert_eq!(vram_ratio(None, Some(16384)), 0);
    assert_eq!(vram_ratio(Some(1200), None), 0);
    assert_eq!(vram_ratio(None, None), 0);
    assert_eq!(vram_ratio(Some(1200), Some(0)), 0);
}

#[test]
fn pct_ratio_clamps_into_unit_interval() {
    // 150.0% clamps to a full gauge.
    assert_eq!(pct_ratio(Some(1500)), RATIO_SCALE);
    assert_eq!(pct_ratio(Some(1000)), RATIO_SCALE);
    assert_eq!(pct_ratio(Some(500)), 5000);
    assert_eq!(pct_ratio(Some(0)), 0);
    assert_eq!(pct_ratio(None), 0);
}

use gtop::fmt::{fmt_opt, fmt_opt_rounded, fmt_opt_tenths, fmt_vram, tenths_string, u64_string};

#[test]
fn decimal_strings_are_exact() {
    assert_eq!(u64_string(0), "0");
    assert_eq!(u64_string(7), "7");
    assert_eq!(u64_string(10), "10");
    assert_eq!(u64_string(905), "905");
    assert_eq!(u64_string(16384), "16384");
}

#[test]
fn fmt_opt_present_gives_digits() {
    assert_eq!(fmt_opt(&Some(1234)), "1234");
    assert_eq!(fmt_opt(&Some(0)), "0");
}

#[test]
fn fmt_opt_absent_gives_placeholder() {
    assert_eq!(fmt_opt(&None), "--");
}

#[test]
fn fmt_opt_is_deterministic() {
    assert_eq!(fmt_opt(&Some(42)), fmt_opt(&Some(42)));
    assert_eq!(fmt_opt(&None), fmt_opt(&None));
}

#[test]
fn tenths_have_one_decimal_place() {
    assert_eq!(tenths_string(453), "45.3");
    assert_eq!(tenths_string(920), "92.0");
    assert_eq!(tenths_string(0), "0.0");
    assert_eq!(tenths_string(-5), "-0.5");
    assert_eq!(tenths_string(-123), "-12.3");
}

#[test]
fn fmt_opt_tenths_placeholder_only_when_absent() {
    assert_eq!(fmt_opt_tenths(&Some(899)), "89.9");
    assert_eq!(fmt_opt_tenths(&None), "--");
}

#[test]
fn rounding_is_to_nearest_whole_halves_up() {
    assert_eq!(fmt_opt_rounded(&Some(905)), "91");
    assert_eq!(fmt_opt_rounded(&Some(904)), "90");
    assert_eq!(fmt_opt_rounded(&Some(1090)), "109");
    assert_eq!(fmt_opt_rounded(&Some(0)), "0");
    assert_eq!(fmt_opt_rounded(&None), "--");
}

#[test]
fn vram_pair_has_three_phrasings() {
    assert_eq!(fmt_vram(Some(1200), Some(16384)), "1200 / 16384 MB");
    assert_eq!(fmt_vram(Some(5), None), "5 MB / ? MB");
    assert_eq!(fmt_vram(None, Some(7)), "--");
    assert_eq!(fmt_vram(None, None), "--");
}

use image_rs::text::{
    decimal_string, eq_ignore_ascii_case, parse_decimal, scale_by_pow10, DecimalValue,
};
use image_rs::{container_style, resolve_layout, responsive_padding, Layout};

#[test]
fn padding_whole_percentages() {
    assert_eq!(responsive_padding("400", "600"), "150%");
    assert_eq!(responsive_padding("800", "400"), "50%");
    assert_eq!(responsive_padding("100", "100"), "100%");
    assert_eq!(responsive_padding("3", "0"), "0%");
    assert_eq!(responsive_padding("1", "4294967295"), "429496729500%");
    assert_eq!(responsive_padding("1", "4294967296"), "429496729600%");
}

#[test]
fn padding_of_decimal_dimensions() {
    assert_eq!(responsive_padding("1.5", "3"), "200%");
    assert_eq!(responsive_padding("3", "1.5"), "50%");
    assert_eq!(responsive_padding(".5", "1"), "200%");
    assert_eq!(responsive_padding("2.", "1"), "50%");
    assert_eq!(responsive_padding("400.0", "600.00"), "150%");
    assert_eq!(responsive_padding("0.25", "0.125"), "50%");
}

#[test]
fn padding_inexact_ratio_left_to_calc() {
    assert_eq!(responsive_padding("3", "1"), "calc(100% * 1 / 3)");
    assert_eq!(responsive_padding("1920", "1081"), "calc(100% * 1081 / 1920)");
    assert_eq!(responsive_padding("400.5", "600"), "calc(100% * 600 / 400.5)");
    assert_eq!(responsive_padding("4294967296", "1"), "calc(100% * 1 / 4294967296)");
    assert_eq!(
        responsive_padding("100000000000000000000", "5"),
        "calc(100% * 5 / 100000000000000000000)"
    );
    assert_eq!(
        responsive_padding("2", "100000000000000000000"),
        "calc(100% * 100000000000000000000 / 2)"
    );
}

#[test]
fn padding_non_finite_ratio_is_full() {
    assert_eq!(responsive_padding("0", "600"), "100%");
    assert_eq!(responsive_padding("0.0", "5"), "100%");
    assert_eq!(responsive_padding("0", "0"), "100%");
    assert_eq!(responsive_padding("abc", "600"), "100%");
    assert_eq!(responsive_padding("auto", "600"), "100%");
    assert_eq!(responsive_padding("400", "tall"), "100%");
    assert_eq!(responsive_padding("", ""), "100%");
    assert_eq!(responsive_padding(".", "1"), "100%");
    assert_eq!(responsive_padding("1.2.3", "1"), "100%");
    assert_eq!(responsive_padding("inf", "1"), "100%");
    assert_eq!(responsive_padding("NaN", "1"), "100%");
}

#[test]
fn container_styles_of_each_layout() {
    assert_eq!(
        container_style(Layout::Fill),
        "display: block; position: absolute; top: 0; left: 0; bottom: 0; right: 0;"
    );
    assert_eq!(container_style(Layout::Responsive), "display: block; position: relative;");
    assert_eq!(
        container_style(Layout::Intrinsic),
        "display: inline-block; position: relative; max-width: 100%;"
    );
    assert_eq!(container_style(Layout::Fixed), "display: inline-block; position: relative;");
    assert_eq!(container_style(Layout::Auto), "display: inline-block; position: relative;");
    assert_eq!(
        container_style(Layout::Stretch),
        "display: block; width: 100%; height: 100%; position: relative;"
    );
    assert_eq!(
        container_style(Layout::ScaleDown),
        "display: inline-block; position: relative; max-width: 100%; max-height: 100%;"
    );
}

#[test]
fn resolve_responsive_layout() {
    let plan = resolve_layout(Layout::Responsive, "400", "600");
    assert_eq!(plan.outer_style, "display: block; position: relative;");
    assert_eq!(plan.inner_style, Some("padding-top: 150%;".to_string()));
    assert_eq!(plan.image_width, "400");
    assert_eq!(plan.image_height, "600");
    assert!(!plan.hidden_placeholder);
}

#[test]
fn resolve_responsive_layout_with_zero_width() {
    let plan = resolve_layout(Layout::Responsive, "0", "600");
    assert_eq!(plan.inner_style, Some("padding-top: 100%;".to_string()));
}

#[test]
fn resolve_intrinsic_layout() {
    let plan = resolve_layout(Layout::Intrinsic, "10", "20");
    assert_eq!(plan.inner_style, Some("max-width: 100%;".to_string()));
    assert!(plan.hidden_placeholder);
    assert_eq!(plan.image_width, "10");
}

#[test]
fn resolve_stretch_layout() {
    let plan = resolve_layout(Layout::Stretch, "10", "20");
    assert_eq!(plan.inner_style, None);
    assert_eq!(plan.image_width, "100%");
    assert_eq!(plan.image_height, "100%");
    assert!(!plan.hidden_placeholder);
}

#[test]
fn resolve_plain_layouts() {
    for l in [Layout::Fill, Layout::Fixed, Layout::Auto, Layout::ScaleDown] {
        let plan = resolve_layout(l, "10", "20");
        assert_eq!(plan.outer_style, container_style(l));
        assert_eq!(plan.inner_style, None);
        assert_eq!(plan.image_width, "10");
        assert_eq!(plan.image_height, "20");
        assert!(!plan.hidden_placeholder);
    }
}

#[test]
fn decimal_rendering() {
    assert_eq!(decimal_string(0), "0");
    assert_eq!(decimal_string(7), "7");
    assert_eq!(decimal_string(10), "10");
    assert_eq!(decimal_string(1234567890), "1234567890");
    assert_eq!(decimal_string(u64::MAX), "18446744073709551615");
}

#[test]
fn decimal_parsing() {
    let d = |mantissa: Option<u64>, frac_digits: usize| Some(DecimalValue { mantissa, frac_digits });
    assert_eq!(parse_decimal("0"), d(Some(0), 0));
    assert_eq!(parse_decimal("400"), d(Some(400), 0));
    assert_eq!(parse_decimal("1.5"), d(Some(15), 1));
    assert_eq!(parse_decimal(".5"), d(Some(5), 1));
    assert_eq!(parse_decimal("2."), d(Some(2), 0));
    assert_eq!(parse_decimal("007.50"), d(Some(750), 2));
    assert_eq!(parse_decimal("18446744073709551615"), d(Some(u64::MAX), 0));
    assert_eq!(parse_decimal("18446744073709551616"), d(None, 0));
    assert_eq!(parse_decimal("1.8446744073709551616"), d(None, 19));
    assert_eq!(parse_decimal(""), None);
    assert_eq!(parse_decimal("."), None);
    assert_eq!(parse_decimal("+4"), None);
    assert_eq!(parse_decimal("4px"), None);
    assert_eq!(parse_decimal("1e3"), None);
    assert_eq!(parse_decimal("1..5"), None);
}

#[test]
fn scaling_by_powers_of_ten() {
    assert_eq!(scale_by_pow10(7, 3), Some(7000));
    assert_eq!(scale_by_pow10(7, 0), Some(7));
    assert_eq!(scale_by_pow10(0, 100), Some(0));
    assert_eq!(scale_by_pow10(1, 19), Some(10_000_000_000_000_000_000));
    assert_eq!(scale_by_pow10(1, 20), None);
    assert_eq!(scale_by_pow10(u64::MAX, 1), None);
}

#[test]
fn ascii_case_comparison() {
    assert!(eq_ignore_ascii_case("Hello", "hELLO"));
    assert!(eq_ignore_ascii_case("", ""));
    assert!(!eq_ignore_ascii_case("hello", "hell"));
    assert!(!eq_ignore_ascii_case("a-b", "a b"));
    assert!(!eq_ignore_ascii_case("\u{212A}", "k"));
}

#[test]
fn resolve_responsive_layout_with_decimal_width() {
    let plan = resolve_layout(Layout::Responsive, "1.5", "3");
    assert_eq!(plan.inner_style, Some("padding-top: 200%;".to_string()));
    assert_eq!(plan.image_width, "1.5");
}

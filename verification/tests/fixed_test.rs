use athenos::fixed::{clamp_unit, div_floor, saturate, scale_by, times, unit_ratio, SCALE};
use athenos::text::{chars_of, clone_texts, contains, contains_token, join2, same_text};

#[test]
fn test_division_rounds_down() {
    assert_eq!(div_floor(7, 2), 3);
    assert_eq!(div_floor(-7, 2), -4);
    assert_eq!(div_floor(-8, 2), -4);
    assert_eq!(div_floor(0, 5), 0);
    assert_eq!(div_floor(-1, 1_000_000), -1);
}

#[test]
fn test_fixed_point_products() {
    assert_eq!(times(SCALE, SCALE), SCALE as i128);
    assert_eq!(times(8_000_000, 300_000), 2_400_000);
    assert_eq!(times(-3, 500_000), -2);
    assert_eq!(times(3, 500_000), 1);
    assert_eq!(scale_by(9_000_000, 100_000), 900_000);
    assert_eq!(scale_by(-9_000_001, 100_000), -900_001);
}

#[test]
fn test_clamping_and_saturation() {
    assert_eq!(clamp_unit(-5), 0);
    assert_eq!(clamp_unit(0), 0);
    assert_eq!(clamp_unit(600_000), 600_000);
    assert_eq!(clamp_unit(1_000_000), SCALE);
    assert_eq!(clamp_unit(1_000_001), SCALE);
    assert_eq!(saturate(i64::MAX as i128 + 1), i64::MAX);
    assert_eq!(saturate(i64::MIN as i128 - 1), i64::MIN);
    assert_eq!(saturate(-12), -12);
}

#[test]
fn test_ratio_of_counts() {
    assert_eq!(unit_ratio(0, 0), 0);
    assert_eq!(unit_ratio(3, 0), 0);
    assert_eq!(unit_ratio(1, 3), 333_333);
    assert_eq!(unit_ratio(2, 3), 666_666);
    assert_eq!(unit_ratio(3, 3), SCALE);
    assert_eq!(unit_ratio(5, 3), SCALE);
    assert_eq!(unit_ratio(u64::MAX, u64::MAX), SCALE);
}

#[test]
fn test_text_helpers() {
    assert!(same_text("abc", "abc"));
    assert!(!same_text("abc", "abd"));
    assert!(!same_text("abc", "ab"));
    assert_eq!(chars_of("héllo"), vec!['h', 'é', 'l', 'l', 'o']);
    assert!(contains("an unauthorized call", "unauthorized"));
    assert!(contains("breach", "breach"));
    assert!(contains("anything", ""));
    assert!(!contains("short", "longer than that"));
    assert!(!contains("unauthorised", "unauthorized"));
    assert_eq!(join2("action_", "test_001"), "action_test_001");
    let texts = vec!["copy_error".to_string(), "paste".to_string()];
    assert!(contains_token(&texts, "copy_error"));
    assert!(!contains_token(&texts, "copy"));
    assert_eq!(clone_texts(&texts), texts);
}

use std::collections::hash_map::DefaultHasher;
use std::hash::{Hash, Hasher};

use chrono::NaiveDate;
use rust_decimal::Decimal;
use wealthfolio::calendar::{CalendarDate, MAX_YEAR, MIN_YEAR};
use wealthfolio::decimal::DecimalValue;
use wealthfolio::fingerprint::compute_data_hash;
use wealthfolio::text::{
    chars_of, hex_prefix, is_white_space_char, sorted_texts, string_of_prefix, text_le_exec,
    to_ascii_uppercase, trimmed, u64_lower_hex, usize_decimal,
};

fn strings(v: &[&str]) -> Vec<String> {
    v.iter().map(|s| s.to_string()).collect()
}

fn std_hash(keys: &[&str]) -> String {
    let mut sorted = strings(keys);
    sorted.sort();
    let mut hasher = DefaultHasher::new();
    for k in &sorted {
        k.hash(&mut hasher);
    }
    format!("{:x}", hasher.finish())
}

fn dec(mantissa: i128, scale: u32) -> DecimalValue {
    DecimalValue::from_i128_with_scale(mantissa, scale).unwrap()
}

#[test]
fn data_hash_matches_default_hasher_over_sorted_keys() {
    let keys = ["act_2", "act_10", "act_1"];
    assert_eq!(compute_data_hash(&strings(&keys)), std_hash(&keys));
    assert_eq!(compute_data_hash(&[]), std_hash(&[]));
}

#[test]
fn data_hash_ignores_key_order() {
    let a = compute_data_hash(&strings(&["b", "a", "c"]));
    let b = compute_data_hash(&strings(&["c", "b", "a"]));
    assert_eq!(a, b);
    assert_ne!(a, compute_data_hash(&strings(&["a", "b"])));
    assert!(a.chars().all(|c| c.is_ascii_hexdigit() && !c.is_ascii_uppercase()));
}

#[test]
fn sorted_texts_uses_string_order() {
    let sorted = sorted_texts(&strings(&["b", "B", "ab", "", "a", "é", "ab"]));
    let mut expected = strings(&["b", "B", "ab", "", "a", "é", "ab"]);
    expected.sort();
    assert_eq!(sorted, expected);
    assert!(text_le_exec("B", "a"));
    assert!(text_le_exec("ab", "b"));
    assert!(text_le_exec("a", "a"));
    assert!(!text_le_exec("b", "ab"));
    assert!(text_le_exec("", "x"));
}

#[test]
fn trimming_and_case() {
    assert_eq!(trimmed("  a b \t\n"), "a b");
    assert_eq!(trimmed("\u{00A0}x\u{2003}"), "x");
    assert_eq!(trimmed("   "), "");
    assert!(is_white_space_char('\u{3000}'));
    assert!(!is_white_space_char('\u{200B}'));
    for c in ['\t', '\n', ' ', '\u{85}', '\u{A0}', '\u{1680}', '\u{2028}', 'a', '\u{FEFF}'] {
        assert_eq!(is_white_space_char(c), c.is_whitespace(), "{c:?}");
    }
    assert_eq!(to_ascii_uppercase("abc-é-z1"), "ABC-é-Z1");
}

#[test]
fn number_text() {
    assert_eq!(usize_decimal(0), "0");
    assert_eq!(usize_decimal(1234567), "1234567");
    assert_eq!(u64_lower_hex(0), "0");
    assert_eq!(u64_lower_hex(255), "ff");
    assert_eq!(u64_lower_hex(u64::MAX), "ffffffffffffffff");
    assert_eq!(hex_prefix(&[0x0a, 0xff, 0x10], 32), "0aff10");
    assert_eq!(hex_prefix(&[0x0a, 0xff, 0x10], 3), "0af");
    assert_eq!(hex_prefix(&[], 4), "");
}

#[test]
fn characters() {
    assert_eq!(chars_of("aé"), vec!['a', 'é']);
    assert_eq!(string_of_prefix(&vec!['x', 'y', 'z'], 2), "xy");
}

#[test]
fn calendar_validity() {
    assert!(CalendarDate::from_ymd(2024, 2, 29).is_some());
    assert!(CalendarDate::from_ymd(2000, 2, 29).is_some());
    assert!(CalendarDate::from_ymd(2023, 2, 29).is_none());
    assert!(CalendarDate::from_ymd(1900, 2, 29).is_none());
    assert!(CalendarDate::from_ymd(2026, 4, 31).is_none());
    assert!(CalendarDate::from_ymd(2026, 13, 1).is_none());
    assert!(CalendarDate::from_ymd(2026, 1, 0).is_none());
    assert!(CalendarDate::from_ymd(MAX_YEAR + 1, 1, 1).is_none());
    assert!(CalendarDate::from_ymd(MIN_YEAR - 1, 12, 31).is_none());
    for (y, m, d) in [(2024, 2, 29), (2023, 2, 29), (1900, 2, 29), (2026, 6, 31), (MAX_YEAR, 12, 31)] {
        assert_eq!(
            CalendarDate::from_ymd(y, m, d).is_some(),
            NaiveDate::from_ymd_opt(y, m, d).is_some(),
            "{y}-{m}-{d}"
        );
    }
    let d = CalendarDate::from_ymd(2026, 6, 1).unwrap();
    assert_eq!((d.year(), d.month(), d.day()), (2026, 6, 1));
}

#[test]
fn calendar_text_matches_chrono() {
    let cases = [(2026, 6, 1), (5, 1, 1), (12345, 1, 2), (-44, 3, 15), (0, 12, 31), (9999, 12, 31)];
    for (y, m, d) in cases {
        let ours = CalendarDate::from_ymd(y, m, d).unwrap().to_iso_string();
        let theirs = NaiveDate::from_ymd_opt(y, m, d).unwrap().format("%Y-%m-%d").to_string();
        assert_eq!(ours, theirs);
    }
    assert_eq!(CalendarDate::from_ymd(2026, 6, 1).unwrap().to_iso_string(), "2026-06-01");
    assert_eq!(CalendarDate::from_ymd(12345, 1, 2).unwrap().to_iso_string(), "+12345-01-02");
    assert_eq!(CalendarDate::from_ymd(-44, 3, 15).unwrap().to_iso_string(), "-0044-03-15");
}

#[test]
fn calendar_order() {
    let a = CalendarDate::from_ymd(2025, 12, 31).unwrap();
    let b = CalendarDate::from_ymd(2026, 1, 1).unwrap();
    assert!(a.is_on_or_before(&b));
    assert!(!b.is_on_or_before(&a));
    assert!(a.is_on_or_before(&a));
}

#[test]
fn decimal_construction() {
    assert!(DecimalValue::from_i128_with_scale(1, 29).is_none());
    assert!(DecimalValue::from_i128_with_scale(1i128 << 96, 0).is_none());
    assert!(DecimalValue::from_i128_with_scale(-(1i128 << 96), 0).is_none());
    assert!(DecimalValue::from_i128_with_scale((1i128 << 96) - 1, 28).is_some());
    assert!(DecimalValue::from_parts(false, 29, 0, 0, 1).is_none());
    let d = dec(-5020, 2);
    assert_eq!(d.scale(), 2);
    assert!(d.below_zero());
    assert_eq!(d.to_parts(), (true, 2, 0, 0, 5020));
    assert!(!DecimalValue::zero().below_zero());
    assert!(!DecimalValue::from_parts(true, 0, 0, 0, 0).unwrap().below_zero());
}

#[test]
fn decimal_text_and_rounding() {
    assert_eq!(dec(-5020, 2).to_text(), "-50.20");
    assert_eq!(dec(29110598755, 8).round_dp(2).to_text(), "291.11");
    assert_eq!(dec(25, 1).round_dp(0).to_text(), "2");
    assert_eq!(dec(35, 1).round_dp(0).to_text(), "4");
    assert_eq!(dec(1, 0).round_dp(6).to_text(), "1");
    assert_eq!(DecimalValue::zero().to_text(), "0");
    let expected = Decimal::from_i128_with_scale(29110598755, 8).round_dp(2).to_string();
    assert_eq!(dec(29110598755, 8).round_dp(2).to_text(), expected);
}

#[test]
fn decimal_subtraction() {
    let total = dec(-5020, 2);
    let cash = dec(-5020, 2);
    let investments = total.checked_sub(&cash).unwrap();
    assert!(!investments.below_zero());
    assert_eq!(investments.to_text(), "0.00");
    assert_eq!(dec(1000, 1).checked_sub(&dec(25, 2)).unwrap().to_text(), "99.75");
    let max = DecimalValue::from_parts(false, 0, u32::MAX, u32::MAX, u32::MAX).unwrap();
    let min = DecimalValue::from_parts(true, 0, u32::MAX, u32::MAX, u32::MAX).unwrap();
    assert!(min.checked_sub(&max).is_none());
    assert!(max.checked_sub(&max).is_some());
}

fn reference_round(negative: bool, scale: u32, m: u128, dp: u32) -> (bool, u32, u128) {
    if scale <= dp {
        return (negative && m != 0, scale, m);
    }
    let p = 10u128.pow(scale - dp);
    let (q, r) = (m / p, m % p);
    let q = if 2 * r > p || (2 * r == p && q % 2 == 1) { q + 1 } else { q };
    (negative && q != 0, dp, q)
}

fn reference_display(negative: bool, scale: u32, m: u128) -> String {
    let mut digits = m.to_string();
    while digits.len() < scale as usize {
        digits.insert(0, '0');
    }
    let cut = digits.len() - scale as usize;
    let whole = if cut == 0 { "0".to_string() } else { digits[..cut].to_string() };
    let body = if scale == 0 { whole } else { format!("{}.{}", whole, &digits[cut..]) };
    if negative && m != 0 { format!("-{body}") } else { body }
}

#[test]
fn rounding_and_display_follow_their_statements() {
    let mantissas: [i128; 14] = [
        0, 1, -1, 5, -5, 15, 25, -25, 12345, -12345, 29110598755, 999999, -1000000,
        (1i128 << 96) - 1,
    ];
    for &m in &mantissas {
        for scale in [0u32, 1, 2, 3, 6, 10, 28] {
            let d = Decimal::from_i128_with_scale(m, scale);
            let ours = dec(m, scale);
            assert_eq!(ours.to_text(), d.to_string());
            assert_eq!(ours.to_text(), reference_display(m < 0, scale, m.unsigned_abs()), "{m} {scale}");
            for dp in [0u32, 1, 2, 5, 6, 30] {
                let (neg, s, q) = reference_round(m < 0, scale, m.unsigned_abs(), dp);
                let r = ours.round_dp(dp);
                let (rn, rs, hi, mid, lo) = r.to_parts();
                let rm = ((hi as u128) << 64) | ((mid as u128) << 32) | lo as u128;
                assert_eq!((rn, rs, rm), (neg, s, q), "{m} {scale} {dp}");
                assert_eq!(r.to_text(), d.round_dp(dp).to_string());
            }
        }
    }
    let negative_zero = DecimalValue::from_parts(true, 3, 0, 0, 0).unwrap();
    assert_eq!(negative_zero.to_text(), "0.000");
    assert_eq!(dec(-1, 3).round_dp(2).to_text(), "0.00");
    assert_eq!(dec(-1, 3).round_dp(2).to_parts(), (false, 2, 0, 0, 0));
}

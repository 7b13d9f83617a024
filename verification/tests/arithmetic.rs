use tera_sim::fixed::clamp;
use tera_sim::fixed::interpolate;
use tera_sim::fixed::scale;
use tera_sim::fixed::scale_clamped;
use tera_sim::fixed::share;
use tera_sim::fixed::share_rounded;
use tera_sim::fixed::SCALE;
use tera_sim::text::append_decimal;
use tera_sim::text::append_fixed;
use tera_sim::text::append_grouped;
use tera_sim::text::append_padded;

fn fixed(value: i64, decimals: u32) -> String {
    let mut out = String::new();
    append_fixed(&mut out, value, decimals);
    out
}

#[test]
fn products_round_toward_negative_infinity() {
    assert_eq!(SCALE, 1_000_000);
    assert_eq!(scale(7, 1, 2), 3);
    assert_eq!(scale(-7, 1, 2), -4);
    assert_eq!(scale(7, -1, 2), -4);
    assert_eq!(scale(-7, -1, 2), 3);
    assert_eq!(scale(-8, 1, 2), -4);
    assert_eq!(scale(0, 5, 3), 0);
    assert_eq!(scale(50_000_000, 999, 1000), 49_950_000);
    assert_eq!(scale(i64::MAX, i64::MAX, i64::MAX), i64::MAX);
    assert_eq!(scale(i64::MIN, 1, 1), i64::MIN);
    assert_eq!(scale(i64::MIN, i64::MAX, i64::MAX), i64::MIN);
}

#[test]
fn clamped_products_never_overflow() {
    assert_eq!(scale_clamped(i64::MAX, i64::MAX, 1, -5, 5), 5);
    assert_eq!(scale_clamped(i64::MIN, i64::MAX, 1, -5, 5), -5);
    assert_eq!(scale_clamped(i64::MIN, i64::MIN, 1, i64::MIN, i64::MAX), i64::MAX);
    assert_eq!(scale_clamped(9, 1, 2, 0, 10), 4);
    assert_eq!(scale_clamped(-9, 1, 2, 0, 10), 0);
    assert_eq!(clamp(5, 0, 3), 3);
    assert_eq!(clamp(-5, 0, 3), 0);
    assert_eq!(clamp(2, 0, 3), 2);
    assert_eq!(clamp(2, 2, 2), 2);
}

#[test]
fn shares_of_counts() {
    assert_eq!(share(3_000_000, 5, 10_000), 1_500);
    assert_eq!(share(999, 1, 1000), 0);
    assert_eq!(share(u64::MAX, u64::MAX, u64::MAX), u64::MAX);
    assert_eq!(share(u64::MAX, 1, 2), u64::MAX / 2);
    assert_eq!(share_rounded(1_800_000, 8, 10_000), 1_440);
    assert_eq!(share_rounded(624, 8, 10_000), 0);
    assert_eq!(share_rounded(625, 8, 10_000), 1);
    assert_eq!(share_rounded(3, 1, 2), 2);
    assert_eq!(share_rounded(u64::MAX, 1, 2), u64::MAX / 2 + 1);
    assert_eq!(share_rounded(0, 1, 2), 0);
}

#[test]
fn lines_between_points() {
    assert_eq!(interpolate(5, 0, 0, 10, 100), 50);
    assert_eq!(interpolate(0, 0, 7, 10, 100), 7);
    assert_eq!(interpolate(10, 0, 7, 10, 100), 100);
    assert_eq!(interpolate(5, 0, 100, 10, 0), 50);
    assert_eq!(interpolate(1, 0, 10, 3, 0), 6);
    assert_eq!(interpolate(2, 0, 10, 3, 0), 3);
    assert_eq!(interpolate(-5, -10, -3, 0, 3), 0);
}

#[test]
fn stored_values_are_written_in_units() {
    assert_eq!(fixed(0, 0), "0");
    assert_eq!(fixed(0, 2), "0.00");
    assert_eq!(fixed(1_000_000, 0), "1");
    assert_eq!(fixed(1_499_999, 0), "1");
    assert_eq!(fixed(1_500_000, 0), "2");
    assert_eq!(fixed(33_330_000, 2), "33.33");
    assert_eq!(fixed(33_335_000, 2), "33.34");
    assert_eq!(fixed(33_334_999, 2), "33.33");
    assert_eq!(fixed(999_950, 1), "1.0");
    assert_eq!(fixed(50_000, 1), "0.1");
    assert_eq!(fixed(49_999, 1), "0.0");
    assert_eq!(fixed(-1_250_000, 1), "-1.3");
    assert_eq!(fixed(-1_250_000, 2), "-1.25");
    assert_eq!(fixed(-400_000, 0), "0");
    assert_eq!(fixed(-600_000, 0), "-1");
    assert_eq!(fixed(1_234_567, 6), "1.234567");
    assert_eq!(fixed(1_234_567, 9), "1.234567");
    assert_eq!(fixed(i64::MAX, 0), "9223372036855");
    assert_eq!(fixed(i64::MIN, 2), "-9223372036854.78");
}

#[test]
fn digits_are_appended() {
    let mut out = String::from("n=");
    append_decimal(&mut out, 0);
    out.push(' ');
    append_decimal(&mut out, 10_203);
    out.push(' ');
    append_decimal(&mut out, u64::MAX);
    assert_eq!(out, "n=0 10203 18446744073709551615");
    let mut padded = String::new();
    append_padded(&mut padded, 7, 3);
    padded.push('|');
    append_padded(&mut padded, 12_345, 2);
    padded.push('|');
    append_padded(&mut padded, 5, 0);
    assert_eq!(padded, "007|45|");
    let mut grouped = String::from("#");
    append_grouped(&mut grouped, 1_000_000);
    assert_eq!(grouped, "#1,000,000");
}

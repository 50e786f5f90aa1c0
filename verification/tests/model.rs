use freetrade::args::{expect_arg, str_eq, UsageError};
use freetrade::decimal::{u64_digits, Decimal};
use freetrade::ticker::{format_ticker, strip_dots};
use freetrade::timestamp::{date_string, Timestamp};

#[test]
fn test_decimal_rendering() {
    assert_eq!(Decimal::new(false, 9015, 2).to_text(), "90.15");
    assert_eq!(Decimal::new(true, 9015, 2).to_text(), "-90.15");
    assert_eq!(Decimal::new(false, 30, 0).to_text(), "30");
    assert_eq!(Decimal::new(false, 255, 1).to_text(), "25.5");
    assert_eq!(Decimal::new(false, 5, 2).to_text(), "0.05");
    assert_eq!(Decimal::new(false, 15, 2).to_text(), "0.15");
    assert_eq!(Decimal::new(false, 0, 0).to_text(), "0");
}

#[test]
fn test_decimal_new_normalizes() {
    // Trailing fractional zeros are stripped.
    let d = Decimal::new(false, 90150, 3);
    assert_eq!(d.mantissa, 9015);
    assert_eq!(d.scale, 2);
    assert_eq!(d.to_text(), "90.15");
    // Zero loses both its scale and its sign.
    let z = Decimal::new(true, 0, 4);
    assert_eq!(z.mantissa, 0);
    assert_eq!(z.scale, 0);
    assert!(!z.negative);
    assert_eq!(z.to_text(), "0");
    // An integral value keeps no decimal point.
    assert_eq!(Decimal::new(false, 3000, 3).to_text(), "3");
}

#[test]
fn test_decimal_negation() {
    let d = Decimal::new(false, 9015, 2);
    assert_eq!(d.neg().to_text(), "-90.15");
    let z = Decimal::new(false, 0, 0);
    assert_eq!(z.neg().to_text(), "0");
}

#[test]
fn test_digit_strings() {
    assert_eq!(u64_digits(0), "0");
    assert_eq!(u64_digits(7), "7");
    assert_eq!(u64_digits(90), "90");
    assert_eq!(u64_digits(123456789), "123456789");
    assert_eq!(u64_digits(u64::MAX), "18446744073709551615");
}

#[test]
fn test_date_rendering_pads_every_field() {
    let t = Timestamp { year: 199, month: 1, day: 2, hour: 0, minute: 0, second: 0 };
    assert_eq!(date_string(&t), "0199-01-02");
    let t = Timestamp { year: 2020, month: 12, day: 31, hour: 23, minute: 59, second: 59 };
    assert_eq!(date_string(&t), "2020-12-31");
}

#[test]
fn test_timestamp_ordering() {
    let a = Timestamp { year: 2020, month: 1, day: 2, hour: 3, minute: 4, second: 5 };
    let b = Timestamp { year: 2020, month: 1, day: 2, hour: 3, minute: 4, second: 6 };
    assert!(a.le(&b));
    assert!(!b.le(&a));
    assert!(a.le(&a));
    let c = Timestamp { year: 2019, month: 12, day: 31, hour: 23, minute: 59, second: 59 };
    assert!(c.le(&a));
}

#[test]
fn test_ticker_normalization_rules() {
    // Dots are stripped for account paths, never for the unit symbol.
    assert_eq!(strip_dots("BAR.Z"), "BARZ");
    assert_eq!(strip_dots("FOO"), "FOO");
    assert_eq!(strip_dots("..."), "");
    assert_eq!(format_ticker("BAR.Z"), "BAR.Z");
    // A one-character symbol is doubled only as a unit symbol.
    assert_eq!(format_ticker("F"), "FF");
    assert_eq!(strip_dots("F"), "F");
    assert_eq!(format_ticker("FOO"), "FOO");
}

#[test]
fn test_str_eq() {
    assert!(str_eq("", ""));
    assert!(str_eq("abc", "abc"));
    assert!(!str_eq("abc", "abd"));
    assert!(!str_eq("abc", "abcd"));
}

#[test]
fn test_expect_arg() {
    let args: Vec<String> = vec!["-i".into(), "input.csv".into()];
    assert_eq!(expect_arg("-i", "--input", &args, 0), Ok("input.csv".into()));
    assert_eq!(expect_arg("-a", "--account", &args, 0), Err(UsageError));

    let args: Vec<String> = vec!["--account".into(), "SIPP".into()];
    assert_eq!(expect_arg("-a", "--account", &args, 0), Ok("SIPP".into()));

    // A flag without its value is a usage error.
    let args: Vec<String> = vec!["-i".into()];
    assert_eq!(expect_arg("-i", "--input", &args, 0), Err(UsageError));
    // So is running out of arguments entirely.
    let args: Vec<String> = vec![];
    assert_eq!(expect_arg("-i", "--input", &args, 0), Err(UsageError));
}

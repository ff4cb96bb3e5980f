//! Input parsing: expiration dates and the requested code count.

use rusty_voucher::dates::{
    end_of_day_utc_exec, end_of_day_with_offset, expiration_timestamp, parse_date, Date,
    ExpirationError,
};
use rusty_voucher::numbers::{parse_code_count, parse_i32, parse_usize, CountError};

#[test]
fn date_plain() {
    assert_eq!(
        parse_date(b"2030-01-01"),
        Some(Date { year: 2030, month: 1, day: 1 })
    );
    assert_eq!(
        parse_date(b"1999-12-31"),
        Some(Date { year: 1999, month: 12, day: 31 })
    );
    assert_eq!(
        parse_date(b"0000-01-01"),
        Some(Date { year: 0, month: 1, day: 1 })
    );
    assert_eq!(
        parse_date(b"9999-12-31"),
        Some(Date { year: 9999, month: 12, day: 31 })
    );
}

#[test]
fn date_leap_years() {
    assert_eq!(
        parse_date(b"2028-02-29"),
        Some(Date { year: 2028, month: 2, day: 29 })
    );
    assert_eq!(
        parse_date(b"2000-02-29"),
        Some(Date { year: 2000, month: 2, day: 29 })
    );
    assert_eq!(parse_date(b"2030-02-29"), None);
    assert_eq!(parse_date(b"2100-02-29"), None);
    assert_eq!(parse_date(b"2028-02-30"), None);
}

#[test]
fn date_malformed() {
    assert_eq!(parse_date(b""), None);
    assert_eq!(parse_date(b"2030-1-1"), None);
    assert_eq!(parse_date(b"2030/01/01"), None);
    assert_eq!(parse_date(b"2030-13-01"), None);
    assert_eq!(parse_date(b"2030-00-01"), None);
    assert_eq!(parse_date(b"2030-01-00"), None);
    assert_eq!(parse_date(b"2030-01-32"), None);
    assert_eq!(parse_date(b"2030-01-01 "), None);
    assert_eq!(parse_date(b"203O-01-01"), None);
    assert_eq!(parse_date(b"-030-01-01"), None);
}

#[test]
fn end_of_day_exact_epoch_seconds() {
    let epoch = Date { year: 1970, month: 1, day: 1 };
    assert_eq!(end_of_day_utc_exec(epoch), 86399);
    let before = Date { year: 1969, month: 12, day: 31 };
    assert_eq!(end_of_day_utc_exec(before), -1);
    let far = Date { year: 2030, month: 1, day: 1 };
    assert_eq!(end_of_day_utc_exec(far), 1893542399);
    let last = Date { year: 9999, month: 12, day: 31 };
    assert_eq!(end_of_day_utc_exec(last), 253402300799);
}

#[test]
fn end_of_day_offset_shifts_west() {
    let d = Date { year: 2030, month: 1, day: 1 };
    assert_eq!(end_of_day_with_offset(d, 0), 1893542399);
    assert_eq!(end_of_day_with_offset(d, 3600), 1893542399 - 3600);
    assert_eq!(end_of_day_with_offset(d, -18000), 1893542399 + 18000);
}

#[test]
fn expiration_matches_chrono_local() {
    // The library's arithmetic against the calculation the tool's flow is
    // specified by: 23:59:59 local time, chrono's local-zone conversion.
    let moment = chrono::NaiveDateTime::parse_from_str(
        "2030-01-01 23:59:59",
        "%Y-%m-%d %H:%M:%S",
    )
    .unwrap();
    let expected = chrono::TimeZone::from_local_datetime(&chrono::Local, &moment)
        .unwrap()
        .timestamp();
    let (got, _offset) = expiration_timestamp(b"2030-01-01").unwrap();
    assert_eq!(got, expected);
}

#[test]
fn expiration_rejects_bad_dates() {
    assert_eq!(
        expiration_timestamp(b"not a date"),
        Err(ExpirationError::Unparseable)
    );
    assert_eq!(
        expiration_timestamp(b"2030-02-29"),
        Err(ExpirationError::Unparseable)
    );
}

#[test]
fn count_accepts_positive() {
    assert_eq!(parse_code_count(b"3"), Ok(3));
    assert_eq!(parse_code_count(b"+7"), Ok(7));
    assert_eq!(parse_code_count(b"1"), Ok(1));
    assert_eq!(parse_code_count(b"2147483647"), Ok(2147483647));
}

#[test]
fn count_rejects_non_positive() {
    assert_eq!(parse_code_count(b"0"), Err(CountError::NotPositive));
    assert_eq!(parse_code_count(b"-5"), Err(CountError::NotPositive));
    assert_eq!(parse_code_count(b"-2147483648"), Err(CountError::NotPositive));
}

#[test]
fn count_rejects_non_numeric() {
    assert_eq!(parse_code_count(b""), Err(CountError::Unparseable));
    assert_eq!(parse_code_count(b"abc"), Err(CountError::Unparseable));
    assert_eq!(parse_code_count(b"12x"), Err(CountError::Unparseable));
    assert_eq!(parse_code_count(b" 3"), Err(CountError::Unparseable));
    assert_eq!(parse_code_count(b"3.5"), Err(CountError::Unparseable));
    assert_eq!(parse_code_count(b"2147483648"), Err(CountError::Unparseable));
    assert_eq!(parse_code_count(b"+"), Err(CountError::Unparseable));
    assert_eq!(parse_code_count(b"-"), Err(CountError::Unparseable));
}

#[test]
fn plain_numeral_parsers() {
    assert_eq!(parse_usize(b"4"), Some(4));
    assert_eq!(parse_usize(b"+4"), Some(4));
    assert_eq!(parse_usize(b"-1"), None);
    assert_eq!(parse_usize(b"007"), Some(7));
    assert_eq!(parse_usize(b"18446744073709551615"), Some(usize::MAX));
    assert_eq!(parse_usize(b"18446744073709551616"), None);
    assert_eq!(parse_i32(b"-2147483648"), Some(i32::MIN));
    assert_eq!(parse_i32(b"2147483647"), Some(i32::MAX));
    assert_eq!(parse_i32(b"-2147483649"), None);
    assert_eq!(parse_i32(b"99999999999999999999999999999"), None);
}

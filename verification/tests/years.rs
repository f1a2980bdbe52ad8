use cdscanner::error::Error;
use cdscanner::year::{parse_year, year_from_date};

#[test]
fn reads_plain_years() {
    assert_eq!(parse_year("1999"), Ok(1999));
    assert_eq!(parse_year("0"), Ok(0));
    assert_eq!(parse_year("65535"), Ok(65535));
}

#[test]
fn reads_sign_and_leading_zeros() {
    assert_eq!(parse_year("+1999"), Ok(1999));
    assert_eq!(parse_year("0001999"), Ok(1999));
    assert_eq!(parse_year("+000"), Ok(0));
}

#[test]
fn refuses_what_is_no_number() {
    assert_eq!(parse_year(""), Err(Error::Parse));
    assert_eq!(parse_year("+"), Err(Error::Parse));
    assert_eq!(parse_year("-"), Err(Error::Parse));
    assert_eq!(parse_year("-1"), Err(Error::Parse));
    assert_eq!(parse_year("++1"), Err(Error::Parse));
    assert_eq!(parse_year("19x9"), Err(Error::Parse));
    assert_eq!(parse_year(" 1999"), Err(Error::Parse));
    assert_eq!(parse_year("1999 "), Err(Error::Parse));
    assert_eq!(parse_year("1_999"), Err(Error::Parse));
    assert_eq!(parse_year("unknown"), Err(Error::Parse));
    assert_eq!(parse_year("١٩٩٩"), Err(Error::Parse));
}

#[test]
fn refuses_years_above_sixteen_bits() {
    assert_eq!(parse_year("65536"), Err(Error::Parse));
    assert_eq!(parse_year("99999"), Err(Error::Parse));
    assert_eq!(parse_year("4294967296"), Err(Error::Parse));
    assert_eq!(parse_year("18446744073709551616"), Err(Error::Parse));
    assert_eq!(parse_year("99999x"), Err(Error::Parse));
}

#[test]
fn parse_year_agrees_with_std() {
    let texts = [
        "", "+", "-", "0", "7", "+7", "-7", "007", "1999", "2024", "65535", "65536", "065535",
        "655350", "1e3", "0x10", "12 ", " 12", "+-1", "1+", "٣", "99999999999999999999999",
    ];
    for t in texts {
        assert_eq!(parse_year(t).ok(), t.parse::<u16>().ok());
    }
}

#[test]
fn years_of_dates_must_fit() {
    assert_eq!(year_from_date(1999), Ok(1999));
    assert_eq!(year_from_date(0), Ok(0));
    assert_eq!(year_from_date(65535), Ok(65535));
    assert_eq!(year_from_date(65536), Err(Error::Parse));
    assert_eq!(year_from_date(-1), Err(Error::Parse));
    assert_eq!(year_from_date(i32::MIN), Err(Error::Parse));
    assert_eq!(year_from_date(i32::MAX), Err(Error::Parse));
}

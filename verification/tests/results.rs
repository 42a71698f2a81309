use yaqb::db_result::parse_row_count;

#[test]
fn row_count_is_read_from_digits() {
    assert_eq!(parse_row_count(""), 0);
    assert_eq!(parse_row_count("0"), 0);
    assert_eq!(parse_row_count("7"), 7);
    assert_eq!(parse_row_count("42"), 42);
    assert_eq!(parse_row_count("007"), 7);
    assert_eq!(parse_row_count("1234567890"), 1234567890);
}

#[test]
fn row_count_of_anything_else_is_zero() {
    assert_eq!(parse_row_count("12a"), 0);
    assert_eq!(parse_row_count("a12"), 0);
    assert_eq!(parse_row_count("-1"), 0);
    assert_eq!(parse_row_count(" 1"), 0);
    assert_eq!(parse_row_count("1.5"), 0);
    assert_eq!(parse_row_count("١٢"), 0);
}

#[test]
fn row_count_that_does_not_fit_is_zero() {
    assert_eq!(parse_row_count("18446744073709551615"), 18446744073709551615);
    assert_eq!(parse_row_count("18446744073709551616"), 0);
    assert_eq!(parse_row_count("99999999999999999999999999"), 0);
    assert_eq!(parse_row_count("184467440737095516150"), 0);
}

use tile_gateway::coordinate::{parse_segment, Axis, MalformedCoordinate, TileCoordinate};

#[test]
fn plain_digits_parse() {
    assert_eq!(parse_segment("0"), Some(0));
    assert_eq!(parse_segment("3"), Some(3));
    assert_eq!(parse_segment("42"), Some(42));
    assert_eq!(parse_segment("1234567"), Some(1234567));
}

#[test]
fn leading_zeros_and_plus_sign_are_accepted() {
    assert_eq!(parse_segment("007"), Some(7));
    assert_eq!(parse_segment("+5"), Some(5));
    assert_eq!(parse_segment("+0"), Some(0));
}

#[test]
fn negative_zero_is_zero() {
    assert_eq!(parse_segment("-0"), Some(0));
    assert_eq!(parse_segment("-000"), Some(0));
}

#[test]
fn negative_numbers_are_rejected() {
    assert_eq!(parse_segment("-1"), None);
    assert_eq!(parse_segment("-42"), None);
    assert_eq!(parse_segment("-2147483648"), None);
}

#[test]
fn non_integers_are_rejected() {
    assert_eq!(parse_segment("abc"), None);
    assert_eq!(parse_segment("1.5"), None);
    assert_eq!(parse_segment(""), None);
    assert_eq!(parse_segment("+"), None);
    assert_eq!(parse_segment("-"), None);
    assert_eq!(parse_segment("12a"), None);
    assert_eq!(parse_segment("a12"), None);
    assert_eq!(parse_segment(" 1"), None);
    assert_eq!(parse_segment("1 "), None);
    assert_eq!(parse_segment("++1"), None);
    assert_eq!(parse_segment("١٢"), None);
}

#[test]
fn largest_value_is_accepted_and_the_next_is_not() {
    assert_eq!(parse_segment("2147483647"), Some(2147483647));
    assert_eq!(parse_segment("2147483648"), None);
    assert_eq!(parse_segment("99999999999999999999999"), None);
    assert_eq!(parse_segment("00000000002147483647"), Some(2147483647));
}

#[test]
fn three_segments_make_a_coordinate() {
    assert_eq!(
        TileCoordinate::parse("3", "2", "1"),
        Ok(TileCoordinate { zoom: 3, column: 2, row: 1 })
    );
}

#[test]
fn out_of_pyramid_values_pass_through() {
    assert_eq!(
        TileCoordinate::parse("40", "9", "100000"),
        Ok(TileCoordinate { zoom: 40, column: 9, row: 100000 })
    );
    assert_eq!(
        TileCoordinate::parse("0", "5", "5"),
        Ok(TileCoordinate { zoom: 0, column: 5, row: 5 })
    );
}

#[test]
fn first_malformed_segment_is_named() {
    assert_eq!(
        TileCoordinate::parse("abc", "2", "1"),
        Err(MalformedCoordinate { axis: Axis::Zoom })
    );
    assert_eq!(
        TileCoordinate::parse("3", "-1", "1"),
        Err(MalformedCoordinate { axis: Axis::Column })
    );
    assert_eq!(
        TileCoordinate::parse("3", "2", "1.5"),
        Err(MalformedCoordinate { axis: Axis::Row })
    );
    assert_eq!(
        TileCoordinate::parse("x", "y", "z"),
        Err(MalformedCoordinate { axis: Axis::Zoom })
    );
    assert_eq!(
        TileCoordinate::parse("1", "y", "z"),
        Err(MalformedCoordinate { axis: Axis::Column })
    );
}

use ficha::records::parse_int;
use ficha::text::decimal_text;

#[test]
fn whole_numbers_are_written_as_they_are_printed() {
    for n in [
        0,
        1,
        9,
        10,
        11,
        99,
        100,
        101,
        1_000_000,
        -1,
        -9,
        -10,
        -1_234_567_890,
        i64::MAX,
        i64::MIN,
        i64::MAX - 1,
        i64::MIN + 1,
        9_007_199_254_740_993,
    ] {
        assert_eq!(decimal_text(n), n.to_string());
    }
}

#[test]
fn written_numbers_are_read_back() {
    for n in [0, 7, -7, 10, -10, 4_096, i64::MAX, i64::MIN] {
        assert_eq!(parse_int(&decimal_text(n)), Some(n));
    }
}

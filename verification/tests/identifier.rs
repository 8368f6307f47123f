use midnight_library::identifier::{identifier_from, parse_id, NIL_ID};

#[test]
fn nil_is_zero() {
    assert_eq!(NIL_ID, 0);
}

#[test]
fn a_parse_that_failed_stands_for_nil() {
    assert_eq!(identifier_from(None), 0);
    assert_eq!(identifier_from(Some(0)), 0);
    assert_eq!(identifier_from(Some(42)), 42);
    assert_eq!(identifier_from(Some(u128::MAX)), u128::MAX);
}

#[test]
fn hyphenated_text_gives_the_value() {
    assert_eq!(
        parse_id("a1a2a3a4-b1b2-c1c2-d1d2-d3d4d5d6d7d8"),
        0xa1a2a3a4b1b2c1c2d1d2d3d4d5d6d7d8
    );
    assert_eq!(parse_id("00000000-0000-0000-0000-000000000001"), 1);
    assert_eq!(parse_id("ffffffff-ffff-ffff-ffff-ffffffffffff"), u128::MAX);
    assert_eq!(parse_id("FFFFFFFF-FFFF-FFFF-FFFF-FFFFFFFFFFFE"), u128::MAX - 1);
}

#[test]
fn other_spellings_give_the_same_value() {
    let value = 0x550e8400e29b41d4a716446655440000;
    assert_eq!(parse_id("550e8400-e29b-41d4-a716-446655440000"), value);
    assert_eq!(parse_id("550e8400e29b41d4a716446655440000"), value);
    assert_eq!(parse_id("urn:uuid:550e8400-e29b-41d4-a716-446655440000"), value);
    assert_eq!(parse_id("{550e8400-e29b-41d4-a716-446655440000}"), value);
}

#[test]
fn text_that_is_no_identifier_gives_nil() {
    for text in [
        "",
        " ",
        "1",
        "not-a-uuid",
        "550e8400-e29b-41d4-a716-44665544000",
        "550e8400-e29b-41d4-a716-4466554400000",
        "550e8400-e29b-41d4-a716-44665544000g",
        " 550e8400-e29b-41d4-a716-446655440000",
        "550e8400-e29b-41d4-a716-446655440000\n",
    ] {
        assert_eq!(parse_id(text), NIL_ID);
    }
}

#[test]
fn the_nil_identifier_reads_as_nil() {
    assert_eq!(parse_id("00000000-0000-0000-0000-000000000000"), NIL_ID);
}

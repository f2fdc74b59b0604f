use bedrock_ws::request_id::{mint_request_id, parse_request_id, render_request_id};

const SAMPLE: u128 = 0x550e8400_e29b_41d4_a716_446655440000;

#[test]
fn render_writes_the_hyphenated_lower_case_form() {
    assert_eq!(render_request_id(SAMPLE), "550e8400-e29b-41d4-a716-446655440000");
    assert_eq!(render_request_id(0), "00000000-0000-0000-0000-000000000000");
    assert_eq!(render_request_id(u128::MAX), "ffffffff-ffff-ffff-ffff-ffffffffffff");
    assert_eq!(render_request_id(0xabc), "00000000-0000-0000-0000-000000000abc");
}

#[test]
fn parse_reads_the_forms_the_parser_accepts() {
    assert_eq!(parse_request_id("550e8400-e29b-41d4-a716-446655440000"), Some(SAMPLE));
    assert_eq!(parse_request_id("550E8400-E29B-41D4-A716-446655440000"), Some(SAMPLE));
    assert_eq!(parse_request_id("550e8400e29b41d4a716446655440000"), Some(SAMPLE));
    assert_eq!(parse_request_id("{550e8400-e29b-41d4-a716-446655440000}"), Some(SAMPLE));
    assert_eq!(
        parse_request_id("urn:uuid:550e8400-e29b-41d4-a716-446655440000"),
        Some(SAMPLE)
    );
}

#[test]
fn parse_rejects_what_is_no_id() {
    assert_eq!(parse_request_id(""), None);
    assert_eq!(parse_request_id("550e8400-e29b-41d4-a716"), None);
    assert_eq!(parse_request_id("550e8400-e29b-41d4-a716-44665544000g"), None);
}

#[test]
fn parse_of_render_gives_the_id_back() {
    for id in [0u128, 1, SAMPLE, u128::MAX, 0x0123_4567_89ab_cdef_0123_4567_89ab_cdef] {
        assert_eq!(parse_request_id(&render_request_id(id)), Some(id));
    }
}

#[test]
fn minted_ids_are_random_version_four() {
    let first = mint_request_id();
    let second = mint_request_id();
    assert_ne!(first, second);
    for id in [first, second] {
        assert_eq!(
            id & 0x0000_0000_0000_f000_c000_0000_0000_0000,
            0x0000_0000_0000_4000_8000_0000_0000_0000
        );
    }
}

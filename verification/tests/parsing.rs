use sprinklers::root_html::get_root_html;
use sprinklers::uri::parse_http_uri;
use sprinklers::uri::parse_i64_or_zero;
use sprinklers::uri::parse_u32_or_zero;

#[test]
fn parses_first_parameter_up_to_ampersand() {
    let uri = "/update_aspersor/valve_a?duration=300&init_time=7200";
    assert_eq!(parse_http_uri(uri, "duration"), "300");
    assert_eq!(parse_http_uri(uri, "init_time"), "7200");
}

#[test]
fn last_parameter_runs_to_end_of_uri() {
    let uri = "/set_time?timestamp=1700000000";
    assert_eq!(parse_http_uri(uri, "timestamp"), "1700000000");
}

#[test]
fn empty_value_is_returned_empty() {
    assert_eq!(parse_http_uri("/q?a=&b=2", "a"), "");
    assert_eq!(parse_http_uri("/q?a=", "a"), "");
}

#[test]
fn first_occurrence_wins_even_in_the_route() {
    // The search is not anchored to the query string: a name occurring in
    // the path is found there first.
    let uri = "/duration_report?duration=55";
    assert_eq!(parse_http_uri(uri, "duration"), "report?duration=55");
}

#[test]
fn value_then_parse_or_default_matches_request_handling() {
    // Request handling reads values permissively, substituting zero.
    assert_eq!(parse_u32_or_zero(parse_http_uri("/u?duration=42", "duration")), 42);
    assert_eq!(parse_u32_or_zero(parse_http_uri("/u?duration=4x2", "duration")), 0);
}

#[test]
fn parse_u32_or_zero_accepts_what_the_standard_parser_accepts() {
    for input in [
        "0", "1", "42", "300", "+42", "4294967295", "4294967296", "99999999999999999999", "",
        "+", "-1", " 42", "42 ", "4x2", "0042",
    ] {
        assert_eq!(
            parse_u32_or_zero(input),
            input.parse::<u32>().unwrap_or(0),
            "input {input:?}"
        );
    }
}

#[test]
fn parse_u32_or_zero_exact_values() {
    assert_eq!(parse_u32_or_zero("300"), 300);
    assert_eq!(parse_u32_or_zero("+7200"), 7200);
    assert_eq!(parse_u32_or_zero("4294967295"), u32::MAX);
    // Overflow and malformed text both default to zero.
    assert_eq!(parse_u32_or_zero("4294967296"), 0);
    assert_eq!(parse_u32_or_zero("12a"), 0);
    assert_eq!(parse_u32_or_zero(""), 0);
}

#[test]
fn parse_i64_or_zero_accepts_what_the_standard_parser_accepts() {
    for input in [
        "0", "-0", "1700000000", "-10", "+55", "9223372036854775807", "9223372036854775808",
        "-9223372036854775808", "-9223372036854775809", "", "+", "-", "--1", "1.5", "1e3",
    ] {
        assert_eq!(
            parse_i64_or_zero(input),
            input.parse::<i64>().unwrap_or(0),
            "input {input:?}"
        );
    }
}

#[test]
fn parse_i64_or_zero_exact_values() {
    assert_eq!(parse_i64_or_zero("1700000000"), 1700000000);
    assert_eq!(parse_i64_or_zero("-10800"), -10800);
    assert_eq!(parse_i64_or_zero("9223372036854775807"), i64::MAX);
    assert_eq!(parse_i64_or_zero("-9223372036854775808"), i64::MIN);
    // One past either end of the range defaults to zero.
    assert_eq!(parse_i64_or_zero("9223372036854775808"), 0);
    assert_eq!(parse_i64_or_zero("-9223372036854775809"), 0);
}

#[test]
fn root_page_embeds_the_server_time() {
    let page = get_root_html("2024-01-01 10:30:00 -03:00");
    assert!(page.starts_with("<!DOCTYPE html>"));
    assert!(page.ends_with("</html>"));
    assert!(page.contains("const SERVER_TIME = \"2024-01-01 10:30:00 -03:00\";"));
    assert!(page.contains("Control de Aspersores"));
}

#[test]
fn root_page_varies_only_in_the_embedded_time() {
    let a = get_root_html("AAA");
    let b = get_root_html("BBB");
    assert_ne!(a, b);
    assert_eq!(a.replace("AAA", "BBB"), b);
}

//! The provider-document decoder, on concrete documents.

use purple_air::decode::{decode, DecodeError};

fn decode_str(s: &str) -> Result<purple_air::decode::Response, DecodeError> {
    let bytes: Vec<u8> = s.as_bytes().to_vec();
    decode(&bytes)
}

const GOOD_BODY: &str = "{\"mapVersion\":\"0.17\",\"results\":[{\"ID\":12345,\"Label\":\"Porch\",\"extra\":{\"nested\":[1,2,\"x\"]},\"Stats\":\"{\\\"v\\\":5.0,\\\"v1\\\":6.0,\\\"v2\\\":7.0,\\\"v3\\\":8.0,\\\"v4\\\":9.0,\\\"v5\\\":10.0,\\\"v6\\\":11.0}\"}]}";

#[test]
fn well_formed_document_round_trips() {
    let resp = decode_str(GOOD_BODY).expect("document decodes");
    assert_eq!(resp.results.len(), 1);
    let sensor = &resp.results[0];
    assert_eq!(sensor.id, 12345);
    assert_eq!(sensor.label, b"Porch".to_vec());
    assert_eq!(sensor.stats.v, 5000);
    assert_eq!(sensor.stats.v1, 6000);
    assert_eq!(sensor.stats.v2, 7000);
    assert_eq!(sensor.stats.v3, 8000);
    assert_eq!(sensor.stats.v4, 9000);
    assert_eq!(sensor.stats.v5, 10000);
    assert_eq!(sensor.stats.v6, 11000);
}

#[test]
fn stats_as_number_is_an_error() {
    let body = "{\"results\":[{\"ID\":1,\"Label\":\"a\",\"Stats\":7}]}";
    assert_eq!(decode_str(body), Err(DecodeError::StatsNotString));
}

#[test]
fn malformed_outer_document() {
    assert_eq!(decode_str("not json at all"), Err(DecodeError::MalformedOuter));
    assert_eq!(decode_str(""), Err(DecodeError::MalformedOuter));
    assert_eq!(decode_str("{\"results\":[{\"ID\":1]}"), Err(DecodeError::MalformedOuter));
}

#[test]
fn results_member_must_be_an_array() {
    assert_eq!(decode_str("{}"), Err(DecodeError::ResultsMissing));
    assert_eq!(decode_str("{\"other\": 3}"), Err(DecodeError::ResultsMissing));
    assert_eq!(decode_str("{\"results\": 5}"), Err(DecodeError::ResultsMissing));
    assert_eq!(decode_str("{\"results\": \"x\"}"), Err(DecodeError::ResultsMissing));
}

#[test]
fn empty_results_array_decodes() {
    let resp = decode_str("{\"results\": [ ]}").expect("empty list decodes");
    assert_eq!(resp.results.len(), 0);
}

#[test]
fn record_missing_a_field_is_an_error() {
    let body = "{\"results\":[{\"ID\":1,\"Stats\":\"{}\"}]}";
    // the record decodes its members first, so the empty Stats document is
    // reported before the absent Label
    assert_eq!(decode_str(body), Err(DecodeError::StatsFieldInvalid));
    let body2 = "{\"results\":[{\"ID\":1,\"Label\":\"a\"}]}";
    assert_eq!(decode_str(body2), Err(DecodeError::RecordFieldMissing));
    let body3 = "{\"results\":[{}]}";
    assert_eq!(decode_str(body3), Err(DecodeError::RecordFieldMissing));
}

fn stats_body(stats: &str) -> String {
    let escaped = stats.replace('\\', "\\\\").replace('"', "\\\"");
    format!("{{\"results\":[{{\"ID\":1,\"Label\":\"a\",\"Stats\":\"{}\"}}]}}", escaped)
}

#[test]
fn inner_document_missing_a_reading() {
    let body = stats_body("{\"v\":1,\"v1\":2,\"v2\":3,\"v4\":5,\"v5\":6,\"v6\":7}");
    assert_eq!(decode_str(&body), Err(DecodeError::StatsFieldInvalid));
}

#[test]
fn inner_document_with_non_numeric_reading() {
    let body = stats_body("{\"v\":\"x\",\"v1\":2,\"v2\":3,\"v3\":4,\"v4\":5,\"v5\":6,\"v6\":7}");
    assert_eq!(decode_str(&body), Err(DecodeError::StatsFieldInvalid));
}

#[test]
fn inner_document_with_repeated_reading() {
    let body = stats_body("{\"v\":1,\"v\":1,\"v1\":2,\"v2\":3,\"v3\":4,\"v4\":5,\"v5\":6,\"v6\":7}");
    assert_eq!(decode_str(&body), Err(DecodeError::StatsFieldInvalid));
}

#[test]
fn inner_document_not_json() {
    assert_eq!(decode_str(&stats_body("nonsense")), Err(DecodeError::MalformedStats));
    assert_eq!(decode_str(&stats_body("{\"v\":1,")), Err(DecodeError::MalformedStats));
}

#[test]
fn readings_in_fixed_point() {
    let body = stats_body(
        "{\"v\":9.04,\"v1\":-1.5,\"v2\":1.2345,\"v3\":7,\"v4\":0.1,\"v5\":0,\"v6\":1000.125}",
    );
    let resp = decode_str(&body).expect("decodes");
    let st = &resp.results[0].stats;
    assert_eq!(st.v, 9040);
    assert_eq!(st.v1, -1500);
    // digits past the third decimal are dropped
    assert_eq!(st.v2, 1234);
    assert_eq!(st.v3, 7000);
    assert_eq!(st.v4, 100);
    assert_eq!(st.v5, 0);
    assert_eq!(st.v6, 1000125);
}

#[test]
fn inner_members_are_skippable_too() {
    let body = stats_body(
        "{\"v\":1,\"v1\":2,\"v2\":3,\"v3\":4,\"v4\":5,\"v5\":6,\"v6\":7,\"pm\":9.9,\"tag\":\"x\"}",
    );
    let resp = decode_str(&body).expect("decodes");
    assert_eq!(resp.results[0].stats.v6, 7000);
}

#[test]
fn label_escapes_are_unescaped() {
    let body = "{\"results\":[{\"ID\":1,\"Label\":\"a\\\"b\\n\\\\c\",\"Stats\":\"{\\\"v\\\":1,\\\"v1\\\":2,\\\"v2\\\":3,\\\"v3\\\":4,\\\"v4\\\":5,\\\"v5\\\":6,\\\"v6\\\":7}\"}]}";
    let resp = decode_str(body).expect("decodes");
    assert_eq!(resp.results[0].label, b"a\"b\n\\c".to_vec());
}

#[test]
fn several_records_keep_their_order() {
    let one = "{\"ID\":1,\"Label\":\"a\",\"Stats\":\"{\\\"v\\\":1,\\\"v1\\\":2,\\\"v2\\\":3,\\\"v3\\\":4,\\\"v4\\\":5,\\\"v5\\\":6,\\\"v6\\\":7}\"}";
    let two = "{\"ID\":2,\"Label\":\"b\",\"Stats\":\"{\\\"v\\\":9,\\\"v1\\\":2,\\\"v2\\\":3,\\\"v3\\\":4,\\\"v4\\\":5,\\\"v5\\\":6,\\\"v6\\\":7}\"}";
    let body = format!("{{\"results\":[{},{}]}}", one, two);
    let resp = decode_str(&body).expect("decodes");
    assert_eq!(resp.results.len(), 2);
    assert_eq!(resp.results[0].id, 1);
    assert_eq!(resp.results[1].id, 2);
    assert_eq!(resp.results[1].stats.v, 9000);
}

#[test]
fn id_too_large_for_u64() {
    let body = "{\"results\":[{\"ID\":18446744073709551616,\"Label\":\"a\",\"Stats\":\"{}\"}]}";
    assert_eq!(decode_str(body), Err(DecodeError::MalformedOuter));
}

#[test]
fn whitespace_is_insignificant() {
    let body = " {\n\t\"results\" : [ { \"ID\" : 3 , \"Label\" : \"a\" , \"Stats\" : \"{ \\\"v\\\" : 1, \\\"v1\\\":2,\\\"v2\\\":3,\\\"v3\\\":4,\\\"v4\\\":5,\\\"v5\\\":6,\\\"v6\\\":7 }\" } ] }\r\n";
    let resp = decode_str(body).expect("decodes");
    assert_eq!(resp.results[0].id, 3);
    assert_eq!(resp.results[0].stats.v, 1000);
}

#[test]
fn exponent_numbers_are_readings() {
    let body = stats_body(
        "{\"v\":1.5e2,\"v1\":1e-3,\"v2\":2E+1,\"v3\":5e0,\"v4\":1,\"v5\":1,\"v6\":1}",
    );
    let resp = decode_str(&body).expect("decodes");
    let st = &resp.results[0].stats;
    assert_eq!(st.v, 150000);
    assert_eq!(st.v1, 1);
    assert_eq!(st.v2, 20000);
    assert_eq!(st.v3, 5000);
}

#[test]
fn out_of_range_reading_is_an_error() {
    let body = stats_body("{\"v\":1e400,\"v1\":1,\"v2\":1,\"v3\":1,\"v4\":1,\"v5\":1,\"v6\":1}");
    assert_eq!(decode_str(&body), Err(DecodeError::StatsFieldInvalid));
    let tiny = stats_body("{\"v\":1e-999999999999999999,\"v1\":1,\"v2\":1,\"v3\":1,\"v4\":1,\"v5\":1,\"v6\":1}");
    let resp = decode_str(&tiny).expect("an underflowing reading is zero");
    assert_eq!(resp.results[0].stats.v, 0);
}

#[test]
fn leading_zeros_are_rejected() {
    let body = stats_body("{\"v\":01,\"v1\":1,\"v2\":1,\"v3\":1,\"v4\":1,\"v5\":1,\"v6\":1}");
    assert_eq!(decode_str(&body), Err(DecodeError::StatsFieldInvalid));
    let body2 = "{\"results\":[{\"ID\":01,\"Label\":\"a\",\"Stats\":\"{}\"}]}";
    assert_eq!(decode_str(body2), Err(DecodeError::MalformedOuter));
}

#[test]
fn unicode_escapes_decode_to_utf8() {
    let body = "{\"results\":[{\"ID\":1,\"Label\":\"\\u0041\\u00e9\\uD83D\\uDE00\",\"Stats\":\"{\\\"v\\\":1,\\\"v1\\\":2,\\\"v2\\\":3,\\\"v3\\\":4,\\\"v4\\\":5,\\\"v5\\\":6,\\\"v6\\\":7}\"}]}";
    let resp = decode_str(body).expect("decodes");
    let expected: Vec<u8> = vec![0x41, 0xC3, 0xA9, 0xF0, 0x9F, 0x98, 0x80];
    assert_eq!(resp.results[0].label, expected);
    assert_eq!(String::from_utf8(resp.results[0].label.clone()).unwrap(), "A\u{e9}\u{1F600}");
}

#[test]
fn lone_surrogate_is_rejected() {
    let body = "{\"results\":[{\"ID\":1,\"Label\":\"\\uD800x\",\"Stats\":\"{}\"}]}";
    assert_eq!(decode_str(body), Err(DecodeError::MalformedOuter));
    let body2 = "{\"results\":[{\"ID\":1,\"Label\":\"\\uDC00\",\"Stats\":\"{}\"}]}";
    assert_eq!(decode_str(body2), Err(DecodeError::MalformedOuter));
}

#[test]
fn skipped_members_are_still_validated() {
    let bad = "{\"results\":[{\"ID\":1,\"Label\":\"a\",\"junk\": @@@ ,\"Stats\":\"{}\"}]}";
    assert_eq!(decode_str(bad), Err(DecodeError::MalformedOuter));
    let mismatched = "{\"results\":[{\"ID\":1,\"Label\":\"a\",\"junk\":[1},\"Stats\":\"{}\"}]}";
    assert_eq!(decode_str(mismatched), Err(DecodeError::MalformedOuter));
    let bad_inner = stats_body("{\"v\":1,\"v1\":2,\"v2\":3,\"v3\":4,\"v4\":5,\"v5\":6,\"v6\":7,\"pm\":tru}");
    assert_eq!(decode_str(&bad_inner), Err(DecodeError::MalformedStats));
    let bad_zero = "{\"build\": 01, \"results\":[]}";
    assert_eq!(decode_str(bad_zero), Err(DecodeError::MalformedOuter));
}

#[test]
fn skipped_members_may_hold_any_valid_value() {
    let body = stats_body(
        "{\"v\":1,\"v1\":2,\"v2\":3,\"v3\":4,\"v4\":5,\"v5\":6,\"v6\":7,\"a\":true,\"b\":null,\"c\":false,\"d\":1e999,\"e\":[{},[]],\"f\":\"s\"}",
    );
    let resp = decode_str(&body).expect("decodes");
    assert_eq!(resp.results[0].stats.v, 1000);
}

#[test]
fn trailing_garbage_is_rejected() {
    let body = "{\"results\":[]} extra";
    assert_eq!(decode_str(body), Err(DecodeError::MalformedOuter));
}

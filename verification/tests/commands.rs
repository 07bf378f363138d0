//! Command handling and reply text, end to end against a stubbed provider
//! body.

use purple_air::decode::{decode, DecodeError};
use purple_air::reply::{create_msg, create_url, decode_error_msg, plan_message, Action};

fn plan_str(s: &str) -> Action {
    let bytes: Vec<u8> = s.as_bytes().to_vec();
    plan_message(&bytes)
}

fn reply_text(a: Action) -> String {
    match a {
        Action::Reply(t) => String::from_utf8(t).expect("replies are ASCII"),
        _ => panic!("expected a reply"),
    }
}

#[test]
fn ping_answers_pong() {
    assert_eq!(reply_text(plan_str("!ping")), "Pong!");
}

#[test]
fn unrelated_messages_are_ignored() {
    assert!(matches!(plan_str("hello"), Action::Ignore));
    assert!(matches!(plan_str("!aqix"), Action::Ignore));
    assert!(matches!(plan_str("!pingg"), Action::Ignore));
    assert!(matches!(plan_str(""), Action::Ignore));
}

#[test]
fn aqi_with_sensor_id_fetches() {
    assert!(matches!(plan_str("!aqi 12345"), Action::Fetch(12345)));
    assert!(matches!(plan_str("!aqi  78 extra"), Action::Fetch(78)));
    assert!(matches!(plan_str("!aqi +12"), Action::Fetch(12)));
}

#[test]
fn aqi_without_argument_is_a_distinct_error() {
    let no_arg = reply_text(plan_str("!aqi"));
    let trailing = reply_text(plan_str("!aqi "));
    assert_eq!(no_arg, "!aqi requires the sensor ID as an argument");
    assert_eq!(trailing, no_arg);
    assert!(!no_arg.is_empty());
}

#[test]
fn aqi_with_bad_argument_is_a_distinct_error() {
    let bad = reply_text(plan_str("!aqi abc"));
    assert_eq!(bad, "Failed to parse id");
    assert!(!bad.is_empty());
    assert_ne!(bad, reply_text(plan_str("!aqi")));
    // a value above u64 is rejected too
    assert_eq!(reply_text(plan_str("!aqi 18446744073709551616")), bad);
    assert!(matches!(plan_str("!aqi 18446744073709551615"), Action::Fetch(u64::MAX)));
}

#[test]
fn url_substitutes_the_sensor_id() {
    assert_eq!(
        String::from_utf8(create_url(12345)).unwrap(),
        "https://www.purpleair.com/json?show=12345"
    );
    assert_eq!(String::from_utf8(create_url(0)).unwrap(), "https://www.purpleair.com/json?show=0");
}

#[test]
fn end_to_end_reply_line() {
    // the provider is stubbed: this is the body its endpoint would return
    // for sensor 12345; 40.0 and 50.0 interpolate to the exact ties 112.25
    // and 137.25, which round to the even tenth
    let body = "{\"results\":[{\"ID\":12345,\"Label\":\"Porch\",\"Stats\":\"{\\\"v\\\":10.0,\\\"v1\\\":20.0,\\\"v2\\\":30.0,\\\"v3\\\":0,\\\"v4\\\":40.0,\\\"v5\\\":50.0,\\\"v6\\\":0}\"}]}";
    let id = match plan_str("!aqi 12345") {
        Action::Fetch(id) => id,
        _ => panic!("command should fetch"),
    };
    assert_eq!(id, 12345);
    let bytes: Vec<u8> = body.as_bytes().to_vec();
    let resp = decode(&bytes).expect("stub body decodes");
    let line = String::from_utf8(create_msg(&resp)).expect("reply is ASCII");
    assert_eq!(
        line,
        "id: 12345, pm2.5 data: current 42.1; 10 min 67.9; 30 min 89.2; 6 hour 112.2; 24 hour 137.2"
    );
}

#[test]
fn reply_reads_the_first_record_only() {
    let one = "{\"ID\":7,\"Label\":\"a\",\"Stats\":\"{\\\"v\\\":0,\\\"v1\\\":0,\\\"v2\\\":0,\\\"v3\\\":0,\\\"v4\\\":0,\\\"v5\\\":0,\\\"v6\\\":0}\"}";
    let two = "{\"ID\":8,\"Label\":\"b\",\"Stats\":\"{\\\"v\\\":999,\\\"v1\\\":0,\\\"v2\\\":0,\\\"v3\\\":0,\\\"v4\\\":0,\\\"v5\\\":0,\\\"v6\\\":0}\"}";
    let body = format!("{{\"results\":[{},{}]}}", one, two);
    let bytes: Vec<u8> = body.as_bytes().to_vec();
    let resp = decode(&bytes).expect("decodes");
    let line = String::from_utf8(create_msg(&resp)).expect("ASCII");
    assert!(line.starts_with("id: 7, "));
    assert_eq!(
        line,
        "id: 7, pm2.5 data: current 0.0; 10 min 0.0; 30 min 0.0; 6 hour 0.0; 24 hour 0.0"
    );
}

#[test]
fn decode_errors_have_distinct_nonempty_text() {
    let kinds = vec![
        DecodeError::MalformedOuter,
        DecodeError::ResultsMissing,
        DecodeError::RecordFieldMissing,
        DecodeError::StatsNotString,
        DecodeError::MalformedStats,
        DecodeError::StatsFieldInvalid,
    ];
    let mut seen: Vec<String> = Vec::new();
    for k in kinds {
        let text = String::from_utf8(decode_error_msg(&k)).expect("ASCII");
        assert!(!text.is_empty());
        assert!(!seen.contains(&text));
        seen.push(text);
    }
}

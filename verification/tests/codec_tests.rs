use wally::codec::{encode_settings, load_settings_from, parse_settings};
use wally::settings::WallpaperSettings;

fn sample(api_key: &str, collection_id: &str, value: u32, unit: &str, auto: bool) -> WallpaperSettings {
    WallpaperSettings {
        api_key: api_key.to_string(),
        collection_id: collection_id.to_string(),
        interval_value: value,
        interval_unit: unit.to_string(),
        auto_change: auto,
    }
}

fn assert_round_trip(s: &WallpaperSettings) {
    let text = encode_settings(s);
    let back = parse_settings(&text).expect("encoded settings must parse");
    assert_eq!(back.api_key, s.api_key);
    assert_eq!(back.collection_id, s.collection_id);
    assert_eq!(back.interval_value, s.interval_value);
    assert_eq!(back.interval_unit, s.interval_unit);
    assert_eq!(back.auto_change, s.auto_change);
}

#[test]
fn encode_exact_text() {
    let s = sample("k", "880012", 3, "hours", true);
    assert_eq!(
        encode_settings(&s),
        "{\"api_key\":\"k\",\"collection_id\":\"880012\",\"interval_value\":3,\"interval_unit\":\"hours\",\"auto_change\":true}"
    );
}

#[test]
fn encode_exact_text_default() {
    let s = WallpaperSettings::default();
    assert_eq!(
        encode_settings(&s),
        "{\"api_key\":\"\",\"collection_id\":\"880012\",\"interval_value\":3,\"interval_unit\":\"hours\",\"auto_change\":false}"
    );
}

#[test]
fn round_trip_plain() {
    assert_round_trip(&sample("abc123", "880012", 3, "hours", true));
}

#[test]
fn round_trip_default_collection_when_unset() {
    let s = WallpaperSettings::default();
    assert_round_trip(&s);
    let text = encode_settings(&s);
    let back = parse_settings(&text).unwrap();
    assert_eq!(back.collection_id, "880012");
}

#[test]
fn round_trip_escaped_characters() {
    assert_round_trip(&sample("a\"b\\c", "co\\ll\"", 42, "min\"utes", false));
}

#[test]
fn round_trip_unicode() {
    assert_round_trip(&sample("sch\u{f6}n\u{1f5bc}", "880012", 1, "weeks", true));
}

#[test]
fn round_trip_extreme_values() {
    assert_round_trip(&sample("", "", 0, "", false));
    assert_round_trip(&sample("k", "880012", u32::MAX, "weeks", true));
}

#[test]
fn parse_rejects_malformed() {
    assert!(parse_settings("").is_none());
    assert!(parse_settings("{}").is_none());
    assert!(parse_settings("not json at all").is_none());
    assert!(parse_settings("{\"api_key\":\"k\"}").is_none());
    // unterminated string
    assert!(parse_settings("{\"api_key\":\"k").is_none());
    // value out of range
    assert!(parse_settings(
        "{\"api_key\":\"\",\"collection_id\":\"\",\"interval_value\":4294967296,\"interval_unit\":\"hours\",\"auto_change\":true}"
    )
    .is_none());
    // trailing garbage
    assert!(parse_settings(
        "{\"api_key\":\"\",\"collection_id\":\"\",\"interval_value\":1,\"interval_unit\":\"hours\",\"auto_change\":true}x"
    )
    .is_none());
}

#[test]
fn load_falls_back_to_default() {
    let d = load_settings_from(None);
    assert_eq!(d.collection_id, "880012");
    assert_eq!(d.interval_value, 3);
    assert_eq!(d.interval_unit, "hours");
    assert!(!d.auto_change);
    let g = load_settings_from(Some("garbage"));
    assert_eq!(g.collection_id, "880012");
    assert!(!g.auto_change);
}

#[test]
fn load_reads_saved_settings() {
    let s = sample("key-1", "12345", 7, "days", true);
    let text = encode_settings(&s);
    let back = load_settings_from(Some(&text));
    assert_eq!(back.api_key, "key-1");
    assert_eq!(back.collection_id, "12345");
    assert_eq!(back.interval_value, 7);
    assert_eq!(back.interval_unit, "days");
    assert!(back.auto_change);
}

use tower::calendar::{ClockReading, LocalDate};
use tower::config_manager::{ConfigManager, ConfigValue, RuntimeMode};
use tower::ieee::{Double, Single};
use tower::json::{JsonScalar, MAX_JSON_DEPTH};
use tower::text::{
    bool_str, concat2, concat3, decimal, equals_ignoring_ascii_case, hex, join, same_text,
    signed_decimal,
};
use tower::text_map::TextMap;
use tower::topic;
use tower::version::{choose_version, current_version, VersionError};

fn single(x: f32) -> Single {
    Single { bits: x.to_bits() }
}

fn double(x: f64) -> Double {
    Double { bits: x.to_bits() }
}

#[test]
fn texts_are_put_together() {
    assert_eq!(concat2("a", "b"), "ab");
    assert_eq!(concat3("a", "", "c"), "ac");
    assert_eq!(join(&vec!["a".to_string(), "b".to_string()], ", "), "a, b");
    assert_eq!(join(&Vec::new(), ","), "");
    assert_eq!(decimal(0), "0");
    assert_eq!(decimal(u64::MAX), "18446744073709551615");
    assert_eq!(signed_decimal(-42), "-42");
    assert_eq!(signed_decimal(i64::MIN), "-9223372036854775808");
    assert_eq!(hex(0x3c, 2), "3C");
    assert_eq!(hex(0x1050, 4), "1050");
    assert_eq!(hex(0x5, 4), "0005");
    assert_eq!(bool_str(true), "true");
    assert_eq!(bool_str(false), "false");
    assert!(same_text("x", "x") && !same_text("x", "X"));
    assert!(equals_ignoring_ascii_case("ReStOrE", "RESTORE"));
    assert!(!equals_ignoring_ascii_case("RESTOR", "RESTORE"));
    assert_ne!(decimal(12), decimal(21));
}

#[test]
fn patterns_compare_as_their_values_do() {
    let values = [
        f32::NEG_INFINITY, -1.5, -0.0, 0.0, 1e-40, 0.01, 99.9, 100.0, f32::INFINITY, f32::NAN,
    ];
    for a in values {
        assert_eq!(single(a).is_nan(), a.is_nan());
        assert_eq!(single(a).is_finite(), a.is_finite());
        assert_eq!(single(a).is_zero(), a == 0.0);
        assert_eq!(single(a).abs().bits, a.abs().to_bits());
        assert_eq!(single(a).neg().bits, (-a).to_bits());
        for b in values {
            assert_eq!(single(a).lt(single(b)), a < b);
            assert_eq!(single(a).le(single(b)), a <= b);
            assert_eq!(double(a as f64).lt(double(b as f64)), (a as f64) < (b as f64));
            assert_eq!(double(a as f64).le(double(b as f64)), (a as f64) <= (b as f64));
        }
    }
    assert_eq!(single(3.0).clamp(single(4.0), single(9.0)).bits, 4.0f32.to_bits());
    assert_eq!(single(30.0).clamp(single(4.0), single(9.0)).bits, 9.0f32.to_bits());
    assert_eq!(single(5.0).clamp(single(4.0), single(9.0)).bits, 5.0f32.to_bits());
    assert!(double(f64::NAN).is_nan() && !double(f64::INFINITY).is_finite());
    assert_eq!(double(-2.5).abs().bits, 2.5f64.to_bits());
}

#[test]
fn topics_name_their_tower() {
    assert_eq!(topic::diagnostics_cmd("t7"), "tower/t7/cmd/diagnostics");
    assert_eq!(topic::diagnostics_ack("t7"), "tower/t7/cmd/diagnostics/ack");
    assert_eq!(topic::status("t7"), "tower/t7/status");
    assert_eq!(topic::logs_error("t7"), "tower/t7/logs/error");
    assert_eq!(topic::logs_boot("t7"), "tower/t7/logs/boot");
    assert_ne!(topic::diagnostics_cmd("t7"), topic::diagnostics_ack("t7"));
}

#[test]
fn stamps_tell_days_apart() {
    let a = LocalDate { year: 2024, month: 2, day: 29 };
    let b = LocalDate { year: 2024, month: 3, day: 1 };
    assert_eq!(a.stamp(), "2024-02-29");
    assert_eq!(b.stamp(), "2024-03-01");
    let reading = ClockReading { date: a, hour: 7, minute: 5, second: 9 };
    assert_eq!(reading.stamp(), "2024-02-29 07:05:09");
}

#[test]
fn the_stored_version_goes_first() {
    assert_eq!(current_version(Some(" 2.0.1\n"), "1.1.5"), Ok("2.0.1".to_string()));
    assert_eq!(current_version(None, "1.1.5"), Ok("1.1.5".to_string()));
    assert_eq!(current_version(Some("2.0"), "1.1.5"), Err(VersionError::Stored));
    assert_eq!(current_version(Some("2.0.1"), "one"), Err(VersionError::Default));
    assert_eq!(choose_version(Some(None), None), Err(VersionError::Stored));
    assert_eq!(
        choose_version(Some(Some("3.0.0".to_string())), Some("1.0.0".to_string())),
        Ok("3.0.0".to_string())
    );
}

#[test]
fn a_map_keeps_the_latest_text() {
    let mut m = TextMap::new();
    m.insert("a", "1");
    m.insert("b", "2");
    m.insert("a", "3");
    assert_eq!(m.get("a"), Some("3"));
    assert_eq!(m.pairs.len(), 2);
    assert!(m.remove("a"));
    assert!(!m.remove("a"));
    assert_eq!(m.get("a"), None);
    assert_eq!(m.get("b"), Some("2"));
    m.clear();
    assert_eq!(m.get("b"), None);
    let m = TextMap::from_pairs(vec![("k".to_string(), "v".to_string())]);
    assert_eq!(m.get("k"), Some("v"));
}

#[test]
fn modes_have_names() {
    assert_eq!(RuntimeMode::from_str("ADMIN"), Some(RuntimeMode::Admin));
    assert_eq!(RuntimeMode::from_str("Normal"), Some(RuntimeMode::Normal));
    assert_eq!(RuntimeMode::from_str("bench"), None);
    for mode in [RuntimeMode::Normal, RuntimeMode::Admin] {
        assert_eq!(RuntimeMode::from_lowercase(mode.as_str()), Some(mode));
    }
}

#[test]
fn overrides_survive_a_restart() {
    let mut m = ConfigManager::new(None, true, TextMap::new());
    m.set_runtime("name", "\"Tower \\\"7\\\"\"");
    m.set_runtime("count", "-12");
    let saved = m.set_runtime("on", "true").unwrap_or_default();
    assert_eq!(saved, r#"{"count":-12,"name":"Tower \"7\"","on":true}"#);
    let again = ConfigManager::new(Some(saved.as_str()), true, TextMap::new());
    assert_eq!(again.get("name"), Some("\"Tower \\\"7\\\"\""));
    assert_eq!(again.get("count"), Some("-12"));
    assert_eq!(again.get("on"), Some("true"));
    assert_eq!(again.get("off"), None);
    assert_eq!(again.get_all_overrides(), saved);
}

#[test]
fn nested_overrides_survive_a_restart() {
    let list = r#"[1,[true,null],"a,b"]"#;
    let object = r#"{"a":{"x":[]},"b":{},"é":-3}"#;
    let mut m = ConfigManager::new(None, true, TextMap::new());
    m.set_runtime("list", list);
    let saved = m.set_runtime("object", object).unwrap_or_default();
    assert_eq!(saved, format!("{{\"list\":{list},\"object\":{object}}}"));
    let again = ConfigManager::new(Some(saved.as_str()), true, TextMap::new());
    assert_eq!((again.get("list"), again.get("object")), (Some(list), Some(object)));
    let depth = usize::from(MAX_JSON_DEPTH);
    let deep = format!("{}{}", "[".repeat(depth), "]".repeat(depth));
    let saved = m.set_runtime("deep", &deep).unwrap_or_default();
    let again = ConfigManager::new(Some(saved.as_str()), true, TextMap::new());
    assert_eq!(again.get("deep"), Some(deep.as_str()));
    let deeper = format!("[{deep}]");
    let lost = m.set_runtime("deep", &deeper).unwrap_or_default();
    assert_eq!(ConfigManager::new(Some(lost.as_str()), true, TextMap::new()).get("list"), None);
}

#[test]
fn overrides_go_before_what_the_image_was_built_with() {
    let mut built_in = TextMap::new();
    built_in.insert("rate", "5");
    built_in.insert("name", "\"t7\"");
    let mut m = ConfigManager::new(Some(r#"{"rate":9}"#), true, built_in);
    assert_eq!(m.get("rate"), Some("9"));
    assert_eq!(m.get("name"), Some("\"t7\""));
    assert_eq!(m.get("other"), None);
    assert_eq!(m.get_with_default("rate", 1i64), 9);
    assert_eq!(m.get_with_default("name", String::new()), "t7");
    assert_eq!(m.get_with_default("other", 1i64), 1);
    assert_eq!(m.get_all_overrides(), r#"{"rate":9}"#);
    m.remove_runtime("rate");
    assert_eq!(m.get_with_default("rate", 1i64), 5);
    m.set_runtime("name", "\"t8\"");
    assert_eq!(m.get("name"), Some("\"t8\""));
    m.reset_to_defaults();
    assert_eq!(m.get("name"), Some("\"t7\""));
}

#[test]
fn overrides_are_taken_back() {
    let mut m = ConfigManager::new(Some(r#"{"a":1,"b":2}"#), true, TextMap::new());
    assert_eq!(m.remove_runtime("c"), None);
    assert_eq!(m.remove_runtime("a"), Some(r#"{"b":2}"#.to_string()));
    assert_eq!(m.reset_to_defaults(), Some("{}".to_string()));
    assert_eq!(m.get("b"), None);
    let mut quiet = ConfigManager::new(Some(r#"{"a":1}"#), false, TextMap::new());
    assert_eq!(quiet.get("a"), None);
    assert_eq!(quiet.set_runtime("a", "2"), None);
    assert_eq!(quiet.get("a"), Some("2"));
    assert_eq!(ConfigManager::new(Some("[1]"), true, TextMap::new()).get("a"), None);
}

#[test]
fn overrides_are_read_by_kind() {
    let m = ConfigManager::new(Some(r#"{"x":1.5,"n":7,"b":false,"s":"hi","o":[1]}"#), true, TextMap::new());
    assert_eq!(m.get_with_default("n", 3i64), 7);
    assert_eq!(m.get_with_default("x", 3i64), 3);
    assert_eq!(m.get_with_default("s", 3i64), 3);
    assert_eq!(m.get_with_default("x", double(0.0)).bits, 1.5f64.to_bits());
    assert_eq!(m.get_with_default("n", double(0.0)).bits, 7.0f64.to_bits());
    assert!(!m.get_with_default("b", true));
    assert!(m.get_with_default("o", true));
    assert_eq!(m.get_with_default("s", String::new()), "hi");
    assert_eq!(m.get_with_default("missing", "dflt".to_string()), "dflt");
    let number = JsonScalar::Number { integer: None, double: None };
    assert_eq!(i64::from_value(&number), Err("Not a valid i64".to_string()));
    assert_eq!(i64::from_value(&JsonScalar::Other), Err("Not a number".to_string()));
    assert_eq!(bool::from_value(&JsonScalar::Other), Err("Not a boolean".to_string()));
    assert_eq!(String::from_value(&JsonScalar::Other), Err("Not a string".to_string()));
    assert!(matches!(Double::from_value(&number), Err(e) if e == "Not a valid f64"));
    assert!(matches!(Double::from_value(&JsonScalar::Other), Err(e) if e == "Not a number"));
}

#[test]
fn the_mode_is_read_from_flash_only_if_persisted() {
    let m = ConfigManager::new(None, true, TextMap::new());
    assert_eq!(m.get_runtime_mode(Some("Admin")), RuntimeMode::Admin);
    assert_eq!(m.get_runtime_mode(Some("what")), RuntimeMode::Normal);
    assert_eq!(m.get_runtime_mode(None), RuntimeMode::Normal);
    assert_eq!(m.set_runtime_mode(RuntimeMode::Admin), Some("admin"));
    let q = ConfigManager::new(None, false, TextMap::new());
    assert_eq!(q.get_runtime_mode(Some("Admin")), RuntimeMode::Normal);
    assert_eq!(q.set_runtime_mode(RuntimeMode::Admin), None);
}

use schnose::events::slash_command::InteractionData;
use schnose::id::parse_u64;
use schnose::options::{OptionMap, OptionValue, RawOption};

fn raw(name: &str, value: Option<OptionValue>) -> RawOption {
    RawOption { name: name.to_string(), value }
}

fn sample() -> InteractionData {
    let list = vec![
        raw("text", Some(OptionValue::String("hello".to_string()))),
        raw("count", Some(OptionValue::Integer(-42))),
        raw("ratio", Some(OptionValue::Float(2.5f64.to_bits()))),
        raw("flag", Some(OptionValue::Bool(true))),
        raw("target", Some(OptionValue::String("12345".to_string()))),
        raw("bad_user", Some(OptionValue::String("abc".to_string()))),
        raw("frac_user", Some(OptionValue::String("12.5".to_string()))),
        raw("empty", None),
        raw("shape", Some(OptionValue::Other)),
    ];
    InteractionData::new(7, &list)
}

#[test]
fn parse_u64_reads_plain_decimals() {
    assert_eq!(parse_u64("12345"), Some(12345));
    assert_eq!(parse_u64("0"), Some(0));
    assert_eq!(parse_u64("+7"), Some(7));
    assert_eq!(parse_u64("18446744073709551615"), Some(u64::MAX));
}

#[test]
fn parse_u64_refuses_everything_else() {
    assert_eq!(parse_u64(""), None);
    assert_eq!(parse_u64("+"), None);
    assert_eq!(parse_u64("abc"), None);
    assert_eq!(parse_u64("12.5"), None);
    assert_eq!(parse_u64("-3"), None);
    assert_eq!(parse_u64(" 3"), None);
    assert_eq!(parse_u64("++3"), None);
    assert_eq!(parse_u64("18446744073709551616"), None);
}

#[test]
fn option_map_leaves_out_missing_values() {
    let list = vec![raw("a", Some(OptionValue::Bool(false))), raw("b", None)];
    let map = OptionMap::from_raw(&list);
    assert!(matches!(map.get("a"), Some(OptionValue::Bool(false))));
    assert!(map.get("b").is_none());
    assert!(map.get("c").is_none());
}

#[test]
fn option_map_later_entry_wins() {
    let list = vec![
        raw("a", Some(OptionValue::Integer(1))),
        raw("a", Some(OptionValue::Integer(2))),
        raw("a", None),
    ];
    let map = OptionMap::from_raw(&list);
    assert!(matches!(map.get("a"), Some(OptionValue::Integer(2))));
}

#[test]
fn getters_return_matching_values() {
    let d = sample();
    assert_eq!(d.user(), 7);
    assert_eq!(d.get_string("text"), Some("hello".to_string()));
    assert_eq!(d.get_int("count"), Some(-42));
    assert_eq!(d.get_bool("flag"), Some(true));
    assert!(matches!(d.opts().get("ratio"), Some(OptionValue::Float(b)) if f64::from_bits(*b) == 2.5));
}

#[test]
fn unlisted_option_is_empty_for_every_getter() {
    let d = sample();
    assert_eq!(d.get_string("missing"), None);
    assert_eq!(d.get_int("missing"), None);
    assert_eq!(d.get_bool("missing"), None);
    assert_eq!(d.get_user("missing"), None);
    assert_eq!(d.get_string("empty"), None);
    assert_eq!(d.get_int("empty"), None);
}

#[test]
fn mismatched_tag_is_empty() {
    let d = sample();
    assert_eq!(d.get_int("text"), None);
    assert_eq!(d.get_bool("text"), None);
    assert_eq!(d.get_string("count"), None);
    assert_eq!(d.get_user("count"), None);
    assert_eq!(d.get_int("ratio"), None);
    assert_eq!(d.get_string("flag"), None);
    assert_eq!(d.get_int("shape"), None);
    assert_eq!(d.get_string("shape"), None);
}

#[test]
fn get_user_needs_a_full_decimal() {
    let d = sample();
    assert_eq!(d.get_user("target"), Some(12345));
    assert_eq!(d.get_user("bad_user"), None);
    assert_eq!(d.get_user("frac_user"), None);
    assert_eq!(d.get_user("text"), None);
}

use recording_watcher::error::Error;
use recording_watcher::parse::parse_u32;
use recording_watcher::props::get_all_names;
use recording_watcher::props::get_input_node;
use recording_watcher::props::get_output_node;
use recording_watcher::props::PropertyBag;

#[test]
fn parses_plain_decimal_values() {
    assert_eq!(parse_u32("0"), Some(0));
    assert_eq!(parse_u32("42"), Some(42));
    assert_eq!(parse_u32("007"), Some(7));
    assert_eq!(parse_u32("4294967295"), Some(u32::MAX));
}

#[test]
fn rejects_values_above_u32_max() {
    assert_eq!(parse_u32("4294967296"), None);
    assert_eq!(parse_u32("99999999999999999999"), None);
}

#[test]
fn rejects_non_digit_input() {
    assert_eq!(parse_u32(""), None);
    assert_eq!(parse_u32(" 42"), None);
    assert_eq!(parse_u32("42 "), None);
    assert_eq!(parse_u32("+42"), None);
    assert_eq!(parse_u32("-1"), None);
    assert_eq!(parse_u32("12a"), None);
    assert_eq!(parse_u32("abc"), None);
}

#[test]
fn bag_lookup_returns_first_exact_match() {
    let mut bag = PropertyBag::new();
    bag.push("node.description".to_string(), "First".to_string());
    bag.push("node.description".to_string(), "Second".to_string());
    assert_eq!(bag.get("node.description").map(|s| s.as_str()), Some("First"));
    assert_eq!(bag.get("node.Description"), None);
    assert_eq!(bag.get("missing"), None);
}

#[test]
fn endpoint_getters_report_missing_keys() {
    let mut bag = PropertyBag::new();
    bag.push("link.output.node".to_string(), "1".to_string());
    assert_eq!(get_output_node(&bag).map(|s| s.as_str()), Ok("1"));
    assert_eq!(get_input_node(&bag), Err(Error::MissingEndpoint));
    let empty = PropertyBag::new();
    assert_eq!(get_output_node(&empty), Err(Error::MissingEndpoint));
}

#[test]
fn aliases_are_collected_in_probe_order() {
    let mut bag = PropertyBag::new();
    bag.push("node.name".to_string(), "a-name".to_string());
    bag.push("node.description".to_string(), "A Description".to_string());
    bag.push("node.nick".to_string(), "A Nick".to_string());
    bag.push("unrelated".to_string(), "ignored".to_string());
    let names = get_all_names(&bag);
    let views: Vec<&str> = names.iter().map(|s| s.as_str()).collect();
    assert_eq!(views, vec!["A Description", "A Nick", "a-name"]);
}

#[test]
fn absent_alias_keys_degrade_to_fewer_aliases() {
    let mut bag = PropertyBag::new();
    bag.push("node.nick".to_string(), "Only Nick".to_string());
    let names = get_all_names(&bag);
    assert_eq!(names.len(), 1);
    assert_eq!(names[0].as_str(), "Only Nick");
    assert_eq!(get_all_names(&PropertyBag::new()).len(), 0);
}

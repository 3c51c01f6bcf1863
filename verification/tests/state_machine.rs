use recording_watcher::actor::CountingActor;
use recording_watcher::error::Error;
use recording_watcher::props::PropertyBag;
use recording_watcher::state::State;
use recording_watcher::watcher::RecordingWatcher;

fn names(list: &[&str]) -> Vec<String> {
    list.iter().map(|s| s.to_string()).collect()
}

fn node_props(description: &str) -> PropertyBag {
    let mut bag = PropertyBag::new();
    bag.push("node.description".to_string(), description.to_string());
    bag
}

fn link_props(output: &str, input: &str) -> PropertyBag {
    let mut bag = PropertyBag::new();
    bag.push("link.output.node".to_string(), output.to_string());
    bag.push("link.input.node".to_string(), input.to_string());
    bag
}

#[test]
fn on_transition_fires_hook_once() {
    let mut w = RecordingWatcher::new(names(&["Headset"]), names(&[]), CountingActor::new());
    w.handle_node_added(10, &node_props("Headset"));
    assert!(!w.check_if_on_air());
    let r = w.handle_link_added(100, &link_props("10", "20"));
    assert!(r.is_ok());
    assert!(w.is_link_active(100));
    assert!(w.check_if_on_air());
    assert_eq!(w.actor_ref().on_air_count, 1);
    assert_eq!(w.actor_ref().off_air_count, 0);
}

#[test]
fn off_transition_fires_hook_once_and_duplicate_removal_is_noop() {
    let mut w = RecordingWatcher::new(names(&["Headset"]), names(&[]), CountingActor::new());
    w.handle_node_added(10, &node_props("Headset"));
    w.handle_link_added(100, &link_props("10", "20")).unwrap();
    assert!(w.check_if_on_air());
    w.handle_global_removed(100);
    assert!(!w.is_link_active(100));
    assert!(!w.check_if_on_air());
    assert_eq!(w.actor_ref().off_air_count, 1);
    w.handle_global_removed(100);
    assert!(!w.check_if_on_air());
    assert_eq!(w.actor_ref().on_air_count, 1);
    assert_eq!(w.actor_ref().off_air_count, 1);
}

#[test]
fn further_links_while_on_air_fire_no_additional_hook() {
    let mut w = RecordingWatcher::new(names(&["Headset"]), names(&[]), CountingActor::new());
    w.handle_node_added(10, &node_props("Headset"));
    w.handle_link_added(100, &link_props("10", "20")).unwrap();
    w.handle_link_added(101, &link_props("10", "21")).unwrap();
    w.handle_link_added(102, &link_props("10", "22")).unwrap();
    assert!(w.is_link_active(101));
    assert!(w.is_link_active(102));
    assert!(w.check_if_on_air());
    assert_eq!(w.actor_ref().on_air_count, 1);
    assert_eq!(w.actor_ref().off_air_count, 0);
}

#[test]
fn removing_one_of_several_links_stays_on_air() {
    let mut w = RecordingWatcher::new(names(&["Headset"]), names(&[]), CountingActor::new());
    w.handle_node_added(10, &node_props("Headset"));
    w.handle_link_added(100, &link_props("10", "20")).unwrap();
    w.handle_link_added(101, &link_props("10", "21")).unwrap();
    w.handle_global_removed(100);
    assert!(w.check_if_on_air());
    assert_eq!(w.actor_ref().off_air_count, 0);
    w.handle_global_removed(101);
    assert!(!w.check_if_on_air());
    assert_eq!(w.actor_ref().off_air_count, 1);
}

#[test]
fn ignored_input_endpoint_suppresses_link() {
    let mut w = RecordingWatcher::new(
        names(&["Mic"]),
        names(&["Volume Control"]),
        CountingActor::new(),
    );
    w.handle_node_added(1, &node_props("Mic"));
    w.handle_node_added(2, &node_props("Volume Control"));
    let r = w.handle_link_added(50, &link_props("1", "2"));
    assert!(r.is_ok());
    assert!(!w.is_link_active(50));
    assert!(!w.check_if_on_air());
    assert_eq!(w.actor_ref().on_air_count, 0);
    assert_eq!(w.actor_ref().off_air_count, 0);
}

#[test]
fn malformed_output_endpoint_is_reported_and_changes_nothing() {
    let mut w = RecordingWatcher::new(names(&["Headset"]), names(&[]), CountingActor::new());
    w.handle_node_added(10, &node_props("Headset"));
    let r = w.handle_link_added(100, &link_props("abc", "20"));
    assert_eq!(r, Err(Error::MalformedEndpoint));
    assert!(!w.is_link_active(100));
    assert!(!w.check_if_on_air());
    assert_eq!(w.actor_ref().on_air_count, 0);
}

#[test]
fn missing_input_endpoint_is_reported() {
    let mut w = RecordingWatcher::new(names(&["Headset"]), names(&[]), CountingActor::new());
    let mut bag = PropertyBag::new();
    bag.push("link.output.node".to_string(), "10".to_string());
    let r = w.handle_link_added(100, &bag);
    assert_eq!(r, Err(Error::MissingEndpoint));
    assert!(!w.check_if_on_air());
}

#[test]
fn missing_output_endpoint_is_reported() {
    let mut w = RecordingWatcher::new(names(&["Headset"]), names(&[]), CountingActor::new());
    let mut bag = PropertyBag::new();
    bag.push("link.input.node".to_string(), "20".to_string());
    let r = w.handle_link_added(100, &bag);
    assert_eq!(r, Err(Error::MissingEndpoint));
}

#[test]
fn malformed_input_takes_precedence_over_missing_output() {
    let mut w = RecordingWatcher::new(names(&["Headset"]), names(&[]), CountingActor::new());
    let mut bag = PropertyBag::new();
    bag.push("link.input.node".to_string(), "xyz".to_string());
    let r = w.handle_link_added(100, &bag);
    assert_eq!(r, Err(Error::MalformedEndpoint));
}

#[test]
fn endpoint_value_above_u32_max_is_malformed() {
    let mut w = RecordingWatcher::new(names(&["Headset"]), names(&[]), CountingActor::new());
    w.handle_node_added(10, &node_props("Headset"));
    let r = w.handle_link_added(100, &link_props("10", "4294967296"));
    assert_eq!(r, Err(Error::MalformedEndpoint));
}

#[test]
fn alias_matching_is_case_sensitive_and_exact() {
    let mut w = RecordingWatcher::new(
        names(&["Jabra Engage 75 Mono"]),
        names(&[]),
        CountingActor::new(),
    );
    w.handle_node_added(3, &node_props("jabra engage 75 mono"));
    let r = w.handle_link_added(60, &link_props("3", "4"));
    assert!(r.is_ok());
    assert!(!w.is_link_active(60));
    assert!(!w.check_if_on_air());
}

#[test]
fn node_matching_both_sets_is_in_scope_and_ignored() {
    let mut w = RecordingWatcher::new(names(&["X"]), names(&["X"]), CountingActor::new());
    w.handle_node_added(5, &node_props("X"));
    let r = w.handle_link_added(70, &link_props("5", "5"));
    assert!(r.is_ok());
    assert!(!w.is_link_active(70));
    let r = w.handle_link_added(71, &link_props("5", "6"));
    assert!(r.is_ok());
    assert!(w.is_link_active(71));
    assert!(w.check_if_on_air());
}

#[test]
fn link_with_out_of_scope_output_is_irrelevant() {
    let mut w = RecordingWatcher::new(names(&["Headset"]), names(&[]), CountingActor::new());
    w.handle_node_added(10, &node_props("Webcam"));
    let r = w.handle_link_added(80, &link_props("10", "20"));
    assert!(r.is_ok());
    assert!(!w.is_link_active(80));
    assert!(!w.check_if_on_air());
}

#[test]
fn resolve_falls_back_to_unresolved_sentinel() {
    let mut w = RecordingWatcher::new(names(&["Headset"]), names(&[]), CountingActor::new());
    assert_eq!(w.resolve_node_id(42).as_str(), "unresolved");
    w.handle_node_added(10, &node_props("Headset"));
    assert_eq!(w.resolve_node_id(10).as_str(), "Headset");
    assert_eq!(w.resolve_node_id(11).as_str(), "unresolved");
}

#[test]
fn first_alias_in_probe_order_becomes_primary_name() {
    let mut w = RecordingWatcher::new(names(&["Proper Name"]), names(&[]), CountingActor::new());
    let mut bag = PropertyBag::new();
    bag.push("node.name".to_string(), "Proper Name".to_string());
    bag.push("node.nick".to_string(), "Nick".to_string());
    w.handle_node_added(10, &bag);
    assert_eq!(w.resolve_node_id(10).as_str(), "Nick");
    let r = w.handle_link_added(90, &link_props("10", "20"));
    assert!(r.is_ok());
    assert!(w.is_link_active(90));
}

#[test]
fn node_without_aliases_is_recorded_nowhere() {
    let mut w = RecordingWatcher::new(names(&["Headset"]), names(&[]), CountingActor::new());
    w.handle_node_added(10, &PropertyBag::new());
    assert_eq!(w.resolve_node_id(10).as_str(), "unresolved");
    let r = w.handle_link_added(100, &link_props("10", "20"));
    assert!(r.is_ok());
    assert!(!w.is_link_active(100));
}

#[test]
fn classification_is_sticky_across_later_events() {
    let mut w = RecordingWatcher::new(names(&["Headset"]), names(&[]), CountingActor::new());
    w.handle_node_added(10, &node_props("Headset"));
    w.handle_node_added(10, &node_props("Renamed Device"));
    let r = w.handle_link_added(100, &link_props("10", "20"));
    assert!(r.is_ok());
    assert!(w.is_link_active(100));
    assert_eq!(w.resolve_node_id(10).as_str(), "Renamed Device");
}

#[test]
fn state_add_headset_id_marks_output_in_scope() {
    let mut st = State::new(names(&[]), names(&[]), CountingActor::new());
    assert!(!st.is_link_in_scope(&7));
    st.add_headset_id(&7);
    assert!(st.is_link_in_scope(&7));
    let r = st.add_link(&200, &link_props("7", "8"));
    assert!(r.is_ok());
    assert!(st.is_link_active(&200));
    assert!(st.check_if_on_air());
    assert_eq!(st.actor_ref().on_air_count, 1);
    st.remove_link(&200);
    assert!(!st.check_if_on_air());
    assert_eq!(st.actor_ref().off_air_count, 1);
}

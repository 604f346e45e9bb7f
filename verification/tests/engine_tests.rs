use zellij_notify::resolve::parse_position;
use zellij_notify::state::Event;
use zellij_notify::state::PaneRecord;
use zellij_notify::state::Request;
use zellij_notify::state::State;
use zellij_notify::state::Tab;
use zellij_notify::state::TabPanes;

fn tab(position: u32, name: &str, active: bool) -> Tab {
    Tab { position, name: name.to_string(), active, sync_panes_active: false }
}

fn panes(position: u32, ids: &[&str]) -> TabPanes {
    TabPanes {
        position,
        panes: ids.iter().map(|id| PaneRecord { id: id.to_string() }).collect(),
    }
}

fn request(
    name: &str,
    payload: Option<&str>,
    pane_id: Option<&str>,
    tab_position: Option<&str>,
) -> Request {
    Request {
        name: name.to_string(),
        payload: payload.map(|p| p.to_string()),
        pane_id: pane_id.map(|p| p.to_string()),
        tab_position: tab_position.map(|p| p.to_string()),
    }
}

/// The workspace of the worked scenarios: two tabs, the second one active and
/// carrying an old annotation, pane 7 on the first tab and pane 9 on the
/// second, and one preset.
fn scenario_state() -> State {
    let mut state = State::new();
    state.load(vec![
        ("presets".to_string(), "{\"done\": {\"emoji\": \"\u{2705}\"}}".to_string()),
    ]);
    state.update(Event::TabUpdate(vec![
        tab(0, "shell", false),
        tab(1, "build \u{26A1}", true),
    ]));
    state.update(Event::PaneUpdate(vec![panes(0, &["7"]), panes(1, &["9"])]));
    state
}

#[test]
fn pane_anchored_request_renames_owning_tab() {
    let state = scenario_state();
    let r = state
        .pipe(&request("notify", Some("done"), Some("9"), None))
        .expect("a rename should be emitted");
    assert_eq!(r.index, 2);
    assert_eq!(r.name, "build \u{2705}");
}

#[test]
fn bare_request_falls_back_to_active_tab_with_default_glyph() {
    let state = scenario_state();
    let r = state
        .pipe(&request("notify", None, None, None))
        .expect("a rename should be emitted");
    assert_eq!(r.index, 2);
    assert_eq!(r.name, "build \u{2705}");
}

#[test]
fn unknown_pane_id_drops_the_request() {
    let state = scenario_state();
    assert!(state.pipe(&request("notify", Some("done"), Some("999"), None)).is_none());
}

#[test]
fn resolvable_pane_id_wins_over_tab_position() {
    let state = scenario_state();
    let r = state
        .pipe(&request("notify", None, Some("7"), Some("1")))
        .expect("a rename should be emitted");
    assert_eq!(r.index, 1);
    assert_eq!(r.name, "shell \u{2705}");
}

#[test]
fn unresolved_pane_id_does_not_escalate_to_other_tiers() {
    let state = scenario_state();
    assert!(state.pipe(&request("notify", None, Some("999"), Some("1"))).is_none());
}

#[test]
fn pane_id_without_manifest_drops_the_request() {
    let mut state = State::new();
    state.update(Event::TabUpdate(vec![tab(0, "shell", true)]));
    assert!(state.pipe(&request("notify", None, Some("7"), None)).is_none());
}

#[test]
fn explicit_tab_position_is_used_when_no_pane_id() {
    let state = scenario_state();
    let r = state
        .pipe(&request("notify", Some("done"), None, Some("0")))
        .expect("a rename should be emitted");
    assert_eq!(r.index, 1);
    assert_eq!(r.name, "shell \u{2705}");
}

#[test]
fn stale_tab_position_yields_no_mutation() {
    let state = scenario_state();
    assert!(state.pipe(&request("notify", None, None, Some("7"))).is_none());
}

#[test]
fn unparsable_tab_position_falls_to_focus_tier() {
    // The position tier applies only when the value parses; otherwise the
    // request falls through to the active tab.
    let state = scenario_state();
    let r = state
        .pipe(&request("notify", None, None, Some("one")))
        .expect("the focus tier should take over");
    assert_eq!(r.index, 2);
    assert_eq!(r.name, "build \u{2705}");
}

#[test]
fn unparsable_tab_position_without_active_tab_yields_no_mutation() {
    let mut state = State::new();
    state.update(Event::TabUpdate(vec![tab(0, "shell", false)]));
    assert!(state.pipe(&request("notify", None, None, Some("one"))).is_none());
}

#[test]
fn unknown_preset_key_uses_fallback_glyph_not_default() {
    let state = scenario_state();
    let r = state
        .pipe(&request("notify", Some("bogus"), None, None))
        .expect("the request must not be dropped");
    assert_eq!(r.index, 2);
    assert_eq!(r.name, "build \u{2753}");
}

#[test]
fn empty_payload_uses_default_glyph() {
    let state = scenario_state();
    let r = state.pipe(&request("notify", Some(""), None, None)).unwrap();
    assert_eq!(r.name, "build \u{2705}");
}

#[test]
fn foreign_command_name_is_ignored() {
    let state = scenario_state();
    assert!(state.pipe(&request("rename", Some("done"), Some("9"), None)).is_none());
}

#[test]
fn focus_transition_emits_one_cleanup_rename() {
    let mut state = State::new();
    let first = state.update(Event::TabUpdate(vec![tab(0, "work \u{2705}", true)]));
    let r = first.expect("the transition should clean the label");
    assert_eq!(r.index, 1);
    assert_eq!(r.name, "work");
    let second = state.update(Event::TabUpdate(vec![tab(0, "work \u{2705}", true)]));
    assert!(second.is_none());
}

#[test]
fn focus_transition_on_clean_label_emits_nothing() {
    let mut state = State::new();
    assert!(state.update(Event::TabUpdate(vec![tab(0, "work", true)])).is_none());
}

#[test]
fn empty_tab_list_clears_tabs_and_keeps_focus() {
    let mut state = State::new();
    state.update(Event::TabUpdate(vec![tab(2, "work", true)]));
    assert_eq!(state.focused, Some(2));
    assert!(state.update(Event::TabUpdate(vec![])).is_none());
    assert!(state.tabs.is_empty());
    assert_eq!(state.focused, Some(2));
}

#[test]
fn load_reads_debug_flag() {
    let mut state = State::new();
    state.load(vec![("debug".to_string(), "true".to_string())]);
    assert!(state.debug);
    let mut other = State::new();
    other.load(vec![("debug".to_string(), "yes".to_string())]);
    assert!(!other.debug);
}

#[test]
fn malformed_presets_degrade_to_empty_table() {
    let mut state = State::new();
    state.load(vec![("presets".to_string(), "{not json".to_string())]);
    assert!(state.presets.is_empty());
    let mut missing_field = State::new();
    missing_field.load(vec![
        ("presets".to_string(), "{\"done\": {\"icon\": \"x\"}}".to_string()),
    ]);
    assert!(missing_field.presets.is_empty());
}

#[test]
fn presets_are_loaded_from_configuration() {
    let mut state = State::new();
    state.load(vec![(
        "presets".to_string(),
        "{\"stop\": {\"emoji\": \"\u{1F534}\"}, \"done\": {\"emoji\": \"\u{2705}\"}}".to_string(),
    )]);
    assert_eq!(state.presets.len(), 2);
    state.update(Event::TabUpdate(vec![tab(0, "agent", true)]));
    let r = state.pipe(&request("notify", Some("stop"), None, None)).unwrap();
    assert_eq!(r.name, "agent \u{1F534}");
}

#[test]
fn parse_position_accepts_what_the_standard_parse_accepts() {
    assert_eq!(parse_position("0"), Some(0));
    assert_eq!(parse_position("007"), Some(7));
    assert_eq!(parse_position("+12"), Some(12));
    assert_eq!(parse_position("4294967295"), Some(u32::MAX));
    assert_eq!(parse_position(""), None);
    assert_eq!(parse_position("+"), None);
    assert_eq!(parse_position("-1"), None);
    assert_eq!(parse_position("1 "), None);
    assert_eq!(parse_position("12a"), None);
    assert_eq!(parse_position("4294967296"), None);
}

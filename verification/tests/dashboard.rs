use collector::bus::classify_channel;
use collector::bus::logs_channel;
use collector::bus::stats_channel;
use collector::bus::Channel;
use collector::clip::osc52_sequence;
use collector::model::InputMode;
use collector::model::Key;
use collector::model::KeyAction;
use collector::state::AppState;
use collector::types::AggregatedStats;
use collector::types::LogEntry;

fn entry(level: &str, service: &str, message: &str) -> LogEntry {
    LogEntry {
        timestamp: String::from("2024-01-01T00:00:00Z"),
        level: String::from(level),
        service: String::from(service),
        message: String::from(message),
    }
}

fn stats(total: u64, errors: u64, top: Option<&str>) -> AggregatedStats {
    AggregatedStats {
        window_start: String::from("s"),
        window_end: String::from("e"),
        total_count: total,
        error_count: errors,
        top_service: top.map(String::from),
    }
}

#[test]
fn scenario_a_ordering_and_selection_shift() {
    let mut st = AppState::new();
    st.add_log(entry("INFO", "svc", "x"));
    st.add_log(entry("INFO", "svc", "y"));
    assert_eq!(st.logs.len(), 2);
    assert_eq!(st.logs[0].message, "y");
    assert_eq!(st.logs[1].message, "x");

    st.select_next_log();
    assert_eq!(st.selected_log_index, Some(0));

    st.add_log(entry("INFO", "svc", "z"));
    assert_eq!(st.logs.len(), 3);
    assert_eq!(st.logs[0].message, "z");
    assert_eq!(st.selected_log_index, Some(1));
    assert_eq!(st.logs[1].message, "y");
}

#[test]
fn scenario_b_eviction_at_capacity() {
    let mut st = AppState::new();
    for i in 0..500 {
        st.add_log(entry("INFO", "svc", &format!("m{}", i)));
    }
    assert_eq!(st.logs.len(), 500);
    // the oldest admitted record sits at the back
    assert_eq!(st.logs[499].message, "m0");

    st.add_log(entry("INFO", "svc", "overflow"));
    assert_eq!(st.logs.len(), 500);
    assert_eq!(st.logs[0].message, "overflow");
    // "m0" was evicted; the back now holds the next-oldest
    assert_eq!(st.logs[499].message, "m1");
    assert!(st.logs.iter().all(|e| e.message != "m0"));
}

#[test]
fn bounded_buffer_never_exceeds_capacity() {
    let mut st = AppState::new();
    for i in 0..700 {
        st.add_log(entry("INFO", "svc", &format!("m{}", i)));
        assert!(st.logs.len() <= 500);
    }
    assert_eq!(st.logs.len(), 500);
    // newest first, oldest still present is m200
    assert_eq!(st.logs[0].message, "m699");
    assert_eq!(st.logs[499].message, "m200");
}

#[test]
fn selection_clamps_when_selected_entry_evicted() {
    let mut st = AppState::new();
    for i in 0..500 {
        st.add_log(entry("INFO", "svc", &format!("m{}", i)));
    }
    // select the oldest entry
    st.select_next_log();
    for _ in 0..499 {
        st.select_next_log();
    }
    assert_eq!(st.selected_log_index, Some(499));
    assert_eq!(st.logs[499].message, "m0");

    st.add_log(entry("INFO", "svc", "new"));
    // the selected entry was evicted: clamp to the new last index
    assert_eq!(st.selected_log_index, Some(499));
    assert_eq!(st.logs[499].message, "m1");
}

#[test]
fn selection_stays_on_entry_across_inserts() {
    let mut st = AppState::new();
    st.add_log(entry("INFO", "svc", "target"));
    st.select_next_log();
    assert_eq!(st.selected_log_index, Some(0));
    for i in 0..10 {
        st.add_log(entry("INFO", "svc", &format!("m{}", i)));
    }
    assert_eq!(st.selected_log_index, Some(10));
    assert_eq!(st.logs[10].message, "target");
}

#[test]
fn navigation_bounds_on_empty_buffer() {
    let mut st = AppState::new();
    st.select_next_log();
    assert_eq!(st.selected_log_index, None);
    st.select_previous_log();
    assert_eq!(st.selected_log_index, None);
}

#[test]
fn navigation_saturates_at_both_ends() {
    let mut st = AppState::new();
    st.add_log(entry("INFO", "svc", "a"));
    st.add_log(entry("INFO", "svc", "b"));

    st.select_next_log();
    assert_eq!(st.selected_log_index, Some(0));
    st.select_next_log();
    assert_eq!(st.selected_log_index, Some(1));
    st.select_next_log();
    // clamped at the last index
    assert_eq!(st.selected_log_index, Some(1));

    st.select_previous_log();
    assert_eq!(st.selected_log_index, Some(0));
    st.select_previous_log();
    // saturates at 0
    assert_eq!(st.selected_log_index, Some(0));

    st.unselect_log();
    assert_eq!(st.selected_log_index, None);
    // without a selection, select_previous_log is a no-op
    st.select_previous_log();
    assert_eq!(st.selected_log_index, None);
}

#[test]
fn scenario_c_filter_applied_at_ingestion() {
    let mut st = AppState::new();
    st.set_filter(String::from("ERROR"));
    assert!(st.filter_regex.is_some());

    st.ingest_log(entry("INFO", "svc", "all quiet"));
    assert_eq!(st.logs.len(), 0);

    st.ingest_log(entry("ERROR", "svc", "boom"));
    assert_eq!(st.logs.len(), 1);
    assert_eq!(st.logs[0].level, "ERROR");

    // the subject includes the message too
    st.ingest_log(entry("INFO", "svc", "an ERROR happened"));
    assert_eq!(st.logs.len(), 2);
}

#[test]
fn filter_not_applied_retroactively() {
    let mut st = AppState::new();
    st.ingest_log(entry("INFO", "svc", "kept"));
    st.set_filter(String::from("ERROR"));
    // records already admitted stay
    assert_eq!(st.logs.len(), 1);
    assert_eq!(st.logs[0].message, "kept");
}

#[test]
fn invalid_pattern_falls_back_to_permissive() {
    let mut st = AppState::new();
    st.set_filter(String::from("([unclosed"));
    assert_eq!(st.filter_text, "([unclosed");
    assert!(st.filter_regex.is_none());

    st.ingest_log(entry("INFO", "svc", "anything"));
    assert_eq!(st.logs.len(), 1);
}

#[test]
fn empty_filter_matches_everything() {
    let mut st = AppState::new();
    st.set_filter(String::from("ERROR"));
    st.set_filter(String::new());
    assert!(st.filter_regex.is_none());
    st.ingest_log(entry("DEBUG", "svc", "x"));
    assert_eq!(st.logs.len(), 1);
}

#[test]
fn scenario_d_cancel_keeps_committed_filter() {
    let mut st = AppState::new();
    st.set_filter(String::from("abc"));
    st.start_editing();
    assert_eq!(st.input_mode, InputMode::Editing);
    assert_eq!(st.editing_text, "abc");

    st.cancel_editing();
    assert_eq!(st.input_mode, InputMode::Normal);
    assert_eq!(st.filter_text, "abc");
    assert_eq!(st.editing_text, "");
}

#[test]
fn submit_commits_edit_buffer() {
    let mut st = AppState::new();
    st.start_editing();
    st.insert_char('W');
    st.insert_char('A');
    st.insert_char('R');
    st.insert_char('N');
    assert_eq!(st.editing_text, "WARN");
    st.delete_char();
    assert_eq!(st.editing_text, "WAR");
    st.submit_editing();
    assert_eq!(st.input_mode, InputMode::Normal);
    assert_eq!(st.filter_text, "WAR");
    assert_eq!(st.editing_text, "");
    assert!(st.filter_regex.is_some());
}

#[test]
fn delete_char_on_empty_buffer_is_noop() {
    let mut st = AppState::new();
    st.start_editing();
    st.delete_char();
    assert_eq!(st.editing_text, "");
}

#[test]
fn scenario_e_first_stats_element_wins() {
    let mut st = AppState::new();
    st.ingest_stats(vec![stats(10, 2, Some("api")), stats(99, 50, Some("db"))]);
    let s = st.latest_stats.as_ref().expect("snapshot stored");
    assert_eq!(s.total_count, 10);
    assert_eq!(s.error_count, 2);
    assert_eq!(s.top_service.as_deref(), Some("api"));
}

#[test]
fn empty_stats_payload_changes_nothing() {
    let mut st = AppState::new();
    st.ingest_stats(vec![stats(7, 1, None)]);
    st.ingest_stats(vec![]);
    assert_eq!(st.latest_stats.as_ref().unwrap().total_count, 7);
}

#[test]
fn update_stats_replaces_wholesale() {
    let mut st = AppState::new();
    st.update_stats(stats(1, 0, None));
    st.update_stats(stats(2, 1, Some("api")));
    assert_eq!(st.latest_stats.as_ref().unwrap().total_count, 2);
}

#[test]
fn mode_isolation_navigation_inert_while_editing() {
    let mut st = AppState::new();
    st.add_log(entry("INFO", "svc", "a"));
    st.add_log(entry("INFO", "svc", "b"));
    st.select_next_log();
    assert_eq!(st.selected_log_index, Some(0));

    st.start_editing();
    let before_len = st.logs.len();
    for key in [Key::Up, Key::Down, Key::Char('j'), Key::Char('k'), Key::Char('q')] {
        let act = st.handle_key(key);
        // while editing, navigation keys only type into the edit buffer
        assert_eq!(act, KeyAction::NoOp);
    }
    assert_eq!(st.logs.len(), before_len);
    assert_eq!(st.selected_log_index, Some(0));
    assert_eq!(st.input_mode, InputMode::Editing);
    // the character keys went into the edit buffer instead
    assert_eq!(st.editing_text, "jkq");
}

#[test]
fn key_dispatch_in_normal_mode() {
    let mut st = AppState::new();
    st.add_log(entry("INFO", "svc", "a"));

    assert_eq!(st.handle_key(Key::Down), KeyAction::NoOp);
    assert_eq!(st.selected_log_index, Some(0));
    assert_eq!(st.handle_key(Key::Up), KeyAction::NoOp);
    assert_eq!(st.selected_log_index, Some(0));
    assert_eq!(st.handle_key(Key::Esc), KeyAction::NoOp);
    assert_eq!(st.selected_log_index, None);

    assert_eq!(st.handle_key(Key::Char('c')), KeyAction::CopySelected);
    assert_eq!(st.handle_key(Key::Char('q')), KeyAction::Quit);
    // neither mutated anything
    assert_eq!(st.logs.len(), 1);
    assert_eq!(st.input_mode, InputMode::Normal);

    assert_eq!(st.handle_key(Key::Char('i')), KeyAction::NoOp);
    assert_eq!(st.input_mode, InputMode::Editing);
    assert_eq!(st.handle_key(Key::Enter), KeyAction::NoOp);
    assert_eq!(st.input_mode, InputMode::Normal);
}

#[test]
fn selected_message_follows_selection() {
    let mut st = AppState::new();
    assert!(st.selected_message().is_none());
    st.add_log(entry("INFO", "svc", "first"));
    st.add_log(entry("INFO", "svc", "second"));
    assert!(st.selected_message().is_none());
    st.select_next_log();
    assert_eq!(st.selected_message().as_deref(), Some("second"));
    st.select_next_log();
    assert_eq!(st.selected_message().as_deref(), Some("first"));
}

#[test]
fn match_subject_joins_fields_with_spaces() {
    let e = entry("WARN", "billing", "late payment");
    assert_eq!(e.match_subject(), "WARN billing late payment");
}

#[test]
fn osc52_sequence_encodes_text() {
    // base64("hello") == "aGVsbG8="
    assert_eq!(osc52_sequence("hello"), "\u{1b}]52;c;aGVsbG8=\u{7}");
}

#[test]
fn osc52_sequence_of_empty_text() {
    assert_eq!(osc52_sequence(""), "\u{1b}]52;c;\u{7}");
}

#[test]
fn channel_classification() {
    assert_eq!(classify_channel(&String::from("logs.ingest")), Channel::Logs);
    assert_eq!(classify_channel(&String::from("stats.update")), Channel::Stats);
    assert_eq!(classify_channel(&String::from("other.channel")), Channel::Unknown);
    assert_eq!(logs_channel(), "logs.ingest");
    assert_eq!(stats_channel(), "stats.update");
}

#[test]
fn new_state_is_empty() {
    let st = AppState::new();
    assert_eq!(st.logs.len(), 0);
    assert!(st.latest_stats.is_none());
    assert_eq!(st.selected_log_index, None);
    assert_eq!(st.filter_text, "");
    assert!(st.filter_regex.is_none());
    assert_eq!(st.editing_text, "");
    assert_eq!(st.input_mode, InputMode::Normal);
}

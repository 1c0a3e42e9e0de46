use zapfast::activity::{
    label_for, monitor_input_ready, parse_monitor_target, ActivityEvent, ActivityEventKind,
    ActivityState, ActivityTracker, MonitoredTarget, MAX_HISTORY,
};

#[test]
fn numbers_parse_like_new_contacts() {
    assert_eq!(
        parse_monitor_target("+39 333 123 4567"),
        Some("393331234567@s.whatsapp.net".into())
    );
    assert_eq!(
        parse_monitor_target("393331234567"),
        Some("393331234567@s.whatsapp.net".into())
    );
    assert_eq!(parse_monitor_target("123"), None);
    assert_eq!(parse_monitor_target(""), None);
    assert_eq!(parse_monitor_target("abcdefg"), None);
}

#[test]
fn labels_prefer_names_then_numbers() {
    assert_eq!(label_for("1@s.whatsapp.net", Some("Ada")), "Ada");
    assert_eq!(label_for("1@s.whatsapp.net", Some("  ")), "+1");
    assert_eq!(label_for("1@s.whatsapp.net", None), "+1");
    assert_eq!(label_for("1-2@g.us", None), "1-2@g.us");
}

fn target() -> MonitoredTarget {
    MonitoredTarget {
        id: "393331234567@s.whatsapp.net".into(),
        label: "+39 333 123 456 7".into(),
    }
}

#[test]
fn presence_drives_state_and_history_once_per_change() {
    let mut tracker = ActivityTracker::default();
    assert!(!tracker.monitoring());
    assert!(tracker.start(target(), 100));
    assert!(tracker.monitoring());
    assert_eq!(tracker.last_state, ActivityState::Unknown);
    // Restarting the same target is a no-op.
    assert!(!tracker.start(target(), 101));
    assert_eq!(tracker.history.len(), 1);

    assert_eq!(
        tracker.note_presence(&target().id, true, 110),
        Some(ActivityState::Active)
    );
    // A repeated online report adds nothing.
    assert_eq!(tracker.note_presence(&target().id, true, 120), None);
    assert_eq!(
        tracker.note_presence(&target().id, false, 130),
        Some(ActivityState::Inactive)
    );
    assert_eq!(tracker.last_change_at, Some(130));
    let kinds: Vec<_> = tracker.history.iter().map(|event| event.kind).collect();
    assert_eq!(
        kinds,
        [
            ActivityEventKind::Started,
            ActivityEventKind::BecameActive,
            ActivityEventKind::BecameInactive
        ]
    );
    // Other contacts never leak into the timeline.
    assert_eq!(tracker.note_presence("999@s.whatsapp.net", true, 140), None);
    assert_eq!(tracker.history.len(), 3);
}

#[test]
fn typing_updates_last_activity_without_changing_state() {
    let mut tracker = ActivityTracker::default();
    tracker.note_typing(&target().id, 100);
    assert_eq!(tracker.last_typing_at, None);
    tracker.start(target(), 100);
    tracker.note_typing(&target().id, 110);
    tracker.note_typing(&target().id, 111);
    assert_eq!(tracker.last_typing_at, Some(111));
    assert_eq!(tracker.last_state, ActivityState::Unknown);
    let typing = tracker
        .history
        .iter()
        .filter(|event| event.kind == ActivityEventKind::TypingSeen)
        .count();
    assert_eq!(typing, 1, "consecutive bursts collapse into one entry");
}

#[test]
fn history_is_capped_and_stop_clears_the_session() {
    let mut tracker = ActivityTracker::default();
    tracker.start(target(), 0);
    for now in 1..=(MAX_HISTORY as i64 + 10) {
        tracker.note_typing("other@s.whatsapp.net", now);
        tracker.note_presence(&target().id, now % 2 == 0, now);
    }
    assert_eq!(tracker.history.len(), MAX_HISTORY);
    tracker.stop();
    assert!(!tracker.monitoring());
    assert!(tracker.history.is_empty());
    assert_eq!(tracker.last_state, ActivityState::Unknown);
}

#[test]
fn capped_history_keeps_the_newest_entries() {
    let mut tracker = ActivityTracker::default();
    tracker.start(target(), 0);
    for now in 1..=(MAX_HISTORY as i64 + 10) {
        tracker.note_presence(&target().id, now % 2 == 1, now);
    }
    assert_eq!(tracker.history.len(), MAX_HISTORY);
    assert_eq!(tracker.history[0].at, 11);
    assert_eq!(tracker.history[MAX_HISTORY - 1].at, MAX_HISTORY as i64 + 10);
    assert!(tracker
        .history
        .iter()
        .all(|event| event.kind != ActivityEventKind::Started));
}

#[test]
fn starting_another_target_resets_the_session_but_keeps_settings() {
    let mut tracker = ActivityTracker::default();
    tracker.input = "+1 555 0100".to_string();
    tracker.notify_on_change = true;
    tracker.start(target(), 10);
    tracker.note_presence(&target().id, true, 20);
    tracker.note_typing(&target().id, 30);
    let other = MonitoredTarget {
        id: "15550100@s.whatsapp.net".into(),
        label: "Bob".into(),
    };
    assert!(tracker.start(other.clone(), 40));
    assert_eq!(tracker.target, Some(other));
    assert_eq!(tracker.last_state, ActivityState::Unknown);
    assert_eq!(tracker.last_change_at, None);
    assert_eq!(tracker.last_typing_at, None);
    assert_eq!(
        tracker.history,
        vec![ActivityEvent {
            at: 40,
            kind: ActivityEventKind::Started
        }]
    );
    assert_eq!(tracker.input, "+1 555 0100");
    assert!(tracker.notify_on_change);
}

#[test]
fn same_number_with_another_label_is_a_new_target() {
    let mut tracker = ActivityTracker::default();
    assert!(tracker.start(target(), 1));
    let renamed = MonitoredTarget {
        id: target().id,
        label: "Ada".into(),
    };
    assert!(tracker.start(renamed, 2));
    assert_eq!(tracker.history.len(), 1);
    assert_eq!(tracker.history[0].at, 2);
}

#[test]
fn stop_keeps_input_and_notification_choice() {
    let mut tracker = ActivityTracker::default();
    tracker.input = "393331234567".to_string();
    tracker.notify_on_change = true;
    tracker.start(target(), 5);
    tracker.note_presence(&target().id, true, 6);
    tracker.stop();
    assert_eq!(tracker.target, None);
    assert_eq!(tracker.last_change_at, None);
    assert_eq!(tracker.last_typing_at, None);
    assert_eq!(tracker.input, "393331234567");
    assert!(tracker.notify_on_change);
    // After a stop, the same target starts afresh.
    assert!(tracker.start(target(), 7));
}

#[test]
fn presence_without_a_target_is_ignored() {
    let mut tracker = ActivityTracker::default();
    assert_eq!(tracker.note_presence(&target().id, true, 1), None);
    assert_eq!(tracker.last_state, ActivityState::Unknown);
    assert!(tracker.history.is_empty());
}

#[test]
fn typing_from_other_chats_is_ignored() {
    let mut tracker = ActivityTracker::default();
    tracker.start(target(), 1);
    tracker.note_typing("999@s.whatsapp.net", 2);
    assert_eq!(tracker.last_typing_at, None);
    assert_eq!(tracker.history.len(), 1);
}

#[test]
fn typing_after_a_state_change_is_a_new_entry() {
    let mut tracker = ActivityTracker::default();
    tracker.start(target(), 1);
    tracker.note_typing(&target().id, 2);
    tracker.note_presence(&target().id, true, 3);
    tracker.note_typing(&target().id, 4);
    let kinds: Vec<_> = tracker.history.iter().map(|event| event.kind).collect();
    assert_eq!(
        kinds,
        [
            ActivityEventKind::Started,
            ActivityEventKind::TypingSeen,
            ActivityEventKind::BecameActive,
            ActivityEventKind::TypingSeen
        ]
    );
    assert_eq!(tracker.last_state, ActivityState::Active);
    assert_eq!(tracker.last_change_at, Some(3));
}

#[test]
fn last_activity_is_the_later_observation() {
    let mut tracker = ActivityTracker::default();
    assert_eq!(tracker.last_activity_at(), None);
    tracker.start(target(), 1);
    tracker.note_typing(&target().id, 50);
    assert_eq!(tracker.last_activity_at(), Some(50));
    tracker.note_presence(&target().id, true, 40);
    assert_eq!(tracker.last_activity_at(), Some(50));
    tracker.note_presence(&target().id, false, 60);
    assert_eq!(tracker.last_activity_at(), Some(60));
}

#[test]
fn input_is_ready_exactly_when_it_parses() {
    for input in ["+39 333 123 4567", "1234567", "123456", "", "abc-defg", "12 34 56 7x"] {
        assert_eq!(
            monitor_input_ready(input),
            parse_monitor_target(input).is_some()
        );
    }
    assert!(monitor_input_ready("(+1) 555-0100"));
    assert!(!monitor_input_ready("555-010"));
}

#[test]
fn parsing_keeps_only_ascii_digits() {
    assert_eq!(
        parse_monitor_target("tel: +1 (555) 010-0199"),
        Some("15550100199@s.whatsapp.net".into())
    );
    // Non-ASCII digits do not count.
    assert_eq!(parse_monitor_target("١٢٣٤٥٦٧"), None);
}

#[test]
fn labels_format_numbers_in_groups() {
    assert_eq!(
        label_for("393331234567@s.whatsapp.net", None),
        "+39 333 123 456 7"
    );
    assert_eq!(label_for("12@s.whatsapp.net", None), "+12");
    assert_eq!(label_for("12345@s.whatsapp.net", None), "+12 345");
    assert_eq!(label_for("123456@s.whatsapp.net", None), "+12 345 6");
    // Tabs and non-breaking spaces are blank too.
    assert_eq!(label_for("44@s.whatsapp.net", Some("\t\u{a0}")), "+44");
    assert_eq!(label_for("44@s.whatsapp.net", Some(" Ada ")), " Ada ");
    // Ids that are not a person's number are shown as they are.
    assert_eq!(label_for("@s.whatsapp.net", None), "@s.whatsapp.net");
    assert_eq!(label_for("12a@s.whatsapp.net", None), "12a@s.whatsapp.net");
}

#[test]
fn state_and_event_wording() {
    assert_eq!(ActivityState::default(), ActivityState::Unknown);
    assert_eq!(ActivityState::Active.label(), "Active");
    assert_eq!(ActivityState::Inactive.label(), "Inactive");
    assert_eq!(ActivityState::Unknown.label(), "Unknown");
    assert_eq!(
        ActivityState::Inactive.detail(),
        "Offline, or hidden by their privacy settings."
    );
    assert_eq!(
        ActivityState::Active.detail(),
        "Online now, as reported by WhatsApp."
    );
    assert_eq!(
        ActivityState::Unknown.detail(),
        "No presence data yet. Start monitoring and wait for an update."
    );
    assert_eq!(ActivityEventKind::Started.label(), "Monitoring started");
    assert_eq!(ActivityEventKind::BecameActive.label(), "Became active");
    assert_eq!(ActivityEventKind::BecameInactive.label(), "Became inactive");
    assert_eq!(ActivityEventKind::TypingSeen.label(), "Typing");
    assert_eq!(ActivityEventKind::Stopped.label(), "Monitoring stopped");
}

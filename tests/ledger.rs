use unifi_protect_backup::ledger::{Backup, Event, Ledger};

fn event(id: &str, camera: &str, start: i64, end: Option<i64>, backed_up: bool) -> Event {
    Event {
        id: id.to_string(),
        event_type: "motion".to_string(),
        camera_id: camera.to_string(),
        start_time: start,
        end_time: end,
        backed_up,
    }
}

fn backup(event_id: &str, path: &str, size: u64) -> Backup {
    Backup { event_id: event_id.to_string(), remote_path: path.to_string(), backup_time: 10, size_bytes: size }
}

#[test]
fn upsert_replaces_by_id() {
    let mut l = Ledger::new();
    l.insert_event(event("a", "cam", 1, None, false));
    l.insert_event(event("a", "cam2", 1, Some(5), false));
    let e = l.get_event_by_id(&"a".to_string()).expect("stored");
    assert_eq!(e.camera_id, "cam2");
    assert_eq!(e.end_time, Some(5));
    assert!(l.get_event_by_id(&"b".to_string()).is_none());
}

#[test]
fn backed_up_row_is_never_lowered() {
    let mut l = Ledger::new();
    l.insert_event(event("a", "cam", 1, Some(2), false));
    l.mark_event_backed_up(&"a".to_string());
    l.insert_event(event("a", "cam", 1, Some(3), false));
    let e = l.get_event_by_id(&"a".to_string()).expect("stored");
    assert!(e.backed_up);
    assert_eq!(e.end_time, Some(2));
}

#[test]
fn unfinished_event_is_not_marked() {
    let mut l = Ledger::new();
    l.insert_event(event("a", "cam", 1, None, false));
    l.mark_event_backed_up(&"a".to_string());
    assert!(!l.get_event_by_id(&"a".to_string()).expect("stored").backed_up);
}

#[test]
fn mark_is_idempotent() {
    let mut l = Ledger::new();
    l.insert_event(event("a", "cam", 1, Some(2), false));
    l.mark_event_backed_up(&"a".to_string());
    l.mark_event_backed_up(&"a".to_string());
    assert!(l.get_event_by_id(&"a".to_string()).expect("stored").backed_up);
    assert_eq!(l.get_events_not_backed_up().len(), 0);
}

#[test]
fn ready_query_selects_ended_unmarked_rows() {
    let mut l = Ledger::new();
    l.insert_event(event("open", "cam", 1, None, false));
    l.insert_event(event("done", "cam", 1, Some(2), false));
    l.insert_event(event("saved", "cam", 1, Some(2), false));
    l.mark_event_backed_up(&"saved".to_string());
    let ready = l.get_events_not_backed_up();
    assert_eq!(ready.len(), 1);
    assert_eq!(ready[0].id, "done");
}

#[test]
fn events_by_camera() {
    let mut l = Ledger::new();
    l.insert_event(event("a", "front", 1, None, false));
    l.insert_event(event("b", "back", 1, None, false));
    l.insert_event(event("c", "front", 1, None, false));
    let ids: Vec<String> = l.get_events_by_camera(&"front".to_string()).into_iter().map(|e| e.id).collect();
    assert_eq!(ids, vec!["a".to_string(), "c".to_string()]);
}

#[test]
fn insert_backup_is_idempotent_on_key() {
    let mut l = Ledger::new();
    l.insert_event(event("a", "cam", 1, Some(2), false));
    assert!(l.insert_backup(backup("a", "p/a.mp4", 7)));
    assert!(l.insert_backup(backup("a", "p/a.mp4", 7)));
    assert!(l.insert_backup(backup("a", "q/a.mp4", 7)));
    assert!(!l.insert_backup(backup("missing", "p/x.mp4", 7)));
}

#[test]
fn cleanup_drops_old_rows_and_their_backups() {
    let mut l = Ledger::new();
    l.insert_event(event("old", "cam", 1_000, Some(2_000), false));
    l.insert_event(event("new", "cam", 90_000, Some(91_000), false));
    assert!(l.insert_backup(backup("old", "x", 1)));
    assert!(l.insert_backup(backup("new", "y", 1)));
    l.cleanup_old_events(100_000, 50_000);
    assert!(l.get_event_by_id(&"old".to_string()).is_none());
    assert!(l.get_event_by_id(&"new".to_string()).is_some());
    assert!(!l.insert_backup(backup("old", "x", 1)));
}

#[test]
fn fan_out_with_one_failure_keeps_event_pending() {
    let mut l = Ledger::new();
    l.insert_event(event("evt3", "cam", 1, Some(2), false));
    let outcome = vec![Some("local/evt3.mp4".to_string()), None, Some("b2/evt3.mp4".to_string())];
    assert!(!l.record_fan_out(&"evt3".to_string(), &outcome, 100, 5));
    assert!(!l.get_event_by_id(&"evt3".to_string()).expect("stored").backed_up);
    assert_eq!(l.get_events_not_backed_up().len(), 1);
    let retry = vec![
        Some("local/evt3.mp4".to_string()),
        Some("rclone/evt3.mp4".to_string()),
        Some("b2/evt3.mp4".to_string()),
    ];
    assert!(l.record_fan_out(&"evt3".to_string(), &retry, 200, 5));
    assert!(l.get_event_by_id(&"evt3".to_string()).expect("stored").backed_up);
    assert_eq!(l.get_events_not_backed_up().len(), 0);
}

#[test]
fn fan_out_for_unknown_or_open_event_marks_nothing() {
    let mut l = Ledger::new();
    l.insert_event(event("open", "cam", 1, None, false));
    assert!(!l.record_fan_out(&"open".to_string(), &vec![Some("p".to_string())], 1, 1));
    assert!(!l.record_fan_out(&"ghost".to_string(), &vec![Some("p".to_string())], 1, 1));
}

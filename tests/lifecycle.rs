use unifi_protect_backup::dispatch::protect_event_from_database_event;
use unifi_protect_backup::events::{Kind, ModelKey, WebSocketAction, WebSocketActionFrame, WebSocketDataFrame, WebSocketMessage};
use unifi_protect_backup::ledger::Ledger;
use unifi_protect_backup::listener::{apply_message, classify, FrameClass, ListenerOutcome};
use unifi_protect_backup::models::{Bootstrap, Camera, Nvr};

fn msg(action: WebSocketAction, id: &str, record: Option<&str>, kind: Option<Kind>, data_id: Option<&str>, start: Option<i64>, end: Option<i64>) -> WebSocketMessage {
    WebSocketMessage {
        action_frame: WebSocketActionFrame {
            action,
            new_update_id: "00000000-0000-0000-0000-000000000000".to_string(),
            model_key: ModelKey::Event,
            record_model: None,
            record_id: record.map(|s| s.to_string()),
            id: id.to_string(),
        },
        data_frame: WebSocketDataFrame { kind, id: data_id.map(|s| s.to_string()), start, end },
    }
}

fn bootstrap() -> Bootstrap {
    Bootstrap {
        cameras: vec![Camera { id: "camA".to_string(), name: "Front".to_string(), mac: String::new(), model: None, is_connected: true }],
        nvr: Nvr { id: String::new(), name: String::new(), version: String::new(), timezone: "UTC".to_string() },
    }
}

#[test]
fn happy_path() {
    let mut l = Ledger::new();
    let start = msg(WebSocketAction::Add, "evt1", Some("camA"), Some(Kind::Motion), Some("evt1"), Some(1_700_000_000_000), None);
    assert_eq!(apply_message(&mut l, &start), ListenerOutcome::Started);
    let row = l.get_event_by_id(&"evt1".to_string()).expect("recorded");
    assert_eq!(row.start_time, 1_700_000_000_000);
    assert_eq!(row.end_time, None);
    let end = msg(WebSocketAction::Update, "evt1", Some("camA"), None, None, None, Some(1_700_000_020_000));
    assert_eq!(apply_message(&mut l, &end), ListenerOutcome::Completed);
    let ready = l.get_events_not_backed_up();
    assert_eq!(ready.len(), 1);
    assert_eq!(ready[0].end_time, Some(1_700_000_020_000));
    assert!(!ready[0].backed_up);
    let event = protect_event_from_database_event(&ready[0], &bootstrap());
    let name = event.format_filename_at("{camera_name}/{date}/{time}_motion.mp4", 0);
    assert_eq!(name, "Front/2023-11-14/22-13-20_motion.mp4");
    assert!(l.record_fan_out(&"evt1".to_string(), &vec![Some(name)], 1_700_000_100, 1024));
    assert!(l.get_event_by_id(&"evt1".to_string()).expect("recorded").backed_up);
}

#[test]
fn camera_lookup_takes_last_entry() {
    let mut b = bootstrap();
    b.cameras.push(Camera { id: "camA".to_string(), name: "Porch".to_string(), mac: String::new(), model: None, is_connected: false });
    assert_eq!(b.camera_name(&"camA".to_string()).as_deref(), Some("Porch"));
    assert_eq!(b.camera_name(&"camZ".to_string()), None);
}

#[test]
fn recorder_record_kinds() {
    assert!(matches!(ModelKey::from_name(&"camera".to_string()), ModelKey::Camera));
    assert!(matches!(ModelKey::from_name(&"liveview".to_string()), ModelKey::Liveview));
    assert!(matches!(ModelKey::from_name(&"doorlock".to_string()), ModelKey::Unknown(s) if s == "doorlock"));
    assert!(matches!(Kind::from_name(&"motion".to_string()), Kind::Motion));
    assert!(matches!(Kind::from_name(&"ring".to_string()), Kind::Unknown(s) if s == "ring"));
}

#[test]
fn missed_start() {
    let mut l = Ledger::new();
    let end = msg(WebSocketAction::Update, "evt2", Some("camA"), None, None, None, Some(5));
    assert_eq!(apply_message(&mut l, &end), ListenerOutcome::MissedStart);
    assert!(l.get_event_by_id(&"evt2".to_string()).is_none());
    assert_eq!(l.get_events_not_backed_up().len(), 0);
}

#[test]
fn other_frames_are_ignored() {
    let mut l = Ledger::new();
    let m = msg(WebSocketAction::Add, "x", None, Some(Kind::Unknown("ring".to_string())), Some("x"), Some(1), None);
    assert!(matches!(classify(&m), FrameClass::Other));
    assert_eq!(apply_message(&mut l, &m), ListenerOutcome::Ignored);
    let no_start = msg(WebSocketAction::Add, "y", None, Some(Kind::Motion), Some("y"), None, None);
    assert_eq!(apply_message(&mut l, &no_start), ListenerOutcome::Ignored);
    assert!(l.get_event_by_id(&"y".to_string()).is_none());
}

#[test]
fn start_without_camera_records_empty_camera() {
    let mut l = Ledger::new();
    let m = msg(WebSocketAction::Add, "z", None, Some(Kind::Motion), Some("z"), Some(7), None);
    match classify(&m) {
        FrameClass::NewMotion { id, start_time } => {
            assert_eq!(id, "z");
            assert_eq!(start_time, 7);
        }
        _ => panic!("expected a new motion event"),
    }
    apply_message(&mut l, &m);
    assert_eq!(l.get_event_by_id(&"z".to_string()).expect("recorded").camera_id, "");
}

#[test]
fn completion_of_backed_up_event_changes_nothing() {
    let mut l = Ledger::new();
    apply_message(&mut l, &msg(WebSocketAction::Add, "e", Some("camA"), Some(Kind::Motion), Some("e"), Some(1), None));
    apply_message(&mut l, &msg(WebSocketAction::Update, "e", Some("camA"), None, None, None, Some(2)));
    l.mark_event_backed_up(&"e".to_string());
    apply_message(&mut l, &msg(WebSocketAction::Update, "e", Some("camB"), None, None, None, Some(9)));
    let row = l.get_event_by_id(&"e".to_string()).expect("recorded");
    assert!(row.backed_up);
    assert_eq!(row.end_time, Some(2));
    assert_eq!(row.camera_id, "camA");
}

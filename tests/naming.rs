use unifi_protect_backup::events::{EventType, ProtectEvent, SmartDetectType};
use unifi_protect_backup::template::{render_filename, TemplateValues};

fn event(kind: EventType, smart: Vec<SmartDetectType>) -> ProtectEvent {
    ProtectEvent {
        id: "evt1".to_string(),
        camera_id: "camA".to_string(),
        camera_name: Some("Front".to_string()),
        start_time: Some(1_700_000_000_000),
        end_time: Some(1_700_000_020_000),
        event_type: kind,
        smart_detect_types: smart,
        thumbnail_id: None,
        heatmap_id: None,
        is_finished: true,
    }
}

#[test]
fn every_token_is_expanded() {
    let e = event(EventType::Motion, vec![]);
    let name = e.format_filename_at("{camera_name}|{camera_id}|{date}|{time}|{end_time}|{detection_type}|{event_id}", 0);
    assert_eq!(name, "Front|camA|2023-11-14|22-13-20|22-13-40|motion|evt1");
}

#[test]
fn ongoing_and_unknown_camera() {
    let mut e = event(EventType::Ring, vec![]);
    e.end_time = None;
    e.camera_name = None;
    let name = e.format_filename_at("{camera_name}-{end_time}-{detection_type}", 0);
    assert_eq!(name, "Unknown-ongoing-ring");
}

#[test]
fn missing_start_uses_present() {
    let mut e = event(EventType::Motion, vec![]);
    e.start_time = None;
    let name = e.format_filename_at("{date} {time}", 86_400_000 + 3_723_000);
    assert_eq!(name, "1970-01-02 01-02-03");
}

#[test]
fn format_filename_is_pure() {
    let e = event(EventType::Motion, vec![]);
    assert_eq!(e.format_filename("{date}_{detection_type}.mp4"), "2023-11-14_motion.mp4");
    let mut open = event(EventType::Motion, vec![]);
    open.start_time = None;
    let first = open.format_filename("{date} {time}");
    assert_eq!(first, "1970-01-01 00-00-00");
    assert_eq!(open.format_filename("{date} {time}"), first);
}

#[test]
fn format_filename_twice_is_stable() {
    let e = event(EventType::SmartDetect, vec![SmartDetectType::Person, SmartDetectType::Animal]);
    let once = e.format_filename("{camera_name}/{date}/{time}-{end_time}_{detection_type}_{event_id}.mp4");
    assert_eq!(once, "Front/2023-11-14/22-13-20-22-13-40_person_animal_evt1.mp4");
    assert_eq!(e.format_filename(&once), once);
}

#[test]
fn expansion_twice_is_stable() {
    let e = event(EventType::Line, vec![]);
    let fmt = "{camera_name}/{date}/{time}_{detection_type}.mp4";
    let once = e.format_filename_at(fmt, 0);
    let twice = e.format_filename_at(&once, 0);
    assert_eq!(once, "Front/2023-11-14/22-13-20_line.mp4");
    assert_eq!(once, twice);
}

#[test]
fn repeated_and_unknown_tokens() {
    let v = TemplateValues {
        camera_name: "N".to_string(),
        camera_id: "I".to_string(),
        date: "D".to_string(),
        time: "T".to_string(),
        end_time: "E".to_string(),
        detection_type: "K".to_string(),
        event_id: "X".to_string(),
    };
    assert_eq!(render_filename("{event_id}{event_id}-{other}-{time", &v), "XX-{other}-{time");
    assert_eq!(render_filename("", &v), "");
}

#[test]
fn detection_labels() {
    assert_eq!(event(EventType::Motion, vec![]).format_detection_type(), "motion");
    assert_eq!(event(EventType::Line, vec![]).format_detection_type(), "line");
    assert_eq!(event(EventType::SmartDetect, vec![]).format_detection_type(), "smart_detect");
    assert_eq!(
        event(EventType::SmartDetect, vec![SmartDetectType::Person, SmartDetectType::LicensePlate]).format_detection_type(),
        "person_license_plate"
    );
    assert_eq!(EventType::SmartDetect.to_text(), "smartdetect");
}

#[test]
fn detection_filter() {
    let wanted = vec!["vehicle".to_string(), "ring".to_string()];
    assert!(event(EventType::Motion, vec![]).should_backup(&vec![]));
    assert!(!event(EventType::Motion, vec![]).should_backup(&wanted));
    assert!(event(EventType::Ring, vec![]).should_backup(&wanted));
    assert!(event(EventType::SmartDetect, vec![SmartDetectType::Person, SmartDetectType::Vehicle]).should_backup(&wanted));
    assert!(!event(EventType::SmartDetect, vec![SmartDetectType::Person]).should_backup(&wanted));
}

#[test]
fn recorder_names() {
    assert_eq!(EventType::from_name(&"smartDetectZone".to_string()), EventType::SmartDetect);
    assert_eq!(EventType::from_name(&"line".to_string()), EventType::Line);
    assert_eq!(EventType::from_name(&"whatever".to_string()), EventType::Motion);
    assert_eq!(SmartDetectType::from_name(&"licensePlate".to_string()), Some(SmartDetectType::LicensePlate));
    assert_eq!(SmartDetectType::from_name(&"dog".to_string()), None);
}

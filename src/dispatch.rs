//! Decisions of the backup dispatcher: which ready events to back up, in
//! which batches, and under which name.
use vstd::prelude::*;
use crate::backup;
use crate::events::{contains_text, should_backup_spec, texts, EventType, ProtectEvent};
use crate::ledger::Event;
use crate::models::{camera_name_spec, Bootstrap};

verus! {

/// Ready events processed together; batches run one after the other.
pub const BATCH_SIZE: usize = 10;

/// Whether the configured camera lists let `camera_id` through: not
/// ignored, and listed when a list of cameras is given.
pub open spec fn camera_selected_spec(camera_id: Seq<char>, cameras: Seq<Seq<char>>, ignored: Seq<Seq<char>>) -> bool {
    !ignored.contains(camera_id) && (cameras.len() == 0 || cameras.contains(camera_id))
}

pub fn camera_selected(camera_id: &String, cameras: &Vec<String>, ignore_cameras: &Vec<String>) -> (r: bool)
    ensures
        r == camera_selected_spec(camera_id@, texts(cameras@), texts(ignore_cameras@)),
{
    if contains_text(ignore_cameras, camera_id.as_str()) {
        return false;
    }
    cameras.len() == 0 || contains_text(cameras, camera_id.as_str())
}

/// Whether the dispatcher backs up `event` under `config`: its detection
/// kind is wanted and its camera is selected.
pub fn should_dispatch(event: &ProtectEvent, config: &backup::Config) -> (r: bool)
    ensures
        r == (should_backup_spec(event.event_type, event.smart_detect_types@, texts(config.detection_types@))
            && camera_selected_spec(event.camera_id@, texts(config.cameras@), texts(config.ignore_cameras@))),
{
    event.should_backup(&config.detection_types) && camera_selected(&event.camera_id, &config.cameras, &config.ignore_cameras)
}

/// A ledger row joined with the bootstrap snapshot, as the destinations
/// see it.
pub fn protect_event_from_database_event(event: &Event, bootstrap: &Bootstrap) -> (r: ProtectEvent)
    ensures
        r.id@ == event.id@,
        r.camera_id@ == event.camera_id@,
        match (r.camera_name, camera_name_spec(bootstrap.cameras@, event.camera_id@)) {
            (Some(n), Some(m)) => n@ == m,
            (None, None) => true,
            _ => false,
        },
        r.start_time == Some(event.start_time),
        r.end_time == event.end_time,
        r.event_type == EventType::Motion,
        r.smart_detect_types@.len() == 0,
        r.thumbnail_id is None,
        r.heatmap_id is None,
        r.is_finished == event.end_time is Some,
{
    ProtectEvent {
        id: event.id.clone(),
        camera_id: event.camera_id.clone(),
        camera_name: bootstrap.camera_name(&event.camera_id),
        start_time: Some(event.start_time),
        end_time: event.end_time,
        event_type: EventType::Motion,
        smart_detect_types: Vec::new(),
        thumbnail_id: None,
        heatmap_id: None,
        is_finished: event.end_time.is_some(),
    }
}

} // verus!

//! The event-lifecycle rules: how a decoded push message moves the ledger.
use vstd::prelude::*;
use crate::events::{EventType, Kind, WebSocketAction, WebSocketMessage};
use crate::ledger::{has_event, upsert_spec, Event, EventRow, Ledger};

verus! {

/// What a decoded (Action, Data) pair means for the event lifecycle.
pub enum FrameClass {
    /// `add` of a motion record with its id and start.
    NewMotion { id: String, start_time: i64 },
    /// `update` that carries an end; the id is the Action frame's.
    Completed { id: String, end_time: i64 },
    Other,
}

pub open spec fn is_new_motion(m: &WebSocketMessage) -> bool {
    &&& m.action_frame.action == WebSocketAction::Add
    &&& m.data_frame.kind matches Some(Kind::Motion)
    &&& m.data_frame.id is Some
    &&& m.data_frame.start is Some
}

pub open spec fn is_completed(m: &WebSocketMessage) -> bool {
    !is_new_motion(m) && m.action_frame.action == WebSocketAction::Update && m.data_frame.end is Some
}

/// Sorts a message into new-motion, completed or other.
pub fn classify(m: &WebSocketMessage) -> (r: FrameClass)
    ensures
        is_new_motion(m) ==> (r matches FrameClass::NewMotion { id, start_time }
            && id@ == m.data_frame.id->0@ && start_time == m.data_frame.start->0),
        is_completed(m) ==> (r matches FrameClass::Completed { id, end_time }
            && id@ == m.action_frame.id@ && end_time == m.data_frame.end->0),
        !is_new_motion(m) && !is_completed(m) ==> r is Other,
{
    let motion = match &m.data_frame.kind {
        Some(Kind::Motion) => true,
        _ => false,
    };
    if m.action_frame.action == WebSocketAction::Add && motion {
        match (&m.data_frame.id, m.data_frame.start) {
            (Some(id), Some(start_time)) => {
                return FrameClass::NewMotion { id: id.clone(), start_time };
            },
            _ => {},
        }
    }
    if m.action_frame.action == WebSocketAction::Update {
        if let Some(end_time) = m.data_frame.end {
            return FrameClass::Completed { id: m.action_frame.id.clone(), end_time };
        }
    }
    FrameClass::Other
}

/// What the listener did with one message.
#[derive(Debug, Clone, Copy, PartialEq, Eq, Structural)]
pub enum ListenerOutcome {
    /// A new event row was recorded.
    Started,
    /// The stored row of the event now carries its end.
    Completed,
    /// The end of an event whose start was never recorded: dropped.
    MissedStart,
    /// Nothing of interest.
    Ignored,
}

/// The row recorded for the start of a motion event.
pub open spec fn started_row(id: Seq<char>, camera_id: Seq<char>, start_time: i64) -> EventRow {
    EventRow {
        id,
        event_type: EventType::Motion.text_spec(),
        camera_id,
        start_time,
        end_time: None,
        backed_up: false,
    }
}

/// The stored row with id `id` (meaningful when there is one).
pub open spec fn row_of(rows: Seq<EventRow>, id: Seq<char>) -> EventRow {
    rows[choose|i: int| 0 <= i < rows.len() && rows[i].id == id]
}

/// The message's camera: the Action frame's record id, or empty.
pub open spec fn record_camera(m: &WebSocketMessage) -> Seq<char> {
    match m.action_frame.record_id {
        Some(c) => c@,
        None => Seq::empty(),
    }
}

/// The stored row `existing` once the end `end_time` has been seen: the
/// camera is the message's record id where it has one; the flag is kept.
pub open spec fn completed_row(existing: EventRow, m: &WebSocketMessage, end_time: i64) -> EventRow {
    EventRow {
        camera_id: match m.action_frame.record_id {
            Some(c) => c@,
            None => existing.camera_id,
        },
        end_time: Some(end_time),
        ..existing
    }
}

/// Applies one decoded message to the ledger: a new motion event is
/// recorded at once, so that a restart between start and end loses
/// nothing; an end updates the stored row, or is dropped when its start
/// was never seen. The backed-up flag is never touched here.
pub fn apply_message(ledger: &mut Ledger, m: &WebSocketMessage) -> (r: ListenerOutcome)
    requires
        old(ledger).wf(),
    ensures
        final(ledger).wf(),
        final(ledger).backup_rows() == old(ledger).backup_rows(),
        is_new_motion(m) ==> r == ListenerOutcome::Started && final(ledger).rows() == upsert_spec(
            old(ledger).rows(),
            started_row(m.data_frame.id->0@, record_camera(m), m.data_frame.start->0),
        ),
        is_completed(m) && !has_event(old(ledger).rows(), m.action_frame.id@) ==> r
            == ListenerOutcome::MissedStart && final(ledger).rows() == old(ledger).rows(),
        is_completed(m) && has_event(old(ledger).rows(), m.action_frame.id@) ==> r
            == ListenerOutcome::Completed && final(ledger).rows() == upsert_spec(
            old(ledger).rows(),
            completed_row(row_of(old(ledger).rows(), m.action_frame.id@), m, m.data_frame.end->0),
        ),
        !is_new_motion(m) && !is_completed(m) ==> r == ListenerOutcome::Ignored && final(ledger).rows()
            == old(ledger).rows(),
{
    match classify(m) {
        FrameClass::NewMotion { id, start_time } => {
            let camera_id = match &m.action_frame.record_id {
                Some(c) => c.clone(),
                None => String::new(),
            };
            let row = Event {
                id,
                event_type: EventType::Motion.to_text(),
                camera_id,
                start_time,
                end_time: None,
                backed_up: false,
            };
            ledger.insert_event(row);
            ListenerOutcome::Started
        },
        FrameClass::Completed { id, end_time } => {
            match ledger.get_event_by_id(&id) {
                None => ListenerOutcome::MissedStart,
                Some(existing) => {
                    proof {
                        let rows = old(ledger).rows();
                        let i = choose|i: int| 0 <= i < rows.len() && rows[i] == existing@ && existing@.id == id@;
                        let j = choose|j: int| 0 <= j < rows.len() && rows[j].id == id@;
                        assert(i == j);
                    }
                    let camera_id = match &m.action_frame.record_id {
                        Some(c) => c.clone(),
                        None => existing.camera_id,
                    };
                    let row = Event {
                        id: existing.id,
                        event_type: existing.event_type,
                        camera_id,
                        start_time: existing.start_time,
                        end_time: Some(end_time),
                        backed_up: existing.backed_up,
                    };
                    ledger.insert_event(row);
                    ListenerOutcome::Completed
                },
            }
        },
        FrameClass::Other => ListenerOutcome::Ignored,
    }
}

} // verus!

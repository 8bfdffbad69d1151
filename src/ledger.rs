//! The event ledger: detected events and the backups stored of them, with
//! upsert-by-key writes and the queries the pipeline runs.
use vstd::prelude::*;

verus! {

/// One detected motion interval, as the ledger stores it.
pub struct Event {
    pub id: String,
    pub event_type: String,
    pub camera_id: String,
    /// Milliseconds since the epoch.
    pub start_time: i64,
    /// Milliseconds since the epoch; present once the event has ended.
    pub end_time: Option<i64>,
    pub backed_up: bool,
}

/// One successful store of an event's clip at one destination.
pub struct Backup {
    pub event_id: String,
    pub remote_path: String,
    /// Seconds since the epoch.
    pub backup_time: i64,
    pub size_bytes: u64,
}

/// The contents of an [`Event`].
pub struct EventRow {
    pub id: Seq<char>,
    pub event_type: Seq<char>,
    pub camera_id: Seq<char>,
    pub start_time: i64,
    pub end_time: Option<i64>,
    pub backed_up: bool,
}

/// The contents of a [`Backup`].
pub struct BackupRow {
    pub event_id: Seq<char>,
    pub remote_path: Seq<char>,
    pub backup_time: i64,
    pub size_bytes: u64,
}

impl View for Event {
    type V = EventRow;

    open spec fn view(&self) -> EventRow {
        EventRow {
            id: self.id@,
            event_type: self.event_type@,
            camera_id: self.camera_id@,
            start_time: self.start_time,
            end_time: self.end_time,
            backed_up: self.backed_up,
        }
    }
}

impl View for Backup {
    type V = BackupRow;

    open spec fn view(&self) -> BackupRow {
        BackupRow {
            event_id: self.event_id@,
            remote_path: self.remote_path@,
            backup_time: self.backup_time,
            size_bytes: self.size_bytes,
        }
    }
}

impl EventRow {
    /// A row may be marked backed up only once its end is known.
    pub open spec fn wf(self) -> bool {
        self.backed_up ==> self.end_time is Some
    }

    /// Waiting for the dispatcher: ended and not yet backed up.
    pub open spec fn is_ready(self) -> bool {
        !self.backed_up && self.end_time is Some
    }
}

impl Event {
    pub fn duplicate(&self) -> (r: Event)
        ensures
            r@ == self@,
    {
        Event {
            id: self.id.clone(),
            event_type: self.event_type.clone(),
            camera_id: self.camera_id.clone(),
            start_time: self.start_time,
            end_time: self.end_time,
            backed_up: self.backed_up,
        }
    }
}

impl Backup {
    pub fn duplicate(&self) -> (r: Backup)
        ensures
            r@ == self@,
    {
        Backup {
            event_id: self.event_id.clone(),
            remote_path: self.remote_path.clone(),
            backup_time: self.backup_time,
            size_bytes: self.size_bytes,
        }
    }
}

pub open spec fn rows_of(v: Seq<Event>) -> Seq<EventRow> {
    v.map_values(|e: Event| e@)
}

pub open spec fn backup_rows_of(v: Seq<Backup>) -> Seq<BackupRow> {
    v.map_values(|b: Backup| b@)
}

pub open spec fn has_event(rows: Seq<EventRow>, id: Seq<char>) -> bool {
    exists|i: int| 0 <= i < rows.len() && rows[i].id == id
}

pub open spec fn has_backup(rows: Seq<BackupRow>, event_id: Seq<char>, remote_path: Seq<char>) -> bool {
    exists|i: int|
        0 <= i < rows.len() && rows[i].event_id == event_id && rows[i].remote_path == remote_path
}

pub open spec fn unique_ids(rows: Seq<EventRow>) -> bool {
    forall|i: int, j: int| 0 <= i < rows.len() && 0 <= j < rows.len() && rows[i].id == rows[j].id ==> i == j
}

pub open spec fn unique_backup_keys(rows: Seq<BackupRow>) -> bool {
    forall|i: int, j: int|
        0 <= i < rows.len() && 0 <= j < rows.len() && rows[i].event_id == rows[j].event_id
            && rows[i].remote_path == rows[j].remote_path ==> i == j
}

/// Insert-or-replace by id, where a row already marked backed up is kept
/// as it is: the flag never goes back from true to false.
pub open spec fn upsert_spec(rows: Seq<EventRow>, e: EventRow) -> Seq<EventRow> {
    if has_event(rows, e.id) {
        rows.map_values(|r: EventRow| if r.id == e.id && !r.backed_up { e } else { r })
    } else {
        rows.push(e)
    }
}

/// Sets the flag of the row `id`, if that row has ended.
pub open spec fn mark_spec(rows: Seq<EventRow>, id: Seq<char>) -> Seq<EventRow> {
    rows.map_values(
        |r: EventRow|
            if r.id == id && r.end_time is Some {
                EventRow { backed_up: true, ..r }
            } else {
                r
            },
    )
}

/// Insert-or-replace on the key (event id, remote path).
pub open spec fn insert_backup_spec(rows: Seq<BackupRow>, b: BackupRow) -> Seq<BackupRow> {
    if has_backup(rows, b.event_id, b.remote_path) {
        rows.map_values(
            |r: BackupRow|
                if r.event_id == b.event_id && r.remote_path == b.remote_path { b } else { r },
        )
    } else {
        rows.push(b)
    }
}

pub open spec fn ready_spec(rows: Seq<EventRow>) -> Seq<EventRow> {
    rows.filter(|r: EventRow| r.is_ready())
}

pub open spec fn by_camera_spec(rows: Seq<EventRow>, camera_id: Seq<char>) -> Seq<EventRow> {
    rows.filter(|r: EventRow| r.camera_id == camera_id)
}

pub open spec fn kept_spec(rows: Seq<EventRow>, cutoff: int) -> Seq<EventRow> {
    rows.filter(|r: EventRow| r.start_time >= cutoff)
}

pub open spec fn kept_backups_spec(rows: Seq<BackupRow>, events: Seq<EventRow>) -> Seq<BackupRow> {
    rows.filter(|b: BackupRow| has_event(events, b.event_id))
}

/// Events and backups kept in memory, keyed as the relational store keys
/// them; every write preserves the store's invariants.
pub struct Ledger {
    events: Vec<Event>,
    backups: Vec<Backup>,
}

impl Ledger {
    pub closed spec fn rows(&self) -> Seq<EventRow> {
        rows_of(self.events@)
    }

    pub closed spec fn backup_rows(&self) -> Seq<BackupRow> {
        backup_rows_of(self.backups@)
    }

    /// Ids and backup keys are unique, a backed-up row has ended, and every
    /// backup belongs to a stored event.
    pub open spec fn wf(&self) -> bool {
        &&& unique_ids(self.rows())
        &&& unique_backup_keys(self.backup_rows())
        &&& forall|i: int| 0 <= i < self.rows().len() ==> (#[trigger] self.rows()[i]).wf()
        &&& forall|i: int|
            0 <= i < self.backup_rows().len() ==> has_event(
                self.rows(),
                (#[trigger] self.backup_rows()[i]).event_id,
            )
    }

    pub fn new() -> (r: Ledger)
        ensures
            r.wf(),
            r.rows() == Seq::<EventRow>::empty(),
            r.backup_rows() == Seq::<BackupRow>::empty(),
    {
        let r = Ledger { events: Vec::new(), backups: Vec::new() };
        assert(r.rows() =~= Seq::<EventRow>::empty());
        assert(r.backup_rows() =~= Seq::<BackupRow>::empty());
        r
    }

    fn find_event(&self, id: &String) -> (r: Option<usize>)
        ensures
            match r {
                Some(i) => i < self.rows().len() && self.rows()[i as int].id == id@,
                None => !has_event(self.rows(), id@),
            },
    {
        let mut i: usize = 0;
        while i < self.events.len()
            invariant
                i <= self.events@.len(),
                forall|j: int| 0 <= j < i ==> self.rows()[j].id != id@,
            decreases self.events@.len() - i,
        {
            if self.events[i].id == *id {
                return Some(i);
            }
            i = i + 1;
        }
        None
    }

    fn find_backup(&self, event_id: &String, remote_path: &String) -> (r: Option<usize>)
        ensures
            match r {
                Some(i) => i < self.backup_rows().len() && self.backup_rows()[i as int].event_id
                    == event_id@ && self.backup_rows()[i as int].remote_path == remote_path@,
                None => !has_backup(self.backup_rows(), event_id@, remote_path@),
            },
    {
        let mut i: usize = 0;
        while i < self.backups.len()
            invariant
                i <= self.backups@.len(),
                forall|j: int|
                    0 <= j < i ==> !(self.backup_rows()[j].event_id == event_id@
                        && self.backup_rows()[j].remote_path == remote_path@),
            decreases self.backups@.len() - i,
        {
            if self.backups[i].event_id == *event_id && self.backups[i].remote_path == *remote_path {
                return Some(i);
            }
            i = i + 1;
        }
        None
    }

    /// The stored row with this id, if any.
    pub fn get_event_by_id(&self, id: &String) -> (r: Option<Event>)
        requires
            self.wf(),
        ensures
            r is Some <==> has_event(self.rows(), id@),
            r matches Some(e) ==> exists|i: int|
                0 <= i < self.rows().len() && self.rows()[i] == e@ && e@.id == id@,
    {
        match self.find_event(id) {
            Some(i) => Some(self.events[i].duplicate()),
            None => None,
        }
    }

    /// Insert-or-replace by id; a row already backed up is left as it is.
    pub fn insert_event(&mut self, event: Event)
        requires
            old(self).wf(),
            event@.wf(),
        ensures
            final(self).wf(),
            final(self).rows() == upsert_spec(old(self).rows(), event@),
            final(self).backup_rows() == old(self).backup_rows(),
    {
        let ghost old_rows = self.rows();
        let ghost e = event@;
        match self.find_event(&event.id) {
            Some(i) => {
                if !self.events[i].backed_up {
                    self.events[i] = event;
                }
                proof {
                    assert(forall|j: int| 0 <= j < old_rows.len() && old_rows[j].id == e.id ==> j == i);
                    assert(self.rows() =~= upsert_spec(old_rows, e));
                    assert forall|j: int| 0 <= j < self.rows().len() implies has_event(self.rows(), #[trigger] old_rows[j].id) by {
                        assert(self.rows()[j].id == old_rows[j].id);
                    }
                }
            },
            None => {
                self.events.push(event);
                proof {
                    assert(self.rows() =~= upsert_spec(old_rows, e));
                    assert forall|j: int| 0 <= j < old_rows.len() implies has_event(self.rows(), #[trigger] old_rows[j].id) by {
                        assert(self.rows()[j].id == old_rows[j].id);
                    }
                }
            },
        }
    }

    /// Marks the row `id` backed up, if it exists and has ended.
    pub fn mark_event_backed_up(&mut self, id: &String)
        requires
            old(self).wf(),
        ensures
            final(self).wf(),
            final(self).rows() == mark_spec(old(self).rows(), id@),
            final(self).backup_rows() == old(self).backup_rows(),
    {
        let ghost old_rows = self.rows();
        match self.find_event(id) {
            Some(i) => {
                if self.events[i].end_time.is_some() {
                    self.events[i].backed_up = true;
                }
                proof {
                    assert(self.rows() =~= mark_spec(old_rows, id@));
                    assert forall|j: int| 0 <= j < old_rows.len() implies has_event(self.rows(), #[trigger] old_rows[j].id) by {
                        assert(self.rows()[j].id == old_rows[j].id);
                    }
                }
            },
            None => {
                proof {
                    assert(self.rows() =~= mark_spec(old_rows, id@));
                }
            },
        }
    }

    /// Insert-or-replace on (event id, remote path). Refused, and `false`,
    /// when no event with that id is stored.
    pub fn insert_backup(&mut self, backup: Backup) -> (r: bool)
        requires
            old(self).wf(),
        ensures
            final(self).wf(),
            r == has_event(old(self).rows(), backup@.event_id),
            final(self).rows() == old(self).rows(),
            final(self).backup_rows() == if r {
                insert_backup_spec(old(self).backup_rows(), backup@)
            } else {
                old(self).backup_rows()
            },
    {
        let ghost old_rows = self.backup_rows();
        let ghost b = backup@;
        if self.find_event(&backup.event_id).is_none() {
            return false;
        }
        match self.find_backup(&backup.event_id, &backup.remote_path) {
            Some(i) => {
                self.backups[i] = backup;
                proof {
                    assert(self.backup_rows() =~= insert_backup_spec(old_rows, b));
                }
            },
            None => {
                self.backups.push(backup);
                proof {
                    assert(self.backup_rows() =~= insert_backup_spec(old_rows, b));
                }
            },
        }
        true
    }

    /// The rows that have ended and are not yet backed up, in ledger order.
    pub fn get_events_not_backed_up(&self) -> (r: Vec<Event>)
        requires
            self.wf(),
        ensures
            rows_of(r@) == ready_spec(self.rows()),
    {
        let mut out: Vec<Event> = Vec::new();
        let mut i: usize = 0;
        while i < self.events.len()
            invariant
                i <= self.events@.len(),
                rows_of(out@) == self.rows().subrange(0, i as int).filter(|r: EventRow| r.is_ready()),
            decreases self.events@.len() - i,
        {
            if !self.events[i].backed_up && self.events[i].end_time.is_some() {
                out.push(self.events[i].duplicate());
            }
            proof {
                reveal(Seq::filter);
                let s = self.rows().subrange(0, i + 1);
                assert(s.drop_last() =~= self.rows().subrange(0, i as int));
                assert(rows_of(out@) =~= s.filter(|r: EventRow| r.is_ready()));
            }
            i = i + 1;
        }
        assert(self.rows().subrange(0, i as int) =~= self.rows());
        out
    }

    /// The rows of one camera, in ledger order.
    pub fn get_events_by_camera(&self, camera_id: &String) -> (r: Vec<Event>)
        requires
            self.wf(),
        ensures
            rows_of(r@) == by_camera_spec(self.rows(), camera_id@),
    {
        let mut out: Vec<Event> = Vec::new();
        let mut i: usize = 0;
        while i < self.events.len()
            invariant
                i <= self.events@.len(),
                rows_of(out@) == self.rows().subrange(0, i as int).filter(|r: EventRow| r.camera_id == camera_id@),
            decreases self.events@.len() - i,
        {
            if self.events[i].camera_id == *camera_id {
                out.push(self.events[i].duplicate());
            }
            proof {
                reveal(Seq::filter);
                let s = self.rows().subrange(0, i + 1);
                assert(s.drop_last() =~= self.rows().subrange(0, i as int));
                assert(rows_of(out@) =~= s.filter(|r: EventRow| r.camera_id == camera_id@));
            }
            i = i + 1;
        }
        assert(self.rows().subrange(0, i as int) =~= self.rows());
        out
    }

    /// Deletes the rows that started before `now_millis - retention_millis`,
    /// and with them their backups.
    pub fn cleanup_old_events(&mut self, now_millis: i64, retention_millis: u64)
        requires
            old(self).wf(),
        ensures
            final(self).wf(),
            final(self).rows() == kept_spec(old(self).rows(), now_millis - retention_millis),
            final(self).backup_rows() == kept_backups_spec(old(self).backup_rows(), final(self).rows()),
    {
        let ghost cutoff: int = now_millis - retention_millis;
        let ghost rows0 = self.rows();
        let ghost brows0 = self.backup_rows();
        let cut: i128 = now_millis as i128 - retention_millis as i128;
        let mut kept: Vec<Event> = Vec::new();
        let mut i: usize = 0;
        while i < self.events.len()
            invariant
                i <= self.events@.len(),
                rows0 == self.rows(),
                rows_of(kept@) == rows0.subrange(0, i as int).filter(|r: EventRow| r.start_time >= cutoff),
                cut == cutoff,
                forall|k: int| 0 <= k < kept@.len() ==> exists|j: int|
                    0 <= j < i && #[trigger] rows_of(kept@)[k] == rows0[j],
                unique_ids(rows_of(kept@)),
                unique_ids(rows0),
            decreases self.events@.len() - i,
        {
            let ghost before = rows_of(kept@);
            if self.events[i].start_time as i128 >= cut {
                kept.push(self.events[i].duplicate());
                proof {
                    let after = rows_of(kept@);
                    assert(after =~= before.push(rows0[i as int]));
                    assert forall|k: int| 0 <= k < after.len() implies exists|j: int|
                        0 <= j < i + 1 && #[trigger] after[k] == rows0[j] by {
                        if k < before.len() {
                            assert(after[k] == before[k]);
                        } else {
                            assert(after[k] == rows0[i as int]);
                        }
                    }
                    assert forall|a: int, b: int|
                        0 <= a < after.len() && 0 <= b < after.len() && after[a].id == after[b].id
                        implies a == b by {
                        if a < before.len() && b < before.len() {
                            assert(after[a] == before[a] && after[b] == before[b]);
                        } else if a < before.len() {
                            assert(after[a] == before[a]);
                            let ja = choose|j: int| 0 <= j < i && before[a] == rows0[j];
                            assert(ja != i);
                        } else if b < before.len() {
                            assert(after[b] == before[b]);
                            let jb = choose|j: int| 0 <= j < i && before[b] == rows0[j];
                            assert(jb != i);
                        }
                    }
                }
            } else {
                proof {
                    assert(rows_of(kept@) == before);
                    assert forall|k: int| 0 <= k < before.len() implies exists|j: int|
                        0 <= j < i + 1 && #[trigger] before[k] == rows0[j] by {
                        let jk = choose|j: int| 0 <= j < i && before[k] == rows0[j];
                    }
                }
            }
            proof {
                reveal(Seq::filter);
                let s = rows0.subrange(0, i + 1);
                assert(s.drop_last() =~= rows0.subrange(0, i as int));
                assert(rows_of(kept@) =~= s.filter(|r: EventRow| r.start_time >= cutoff));
            }
            i = i + 1;
        }
        assert(rows0.subrange(0, i as int) =~= rows0);
        self.events = kept;
        proof {
            assert forall|k: int| 0 <= k < self.rows().len() implies (#[trigger] self.rows()[k]).wf() by {
                let jk = choose|j: int| 0 <= j < i && self.rows()[k] == rows0[j];
                assert(rows0[jk].wf());
            }
        }
        let mut kept_b: Vec<Backup> = Vec::new();
        let mut b: usize = 0;
        while b < self.backups.len()
            invariant
                b <= self.backups@.len(),
                brows0 == self.backup_rows(),
                rows_of(self.events@) == kept_spec(rows0, cutoff),
                backup_rows_of(kept_b@) == brows0.subrange(0, b as int).filter(
                    |x: BackupRow| has_event(kept_spec(rows0, cutoff), x.event_id),
                ),
                forall|k: int| 0 <= k < kept_b@.len() ==> exists|j: int|
                    0 <= j < b && #[trigger] backup_rows_of(kept_b@)[k] == brows0[j],
                unique_backup_keys(backup_rows_of(kept_b@)),
                unique_backup_keys(brows0),
            decreases self.backups@.len() - b,
        {
            let ghost before = backup_rows_of(kept_b@);
            if self.find_event(&self.backups[b].event_id).is_some() {
                kept_b.push(self.backups[b].duplicate());
                proof {
                    let after = backup_rows_of(kept_b@);
                    assert(after =~= before.push(brows0[b as int]));
                    assert forall|k: int| 0 <= k < after.len() implies exists|j: int|
                        0 <= j < b + 1 && #[trigger] after[k] == brows0[j] by {
                        if k < before.len() {
                            assert(after[k] == before[k]);
                        } else {
                            assert(after[k] == brows0[b as int]);
                        }
                    }
                    assert forall|x: int, y: int|
                        0 <= x < after.len() && 0 <= y < after.len() && after[x].event_id
                            == after[y].event_id && after[x].remote_path == after[y].remote_path
                        implies x == y by {
                        if x < before.len() && y < before.len() {
                            assert(after[x] == before[x] && after[y] == before[y]);
                        } else if x < before.len() {
                            assert(after[x] == before[x]);
                            let jx = choose|j: int| 0 <= j < b && before[x] == brows0[j];
                            assert(jx != b);
                        } else if y < before.len() {
                            assert(after[y] == before[y]);
                            let jy = choose|j: int| 0 <= j < b && before[y] == brows0[j];
                            assert(jy != b);
                        }
                    }
                }
            } else {
                proof {
                    assert forall|k: int| 0 <= k < before.len() implies exists|j: int|
                        0 <= j < b + 1 && #[trigger] before[k] == brows0[j] by {
                        let jk = choose|j: int| 0 <= j < b && before[k] == brows0[j];
                    }
                }
            }
            proof {
                reveal(Seq::filter);
                let s = brows0.subrange(0, b + 1);
                assert(s.drop_last() =~= brows0.subrange(0, b as int));
                assert(backup_rows_of(kept_b@) =~= s.filter(
                    |x: BackupRow| has_event(kept_spec(rows0, cutoff), x.event_id),
                ));
            }
            b = b + 1;
        }
        assert(brows0.subrange(0, b as int) =~= brows0);
        self.backups = kept_b;
        proof {
            broadcast use vstd::seq_lib::group_filter_ensures;
            assert forall|k: int| 0 <= k < self.backup_rows().len() implies has_event(
                self.rows(),
                (#[trigger] self.backup_rows()[k]).event_id,
            ) by {
                let p = |x: BackupRow| has_event(kept_spec(rows0, cutoff), x.event_id);
                assert(brows0.filter(p)[k] == self.backup_rows()[k]);
            }
        }
    }

    /// Records the outcome of storing the clip of `event_id` at every
    /// destination: `stored[k]` is the path at destination `k`, or `None`
    /// where that store failed. Each success becomes a backup row; the
    /// event is marked backed up (and `true` returned) only when every
    /// destination succeeded and the event is stored and has ended.
    pub fn record_fan_out(
        &mut self,
        event_id: &String,
        stored: &Vec<Option<String>>,
        backup_time: i64,
        size_bytes: u64,
    ) -> (r: bool)
        requires
            old(self).wf(),
        ensures
            final(self).wf(),
            r == (all_stored(stored@) && ended(old(self).rows(), event_id@)),
            final(self).rows() == if r {
                mark_spec(old(self).rows(), event_id@)
            } else {
                old(self).rows()
            },
            forall|k: int| #![trigger stored@[k]]
                0 <= k < stored@.len() && stored@[k] is Some && has_event(old(self).rows(), event_id@)
                    ==> has_backup(final(self).backup_rows(), event_id@, stored@[k]->0@),
            r ==> forall|k: int| #![trigger stored@[k]]
                0 <= k < stored@.len() ==> stored@[k] is Some && has_backup(
                    final(self).backup_rows(),
                    event_id@,
                    stored@[k]->0@,
                ),
            forall|k: int| #![trigger old(self).backup_rows()[k]]
                0 <= k < old(self).backup_rows().len() ==> has_backup(
                    final(self).backup_rows(),
                    old(self).backup_rows()[k].event_id,
                    old(self).backup_rows()[k].remote_path,
                ),
    {
        let ghost rows0 = self.rows();
        let ghost brows0 = self.backup_rows();
        let mut all_ok = true;
        let mut k: usize = 0;
        while k < stored.len()
            invariant
                k <= stored@.len(),
                self.wf(),
                self.rows() == rows0,
                all_ok == all_stored(stored@.subrange(0, k as int)),
                forall|q: int| #![trigger stored@[q]]
                    0 <= q < k && stored@[q] is Some && has_event(rows0, event_id@)
                        ==> has_backup(self.backup_rows(), event_id@, stored@[q]->0@),
                forall|q: int| #![trigger brows0[q]]
                    0 <= q < brows0.len() ==> has_backup(self.backup_rows(), brows0[q].event_id, brows0[q].remote_path),
            decreases stored@.len() - k,
        {
            let ghost prev = self.backup_rows();
            match &stored[k] {
                Some(path) => {
                    let row = Backup {
                        event_id: event_id.clone(),
                        remote_path: path.clone(),
                        backup_time,
                        size_bytes,
                    };
                    let ghost bv = row@;
                    self.insert_backup(row);
                    proof {
                        lemma_insert_backup_keeps(prev, bv);
                        if has_event(rows0, event_id@) {
                            lemma_insert_backup_has(prev, bv);
                        }
                    }
                },
                None => {
                    all_ok = false;
                },
            }
            proof {
                assert(stored@.subrange(0, k + 1).drop_last() =~= stored@.subrange(0, k as int));
            }
            k = k + 1;
        }
        assert(stored@.subrange(0, k as int) =~= stored@);
        if !all_ok {
            return false;
        }
        match self.find_event(event_id) {
            Some(i) => {
                if self.events[i].end_time.is_none() {
                    return false;
                }
            },
            None => {
                return false;
            },
        }
        self.mark_event_backed_up(event_id);
        proof {
            assert forall|q: int| #![trigger stored@[q]] 0 <= q < stored@.len() implies stored@[q] is Some by {
                lemma_all_stored(stored@, q);
            }
        }
        true
    }
}

/// Every destination reported a stored path.
pub open spec fn all_stored(stored: Seq<Option<String>>) -> bool
    decreases stored.len(),
{
    if stored.len() == 0 {
        true
    } else {
        all_stored(stored.drop_last()) && stored.last() is Some
    }
}

proof fn lemma_all_stored(s: Seq<Option<String>>, k: int)
    requires
        all_stored(s),
        0 <= k < s.len(),
    ensures
        s[k] is Some,
    decreases s.len(),
{
    if k < s.len() - 1 {
        lemma_all_stored(s.drop_last(), k);
        assert(s.drop_last()[k] == s[k]);
    }
}

/// The row `id` exists and has ended.
pub open spec fn ended(rows: Seq<EventRow>, id: Seq<char>) -> bool {
    exists|i: int| 0 <= i < rows.len() && rows[i].id == id && rows[i].end_time is Some
}

proof fn lemma_insert_backup_keeps(rows: Seq<BackupRow>, b: BackupRow)
    ensures
        forall|e: Seq<char>, p: Seq<char>|
            has_backup(rows, e, p) ==> #[trigger] has_backup(insert_backup_spec(rows, b), e, p),
{
    let out = insert_backup_spec(rows, b);
    assert forall|e: Seq<char>, p: Seq<char>| has_backup(rows, e, p) implies #[trigger] has_backup(out, e, p) by {
        let i = choose|i: int| 0 <= i < rows.len() && rows[i].event_id == e && rows[i].remote_path == p;
        assert(out[i].event_id == e && out[i].remote_path == p);
    }
}

proof fn lemma_insert_backup_has(rows: Seq<BackupRow>, b: BackupRow)
    ensures
        has_backup(insert_backup_spec(rows, b), b.event_id, b.remote_path),
{
    let out = insert_backup_spec(rows, b);
    if has_backup(rows, b.event_id, b.remote_path) {
        let i = choose|i: int|
            0 <= i < rows.len() && rows[i].event_id == b.event_id && rows[i].remote_path == b.remote_path;
        assert(out[i] == b);
    } else {
        assert(out[rows.len() as int] == b);
    }
}

/// A well-formed ledger holds no row that is backed up but has not ended.
pub proof fn lemma_backed_up_has_ended(l: &Ledger, i: int)
    requires
        l.wf(),
        0 <= i < l.rows().len(),
        l.rows()[i].backed_up,
    ensures
        l.rows()[i].end_time is Some,
{
    assert(l.rows()[i].wf());
}

/// The ready query holds exactly the ledger rows that are not backed up and
/// have ended.
pub proof fn lemma_ready_exactly(rows: Seq<EventRow>, r: EventRow)
    ensures
        ready_spec(rows).contains(r) <==> (rows.contains(r) && r.is_ready()),
{
    broadcast use vstd::seq_lib::group_filter_ensures;

    let p = |x: EventRow| x.is_ready();
    if ready_spec(rows).contains(r) {
        rows.lemma_filter_contains_rev(p, r);
        let i = choose|i: int| 0 <= i < rows.filter(p).len() && rows.filter(p)[i] == r;
        assert(p(rows.filter(p)[i]));
    }
    if rows.contains(r) && r.is_ready() {
        let i = choose|i: int| 0 <= i < rows.len() && rows[i] == r;
        assert(rows.filter(p).contains(rows[i]));
    }
}

/// Marking an event twice leaves the ledger as marking it once.
pub proof fn lemma_mark_idempotent(rows: Seq<EventRow>, id: Seq<char>)
    ensures
        mark_spec(mark_spec(rows, id), id) == mark_spec(rows, id),
{
    assert(mark_spec(mark_spec(rows, id), id) =~= mark_spec(rows, id));
}

/// Inserting the same backup twice leaves the rows as inserting it once.
pub proof fn lemma_insert_backup_idempotent(rows: Seq<BackupRow>, b: BackupRow)
    ensures
        insert_backup_spec(insert_backup_spec(rows, b), b) == insert_backup_spec(rows, b),
{
    let once = insert_backup_spec(rows, b);
    lemma_insert_backup_has(rows, b);
    assert(insert_backup_spec(once, b) =~= once);
}

} // verus!

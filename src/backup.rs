//! Backup destinations: where each event's clip is stored.
use vstd::prelude::*;
use crate::events::texts;

pub mod local;
pub mod rclone;

verus! {

/// Settings shared by every backup destination. Durations are seconds.
pub struct Config {
    pub retention_period: u64,
    pub poll_interval: u64,
    pub max_event_length: u64,
    pub purge_interval: u64,
    pub file_structure_format: String,
    pub detection_types: Vec<String>,
    pub ignore_cameras: Vec<String>,
    pub cameras: Vec<String>,
    pub download_buffer_size: u64,
    pub parallel_uploads: u32,
    pub skip_missing: bool,
    pub remote: Vec<RemoteBackupConfig>,
}

/// One configured backup destination.
pub enum RemoteBackupConfig {
    Local(local::Config),
    Rclone(rclone::Config),
}

/// The same shared settings and the same destinations, in the same order.
pub open spec fn same_settings(a: Config, b: Config) -> bool {
    &&& a.retention_period == b.retention_period
    &&& a.poll_interval == b.poll_interval
    &&& a.max_event_length == b.max_event_length
    &&& a.purge_interval == b.purge_interval
    &&& a.file_structure_format@ == b.file_structure_format@
    &&& texts(a.detection_types@) == texts(b.detection_types@)
    &&& texts(a.ignore_cameras@) == texts(b.ignore_cameras@)
    &&& texts(a.cameras@) == texts(b.cameras@)
    &&& a.download_buffer_size == b.download_buffer_size
    &&& a.parallel_uploads == b.parallel_uploads
    &&& a.skip_missing == b.skip_missing
    &&& a.remote@.len() == b.remote@.len()
    &&& forall|i: int| 0 <= i < a.remote@.len() ==> (#[trigger] a.remote@[i]).same_as(b.remote@[i])
}

fn copy_texts(v: &Vec<String>) -> (r: Vec<String>)
    ensures
        texts(r@) == texts(v@),
{
    let mut out: Vec<String> = Vec::new();
    let mut i: usize = 0;
    while i < v.len()
        invariant
            i <= v@.len(),
            out@.len() == i,
            texts(out@) == texts(v@.subrange(0, i as int)),
        decreases v@.len() - i,
    {
        let ghost before = out@;
        let c = v[i].clone();
        assert(c@ == v@[i as int]@);
        out.push(c);
        assert forall|j: int| 0 <= j < i implies out@[j]@ == v@[j]@ by {
            assert(out@[j] == before[j]);
            assert(texts(before)[j] == texts(v@.subrange(0, i as int))[j]);
        }
        assert(texts(out@) =~= texts(v@.subrange(0, i + 1)));
        i = i + 1;
    }
    assert(v@.subrange(0, i as int) =~= v@);
    out
}

impl RemoteBackupConfig {
    pub fn duplicate(&self) -> (r: RemoteBackupConfig)
        ensures
            r.same_as(*self),
    {
        match self {
            RemoteBackupConfig::Local(c) => RemoteBackupConfig::Local(c.duplicate()),
            RemoteBackupConfig::Rclone(c) => RemoteBackupConfig::Rclone(c.duplicate()),
        }
    }

    pub open spec fn same_as(self, o: RemoteBackupConfig) -> bool {
        match (self, o) {
            (RemoteBackupConfig::Local(a), RemoteBackupConfig::Local(b)) => a.same_as(b),
            (RemoteBackupConfig::Rclone(a), RemoteBackupConfig::Rclone(b)) => a.same_as(b),
            _ => false,
        }
    }
}

impl Config {
    /// A copy with the same settings and the same destinations.
    pub fn duplicate(&self) -> (r: Config)
        ensures
            same_settings(r, *self),
    {
        let mut remote: Vec<RemoteBackupConfig> = Vec::new();
        let mut i: usize = 0;
        while i < self.remote.len()
            invariant
                i <= self.remote@.len(),
                remote@.len() == i,
                forall|j: int| 0 <= j < i ==> (#[trigger] remote@[j]).same_as(self.remote@[j]),
            decreases self.remote@.len() - i,
        {
            remote.push(self.remote[i].duplicate());
            i = i + 1;
        }
        Config {
            retention_period: self.retention_period,
            poll_interval: self.poll_interval,
            max_event_length: self.max_event_length,
            purge_interval: self.purge_interval,
            file_structure_format: self.file_structure_format.clone(),
            detection_types: copy_texts(&self.detection_types),
            ignore_cameras: copy_texts(&self.ignore_cameras),
            cameras: copy_texts(&self.cameras),
            download_buffer_size: self.download_buffer_size,
            parallel_uploads: self.parallel_uploads,
            skip_missing: self.skip_missing,
            remote,
        }
    }
}

/// A configured backup destination, ready to store clips.
pub enum BackupTarget {
    Local(local::LocalBackup),
    Rclone(rclone::RcloneBackup),
}

/// One backup destination per configured remote, in configuration order,
/// each with a copy of the shared settings.
pub fn backup_targets(config: &Config) -> (r: Vec<BackupTarget>)
    ensures
        r@.len() == config.remote@.len(),
        forall|i: int| #![trigger r@[i]] 0 <= i < r@.len() ==> match (r@[i], config.remote@[i]) {
            (BackupTarget::Local(t), RemoteBackupConfig::Local(c)) => t.remote_config.same_as(c)
                && same_settings(t.backup_config, *config),
            (BackupTarget::Rclone(t), RemoteBackupConfig::Rclone(c)) => t.remote_config.same_as(c)
                && same_settings(t.backup_config, *config),
            _ => false,
        },
{
    let mut targets: Vec<BackupTarget> = Vec::new();
    let mut i: usize = 0;
    while i < config.remote.len()
        invariant
            i <= config.remote@.len(),
            targets@.len() == i,
            forall|j: int| #![trigger targets@[j]] 0 <= j < i ==> match (targets@[j], config.remote@[j]) {
                (BackupTarget::Local(t), RemoteBackupConfig::Local(c)) => t.remote_config.same_as(c)
                    && same_settings(t.backup_config, *config),
                (BackupTarget::Rclone(t), RemoteBackupConfig::Rclone(c)) => t.remote_config.same_as(c)
                    && same_settings(t.backup_config, *config),
                _ => false,
            },
        decreases config.remote@.len() - i,
    {
        let target = match &config.remote[i] {
            RemoteBackupConfig::Local(c) => BackupTarget::Local(local::LocalBackup::new(config.duplicate(), c.duplicate())),
            RemoteBackupConfig::Rclone(c) => BackupTarget::Rclone(rclone::RcloneBackup::new(config.duplicate(), c.duplicate())),
        };
        targets.push(target);
        i = i + 1;
    }
    targets
}

} // verus!

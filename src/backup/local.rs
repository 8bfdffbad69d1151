//! A backup destination on the local file system.
use vstd::prelude::*;
use crate::backup;

verus! {

pub struct Config {
    /// Directory under which clips are stored.
    pub path_buf: String,
}

impl Config {
    pub open spec fn same_as(self, o: Config) -> bool {
        self.path_buf@ == o.path_buf@
    }

    pub fn duplicate(&self) -> (r: Config)
        ensures
            r.same_as(*self),
    {
        Config { path_buf: self.path_buf.clone() }
    }
}

pub struct LocalBackup {
    pub backup_config: backup::Config,
    pub remote_config: Config,
}

impl LocalBackup {
    pub fn new(backup_config: backup::Config, remote_config: Config) -> (r: LocalBackup)
        ensures
            r.backup_config == backup_config,
            r.remote_config == remote_config,
    {
        LocalBackup { backup_config, remote_config }
    }
}

/// Files deleted and bytes freed by one pruning pass.
pub struct PruneStats {
    pub files_deleted: u64,
    pub bytes_freed: u64,
}

impl PruneStats {
    pub fn new() -> (r: PruneStats)
        ensures
            r.files_deleted == 0 && r.bytes_freed == 0,
    {
        PruneStats { files_deleted: 0, bytes_freed: 0 }
    }

    /// Counts one deleted file of `size` bytes; the counters stop at their
    /// largest value.
    pub fn record(&mut self, size: u64)
        ensures
            final(self).files_deleted == if old(self).files_deleted < u64::MAX {
                old(self).files_deleted + 1
            } else {
                u64::MAX as int
            },
            final(self).bytes_freed == if old(self).bytes_freed + size <= u64::MAX {
                old(self).bytes_freed + size
            } else {
                u64::MAX as int
            },
    {
        self.files_deleted = self.files_deleted.saturating_add(1);
        self.bytes_freed = self.bytes_freed.saturating_add(size);
    }
}

/// A file last modified at `modified_millis` is older than the retention
/// period when it was modified before `now_millis - retention_secs`.
pub open spec fn expired_spec(modified_millis: i64, now_millis: i64, retention_secs: u64) -> bool {
    modified_millis < now_millis - retention_secs * 1000
}

impl LocalBackup {
    /// Whether pruning deletes a file last modified at `modified_millis`.
    pub fn is_expired(&self, modified_millis: i64, now_millis: i64) -> (r: bool)
        ensures
            r == expired_spec(modified_millis, now_millis, self.backup_config.retention_period),
    {
        (modified_millis as i128) < (now_millis as i128) - (self.backup_config.retention_period as i128) * 1000
    }
}

} // verus!

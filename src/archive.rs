//! Archival destinations: deduplicated snapshots of the backup tree.
use vstd::prelude::*;

pub mod borg;

verus! {

/// Settings shared by every archival destination. Durations are seconds.
pub struct Config {
    pub archive_interval: u64,
    pub retention_period: u64,
    pub purge_interval: u64,
    pub remote: Vec<RemoteArchiveConfig>,
}

pub enum RemoteArchiveConfig {
    Borg(borg::Config),
}

/// Same intervals and the same destinations, in the same order.
pub open spec fn same_settings(a: Config, b: Config) -> bool {
    &&& a.archive_interval == b.archive_interval
    &&& a.retention_period == b.retention_period
    &&& a.purge_interval == b.purge_interval
    &&& a.remote@.len() == b.remote@.len()
    &&& forall|i: int| 0 <= i < a.remote@.len() ==> match (#[trigger] a.remote@[i], b.remote@[i]) {
        (RemoteArchiveConfig::Borg(x), RemoteArchiveConfig::Borg(y)) => x.same_as(y),
    }
}

impl Config {
    /// A copy with the same intervals and the same destinations.
    pub fn duplicate(&self) -> (r: Config)
        ensures
            same_settings(r, *self),
    {
        let mut remote: Vec<RemoteArchiveConfig> = Vec::new();
        let mut i: usize = 0;
        while i < self.remote.len()
            invariant
                i <= self.remote@.len(),
                remote@.len() == i,
                forall|j: int| 0 <= j < i ==> match (#[trigger] remote@[j], self.remote@[j]) {
                    (RemoteArchiveConfig::Borg(a), RemoteArchiveConfig::Borg(b)) => a.same_as(b),
                },
            decreases self.remote@.len() - i,
        {
            let c = match &self.remote[i] {
                RemoteArchiveConfig::Borg(b) => RemoteArchiveConfig::Borg(b.duplicate()),
            };
            remote.push(c);
            i = i + 1;
        }
        Config {
            archive_interval: self.archive_interval,
            retention_period: self.retention_period,
            purge_interval: self.purge_interval,
            remote,
        }
    }
}

/// One borg destination per configured remote, in configuration order.
pub fn archive_targets(config: &crate::config::Config) -> (r: Vec<borg::BorgBackup>)
    ensures
        r@.len() == config.archive.remote@.len(),
        forall|i: int| #![trigger r@[i]] 0 <= i < r@.len() ==> match config.archive.remote@[i] {
            RemoteArchiveConfig::Borg(c) => r@[i].remote_config.same_as(c)
                && same_settings(r@[i].backup_config, config.archive),
        },
{
    let mut targets: Vec<borg::BorgBackup> = Vec::new();
    let mut i: usize = 0;
    while i < config.archive.remote.len()
        invariant
            i <= config.archive.remote@.len(),
            targets@.len() == i,
            forall|j: int| #![trigger targets@[j]] 0 <= j < i ==> match config.archive.remote@[j] {
                RemoteArchiveConfig::Borg(c) => targets@[j].remote_config.same_as(c)
                    && same_settings(targets@[j].backup_config, config.archive),
            },
        decreases config.archive.remote@.len() - i,
    {
        let t = match &config.archive.remote[i] {
            RemoteArchiveConfig::Borg(c) => borg::BorgBackup::new(config.archive.duplicate(), c.duplicate()),
        };
        targets.push(t);
        i = i + 1;
    }
    targets
}

} // verus!

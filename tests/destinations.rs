use unifi_protect_backup::archive::borg::{init_succeeded, BorgBackup, Config as BorgConfig};
use unifi_protect_backup::archive::{archive_targets, Config as ArchiveConfig, RemoteArchiveConfig};
use unifi_protect_backup::backup::local::{Config as LocalConfig, LocalBackup, PruneStats};
use unifi_protect_backup::backup::rclone::{
    count_dry_run_candidates, prune_step, Config as RcloneConfig, PruneAction, PrunePhase, RcloneBackup, UploadMode,
};
use unifi_protect_backup::backup::{backup_targets, BackupTarget, Config as BackupConfig, RemoteBackupConfig};
use unifi_protect_backup::chunks::chunk_bounds;
use unifi_protect_backup::config::{default_config_path, value_source, Config, DatabaseConfig, UnifiConfig, ValueSource};
use unifi_protect_backup::dispatch::{camera_selected, should_dispatch, BATCH_SIZE};
use unifi_protect_backup::events::{EventType, ProtectEvent};

fn backup_config(retention: u64, remote: Vec<RemoteBackupConfig>) -> BackupConfig {
    BackupConfig {
        retention_period: retention,
        poll_interval: 30,
        max_event_length: 600,
        purge_interval: 3600,
        file_structure_format: "{camera_name}/{date}/{time}_{detection_type}.mp4".to_string(),
        detection_types: vec![],
        ignore_cameras: vec!["garage".to_string()],
        cameras: vec![],
        download_buffer_size: 1024,
        parallel_uploads: 2,
        skip_missing: false,
        remote,
    }
}

fn rclone(retention: u64, base: &str, stream: bool, chunked: bool) -> RcloneBackup {
    RcloneBackup::new(
        backup_config(retention, vec![]),
        RcloneConfig { remote: "b2".to_string(), base_path: base.to_string(), stream_upload: stream, chunk_stream_uploads: chunked },
    )
}

fn borg(append_only: bool, retention: u64) -> BorgBackup {
    BorgBackup::new(
        ArchiveConfig { archive_interval: 86400, retention_period: retention, purge_interval: 86400, remote: vec![] },
        BorgConfig {
            ssh_key_path: Some("/keys/id".to_string()),
            borg_repo: "ssh://host/repo".to_string(),
            borg_passphrase: Some("SECRET-REDACTED".to_string()),
            append_only,
        },
    )
}

#[test]
fn rclone_paths_trim_slashes() {
    let r = rclone(90, "//backups/protect/", false, false);
    assert_eq!(r.remote_root(), "b2:/backups/protect");
    assert_eq!(r.destination("Front/a.mp4"), "b2:/backups/protect/Front/a.mp4");
    assert_eq!(rclone(90, "/", false, false).remote_root(), "b2:/");
}

#[test]
fn rclone_retention_below_an_hour() {
    let r = rclone(90, "x", false, false);
    assert_eq!(r.min_age(), "1m");
    assert_eq!(r.prune_dry_run_args(), vec!["delete", "b2:/x", "--min-age", "1m", "--dry-run", "--verbose"]);
    assert_eq!(
        r.prune_args(),
        vec!["delete", "b2:/x", "--min-age", "1m", "--verbose", "--b2-hard-delete", "--stats", "1s"]
    );
    assert_eq!(r.cleanup_args(), vec!["cleanup", "b2:/x"]);
}

#[test]
fn rclone_upload_modes_and_args() {
    assert_eq!(rclone(1, "x", false, true).upload_mode(), UploadMode::TempFile);
    assert_eq!(rclone(1, "x", true, false).upload_mode(), UploadMode::SingleStream);
    assert_eq!(rclone(1, "x", true, true).upload_mode(), UploadMode::ChunkedStream);
    let r = rclone(1, "x", true, false);
    assert_eq!(r.stream_args("b2:/x/a.mp4", 1234), vec!["rcat", "b2:/x/a.mp4", "--size", "1234", "--progress"]);
    assert_eq!(r.copy_args("/tmp/f", "b2:/x/a.mp4"), vec!["copyto", "/tmp/f", "b2:/x/a.mp4", "--progress"]);
}

#[test]
fn rclone_prune_order() {
    assert_eq!(prune_step(PrunePhase::DryRun, true, 0), PruneAction::Done);
    assert_eq!(prune_step(PrunePhase::DryRun, true, 3), PruneAction::Run(PrunePhase::Delete));
    assert_eq!(prune_step(PrunePhase::DryRun, false, 3), PruneAction::Failed);
    assert_eq!(prune_step(PrunePhase::Delete, true, 0), PruneAction::Run(PrunePhase::Cleanup));
    assert_eq!(prune_step(PrunePhase::Delete, false, 0), PruneAction::Failed);
    assert_eq!(prune_step(PrunePhase::Cleanup, false, 0), PruneAction::DoneWithWarning);
    assert_eq!(prune_step(PrunePhase::Cleanup, true, 0), PruneAction::Done);
    let r = rclone(90, "x", false, false);
    assert_eq!(r.prune_phase_args(PrunePhase::Cleanup), vec!["cleanup", "b2:/x"]);
    assert_eq!(r.prune_phase_args(PrunePhase::DryRun), r.prune_dry_run_args());
}

#[test]
fn dry_run_candidates_are_counted() {
    let lines = vec![
        "2024/01/01 NOTICE: a.mp4: Skipped delete as --dry-run is set (size 1)".to_string(),
        "2024/01/01 INFO: nothing".to_string(),
        "NOTICE: b.mp4: Skipped delete as --dry-run is set".to_string(),
    ];
    assert_eq!(count_dry_run_candidates(&lines), 2);
    assert_eq!(count_dry_run_candidates(&vec![]), 0);
}

#[test]
fn borg_append_only_is_never_pruned() {
    assert!(borg(true, 30 * 86400).prune_args().is_none());
    let b = borg(false, 30 * 86400);
    assert_eq!(
        b.prune_args().expect("prunable"),
        vec!["prune", "--verbose", "--list", "--show-rc", "--keep-daily", "30", "ssh://host/repo"]
    );
}

#[test]
fn borg_append_only_still_archives() {
    let b = borg(true, 86400);
    let name = b.archive_name_at(1_700_000_000_000);
    assert_eq!(name, "ssh://host/repo::2023-11-14_22-13-20");
    let args = b.create_args(&name, "/data/backups");
    assert_eq!(args[0], "create");
    assert_eq!(args[7], name);
    assert_eq!(args[8], "/data/backups");
    assert_eq!(args.len(), 9);
}

#[test]
fn borg_environment() {
    let env = borg(false, 1).environment();
    assert_eq!(
        env,
        vec![
            ("BORG_PASSPHRASE".to_string(), "SECRET-REDACTED".to_string()),
            ("BORG_RSH".to_string(), "ssh -i /keys/id".to_string()),
        ]
    );
}

#[test]
fn borg_init_args() {
    assert_eq!(borg(false, 1).init_args(), vec!["init", "--encryption=repokey-blake2", "ssh://host/repo"]);
}

#[test]
fn borg_init_tolerates_existing_repository() {
    assert!(init_succeeded(true, ""));
    assert!(init_succeeded(false, "A repository already exists at ssh://host/repo."));
    assert!(!init_succeeded(false, "Connection closed by remote host"));
}

#[test]
fn targets_follow_configuration() {
    let cfg = Config {
        unifi: UnifiConfig { address: "10.0.0.1".to_string(), port: 443, username: "u".to_string(), password: "p".to_string(), verify_ssl: false },
        database: DatabaseConfig { path: "events.db".to_string() },
        backup: backup_config(
            86400,
            vec![
                RemoteBackupConfig::Local(LocalConfig { path_buf: "/data".to_string() }),
                RemoteBackupConfig::Rclone(RcloneConfig { remote: "b2".to_string(), base_path: "p".to_string(), stream_upload: false, chunk_stream_uploads: false }),
            ],
        ),
        archive: ArchiveConfig {
            archive_interval: 86400,
            retention_period: 7 * 86400,
            purge_interval: 86400,
            remote: vec![RemoteArchiveConfig::Borg(BorgConfig { ssh_key_path: None, borg_repo: "r".to_string(), borg_passphrase: None, append_only: true })],
        },
        notifications: None,
        logging: None,
        tracing: None,
        metrics: None,
    };
    let targets = backup_targets(&cfg.backup);
    assert_eq!(targets.len(), 2);
    assert!(matches!(&targets[0], BackupTarget::Local(t) if t.remote_config.path_buf == "/data"));
    assert!(matches!(&targets[1], BackupTarget::Rclone(t) if t.remote_config.remote == "b2" && t.backup_config.retention_period == 86400));
    assert_eq!(targets_remote_len(&targets[0]), 2);
    let archives = archive_targets(&cfg);
    assert_eq!(archives.len(), 1);
    assert_eq!(archives[0].backup_config.remote.len(), 1);
    assert!(archives[0].remote_config.append_only);
    assert_eq!(archives[0].backup_config.retention_period, 7 * 86400);
}

#[test]
fn local_prune_decisions() {
    let local = LocalBackup::new(backup_config(60, vec![]), LocalConfig { path_buf: "/data".to_string() });
    assert!(local.is_expired(0, 60_001));
    assert!(!local.is_expired(1, 60_001));
    let mut stats = PruneStats::new();
    stats.record(10);
    stats.record(u64::MAX);
    assert_eq!(stats.files_deleted, 2);
    assert_eq!(stats.bytes_freed, u64::MAX);
}

#[test]
fn chunks_and_batches() {
    assert_eq!(chunk_bounds(25, BATCH_SIZE), vec![(0, 10), (10, 20), (20, 25)]);
    assert_eq!(chunk_bounds(20, 10), vec![(0, 10), (10, 20)]);
    assert!(chunk_bounds(0, 10).is_empty());
}

#[test]
fn camera_filters() {
    let none: Vec<String> = vec![];
    let ignored = vec!["garage".to_string()];
    let only = vec!["front".to_string()];
    assert!(camera_selected(&"front".to_string(), &none, &ignored));
    assert!(!camera_selected(&"garage".to_string(), &none, &ignored));
    assert!(camera_selected(&"front".to_string(), &only, &none));
    assert!(!camera_selected(&"back".to_string(), &only, &none));
    let e = ProtectEvent {
        id: "e".to_string(),
        camera_id: "garage".to_string(),
        camera_name: None,
        start_time: Some(0),
        end_time: Some(1),
        event_type: EventType::Motion,
        smart_detect_types: vec![],
        thumbnail_id: None,
        heatmap_id: None,
        is_finished: true,
    };
    assert!(!should_dispatch(&e, &backup_config(1, vec![])));
}

#[test]
fn configuration_values() {
    assert!(matches!(value_source("file:/run/secret"), ValueSource::File(p) if p == "/run/secret"));
    assert!(matches!(value_source("env:PROTECT_PASSWORD"), ValueSource::Env(n) if n == "PROTECT_PASSWORD"));
    assert!(matches!(value_source("plain"), ValueSource::Literal(t) if t == "plain"));
    assert!(matches!(value_source("file"), ValueSource::Literal(t) if t == "file"));
    assert_eq!(default_config_path(Some("/home/u")), "/home/u/.unifi-protect-backup/config.toml");
    assert_eq!(default_config_path(None), "config.toml");
}

fn targets_remote_len(t: &BackupTarget) -> usize {
    match t {
        BackupTarget::Local(l) => l.backup_config.remote.len(),
        BackupTarget::Rclone(r) => r.backup_config.remote.len(),
    }
}

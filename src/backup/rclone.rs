//! A backup destination reached through the `rclone` transfer agent.
use vstd::prelude::*;
use vstd::string::StringExecFns;
use crate::backup;
use crate::events::texts;
use crate::retention::{age_spec, age_string};
use crate::text::{decimal, find_from, first_at_or_after, push_decimal, push_text, trim_end_slashes, trim_start_slashes, trim_slashes};

verus! {

pub struct Config {
    pub remote: String,
    pub base_path: String,
    pub stream_upload: bool,
    pub chunk_stream_uploads: bool,
}

impl Config {
    pub open spec fn same_as(self, o: Config) -> bool {
        &&& self.remote@ == o.remote@
        &&& self.base_path@ == o.base_path@
        &&& self.stream_upload == o.stream_upload
        &&& self.chunk_stream_uploads == o.chunk_stream_uploads
    }

    pub fn duplicate(&self) -> (r: Config)
        ensures
            r.same_as(*self),
    {
        Config {
            remote: self.remote.clone(),
            base_path: self.base_path.clone(),
            stream_upload: self.stream_upload,
            chunk_stream_uploads: self.chunk_stream_uploads,
        }
    }
}

pub struct RcloneBackup {
    pub backup_config: backup::Config,
    pub remote_config: Config,
}

impl RcloneBackup {
    pub fn new(backup_config: backup::Config, remote_config: Config) -> (r: RcloneBackup)
        ensures
            r.backup_config == backup_config,
            r.remote_config == remote_config,
    {
        RcloneBackup { backup_config, remote_config }
    }
}

/// Bytes written to rclone's standard input at a time in chunked mode.
pub const CHUNK_SIZE: usize = 104857600;

/// How a clip is handed to rclone.
#[derive(Debug, Clone, Copy, PartialEq, Eq, Structural)]
pub enum UploadMode {
    /// Written to a temporary file, then `rclone copyto`.
    TempFile,
    /// Written whole to the standard input of `rclone rcat`.
    SingleStream,
    /// Written to the standard input of `rclone rcat` in chunks.
    ChunkedStream,
}

/// `root` followed by `/` and `filename`.
pub open spec fn destination_spec(root: Seq<char>, filename: Seq<char>) -> Seq<char> {
    root + "/"@ + filename
}

/// `remote:/` and the base path without its outer slashes.
pub open spec fn root_spec(c: Config) -> Seq<char> {
    c.remote@ + ":/"@ + trim_end_slashes(trim_start_slashes(c.base_path@))
}

fn lit(s: &str) -> (r: String)
    ensures
        r@ == s@,
{
    String::from_str(s)
}

impl RcloneBackup {
    pub fn upload_mode(&self) -> (r: UploadMode)
        ensures
            r == if !self.remote_config.stream_upload {
                UploadMode::TempFile
            } else if self.remote_config.chunk_stream_uploads {
                UploadMode::ChunkedStream
            } else {
                UploadMode::SingleStream
            },
    {
        if !self.remote_config.stream_upload {
            UploadMode::TempFile
        } else if self.remote_config.chunk_stream_uploads {
            UploadMode::ChunkedStream
        } else {
            UploadMode::SingleStream
        }
    }

    /// The remote directory that holds this destination's clips.
    pub fn remote_root(&self) -> (r: String)
        ensures
            r@ == root_spec(self.remote_config),
    {
        let mut out = self.remote_config.remote.clone();
        push_text(&mut out, ":/");
        let base = trim_slashes(self.remote_config.base_path.as_str());
        push_text(&mut out, base.as_str());
        out
    }

    /// Where the clip named `filename` is stored.
    pub fn destination(&self, filename: &str) -> (r: String)
        ensures
            r@ == destination_spec(root_spec(self.remote_config), filename@),
    {
        let mut out = self.remote_root();
        push_text(&mut out, "/");
        push_text(&mut out, filename);
        out
    }

    /// The `--min-age` value for this destination's retention period.
    pub fn min_age(&self) -> (r: String)
        ensures
            r@ == age_spec(self.backup_config.retention_period as nat),
    {
        age_string(self.backup_config.retention_period)
    }

    /// Arguments of the dry run that lists what pruning would delete.
    pub fn prune_dry_run_args(&self) -> (r: Vec<String>)
        ensures
            texts(r@) == seq![
                "delete"@,
                root_spec(self.remote_config),
                "--min-age"@,
                age_spec(self.backup_config.retention_period as nat),
                "--dry-run"@,
                "--verbose"@,
            ],
    {
        let mut v: Vec<String> = Vec::new();
        v.push(lit("delete"));
        v.push(self.remote_root());
        v.push(lit("--min-age"));
        v.push(self.min_age());
        v.push(lit("--dry-run"));
        v.push(lit("--verbose"));
        assert(texts(v@) =~= seq![
            "delete"@,
            root_spec(self.remote_config),
            "--min-age"@,
            age_spec(self.backup_config.retention_period as nat),
            "--dry-run"@,
            "--verbose"@,
        ]);
        v
    }

    /// Arguments of the deletion of clips older than the retention period.
    pub fn prune_args(&self) -> (r: Vec<String>)
        ensures
            texts(r@) == seq![
                "delete"@,
                root_spec(self.remote_config),
                "--min-age"@,
                age_spec(self.backup_config.retention_period as nat),
                "--verbose"@,
                "--b2-hard-delete"@,
                "--stats"@,
                "1s"@,
            ],
    {
        let mut v: Vec<String> = Vec::new();
        v.push(lit("delete"));
        v.push(self.remote_root());
        v.push(lit("--min-age"));
        v.push(self.min_age());
        v.push(lit("--verbose"));
        v.push(lit("--b2-hard-delete"));
        v.push(lit("--stats"));
        v.push(lit("1s"));
        assert(texts(v@) =~= seq![
            "delete"@,
            root_spec(self.remote_config),
            "--min-age"@,
            age_spec(self.backup_config.retention_period as nat),
            "--verbose"@,
            "--b2-hard-delete"@,
            "--stats"@,
            "1s"@,
        ]);
        v
    }

    /// Arguments of the cleanup of hidden file versions.
    pub fn cleanup_args(&self) -> (r: Vec<String>)
        ensures
            texts(r@) == seq!["cleanup"@, root_spec(self.remote_config)],
    {
        let mut v: Vec<String> = Vec::new();
        v.push(lit("cleanup"));
        v.push(self.remote_root());
        assert(texts(v@) =~= seq!["cleanup"@, root_spec(self.remote_config)]);
        v
    }

    /// Arguments of the upload of the file `local_path` to `dest`.
    pub fn copy_args(&self, local_path: &str, dest: &str) -> (r: Vec<String>)
        ensures
            texts(r@) == seq!["copyto"@, local_path@, dest@, "--progress"@],
    {
        let mut v: Vec<String> = Vec::new();
        v.push(lit("copyto"));
        v.push(lit(local_path));
        v.push(lit(dest));
        v.push(lit("--progress"));
        assert(texts(v@) =~= seq!["copyto"@, local_path@, dest@, "--progress"@]);
        v
    }

    /// Arguments of a streamed upload of `size` bytes to `dest`.
    pub fn stream_args(&self, dest: &str, size: u64) -> (r: Vec<String>)
        ensures
            texts(r@) == seq!["rcat"@, dest@, "--size"@, decimal(size as nat), "--progress"@],
    {
        let mut v: Vec<String> = Vec::new();
        v.push(lit("rcat"));
        v.push(lit(dest));
        v.push(lit("--size"));
        let mut n = String::new();
        push_decimal(&mut n, size);
        assert(n@ =~= decimal(size as nat));
        v.push(n);
        v.push(lit("--progress"));
        assert(texts(v@) =~= seq!["rcat"@, dest@, "--size"@, decimal(size as nat), "--progress"@]);
        v
    }
}

/// What rclone prints for each file that a dry run would delete.
pub const DRY_RUN_MARKER: &'static str = "Skipped delete as --dry-run is set";

/// Number of `lines` in which `marker` occurs.
pub open spec fn marked_count(lines: Seq<Seq<char>>, marker: Seq<char>) -> nat
    decreases lines.len(),
{
    if lines.len() == 0 {
        0
    } else {
        marked_count(lines.drop_last(), marker) + if first_at_or_after(lines.last(), marker, 0) is Some {
            1nat
        } else {
            0nat
        }
    }
}

/// Number of lines of a dry run's output that name a file to delete.
pub fn count_dry_run_candidates(lines: &Vec<String>) -> (r: usize)
    ensures
        r == marked_count(texts(lines@), DRY_RUN_MARKER@),
{
    let mut count: usize = 0;
    let mut i: usize = 0;
    while i < lines.len()
        invariant
            i <= lines@.len(),
            count == marked_count(texts(lines@.subrange(0, i as int)), DRY_RUN_MARKER@),
            count <= i,
        decreases lines@.len() - i,
    {
        let line = lines[i].as_str();
        assert(texts(lines@.subrange(0, i + 1)).drop_last() =~= texts(lines@.subrange(0, i as int)));
        assert(texts(lines@.subrange(0, i + 1)).last() == lines@[i as int]@);
        if find_from(line, DRY_RUN_MARKER, 0).is_some() {
            count = count + 1;
        }
        i = i + 1;
    }
    assert(lines@.subrange(0, i as int) =~= lines@);
    count
}

/// The three rclone runs of a prune, in order.
#[derive(Debug, Clone, Copy, PartialEq, Eq, Structural)]
pub enum PrunePhase {
    /// `rclone delete --dry-run`, counting what would go.
    DryRun,
    /// `rclone delete`, removing it.
    Delete,
    /// `rclone cleanup`, removing hidden versions.
    Cleanup,
}

/// What follows a finished run.
#[derive(Debug, Clone, Copy, PartialEq, Eq, Structural)]
pub enum PruneAction {
    /// Start this run next.
    Run(PrunePhase),
    /// The prune is over and went well.
    Done,
    /// The prune is over; only the cleanup failed, which is not an error.
    DoneWithWarning,
    /// The prune failed.
    Failed,
}

/// The next action after run `phase` ended, `succeeded` or not;
/// `candidates` is what a dry run counted. Nothing is deleted when the dry
/// run found nothing; a failed cleanup is only a warning.
pub fn prune_step(phase: PrunePhase, succeeded: bool, candidates: usize) -> (r: PruneAction)
    ensures
        r == match phase {
            PrunePhase::DryRun => if !succeeded {
                PruneAction::Failed
            } else if candidates == 0 {
                PruneAction::Done
            } else {
                PruneAction::Run(PrunePhase::Delete)
            },
            PrunePhase::Delete => if succeeded {
                PruneAction::Run(PrunePhase::Cleanup)
            } else {
                PruneAction::Failed
            },
            PrunePhase::Cleanup => if succeeded {
                PruneAction::Done
            } else {
                PruneAction::DoneWithWarning
            },
        },
{
    match phase {
        PrunePhase::DryRun => if !succeeded {
            PruneAction::Failed
        } else if candidates == 0 {
            PruneAction::Done
        } else {
            PruneAction::Run(PrunePhase::Delete)
        },
        PrunePhase::Delete => if succeeded {
            PruneAction::Run(PrunePhase::Cleanup)
        } else {
            PruneAction::Failed
        },
        PrunePhase::Cleanup => if succeeded {
            PruneAction::Done
        } else {
            PruneAction::DoneWithWarning
        },
    }
}

impl RcloneBackup {
    /// Arguments of run `phase` of a prune.
    pub fn prune_phase_args(&self, phase: PrunePhase) -> (r: Vec<String>)
        ensures
            texts(r@) == match phase {
                PrunePhase::DryRun => seq![
                    "delete"@,
                    root_spec(self.remote_config),
                    "--min-age"@,
                    age_spec(self.backup_config.retention_period as nat),
                    "--dry-run"@,
                    "--verbose"@,
                ],
                PrunePhase::Delete => seq![
                    "delete"@,
                    root_spec(self.remote_config),
                    "--min-age"@,
                    age_spec(self.backup_config.retention_period as nat),
                    "--verbose"@,
                    "--b2-hard-delete"@,
                    "--stats"@,
                    "1s"@,
                ],
                PrunePhase::Cleanup => seq!["cleanup"@, root_spec(self.remote_config)],
            },
    {
        match phase {
            PrunePhase::DryRun => self.prune_dry_run_args(),
            PrunePhase::Delete => self.prune_args(),
            PrunePhase::Cleanup => self.cleanup_args(),
        }
    }
}

} // verus!

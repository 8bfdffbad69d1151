//! An archival destination kept by `borg`.
use vstd::prelude::*;
use vstd::string::StringExecFns;
use crate::archive;
use crate::events::texts;
use crate::retention::{keep_daily, SECONDS_PER_DAY};
use crate::template::{reference, reference_millis, utc_format, utc_format_of};
use crate::text::{decimal, first_at_or_after, find_from, push_decimal, push_text};

verus! {

pub struct Config {
    pub ssh_key_path: Option<String>,
    pub borg_repo: String,
    pub borg_passphrase: Option<String>,
    pub append_only: bool,
}

pub open spec fn same_text(a: Option<String>, b: Option<String>) -> bool {
    match (a, b) {
        (Some(x), Some(y)) => x@ == y@,
        (None, None) => true,
        _ => false,
    }
}

fn copy_text(a: &Option<String>) -> (r: Option<String>)
    ensures
        same_text(r, *a),
{
    match a {
        Some(s) => Some(s.clone()),
        None => None,
    }
}

impl Config {
    pub open spec fn same_as(self, o: Config) -> bool {
        &&& same_text(self.ssh_key_path, o.ssh_key_path)
        &&& self.borg_repo@ == o.borg_repo@
        &&& same_text(self.borg_passphrase, o.borg_passphrase)
        &&& self.append_only == o.append_only
    }

    pub fn duplicate(&self) -> (r: Config)
        ensures
            r.same_as(*self),
    {
        Config {
            ssh_key_path: copy_text(&self.ssh_key_path),
            borg_repo: self.borg_repo.clone(),
            borg_passphrase: copy_text(&self.borg_passphrase),
            append_only: self.append_only,
        }
    }
}

pub struct BorgBackup {
    pub backup_config: archive::Config,
    pub remote_config: Config,
}

impl BorgBackup {
    pub fn new(backup_config: archive::Config, remote_config: Config) -> (r: BorgBackup)
        ensures
            r.backup_config == backup_config,
            r.remote_config == remote_config,
    {
        BorgBackup { backup_config, remote_config }
    }
}

/// The UTC date and time (`YYYY-MM-DD_HH-MM-SS`) of the instant `millis`.
pub open spec fn utc_stamp_of(millis: int) -> Seq<char> {
    utc_format_of(millis, "%Y-%m-%d_%H-%M-%S"@)
}

fn lit(s: &str) -> (r: String)
    ensures
        r@ == s@,
{
    String::from_str(s)
}

/// Names and values of the environment variables handed to borg.
pub open spec fn env_spec(c: Config) -> Seq<(Seq<char>, Seq<char>)> {
    let pass = match c.borg_passphrase {
        Some(p) => seq![("BORG_PASSPHRASE"@, p@)],
        None => Seq::empty(),
    };
    let rsh = match c.ssh_key_path {
        Some(k) => seq![("BORG_RSH"@, "ssh -i "@ + k@)],
        None => Seq::empty(),
    };
    pass + rsh
}

pub open spec fn pairs(v: Seq<(String, String)>) -> Seq<(Seq<char>, Seq<char>)> {
    v.map_values(|p: (String, String)| (p.0@, p.1@))
}

/// Whether `borg init` went well: it succeeded, or its error output says
/// that the repository already exists.
pub open spec fn init_ok_spec(exit_ok: bool, stderr: Seq<char>) -> bool {
    exit_ok || first_at_or_after(stderr, "already exists"@, 0) is Some
}

/// Whether `borg init` went well.
pub fn init_succeeded(exit_ok: bool, stderr: &str) -> (r: bool)
    ensures
        r == init_ok_spec(exit_ok, stderr@),
{
    if exit_ok {
        return true;
    }
    find_from(stderr, "already exists", 0).is_some()
}

impl BorgBackup {
    /// The environment that borg runs with.
    pub fn environment(&self) -> (r: Vec<(String, String)>)
        ensures
            pairs(r@) == env_spec(self.remote_config),
    {
        let mut v: Vec<(String, String)> = Vec::new();
        if let Some(p) = &self.remote_config.borg_passphrase {
            v.push((lit("BORG_PASSPHRASE"), p.clone()));
        }
        if let Some(k) = &self.remote_config.ssh_key_path {
            let mut cmd = lit("ssh -i ");
            push_text(&mut cmd, k.as_str());
            v.push((lit("BORG_RSH"), cmd));
        }
        assert(pairs(v@) =~= env_spec(self.remote_config));
        v
    }

    /// The archive `repo::stamp`.
    pub fn archive_name(&self, stamp: &str) -> (r: String)
        ensures
            r@ == self.remote_config.borg_repo@ + "::"@ + stamp@,
    {
        let mut out = self.remote_config.borg_repo.clone();
        push_text(&mut out, "::");
        push_text(&mut out, stamp);
        out
    }

    /// The name of an archive made at `now_millis`.
    pub fn archive_name_at(&self, now_millis: i64) -> (r: String)
        ensures
            r@ == self.remote_config.borg_repo@ + "::"@ + utc_stamp_of(reference_millis(None, now_millis)),
    {
        let at = reference(None, now_millis);
        let stamp = match utc_format(at, "%Y-%m-%d_%H-%M-%S") {
            Some(s) => s,
            None => String::new(),
        };
        self.archive_name(stamp.as_str())
    }

    /// Arguments of the creation of archive `archive_name` from `data_root`.
    pub fn create_args(&self, archive_name: &str, data_root: &str) -> (r: Vec<String>)
        ensures
            texts(r@) == seq![
                "create"@,
                "--verbose"@,
                "--filter=AME"@,
                "--list"@,
                "--stats"@,
                "--show-rc"@,
                "--compression=lz4"@,
                archive_name@,
                data_root@,
            ],
    {
        let mut v: Vec<String> = Vec::new();
        v.push(lit("create"));
        v.push(lit("--verbose"));
        v.push(lit("--filter=AME"));
        v.push(lit("--list"));
        v.push(lit("--stats"));
        v.push(lit("--show-rc"));
        v.push(lit("--compression=lz4"));
        v.push(lit(archive_name));
        v.push(lit(data_root));
        assert(texts(v@) =~= seq![
            "create"@,
            "--verbose"@,
            "--filter=AME"@,
            "--list"@,
            "--stats"@,
            "--show-rc"@,
            "--compression=lz4"@,
            archive_name@,
            data_root@,
        ]);
        v
    }

    /// Arguments of the creation of the repository.
    pub fn init_args(&self) -> (r: Vec<String>)
        ensures
            texts(r@) == seq!["init"@, "--encryption=repokey-blake2"@, self.remote_config.borg_repo@],
    {
        let mut v: Vec<String> = Vec::new();
        v.push(lit("init"));
        v.push(lit("--encryption=repokey-blake2"));
        v.push(self.remote_config.borg_repo.clone());
        assert(texts(v@) =~= seq!["init"@, "--encryption=repokey-blake2"@, self.remote_config.borg_repo@]);
        v
    }

    /// Arguments of pruning, or nothing for an append-only repository,
    /// which the server compacts on its own and which is never pruned.
    pub fn prune_args(&self) -> (r: Option<Vec<String>>)
        ensures
            r is None <==> self.remote_config.append_only,
            r matches Some(v) ==> texts(v@) == seq![
                "prune"@,
                "--verbose"@,
                "--list"@,
                "--show-rc"@,
                "--keep-daily"@,
                decimal(self.backup_config.retention_period as nat / SECONDS_PER_DAY as nat),
                self.remote_config.borg_repo@,
            ],
    {
        if self.remote_config.append_only {
            return None;
        }
        let mut days = String::new();
        push_decimal(&mut days, keep_daily(self.backup_config.retention_period));
        assert(days@ =~= decimal(self.backup_config.retention_period as nat / SECONDS_PER_DAY as nat));
        let mut v: Vec<String> = Vec::new();
        v.push(lit("prune"));
        v.push(lit("--verbose"));
        v.push(lit("--list"));
        v.push(lit("--show-rc"));
        v.push(lit("--keep-daily"));
        v.push(days);
        v.push(self.remote_config.borg_repo.clone());
        assert(texts(v@) =~= seq![
            "prune"@,
            "--verbose"@,
            "--list"@,
            "--show-rc"@,
            "--keep-daily"@,
            decimal(self.backup_config.retention_period as nat / SECONDS_PER_DAY as nat),
            self.remote_config.borg_repo@,
        ]);
        Some(v)
    }
}

} // verus!

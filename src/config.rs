//! Settings of the whole service. Durations are whole seconds; paths are
//! text.
use vstd::prelude::*;
use vstd::string::{StrSliceExecFns, StringExecFns};
use crate::archive;
use crate::backup;
use crate::text::{occurs_at, push_text};

verus! {

/// How to reach the recorder.
pub struct UnifiConfig {
    pub address: String,
    pub port: u16,
    pub username: String,
    pub password: String,
    pub verify_ssl: bool,
}

pub struct DatabaseConfig {
    pub path: String,
}

pub struct NotificationConfig {
    pub smtp_host: Option<String>,
    pub smtp_port: Option<u16>,
    pub smtp_username: Option<String>,
    pub smtp_password: Option<String>,
    pub email_from: Option<String>,
    pub email_to: Option<String>,
}

pub struct LokiConfig {
    pub url: String,
    pub username: Option<String>,
    pub password: Option<String>,
    /// Label names and values, in the order given.
    pub labels: Option<Vec<(String, String)>>,
}

pub struct LoggingConfig {
    pub loki: Option<LokiConfig>,
}

pub struct TempoConfig {
    pub url: String,
    pub port: u16,
}

pub struct TracingConfig {
    pub tempo: Option<TempoConfig>,
}

pub struct MetricsConfig {
    pub address: String,
    pub port: u16,
}

pub struct Config {
    pub unifi: UnifiConfig,
    pub database: DatabaseConfig,
    pub backup: backup::Config,
    pub archive: archive::Config,
    pub notifications: Option<NotificationConfig>,
    pub logging: Option<LoggingConfig>,
    pub tracing: Option<TracingConfig>,
    pub metrics: Option<MetricsConfig>,
}

/// Where a configured text value comes from.
pub enum ValueSource {
    /// The text as written.
    Literal(String),
    /// The contents of the file at this path (`file:<path>`).
    File(String),
    /// The environment variable of this name (`env:<name>`).
    Env(String),
}

/// Reads the `file:` and `env:` prefixes of a configured value.
pub fn value_source(s: &str) -> (r: ValueSource)
    ensures
        occurs_at(s@, "file:"@, 0) ==> (r matches ValueSource::File(p) && p@ == s@.subrange(5, s@.len() as int)),
        !occurs_at(s@, "file:"@, 0) && occurs_at(s@, "env:"@, 0) ==> (r matches ValueSource::Env(n)
            && n@ == s@.subrange(4, s@.len() as int)),
        !occurs_at(s@, "file:"@, 0) && !occurs_at(s@, "env:"@, 0) ==> (r matches ValueSource::Literal(t)
            && t@ == s@),
{
    proof {
        reveal_strlit("file:");
        reveal_strlit("env:");
    }
    let n = s.unicode_len();
    if n >= 5 && String::from_str(s.substring_char(0, 5)) == String::from_str("file:") {
        return ValueSource::File(String::from_str(s.substring_char(5, n)));
    }
    if n >= 4 && String::from_str(s.substring_char(0, 4)) == String::from_str("env:") {
        return ValueSource::Env(String::from_str(s.substring_char(4, n)));
    }
    ValueSource::Literal(String::from_str(s))
}

/// Where the configuration is read from when none is given: under the
/// home directory when it is known, else `config.toml` in the working
/// directory.
pub fn default_config_path(home: Option<&str>) -> (r: String)
    ensures
        r@ == match home {
            Some(h) => h@ + "/.unifi-protect-backup/config.toml"@,
            None => "config.toml"@,
        },
{
    match home {
        Some(h) => {
            let mut out = String::from_str(h);
            push_text(&mut out, "/.unifi-protect-backup/config.toml");
            out
        },
        None => String::from_str("config.toml"),
    }
}

} // verus!

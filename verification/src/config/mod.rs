//! Server configuration.

pub mod cli_laws;
pub mod constants;
pub mod file;
pub mod file_laws;
pub mod key_laws;
pub mod level;
pub mod parser;

use vstd::prelude::*;
use crate::config::level::LogLevel;
use crate::net::SocketAddr;

verus! {

/// A single HMAC secret key. Several keys may be loaded at once (for key rotation), each
/// with a label that identifies it in logs.
#[derive(Clone, Debug)]
pub struct SecretKey {
    /// The raw key text; its bytes are the HMAC key.
    pub key: String,
    /// Human-readable label of the key.
    pub label: String,
}

/// Runtime configuration.
#[derive(Clone, Debug)]
pub struct Config {
    /// TLS certificate file.
    pub cert_path: Option<String>,
    /// TLS private key file.
    pub key_path: Option<String>,
    /// When true, TLS is restricted to version 1.3.
    pub tls13_only: bool,
    /// Number of worker threads in the connection handler pool.
    pub num_workers: usize,
    /// Path to the secret key file (several keys, one per line).
    pub secret_key_path: String,
    /// When false, incoming tokens are accepted without HMAC verification.
    pub check_token: bool,
    /// When true, only v2 tokens are accepted; legacy v1 tokens are rejected.
    pub v2_only: bool,
    /// Largest chunk size to advertise, if not `MAX_CHUNK_SIZE`.
    pub max_chunk_size: Option<u32>,
    /// Level of the local log.
    pub log_level: LogLevel,
    /// Collector address for UDP syslog event logging. `None` disables remote event logging.
    pub syslog_target: Option<SocketAddr>,
    /// Log the full client IP instead of the anonymised form.
    pub log_full_ip: bool,
}

/// What a `Config` says.
#[verifier::ext_equal]
pub struct Settings {
    pub cert_path: Option<Seq<char>>,
    pub key_path: Option<Seq<char>>,
    pub tls13_only: bool,
    pub num_workers: usize,
    pub secret_key_path: Seq<char>,
    pub check_token: bool,
    pub v2_only: bool,
    pub max_chunk_size: Option<u32>,
    pub log_level: LogLevel,
    pub syslog_target: Option<SocketAddr>,
    pub log_full_ip: bool,
}

/// The text of an optional string.
pub open spec fn text_option(s: Option<String>) -> Option<Seq<char>> {
    match s {
        Some(t) => Some(t@),
        None => None,
    }
}

impl View for Config {
    type V = Settings;

    open spec fn view(&self) -> Settings {
        Settings {
            cert_path: text_option(self.cert_path),
            key_path: text_option(self.key_path),
            tls13_only: self.tls13_only,
            num_workers: self.num_workers,
            secret_key_path: self.secret_key_path@,
            check_token: self.check_token,
            v2_only: self.v2_only,
            max_chunk_size: self.max_chunk_size,
            log_level: self.log_level,
            syslog_target: self.syslog_target,
            log_full_ip: self.log_full_ip,
        }
    }
}

/// The settings that hold unless something else is asked for.
pub open spec fn default_settings() -> Settings {
    Settings {
        cert_path: None,
        key_path: None,
        tls13_only: false,
        num_workers: 200,
        secret_key_path: "secret.key"@,
        check_token: true,
        v2_only: false,
        max_chunk_size: None,
        log_level: LogLevel::Off,
        syslog_target: None,
        log_full_ip: false,
    }
}

impl Default for Config {
    fn default() -> (r: Config)
        ensures
            r@ == default_settings(),
    {
        Config {
            cert_path: None,
            key_path: None,
            tls13_only: false,
            num_workers: 200,
            secret_key_path: "secret.key".to_owned(),
            check_token: true,
            v2_only: false,
            max_chunk_size: None,
            log_level: LogLevel::Off,
            syslog_target: None,
            log_full_ip: false,
        }
    }
}

/// What is asked for on top of a configuration.
pub struct Overrides {
    pub num_workers: Option<usize>,
    pub log_level: Option<LogLevel>,
    pub cert_path: Option<String>,
    pub key_path: Option<String>,
    pub secret_key_path: Option<String>,
    pub v2_only: bool,
    pub syslog_target: Option<SocketAddr>,
    pub log_full_ip: bool,
}

/// `base` with everything replaced that `over` asks for. The two switches only add to it.
pub open spec fn overridden(base: Settings, over: Overrides) -> Settings {
    Settings {
        num_workers: match over.num_workers {
            Some(n) => n,
            None => base.num_workers,
        },
        log_level: match over.log_level {
            Some(l) => l,
            None => base.log_level,
        },
        cert_path: match over.cert_path {
            Some(c) => Some(c@),
            None => base.cert_path,
        },
        key_path: match over.key_path {
            Some(k) => Some(k@),
            None => base.key_path,
        },
        secret_key_path: match over.secret_key_path {
            Some(s) => s@,
            None => base.secret_key_path,
        },
        v2_only: base.v2_only || over.v2_only,
        syslog_target: match over.syslog_target {
            Some(t) => Some(t),
            None => base.syslog_target,
        },
        log_full_ip: base.log_full_ip || over.log_full_ip,
        ..base
    }
}

/// Applies overrides on top of a configuration. `v2_only` is additive: an override can only
/// tighten it, not relax it.
pub fn apply_overrides(base: Config, over: Overrides) -> (r: Config)
    ensures
        r@ == overridden(base@, over),
{
    Config {
        num_workers: match over.num_workers {
            Some(n) => n,
            None => base.num_workers,
        },
        log_level: match over.log_level {
            Some(l) => l,
            None => base.log_level,
        },
        cert_path: match over.cert_path {
            Some(c) => Some(c),
            None => base.cert_path,
        },
        key_path: match over.key_path {
            Some(k) => Some(k),
            None => base.key_path,
        },
        secret_key_path: match over.secret_key_path {
            Some(s) => s,
            None => base.secret_key_path,
        },
        v2_only: base.v2_only || over.v2_only,
        syslog_target: match over.syslog_target {
            Some(t) => Some(t),
            None => base.syslog_target,
        },
        log_full_ip: base.log_full_ip || over.log_full_ip,
        tls13_only: base.tls13_only,
        check_token: base.check_token,
        max_chunk_size: base.max_chunk_size,
    }
}

/// Overrides can restrict a configuration to v2 tokens but not lift that, and they leave the
/// token check as the base has it.
pub proof fn law_overrides_only_tighten(base: Settings, over: Overrides)
    ensures
        base.v2_only ==> overridden(base, over).v2_only,
        over.v2_only ==> overridden(base, over).v2_only,
        overridden(base, over).check_token == base.check_token,
{
}

/// Each override that is given takes the place of the base's value, and where none is given
/// the base's value stays.
pub proof fn law_overrides_replace(base: Settings, over: Overrides)
    ensures
        ({
            let r = overridden(base, over);
            &&& over.num_workers matches Some(n) ==> r.num_workers == n
            &&& over.num_workers is None ==> r.num_workers == base.num_workers
            &&& over.log_level matches Some(l) ==> r.log_level == l
            &&& over.log_level is None ==> r.log_level == base.log_level
            &&& over.cert_path matches Some(c) ==> r.cert_path == Some(c@)
            &&& over.cert_path is None ==> r.cert_path == base.cert_path
            &&& over.key_path matches Some(k) ==> r.key_path == Some(k@)
            &&& over.key_path is None ==> r.key_path == base.key_path
            &&& over.secret_key_path matches Some(s) ==> r.secret_key_path == s@
            &&& over.secret_key_path is None ==> r.secret_key_path == base.secret_key_path
            &&& over.syslog_target is Some ==> r.syslog_target == over.syslog_target
            &&& over.syslog_target is None ==> r.syslog_target == base.syslog_target
            &&& r.v2_only == (base.v2_only || over.v2_only)
            &&& r.log_full_ip == (base.log_full_ip || over.log_full_ip)
            &&& r.tls13_only == base.tls13_only
            &&& r.check_token == base.check_token
            &&& r.max_chunk_size == base.max_chunk_size
        }),
{
}

} // verus!

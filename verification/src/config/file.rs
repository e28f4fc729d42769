//! The configuration file `rmbtd.conf`.
//!
//! One setting per line, `name = value`:
//! ```text
//! v2_only = true
//! check_token = true
//! syslog = 10.0.0.1:514
//! log_full_ip = true
//! logger = debug
//! ```
//! Blank lines and lines that start with `#` are skipped.

use vstd::prelude::*;
use crate::config::level::{self, parse_level, LogLevel};
use crate::config::parser::{self, parse_syslog_target, AddrReading};
use crate::config::{self, apply_overrides, Config, Overrides, Settings};
use crate::net::SocketAddr;
use crate::text::{self, cut_once, has_prefix, same_text, split_lines, trimmed};

verus! {

/// What a configuration file asks for.
#[derive(Clone, Copy, Debug)]
pub struct FileSettings {
    pub v2_only: bool,
    pub check_token: Option<bool>,
    pub syslog_target: Option<SocketAddr>,
    pub log_full_ip: bool,
    pub log_level: Option<LogLevel>,
}

/// A configuration file that cannot be followed. Each variant holds the position of the line
/// at fault, counted from 0.
#[derive(Clone, Copy, Debug, PartialEq, Eq, Structural)]
pub enum FileError {
    /// The line is no setting.
    NotASetting(usize),
    /// There is no setting of this name.
    UnknownName(usize),
    /// The setting cannot have this value.
    InvalidValue(usize),
}

/// The settings of an empty file.
pub open spec fn no_settings() -> FileSettings {
    FileSettings {
        v2_only: false,
        check_token: None,
        syslog_target: None,
        log_full_ip: false,
        log_level: None,
    }
}

/// The line holds no setting: it is blank or a comment.
pub open spec fn is_skipped(line: Seq<char>) -> bool {
    let t = text::trim(line);
    t.len() == 0 || text::begins_with(t, "#"@)
}

/// The name and the value on a line, without the white space around them.
pub open spec fn setting_on(line: Seq<char>) -> Option<(Seq<char>, Seq<char>)> {
    match text::split_once(line, "="@) {
        Some((name, value)) => Some((text::trim(name), text::trim(value))),
        None => None,
    }
}

/// The value on a line; empty, if there is none.
pub open spec fn value_on(line: Seq<char>) -> Seq<char> {
    match setting_on(line) {
        Some((name, value)) => value,
        None => ""@,
    }
}

/// The truth value that `v` spells.
pub open spec fn truth_of(v: Seq<char>) -> Option<bool> {
    if v == "true"@ {
        Some(true)
    } else if v == "false"@ {
        Some(false)
    } else {
        None
    }
}

/// What the line at position `at` makes of `c`. `reading` is what the system's address parser
/// makes of its value.
pub open spec fn line_step(
    line: Seq<char>,
    reading: AddrReading,
    at: usize,
    c: FileSettings,
) -> Result<FileSettings, FileError> {
    if is_skipped(line) {
        Ok(c)
    } else {
        match setting_on(line) {
            Some((name, value)) => if name == "v2_only"@ {
                match truth_of(value) {
                    Some(b) => Ok(FileSettings { v2_only: b, ..c }),
                    None => Err(FileError::InvalidValue(at)),
                }
            } else if name == "check_token"@ {
                match truth_of(value) {
                    Some(b) => Ok(FileSettings { check_token: Some(b), ..c }),
                    None => Err(FileError::InvalidValue(at)),
                }
            } else if name == "log_full_ip"@ {
                match truth_of(value) {
                    Some(b) => Ok(FileSettings { log_full_ip: b, ..c }),
                    None => Err(FileError::InvalidValue(at)),
                }
            } else if name == "syslog"@ {
                match parser::syslog_addr(reading) {
                    Some(x) => Ok(FileSettings { syslog_target: Some(x), ..c }),
                    None => Err(FileError::InvalidValue(at)),
                }
            } else if name == "logger"@ {
                match level::level_named(value) {
                    Some(l) => Ok(FileSettings { log_level: Some(l), ..c }),
                    None => Err(FileError::InvalidValue(at)),
                }
            } else {
                Err(FileError::UnknownName(at))
            },
            None => Err(FileError::NotASetting(at)),
        }
    }
}

/// What the first `n` lines come to: the first line at fault, if there is one.
pub open spec fn file_settings(lines: Seq<Seq<char>>, readings: Seq<AddrReading>, n: nat) -> Result<
    FileSettings,
    FileError,
>
    decreases n,
{
    if n == 0 {
        Ok(no_settings())
    } else {
        let i = (n - 1) as nat;
        match file_settings(lines, readings, i) {
            Ok(c) => line_step(lines[i as int], readings[i as int], i as usize, c),
            Err(e) => Err(e),
        }
    }
}

/// The value on each line of a configuration file, of which `read_config_file` wants the
/// system's reading as an address.
pub fn setting_values(content: &str) -> (r: Vec<String>)
    ensures
        text::texts(r@) == text::lines(content@).map_values(|l: Seq<char>| value_on(l)),
{
    let lines = split_lines(content);
    let ghost all = text::lines(content@);
    let ghost want = all.map_values(|l: Seq<char>| value_on(l));
    let mut out: Vec<String> = Vec::new();
    for i in 0..lines.len()
        invariant
            all == text::texts(lines@),
            want == all.map_values(|l: Seq<char>| value_on(l)),
            text::texts(out@) == want.take(i as int),
    {
        let ghost before = out@;
        assert(all[i as int] == lines@[i as int]@);
        let value = match cut_once(lines[i].as_str(), "=") {
            Some((_, v)) => trimmed(v).to_owned(),
            None => "".to_owned(),
        };
        out.push(value);
        assert(text::texts(out@) == text::texts(before).push(value@));
        assert(want.take(i + 1) == want.take(i as int).push(want[i as int]));
    }
    assert(want.take(lines@.len() as int) == want);
    out
}

fn read_truth(v: &str) -> (r: Option<bool>)
    ensures
        r == truth_of(v@),
{
    if same_text(v, "true") {
        Some(true)
    } else if same_text(v, "false") {
        Some(false)
    } else {
        None
    }
}

/// Reads one line on top of the settings so far.
fn read_line(line: &str, reading: &AddrReading, at: usize, c: FileSettings) -> (r: Result<
    FileSettings,
    FileError,
>)
    ensures
        r == line_step(line@, *reading, at, c),
{
    let t = trimmed(line);
    if t.is_empty() || has_prefix(t, "#") {
        return Ok(c);
    }
    let (name, value) = match cut_once(line, "=") {
        Some((n, v)) => (trimmed(n), trimmed(v)),
        None => return Err(FileError::NotASetting(at)),
    };
    if same_text(name, "v2_only") {
        match read_truth(value) {
            Some(b) => Ok(FileSettings { v2_only: b, ..c }),
            None => Err(FileError::InvalidValue(at)),
        }
    } else if same_text(name, "check_token") {
        match read_truth(value) {
            Some(b) => Ok(FileSettings { check_token: Some(b), ..c }),
            None => Err(FileError::InvalidValue(at)),
        }
    } else if same_text(name, "log_full_ip") {
        match read_truth(value) {
            Some(b) => Ok(FileSettings { log_full_ip: b, ..c }),
            None => Err(FileError::InvalidValue(at)),
        }
    } else if same_text(name, "syslog") {
        match parse_syslog_target(reading) {
            Some(x) => Ok(FileSettings { syslog_target: Some(x), ..c }),
            None => Err(FileError::InvalidValue(at)),
        }
    } else if same_text(name, "logger") {
        match parse_level(value) {
            Some(l) => Ok(FileSettings { log_level: Some(l), ..c }),
            None => Err(FileError::InvalidValue(at)),
        }
    } else {
        Err(FileError::UnknownName(at))
    }
}

proof fn lemma_error_stays(lines: Seq<Seq<char>>, readings: Seq<AddrReading>, n: nat, m: nat)
    requires
        n <= m,
        file_settings(lines, readings, n) is Err,
    ensures
        file_settings(lines, readings, m) == file_settings(lines, readings, n),
    decreases m,
{
    if n < m {
        lemma_error_stays(lines, readings, n, (m - 1) as nat);
    }
}

/// Reads the content of a configuration file. `readings` holds what the system's address
/// parser makes of each of its `setting_values`. A setting that is given twice has the later
/// value.
pub fn read_config_file(content: &str, readings: &[AddrReading]) -> (r: Result<
    FileSettings,
    FileError,
>)
    requires
        readings@.len() == text::lines(content@).len(),
    ensures
        r == file_settings(text::lines(content@), readings@, readings@.len()),
{
    let lines = split_lines(content);
    let ghost all = text::lines(content@);
    let mut c = FileSettings {
        v2_only: false,
        check_token: None,
        syslog_target: None,
        log_full_ip: false,
        log_level: None,
    };
    for i in 0..lines.len()
        invariant
            all == text::texts(lines@),
            all == text::lines(content@),
            readings@.len() == all.len(),
            file_settings(all, readings@, i as nat) == Ok::<FileSettings, FileError>(c),
    {
        assert(all[i as int] == lines@[i as int]@);
        match read_line(lines[i].as_str(), &readings[i], i, c) {
            Ok(d) => {
                c = d;
            },
            Err(e) => {
                proof {
                    lemma_error_stays(all, readings@, (i + 1) as nat, readings@.len());
                }
                return Err(e);
            },
        }
    }
    Ok(c)
}

/// What the file asks for, but for the token check, on top of the built-in defaults.
pub open spec fn file_overrides(f: FileSettings) -> Overrides {
    Overrides {
        num_workers: None,
        log_level: f.log_level,
        cert_path: None,
        key_path: None,
        secret_key_path: None,
        v2_only: f.v2_only,
        syslog_target: f.syslog_target,
        log_full_ip: f.log_full_ip,
    }
}

/// The configuration that a file asks for.
pub open spec fn file_config(f: FileSettings) -> Settings {
    let base = config::default_settings();
    config::overridden(
        match f.check_token {
            Some(b) => Settings { check_token: b, ..base },
            None => base,
        },
        file_overrides(f),
    )
}

impl FileSettings {
    /// The built-in defaults with the settings of the file.
    pub fn config(&self) -> (r: Config)
        ensures
            r@ == file_config(*self),
    {
        let mut base = Config::default();
        if let Some(b) = self.check_token {
            base.check_token = b;
        }
        let over = Overrides {
            num_workers: None,
            log_level: self.log_level,
            cert_path: None,
            key_path: None,
            secret_key_path: None,
            v2_only: self.v2_only,
            syslog_target: self.syslog_target,
            log_full_ip: self.log_full_ip,
        };
        assert(over == file_overrides(*self));
        apply_overrides(base, over)
    }
}

// ── Laws ────────────────────────────────────────────────────────────────────────
/// The token check is governed by `check_token` alone: it is on unless the file switches it off.
pub proof fn law_tokens_are_checked_by_default(f: FileSettings)
    ensures
        file_config(f).check_token <==> f.check_token != Some(false),
{
}

/// A line that holds no setting changes nothing, wherever it stands.
pub proof fn law_skipped_lines_change_nothing(
    line: Seq<char>,
    reading: AddrReading,
    at: usize,
    c: FileSettings,
)
    requires
        is_skipped(line),
    ensures
        line_step(line, reading, at, c) == Ok::<FileSettings, FileError>(c),
{
}

/// A file is followed only as a whole: what is at fault in its first lines is at fault in the
/// whole file, whatever follows.
pub proof fn law_faulty_line_spoils_the_file(
    lines: Seq<Seq<char>>,
    readings: Seq<AddrReading>,
    n: nat,
)
    requires
        n <= lines.len(),
        file_settings(lines, readings, n) is Err,
    ensures
        file_settings(lines, readings, lines.len()) == file_settings(lines, readings, n),
{
    lemma_error_stays(lines, readings, n, lines.len());
}

} // verus!

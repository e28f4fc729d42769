//! What each line of `rmbtd.conf` does.

use vstd::prelude::*;
use crate::config::file::{self, FileError, FileSettings};
use crate::config::parser::{self, AddrReading};
use crate::config::{self, level};
use crate::text;
use crate::text_laws::{self, law_split_at_char, law_trim};

verus! {

/// A line `name = value`, with any white space around its two parts.
pub open spec fn setting_line(
    w: (Seq<char>, Seq<char>, Seq<char>, Seq<char>),
    name: Seq<char>,
    value: Seq<char>,
) -> Seq<char> {
    (w.0 + name + w.1) + "="@ + (w.2 + value + w.3)
}

/// The four texts are white space.
pub open spec fn blank(w: (Seq<char>, Seq<char>, Seq<char>, Seq<char>)) -> bool {
    text_laws::all_white(w.0) && text_laws::all_white(w.1) && text_laws::all_white(w.2)
        && text_laws::all_white(w.3)
}

/// The name and the value of a line are its own, character by character, and the line is not
/// passed over.
pub proof fn law_name_and_value(
    w: (Seq<char>, Seq<char>, Seq<char>, Seq<char>),
    name: Seq<char>,
    value: Seq<char>,
)
    requires
        blank(w),
        text_laws::is_word(name),
        !name.contains('='),
        name[0] != '#',
        text_laws::is_trimmed(value),
    ensures
        file::setting_on(setting_line(w, name, value)) == Some((name, value)),
        file::value_on(setting_line(w, name, value)) == value,
        !file::is_skipped(setting_line(w, name, value)),
{
    reveal_strlit("=");
    reveal_strlit("#");
    assert("="@ == seq!['=']);
    let line = setting_line(w, name, value);
    let a = w.0 + name + w.1;
    let b = w.2 + value + w.3;
    if a.contains('=') {
        let i = choose|i: int| 0 <= i < a.len() && a[i] == '=';
        if i < w.0.len() {
            assert(text::is_white(w.0[i]));
        } else if i < w.0.len() + name.len() {
            assert(name[i - w.0.len()] == '=');
        } else {
            assert(text::is_white(w.1[i - w.0.len() - name.len()]));
        }
    }
    law_split_at_char(a, '=', b);
    text_laws::lemma_word_has_no_space(name);
    law_trim(w.0, name, w.1);
    law_trim(w.2, value, w.3);
    let (pre, post) = text_laws::law_trim_is_a_part(line);
    let t = text::trim(line);
    let k = w.0.len() as int;
    assert(line[k] == name[0]);
    if pre.len() > k {
        assert(pre[k] == line[k]);
    }
    if t.len() == 0 {
        if pre.len() <= k {
            assert(post[k - pre.len()] == line[k]);
        }
        assert(false);
    }
    if pre.len() < k {
        assert(t[0] == line[pre.len() as int]);
        assert(line[pre.len() as int] == w.0[pre.len() as int]);
    }
    assert(pre.len() == k);
    assert(t[0] == line[k]);
    if text::begins_with(t, "#"@) {
        assert(t.subrange(0, 1)[0] == t[0]);
    }
}

proof fn lemma_setting_names()
    ensures
        forall|n: Seq<char>|
            n == "v2_only"@ || n == "check_token"@ || n == "log_full_ip"@ || n == "syslog"@ || n
                == "logger"@ ==> text_laws::is_word(n) && !(#[trigger] n.contains('=')) && n[0]
                != '#',
        "v2_only"@.len() == 7,
        "check_token"@.len() == 11 && "check_token"@[0] == 'c',
        "log_full_ip"@.len() == 11 && "log_full_ip"@[0] == 'l',
        "syslog"@.len() == 6 && "syslog"@[0] == 's',
        "logger"@.len() == 6 && "logger"@[0] == 'l',
        text_laws::is_trimmed("true"@) && "true"@.len() == 4,
        text_laws::is_trimmed("false"@) && "false"@.len() == 5,
{
    reveal_strlit("v2_only");
    reveal_strlit("check_token");
    reveal_strlit("log_full_ip");
    reveal_strlit("syslog");
    reveal_strlit("logger");
    reveal_strlit("true");
    reveal_strlit("false");
}

/// `v2_only`, `check_token` and `log_full_ip` take `true` or `false`, and each changes its
/// own setting alone. Any other value is refused.
pub proof fn law_truth_settings(
    w: (Seq<char>, Seq<char>, Seq<char>, Seq<char>),
    b: bool,
    value: Seq<char>,
    reading: AddrReading,
    at: usize,
    c: FileSettings,
)
    requires
        blank(w),
        text_laws::is_trimmed(value),
        value != "true"@,
        value != "false"@,
    ensures
        ({
            let v = if b {
                "true"@
            } else {
                "false"@
            };
            &&& file::line_step(setting_line(w, "v2_only"@, v), reading, at, c) == Ok::<
                FileSettings,
                FileError,
            >(FileSettings { v2_only: b, ..c })
            &&& file::line_step(setting_line(w, "check_token"@, v), reading, at, c) == Ok::<
                FileSettings,
                FileError,
            >(FileSettings { check_token: Some(b), ..c })
            &&& file::line_step(setting_line(w, "log_full_ip"@, v), reading, at, c) == Ok::<
                FileSettings,
                FileError,
            >(FileSettings { log_full_ip: b, ..c })
        }),
        file::line_step(setting_line(w, "v2_only"@, value), reading, at, c) == Err::<
            FileSettings,
            FileError,
        >(FileError::InvalidValue(at)),
        file::line_step(setting_line(w, "check_token"@, value), reading, at, c) == Err::<
            FileSettings,
            FileError,
        >(FileError::InvalidValue(at)),
        file::line_step(setting_line(w, "log_full_ip"@, value), reading, at, c) == Err::<
            FileSettings,
            FileError,
        >(FileError::InvalidValue(at)),
{
    lemma_setting_names();
    let v = if b {
        "true"@
    } else {
        "false"@
    };
    assert(!"v2_only"@.contains('=') && !"check_token"@.contains('=') && !"log_full_ip"@.contains(
        '=',
    ));
    law_name_and_value(w, "v2_only"@, v);
    law_name_and_value(w, "check_token"@, v);
    law_name_and_value(w, "log_full_ip"@, v);
    law_name_and_value(w, "v2_only"@, value);
    law_name_and_value(w, "check_token"@, value);
    law_name_and_value(w, "log_full_ip"@, value);
}

/// `syslog` sets where events go, from the reading of its value, and `logger` the level of the
/// local log. A value that is none is refused, and so is any other name.
pub proof fn law_other_settings(
    w: (Seq<char>, Seq<char>, Seq<char>, Seq<char>),
    name: Seq<char>,
    value: Seq<char>,
    reading: AddrReading,
    at: usize,
    c: FileSettings,
)
    requires
        blank(w),
        text_laws::is_trimmed(value),
        text_laws::is_word(name),
        !name.contains('='),
        name[0] != '#',
        name != "v2_only"@,
        name != "check_token"@,
        name != "log_full_ip"@,
        name != "syslog"@,
        name != "logger"@,
    ensures
        file::line_step(setting_line(w, "syslog"@, value), reading, at, c) == match parser::syslog_addr(
            reading,
        ) {
            Some(x) => Ok(FileSettings { syslog_target: Some(x), ..c }),
            None => Err(FileError::InvalidValue(at)),
        },
        file::line_step(setting_line(w, "logger"@, value), reading, at, c) == match level::level_named(
            value,
        ) {
            Some(l) => Ok(FileSettings { log_level: Some(l), ..c }),
            None => Err(FileError::InvalidValue(at)),
        },
        file::line_step(setting_line(w, name, value), reading, at, c) == Err::<
            FileSettings,
            FileError,
        >(FileError::UnknownName(at)),
{
    lemma_setting_names();
    assert(!"syslog"@.contains('=') && !"logger"@.contains('='));
    law_name_and_value(w, "syslog"@, value);
    law_name_and_value(w, "logger"@, value);
    law_name_and_value(w, name, value);
}

/// Blank lines and lines that start with `#` are passed over; any other line without an equals
/// sign is refused.
pub proof fn law_lines_that_are_no_setting(
    pre: Seq<char>,
    t: Seq<char>,
    post: Seq<char>,
    reading: AddrReading,
    at: usize,
    c: FileSettings,
)
    requires
        text_laws::all_white(pre),
        text_laws::all_white(post),
        text_laws::is_trimmed(t),
    ensures
        t.len() == 0 || t[0] == '#' ==> file::line_step(pre + t + post, reading, at, c) == Ok::<
            FileSettings,
            FileError,
        >(c),
        t.len() > 0 && t[0] != '#' && !(pre + t + post).contains('=') ==> file::line_step(
            pre + t + post,
            reading,
            at,
            c,
        ) == Err::<FileSettings, FileError>(FileError::NotASetting(at)),
{
    reveal_strlit("=");
    reveal_strlit("#");
    assert("="@ == seq!['=']);
    law_trim(pre, t, post);
    if t.len() > 0 {
        assert(t.subrange(0, 1) == seq![t[0]]);
        if text::begins_with(t, "#"@) {
            assert(t.subrange(0, 1)[0] == '#');
        }
        if t[0] == '#' {
            assert(t.subrange(0, 1) == "#"@);
        }
    }
    if !(pre + t + post).contains('=') {
        law_split_at_char(pre + t + post, '=', t);
    }
}

/// A file is read line by line, from settings of which none is given, and each line builds on
/// those before it.
pub proof fn law_lines_are_read_in_order(
    lines: Seq<Seq<char>>,
    readings: Seq<AddrReading>,
    n: nat,
    c: FileSettings,
)
    requires
        n <= usize::MAX,
        file::file_settings(lines, readings, n) == Ok::<FileSettings, FileError>(c),
    ensures
        file::file_settings(lines, readings, n + 1) == file::line_step(
            lines[n as int],
            readings[n as int],
            n as usize,
            c,
        ),
        file::file_settings(lines, readings, 0) == Ok::<FileSettings, FileError>(
            FileSettings {
                v2_only: false,
                check_token: None,
                syslog_target: None,
                log_full_ip: false,
                log_level: None,
            },
        ),
{
}

/// The configuration of a file has what the file gives and the built-in default elsewhere.
pub proof fn law_file_configures(f: FileSettings)
    ensures
        ({
            let r = file::file_config(f);
            let d = config::default_settings();
            &&& r.v2_only == f.v2_only
            &&& r.log_full_ip == f.log_full_ip
            &&& r.syslog_target == f.syslog_target
            &&& f.check_token matches Some(b) ==> r.check_token == b
            &&& f.check_token is None ==> r.check_token
            &&& f.log_level matches Some(l) ==> r.log_level == l
            &&& f.log_level is None ==> r.log_level == d.log_level
            &&& r.cert_path == d.cert_path
            &&& r.key_path == d.key_path
            &&& r.tls13_only == d.tls13_only
            &&& r.num_workers == d.num_workers
            &&& r.secret_key_path == d.secret_key_path
            &&& r.max_chunk_size == d.max_chunk_size
        }),
{
}

} // verus!

//! The version that the server reports.

use vstd::prelude::*;
use crate::text::{self, trimmed, without_prefix};
use crate::text_laws::{self, law_prefix, law_trim};

verus! {

/// A version that was given, without the white space around it; none, if nothing is left.
pub open spec fn given(v: Option<Seq<char>>) -> Option<Seq<char>> {
    match v {
        Some(t) => if text::trim(t).len() > 0 {
            Some(text::trim(t))
        } else {
            None
        },
        None => None,
    }
}

/// `v` without a single leading `v`.
pub open spec fn without_v(v: Seq<char>) -> Seq<char> {
    if text::begins_with(v, "v"@) {
        v.skip(1)
    } else {
        v
    }
}

/// The version to report: an explicit one, else that of the nearest tag, else that of the
/// package. Tags are `v1.7.0`, so a single leading `v` is dropped.
pub open spec fn version_of(
    explicit: Option<Seq<char>>,
    tag: Option<Seq<char>>,
    package: Seq<char>,
) -> Seq<char> {
    without_v(
        match given(explicit) {
            Some(v) => v,
            None => match given(tag) {
                Some(v) => v,
                None => package,
            },
        },
    )
}

fn non_empty(v: Option<&str>) -> (r: Option<&str>)
    ensures
        crate::events::slice_text(r) == given(crate::events::slice_text(v)),
{
    match v {
        Some(t) => {
            let t = trimmed(t);
            if t.is_empty() {
                None
            } else {
                Some(t)
            }
        },
        None => None,
    }
}

/// Resolves the version to report from an explicit version, the nearest tag and the version
/// of the package.
pub fn resolve_version(explicit: Option<&str>, tag: Option<&str>, package: &str) -> (r: String)
    ensures
        r@ == version_of(
            crate::events::slice_text(explicit),
            crate::events::slice_text(tag),
            package@,
        ),
{
    let version = match non_empty(explicit) {
        Some(v) => v,
        None => match non_empty(tag) {
            Some(v) => v,
            None => package,
        },
    };
    proof {
        reveal_strlit("v");
    }
    match without_prefix(version, "v") {
        Some(rest) => rest.to_owned(),
        None => version.to_owned(),
    }
}

// ── Laws ────────────────────────────────────────────────────────────────────────
/// The version that is given is reported as it is, without the white space around it and
/// without one leading `v`: the explicit one, else the tag, else that of the package.
pub proof fn law_given_version_is_reported(
    pre: Seq<char>,
    version: Seq<char>,
    post: Seq<char>,
    other: Option<Seq<char>>,
    package: Seq<char>,
)
    requires
        text_laws::all_white(pre),
        text_laws::all_white(post),
        text_laws::is_word(version),
        version[0] != 'v',
    ensures
        version_of(Some(pre + version + post), other, package) == version,
        version_of(Some(pre + ("v"@ + version) + post), other, package) == version,
        version_of(None, Some(pre + version + post), package) == version,
        version_of(None, Some(pre + ("v"@ + version) + post), package) == version,
        version_of(Some(pre), Some(pre + version + post), package) == version,
        version_of(None, None, version) == version,
        version_of(Some(pre), Some(post), version) == version,
{
    reveal_strlit("v");
    let none = Seq::<char>::empty();
    let tagged = "v"@ + version;
    assert(tagged[0] == 'v');
    assert(tagged[tagged.len() - 1] == version[version.len() - 1]);
    assert(pre + none + none == pre);
    assert(post + none + none == post);
    law_trim(pre, none, none);
    law_trim(post, none, none);
    law_trim(pre, version, post);
    law_trim(pre, tagged, post);
    law_prefix("v"@, version, tagged);
    assert(tagged.skip(1) == version);
    if text::begins_with(version, "v"@) {
        assert(version.subrange(0, 1)[0] == 'v');
    }
}

} // verus!

//! What a key file comes to, in terms of its characters.

use vstd::prelude::*;
use crate::config::{parser, SecretKey};
use crate::text;
use crate::text_laws::{
    self, law_lines, law_split_at_char, law_split_parts, law_trim, law_trim_is_a_part,
    law_trim_keeps,
};

verus! {

/// A line that is one word holds this word as its key and no label, and a line with more
/// behind a space holds its first word as the key and the rest as the label, both character
/// by character and whatever white space is around the line.
pub proof fn law_key_and_label_are_kept(
    pre: Seq<char>,
    key: Seq<char>,
    label: Seq<char>,
    post: Seq<char>,
)
    requires
        text_laws::all_white(pre),
        text_laws::all_white(post),
        text_laws::is_word(key),
        key[0] != '#',
        text_laws::is_trimmed(label),
    ensures
        key.len() >= 5 ==> parser::line_key(pre + key + post) == Some((key, Seq::<char>::empty())),
        key.len() >= 5 || label.len() > 0 && key.len() + label.len() >= 4 ==> parser::line_key(
            pre + (key + " "@ + label) + post,
        ) == Some((key, label)),
{
    reveal_strlit(" ");
    assert(" "@ == seq![' ']);
    text_laws::lemma_word_has_no_space(key);
    law_trim(pre, key, post);
    law_split_at_char(key, ' ', label);
    let t = key + " "@ + label;
    assert(t[0] == key[0]);
    if label.len() > 0 {
        assert(t[t.len() - 1] == label[label.len() - 1]);
        law_trim(pre, t, post);
        law_trim_keeps(label);
    } else {
        let after = " "@ + post;
        assert(pre + t + post == pre + key + after);
        assert forall|i: int| 0 <= i < after.len() implies text::is_white(#[trigger] after[i]) by {
            if i > 0 {
                assert(after[i] == post[i - 1]);
            }
        }
        law_trim(pre, key, after);
    }
}

/// A line of fewer than 5 characters, not counting the white space around it, holds no key,
/// and neither does one that starts with `#`.
pub proof fn law_lines_without_a_key(pre: Seq<char>, t: Seq<char>, post: Seq<char>)
    requires
        text_laws::all_white(pre),
        text_laws::all_white(post),
        text_laws::is_trimmed(t),
        t.len() < 5 || t[0] == '#',
    ensures
        parser::line_key(pre + t + post) is None,
{
    law_trim(pre, t, post);
}

/// A key and its label stand in the line as they are: each is a part of it.
pub proof fn law_key_is_a_part_of_its_line(line: Seq<char>)
    ensures
        parser::line_key(line) matches Some((key, label)) ==> {
            &&& exists|i: int| text::occurs_at(line, key, i)
            &&& exists|i: int| text::occurs_at(line, label, i)
        },
{
    if let Some((key, label)) = parser::line_key(line) {
        let (pre, post) = law_trim_is_a_part(line);
        let t = text::trim(line);
        law_split_parts(t, " "@);
        let i = pre.len() as int;
        assert(t.take(key.len() as int) == key);
        assert(line.subrange(i, i + key.len()) == key);
        assert(text::occurs_at(line, key, i));
        match text::split_once(t, " "@) {
            Some((a, b)) => {
                let (x, y) = law_trim_is_a_part(b);
                let j = i + a.len() + " "@.len() + x.len();
                assert(line == pre + (a + " "@ + (x + label + y)) + post);
                assert(line.subrange(j, j + label.len()) == label);
                assert(text::occurs_at(line, label, j));
            },
            None => {
                assert(line.subrange(0, 0) == label);
                assert(text::occurs_at(line, label, 0));
            },
        }
    }
}

/// The keys of a file are those of its lines, in the order of the lines.
pub proof fn law_keys_keep_the_order_of_lines(a: Seq<Seq<char>>, b: Seq<Seq<char>>)
    ensures
        parser::lines_keys(a + b) == parser::lines_keys(a) + parser::lines_keys(b),
    decreases b.len(),
{
    if b.len() == 0 {
        assert(a + b == a);
    } else {
        law_keys_keep_the_order_of_lines(a, b.drop_last());
        assert((a + b).drop_last() == a + b.drop_last());
        assert((a + b).last() == b.last());
    }
}

/// A file that begins with a key and its label on one line has these first, and then the keys
/// of the rest of the file.
pub proof fn law_key_file(key: Seq<char>, label: Seq<char>, rest: Seq<char>)
    requires
        text_laws::is_word(key),
        key.len() >= 5,
        key[0] != '#',
        text_laws::is_trimmed(label),
        label.len() > 0,
        !label.contains('\n'),
    ensures
        parser::lines_keys(text::lines(key + " "@ + label + seq!['\n'] + rest)) == seq![
            (key, label),
        ] + parser::lines_keys(text::lines(rest)),
        parser::lines_keys(text::lines(key + seq!['\n'] + rest)) == seq![
            (key, Seq::<char>::empty()),
        ] + parser::lines_keys(text::lines(rest)),
{
    reveal_strlit(" ");
    let none = Seq::<char>::empty();
    let line = key + " "@ + label;
    assert forall|i: int| 0 <= i < key.len() implies key[i] != '\n' && key[i] != '\r' by {
        assert(!text::is_white(key[i]));
    }
    if line.contains('\n') {
        let i = choose|i: int| 0 <= i < line.len() && line[i] == '\n';
        if i > key.len() {
            assert(label[i - key.len() - 1] == '\n');
        }
    }
    law_lines(line, rest);
    law_lines(key, rest);
    assert(line.last() == label.last());
    law_key_and_label_are_kept(none, key, label, none);
    assert(none + line + none == line);
    assert(none + key + none == key);
    reveal_with_fuel(parser::lines_keys, 2);
    assert(seq![line].drop_last() == Seq::<Seq<char>>::empty());
    assert(seq![key].drop_last() == Seq::<Seq<char>>::empty());
    law_keys_keep_the_order_of_lines(seq![line], text::lines(rest));
    law_keys_keep_the_order_of_lines(seq![key], text::lines(rest));
}

/// The texts of some keys are theirs, one by one.
pub proof fn law_key_texts(keys: Seq<SecretKey>, i: int)
    requires
        0 <= i < keys.len(),
    ensures
        parser::key_texts(keys).len() == keys.len(),
        parser::key_texts(keys)[i] == (keys[i].key@, keys[i].label@),
{
}

} // verus!

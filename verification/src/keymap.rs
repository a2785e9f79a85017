//! The address mapper: from an address of the message bus to the key
//! expression under which the mesh carries its messages.
//!
//! The key is the long text form of the address without its leading slash,
//! with the characters that mean something in a key expression escaped, and
//! behind the fixed prefix `up/`. An address of the wildcard authority maps
//! to `up/**` whatever else it holds.

use vstd::prelude::*;
use crate::model::UUri;
use crate::status::{UCode, UStatus};
use crate::text::{chars_of, push_str, string_of_chars};

verus! {

/// `s` with every occurrence of the character `from` replaced by `to`.
pub open spec fn replace_char(s: Seq<char>, from: char, to: Seq<char>) -> Seq<char>
    decreases s.len(),
{
    if s.len() == 0 {
        s
    } else if s[0] == from {
        to + replace_char(s.skip(1), from, to)
    } else {
        seq![s[0]] + replace_char(s.skip(1), from, to)
    }
}

/// `s` with every pair of slashes replaced by a backslash and a slash. Pairs
/// are found from the left and do not overlap: of three slashes in a row the
/// first two make a pair and the third stays.
pub open spec fn replace_double_slash(s: Seq<char>) -> Seq<char>
    decreases s.len(),
{
    if s.len() >= 2 && s[0] == '/' && s[1] == '/' {
        seq!['\\', '/'] + replace_double_slash(s.skip(2))
    } else if s.len() >= 1 {
        seq![s[0]] + replace_double_slash(s.skip(1))
    } else {
        s
    }
}

/// The escapes of a key, applied one after the other to the whole text:
/// `*` to `\8`, `$` to `\4`, `?` to `\0`, `#` to `\3`, then `//` to `\/`.
pub open spec fn escape_key(s: Seq<char>) -> Seq<char> {
    let stars = replace_char(s, '*', seq!['\\', '8']);
    let dollars = replace_char(stars, '$', seq!['\\', '4']);
    let questions = replace_char(dollars, '?', seq!['\\', '0']);
    let hashes = replace_char(questions, '#', seq!['\\', '3']);
    replace_double_slash(hashes)
}

/// `s` without its first character, if that is a slash.
pub open spec fn strip_leading_slash(s: Seq<char>) -> Seq<char> {
    if s.len() > 0 && s[0] == '/' {
        s.skip(1)
    } else {
        s
    }
}

/// The prefix of every key.
pub open spec fn key_prefix() -> Seq<char> {
    seq!['u', 'p', '/']
}

/// The key of the address `uri` whose long text form is `long_form`.
pub open spec fn zenoh_key(uri: UUri, long_form: Seq<char>) -> Seq<char> {
    if uri.has_wildcard_authority() {
        key_prefix() + seq!['*', '*']
    } else {
        key_prefix() + escape_key(strip_leading_slash(long_form))
    }
}

/// Replaces every occurrence of `from` in `input` by the text `to`.
pub fn replace_each(input: &Vec<char>, from: char, to: &str) -> (out: Vec<char>)
    ensures
        out@ == replace_char(input@, from, to@),
{
    let mut out: Vec<char> = Vec::new();
    let mut i: usize = 0;
    assert(input@.skip(0) == input@);
    assert(out@ + replace_char(input@, from, to@) == replace_char(input@, from, to@));
    while i < input.len()
        invariant
            i <= input.len(),
            out@ + replace_char(input@.skip(i as int), from, to@) == replace_char(
                input@,
                from,
                to@,
            ),
        decreases input.len() - i,
    {
        let ghost rest = input@.skip(i as int);
        let ghost before = out@;
        assert(rest.skip(1) == input@.skip(i + 1));
        if input[i] == from {
            push_str(&mut out, to);
            assert(out@ + replace_char(rest.skip(1), from, to@) == before + replace_char(
                rest,
                from,
                to@,
            ));
        } else {
            out.push(input[i]);
            assert(out@ + replace_char(rest.skip(1), from, to@) == before + replace_char(
                rest,
                from,
                to@,
            ));
        }
        i = i + 1;
    }
    assert(out@ + Seq::<char>::empty() == out@);
    out
}

/// Replaces every pair of slashes in `input`, found from the left, by a
/// backslash and a slash.
pub fn replace_slash_pairs(input: &Vec<char>) -> (out: Vec<char>)
    ensures
        out@ == replace_double_slash(input@),
{
    let mut out: Vec<char> = Vec::new();
    let mut i: usize = 0;
    assert(input@.skip(0) == input@);
    assert(out@ + replace_double_slash(input@) == replace_double_slash(input@));
    while i < input.len()
        invariant
            i <= input.len(),
            out@ + replace_double_slash(input@.skip(i as int)) == replace_double_slash(input@),
        decreases input.len() - i,
    {
        let ghost rest = input@.skip(i as int);
        let ghost before = out@;
        if input[i] == '/' && i + 1 < input.len() && input[i + 1] == '/' {
            out.push('\\');
            out.push('/');
            assert(rest.skip(2) == input@.skip(i + 2));
            assert(out@ + replace_double_slash(rest.skip(2)) == before + replace_double_slash(
                rest,
            ));
            i = i + 2;
        } else {
            out.push(input[i]);
            assert(rest.skip(1) == input@.skip(i + 1));
            assert(out@ + replace_double_slash(rest.skip(1)) == before + replace_double_slash(
                rest,
            ));
            i = i + 1;
        }
    }
    assert(out@ + Seq::<char>::empty() == out@);
    out
}

/// Escapes the characters of `input` that mean something in a key.
pub fn escape(input: &Vec<char>) -> (out: Vec<char>)
    ensures
        out@ == escape_key(input@),
{
    proof {
        reveal_strlit("\\8");
        reveal_strlit("\\4");
        reveal_strlit("\\0");
        reveal_strlit("\\3");
        assert("\\8"@ == seq!['\\', '8']);
        assert("\\4"@ == seq!['\\', '4']);
        assert("\\0"@ == seq!['\\', '0']);
        assert("\\3"@ == seq!['\\', '3']);
    }
    let stars = replace_each(input, '*', "\\8");
    let dollars = replace_each(&stars, '$', "\\4");
    let questions = replace_each(&dollars, '?', "\\0");
    let hashes = replace_each(&questions, '#', "\\3");
    replace_slash_pairs(&hashes)
}

/// The key of the address `uri`. `long_form` is the long text form of the
/// address, or `None` where the address has none.
///
/// Without a text form there is no key: the mapping fails as a whole, and
/// nothing is escaped.
pub fn to_zenoh_key_string(uri: &UUri, long_form: Option<&str>) -> (r: Result<String, UStatus>)
    ensures
        match long_form {
            Some(text) => r matches Ok(key) && key@ == zenoh_key(*uri, text@),
            None => r matches Err(e) && e.says(
                UCode::Internal,
                "Unable to transform to Zenoh key"@,
            ),
        },
{
    let Some(text) = long_form else {
        return Err(UStatus::fail_with_code(UCode::Internal, "Unable to transform to Zenoh key"));
    };
    let mut key: Vec<char> = Vec::new();
    key.push('u');
    key.push('p');
    key.push('/');
    assert(key@ == key_prefix());
    if uri.is_wildcard_authority() {
        key.push('*');
        key.push('*');
        assert(key@ == key_prefix() + seq!['*', '*']);
    } else {
        let chars = chars_of(text);
        let escaped = if chars.len() > 0 && chars[0] == '/' {
            let mut stripped: Vec<char> = Vec::new();
            let mut i: usize = 1;
            while i < chars.len()
                invariant
                    1 <= i <= chars.len(),
                    stripped@ == chars@.subrange(1, i as int),
                decreases chars.len() - i,
            {
                stripped.push(chars[i]);
                i = i + 1;
            }
            assert(stripped@ == chars@.skip(1));
            escape(&stripped)
        } else {
            escape(&chars)
        };
        let mut j: usize = 0;
        while j < escaped.len()
            invariant
                j <= escaped.len(),
                key@ == key_prefix() + escaped@.take(j as int),
            decreases escaped.len() - j,
        {
            key.push(escaped[j]);
            j = j + 1;
        }
        assert(escaped@.take(escaped.len() as int) == escaped@);
    }
    Ok(string_of_chars(&key))
}

/// Whether the character `c` occurs nowhere in `s`.
pub open spec fn lacks(s: Seq<char>, c: char) -> bool {
    forall|i: int| 0 <= i < s.len() ==> #[trigger] s[i] != c
}

proof fn lemma_concat_lacks(a: Seq<char>, b: Seq<char>, c: char)
    requires
        lacks(a, c),
        lacks(b, c),
    ensures
        lacks(a + b, c),
{
    assert forall|i: int| 0 <= i < (a + b).len() implies #[trigger] (a + b)[i] != c by {
        if i < a.len() {
            assert((a + b)[i] == a[i]);
        } else {
            assert((a + b)[i] == b[i - a.len()]);
        }
    }
}

/// Replacing a character leaves a character `c` out of the result if the
/// replacement text lacks `c` and either `c` is the replaced character or
/// the input lacks `c` already.
pub proof fn lemma_replace_char_lacks(s: Seq<char>, from: char, to: Seq<char>, c: char)
    requires
        lacks(to, c),
        c == from || lacks(s, c),
    ensures
        lacks(replace_char(s, from, to), c),
    decreases s.len(),
{
    if s.len() > 0 {
        let rest = s.skip(1);
        if c != from {
            assert forall|i: int| 0 <= i < rest.len() implies #[trigger] rest[i] != c by {
                assert(rest[i] == s[i + 1]);
            }
        }
        lemma_replace_char_lacks(rest, from, to, c);
        if s[0] == from {
            lemma_concat_lacks(to, replace_char(rest, from, to), c);
        } else {
            assert(s[0] != c);
            lemma_concat_lacks(seq![s[0]], replace_char(rest, from, to), c);
        }
    }
}

/// Replacing pairs of slashes brings in no character but the backslash and
/// the slash.
pub proof fn lemma_replace_double_slash_lacks(s: Seq<char>, c: char)
    requires
        lacks(s, c),
        c != '\\',
        c != '/',
    ensures
        lacks(replace_double_slash(s), c),
    decreases s.len(),
{
    if s.len() >= 2 && s[0] == '/' && s[1] == '/' {
        let rest = s.skip(2);
        assert forall|i: int| 0 <= i < rest.len() implies #[trigger] rest[i] != c by {
            assert(rest[i] == s[i + 2]);
        }
        lemma_replace_double_slash_lacks(rest, c);
        lemma_concat_lacks(seq!['\\', '/'], replace_double_slash(rest), c);
    } else if s.len() >= 1 {
        let rest = s.skip(1);
        assert forall|i: int| 0 <= i < rest.len() implies #[trigger] rest[i] != c by {
            assert(rest[i] == s[i + 1]);
        }
        lemma_replace_double_slash_lacks(rest, c);
        assert(s[0] != c);
        lemma_concat_lacks(seq![s[0]], replace_double_slash(rest), c);
    }
}

/// An escaped text holds none of the characters `*`, `$`, `?` and `#`.
pub proof fn lemma_escaped_lacks_reserved(s: Seq<char>)
    ensures
        lacks(escape_key(s), '*'),
        lacks(escape_key(s), '$'),
        lacks(escape_key(s), '?'),
        lacks(escape_key(s), '#'),
{
    let star_to = seq!['\\', '8'];
    let dollar_to = seq!['\\', '4'];
    let question_to = seq!['\\', '0'];
    let hash_to = seq!['\\', '3'];
    let stars = replace_char(s, '*', star_to);
    let dollars = replace_char(stars, '$', dollar_to);
    let questions = replace_char(dollars, '?', question_to);
    let hashes = replace_char(questions, '#', hash_to);

    lemma_replace_char_lacks(s, '*', star_to, '*');
    lemma_replace_char_lacks(stars, '$', dollar_to, '*');
    lemma_replace_char_lacks(dollars, '?', question_to, '*');
    lemma_replace_char_lacks(questions, '#', hash_to, '*');
    lemma_replace_double_slash_lacks(hashes, '*');

    lemma_replace_char_lacks(stars, '$', dollar_to, '$');
    lemma_replace_char_lacks(dollars, '?', question_to, '$');
    lemma_replace_char_lacks(questions, '#', hash_to, '$');
    lemma_replace_double_slash_lacks(hashes, '$');

    lemma_replace_char_lacks(dollars, '?', question_to, '?');
    lemma_replace_char_lacks(questions, '#', hash_to, '?');
    lemma_replace_double_slash_lacks(hashes, '?');

    lemma_replace_char_lacks(questions, '#', hash_to, '#');
    lemma_replace_double_slash_lacks(hashes, '#');
}

/// Every key begins with the prefix `up/`.
pub proof fn lemma_key_begins_with_prefix(uri: UUri, long_form: Seq<char>)
    ensures
        zenoh_key(uri, long_form).len() >= 3,
        zenoh_key(uri, long_form).take(3) == key_prefix(),
{
    let key = zenoh_key(uri, long_form);
    assert(key.take(3) =~= key_prefix());
}

/// An address of the wildcard authority has the key `up/**`, whatever its
/// entity, its resource and its text form are.
pub proof fn lemma_wildcard_key(uri: UUri, long_form: Seq<char>)
    requires
        uri.has_wildcard_authority(),
    ensures
        zenoh_key(uri, long_form) == seq!['u', 'p', '/', '*', '*'],
{
    assert(key_prefix() + seq!['*', '*'] =~= seq!['u', 'p', '/', '*', '*']);
}

/// Only an address of the wildcard authority has the key `up/**`: the key
/// of any other address holds no star at all.
pub proof fn lemma_wildcard_key_is_exclusive(uri: UUri, long_form: Seq<char>)
    requires
        !uri.has_wildcard_authority(),
    ensures
        lacks(zenoh_key(uri, long_form), '*'),
        zenoh_key(uri, long_form) != seq!['u', 'p', '/', '*', '*'],
{
    let escaped = escape_key(strip_leading_slash(long_form));
    lemma_escaped_lacks_reserved(strip_leading_slash(long_form));
    lemma_concat_lacks(key_prefix(), escaped, '*');
    assert(seq!['u', 'p', '/', '*', '*'][3] == '*');
}

} // verus!

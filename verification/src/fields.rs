//! Text of header lines: whitespace-delimited fields, and header names
//! compared without regard to ASCII case.

use vstd::prelude::*;
use vstd::string::*;

verus! {

/// Whether `c` is white space (the characters of Unicode's `White_Space`).
pub open spec fn is_space(c: char) -> bool {
    let n = c as u32;
    ||| 0x09 <= n <= 0x0D
    ||| n == 0x20
    ||| n == 0x85
    ||| n == 0xA0
    ||| n == 0x1680
    ||| 0x2000 <= n <= 0x200A
    ||| n == 0x2028
    ||| n == 0x2029
    ||| n == 0x202F
    ||| n == 0x205F
    ||| n == 0x3000
}

pub fn is_whitespace(c: char) -> (space: bool)
    ensures
        space == is_space(c),
{
    let n: u32 = c as u32;
    (0x09 <= n && n <= 0x0D) || n == 0x20 || n == 0x85 || n == 0xA0 || n == 0x1680 || (0x2000 <= n
        && n <= 0x200A) || n == 0x2028 || n == 0x2029 || n == 0x202F || n == 0x205F || n == 0x3000
}

/// The end of the run that starts at `from`: the first position at or after
/// `from` that is the end of `s` or holds a character which is white space
/// when the run is not (`spaces` false), or is not when the run is.
pub open spec fn run_end(s: Seq<char>, from: int, spaces: bool) -> int
    decreases s.len() - from,
{
    if from < 0 || from >= s.len() || is_space(s[from]) != spaces {
        from
    } else {
        run_end(s, from + 1, spaces)
    }
}

/// Where the second field of `s` starts: after leading white space, the first
/// field, and the white space behind it. Equal to the length of `s` where
/// there is no second field.
pub open spec fn second_start(s: Seq<char>) -> int {
    run_end(s, run_end(s, run_end(s, 0, true), false), true)
}

/// The second white-space-delimited field of `s`, if it has one.
pub open spec fn second_field(s: Seq<char>) -> Option<Seq<char>> {
    let start = second_start(s);
    if start < s.len() {
        Some(s.subrange(start, run_end(s, start, false)))
    } else {
        None
    }
}

/// A run stays inside the text and consists of one kind of character only;
/// the character behind it, if any, is of the other kind.
pub proof fn lemma_run_end(s: Seq<char>, from: int, spaces: bool)
    requires
        0 <= from <= s.len(),
    ensures
        from <= run_end(s, from, spaces) <= s.len(),
        forall|i: int| from <= i < run_end(s, from, spaces) ==> is_space(#[trigger] s[i]) == spaces,
        run_end(s, from, spaces) < s.len() ==> is_space(s[run_end(s, from, spaces)]) != spaces,
    decreases s.len() - from,
{
    if from < s.len() && is_space(s[from]) == spaces {
        lemma_run_end(s, from + 1, spaces);
    }
}

/// A run ends where its kind of character ends: at `end`, if the characters
/// from `from` up to `end` are of the run's kind and the one at `end`, if any,
/// is not.
pub proof fn lemma_run_ends_at(s: Seq<char>, from: int, end: int, spaces: bool)
    requires
        0 <= from <= end <= s.len(),
        forall|i: int| from <= i < end ==> is_space(#[trigger] s[i]) == spaces,
        end < s.len() ==> is_space(s[end]) != spaces,
    ensures
        run_end(s, from, spaces) == end,
    decreases end - from,
{
    if from < end {
        lemma_run_ends_at(s, from + 1, end, spaces);
    }
}

/// Whether `word` is a field: not empty and without white space.
pub open spec fn is_word(word: Seq<char>) -> bool {
    word.len() > 0 && forall|i: int| 0 <= i < word.len() ==> !is_space(#[trigger] word[i])
}

/// Whether `gap` is a separator: not empty and white space only.
pub open spec fn is_gap(gap: Seq<char>) -> bool {
    gap.len() > 0 && forall|i: int| 0 <= i < gap.len() ==> is_space(#[trigger] gap[i])
}

/// The second field of a line made of a first word, a separator, a second
/// word and, after another separator, anything else, is that second word.
pub proof fn lemma_second_of_two_words(
    first: Seq<char>,
    gap: Seq<char>,
    second: Seq<char>,
    rest: Seq<char>,
)
    requires
        is_word(first),
        is_gap(gap),
        is_word(second),
        rest.len() > 0 ==> is_space(rest[0]),
    ensures
        second_field(first + gap + second + rest) == Some(second),
{
    let s = first + gap + second + rest;
    let a = first.len() as int;
    let b = a + gap.len();
    let c = b + second.len();
    assert forall|i: int| 0 <= i < a implies !is_space(#[trigger] s[i]) by {
        assert(s[i] == first[i]);
    }
    assert forall|i: int| a <= i < b implies is_space(#[trigger] s[i]) by {
        assert(s[i] == gap[i - a]);
    }
    assert forall|i: int| b <= i < c implies !is_space(#[trigger] s[i]) by {
        assert(s[i] == second[i - b]);
    }
    if c < s.len() {
        assert(s[c] == rest[0]);
    }
    lemma_run_ends_at(s, 0, 0, true);
    lemma_run_ends_at(s, 0, a, false);
    lemma_run_ends_at(s, a, b, true);
    lemma_run_ends_at(s, b, c, false);
    assert(s.subrange(b, c) =~= second);
}

/// A second field is never empty and holds no white space.
pub proof fn lemma_second_field_is_a_word(s: Seq<char>)
    ensures
        second_field(s) matches Some(word) ==> word.len() > 0 && forall|i: int|
            0 <= i < word.len() ==> !is_space(#[trigger] word[i]),
{
    let a = run_end(s, 0, true);
    lemma_run_end(s, 0, true);
    let b = run_end(s, a, false);
    lemma_run_end(s, a, false);
    let c = run_end(s, b, true);
    lemma_run_end(s, b, true);
    lemma_run_end(s, c, false);
}

/// Text without white space has no second field.
pub proof fn lemma_single_word_has_no_second_field(s: Seq<char>)
    requires
        forall|i: int| 0 <= i < s.len() ==> !is_space(#[trigger] s[i]),
    ensures
        second_field(s) is None,
{
    let a = run_end(s, 0, true);
    lemma_run_end(s, 0, true);
    let b = run_end(s, a, false);
    lemma_run_end(s, a, false);
    lemma_run_end(s, b, true);
}

fn skip_run(s: &str, len: usize, from: usize, spaces: bool) -> (end: usize)
    requires
        len == s@.len(),
        from <= len,
    ensures
        end == run_end(s@, from as int, spaces),
        from <= end <= len,
{
    let mut i: usize = from;
    while i < len && is_whitespace(s.get_char(i)) == spaces
        invariant
            len == s@.len(),
            from <= i <= len,
            run_end(s@, i as int, spaces) == run_end(s@, from as int, spaces),
        decreases len - i,
    {
        i = i + 1;
    }
    i
}

/// The second white-space-delimited field of `line`, if it has one.
pub fn second_word(line: &str) -> (word: Option<&str>)
    ensures
        match word {
            Some(w) => second_field(line@) == Some(w@),
            None => second_field(line@) is None,
        },
{
    let len = line.unicode_len();
    let first = skip_run(line, len, 0, true);
    let gap = skip_run(line, len, first, false);
    let start = skip_run(line, len, gap, true);
    if start < len {
        let end = skip_run(line, len, start, false);
        Some(line.substring_char(start, end))
    } else {
        None
    }
}

/// `c` with an ASCII capital letter replaced by its small letter.
pub open spec fn fold_case(c: char) -> u32 {
    let n = c as u32;
    if 0x41 <= n <= 0x5A {
        (n + 0x20) as u32
    } else {
        n
    }
}

/// Whether two header names are the same but for ASCII case.
pub open spec fn same_name(a: Seq<char>, b: Seq<char>) -> bool {
    a.len() == b.len() && forall|i: int| 0 <= i < a.len() ==> fold_case(#[trigger] a[i]) == fold_case(b[i])
}

fn folded(c: char) -> (n: u32)
    ensures
        n == fold_case(c),
{
    let n: u32 = c as u32;
    if 0x41 <= n && n <= 0x5A {
        n + 0x20
    } else {
        n
    }
}

/// Whether two header names are the same but for ASCII case.
pub fn names_match(a: &str, b: &str) -> (same: bool)
    ensures
        same == same_name(a@, b@),
{
    let len = a.unicode_len();
    if b.unicode_len() != len {
        return false;
    }
    let mut i: usize = 0;
    while i < len
        invariant
            len == a@.len(),
            len == b@.len(),
            i <= len,
            forall|k: int| 0 <= k < i ==> fold_case(#[trigger] a@[k]) == fold_case(b@[k]),
        decreases len - i,
    {
        if folded(a.get_char(i)) != folded(b.get_char(i)) {
            return false;
        }
        i = i + 1;
    }
    true
}

/// The value of the first header at or after position `from` whose name is
/// `name` but for ASCII case.
pub open spec fn header_from(headers: Seq<(String, String)>, name: Seq<char>, from: int) -> Option<
    Seq<char>,
>
    decreases headers.len() - from,
{
    if from < 0 || from >= headers.len() {
        None
    } else if same_name(headers[from].0@, name) {
        Some(headers[from].1@)
    } else {
        header_from(headers, name, from + 1)
    }
}

/// From `from` on, a lookup finds the value of the first header of that name
/// and finds nothing only where no header has that name.
pub proof fn lemma_header_from(headers: Seq<(String, String)>, name: Seq<char>, from: int)
    requires
        0 <= from <= headers.len(),
    ensures
        match header_from(headers, name, from) {
            Some(value) => exists|i: int|
                from <= i < headers.len() && same_name(#[trigger] headers[i].0@, name) && value
                    == headers[i].1@ && forall|j: int|
                    from <= j < i ==> !same_name(#[trigger] headers[j].0@, name),
            None => forall|j: int|
                from <= j < headers.len() ==> !same_name(#[trigger] headers[j].0@, name),
        },
    decreases headers.len() - from,
{
    if from < headers.len() {
        if same_name(headers[from].0@, name) {
            assert(from <= from < headers.len() && same_name(headers[from].0@, name));
        } else {
            lemma_header_from(headers, name, from + 1);
            match header_from(headers, name, from + 1) {
                Some(value) => {
                    let i = choose|i: int|
                        from + 1 <= i < headers.len() && same_name(#[trigger] headers[i].0@, name)
                            && value == headers[i].1@ && forall|j: int|
                            from + 1 <= j < i ==> !same_name(#[trigger] headers[j].0@, name);
                    assert(from <= i < headers.len() && same_name(headers[i].0@, name));
                    assert forall|j: int| from <= j < i implies !same_name(
                        #[trigger] headers[j].0@,
                        name,
                    ) by {}
                },
                None => {},
            }
        }
    }
}

/// The value of the first header whose name is `name` but for ASCII case.
pub open spec fn header_value(headers: Seq<(String, String)>, name: Seq<char>) -> Option<Seq<char>> {
    header_from(headers, name, 0)
}

/// Looks up a header by name, without regard to ASCII case; the first one
/// wins.
pub fn find_header<'a>(headers: &'a Vec<(String, String)>, name: &str) -> (value: Option<&'a str>)
    ensures
        match value {
            Some(v) => header_value(headers@, name@) == Some(v@),
            None => header_value(headers@, name@) is None,
        },
{
    let mut i: usize = 0;
    while i < headers.len()
        invariant
            i <= headers.len(),
            header_from(headers@, name@, i as int) == header_value(headers@, name@),
        decreases headers.len() - i,
    {
        if names_match(headers[i].0.as_str(), name) {
            return Some(headers[i].1.as_str());
        }
        i = i + 1;
    }
    None
}

} // verus!

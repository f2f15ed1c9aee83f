//! Text helpers shared by the status and rendering code.

use vstd::prelude::*;

verus! {

/// `String::push` appends exactly one character to the end of the string.
pub assume_specification[ String::push ](s: &mut String, ch: char)
    ensures
        final(s)@ == old(s)@.push(ch),
;

/// `String::pop` removes the last character and returns it, or returns
/// `None` and leaves the string alone when it is empty.
pub assume_specification[ String::pop ](s: &mut String) -> (r: Option<char>)
    ensures
        old(s)@.len() == 0 ==> r.is_none() && final(s)@ == old(s)@,
        old(s)@.len() > 0 ==> r == Some(old(s)@.last()) && final(s)@ == old(s)@.drop_last(),
;

/// Whether `c` is white space in the sense of `char::is_whitespace`, that
/// is, has the Unicode property `White_Space`.
pub uninterp spec fn is_white_space(c: char) -> bool;

/// `char::is_whitespace` tells whether the character has the Unicode
/// property `White_Space`; the answer depends on the character alone.
pub assume_specification[ char::is_whitespace ](c: char) -> (white: bool)
    ensures
        white == is_white_space(c),
;

/// `text` without the white space at its start.
pub open spec fn trimmed_start(text: Seq<char>) -> Seq<char>
    decreases text.len(),
{
    if text.len() > 0 && is_white_space(text.first()) {
        trimmed_start(text.drop_first())
    } else {
        text
    }
}

/// `text` without the white space at its end.
pub open spec fn trimmed_end(text: Seq<char>) -> Seq<char>
    decreases text.len(),
{
    if text.len() > 0 && is_white_space(text.last()) {
        trimmed_end(text.drop_last())
    } else {
        text
    }
}

/// `text` without the white space at either end.
pub open spec fn trimmed(text: Seq<char>) -> Seq<char> {
    trimmed_end(trimmed_start(text))
}

proof fn lemma_trimmed_start_skips(text: Seq<char>, start: int)
    requires
        0 <= start <= text.len(),
        forall|i: int| 0 <= i < start ==> is_white_space(text[i]),
    ensures
        trimmed_start(text) == trimmed_start(text.subrange(start, text.len() as int)),
    decreases start,
{
    if start == 0 {
        assert(text.subrange(0, text.len() as int) =~= text);
    } else {
        let rest = text.drop_first();
        assert(is_white_space(text[0]));
        assert forall|i: int| 0 <= i < start - 1 implies is_white_space(rest[i]) by {
            assert(rest[i] == text[i + 1]);
        }
        lemma_trimmed_start_skips(rest, start - 1);
        assert(rest.subrange(start - 1, rest.len() as int) =~= text.subrange(
            start,
            text.len() as int,
        ));
    }
}

proof fn lemma_trimmed_end_skips(text: Seq<char>, end: int)
    requires
        0 <= end <= text.len(),
        forall|i: int| end <= i < text.len() ==> is_white_space(text[i]),
    ensures
        trimmed_end(text) == trimmed_end(text.subrange(0, end)),
    decreases text.len() - end,
{
    if end == text.len() {
        assert(text.subrange(0, end) =~= text);
    } else {
        let rest = text.drop_last();
        assert(is_white_space(text[text.len() - 1]));
        lemma_trimmed_end_skips(rest, end);
        assert(rest.subrange(0, end) =~= text.subrange(0, end));
    }
}

/// The part of `text` between the white space at its two ends.
pub fn trim(text: &str) -> (core: &str)
    ensures
        core@ == trimmed(text@),
{
    let len = text.unicode_len();
    let mut start: usize = 0;
    while start < len && text.get_char(start).is_whitespace()
        invariant
            start <= len,
            len == text@.len(),
            forall|i: int| 0 <= i < start ==> is_white_space(text@[i]),
        decreases len - start,
    {
        start += 1;
    }
    let mut end: usize = len;
    while end > start && text.get_char(end - 1).is_whitespace()
        invariant
            start <= end <= len,
            len == text@.len(),
            forall|i: int| end <= i < len ==> is_white_space(text@[i]),
        decreases end,
    {
        end -= 1;
    }
    proof {
        let tail = text@.subrange(start as int, len as int);
        lemma_trimmed_start_skips(text@, start as int);
        assert(trimmed_start(tail) == tail);
        assert forall|i: int| end - start <= i < tail.len() implies is_white_space(tail[i]) by {
            assert(tail[i] == text@[i + start]);
        }
        lemma_trimmed_end_skips(tail, end - start);
        let core = tail.subrange(0, end - start);
        assert(core =~= text@.subrange(start as int, end as int));
        assert(trimmed_end(core) == core);
    }
    text.substring_char(start, end)
}

/// `text` as the `Debug` form of `str` writes it: between double quotes,
/// with the characters that need it escaped.
pub uninterp spec fn debug_quoted(text: Seq<char>) -> Seq<char>;

/// Writes `text` through the `Debug` form of `str`. What comes out depends
/// on the characters of `text` alone.
#[verifier::external_body]
pub(crate) fn quote(text: &str) -> (quoted: String)
    ensures
        quoted@ == debug_quoted(text@),
{
    format!("{:?}", text)
}

/// `str::starts_with`, given a string as the pattern, tells whether that
/// string is a prefix of the text.
#[verifier::external_body]
pub(crate) fn starts_with(text: &str, prefix: &str) -> (found: bool)
    ensures
        found == prefix@.is_prefix_of(text@),
{
    text.starts_with(prefix)
}

/// The word that writes `flag`.
pub open spec fn bool_text(flag: bool) -> Seq<char> {
    if flag {
        "true"@
    } else {
        "false"@
    }
}

/// The word that writes `flag`.
pub fn bool_word(flag: bool) -> (word: &'static str)
    ensures
        word@ == bool_text(flag),
{
    if flag {
        "true"
    } else {
        "false"
    }
}

/// The character that writes the decimal digit `d`.
pub open spec fn digit_char(d: nat) -> char {
    if d == 0 {
        '0'
    } else if d == 1 {
        '1'
    } else if d == 2 {
        '2'
    } else if d == 3 {
        '3'
    } else if d == 4 {
        '4'
    } else if d == 5 {
        '5'
    } else if d == 6 {
        '6'
    } else if d == 7 {
        '7'
    } else if d == 8 {
        '8'
    } else {
        '9'
    }
}

/// The decimal numeral of `n`, most significant digit first, without
/// leading zeros.
pub open spec fn decimal(n: nat) -> Seq<char>
    decreases n,
{
    if n < 10 {
        seq![digit_char(n)]
    } else {
        decimal(n / 10).push(digit_char(n % 10))
    }
}

fn digit(d: usize) -> (c: char)
    requires
        d < 10,
    ensures
        c == digit_char(d as nat),
{
    if d == 0 {
        '0'
    } else if d == 1 {
        '1'
    } else if d == 2 {
        '2'
    } else if d == 3 {
        '3'
    } else if d == 4 {
        '4'
    } else if d == 5 {
        '5'
    } else if d == 6 {
        '6'
    } else if d == 7 {
        '7'
    } else if d == 8 {
        '8'
    } else {
        '9'
    }
}

/// Appends the decimal numeral of `n` to `out`.
pub fn push_decimal(out: &mut String, n: usize)
    ensures
        final(out)@ == old(out)@ + decimal(n as nat),
    decreases n,
{
    if n >= 10 {
        push_decimal(out, n / 10);
    }
    out.push(digit(n % 10));
}

/// Appends `tail` to `out`.
pub fn push_text(out: &mut String, tail: &str)
    ensures
        final(out)@ == old(out)@ + tail@,
{
    out.append(tail);
}

} // verus!

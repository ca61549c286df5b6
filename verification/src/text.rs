//! Command lines as text: the line-ending rule and exact comparison.
//!
//! A command is compared without the carriage returns and line feeds at its
//! end, whichever side of the comparison it stands on. Nothing else is
//! altered: case, inner whitespace and leading characters all count.

use vstd::prelude::*;
use vstd::string::StringSliceAdditionalSpecFns;
use vstd::utf8::{encode_utf8, encode_utf8_decode_utf8, is_ascii_chars, is_ascii_chars_encode_utf8};

verus! {

/// Carriage return and line feed end a line.
pub open spec fn is_line_ending(c: char) -> bool {
    c == '\r' || c == '\n'
}

/// `line` without the line-ending characters at its end.
pub open spec fn strip_line_ending(line: Seq<char>) -> Seq<char>
    decreases line.len(),
{
    if line.len() > 0 && is_line_ending(line.last()) {
        strip_line_ending(line.drop_last())
    } else {
        line
    }
}

/// The bytes that carry `text` on the line: its UTF-8 encoding.
pub open spec fn text_bytes(text: Seq<char>) -> Seq<u8> {
    encode_utf8(text)
}

/// ASCII text is carried as one byte for each character, the byte being the
/// code of the character.
pub proof fn lemma_ascii_text_bytes(text: Seq<char>)
    requires
        is_ascii_chars(text),
    ensures
        text_bytes(text) == Seq::new(text.len(), |i: int| text[i] as u8),
{
    is_ascii_chars_encode_utf8(text);
}

/// Stripping keeps a prefix of the line that does not end in a line ending,
/// and drops nothing but line endings.
pub proof fn lemma_strip_line_ending(line: Seq<char>)
    ensures
        strip_line_ending(line).len() <= line.len(),
        strip_line_ending(line) == line.take(strip_line_ending(line).len() as int),
        strip_line_ending(line).len() > 0 ==> !is_line_ending(strip_line_ending(line).last()),
        forall|i: int|
            strip_line_ending(line).len() <= i < line.len() ==> is_line_ending(#[trigger] line[i]),
    decreases line.len(),
{
    if line.len() > 0 && is_line_ending(line.last()) {
        let shorter = line.drop_last();
        lemma_strip_line_ending(shorter);
        let kept = strip_line_ending(shorter).len() as int;
        assert forall|i: int| kept <= i < line.len() implies is_line_ending(
            #[trigger] line[i],
        ) by {
            if i < shorter.len() {
                assert(line[i] == shorter[i]);
            }
        }
    }
}

/// Stripping twice is stripping once.
pub proof fn lemma_strip_idempotent(line: Seq<char>)
    ensures
        strip_line_ending(strip_line_ending(line)) == strip_line_ending(line),
    decreases line.len(),
{
    if line.len() > 0 && is_line_ending(line.last()) {
        lemma_strip_idempotent(line.drop_last());
    }
}

/// Line endings appended to a line do not change what it is compared as.
pub proof fn lemma_strip_appended_ending(line: Seq<char>, ending: char)
    requires
        is_line_ending(ending),
    ensures
        strip_line_ending(line.push(ending)) == strip_line_ending(line),
{
    assert(line.push(ending).drop_last() =~= line);
}

/// Returns `line` without the line-ending characters at its end.
pub fn trim_line_ending(line: &str) -> (trimmed: &str)
    ensures
        trimmed@ == strip_line_ending(line@),
{
    let mut end: usize = line.unicode_len();
    proof {
        assert(line@.take(end as int) =~= line@);
    }
    while end > 0
        invariant
            end <= line@.len(),
            strip_line_ending(line@) == strip_line_ending(line@.take(end as int)),
        ensures
            end <= line@.len(),
            strip_line_ending(line@) == line@.take(end as int),
        decreases end,
    {
        let last: char = line.get_char(end - 1);
        if last == '\r' || last == '\n' {
            proof {
                assert(line@.take(end as int).drop_last() =~= line@.take(end - 1));
            }
            end = end - 1;
        } else {
            break ;
        }
    }
    line.substring_char(0, end)
}

/// Whether two strings hold the same characters.
pub fn str_equal(left: &str, right: &str) -> (equal: bool)
    ensures
        equal == (left@ == right@),
{
    let a: &[u8] = left.as_bytes();
    let b: &[u8] = right.as_bytes();
    proof {
        encode_utf8_decode_utf8(left@);
        encode_utf8_decode_utf8(right@);
    }
    if a.len() != b.len() {
        return false;
    }
    let mut i: usize = 0;
    while i < a.len()
        invariant
            i <= a@.len(),
            a@.len() == b@.len(),
            a@ == left.spec_bytes(),
            b@ == right.spec_bytes(),
            left@ == right@ ==> a@ == b@,
            forall|j: int| 0 <= j < i ==> a@[j] == b@[j],
        decreases a@.len() - i,
    {
        if a[i] != b[i] {
            return false;
        }
        i += 1;
    }
    proof {
        assert(a@ =~= b@);
    }
    true
}

} // verus!

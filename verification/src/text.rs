//! The small amount of text handling a login needs: the prompt shown before
//! an entry is read, the line that comes back, and the supervisor's process
//! identifier as it is written in the start-up parameter.

use vstd::prelude::*;
use vstd::string::*;

verus! {

/// The text of a prompt: the label, a colon and a space, with no line break.
pub open spec fn prompt_line(label: Seq<char>) -> Seq<char> {
    label + seq![':', ' ']
}

/// Renders the prompt for `label`.
pub fn prompt_text(label: &str) -> (text: String)
    ensures
        text@ == prompt_line(label@),
{
    let text = label.to_owned().concat(": ");
    proof {
        reveal_strlit(": ");
        assert(": "@ =~= seq![':', ' ']);
    }
    text
}

/// `line` without the line breaks at its end.
pub open spec fn strip_newlines(line: Seq<char>) -> Seq<char>
    decreases line.len(),
{
    if line.len() > 0 && line.last() == '\n' {
        strip_newlines(line.drop_last())
    } else {
        line
    }
}

/// What `strip_newlines` returns is the longest prefix of `line` that does not
/// end in a line break: everything it removes is a line break.
pub proof fn lemma_strip_newlines(line: Seq<char>)
    ensures
        strip_newlines(line).len() <= line.len(),
        strip_newlines(line) == line.subrange(0, strip_newlines(line).len() as int),
        strip_newlines(line).len() > 0 ==> strip_newlines(line).last() != '\n',
        forall|i: int| strip_newlines(line).len() <= i < line.len() ==> line[i] == '\n',
    decreases line.len(),
{
    if line.len() > 0 && line.last() == '\n' {
        let shorter = line.drop_last();
        lemma_strip_newlines(shorter);
        let kept = strip_newlines(shorter);
        assert(kept =~= line.subrange(0, kept.len() as int));
        assert forall|i: int| kept.len() <= i < line.len() implies line[i] == '\n' by {
            if i < shorter.len() {
                assert(shorter[i] == line[i]);
            }
        }
    } else {
        assert(line =~= line.subrange(0, line.len() as int));
    }
}

/// Stripping is idempotent: a stripped line has nothing left to strip.
pub proof fn lemma_strip_newlines_idempotent(line: Seq<char>)
    ensures
        strip_newlines(strip_newlines(line)) == strip_newlines(line),
    decreases line.len(),
{
    if line.len() > 0 && line.last() == '\n' {
        lemma_strip_newlines_idempotent(line.drop_last());
    }
}

/// Removes the line breaks at the end of an entered line.
pub fn strip_line(line: &str) -> (stripped: String)
    ensures
        stripped@ == strip_newlines(line@),
{
    let mut end: usize = line.unicode_len();
    let mut scanning: bool = true;
    proof {
        assert(line@.subrange(0, end as int) =~= line@);
    }
    while scanning && end > 0
        invariant
            end <= line@.len(),
            strip_newlines(line@) == strip_newlines(line@.subrange(0, end as int)),
            !scanning ==> end > 0 && line@[end - 1] != '\n',
        decreases end + if scanning { 1int } else { 0int },
    {
        if line.get_char(end - 1) == '\n' {
            proof {
                let head = line@.subrange(0, end as int);
                assert(head.last() == line@[end - 1]);
                assert(head.drop_last() =~= line@.subrange(0, end - 1));
            }
            end = end - 1;
        } else {
            scanning = false;
        }
    }
    proof {
        let head = line@.subrange(0, end as int);
        if end > 0 {
            assert(head.last() == line@[end - 1]);
        }
        assert(strip_newlines(head) == head);
    }
    line.substring_char(0, end).to_owned()
}

/// Whether `c` is one of the ten decimal digits.
pub open spec fn is_digit(c: char) -> bool {
    '0' <= c && c <= '9'
}

/// The number a decimal digit stands for.
pub open spec fn digit_value(c: char) -> nat {
    (c as int - '0' as int) as nat
}

/// Whether `text` is a decimal numeral: at least one character, digits only.
pub open spec fn is_decimal(text: Seq<char>) -> bool {
    text.len() > 0 && forall|i: int| 0 <= i < text.len() ==> is_digit(#[trigger] text[i])
}

/// The number that the digits of `text` denote, most significant digit first.
pub open spec fn decimal_value(text: Seq<char>) -> nat
    decreases text.len(),
{
    if text.len() == 0 {
        0
    } else {
        10 * decimal_value(text.drop_last()) + digit_value(text.last())
    }
}

/// Reading more digits never makes the number smaller.
pub proof fn lemma_decimal_value_grows(text: Seq<char>, cut: int)
    requires
        0 <= cut <= text.len(),
    ensures
        decimal_value(text.subrange(0, cut)) <= decimal_value(text),
    decreases text.len() - cut,
{
    if cut == text.len() {
        assert(text.subrange(0, cut) =~= text);
    } else {
        lemma_decimal_value_grows(text.drop_last(), cut);
        assert(text.drop_last().subrange(0, cut) =~= text.subrange(0, cut));
    }
}

/// Reads a process identifier written as a decimal numeral.
///
/// The result is the number when `text` is a numeral that fits a `u32`, and
/// `None` for anything else: the empty text, a sign, a blank, a letter, or a
/// number too large.
pub fn parse_decimal(text: &str) -> (value: Option<u32>)
    ensures
        value is Some <==> is_decimal(text@) && decimal_value(text@) <= u32::MAX,
        value is Some ==> value->0 == decimal_value(text@),
{
    let len: usize = text.unicode_len();
    if len == 0 {
        return None;
    }
    let mut total: u32 = 0;
    let mut at: usize = 0;
    while at < len
        invariant
            at <= len,
            len == text@.len(),
            total == decimal_value(text@.subrange(0, at as int)),
            forall|i: int| 0 <= i < at ==> is_digit(#[trigger] text@[i]),
        decreases len - at,
    {
        let c: char = text.get_char(at);
        if !(c >= '0' && c <= '9') {
            return None;
        }
        let digit: u32 = c as u32 - '0' as u32;
        proof {
            let head = text@.subrange(0, at + 1);
            assert(head.last() == c);
            assert(head.drop_last() =~= text@.subrange(0, at as int));
            assert(decimal_value(head) == 10 * total + digit);
            lemma_decimal_value_grows(text@, at + 1);
        }
        if total > (u32::MAX - digit) / 10 {
            return None;
        }
        total = total * 10 + digit;
        at = at + 1;
    }
    proof {
        assert(text@.subrange(0, at as int) =~= text@);
    }
    Some(total)
}

} // verus!

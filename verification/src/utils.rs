//! Utilities: texts and their words, numbers as text, and the sender of a
//! message.

use vstd::prelude::*;
use std::sync::Arc;
use vstd::std_specs::iter::IteratorSpec;
use vstd::string::StrSliceExecFns;
use crate::telegram::types::Message;

verus! {

/// Whether `c` counts as white space to `char::is_whitespace`.
pub uninterp spec fn white_space(c: char) -> bool;

/// Calls `char::is_whitespace`. Its answer is taken as the meaning of
/// [`white_space`]: nothing more is claimed of it than that it depends on the
/// character alone.
#[verifier::external_body]
fn is_whitespace(c: char) -> (space: bool)
    ensures
        space == white_space(c),
{
    c.is_whitespace()
}

/// Calls `String::push_str`, which appends `tail` to the end of `text`.
#[verifier::external_body]
pub(crate) fn push_str(text: &mut String, tail: &str)
    ensures
        final(text)@ == old(text)@ + tail@,
{
    text.push_str(tail)
}

/// Calls `Arc::clone`, which gives one more pointer to the same value.
#[verifier::external_body]
pub(crate) fn share<T>(value: &Arc<T>) -> (shared: Arc<T>)
    ensures
        shared == *value,
{
    Arc::clone(value)
}

/// For each character of `text`, whether it is white space.
pub open spec fn space_marks(text: Seq<char>) -> Seq<bool> {
    Seq::new(text.len(), |at: int| white_space(text[at]))
}

/// Where the run of `mark` that begins at `from` ends: the first index at or
/// after `from` that holds another mark, or the length of `marks` if there is
/// none.
pub open spec fn run_end(marks: Seq<bool>, from: int, mark: bool) -> int
    decreases marks.len() - from,
{
    if 0 <= from < marks.len() && marks[from] == mark {
        run_end(marks, from + 1, mark)
    } else {
        from
    }
}

/// Where the run of `mark` that ends just before `to` begins: the last index
/// at or before `to` with another mark just before it, or 0 if there is none.
pub open spec fn run_start(marks: Seq<bool>, to: int, mark: bool) -> int
    decreases to,
{
    if 0 < to <= marks.len() && marks[to - 1] == mark {
        run_start(marks, to - 1, mark)
    } else {
        to
    }
}

/// Where the first word at or after `from` begins and ends, in a text whose
/// white space `marks` marks. A word is a longest run of characters that are
/// not white space.
pub open spec fn word_span(marks: Seq<bool>, from: int) -> Option<(int, int)> {
    let start = run_end(marks, from, true);
    if start >= marks.len() {
        None
    } else {
        Some((start, run_end(marks, start, false)))
    }
}

/// The first word of `text` that begins at or after `from`, with the index
/// just behind it.
pub open spec fn word_from(text: Seq<char>, from: int) -> Option<(Seq<char>, int)> {
    match word_span(space_marks(text), from) {
        Some((start, end)) => Some((text.subrange(start, end), end)),
        None => None,
    }
}

/// The first word of `text`, if it has one.
pub open spec fn first_word(text: Seq<char>) -> Option<Seq<char>> {
    match word_from(text, 0) {
        Some((word, _)) => Some(word),
        None => None,
    }
}

/// The second word of `text`, if it has two.
pub open spec fn second_word(text: Seq<char>) -> Option<Seq<char>> {
    match word_from(text, 0) {
        Some((_, end)) => match word_from(text, end) {
            Some((word, _)) => Some(word),
            None => None,
        },
        None => None,
    }
}

/// What is left of a text when the white space at its two ends is taken away:
/// where it begins and ends, given the marks of its white space.
pub open spec fn inner_span(marks: Seq<bool>) -> (int, int) {
    let start = run_end(marks, 0, true);
    let end = run_start(marks, marks.len() as int, true);
    if start < end {
        (start, end)
    } else {
        (0, 0)
    }
}

/// `text` without the white space at its two ends.
pub open spec fn trimmed(text: Seq<char>) -> Seq<char> {
    let (start, end) = inner_span(space_marks(text));
    text.subrange(start, end)
}

/// Marks the white space of `text`, character by character.
pub fn mark_spaces(text: &str) -> (marks: Vec<bool>)
    ensures
        marks@ == space_marks(text@),
{
    let mut marks: Vec<bool> = Vec::new();
    let mut chars = text.chars();
    loop
        invariant
            chars.obeys_prophetic_iter_laws(),
            marks@.len() <= text@.len(),
            chars.remaining() == text@.skip(marks@.len() as int),
            forall|at: int| 0 <= at < marks@.len() ==> marks@[at] == white_space(text@[at]),
        ensures
            marks@.len() == text@.len(),
            forall|at: int| 0 <= at < marks@.len() ==> marks@[at] == white_space(text@[at]),
        decreases text@.len() - marks@.len(),
    {
        match chars.next() {
            Some(c) => {
                marks.push(is_whitespace(c));
            },
            None => {
                break ;
            },
        }
    }
    assert(marks@ =~= space_marks(text@));
    marks
}

/// Moves forward over the run of `mark` that begins at `from`.
pub fn skip_run(marks: &Vec<bool>, from: usize, mark: bool) -> (end: usize)
    ensures
        end == run_end(marks@, from as int, mark),
        from <= end,
        from <= marks@.len() ==> end <= marks@.len(),
        end < marks@.len() ==> marks@[end as int] != mark,
{
    let mut end: usize = from;
    while end < marks.len() && marks[end] == mark
        invariant
            from <= end,
            from <= marks@.len() ==> end <= marks@.len(),
            run_end(marks@, from as int, mark) == run_end(marks@, end as int, mark),
        decreases marks@.len() - end,
    {
        end = end + 1;
    }
    end
}

/// Finds the first word at or after `from` in a text whose white space
/// `marks` marks: where it begins and where it ends. There is none when only
/// white space is left, or nothing at all.
pub fn find_word(marks: &Vec<bool>, from: usize) -> (span: Option<(usize, usize)>)
    ensures
        match span {
            Some((start, end)) => word_span(marks@, from as int) == Some((start as int, end as int))
                && from <= start < end <= marks@.len(),
            None => word_span(marks@, from as int) is None,
        },
{
    if from >= marks.len() {
        return None;
    }
    let start: usize = skip_run(marks, from, true);
    if start >= marks.len() {
        return None;
    }
    let end: usize = skip_run(marks, start, false);
    Some((start, end))
}

/// Finds what is left of a text when the white space at its two ends is taken
/// away, given the marks of its white space.
pub fn find_inner(marks: &Vec<bool>) -> (span: (usize, usize))
    ensures
        span.0 <= span.1 <= marks@.len(),
        (span.0 as int, span.1 as int) == inner_span(marks@),
{
    let start: usize = skip_run(marks, 0, true);
    let mut end: usize = marks.len();
    while end > 0 && marks[end - 1]
        invariant
            end <= marks@.len(),
            run_start(marks@, marks@.len() as int, true) == run_start(marks@, end as int, true),
        decreases end,
    {
        end = end - 1;
    }
    if start < end {
        (start, end)
    } else {
        (0, 0)
    }
}

/// Takes the white space off the two ends of `text`.
pub fn trim(text: &str) -> (inner: String)
    ensures
        inner@ == trimmed(text@),
{
    let marks = mark_spaces(text);
    let (start, end) = find_inner(&marks);
    text.substring_char(start, end).to_owned()
}

/// Whether `text` reads exactly as `other` does.
pub fn same_text(text: &String, other: &str) -> (same: bool)
    ensures
        same == (text@ == other@),
{
    let other_text = other.to_owned();
    *text == other_text
}

/// The character that stands for the digit `d`.
pub open spec fn digit(d: int) -> char {
    if d == 0 {
        '0'
    } else if d == 1 {
        '1'
    } else if d == 2 {
        '2'
    } else if d == 3 {
        '3'
    } else if d == 4 {
        '4'
    } else if d == 5 {
        '5'
    } else if d == 6 {
        '6'
    } else if d == 7 {
        '7'
    } else if d == 8 {
        '8'
    } else {
        '9'
    }
}

/// The digits of `n` in decimal, the most significant first, without
/// leading zeros.
pub open spec fn digits(n: nat) -> Seq<char>
    decreases n,
{
    if n < 10 {
        seq![digit(n as int)]
    } else {
        digits(n / 10).push(digit((n % 10) as int))
    }
}

/// `id` in decimal, with a minus sign before it if it is negative.
pub open spec fn decimal_text(id: i32) -> Seq<char> {
    if id < 0 {
        seq!['-'] + digits((-id) as nat)
    } else {
        digits(id as nat)
    }
}

/// The text of one digit.
fn digit_text(d: u32) -> (text: &'static str)
    requires
        d < 10,
    ensures
        text@ == seq![digit(d as int)],
{
    proof {
        reveal_strlit("0");
        reveal_strlit("1");
        reveal_strlit("2");
        reveal_strlit("3");
        reveal_strlit("4");
        reveal_strlit("5");
        reveal_strlit("6");
        reveal_strlit("7");
        reveal_strlit("8");
        reveal_strlit("9");
    }
    let text = match d {
        0 => "0",
        1 => "1",
        2 => "2",
        3 => "3",
        4 => "4",
        5 => "5",
        6 => "6",
        7 => "7",
        8 => "8",
        _ => "9",
    };
    assert(text@ =~= seq![digit(d as int)]);
    text
}

/// Writes `id` in decimal.
pub fn to_decimal(id: i32) -> (text: String)
    ensures
        text@ == decimal_text(id),
{
    let magnitude: u32 = if id < 0 {
        (-(id as i64)) as u32
    } else {
        id as u32
    };
    let mut rest: u32 = magnitude / 10;
    let mut text: String = digit_text(magnitude % 10).to_owned();
    assert(digits(magnitude as nat) =~= (if rest > 0 {
        digits(rest as nat)
    } else {
        Seq::empty()
    }) + text@);
    while rest > 0
        invariant
            digits(magnitude as nat) == (if rest > 0 {
                digits(rest as nat)
            } else {
                Seq::empty()
            }) + text@,
        decreases rest,
    {
        let ghost shorter = text@;
        let mut longer: String = digit_text(rest % 10).to_owned();
        push_str(&mut longer, text.as_str());
        text = longer;
        assert(digits(rest as nat) + shorter =~= (if rest / 10 > 0 {
            digits((rest / 10) as nat)
        } else {
            Seq::empty()
        }) + text@);
        rest = rest / 10;
    }
    assert(text@ =~= digits(magnitude as nat));
    if id < 0 {
        proof {
            reveal_strlit("-");
        }
        let mut signed: String = "-".to_owned();
        push_str(&mut signed, text.as_str());
        assert(signed@ =~= decimal_text(id));
        signed
    } else {
        text
    }
}

/// The text that stands for the sender of a message whose sender is unknown.
pub const NO_SENDER: &'static str = "-1145141919810";

/// The identifier of the sender of `message` as decimal text, or [`NO_SENDER`]
/// where the sender is unknown.
pub open spec fn sender_text(message: Message) -> Seq<char> {
    match message.sender {
        Some(chat) => decimal_text(chat.spec_id()),
        None => NO_SENDER@,
    }
}

/// Get the sender's identifier of this message, as text.
///
/// If the sender is unknown, the result is [`NO_SENDER`].
pub fn get_sender(message: &Message) -> (text: String)
    ensures
        text@ == sender_text(*message),
{
    match &message.sender {
        Some(chat) => to_decimal(chat.id()),
        None => NO_SENDER.to_owned(),
    }
}

/// Tells whether the sender of `message` is the user that `root_user` names by
/// its identifier in decimal.
pub fn is_root_user(message: &Message, root_user: &str) -> (root: bool)
    ensures
        root == (sender_text(*message) == root_user@),
{
    let sender = get_sender(message);
    same_text(&sender, root_user)
}

} // verus!

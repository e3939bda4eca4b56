use vstd::prelude::*;
use crate::text::{is_whitespace, matches_at, spec_is_whitespace, spec_matches_at};

verus! {

/// Where `pattern` first stands in `text` at or after `from`.
pub open spec fn spec_find_from(text: Seq<char>, pattern: Seq<char>, from: int) -> Option<int>
    decreases text.len() - from + 1,
{
    if from < 0 || from + pattern.len() > text.len() {
        None
    } else if spec_matches_at(text, from, pattern) {
        Some(from)
    } else {
        spec_find_from(text, pattern, from + 1)
    }
}

/// Where `pattern` first stands in `text`.
pub open spec fn spec_find(text: Seq<char>, pattern: Seq<char>) -> Option<int> {
    spec_find_from(text, pattern, 0)
}

pub fn find(text: &str, pattern: &str) -> (found: Option<usize>)
    ensures
        match found {
            Some(at) => spec_find(text@, pattern@) == Some(at as int),
            None => spec_find(text@, pattern@) is None,
        },
{
    let len: usize = text.unicode_len();
    let want: usize = pattern.unicode_len();
    if want > len {
        return None;
    }
    let last: usize = len - want;
    let mut i: usize = 0;
    while i < last
        invariant
            0 <= i <= last,
            last == len - want,
            len == text@.len(),
            want == pattern@.len(),
            spec_find(text@, pattern@) == spec_find_from(text@, pattern@, i as int),
        decreases last - i,
    {
        if matches_at(text, i, pattern) {
            return Some(i);
        }
        i += 1;
    }
    if matches_at(text, last, pattern) {
        Some(last)
    } else {
        assert(spec_find_from(text@, pattern@, last + 1) is None);
        None
    }
}

/// Where the line that holds the place `from` ends: at the next line feed,
/// or at the end of `text`.
pub open spec fn spec_line_end(text: Seq<char>, from: int) -> int
    decreases text.len() - from,
{
    if from < 0 || from >= text.len() {
        text.len() as int
    } else if text[from] == '\n' {
        from
    } else {
        spec_line_end(text, from + 1)
    }
}

/// The last word of `text`: what follows its last white space. It is empty
/// where `text` ends in white space.
pub open spec fn spec_last_word(text: Seq<char>) -> Seq<char>
    decreases text.len(),
{
    if text.len() == 0 || spec_is_whitespace(text.last()) {
        Seq::empty()
    } else {
        spec_last_word(text.drop_last()).push(text.last())
    }
}

/// `text` without the white space at its end.
pub open spec fn spec_trim_end(text: Seq<char>) -> Seq<char>
    decreases text.len(),
{
    if text.len() > 0 && spec_is_whitespace(text.last()) {
        spec_trim_end(text.drop_last())
    } else {
        text
    }
}

/// The value of a decimal digit; none for any other character.
pub open spec fn spec_digit(c: char) -> Option<nat> {
    let code = c as u32;
    if 0x30 <= code <= 0x39 {
        Some((code - 0x30) as nat)
    } else {
        None
    }
}

/// The number that `text` writes in decimal digits; none where `text` is
/// empty or holds anything but digits.
pub open spec fn spec_number(text: Seq<char>) -> Option<nat>
    decreases text.len(),
{
    if text.len() == 0 {
        None
    } else if text.len() == 1 {
        spec_digit(text[0])
    } else {
        match (spec_number(text.drop_last()), spec_digit(text.last())) {
            (Some(head), Some(digit)) => Some(head * 10 + digit),
            _ => None,
        }
    }
}

/// The number written by the last word of the first line of `output` that
/// holds `marker`, read from the marker on; none where there is no such
/// line, or where the word is no number that fits in thirty-two bits.
pub open spec fn spec_number_after(output: Seq<char>, marker: Seq<char>) -> Option<u32> {
    match spec_find(output, marker) {
        Some(at) => {
            let line = output.subrange(at, spec_line_end(output, at));
            match spec_number(spec_last_word(spec_trim_end(line))) {
                Some(value) => if value <= u32::MAX {
                    Some(value as u32)
                } else {
                    None
                },
                None => None,
            }
        },
        None => None,
    }
}

/// The place found is one where the pattern stands, within the text.
pub proof fn lemma_find_from(text: Seq<char>, pattern: Seq<char>, from: int)
    requires
        0 <= from,
    ensures
        match spec_find_from(text, pattern, from) {
            Some(at) => from <= at && at + pattern.len() <= text.len() && spec_matches_at(
                text,
                at,
                pattern,
            ),
            None => true,
        },
    decreases text.len() - from + 1,
{
    if from + pattern.len() <= text.len() && !spec_matches_at(text, from, pattern) {
        lemma_find_from(text, pattern, from + 1);
    }
}

fn digit_of(c: char) -> (digit: Option<u64>)
    ensures
        match digit {
            Some(value) => spec_digit(c) == Some(value as nat) && value < 10,
            None => spec_digit(c) is None,
        },
{
    let code: u32 = c as u32;
    if 0x30 <= code && code <= 0x39 {
        Some((code - 0x30) as u64)
    } else {
        None
    }
}

/// Reads the number that the characters `from .. to` of `text` write.
fn number_in(text: &str, from: usize, to: usize) -> (value: Option<u32>)
    requires
        from <= to <= text@.len(),
    ensures
        value == match spec_number(text@.subrange(from as int, to as int)) {
            Some(number) => if number <= u32::MAX {
                Some(number as u32)
            } else {
                None
            },
            None => None,
        },
{
    let ghost word = text@.subrange(from as int, to as int);
    if from == to {
        return None;
    }
    let mut total: u64 = 0;
    let mut i: usize = from;
    let mut overflow = false;
    while i < to
        invariant
            from <= i <= to <= text@.len(),
            word == text@.subrange(from as int, to as int),
            total <= u32::MAX,
            i > from && !overflow ==> spec_number(word.subrange(0, i - from)) == Some(
                total as nat,
            ),
            i == from ==> total == 0 && !overflow,
            overflow ==> i > from && spec_number(word.subrange(0, i - from)) is Some
                && spec_number(word.subrange(0, i - from))->Some_0 > u32::MAX,
        decreases to - i,
    {
        let ghost head = word.subrange(0, i - from);
        let ghost longer = word.subrange(0, i + 1 - from);
        assert(longer.drop_last() =~= head);
        assert(longer.last() == text@[i as int]);
        match digit_of(text.get_char(i)) {
            Some(digit) => {
                if overflow {
                    assert(spec_number(longer) is Some && spec_number(longer)->Some_0
                        > u32::MAX);
                } else {
                    let next: u64 = total * 10 + digit;
                    if next > 0xFFFF_FFFFu64 {
                        overflow = true;
                    } else {
                        total = next;
                    }
                }
            },
            None => {
                proof {
                    lemma_bad_digit(word, i - from);
                }
                return None;
            },
        }
        i += 1;
    }
    assert(word.subrange(0, to - from) =~= word);
    if overflow {
        None
    } else {
        Some(total as u32)
    }
}

/// A text with a character that is no digit writes no number.
proof fn lemma_bad_digit(text: Seq<char>, at: int)
    requires
        0 <= at < text.len(),
        spec_digit(text[at]) is None,
    ensures
        spec_number(text) is None,
    decreases text.len(),
{
    if text.len() > 1 && at < text.len() - 1 {
        lemma_bad_digit(text.drop_last(), at);
    }
}

/// Reads the number written by the last word of the first line of `output`
/// that holds `marker`, the line read from the marker on.
pub fn number_after(output: &str, marker: &str) -> (value: Option<u32>)
    ensures
        value == spec_number_after(output@, marker@),
{
    let len: usize = output.unicode_len();
    proof {
        lemma_find_from(output@, marker@, 0);
    }
    let at: usize = match find(output, marker) {
        Some(at) => at,
        None => {
            return None;
        },
    };
    let mut end: usize = at;
    while end < len && output.get_char(end) != '\n'
        invariant
            at <= end <= len,
            len == output@.len(),
            spec_line_end(output@, at as int) == spec_line_end(output@, end as int),
        decreases len - end,
    {
        end += 1;
    }
    assert(spec_line_end(output@, at as int) == end);
    let ghost line = output@.subrange(at as int, end as int);
    let mut stop: usize = end;
    assert(line.subrange(0, stop - at) =~= line);
    while stop > at && is_whitespace(output.get_char(stop - 1))
        invariant
            at <= stop <= end <= len,
            len == output@.len(),
            line == output@.subrange(at as int, end as int),
            spec_trim_end(line) == spec_trim_end(line.subrange(0, stop - at)),
        decreases stop,
    {
        assert(line.subrange(0, stop - at).drop_last() =~= line.subrange(0, stop - 1 - at));
        assert(line.subrange(0, stop - at).last() == output@[stop - 1]);
        stop -= 1;
    }
    let ghost trimmed = line.subrange(0, stop - at);
    assert(spec_trim_end(line) == trimmed) by {
        if stop > at {
            assert(trimmed.last() == output@[stop - 1]);
        }
    }
    let mut start: usize = stop;
    assert(trimmed.subrange(0, start - at) =~= trimmed);
    assert(output@.subrange(start as int, stop as int) =~= Seq::<char>::empty());
    while start > at && !is_whitespace(output.get_char(start - 1))
        invariant
            at <= start <= stop <= len,
            len == output@.len(),
            trimmed == output@.subrange(at as int, stop as int),
            spec_last_word(trimmed) == spec_last_word(trimmed.subrange(0, start - at))
                + output@.subrange(start as int, stop as int),
        decreases start,
    {
        let ghost head = trimmed.subrange(0, start - at);
        assert(head.drop_last() =~= trimmed.subrange(0, start - 1 - at));
        assert(head.last() == output@[start - 1]);
        assert(spec_last_word(head.drop_last()).push(head.last()) + output@.subrange(
            start as int,
            stop as int,
        ) =~= spec_last_word(head.drop_last()) + output@.subrange(start - 1, stop as int));
        start -= 1;
    }
    assert(spec_last_word(trimmed.subrange(0, start - at)) =~= Seq::<char>::empty()) by {
        if start > at {
            assert(trimmed.subrange(0, start - at).last() == output@[start - 1]);
        }
    }
    assert(spec_last_word(trimmed) =~= output@.subrange(start as int, stop as int));
    assert(trimmed =~= output@.subrange(at as int, stop as int));
    number_in(output, start, stop)
}

} // verus!

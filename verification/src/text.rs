use vstd::prelude::*;
use vstd::string::StringExecFns;

verus! {

/// Whether `c` is white space: a character with the Unicode property
/// White_Space.
pub open spec fn spec_is_whitespace(c: char) -> bool {
    let code = c as u32;
    ||| 0x09 <= code <= 0x0D
    ||| code == 0x20
    ||| code == 0x85
    ||| code == 0xA0
    ||| code == 0x1680
    ||| 0x2000 <= code <= 0x200A
    ||| code == 0x2028
    ||| code == 0x2029
    ||| code == 0x202F
    ||| code == 0x205F
    ||| code == 0x3000
}

#[verifier::when_used_as_spec(spec_is_whitespace)]
pub fn is_whitespace(c: char) -> (white: bool)
    ensures
        white == spec_is_whitespace(c),
{
    let code: u32 = c as u32;
    (0x09 <= code && code <= 0x0D) || code == 0x20 || code == 0x85 || code == 0xA0 || code
        == 0x1680 || (0x2000 <= code && code <= 0x200A) || code == 0x2028 || code == 0x2029
        || code == 0x202F || code == 0x205F || code == 0x3000
}

/// Whether `text` holds nothing but white space; the empty text does.
pub open spec fn spec_is_blank(text: Seq<char>) -> bool {
    forall|i: int| 0 <= i < text.len() ==> spec_is_whitespace(#[trigger] text[i])
}

pub fn is_blank(text: &str) -> (blank: bool)
    ensures
        blank == spec_is_blank(text@),
{
    let len: usize = text.unicode_len();
    let mut i: usize = 0;
    while i < len
        invariant
            0 <= i <= len,
            len == text@.len(),
            forall|k: int| 0 <= k < i ==> spec_is_whitespace(#[trigger] text@[k]),
        decreases len - i,
    {
        if !is_whitespace(text.get_char(i)) {
            return false;
        }
        i += 1;
    }
    true
}

/// Whether `text` begins with `prefix`.
pub open spec fn spec_starts_with(text: Seq<char>, prefix: Seq<char>) -> bool {
    prefix.len() <= text.len() && text.subrange(0, prefix.len() as int) == prefix
}

pub fn starts_with(text: &str, prefix: &str) -> (found: bool)
    ensures
        found == spec_starts_with(text@, prefix@),
{
    let len: usize = text.unicode_len();
    let want: usize = prefix.unicode_len();
    if want > len {
        return false;
    }
    let mut i: usize = 0;
    while i < want
        invariant
            0 <= i <= want <= len,
            len == text@.len(),
            want == prefix@.len(),
            forall|k: int| 0 <= k < i ==> text@[k] == prefix@[k],
        decreases want - i,
    {
        if text.get_char(i) != prefix.get_char(i) {
            assert(text@.subrange(0, want as int)[i as int] != prefix@[i as int]);
            return false;
        }
        i += 1;
    }
    assert(text@.subrange(0, want as int) =~= prefix@);
    true
}

/// Whether two texts are the same.
pub fn text_eq(left: &str, right: &str) -> (same: bool)
    ensures
        same == (left@ == right@),
{
    let same = left.unicode_len() == right.unicode_len() && starts_with(left, right);
    proof {
        assert(left@.subrange(0, left@.len() as int) =~= left@);
    }
    same
}

/// Whether `text` ends with `suffix`.
pub open spec fn spec_ends_with(text: Seq<char>, suffix: Seq<char>) -> bool {
    suffix.len() <= text.len() && text.subrange(text.len() - suffix.len(), text.len() as int)
        == suffix
}

pub fn ends_with(text: &str, suffix: &str) -> (found: bool)
    ensures
        found == spec_ends_with(text@, suffix@),
{
    let len: usize = text.unicode_len();
    let want: usize = suffix.unicode_len();
    if want > len {
        return false;
    }
    let start: usize = len - want;
    let mut i: usize = 0;
    while i < want
        invariant
            0 <= i <= want <= len,
            start == len - want,
            len == text@.len(),
            want == suffix@.len(),
            forall|k: int| 0 <= k < i ==> text@[start + k] == suffix@[k],
        decreases want - i,
    {
        if text.get_char(start + i) != suffix.get_char(i) {
            assert(text@.subrange(start as int, len as int)[i as int] != suffix@[i as int]);
            return false;
        }
        i += 1;
    }
    assert(text@.subrange(start as int, len as int) =~= suffix@);
    true
}

/// The character of a decimal digit.
pub open spec fn digit_char(digit: nat) -> char
    recommends
        digit < 10,
{
    if digit == 0 {
        '0'
    } else if digit == 1 {
        '1'
    } else if digit == 2 {
        '2'
    } else if digit == 3 {
        '3'
    } else if digit == 4 {
        '4'
    } else if digit == 5 {
        '5'
    } else if digit == 6 {
        '6'
    } else if digit == 7 {
        '7'
    } else if digit == 8 {
        '8'
    } else {
        '9'
    }
}

/// A number written in decimal, without leading zeros.
pub open spec fn spec_decimal(value: nat) -> Seq<char>
    decreases value,
{
    if value < 10 {
        seq![digit_char(value)]
    } else {
        spec_decimal(value / 10).push(digit_char(value % 10))
    }
}

fn digit_text(digit: u32) -> (text: &'static str)
    requires
        digit < 10,
    ensures
        text@ == seq![digit_char(digit as nat)],
{
    proof {
        reveal_strlit("0");
        reveal_strlit("1");
        reveal_strlit("2");
        reveal_strlit("3");
        reveal_strlit("4");
        reveal_strlit("5");
        reveal_strlit("6");
        reveal_strlit("7");
        reveal_strlit("8");
        reveal_strlit("9");
    }
    let text = if digit == 0 {
        "0"
    } else if digit == 1 {
        "1"
    } else if digit == 2 {
        "2"
    } else if digit == 3 {
        "3"
    } else if digit == 4 {
        "4"
    } else if digit == 5 {
        "5"
    } else if digit == 6 {
        "6"
    } else if digit == 7 {
        "7"
    } else if digit == 8 {
        "8"
    } else {
        "9"
    };
    assert(text@ =~= seq![digit_char(digit as nat)]);
    text
}

/// Writes `value` in decimal.
pub fn decimal(value: u32) -> (text: String)
    ensures
        text@ == spec_decimal(value as nat),
    decreases value,
{
    if value < 10 {
        String::from_str(digit_text(value))
    } else {
        let mut text = decimal(value / 10);
        text.append(digit_text(value % 10));
        assert(text@ =~= spec_decimal(value as nat));
        text
    }
}

/// Where the last `mark` stands in `text`; none where there is no `mark`.
pub open spec fn spec_last_index_of(text: Seq<char>, mark: char) -> Option<int>
    decreases text.len(),
{
    if text.len() == 0 {
        None
    } else if text.last() == mark {
        Some(text.len() - 1)
    } else {
        spec_last_index_of(text.drop_last(), mark)
    }
}

/// The last `mark` of `text` is a `mark`, and none follows it.
pub proof fn lemma_last_index_of(text: Seq<char>, mark: char)
    ensures
        match spec_last_index_of(text, mark) {
            Some(at) => {
                &&& 0 <= at < text.len()
                &&& text[at] == mark
                &&& forall|k: int| at < k < text.len() ==> text[k] != mark
            },
            None => forall|k: int| 0 <= k < text.len() ==> text[k] != mark,
        },
    decreases text.len(),
{
    if text.len() > 0 && text.last() != mark {
        let head = text.drop_last();
        lemma_last_index_of(head, mark);
        assert forall|k: int| 0 <= k < head.len() implies head[k] == text[k] by {}
    }
}

pub fn last_index_of(text: &str, mark: char) -> (found: Option<usize>)
    ensures
        match found {
            Some(at) => spec_last_index_of(text@, mark) == Some(at as int),
            None => spec_last_index_of(text@, mark) is None,
        },
{
    let len: usize = text.unicode_len();
    let mut end: usize = len;
    assert(text@.subrange(0, len as int) =~= text@);
    while end > 0
        invariant
            0 <= end <= len,
            len == text@.len(),
            spec_last_index_of(text@, mark) == spec_last_index_of(
                text@.subrange(0, end as int),
                mark,
            ),
        decreases end,
    {
        let ghost head = text@.subrange(0, end as int);
        if text.get_char(end - 1) == mark {
            assert(head.last() == mark);
            return Some(end - 1);
        }
        assert(head.drop_last() =~= text@.subrange(0, end - 1));
        end -= 1;
    }
    assert(text@.subrange(0, 0).len() == 0);
    None
}

/// What follows the last `mark` of `text`: all of `text` where there is no
/// `mark`.
pub open spec fn spec_after_last(text: Seq<char>, mark: char) -> Seq<char> {
    match spec_last_index_of(text, mark) {
        Some(at) => text.subrange(at + 1, text.len() as int),
        None => text,
    }
}

pub fn after_last<'a>(text: &'a str, mark: char) -> (tail: &'a str)
    ensures
        tail@ == spec_after_last(text@, mark),
{
    proof {
        lemma_last_index_of(text@, mark);
    }
    let len: usize = text.unicode_len();
    match last_index_of(text, mark) {
        Some(at) => text.substring_char(at + 1, len),
        None => text,
    }
}

/// The number of white-space characters that `text` begins with.
pub open spec fn leading_space(text: Seq<char>) -> nat
    decreases text.len(),
{
    if text.len() > 0 && spec_is_whitespace(text[0]) {
        1 + leading_space(text.drop_first())
    } else {
        0
    }
}

/// The number of white-space characters that `text` ends with.
pub open spec fn trailing_space(text: Seq<char>) -> nat
    decreases text.len(),
{
    if text.len() > 0 && spec_is_whitespace(text.last()) {
        1 + trailing_space(text.drop_last())
    } else {
        0
    }
}

/// `text` without the white space at its beginning and at its end.
pub open spec fn spec_trim(text: Seq<char>) -> Seq<char> {
    let rest = text.subrange(leading_space(text) as int, text.len() as int);
    rest.subrange(0, rest.len() - trailing_space(rest))
}

pub fn trim<'a>(text: &'a str) -> (trimmed: &'a str)
    ensures
        trimmed@ == spec_trim(text@),
{
    let len: usize = text.unicode_len();
    let mut start: usize = 0;
    assert(text@.subrange(0, len as int) =~= text@);
    while start < len && is_whitespace(text.get_char(start))
        invariant
            0 <= start <= len,
            len == text@.len(),
            leading_space(text@) == start + leading_space(text@.subrange(start as int, len as int)),
        decreases len - start,
    {
        assert(text@.subrange(start as int, len as int).drop_first() =~= text@.subrange(
            start + 1,
            len as int,
        ));
        start += 1;
    }
    let ghost rest = text@.subrange(start as int, len as int);
    assert(leading_space(rest) == 0);
    let mut end: usize = len;
    assert(rest.subrange(0, end - start) =~= rest);
    while end > start && is_whitespace(text.get_char(end - 1))
        invariant
            start <= end <= len,
            len == text@.len(),
            rest == text@.subrange(start as int, len as int),
            trailing_space(rest) == (len - end) + trailing_space(rest.subrange(0, end - start)),
        decreases end,
    {
        assert(rest.subrange(0, end - start).drop_last() =~= rest.subrange(0, end - 1 - start));
        assert(rest.subrange(0, end - start).last() == text@[end - 1]);
        end -= 1;
    }
    assert(trailing_space(rest.subrange(0, end - start)) == 0) by {
        if end > start {
            assert(rest.subrange(0, end - start).last() == text@[end - 1]);
        }
    }
    assert(text@.subrange(start as int, end as int) =~= rest.subrange(
        0,
        rest.len() - trailing_space(rest),
    ));
    text.substring_char(start, end)
}

/// Whether `pattern` stands in `text` at the place `at`.
pub open spec fn spec_matches_at(text: Seq<char>, at: int, pattern: Seq<char>) -> bool {
    0 <= at && at + pattern.len() <= text.len() && text.subrange(at, at + pattern.len())
        == pattern
}

pub fn matches_at(text: &str, at: usize, pattern: &str) -> (found: bool)
    ensures
        found == spec_matches_at(text@, at as int, pattern@),
{
    let len: usize = text.unicode_len();
    let want: usize = pattern.unicode_len();
    if at > len || want > len - at {
        return false;
    }
    let mut i: usize = 0;
    while i < want
        invariant
            0 <= i <= want,
            at + want <= len,
            len == text@.len(),
            want == pattern@.len(),
            forall|k: int| 0 <= k < i ==> text@[at + k] == pattern@[k],
        decreases want - i,
    {
        if text.get_char(at + i) != pattern.get_char(i) {
            assert(text@.subrange(at as int, at + want)[i as int] != pattern@[i as int]);
            return false;
        }
        i += 1;
    }
    assert(text@.subrange(at as int, at + want) =~= pattern@);
    true
}

/// `text` with every `from` replaced by `to`, the occurrences taken from the
/// left and none overlapping another.
pub open spec fn spec_replace_all(text: Seq<char>, from: Seq<char>, to: Seq<char>) -> Seq<char>
    recommends
        from.len() > 0,
    decreases text.len(),
{
    if from.len() == 0 || text.len() < from.len() {
        text
    } else if text.subrange(0, from.len() as int) == from {
        to + spec_replace_all(text.subrange(from.len() as int, text.len() as int), from, to)
    } else {
        seq![text[0]] + spec_replace_all(text.subrange(1, text.len() as int), from, to)
    }
}

/// Replaces every `from` in `text` by `to`.
pub(crate) fn replace_all(text: &str, from: &str, to: &str) -> (replaced: String)
    requires
        from@.len() > 0,
    ensures
        replaced@ == spec_replace_all(text@, from@, to@),
{
    let len: usize = text.unicode_len();
    let want: usize = from.unicode_len();
    let mut replaced = String::new();
    let mut i: usize = 0;
    assert(text@.subrange(0, len as int) =~= text@);
    while i < len && want <= len - i
        invariant
            0 <= i <= len,
            len == text@.len(),
            want == from@.len(),
            want > 0,
            replaced@ + spec_replace_all(text@.subrange(i as int, len as int), from@, to@)
                == spec_replace_all(text@, from@, to@),
        decreases len - i,
    {
        let ghost rest = text@.subrange(i as int, len as int);
        let ghost before = replaced@;
        if matches_at(text, i, from) {
            assert(rest.subrange(0, want as int) =~= text@.subrange(i as int, i + want));
            assert(rest.subrange(want as int, rest.len() as int) =~= text@.subrange(
                i + want,
                len as int,
            ));
            replaced.append(to);
            i += want;
            assert(replaced@ + spec_replace_all(text@.subrange(i as int, len as int), from@, to@)
                =~= before + spec_replace_all(rest, from@, to@));
        } else {
            assert(rest.subrange(0, want as int) =~= text@.subrange(i as int, i + want));
            assert(rest.subrange(1, rest.len() as int) =~= text@.subrange(i + 1, len as int));
            let one = text.substring_char(i, i + 1);
            assert(one@ =~= seq![rest[0]]);
            replaced.append(one);
            i += 1;
            assert(replaced@ + spec_replace_all(text@.subrange(i as int, len as int), from@, to@)
                =~= before + spec_replace_all(rest, from@, to@));
        }
    }
    let tail = text.substring_char(i, len);
    replaced.append(tail);
    replaced
}

} // verus!

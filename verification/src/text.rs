//! Text: joining, trimming, blank lines and decimal numerals.
use vstd::prelude::*;

verus! {

/// `parts` one after the other, with `separator` between any two neighbours.
pub open spec fn joined(parts: Seq<Seq<char>>, separator: Seq<char>) -> Seq<char>
    decreases parts.len(),
{
    if parts.len() == 0 {
        Seq::empty()
    } else if parts.len() == 1 {
        parts[0]
    } else {
        joined(parts.drop_last(), separator) + (separator + parts.last())
    }
}

/// Joins `parts` with `separator` between any two neighbours.
pub fn join(parts: &Vec<String>, separator: &str) -> (text: String)
    ensures
        text@ == joined(parts.deep_view(), separator@),
{
    let mut text = String::new();
    let ghost all = parts.deep_view();
    let mut i: usize = 0;
    while i < parts.len()
        invariant
            all == parts.deep_view(),
            i <= parts.len(),
            text@ == joined(all.take(i as int), separator@),
        decreases parts.len() - i,
    {
        if i > 0 {
            text.append(separator);
        }
        text.append(parts[i].as_str());
        assert(all.take(i + 1).drop_last() == all.take(i as int));
        assert(text@ == joined(all.take(i + 1), separator@));
        i = i + 1;
    }
    assert(all.take(i as int) == all);
    text
}

/// `path` without the slashes it starts with.
pub open spec fn without_leading_slashes(path: Seq<char>) -> Seq<char>
    decreases path.len(),
{
    if path.len() > 0 && path[0] == '/' {
        without_leading_slashes(path.drop_first())
    } else {
        path
    }
}

/// Drops every slash that `path` starts with.
pub fn trim_leading_slashes(path: &str) -> (rest: &str)
    ensures
        rest@ == without_leading_slashes(path@),
{
    let length: usize = path.unicode_len();
    let mut start: usize = 0;
    assert(path@.skip(0) == path@);
    while start < length && path.get_char(start) == '/'
        invariant
            length == path@.len(),
            start <= length,
            without_leading_slashes(path@) == without_leading_slashes(path@.skip(start as int)),
        decreases length - start,
    {
        assert(path@.skip(start as int).drop_first() == path@.skip(start + 1));
        start = start + 1;
    }
    assert(path@.subrange(start as int, length as int) == path@.skip(start as int));
    path.substring_char(start, length)
}

/// The characters of the Unicode property `White_Space`.
pub open spec fn is_white_space(c: char) -> bool {
    let n = c as u32;
    ||| 0x9 <= n <= 0xd
    ||| n == 0x20
    ||| n == 0x85
    ||| n == 0xa0
    ||| n == 0x1680
    ||| 0x2000 <= n <= 0x200a
    ||| n == 0x2028
    ||| n == 0x2029
    ||| n == 0x202f
    ||| n == 0x205f
    ||| n == 0x3000
}

/// Text that holds nothing but white space.
pub open spec fn is_blank_text(text: Seq<char>) -> bool {
    forall|i: int| 0 <= i < text.len() ==> is_white_space(#[trigger] text[i])
}

/// Tells whether nothing is left of `text` once white space is trimmed.
pub fn is_blank(text: &str) -> (blank: bool)
    ensures
        blank == is_blank_text(text@),
{
    for c in it: text.chars()
        invariant
            it.seq() == text@,
            forall|i: int| 0 <= i < it.index() ==> is_white_space(#[trigger] text@[i]),
    {
        let n: u32 = c as u32;
        let white: bool = (0x9 <= n && n <= 0xd) || n == 0x20 || n == 0x85 || n == 0xa0
            || n == 0x1680 || (0x2000 <= n && n <= 0x200a) || n == 0x2028 || n == 0x2029
            || n == 0x202f || n == 0x205f || n == 0x3000;
        if !white {
            assert(text@[it.index()] == c);
            return false;
        }
    }
    true
}

/// The text that `{:?}` shows for a string slice that holds `text`: a quoted string with escapes.
pub uninterp spec fn quoted(text: Seq<char>) -> Seq<char>;

/// Formats `text` with `<str as std::fmt::Debug>::fmt`.
///
/// Nothing is claimed of the quoted form but that the same text always gets the same one.
#[verifier::external_body]
pub(crate) fn quote(text: &str) -> (shown: String)
    ensures
        shown@ == quoted(text@),
{
    format!("{:?}", text)
}

/// The decimal digit for `n`.
pub open spec fn digit(n: nat) -> char {
    ('0' as u32 + n) as char
}

/// The decimal numeral of `n`, without leading zeros.
pub open spec fn numeral(n: nat) -> Seq<char>
    decreases n,
{
    if n < 10 {
        seq![digit(n)]
    } else {
        numeral(n / 10).push(digit(n % 10))
    }
}

/// The numeral of a single digit.
fn write_digit(n: usize) -> (text: &'static str)
    requires
        n < 10,
    ensures
        text@ == seq![digit(n as nat)],
{
    proof {
        reveal_strlit("0");
        reveal_strlit("1");
        reveal_strlit("2");
        reveal_strlit("3");
        reveal_strlit("4");
        reveal_strlit("5");
        reveal_strlit("6");
        reveal_strlit("7");
        reveal_strlit("8");
        reveal_strlit("9");
    }
    match n {
        0 => "0",
        1 => "1",
        2 => "2",
        3 => "3",
        4 => "4",
        5 => "5",
        6 => "6",
        7 => "7",
        8 => "8",
        _ => "9",
    }
}

/// Writes `n` as a decimal numeral.
pub fn write_numeral(n: usize) -> (text: String)
    ensures
        text@ == numeral(n as nat),
    decreases n,
{
    if n < 10 {
        String::from_str(write_digit(n))
    } else {
        let mut text = write_numeral(n / 10);
        text.append(write_digit(n % 10));
        text
    }
}

} // verus!

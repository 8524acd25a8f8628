//! Laws of text.
use vstd::prelude::*;

verus! {

/// White space: tab to carriage return, the space, and what Unicode adds to them.
pub open spec fn is_space(c: char) -> bool {
    let n = c as u32;
    ||| 9 <= n <= 13
    ||| n == 32
    ||| n == 133
    ||| n == 160
    ||| n == 5760
    ||| 8192 <= n <= 8202
    ||| n == 8232
    ||| n == 8233
    ||| n == 8239
    ||| n == 8287
    ||| n == 12288
}

/// Text is blank where it holds nothing but white space.
pub proof fn blank_is_all_space(text: &str, blank: bool)
    requires
        call_ensures(crate::text::is_blank, (text,), blank),
    ensures
        blank <==> forall|i: int| 0 <= i < text@.len() ==> is_space(#[trigger] text@[i]),
{
    assert forall|i: int| 0 <= i < text@.len() implies is_space(#[trigger] text@[i])
        == crate::text::is_white_space(text@[i]) by {}
}

/// Nothing joins to nothing, and one part to itself.
pub proof fn few_parts_join_to_themselves(separator: Seq<char>, part: Seq<char>)
    ensures
        crate::text::joined(Seq::empty(), separator) == Seq::<char>::empty(),
        crate::text::joined(seq![part], separator) == part,
{
}

/// One more part is joined behind the others, with the separator between them.
pub proof fn join_goes_on(parts: Seq<Seq<char>>, separator: Seq<char>, next: Seq<char>)
    requires
        parts.len() > 0,
    ensures
        crate::text::joined(parts.push(next), separator) == crate::text::joined(parts, separator)
            + separator + next,
{
    assert(parts.push(next).drop_last() =~= parts);
    assert(crate::text::joined(parts, separator) + (separator + next) =~= crate::text::joined(
        parts,
        separator,
    ) + separator + next);
}

/// Text is joined part by part.
pub proof fn texts_are_joined(parts: Vec<String>, separator: &str, text: String)
    requires
        call_ensures(crate::text::join, (&parts, separator), text),
    ensures
        text@ == crate::text::joined(
            parts@.map_values(|part: String| part@),
            separator@,
        ),
{
    assert(parts.deep_view() =~= parts@.map_values(|part: String| part@));
}

/// What is left of a path is all of it behind the slashes that it starts with.
pub proof fn only_leading_slashes_are_trimmed(path: &str, rest: &str)
    requires
        call_ensures(crate::text::trim_leading_slashes, (path,), rest),
    ensures
        rest@.len() <= path@.len(),
        rest@ == path@.skip(path@.len() - rest@.len()),
        forall|i: int| 0 <= i < path@.len() - rest@.len() ==> #[trigger] path@[i] == '/',
        rest@.len() > 0 ==> rest@[0] != '/',
{
    lemma_trimmed(path@);
}

/// What is left of a path is all of it behind the slashes that it starts with.
pub proof fn lemma_trimmed(path: Seq<char>)
    ensures
        ({
            let rest = crate::text::without_leading_slashes(path);
            &&& rest.len() <= path.len()
            &&& rest == path.skip(path.len() - rest.len())
            &&& forall|i: int| 0 <= i < path.len() - rest.len() ==> #[trigger] path[i] == '/'
            &&& rest.len() > 0 ==> rest[0] != '/'
        }),
    decreases path.len(),
{
    let rest = crate::text::without_leading_slashes(path);
    if path.len() > 0 && path[0] == '/' {
        let shorter = path.drop_first();
        lemma_trimmed(shorter);
        assert(rest =~= path.skip(path.len() - rest.len()));
        assert forall|i: int| 0 <= i < path.len() - rest.len() implies #[trigger] path[i]
            == '/' by {
            if i > 0 {
                assert(shorter[i - 1] == '/');
            }
        }
    } else {
        assert(path.skip(0) =~= path);
    }
}

/// The number that decimal digits spell.
pub open spec fn spelled(digits: Seq<char>) -> int
    decreases digits.len(),
{
    if digits.len() == 0 {
        0
    } else {
        10 * spelled(digits.drop_last()) + (digits.last() as int - '0' as int)
    }
}

/// A numeral is made of decimal digits that spell its number, without a zero in front.
pub proof fn numeral_spells_its_number(n: usize, text: String)
    requires
        call_ensures(crate::text::write_numeral, (n,), text),
    ensures
        spelled(text@) == n,
        text@.len() > 0,
        forall|i: int| 0 <= i < text@.len() ==> '0' <= (#[trigger] text@[i]) <= '9',
        text@.len() > 1 ==> text@[0] != '0',
{
    lemma_numeral(n as nat);
}

/// A numeral is made of decimal digits that spell its number, without a zero in front.
pub proof fn lemma_numeral(n: nat)
    ensures
        ({
            let text = crate::text::numeral(n);
            &&& spelled(text) == n
            &&& text.len() > 0
            &&& forall|i: int| 0 <= i < text.len() ==> '0' <= (#[trigger] text[i]) <= '9'
            &&& text.len() > 1 ==> text[0] != '0'
            &&& n > 0 ==> text[0] != '0'
        }),
    decreases n,
{
    let text = crate::text::numeral(n);
    if n < 10 {
        assert(text.drop_last() =~= Seq::<char>::empty());
        assert(spelled(text.drop_last()) == 0);
    } else {
        lemma_numeral(n / 10);
        assert(text.drop_last() =~= crate::text::numeral(n / 10));
    }
}

/// A count of tokens is shown with both of its numbers.
pub proof fn both_counts_are_shown(
    usage: crate::response::Usage,
    shown: String,
    prompt: String,
    total: String,
)
    requires
        call_ensures(crate::response::Usage::display, (&usage,), shown),
        call_ensures(crate::text::write_numeral, (usage.prompt_tokens,), prompt),
        call_ensures(crate::text::write_numeral, (usage.total_tokens,), total),
    ensures
        shown@ == "Prompt tokens: "@ + prompt@ + " Total tokens: "@ + total@,
{
}

} // verus!

//! Text handling: the characters of a line and the trimming of surrounding
//! white space.

use vstd::prelude::*;

verus! {

/// Whether `c` counts as white space. This is the answer of
/// `char::is_whitespace`, which goes by the Unicode property `White_Space`;
/// nothing more is known of it here.
pub uninterp spec fn white_space(c: char) -> bool;

/// Calls `char::is_whitespace`. Trusted: the result is what the name
/// `white_space` stands for, so the same character always gets the same answer.
#[verifier::external_body]
fn is_whitespace(c: char) -> (white: bool)
    ensures
        white == white_space(c),
{
    c.is_whitespace()
}

/// How many white-space characters `s` begins with.
pub open spec fn leading_space(s: Seq<char>) -> nat
    decreases s.len(),
{
    if s.len() == 0 || !white_space(s.first()) {
        0
    } else {
        1 + leading_space(s.drop_first())
    }
}

/// How many white-space characters `s` ends with.
pub open spec fn trailing_space(s: Seq<char>) -> nat
    decreases s.len(),
{
    if s.len() == 0 || !white_space(s.last()) {
        0
    } else {
        1 + trailing_space(s.drop_last())
    }
}

/// `s` without the white space it begins and ends with.
pub open spec fn trimmed(s: Seq<char>) -> Seq<char> {
    let rest = s.skip(leading_space(s) as int);
    rest.take(rest.len() - trailing_space(rest))
}

/// A run of white space at the front of `s` that stops at position `k` is
/// all the white space `s` begins with.
pub proof fn lemma_leading_space(s: Seq<char>, k: int)
    requires
        0 <= k <= s.len(),
        forall|i: int| 0 <= i < k ==> white_space(#[trigger] s[i]),
        k < s.len() ==> !white_space(s[k]),
    ensures
        leading_space(s) == k,
    decreases k,
{
    if k > 0 {
        let rest = s.drop_first();
        assert forall|i: int| 0 <= i < k - 1 implies white_space(#[trigger] rest[i]) by {
            assert(rest[i] == s[i + 1]);
        }
        if k < s.len() {
            assert(rest[k - 1] == s[k]);
        }
        lemma_leading_space(rest, k - 1);
    }
}

/// A run of white space at the back of `s` that starts at position `k` is
/// all the white space `s` ends with.
pub proof fn lemma_trailing_space(s: Seq<char>, k: int)
    requires
        0 <= k <= s.len(),
        forall|i: int| k <= i < s.len() ==> white_space(#[trigger] s[i]),
        k > 0 ==> !white_space(s[k - 1]),
    ensures
        trailing_space(s) == s.len() - k,
    decreases s.len() - k,
{
    if k < s.len() {
        let rest = s.drop_last();
        assert forall|i: int| k <= i < rest.len() implies white_space(#[trigger] rest[i]) by {
            assert(rest[i] == s[i]);
        }
        if k > 0 {
            assert(rest[k - 1] == s[k - 1]);
        }
        lemma_trailing_space(rest, k);
    }
}

/// What trimming keeps is one stretch of `s`; all that it drops is white
/// space, and what is left neither begins nor ends with white space.
pub proof fn lemma_trimmed_is_tight(s: Seq<char>)
    ensures
        ({
            let t = trimmed(s);
            let start = leading_space(s) as int;
            &&& start + t.len() <= s.len()
            &&& t == s.subrange(start, start + t.len())
            &&& forall|i: int| 0 <= i < start ==> white_space(#[trigger] s[i])
            &&& forall|i: int| start + t.len() <= i < s.len() ==> white_space(#[trigger] s[i])
            &&& t.len() > 0 ==> !white_space(t.first()) && !white_space(t.last())
        }),
{
    lemma_leading_space_bounds(s);
    let start = leading_space(s) as int;
    let rest = s.skip(start);
    lemma_trailing_space_bounds(rest);
    let t = trimmed(s);
    assert(t =~= s.subrange(start, start + t.len()));
    assert forall|i: int| start + t.len() <= i < s.len() implies white_space(#[trigger] s[i]) by {
        assert(s[i] == rest[i - start]);
    }
    if t.len() > 0 {
        assert(t.first() == s[start]);
        assert(t.last() == rest[t.len() - 1]);
    }
}

/// The white space counted at the front of `s` lies within `s`, is white
/// space throughout, and ends at the end of `s` or before a character that
/// is not white space.
pub proof fn lemma_leading_space_bounds(s: Seq<char>)
    ensures
        leading_space(s) <= s.len(),
        forall|i: int| 0 <= i < leading_space(s) ==> white_space(#[trigger] s[i]),
        leading_space(s) < s.len() ==> !white_space(s[leading_space(s) as int]),
    decreases s.len(),
{
    if s.len() > 0 && white_space(s.first()) {
        let rest = s.drop_first();
        lemma_leading_space_bounds(rest);
        assert forall|i: int| 0 <= i < leading_space(s) implies white_space(#[trigger] s[i]) by {
            if i > 0 {
                assert(s[i] == rest[i - 1]);
            }
        }
        if leading_space(s) < s.len() {
            assert(s[leading_space(s) as int] == rest[leading_space(rest) as int]);
        }
    }
}

/// The white space counted at the back of `s` lies within `s`, is white
/// space throughout, and begins at the start of `s` or after a character
/// that is not white space.
pub proof fn lemma_trailing_space_bounds(s: Seq<char>)
    ensures
        trailing_space(s) <= s.len(),
        forall|i: int| s.len() - trailing_space(s) <= i < s.len() ==> white_space(#[trigger] s[i]),
        trailing_space(s) < s.len() ==> !white_space(s[s.len() - trailing_space(s) - 1]),
    decreases s.len(),
{
    if s.len() > 0 && white_space(s.last()) {
        let rest = s.drop_last();
        lemma_trailing_space_bounds(rest);
        assert forall|i: int| s.len() - trailing_space(s) <= i < s.len() implies white_space(
            #[trigger] s[i],
        ) by {
            if i < s.len() - 1 {
                assert(s[i] == rest[i]);
            }
        }
        if trailing_space(s) < s.len() {
            assert(s[s.len() - trailing_space(s) - 1] == rest[rest.len() - trailing_space(rest) - 1]);
        }
    }
}

/// The characters of `text`, in order.
pub fn chars_of(text: &str) -> (chars: Vec<char>)
    ensures
        chars@ == text@,
{
    let mut chars: Vec<char> = Vec::new();
    for c in it: text.chars()
        invariant
            chars@ == it.seq().take(it.index() as int),
            it.seq() == text@,
    {
        chars.push(c);
    }
    chars
}

/// `text` without the white space around it.
pub fn trim<'a>(text: &'a str) -> (kept: &'a str)
    ensures
        kept@ == trimmed(text@),
{
    let chars = chars_of(text);
    let n: usize = chars.len();
    let mut start: usize = 0;
    while start < n && is_whitespace(chars[start])
        invariant
            start <= n,
            n == chars@.len(),
            forall|i: int| 0 <= i < start ==> white_space(#[trigger] chars@[i]),
        decreases n - start,
    {
        start += 1;
    }
    let mut end: usize = n;
    while end > start && is_whitespace(chars[end - 1])
        invariant
            start <= end <= n,
            n == chars@.len(),
            forall|i: int| end <= i < n ==> white_space(#[trigger] chars@[i]),
        decreases end,
    {
        end -= 1;
    }
    proof {
        let s = text@;
        lemma_leading_space(s, start as int);
        let rest = s.skip(start as int);
        assert forall|i: int| end - start <= i < rest.len() implies white_space(
            #[trigger] rest[i],
        ) by {
            assert(rest[i] == s[i + start]);
        }
        if end > start {
            assert(rest[end - start - 1] == s[end - 1]);
        }
        lemma_trailing_space(rest, end - start);
        assert(trimmed(s) =~= s.subrange(start as int, end as int));
    }
    text.substring_char(start, end)
}

} // verus!

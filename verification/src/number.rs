//! Numbers as text: reading a decimal numeral and writing one.

use vstd::prelude::*;
use vstd::string::StringExecFns;
use crate::text::chars_of;

verus! {

/// The ten decimal digits, in order of their value.
pub open spec fn digit_chars() -> Seq<char> {
    seq!['0', '1', '2', '3', '4', '5', '6', '7', '8', '9']
}

/// Whether `c` is one of the digits `0` to `9`.
pub open spec fn is_digit(c: char) -> bool {
    '0' as u32 <= c as u32 <= '9' as u32
}

/// The value of the digit `c`.
pub open spec fn digit_value(c: char) -> nat {
    (c as u32 - '0' as u32) as nat
}

/// The digit whose value is `d`.
pub open spec fn digit_char(d: int) -> char {
    digit_chars()[d]
}

/// Whether `s` holds digits only.
pub open spec fn all_digits(s: Seq<char>) -> bool {
    forall|i: int| 0 <= i < s.len() ==> is_digit(#[trigger] s[i])
}

/// The number that the digits `s` spell in base ten; leading zeros count for
/// nothing.
pub open spec fn digits_value(s: Seq<char>) -> nat
    decreases s.len(),
{
    if s.len() == 0 {
        0
    } else {
        digits_value(s.drop_last()) * 10 + digit_value(s.last())
    }
}

/// The number that `s` spells, where `s` is one digit or more and nothing else.
pub open spec fn digits_literal(s: Seq<char>) -> Option<nat> {
    if s.len() > 0 && all_digits(s) {
        Some(digits_value(s))
    } else {
        None
    }
}

/// The number that `s` spells as a numeral without a minus sign: digits,
/// which a single `+` may precede. Anything else, white space too, makes it
/// no numeral.
pub open spec fn unsigned_literal(s: Seq<char>) -> Option<nat> {
    if s.len() > 0 && s.first() == '+' {
        digits_literal(s.drop_first())
    } else {
        digits_literal(s)
    }
}

/// The number that `s` spells as a numeral with or without a sign: digits,
/// which a single `+` or `-` may precede.
pub open spec fn signed_literal(s: Seq<char>) -> Option<int> {
    if s.len() > 0 && s.first() == '-' {
        match digits_literal(s.drop_first()) {
            Some(n) => Some(-(n as int)),
            None => None,
        }
    } else {
        match unsigned_literal(s) {
            Some(n) => Some(n as int),
            None => None,
        }
    }
}

/// The number `value`, if there is one and it is no greater than `limit`.
pub open spec fn within(value: Option<nat>, limit: u64) -> Option<u64> {
    match value {
        Some(n) => if n <= limit {
            Some(n as u64)
        } else {
            None
        },
        None => None,
    }
}

/// The number `value`, if there is one and 32 bits with a sign hold it.
pub open spec fn within_i32(value: Option<int>) -> Option<i32> {
    match value {
        Some(n) => if i32::MIN <= n <= i32::MAX {
            Some(n as i32)
        } else {
            None
        },
        None => None,
    }
}

/// The numeral of `n` in base ten, without leading zeros.
pub open spec fn decimal(n: nat) -> Seq<char>
    decreases n,
{
    if n < 10 {
        seq![digit_char(n as int)]
    } else {
        decimal(n / 10).push(digit_char((n % 10) as int))
    }
}

/// The digits of the front of `s` spell no more than all of `s` does.
pub proof fn lemma_digits_value_grows(s: Seq<char>, k: int)
    requires
        0 <= k <= s.len(),
    ensures
        digits_value(s.take(k)) <= digits_value(s),
    decreases s.len() - k,
{
    if k < s.len() {
        assert(s.drop_last().take(k) =~= s.take(k));
        lemma_digits_value_grows(s.drop_last(), k);
    } else {
        assert(s.take(k) =~= s);
    }
}

/// The numeral written for `n` is one digit or more and nothing else, and
/// its digits spell `n`.
pub proof fn lemma_decimal_spells(n: nat)
    ensures
        decimal(n).len() > 0,
        all_digits(decimal(n)),
        digits_value(decimal(n)) == n,
    decreases n,
{
    let text = decimal(n);
    if n >= 10 {
        lemma_decimal_spells(n / 10);
        let front = decimal(n / 10);
        assert(text.drop_last() =~= front);
        assert(text.last() == digit_char((n % 10) as int));
        assert forall|i: int| 0 <= i < text.len() implies is_digit(#[trigger] text[i]) by {
            if i < front.len() {
                assert(text[i] == front[i]);
            }
        }
    } else {
        assert(text.drop_last() =~= Seq::<char>::empty());
        assert(digits_value(text.drop_last()) == 0);
    }
}

/// The numeral written for `n` is read back as `n`.
pub proof fn lemma_decimal_reads_back(n: nat)
    ensures
        unsigned_literal(decimal(n)) == Some(n),
{
    lemma_decimal_spells(n);
    assert(is_digit(decimal(n).first()));
}

/// The number that the characters from `from` on spell, if they are one
/// digit or more and nothing else, and the number is no greater than `limit`.
fn read_digits(chars: &Vec<char>, from: usize, limit: u64) -> (value: Option<u64>)
    requires
        from <= chars@.len(),
    ensures
        value == within(digits_literal(chars@.skip(from as int)), limit),
{
    let n: usize = chars.len();
    if from == n {
        return None;
    }
    let ghost s = chars@.skip(from as int);
    let mut total: u64 = 0;
    let mut i: usize = from;
    proof {
        assert(s.take(0) =~= Seq::<char>::empty());
    }
    while i < n
        invariant
            from <= i <= n,
            n == chars@.len(),
            s == chars@.skip(from as int),
            all_digits(s.take(i - from)),
            total == digits_value(s.take(i - from)),
            total <= limit,
        decreases n - i,
    {
        let code: u32 = chars[i] as u32;
        if code < '0' as u32 || code > '9' as u32 {
            assert(!is_digit(s[i - from]));
            return None;
        }
        let next: u128 = total as u128 * 10 + (code - '0' as u32) as u128;
        proof {
            let longer = s.take(i - from + 1);
            assert(longer.drop_last() =~= s.take(i - from));
            assert(longer.last() == s[i - from]);
            assert(next == digits_value(longer));
            assert forall|k: int| 0 <= k < longer.len() implies is_digit(#[trigger] longer[k]) by {
                if k < i - from {
                    assert(longer[k] == s.take(i - from)[k]);
                }
            }
            if next > limit {
                lemma_digits_value_grows(s, i - from + 1);
            }
        }
        if next > limit as u128 {
            return None;
        }
        total = next as u64;
        i += 1;
    }
    proof {
        assert(s.take(n - from) =~= s);
    }
    Some(total)
}

/// Reads `text` as a numeral without a minus sign. `None` where `text` is no
/// such numeral or spells a number greater than `limit`.
pub fn parse_unsigned(text: &str, limit: u64) -> (value: Option<u64>)
    ensures
        value == within(unsigned_literal(text@), limit),
{
    let chars = chars_of(text);
    if chars.len() > 0 && chars[0] == '+' {
        assert(chars@.skip(1) =~= text@.drop_first());
        read_digits(&chars, 1, limit)
    } else {
        assert(chars@.skip(0) =~= text@);
        read_digits(&chars, 0, limit)
    }
}

/// Reads `text` as a numeral with or without a sign. `None` where `text` is
/// no such numeral or spells a number that 32 bits with a sign do not hold.
pub fn parse_i32(text: &str) -> (value: Option<i32>)
    ensures
        value == within_i32(signed_literal(text@)),
{
    let chars = chars_of(text);
    if chars.len() > 0 && chars[0] == '-' {
        assert(chars@.skip(1) =~= text@.drop_first());
        match read_digits(&chars, 1, i32::MAX as u64 + 1) {
            Some(n) => Some((-(n as i64)) as i32),
            None => None,
        }
    } else {
        let from: usize = if chars.len() > 0 && chars[0] == '+' {
            1
        } else {
            0
        };
        assert(chars@.skip(1) =~= text@.drop_first());
        assert(chars@.skip(0) =~= text@);
        match read_digits(&chars, from, i32::MAX as u64) {
            Some(n) => Some(n as i32),
            None => None,
        }
    }
}

/// One digit as text.
fn digit_text(d: u64) -> (text: &'static str)
    requires
        d < 10,
    ensures
        text@ == seq![digit_char(d as int)],
{
    let digits = "0123456789";
    proof {
        reveal_strlit("0123456789");
        assert(digits@ =~= digit_chars());
        assert(digits@.subrange(d as int, d + 1) =~= seq![digit_char(d as int)]);
    }
    digits.substring_char(d as usize, d as usize + 1)
}

/// Writes `n` in base ten, without leading zeros.
pub fn to_decimal(n: u64) -> (text: String)
    ensures
        text@ == decimal(n as nat),
    decreases n,
{
    if n < 10 {
        digit_text(n).to_owned()
    } else {
        let mut text = to_decimal(n / 10);
        text.append(digit_text(n % 10));
        assert(text@ =~= decimal(n as nat));
        text
    }
}

} // verus!

//! Unsigned decimal numerals: their value, and the text of a value.
use vstd::prelude::*;

verus! {

/// An ASCII decimal digit.
pub open spec fn is_digit(c: char) -> bool {
    '0' <= c && c <= '9'
}

/// The value of a digit.
pub open spec fn digit_value(c: char) -> nat {
    (c as u8 - 48) as nat
}

/// The digit of a value below ten.
pub open spec fn digit_char(d: nat) -> char {
    ((d + 48) as u8) as char
}

/// Every character of `s` is a digit.
pub open spec fn all_digits(s: Seq<char>) -> bool {
    forall|i: int| 0 <= i < s.len() ==> is_digit(#[trigger] s[i])
}

/// The value of a string of digits, most significant first. The empty
/// string has the value zero.
pub open spec fn number(s: Seq<char>) -> nat
    decreases s.len(),
{
    if s.len() == 0 {
        0
    } else {
        10 * number(s.drop_last()) + digit_value(s.last())
    }
}

/// The shortest string of digits with the value `n`.
pub open spec fn numeral(n: nat) -> Seq<char>
    decreases n,
{
    if n < 10 {
        seq![digit_char(n)]
    } else {
        numeral(n / 10).push(digit_char(n % 10))
    }
}

/// The last two digits of `n`.
pub open spec fn two_digits(n: nat) -> Seq<char> {
    seq![digit_char(n / 10 % 10), digit_char(n % 10)]
}

/// The last three digits of `n`.
pub open spec fn three_digits(n: nat) -> Seq<char> {
    seq![digit_char(n / 100 % 10), digit_char(n / 10 % 10), digit_char(n % 10)]
}

/// The value of `s`, where `s` is a string of digits that stands for a
/// number up to `cap`.
pub open spec fn digits_within(s: Seq<char>, cap: nat) -> Option<nat> {
    if all_digits(s) && number(s) <= cap {
        Some(number(s))
    } else {
        None
    }
}

/// The value of an unsigned integer written as text: an optional plus sign,
/// then at least one digit, the value being at most `max`.
pub open spec fn unsigned_of(s: Seq<char>, max: nat) -> Option<nat> {
    let body = if s.len() > 0 && s[0] == '+' {
        s.skip(1)
    } else {
        s
    };
    if body.len() > 0 {
        digits_within(body, max)
    } else {
        None
    }
}

/// A digit and its value are two names for one thing.
pub proof fn lemma_digit_round_trip(d: nat)
    requires
        d < 10,
    ensures
        is_digit(digit_char(d)),
        digit_value(digit_char(d)) == d,
{
}

/// A longer string of digits does not stand for a smaller number.
pub proof fn lemma_number_grows(s: Seq<char>, k: int)
    requires
        all_digits(s),
        0 <= k <= s.len(),
    ensures
        number(s.take(k)) <= number(s),
    decreases s.len() - k,
{
    if k < s.len() {
        lemma_number_grows(s, k + 1);
        assert(s.take(k + 1).drop_last() =~= s.take(k));
    } else {
        assert(s.take(k) =~= s);
    }
}

/// The numeral of `n` is made of digits, is not empty, and has the value `n`.
pub proof fn lemma_numeral(n: nat)
    ensures
        all_digits(numeral(n)),
        numeral(n).len() >= 1,
        number(numeral(n)) == n,
    decreases n,
{
    if n < 10 {
        lemma_digit_round_trip(n);
        assert(numeral(n).drop_last() =~= Seq::<char>::empty());
        assert(number(numeral(n).drop_last()) == 0);
        assert(numeral(n).last() == digit_char(n));
    } else {
        lemma_numeral(n / 10);
        lemma_digit_round_trip(n % 10);
        assert(numeral(n).drop_last() =~= numeral(n / 10));
        assert(numeral(n).last() == digit_char(n % 10));
    }
}

/// Three digits have the value that they were made from.
pub proof fn lemma_three_digits(n: nat)
    requires
        n < 1000,
    ensures
        all_digits(three_digits(n)),
        number(three_digits(n)) == n,
{
    let s = three_digits(n);
    lemma_digit_round_trip(n / 100 % 10);
    lemma_digit_round_trip(n / 10 % 10);
    lemma_digit_round_trip(n % 10);
    lemma_number_of_three(s);
}

/// Two digits have the value that they were made from.
pub proof fn lemma_two_digits(n: nat)
    requires
        n < 100,
    ensures
        all_digits(two_digits(n)),
        number(two_digits(n)) == n,
{
    let s = two_digits(n);
    lemma_digit_round_trip(n / 10 % 10);
    lemma_digit_round_trip(n % 10);
    assert(s.drop_last() =~= seq![s[0]]);
    assert(s.drop_last().drop_last() =~= Seq::<char>::empty());
    assert(number(s.drop_last().drop_last()) == 0);
    assert(number(s.drop_last()) == digit_value(s[0]));
}

/// The value of a string of three characters, digit by digit.
pub proof fn lemma_number_of_three(s: Seq<char>)
    requires
        s.len() == 3,
    ensures
        number(s) == 100 * digit_value(s[0]) + 10 * digit_value(s[1]) + digit_value(s[2]),
{
    let two = s.drop_last();
    let one = two.drop_last();
    assert(one.drop_last() =~= Seq::<char>::empty());
    assert(number(one.drop_last()) == 0);
    assert(number(one) == digit_value(s[0]));
    assert(number(two) == 10 * number(one) + digit_value(s[1]));
}

/// The value of the digit `c`.
pub(crate) fn value_of_digit(c: char) -> (d: u64)
    requires
        is_digit(c),
    ensures
        d == digit_value(c),
        d < 10,
{
    ((c as u8) - 48) as u64
}

/// The digit of the value `d`.
pub(crate) fn digit_of(d: u64) -> (c: char)
    requires
        d < 10,
    ensures
        c == digit_char(d as nat),
{
    ((d as u8) + 48) as char
}

/// Whether `c` is a decimal digit.
pub fn check_digit(c: char) -> (digit: bool)
    ensures
        digit == is_digit(c),
{
    '0' <= c && c <= '9'
}

/// Reads a string of digits that stands for a number up to `cap`.
pub fn parse_digits(chars: &[char], cap: u64) -> (value: Option<u64>)
    ensures
        match digits_within(chars@, cap as nat) {
            Some(n) => value == Some(n as u64),
            None => value is None,
        },
{
    let mut total: u64 = 0;
    let mut i: usize = 0;
    while i < chars.len()
        invariant
            i <= chars.len(),
            all_digits(chars@.take(i as int)),
            total == number(chars@.take(i as int)),
            total <= cap,
        decreases chars.len() - i,
    {
        let c = chars[i];
        if !check_digit(c) {
            assert(!is_digit(chars@[i as int]));
            return None;
        }
        let d = value_of_digit(c);
        proof {
            let next = chars@.take(i + 1);
            assert(next.drop_last() =~= chars@.take(i as int));
            assert(next.last() == c);
            assert(number(next) == 10 * total + d);
            assert(all_digits(next)) by {
                assert forall|j: int| 0 <= j < next.len() implies is_digit(#[trigger] next[j]) by {
                    if j < i {
                        assert(next[j] == chars@.take(i as int)[j]);
                    }
                }
            }
        }
        if cap < d || total > (cap - d) / 10 {
            proof {
                if all_digits(chars@) {
                    lemma_number_grows(chars@, i + 1);
                }
            }
            return None;
        }
        total = total * 10 + d;
        i += 1;
    }
    assert(chars@.take(i as int) =~= chars@);
    Some(total)
}

/// Reads an unsigned integer up to `max`.
pub fn parse_unsigned(chars: &[char], max: u64) -> (value: Option<u64>)
    ensures
        match unsigned_of(chars@, max as nat) {
            Some(n) => value == Some(n as u64),
            None => value is None,
        },
{
    let body = if chars.len() > 0 && chars[0] == '+' {
        vstd::slice::slice_subrange(chars, 1, chars.len())
    } else {
        chars
    };
    assert(body@ =~= if chars@.len() > 0 && chars@[0] == '+' {
        chars@.skip(1)
    } else {
        chars@
    });
    if body.len() == 0 {
        None
    } else {
        parse_digits(body, max)
    }
}

/// Adds the numeral of `n` to the end of `text`.
pub fn push_numeral(text: &mut String, n: u64)
    ensures
        final(text)@ == old(text)@ + numeral(n as nat),
    decreases n,
{
    if n >= 10 {
        push_numeral(text, n / 10);
    }
    text.push(digit_of(n % 10));
    assert(text@ =~= old(text)@ + numeral(n as nat));
}

} // verus!

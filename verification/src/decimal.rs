//! Decimal numbers with three fractional digits, the only kind of number
//! that the chip sends or takes besides plain integers.
use crate::number::{
    all_digits, check_digit, digit_of, is_digit, lemma_number_of_three, lemma_numeral,
    lemma_three_digits, lemma_two_digits, number, numeral, parse_digits, push_numeral,
    three_digits, two_digits, value_of_digit,
};
use crate::text::{
    chars_of, free_of, lemma_split_append, lemma_split_free, lemma_split_nonempty, split,
    split_chars, views,
};
use vstd::prelude::*;

verus! {

/// A number held as a whole count of thousandths, so `12.5` is `12_500`.
#[derive(Copy, Clone, Eq, Debug, PartialEq, Structural)]
pub struct Decimal {
    pub thousandths: i64,
}

/// How many fractional digits a number is written with.
#[derive(Copy, Clone, Eq, Debug, PartialEq, Structural)]
pub enum Places {
    /// Two digits after the point.
    Two,
    /// Three digits after the point.
    Three,
}

/// Three zeros, to complete a short fraction.
pub open spec fn zeros() -> Seq<char> {
    seq!['0', '0', '0']
}

/// From the index `from` on, `s` holds nothing but zeros.
pub open spec fn zeros_from(s: Seq<char>, from: int) -> bool {
    forall|i: int| from <= i < s.len() ==> #[trigger] s[i] == '0'
}

/// The digits before the point, of a text split at its points.
pub open spec fn whole_part(parts: Seq<Seq<char>>) -> Seq<char> {
    parts[0]
}

/// The digits after the point, of a text split at its points; none where
/// the text has no point.
pub open spec fn fraction_part(parts: Seq<Seq<char>>) -> Seq<char> {
    if parts.len() == 2 {
        parts[1]
    } else {
        Seq::<char>::empty()
    }
}

/// The count of thousandths that an unsigned decimal text stands for: digits,
/// with at most one point among them and at least one digit in all. Digits
/// beyond the third fractional one must be zeros, so that nothing is rounded.
pub open spec fn magnitude_of(body: Seq<char>) -> Option<nat> {
    let parts = split(body, '.');
    let whole = whole_part(parts);
    let fraction = fraction_part(parts);
    if parts.len() <= 2 && all_digits(whole) && all_digits(fraction) && whole.len()
        + fraction.len() > 0 && zeros_from(fraction, 3) {
        Some(number(whole) * 1000 + number((fraction + zeros()).take(3)))
    } else {
        None
    }
}

/// Whether `s` starts with a sign.
pub open spec fn signed(s: Seq<char>) -> bool {
    s.len() > 0 && (s[0] == '-' || s[0] == '+')
}

/// The number that a decimal text stands for: an optional sign, then an
/// unsigned decimal text. The count of thousandths must fit the machine's
/// word of 64 bits.
pub open spec fn decimal_of(s: Seq<char>) -> Option<Decimal> {
    let body = if signed(s) {
        s.skip(1)
    } else {
        s
    };
    match magnitude_of(body) {
        Some(m) => {
            let t = if signed(s) && s[0] == '-' {
                -m
            } else {
                m as int
            };
            if i64::MIN <= t <= i64::MAX {
                Some(Decimal { thousandths: t as i64 })
            } else {
                None
            }
        },
        None => None,
    }
}

/// The distance of `t` from zero.
pub open spec fn magnitude(t: int) -> nat {
    if t < 0 {
        (-t) as nat
    } else {
        t as nat
    }
}

/// A count of thousandths as the nearest count of hundredths; halfway
/// between two, the even one.
pub open spec fn hundredths(m: nat) -> nat {
    let h = m / 10;
    let r = m % 10;
    if r > 5 || (r == 5 && h % 2 == 1) {
        h + 1
    } else {
        h
    }
}

/// The text of `t` thousandths with a fixed number of fractional digits: a
/// minus sign for a negative number, the whole part without leading zeros,
/// a point, and the fraction.
pub open spec fn fixed_text(t: int, places: Places) -> Seq<char> {
    let sign = if t < 0 {
        seq!['-']
    } else {
        Seq::<char>::empty()
    };
    match places {
        Places::Two => {
            let h = hundredths(magnitude(t));
            sign + numeral(h / 100).push('.') + two_digits(h % 100)
        },
        Places::Three => {
            let m = magnitude(t);
            sign + numeral(m / 1000).push('.') + three_digits(m % 1000)
        },
    }
}

/// A character that a number is written with: a digit, the minus sign or
/// the point.
pub open spec fn is_numeric(c: char) -> bool {
    is_digit(c) || c == '-' || c == '.'
}

/// The text of a number starts with a digit or the minus sign, holds at
/// least a digit, the point and the fraction, and nothing that is not part
/// of a number.
pub proof fn lemma_fixed_text_shape(t: int, places: Places)
    ensures
        fixed_text(t, places).len() >= 4,
        is_digit(fixed_text(t, places)[0]) || fixed_text(t, places)[0] == '-',
        forall|i: int|
            0 <= i < fixed_text(t, places).len() ==> is_numeric(#[trigger] fixed_text(t, places)[i]),
{
    let s = fixed_text(t, places);
    let m = magnitude(t);
    let sign = if t < 0 {
        seq!['-']
    } else {
        Seq::<char>::empty()
    };
    match places {
        Places::Two => {
            let h = hundredths(m);
            let whole = numeral(h / 100);
            let fraction = two_digits(h % 100);
            lemma_numeral(h / 100);
            lemma_two_digits(h % 100);
            assert(s == sign + whole.push('.') + fraction);
            assert forall|i: int| 0 <= i < s.len() implies is_numeric(#[trigger] s[i]) by {
                let k = i - sign.len();
                if k < 0 {
                } else if k < whole.len() {
                    assert(s[i] == whole[k]);
                } else if k == whole.len() {
                } else {
                    assert(s[i] == fraction[k - whole.len() - 1]);
                }
            }
            assert(is_digit(whole[0]));
        },
        Places::Three => {
            let whole = numeral(m / 1000);
            let fraction = three_digits(m % 1000);
            lemma_numeral(m / 1000);
            lemma_three_digits(m % 1000);
            assert(s == sign + whole.push('.') + fraction);
            assert forall|i: int| 0 <= i < s.len() implies is_numeric(#[trigger] s[i]) by {
                let k = i - sign.len();
                if k < 0 {
                } else if k < whole.len() {
                    assert(s[i] == whole[k]);
                } else if k == whole.len() {
                } else {
                    assert(s[i] == fraction[k - whole.len() - 1]);
                }
            }
            assert(is_digit(whole[0]));
        },
    }
}

/// A text written with three fractional digits is read back as the number
/// it was written from.
pub proof fn lemma_read_three_places(t: i64)
    ensures
        decimal_of(fixed_text(t as int, Places::Three)) == Some(Decimal { thousandths: t }),
{
    let m = magnitude(t as int);
    let whole = numeral(m / 1000);
    let fraction = three_digits(m % 1000);
    let body = whole.push('.') + fraction;
    let s = fixed_text(t as int, Places::Three);
    lemma_numeral(m / 1000);
    lemma_three_digits(m % 1000);
    lemma_read_body(whole, fraction);
    assert((fraction + zeros()).take(3) =~= fraction);
    assert(is_digit(whole[0]));
    if t < 0 {
        assert(s.skip(1) =~= body);
        assert(s[0] == '-');
    } else {
        assert(s =~= body);
        assert(s[0] == whole[0]);
    }
}

/// A text written with two fractional digits is read back as the number it
/// was written from, where that number is a whole count of hundredths.
pub proof fn lemma_read_two_places(t: i64)
    requires
        t % 10 == 0,
    ensures
        decimal_of(fixed_text(t as int, Places::Two)) == Some(Decimal { thousandths: t }),
{
    let m = magnitude(t as int);
    let h = hundredths(m);
    assert(m % 10 == 0);
    assert(h == m / 10);
    let whole = numeral(h / 100);
    let fraction = two_digits(h % 100);
    let body = whole.push('.') + fraction;
    let s = fixed_text(t as int, Places::Two);
    lemma_numeral(h / 100);
    lemma_two_digits(h % 100);
    lemma_read_body(whole, fraction);
    let padded = (fraction + zeros()).take(3);
    assert(padded =~= seq![fraction[0], fraction[1], '0']);
    lemma_number_of_three(padded);
    assert(padded.drop_last() =~= fraction);
    assert(number(padded) == 10 * (h % 100));
    assert(is_digit(whole[0]));
    if t < 0 {
        assert(s.skip(1) =~= body);
        assert(s[0] == '-');
    } else {
        assert(s =~= body);
        assert(s[0] == whole[0]);
    }
}

/// Digits, a point and more digits split at the point into the two runs of
/// digits.
proof fn lemma_read_body(whole: Seq<char>, fraction: Seq<char>)
    requires
        all_digits(whole),
        all_digits(fraction),
    ensures
        split(whole.push('.') + fraction, '.') == seq![whole, fraction],
{
    assert(free_of(whole, '.')) by {
        assert forall|i: int| 0 <= i < whole.len() implies #[trigger] whole[i] != '.' by {
            assert(is_digit(whole[i]));
        }
    }
    assert(free_of(fraction, '.')) by {
        assert forall|i: int| 0 <= i < fraction.len() implies #[trigger] fraction[i] != '.' by {
            assert(is_digit(fraction[i]));
        }
    }
    lemma_split_free(whole, '.');
    lemma_split_append(whole, fraction, '.');
    assert(seq![whole].push(fraction) =~= seq![whole, fraction]);
}

impl Decimal {
    /// The number of `thousandths` thousandths.
    pub fn from_thousandths(thousandths: i64) -> (d: Decimal)
        ensures
            d.thousandths == thousandths,
    {
        Decimal { thousandths }
    }

    /// Reads a number from its decimal text. `None` where the text is not
    /// one, or stands for a number that is too large or too fine.
    pub fn parse(text: &str) -> (d: Option<Decimal>)
        ensures
            d == decimal_of(text@),
    {
        let chars = chars_of(text);
        Decimal::read(chars.as_slice())
    }

    /// Reads a number from the characters of its decimal text.
    pub fn read(chars: &[char]) -> (d: Option<Decimal>)
        ensures
            d == decimal_of(chars@),
    {
        let has_sign = chars.len() > 0 && (chars[0] == '-' || chars[0] == '+');
        let negative = has_sign && chars[0] == '-';
        let body = if has_sign {
            vstd::slice::slice_subrange(chars, 1, chars.len())
        } else {
            chars
        };
        assert(body@ =~= if signed(chars@) {
            chars@.skip(1)
        } else {
            chars@
        });
        let cap: u64 = if negative {
            0x8000_0000_0000_0000
        } else {
            0x7fff_ffff_ffff_ffff
        };
        match read_magnitude(body, cap) {
            Some(m) => {
                if !negative {
                    Some(Decimal { thousandths: m as i64 })
                } else if m == 0x8000_0000_0000_0000 {
                    Some(Decimal { thousandths: i64::MIN })
                } else {
                    Some(Decimal { thousandths: -(m as i64) })
                }
            },
            None => None,
        }
    }

    /// The text of this number with the given number of fractional digits.
    pub fn to_fixed(&self, places: Places) -> (text: String)
        ensures
            text@ == fixed_text(self.thousandths as int, places),
    {
        let mut text = String::new();
        self.write_fixed(&mut text, places);
        assert(Seq::<char>::empty() + fixed_text(self.thousandths as int, places) =~= fixed_text(
            self.thousandths as int,
            places,
        ));
        text
    }

    /// Adds the text of this number to the end of `text`.
    pub fn write_fixed(&self, text: &mut String, places: Places)
        ensures
            final(text)@ == old(text)@ + fixed_text(self.thousandths as int, places),
    {
        let t = self.thousandths;
        let m: u64 = if t >= 0 {
            t as u64
        } else {
            ((-(t + 1)) as u64) + 1
        };
        assert(m == magnitude(t as int));
        if t < 0 {
            text.push('-');
        }
        let ghost signed_text = text@;
        match places {
            Places::Two => {
                let h = m / 10;
                let r = m % 10;
                let rounded = if r > 5 || (r == 5 && h % 2 == 1) {
                    h + 1
                } else {
                    h
                };
                assert(rounded == hundredths(m as nat));
                push_numeral(text, rounded / 100);
                text.push('.');
                let cents = rounded % 100;
                text.push(digit_of(cents / 10 % 10));
                text.push(digit_of(cents % 10));
                assert(text@ =~= signed_text + numeral((rounded / 100) as nat).push('.')
                    + two_digits(cents as nat));
            },
            Places::Three => {
                push_numeral(text, m / 1000);
                text.push('.');
                let rest = m % 1000;
                text.push(digit_of(rest / 100 % 10));
                text.push(digit_of(rest / 10 % 10));
                text.push(digit_of(rest % 10));
                assert(text@ =~= signed_text + numeral((m / 1000) as nat).push('.') + three_digits(
                    rest as nat,
                ));
            },
        }
        assert(text@ =~= old(text)@ + fixed_text(t as int, places));
    }
}

/// Reads an unsigned decimal text as a count of thousandths. `None` where
/// the text is not one, or the count is above `cap`.
#[verifier::loop_isolation(false)]
fn read_magnitude(body: &[char], cap: u64) -> (m: Option<u64>)
    requires
        cap >= 1000,
    ensures
        match magnitude_of(body@) {
            Some(n) => if n <= cap {
                m == Some(n as u64)
            } else {
                m is None
            },
            None => m is None,
        },
{
    let parts = split_chars(body, '.');
    proof {
        lemma_split_nonempty(body@, '.');
    }
    if parts.len() > 2 {
        return None;
    }
    let whole = parts[0].as_slice();
    let empty: Vec<char> = Vec::new();
    let fraction = if parts.len() == 2 {
        parts[1].as_slice()
    } else {
        empty.as_slice()
    };
    proof {
        let pieces = split(body@, '.');
        assert(whole@ == views(parts@)[0]);
        assert(whole@ == pieces[0]);
        if parts.len() == 2 {
            assert(fraction@ == views(parts@)[1]);
            assert(fraction@ == pieces[1]);
        } else {
            assert(fraction@ =~= Seq::<char>::empty());
        }
    }
    if whole.len() == 0 && fraction.len() == 0 {
        return None;
    }
    let units = match parse_digits(whole, cap / 1000) {
        Some(units) => units,
        None => {
            assert(!all_digits(whole@) || number(whole@) * 1000 > cap);
            return None;
        },
    };
    let mut rest: u64 = 0;
    let mut i: usize = 0;
    let ghost padded = (fraction@ + zeros()).take(3);
    while i < 3
        invariant
            i <= 3,
            padded == (fraction@ + zeros()).take(3),
            forall|j: int| 0 <= j < i && j < fraction@.len() ==> is_digit(#[trigger] fraction@[j]),
            rest == number(padded.take(i as int)),
            rest < 1000,
            i < 3 ==> rest < 100,
            i < 2 ==> rest < 10,
            i < 1 ==> rest == 0,
        decreases 3 - i,
    {
        let c = if i < fraction.len() {
            fraction[i]
        } else {
            '0'
        };
        assert(c == padded[i as int]);
        if !check_digit(c) {
            assert(!is_digit(fraction@[i as int]));
            assert(!all_digits(fraction@));
            return None;
        }
        proof {
            let next = padded.take(i + 1);
            assert(next.drop_last() =~= padded.take(i as int));
            assert(next.last() == c);
        }
        rest = rest * 10 + value_of_digit(c);
        i += 1;
    }
    assert(padded.take(3) =~= padded);
    while i < fraction.len()
        invariant
            3 <= i,
            forall|j: int| 0 <= j < 3 && j < fraction@.len() ==> is_digit(#[trigger] fraction@[j]),
            forall|j: int| 3 <= j < i && j < fraction@.len() ==> #[trigger] fraction@[j] == '0',
        decreases fraction.len() - i,
    {
        if fraction[i] != '0' {
            return None;
        }
        i += 1;
    }
    assert(all_digits(fraction@)) by {
        assert forall|j: int| 0 <= j < fraction@.len() implies is_digit(
            #[trigger] fraction@[j],
        ) by {
            if j >= 3 {
                assert(fraction@[j] == '0');
            }
        }
    }
    if rest > cap - units * 1000 {
        None
    } else {
        Some(units * 1000 + rest)
    }
}

} // verus!

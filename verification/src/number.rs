//! Signed 64-bit integers as decimal text: reading and writing.

use crate::text::chars_of;
use vstd::prelude::*;

verus! {

/// Whether `c` is one of the ten decimal digits.
pub open spec fn is_digit(c: char) -> bool {
    '0' <= c && c <= '9'
}

/// The number that the digit `c` stands for.
pub open spec fn digit_value(c: char) -> int {
    c as int - '0' as int
}

/// The digit that stands for `d`, for `d` from 0 to 9.
pub open spec fn digit_char(d: int) -> char {
    if d == 0 {
        '0'
    } else if d == 1 {
        '1'
    } else if d == 2 {
        '2'
    } else if d == 3 {
        '3'
    } else if d == 4 {
        '4'
    } else if d == 5 {
        '5'
    } else if d == 6 {
        '6'
    } else if d == 7 {
        '7'
    } else if d == 8 {
        '8'
    } else {
        '9'
    }
}

/// Whether every character of `s` is a decimal digit.
pub open spec fn all_digits(s: Seq<char>) -> bool {
    forall|i: int| 0 <= i < s.len() ==> is_digit(#[trigger] s[i])
}

/// The number that a run of decimal digits denotes, most significant digit first.
pub open spec fn digits_value(s: Seq<char>) -> int
    decreases s.len(),
{
    if s.len() == 0 {
        0
    } else {
        10 * digits_value(s.drop_last()) + digit_value(s.last())
    }
}

/// Whether `s` begins with a sign.
pub open spec fn has_sign(s: Seq<char>) -> bool {
    s.len() > 0 && (s[0] == '-' || s[0] == '+')
}

/// The integer that `s` denotes: an optional sign, then one or more decimal digits, with a
/// value that fits 64 bits. `None` for any other text.
pub open spec fn integer_of(s: Seq<char>) -> Option<int> {
    let digits = if has_sign(s) {
        s.skip(1)
    } else {
        s
    };
    let value = if has_sign(s) && s[0] == '-' {
        -digits_value(digits)
    } else {
        digits_value(digits)
    };
    if digits.len() > 0 && all_digits(digits) && i64::MIN <= value <= i64::MAX {
        Some(value)
    } else {
        None
    }
}

/// The decimal digits of `n`, most significant first, without leading zeros.
pub open spec fn digits_of(n: nat) -> Seq<char>
    decreases n,
{
    if n < 10 {
        seq![digit_char(n as int)]
    } else {
        digits_of(n / 10).push(digit_char((n % 10) as int))
    }
}

/// The decimal text of `n`: a minus sign if it is negative, then its digits.
pub open spec fn decimal(n: int) -> Seq<char> {
    if n < 0 {
        seq!['-'] + digits_of((-n) as nat)
    } else {
        digits_of(n as nat)
    }
}

/// `digit_char` and `digit_value` undo each other.
pub proof fn lemma_digit_char(d: int)
    requires
        0 <= d <= 9,
    ensures
        is_digit(digit_char(d)),
        digit_value(digit_char(d)) == d,
{
}

/// A run of digits denotes no less than any of its prefixes, and never a negative number.
pub proof fn lemma_digits_value_grows(s: Seq<char>, k: int)
    requires
        all_digits(s),
        0 <= k <= s.len(),
    ensures
        0 <= digits_value(s.take(k)) <= digits_value(s),
    decreases s.len(),
{
    if s.len() == 0 {
    } else if k == s.len() {
        assert(s.take(k) == s);
        lemma_digits_value_grows(s.drop_last(), k - 1);
    } else {
        assert(s.drop_last().take(k) == s.take(k));
        lemma_digits_value_grows(s.drop_last(), k);
    }
}

/// The digits of `n` are digits, and denote `n`.
pub proof fn lemma_digits_of(n: nat)
    ensures
        digits_of(n).len() > 0,
        all_digits(digits_of(n)),
        digits_value(digits_of(n)) == n,
    decreases n,
{
    if n < 10 {
        let s = digits_of(n);
        lemma_digit_char(n as int);
        assert(s.drop_last().len() == 0);
        assert(digits_value(s.drop_last()) == 0);
        assert(s.last() == digit_char(n as int));
    } else {
        lemma_digits_of(n / 10);
        let s = digits_of(n);
        let c = digit_char((n % 10) as int);
        lemma_digit_char((n % 10) as int);
        assert(s.drop_last() == digits_of(n / 10));
        assert(s.last() == c);
        assert forall|i: int| 0 <= i < s.len() implies is_digit(#[trigger] s[i]) by {
            if i < s.len() - 1 {
                assert(s[i] == digits_of(n / 10)[i]);
            }
        }
    }
}

/// Reading the decimal text of a 64-bit integer gives the integer back.
pub proof fn lemma_integer_of_decimal(n: int)
    requires
        i64::MIN <= n <= i64::MAX,
    ensures
        integer_of(decimal(n)) == Some(n),
{
    let s = decimal(n);
    if n < 0 {
        let digits = digits_of((-n) as nat);
        lemma_digits_of((-n) as nat);
        assert(s.skip(1) == digits);
    } else {
        lemma_digits_of(n as nat);
    }
}

/// The decimal text of an integer is one word: it is not empty and holds only a sign and digits.
pub proof fn lemma_decimal_chars(n: int)
    ensures
        decimal(n).len() > 0,
        forall|i: int| 0 <= i < decimal(n).len() ==> is_digit(#[trigger] decimal(n)[i]) || decimal(n)[i] == '-',
{
    let s = decimal(n);
    if n < 0 {
        let digits = digits_of((-n) as nat);
        lemma_digits_of((-n) as nat);
        assert forall|i: int| 0 <= i < s.len() implies is_digit(#[trigger] s[i]) || s[i] == '-' by {
            if i > 0 {
                assert(s[i] == digits[i - 1]);
            }
        }
    } else {
        lemma_digits_of(n as nat);
    }
}

/// The number that the digit `c` stands for.
fn value_of_digit(c: char) -> (d: u8)
    requires
        is_digit(c),
    ensures
        d as int == digit_value(c),
        d <= 9,
{
    ((c as u32) - ('0' as u32)) as u8
}

/// Reads `text` as a signed 64-bit decimal integer.
///
/// The text is an optional `+` or `-` and then one or more decimal digits; nothing else may
/// stand in it, and the value must fit 64 bits.
pub fn parse_integer(text: &str) -> (result: Option<i64>)
    ensures
        result matches Some(n) ==> integer_of(text@) == Some(n as int),
        result is None ==> integer_of(text@) is None,
{
    let chars = chars_of(text);
    let n: usize = chars.len();
    let signed: bool = n > 0 && (chars[0] == '-' || chars[0] == '+');
    let negative: bool = signed && chars[0] == '-';
    let first: usize = if signed {
        1
    } else {
        0
    };
    if first == n {
        return None;
    }
    let ghost digits = if signed {
        text@.skip(1)
    } else {
        text@
    };
    let limit: u64 = 0x8000_0000_0000_0000;
    let mut magnitude: u64 = 0;
    let mut i: usize = first;
    assert(digits.take(0).len() == 0);
    while i < n
        invariant
            chars@ == text@,
            n == chars@.len(),
            first <= i <= n,
            signed == has_sign(text@),
            first == if signed { 1int } else { 0int },
            digits == if signed { text@.skip(1) } else { text@ },
            limit == 0x8000_0000_0000_0000,
            all_digits(digits.take(i - first)),
            magnitude == digits_value(digits.take(i - first)),
            magnitude <= limit,
        decreases n - i,
    {
        let c: char = chars[i];
        let ghost k = i - first;
        assert(digits[k] == c);
        if !(c >= '0' && c <= '9') {
            assert(!is_digit(digits[k]));
            return None;
        }
        let d: u64 = value_of_digit(c) as u64;
        proof {
            let next = digits.take(k + 1);
            assert(next.drop_last() == digits.take(k));
            assert(next.last() == c);
            assert forall|j: int| 0 <= j < next.len() implies is_digit(#[trigger] next[j]) by {
                if j < k {
                    assert(next[j] == digits.take(k)[j]);
                }
            }
            assert(digits_value(next) == 10 * magnitude + d);
            if all_digits(digits) {
                lemma_digits_value_grows(digits, k + 1);
            }
        }
        if magnitude > (limit - d) / 10 {
            assert(10 * magnitude + d > limit);
            return None;
        }
        magnitude = 10 * magnitude + d;
        i += 1;
    }
    assert(digits.take(n - first) == digits);
    if negative {
        if magnitude == limit {
            Some(i64::MIN)
        } else {
            Some(-(magnitude as i64))
        }
    } else if magnitude == limit {
        None
    } else {
        Some(magnitude as i64)
    }
}

/// The one-character text of the digit `d`.
fn digit_text(d: u8) -> (text: &'static str)
    requires
        d <= 9,
    ensures
        text@ == seq![digit_char(d as int)],
{
    proof {
        reveal_strlit("0");
        reveal_strlit("1");
        reveal_strlit("2");
        reveal_strlit("3");
        reveal_strlit("4");
        reveal_strlit("5");
        reveal_strlit("6");
        reveal_strlit("7");
        reveal_strlit("8");
        reveal_strlit("9");
    }
    let text = if d == 0 {
        "0"
    } else if d == 1 {
        "1"
    } else if d == 2 {
        "2"
    } else if d == 3 {
        "3"
    } else if d == 4 {
        "4"
    } else if d == 5 {
        "5"
    } else if d == 6 {
        "6"
    } else if d == 7 {
        "7"
    } else if d == 8 {
        "8"
    } else {
        "9"
    };
    assert(text@ =~= seq![digit_char(d as int)]);
    text
}

/// The digits that `reversed` holds least significant first, as text.
pub open spec fn digits_text(reversed: Seq<u8>) -> Seq<char> {
    Seq::new(reversed.len(), |i: int| digit_char(reversed[reversed.len() - 1 - i] as int))
}

/// Writes `n` as decimal text: a minus sign if it is negative, then its digits without leading
/// zeros.
pub fn format_integer(n: i64) -> (text: String)
    ensures
        text@ == decimal(n as int),
{
    let magnitude: u64 = if n < 0 {
        (-(n as i128)) as u64
    } else {
        n as u64
    };
    let mut reversed: Vec<u8> = Vec::new();
    let mut rest: u64 = magnitude;
    assert(digits_of(rest as nat) + digits_text(reversed@) == digits_of(magnitude as nat));
    while rest >= 10
        invariant
            digits_of(magnitude as nat) == digits_of(rest as nat) + digits_text(reversed@),
            forall|i: int| 0 <= i < reversed@.len() ==> reversed@[i] <= 9,
        decreases rest,
    {
        let d: u8 = (rest % 10) as u8;
        let ghost before = reversed@;
        reversed.push(d);
        proof {
            assert(digits_text(reversed@) == seq![digit_char(d as int)] + digits_text(before));
            assert(digits_of(rest as nat) == digits_of((rest / 10) as nat).push(
                digit_char(d as int),
            ));
            assert(digits_of((rest / 10) as nat).push(digit_char(d as int)) + digits_text(before)
                == digits_of((rest / 10) as nat) + (seq![digit_char(d as int)] + digits_text(
                before,
            )));
        }
        rest = rest / 10;
    }
    let ghost before = reversed@;
    reversed.push(rest as u8);
    proof {
        assert(digits_text(reversed@) == seq![digit_char(rest as int)] + digits_text(before));
        assert(digits_of(rest as nat) == seq![digit_char(rest as int)]);
    }
    let mut text = String::new();
    if n < 0 {
        proof {
            reveal_strlit("-");
        }
        text.append("-");
        assert(text@ == seq!['-']);
    }
    let ghost sign = text@;
    let count: usize = reversed.len();
    let mut k: usize = count;
    assert(digits_text(reversed@).take(0) == Seq::<char>::empty());
    while k > 0
        invariant
            count == reversed@.len(),
            k <= count,
            forall|i: int| 0 <= i < reversed@.len() ==> reversed@[i] <= 9,
            text@ == sign + digits_text(reversed@).take(count - k),
        decreases k,
    {
        k -= 1;
        let d: u8 = reversed[k];
        let ghost written = digits_text(reversed@).take(count - k - 1);
        text.append(digit_text(d));
        proof {
            assert(digits_text(reversed@).take(count - k) == written.push(digit_char(d as int)));
            assert(sign + written + seq![digit_char(d as int)] == sign + written.push(
                digit_char(d as int),
            ));
        }
    }
    assert(digits_text(reversed@).take(count as int) == digits_text(reversed@));
    text
}

} // verus!

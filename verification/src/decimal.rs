//! Integers as decimal text.

use vstd::prelude::*;
use vstd::std_specs::iter::IteratorSpec;
use vstd::string::*;

verus! {

/// The character that writes the digit `d`.
pub open spec fn digit_char(d: int) -> char
    recommends
        0 <= d <= 9,
{
    if d == 0 {
        '0'
    } else if d == 1 {
        '1'
    } else if d == 2 {
        '2'
    } else if d == 3 {
        '3'
    } else if d == 4 {
        '4'
    } else if d == 5 {
        '5'
    } else if d == 6 {
        '6'
    } else if d == 7 {
        '7'
    } else if d == 8 {
        '8'
    } else {
        '9'
    }
}

/// Whether `c` is one of the ten ASCII digits.
pub open spec fn is_digit(c: char) -> bool {
    '0' <= c <= '9'
}

/// The number that the digit `c` writes.
pub open spec fn digit_value(c: char) -> int
    recommends
        is_digit(c),
{
    c as u32 - '0' as u32
}

/// Whether every character of `s` is a digit.
pub open spec fn all_digits(s: Seq<char>) -> bool {
    forall|i: int| 0 <= i < s.len() ==> is_digit(#[trigger] s[i])
}

/// The number that the digits `s` write, most significant digit first.
pub open spec fn digits_value(s: Seq<char>) -> nat
    decreases s.len(),
{
    if s.len() == 0 {
        0
    } else {
        (digits_value(s.drop_last()) * 10 + digit_value(s.last())) as nat
    }
}

/// The shortest decimal writing of `n`.
pub open spec fn decimal(n: nat) -> Seq<char>
    decreases n,
{
    if n < 10 {
        seq![digit_char(n as int)]
    } else {
        decimal(n / 10).push(digit_char((n % 10) as int))
    }
}

/// A decimal writing starts with a digit, holds digits only, and writes the
/// number it was made from.
pub proof fn lemma_decimal_digits(n: nat)
    ensures
        decimal(n).len() >= 1,
        all_digits(decimal(n)),
        is_digit(decimal(n)[0]),
        digits_value(decimal(n)) == n,
    decreases n,
{
    if n < 10 {
        let s = decimal(n);
        assert(s.drop_last() =~= Seq::<char>::empty());
        assert(digits_value(s.drop_last()) == 0);
    } else {
        lemma_decimal_digits(n / 10);
        let head = decimal(n / 10);
        let s = decimal(n);
        assert(s.drop_last() =~= head);
        assert(s.last() == digit_char((n % 10) as int));
        assert(s[0] == head[0]);
    }
}

/// The one-character text of the digit `d`.
fn digit_text(d: u64) -> (text: &'static str)
    requires
        d <= 9,
    ensures
        text@ == seq![digit_char(d as int)],
{
    proof {
        reveal_strlit("0");
        reveal_strlit("1");
        reveal_strlit("2");
        reveal_strlit("3");
        reveal_strlit("4");
        reveal_strlit("5");
        reveal_strlit("6");
        reveal_strlit("7");
        reveal_strlit("8");
        reveal_strlit("9");
    }
    let text = if d == 0 {
        "0"
    } else if d == 1 {
        "1"
    } else if d == 2 {
        "2"
    } else if d == 3 {
        "3"
    } else if d == 4 {
        "4"
    } else if d == 5 {
        "5"
    } else if d == 6 {
        "6"
    } else if d == 7 {
        "7"
    } else if d == 8 {
        "8"
    } else {
        "9"
    };
    assert(text@ =~= seq![digit_char(d as int)]);
    text
}

/// Writes `n` in decimal, without sign or leading zeros.
pub fn render_u64(n: u64) -> (text: String)
    ensures
        text@ == decimal(n as nat),
    decreases n,
{
    if n < 10 {
        String::from_str(digit_text(n))
    } else {
        let mut text = render_u64(n / 10);
        text.append(digit_text(n % 10));
        assert(text@ =~= decimal(n as nat));
        text
    }
}

/// How many leading characters of `s` are a sign: a `+` always counts, a `-`
/// only where `signed` allows it.
pub open spec fn sign_len(s: Seq<char>, signed: bool) -> int {
    if s.len() > 0 && (s[0] == '+' || (signed && s[0] == '-')) {
        1
    } else {
        0
    }
}

/// The number written after the optional sign of `s`, where what follows the
/// sign is one digit or more and nothing else.
pub open spec fn magnitude(s: Seq<char>, signed: bool) -> Option<nat> {
    let body = s.skip(sign_len(s, signed));
    if body.len() > 0 && all_digits(body) {
        Some(digits_value(body))
    } else {
        None
    }
}

/// What `s` denotes as an unsigned 64-bit integer: an optional `+`, then one
/// digit or more, with a value that fits. Leading zeros are allowed.
pub open spec fn parse_unsigned(s: Seq<char>) -> Option<u64> {
    match magnitude(s, false) {
        Some(m) => if m <= u64::MAX {
            Some(m as u64)
        } else {
            None
        },
        None => None,
    }
}

/// What `s` denotes as a signed 64-bit integer: an optional `+` or `-`, then
/// one digit or more, with a value that fits. Leading zeros are allowed.
pub open spec fn parse_signed(s: Seq<char>) -> Option<i64> {
    match magnitude(s, true) {
        Some(m) => {
            let value = if s[0] == '-' {
                -(m as int)
            } else {
                m as int
            };
            if i64::MIN <= value <= i64::MAX {
                Some(value as i64)
            } else {
                None
            }
        },
        None => None,
    }
}

/// Appending a digit multiplies the value by ten and adds the digit.
proof fn lemma_digits_value_push(s: Seq<char>, c: char)
    requires
        is_digit(c),
    ensures
        digits_value(s.push(c)) == digits_value(s) * 10 + digit_value(c),
        all_digits(s) ==> all_digits(s.push(c)),
{
    assert(s.push(c).drop_last() =~= s);
    assert(s.push(c).last() == c);
}

/// Among digits, a longer writing never denotes less than its own beginning.
proof fn lemma_digits_value_prefix(s: Seq<char>, k: int)
    requires
        all_digits(s),
        0 <= k <= s.len(),
    ensures
        digits_value(s.take(k)) <= digits_value(s),
    decreases s.len() - k,
{
    if k < s.len() {
        lemma_digits_value_prefix(s, k + 1);
        assert(s.take(k + 1).drop_last() =~= s.take(k));
        assert(is_digit(s[k]));
        assert(s.take(k + 1).last() == s[k]);
    } else {
        assert(s.take(k) =~= s);
    }
}

/// Reads the optional sign and the digits of `text`. Gives whether the sign
/// was `-`, and the number after it when it fits 64 bits.
fn read_magnitude(text: &str, signed: bool) -> (r: Option<(bool, u64)>)
    ensures
        match r {
            Some((negative, m)) => {
                &&& magnitude(text@, signed) == Some(m as nat)
                &&& negative == (sign_len(text@, signed) == 1 && text@[0] == '-')
            },
            None => magnitude(text@, signed) matches Some(m) ==> m > u64::MAX,
        },
{
    broadcast use vstd::string::group_string_axioms;

    let mut rest = text.chars();
    let first = match rest.next() {
        Some(c) => c,
        None => {
            return None;
        },
    };
    let negative = signed && first == '-';
    let ghost body = text@.skip(sign_len(text@, signed));
    let mut value: u64 = 0;
    let mut seen = false;
    let ghost mut count: int = 0;
    if !(negative || first == '+') {
        if !('0' <= first && first <= '9') {
            assert(!is_digit(body[0]));
            return None;
        }
        value = (first as u32 - '0' as u32) as u64;
        seen = true;
        proof {
            count = 1;
            lemma_digits_value_push(Seq::empty(), first);
            assert(body.take(1) =~= Seq::<char>::empty().push(first));
        }
    }
    assert(body.take(0) =~= Seq::<char>::empty());
    loop
        invariant
            body == text@.skip(sign_len(text@, signed)),
            0 <= count,
            seen == (count > 0),
            rest.remaining().len() + count == body.len(),
            rest.remaining() == body.skip(count),
            all_digits(body.take(count)),
            value == digits_value(body.take(count)),
        ensures
            count == body.len(),
        decreases body.len() - count,
    {
        let c = match rest.next() {
            Some(c) => c,
            None => {
                break ;
            },
        };
        assert(c == body[count]);
        if !('0' <= c && c <= '9') {
            return None;
        }
        proof {
            lemma_digits_value_push(body.take(count), c);
            assert(body.take(count + 1) =~= body.take(count).push(c));
            if all_digits(body) {
                lemma_digits_value_prefix(body, count + 1);
            }
        }
        let digit = (c as u32 - '0' as u32) as u64;
        value = match value.checked_mul(10) {
            Some(tens) => match tens.checked_add(digit) {
                Some(sum) => sum,
                None => {
                    return None;
                },
            },
            None => {
                return None;
            },
        };
        seen = true;
        proof {
            count = count + 1;
        }
    }
    assert(body.take(count) =~= body);
    if seen {
        Some((negative, value))
    } else {
        None
    }
}

/// Reads `text` as an unsigned 64-bit integer in decimal.
pub fn parse_u64(text: &str) -> (r: Option<u64>)
    ensures
        r == parse_unsigned(text@),
{
    match read_magnitude(text, false) {
        Some((_, m)) => Some(m),
        None => None,
    }
}

/// Reads `text` as a signed 64-bit integer in decimal.
pub fn parse_i64(text: &str) -> (r: Option<i64>)
    ensures
        r == parse_signed(text@),
{
    match read_magnitude(text, true) {
        Some((negative, m)) => {
            if negative {
                if m <= 0x7fff_ffff_ffff_ffff {
                    Some(0 - (m as i64))
                } else if m == 0x8000_0000_0000_0000 {
                    Some(i64::MIN)
                } else {
                    None
                }
            } else if m <= 0x7fff_ffff_ffff_ffff {
                Some(m as i64)
            } else {
                None
            }
        },
        None => None,
    }
}

} // verus!

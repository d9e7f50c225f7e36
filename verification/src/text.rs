//! String comparisons and decimal number parsing over character sequences.

#[allow(unused_imports)]
use vstd::prelude::*;

verus! {

/// Whether `value` equals the literal `literal`.
pub fn eq_lit(value: &String, literal: &str) -> (result: bool)
    ensures
        result == (value@ == literal@),
{
    let expected = String::from_str(literal);
    *value == expected
}

/// Whether `value` starts with `prefix`.
pub fn starts_with_char(value: &String, prefix: char) -> (result: bool)
    ensures
        result == (value@.len() > 0 && value@[0] == prefix),
{
    let text = value.as_str();
    if text.unicode_len() == 0 {
        false
    } else {
        text.get_char(0) == prefix
    }
}

/// Whether a character is an ASCII decimal digit.
pub open spec fn is_digit(c: char) -> bool {
    '0' <= c <= '9'
}

/// Whether every character is an ASCII decimal digit.
pub open spec fn all_digits(chars: Seq<char>) -> bool {
    forall|i: int| 0 <= i < chars.len() ==> is_digit(#[trigger] chars[i])
}

/// Decimal value of a digit string.
pub open spec fn digits_value(chars: Seq<char>) -> int
    decreases chars.len(),
{
    if chars.len() == 0 {
        0
    } else {
        digits_value(chars.drop_last()) * 10 + (chars.last() as int - '0' as int)
    }
}

/// Value of an unsigned decimal literal (an optional `+`, then one or more digits) that is at
/// most `max`, as Rust's `str::parse` for unsigned integers accepts it.
pub open spec fn parse_unsigned_spec(chars: Seq<char>, max: int) -> Option<int> {
    let body = if chars.len() > 0 && chars[0] == '+' {
        chars.drop_first()
    } else {
        chars
    };
    if body.len() > 0 && all_digits(body) && digits_value(body) <= max {
        Some(digits_value(body))
    } else {
        None
    }
}

/// Value of a signed decimal literal (an optional `+` or `-`, then one or more digits) in
/// `[min, max]`, as Rust's `str::parse` for signed integers accepts it.
pub open spec fn parse_signed_spec(chars: Seq<char>, min: int, max: int) -> Option<int> {
    let negative = chars.len() > 0 && chars[0] == '-';
    let body = if chars.len() > 0 && (chars[0] == '+' || chars[0] == '-') {
        chars.drop_first()
    } else {
        chars
    };
    let magnitude = digits_value(body);
    let value = if negative {
        -magnitude
    } else {
        magnitude
    };
    if body.len() > 0 && all_digits(body) && min <= value <= max {
        Some(value)
    } else {
        None
    }
}

proof fn lemma_digits_value_nonneg(chars: Seq<char>)
    requires
        all_digits(chars),
    ensures
        digits_value(chars) >= 0,
    decreases chars.len(),
{
    if chars.len() > 0 {
        assert(all_digits(chars.drop_last()));
        lemma_digits_value_nonneg(chars.drop_last());
    }
}

proof fn lemma_digits_value_grows(chars: Seq<char>, n: int)
    requires
        all_digits(chars),
        0 <= n <= chars.len(),
    ensures
        digits_value(chars.take(n)) <= digits_value(chars),
    decreases chars.len() - n,
{
    if n < chars.len() {
        lemma_digits_value_grows(chars, n + 1);
        assert(chars.take(n + 1).drop_last() == chars.take(n));
        assert(all_digits(chars.take(n)));
        lemma_digits_value_nonneg(chars.take(n));
    } else {
        assert(chars.take(n) == chars);
    }
}

/// Parses the digits of `chars[start..]` as a number no larger than `max` (`max` below 2^64).
fn parse_digits(text: &str, start: usize, max: u64) -> (result: Option<u64>)
    requires
        start <= text@.len(),
    ensures
        ({
            let body = text@.subrange(start as int, text@.len() as int);
            match result {
                Some(value) => body.len() > 0 && all_digits(body) && digits_value(body) <= max
                    && value == digits_value(body),
                None => !(body.len() > 0 && all_digits(body) && digits_value(body) <= max),
            }
        }),
{
    let len = text.unicode_len();
    if start >= len {
        return None;
    }
    let ghost body = text@.subrange(start as int, text@.len() as int);
    let mut value: u64 = 0;
    let mut too_large = false;
    let mut i = start;
    while i < len
        invariant
            len == text@.len(),
            start < len,
            start <= i <= len,
            body == text@.subrange(start as int, text@.len() as int),
            all_digits(body.take(i - start)),
            !too_large ==> value == digits_value(body.take(i - start)) && value <= max,
            too_large ==> digits_value(body.take(i - start)) > max,
        decreases len - i,
    {
        let c = text.get_char(i);
        if !('0' <= c && c <= '9') {
            proof {
                assert(body[i - start] == c);
            }
            return None;
        }
        let ghost prefix = body.take(i - start);
        proof {
            assert(body.take(i - start + 1).drop_last() == prefix);
            assert(body.take(i - start + 1).last() == c);
            assert(all_digits(body.take(i - start + 1)));
            lemma_digits_value_nonneg(prefix);
        }
        if !too_large {
            let digit = (c as u32 - '0' as u32) as u64;
            if digit > max || value > (max - digit) / 10 {
                too_large = true;
                proof {
                    if digit <= max {
                        assert(value * 10 + digit > max) by (nonlinear_arith)
                            requires
                                value > (max - digit) / 10,
                                digit <= max,
                        ;
                    }
                }
            } else {
                proof {
                    assert(value * 10 + digit <= max) by (nonlinear_arith)
                        requires
                            value <= (max - digit) / 10,
                            digit <= max,
                    ;
                }
                value = value * 10 + digit;
            }
        }
        i += 1;
    }
    proof {
        assert(body.take(i - start) == body);
    }
    if too_large {
        None
    } else {
        Some(value)
    }
}

/// Parses an unsigned decimal number no larger than `max`.
pub fn parse_unsigned(value: &String, max: u64) -> (result: Option<u64>)
    ensures
        match result {
            Some(v) => parse_unsigned_spec(value@, max as int) == Some(v as int),
            None => parse_unsigned_spec(value@, max as int) is None,
        },
{
    let text = value.as_str();
    let len = text.unicode_len();
    let start: usize = if len > 0 && text.get_char(0) == '+' {
        1
    } else {
        0
    };
    proof {
        if start == 1 {
            assert(value@.drop_first() == value@.subrange(1, value@.len() as int));
        } else {
            assert(value@ == value@.subrange(0, value@.len() as int));
        }
    }
    parse_digits(text, start, max)
}

/// Parses a signed decimal number in `[-(magnitude_limit + 1), magnitude_limit]` where
/// `magnitude_limit` is the largest positive value of the target type.
pub fn parse_signed(value: &String, magnitude_limit: u64) -> (result: Option<i128>)
    requires
        magnitude_limit < u64::MAX,
    ensures
        match result {
            Some(v) => parse_signed_spec(
                value@,
                -(magnitude_limit + 1),
                magnitude_limit as int,
            ) == Some(v as int),
            None => parse_signed_spec(value@, -(magnitude_limit + 1), magnitude_limit as int) is None,
        },
{
    let text = value.as_str();
    let len = text.unicode_len();
    let negative = len > 0 && text.get_char(0) == '-';
    let signed = len > 0 && (text.get_char(0) == '+' || text.get_char(0) == '-');
    let start: usize = if signed {
        1
    } else {
        0
    };
    proof {
        if start == 1 {
            assert(value@.drop_first() == value@.subrange(1, value@.len() as int));
        } else {
            assert(value@ == value@.subrange(0, value@.len() as int));
        }
    }
    let limit: u64 = if negative {
        magnitude_limit + 1
    } else {
        magnitude_limit
    };
    match parse_digits(text, start, limit) {
        Some(magnitude) => if negative {
            Some(-(magnitude as i128))
        } else {
            Some(magnitude as i128)
        },
        None => {
            proof {
                let body = value@.subrange(start as int, value@.len() as int);
                if body.len() > 0 && all_digits(body) {
                    lemma_digits_value_nonneg(body);
                }
            }
            None
        },
    }
}

/// The rest of `word` after `prefix`, when `word` starts with `prefix`.
pub open spec fn strip_prefix_spec(word: Seq<char>, prefix: Seq<char>) -> Option<Seq<char>> {
    if word.len() >= prefix.len() && word.subrange(0, prefix.len() as int) == prefix {
        Some(word.subrange(prefix.len() as int, word.len() as int))
    } else {
        None
    }
}

/// Strips the literal `prefix` (of `prefix_len` characters) from the front of `word`.
pub fn strip_prefix_lit(word: &String, prefix: &str, prefix_len: usize) -> (result: Option<String>)
    requires
        prefix_len == prefix@.len(),
    ensures
        match result {
            Some(rest) => strip_prefix_spec(word@, prefix@) == Some(rest@),
            None => strip_prefix_spec(word@, prefix@) is None,
        },
{
    let text = word.as_str();
    let len = text.unicode_len();
    if len < prefix_len {
        return None;
    }
    let head = String::from_str(text.substring_char(0, prefix_len));
    if !eq_lit(&head, prefix) {
        return None;
    }
    Some(String::from_str(text.substring_char(prefix_len, len)))
}

/// ASCII digit for a value below ten.
pub open spec fn digit_char(d: nat) -> char {
    if d == 0 { '0' } else if d == 1 { '1' } else if d == 2 { '2' } else if d == 3 { '3' }
    else if d == 4 { '4' } else if d == 5 { '5' } else if d == 6 { '6' } else if d == 7 { '7' }
    else if d == 8 { '8' } else { '9' }
}

/// Decimal rendering of a natural number, without leading zeros.
pub open spec fn decimal(n: nat) -> Seq<char>
    decreases n,
{
    if n < 10 {
        seq![digit_char(n)]
    } else {
        decimal(n / 10).push(digit_char(n % 10))
    }
}

fn append_digit(text: &mut String, d: u64)
    requires
        d < 10,
    ensures
        final(text)@ == old(text)@.push(digit_char(d as nat)),
{
    proof {
        reveal_strlit("0");
        reveal_strlit("1");
        reveal_strlit("2");
        reveal_strlit("3");
        reveal_strlit("4");
        reveal_strlit("5");
        reveal_strlit("6");
        reveal_strlit("7");
        reveal_strlit("8");
        reveal_strlit("9");
    }
    let digit = if d == 0 {
        "0"
    } else if d == 1 {
        "1"
    } else if d == 2 {
        "2"
    } else if d == 3 {
        "3"
    } else if d == 4 {
        "4"
    } else if d == 5 {
        "5"
    } else if d == 6 {
        "6"
    } else if d == 7 {
        "7"
    } else if d == 8 {
        "8"
    } else {
        "9"
    };
    assert(digit@ =~= seq![digit_char(d as nat)]);
    text.append(digit);
    assert(text@ =~= old(text)@.push(digit_char(d as nat)));
}

/// Appends the decimal digits of `n`, without leading zeros.
pub fn append_decimal(text: &mut String, n: u64)
    ensures
        final(text)@ == old(text)@ + decimal(n as nat),
    decreases n,
{
    if n >= 10 {
        append_decimal(text, n / 10);
    }
    let ghost before = text@;
    append_digit(text, n % 10);
    proof {
        if n >= 10 {
            assert(decimal(n as nat) == decimal((n / 10) as nat).push(digit_char((n % 10) as nat)));
            assert(text@ =~= old(text)@ + decimal(n as nat));
        } else {
            assert(text@ =~= old(text)@ + decimal(n as nat));
        }
    }
}

/// Decimal rendering of a `u32`, without leading zeros.
pub(crate) fn u32_to_string(value: u32) -> (text: String)
    ensures
        text@ == decimal(value as nat),
{
    let mut text = String::new();
    append_decimal(&mut text, value as u64);
    assert(text@ =~= decimal(value as nat));
    text
}

} // verus!

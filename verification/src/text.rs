//! Character-level helpers shared by the resource-location logic: decimal
//! numerals (reading and writing) and searching for a marker substring.

use vstd::prelude::*;

verus! {

/// Relies on `String::push`, which appends the given character to the end
/// of the string; vstd specifies the type but not this method.
pub assume_specification[ String::push ](s: &mut String, c: char)
    ensures
        final(s)@ == old(s)@.push(c),
;

/// Uppercases an ASCII lowercase letter; any other character is unchanged.
pub open spec fn ascii_upper(c: char) -> char {
    if 'a' <= c && c <= 'z' {
        (((c as u32) - 32) as u8) as char
    } else {
        c
    }
}

/// The ten decimal digit characters.
pub open spec fn is_digit(c: char) -> bool {
    '0' <= c && c <= '9'
}

/// Numeric value of a digit character.
pub open spec fn digit_val(c: char) -> int {
    c as int - '0' as int
}

/// Every character of `s` is a decimal digit.
pub open spec fn all_digits(s: Seq<char>) -> bool {
    forall|i: int| 0 <= i < s.len() ==> is_digit(s[i])
}

/// Value of an unsigned decimal numeral (most significant digit first).
pub open spec fn dec_value(s: Seq<char>) -> int
    decreases s.len(),
{
    if s.len() == 0 {
        0
    } else {
        dec_value(s.drop_last()) * 10 + digit_val(s.last())
    }
}

/// A signed decimal numeral: an optional leading minus sign, then one or
/// more digits.
pub open spec fn is_numeral(s: Seq<char>) -> bool {
    if s.len() > 0 && s[0] == '-' {
        s.len() >= 2 && all_digits(s.subrange(1, s.len() as int))
    } else {
        s.len() >= 1 && all_digits(s)
    }
}

/// Value of a signed decimal numeral.
pub open spec fn numeral_value(s: Seq<char>) -> int {
    if s.len() > 0 && s[0] == '-' {
        -dec_value(s.subrange(1, s.len() as int))
    } else {
        dec_value(s)
    }
}

pub proof fn lemma_dec_value_nonneg(s: Seq<char>)
    requires
        all_digits(s),
    ensures
        dec_value(s) >= 0,
    decreases s.len(),
{
    if s.len() > 0 {
        assert(all_digits(s.drop_last()));
        lemma_dec_value_nonneg(s.drop_last());
    }
}

/// Extending a numeral by one digit multiplies its value by ten and adds
/// the digit.
pub proof fn lemma_dec_value_step(s: Seq<char>, i: int)
    requires
        0 <= i < s.len(),
    ensures
        dec_value(s.subrange(0, i + 1)) == dec_value(s.subrange(0, i)) * 10 + digit_val(s[i]),
{
    assert(s.subrange(0, i + 1).drop_last() =~= s.subrange(0, i));
    assert(s.subrange(0, i + 1).last() == s[i]);
}

/// A digit-string is at least as large as any of its prefixes.
pub proof fn lemma_dec_value_prefix_le(s: Seq<char>, i: int)
    requires
        all_digits(s),
        0 <= i <= s.len(),
    ensures
        dec_value(s.subrange(0, i)) <= dec_value(s),
    decreases s.len() - i,
{
    if i == s.len() {
        assert(s.subrange(0, i) =~= s);
    } else {
        lemma_dec_value_step(s, i);
        assert(all_digits(s.subrange(0, i)));
        lemma_dec_value_nonneg(s.subrange(0, i));
        lemma_dec_value_prefix_le(s, i + 1);
    }
}

/// Reads the characters of `s` in the index range `[from, to)` as a signed
/// decimal numeral. Returns the value exactly when the range is a
/// well-formed numeral whose value fits in `i16`.
pub fn parse_numeral_i16(s: &str, from: usize, to: usize) -> (r: Option<i16>)
    requires
        from <= to <= s@.len(),
    ensures
        match r {
            Some(v) => is_numeral(s@.subrange(from as int, to as int)) && v as int == numeral_value(
                s@.subrange(from as int, to as int),
            ),
            None => !(is_numeral(s@.subrange(from as int, to as int)) && i16::MIN
                <= numeral_value(s@.subrange(from as int, to as int)) <= i16::MAX),
        },
{
    let ghost whole = s@.subrange(from as int, to as int);
    if from == to {
        return None;
    }
    let first = s.get_char(from);
    let negative = first == '-';
    let start = if negative {
        from + 1
    } else {
        from
    };
    if start == to {
        // A lone minus sign has no digits.
        return None;
    }
    let ghost digits = s@.subrange(start as int, to as int);
    let mut i = start;
    // Magnitude so far, capped just above the largest magnitude an i16 can
    // carry; 32768 is the magnitude of i16::MIN.
    let mut magnitude: u32 = 0;
    let mut too_large = false;
    while i < to
        invariant
            from <= start <= i <= to <= s@.len(),
            start < to,
            whole == s@.subrange(from as int, to as int),
            negative == (s@[from as int] == '-'),
            start == if negative {
                from + 1
            } else {
                from as int
            },
            digits == s@.subrange(start as int, to as int),
            all_digits(digits.subrange(0, i - start)),
            !too_large ==> magnitude == dec_value(digits.subrange(0, i - start)) && magnitude
                <= 32768,
            too_large ==> dec_value(digits.subrange(0, i - start)) > 32768,
        decreases to - i,
    {
        let c = s.get_char(i);
        assert(digits[i - start] == s@[i as int]);
        if !('0' <= c && c <= '9') {
            assert(!all_digits(digits));
            proof {
                if negative {
                    assert(whole.subrange(1, whole.len() as int) =~= digits);
                } else {
                    assert(whole =~= digits);
                }
            }
            return None;
        }
        let d: u32 = (c as u32) - ('0' as u32);
        proof {
            lemma_dec_value_step(digits, i - start);
        }
        if too_large || magnitude > 3276 || (magnitude == 3276 && d > 8) {
            proof {
                if !too_large {
                    assert(dec_value(digits.subrange(0, i - start + 1)) > 32768);
                } else {
                    lemma_dec_value_nonneg(digits.subrange(0, i - start));
                    assert(dec_value(digits.subrange(0, i - start + 1)) > 32768);
                }
            }
            too_large = true;
        } else {
            magnitude = magnitude * 10 + d;
        }
        i = i + 1;
    }
    proof {
        assert(digits.subrange(0, to - start) =~= digits);
        if negative {
            assert(whole.subrange(1, whole.len() as int) =~= digits);
            assert(is_numeral(whole));
            assert(numeral_value(whole) == -dec_value(digits));
        } else {
            assert(whole =~= digits);
            assert(is_numeral(whole));
            assert(numeral_value(whole) == dec_value(digits));
        }
    }
    if too_large {
        return None;
    }
    if negative {
        if magnitude > 32768 {
            return None;
        }
        let v: i32 = -(magnitude as i32);
        Some(v as i16)
    } else {
        if magnitude > 32767 {
            return None;
        }
        Some(magnitude as i16)
    }
}

/// Digit character of a value below ten.
pub open spec fn dec_digit_char(d: int) -> char {
    if d == 0 {
        '0'
    } else if d == 1 {
        '1'
    } else if d == 2 {
        '2'
    } else if d == 3 {
        '3'
    } else if d == 4 {
        '4'
    } else if d == 5 {
        '5'
    } else if d == 6 {
        '6'
    } else if d == 7 {
        '7'
    } else if d == 8 {
        '8'
    } else {
        '9'
    }
}

/// Decimal numeral of a non-negative value, most significant digit first.
pub open spec fn dec_string(n: int) -> Seq<char>
    decreases n,
{
    if n < 10 {
        seq![dec_digit_char(n)]
    } else {
        dec_string(n / 10) + seq![dec_digit_char(n % 10)]
    }
}

/// Decimal numeral of a signed value.
pub open spec fn signed_dec_string(v: int) -> Seq<char> {
    if v < 0 {
        seq!['-'] + dec_string(-v)
    } else {
        dec_string(v)
    }
}

fn digit_str(d: u32) -> (r: &'static str)
    requires
        d < 10,
    ensures
        r@ =~= seq![dec_digit_char(d as int)],
{
    proof {
        reveal_strlit("0");
        reveal_strlit("1");
        reveal_strlit("2");
        reveal_strlit("3");
        reveal_strlit("4");
        reveal_strlit("5");
        reveal_strlit("6");
        reveal_strlit("7");
        reveal_strlit("8");
        reveal_strlit("9");
    }
    if d == 0 {
        "0"
    } else if d == 1 {
        "1"
    } else if d == 2 {
        "2"
    } else if d == 3 {
        "3"
    } else if d == 4 {
        "4"
    } else if d == 5 {
        "5"
    } else if d == 6 {
        "6"
    } else if d == 7 {
        "7"
    } else if d == 8 {
        "8"
    } else {
        "9"
    }
}

/// Writes a value in decimal.
pub fn u64_to_string(n: u64) -> (r: String)
    ensures
        r@ == dec_string(n as int),
    decreases n,
{
    if n < 10 {
        String::from_str(digit_str(n as u32))
    } else {
        let mut s = u64_to_string(n / 10);
        s.append(digit_str((n % 10) as u32));
        s
    }
}

/// Writes a signed value in decimal.
pub fn i16_to_string(v: i16) -> (r: String)
    ensures
        r@ == signed_dec_string(v as int),
{
    if v >= 0 {
        u64_to_string(v as u64)
    } else {
        let magnitude: i32 = -(v as i32);
        assert(0 < magnitude <= 32768);
        let mut s = String::from_str("-");
        proof {
            reveal_strlit("-");
        }
        s.append(u64_to_string(magnitude as u64).as_str());
        s
    }
}

} // verus!

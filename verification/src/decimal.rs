//! Decimal text: the integer that a text denotes, and the text that denotes
//! an integer.

use vstd::prelude::*;
use vstd::string::*;

verus! {

/// Whether a character is one of the ten decimal digits.
pub open spec fn is_digit(c: char) -> bool {
    '0' <= c <= '9'
}

/// The number that a decimal digit stands for.
pub open spec fn digit_value(c: char) -> int {
    c as int - '0' as int
}

/// The decimal digit that stands for a number below ten.
pub open spec fn digit_char(d: int) -> char {
    (d + '0' as int) as char
}

/// Whether a text holds decimal digits only.
pub open spec fn all_digits(s: Seq<char>) -> bool {
    forall|i: int| 0 <= i < s.len() ==> is_digit(#[trigger] s[i])
}

/// The number that a run of decimal digits denotes, the last digit counting
/// once, the one before it ten times, and so on.
pub open spec fn digits_value(s: Seq<char>) -> int
    decreases s.len(),
{
    if s.len() == 0 {
        0
    } else {
        10 * digits_value(s.drop_last()) + digit_value(s.last())
    }
}

/// Whether a text starts with a sign.
pub open spec fn has_sign(s: Seq<char>) -> bool {
    s.len() > 0 && (s[0] == '-' || s[0] == '+')
}

/// A text without its sign, if it has one.
pub open spec fn unsigned_part(s: Seq<char>) -> Seq<char> {
    if has_sign(s) {
        s.subrange(1, s.len() as int)
    } else {
        s
    }
}

/// The integer that a text denotes: an optional `+` or `-`, then at least
/// one decimal digit, and nothing before, between or after. Any other text
/// denotes no integer.
pub open spec fn decimal_value(s: Seq<char>) -> Option<int> {
    let digits = unsigned_part(s);
    if digits.len() > 0 && all_digits(digits) {
        if s[0] == '-' {
            Some(-digits_value(digits))
        } else {
            Some(digits_value(digits))
        }
    } else {
        None
    }
}

/// The `i32` that a text denotes, if it denotes an integer that an `i32` holds.
pub open spec fn i32_value(s: Seq<char>) -> Option<i32> {
    match decimal_value(s) {
        Some(v) => if i32::MIN <= v <= i32::MAX {
            Some(v as i32)
        } else {
            None
        },
        None => None,
    }
}

/// The decimal digits of a natural number, without leading zeros.
pub open spec fn digits_text(n: nat) -> Seq<char>
    decreases n,
{
    if n < 10 {
        seq![digit_char(n as int)]
    } else {
        digits_text(n / 10) + seq![digit_char((n % 10) as int)]
    }
}

/// The decimal text of an integer: its digits, after a `-` if it is negative.
pub open spec fn decimal_text(v: int) -> Seq<char> {
    if v < 0 {
        seq!['-'] + digits_text((-v) as nat)
    } else {
        digits_text(v as nat)
    }
}

/// A run of digits denotes no negative number.
pub proof fn lemma_digits_value_nonnegative(s: Seq<char>)
    requires
        all_digits(s),
    ensures
        digits_value(s) >= 0,
    decreases s.len(),
{
    if s.len() > 0 {
        lemma_digits_value_nonnegative(s.drop_last());
    }
}

/// What the first `k` digits of a run denote is no more than what the whole
/// run denotes.
pub proof fn lemma_digits_value_prefix(s: Seq<char>, k: int)
    requires
        all_digits(s),
        0 <= k <= s.len(),
    ensures
        digits_value(s.subrange(0, k)) <= digits_value(s),
    decreases s.len(),
{
    if k == s.len() {
        assert(s.subrange(0, k) =~= s);
    } else {
        assert(s.drop_last().subrange(0, k) =~= s.subrange(0, k));
        lemma_digits_value_prefix(s.drop_last(), k);
        lemma_digits_value_nonnegative(s.drop_last());
    }
}

/// The digits written for a natural number are digits only, at least one,
/// and denote that number.
pub proof fn lemma_digits_text_reads_back(n: nat)
    ensures
        digits_text(n).len() > 0,
        all_digits(digits_text(n)),
        digits_value(digits_text(n)) == n,
    decreases n,
{
    let text = digits_text(n);
    if n < 10 {
        assert(text.drop_last() =~= Seq::<char>::empty());
        reveal_with_fuel(digits_value, 2);
    } else {
        lemma_digits_text_reads_back(n / 10);
        assert(text.drop_last() =~= digits_text(n / 10));
        assert(text.last() == digit_char((n % 10) as int));
    }
}

/// What is written for an `i32` reads back as the same `i32`.
pub proof fn lemma_decimal_text_reads_back(value: i32)
    ensures
        i32_value(decimal_text(value as int)) == Some(value),
{
    let text = decimal_text(value as int);
    if value < 0 {
        let magnitude = (-(value as int)) as nat;
        lemma_digits_text_reads_back(magnitude);
        assert(text[0] == '-');
        assert(unsigned_part(text) =~= digits_text(magnitude));
    } else {
        lemma_digits_text_reads_back(value as nat);
        assert(is_digit(text[0]));
    }
}

/// Reads an `i32` from decimal text.
///
/// `Some` exactly for an optional sign followed by one or more decimal digits
/// whose value an `i32` holds; leading zeros are read, spaces and other
/// characters are not.
pub fn parse_i32(text: &str) -> (value: Option<i32>)
    ensures
        value == i32_value(text@),
{
    if !text.is_ascii() {
        proof {
            let i = choose|i: int| 0 <= i < text@.len() && !('\0' <= #[trigger] text@[i] <= '\u{7f}');
            if has_sign(text@) {
                assert(i >= 1);
                assert(unsigned_part(text@)[i - 1] == text@[i]);
            }
        }
        return None;
    }
    proof {
        is_ascii_spec_bytes(text);
    }
    let bytes = text.as_bytes();
    let n: usize = bytes.len();
    if n == 0 {
        return None;
    }
    let negative = bytes[0] == 45u8;
    let start: usize = if bytes[0] == 45u8 || bytes[0] == 43u8 {
        1
    } else {
        0
    };
    assert(has_sign(text@) <==> start == 1);
    assert(negative <==> text@[0] == '-');
    if start == n {
        return None;
    }
    let ghost digits = unsigned_part(text@);
    assert(digits.len() == n - start);
    let mut magnitude: i64 = 0;
    let mut i: usize = start;
    while i < n
        invariant
            start <= i <= n,
            n == bytes@.len(),
            n == text@.len(),
            text.is_ascii(),
            forall|j: int| 0 <= j < n ==> bytes@[j] == text@[j] as u8,
            digits == unsigned_part(text@),
            digits.len() == n - start,
            forall|j: int| 0 <= j < n - start ==> digits[j] == text@[start + j],
            all_digits(digits.subrange(0, i - start)),
            magnitude == digits_value(digits.subrange(0, i - start)),
            0 <= magnitude <= 2147483648,
        decreases n - i,
    {
        let b: u8 = bytes[i];
        if b < 48u8 || b > 57u8 {
            assert(!is_digit(digits[i - start]));
            return None;
        }
        let ghost before = digits.subrange(0, i - start);
        let ghost after = digits.subrange(0, i + 1 - start);
        assert(after.drop_last() =~= before);
        assert(after.last() == digits[i - start]);
        assert(all_digits(after));
        magnitude = magnitude * 10 + (b - 48u8) as i64;
        assert(magnitude == digits_value(after));
        if magnitude > 2147483648 {
            proof {
                if all_digits(digits) {
                    lemma_digits_value_prefix(digits, i + 1 - start);
                }
            }
            return None;
        }
        i += 1;
    }
    assert(digits.subrange(0, n - start) =~= digits);
    if negative {
        Some((-magnitude) as i32)
    } else if magnitude > 2147483647 {
        None
    } else {
        Some(magnitude as i32)
    }
}

/// Appends the decimal digits of `n` to `text`.
fn push_digits(text: &mut String, n: u32)
    ensures
        final(text)@ == old(text)@ + digits_text(n as nat),
    decreases n,
{
    if n >= 10 {
        push_digits(text, n / 10);
    }
    let d: usize = (n % 10) as usize;
    proof {
        reveal_strlit("0123456789");
        assert("0123456789"@.subrange(d as int, d + 1) =~= seq![digit_char(d as int)]);
    }
    text.append("0123456789".substring_ascii(d, d + 1));
}

/// Writes an `i32` as decimal text, with a leading `-` for a negative value
/// and no sign otherwise.
pub fn i32_to_string(value: i32) -> (text: String)
    ensures
        text@ == decimal_text(value as int),
{
    let mut text = String::new();
    let wide: i64 = value as i64;
    let magnitude: u32 = if wide < 0 {
        proof {
            reveal_strlit("-");
            assert("-"@ =~= seq!['-']);
        }
        text.append("-");
        (-wide) as u32
    } else {
        wide as u32
    };
    push_digits(&mut text, magnitude);
    text
}

} // verus!

//! Decimal numbers in text.

use vstd::prelude::*;

use crate::text;

verus! {

/// The character of a decimal digit.
pub open spec fn digit_char(d: int) -> char {
    (('0' as int) + d) as char
}

/// Whether a character is a decimal digit.
pub open spec fn is_digit(c: char) -> bool {
    '0' <= c <= '9'
}

/// The value of a decimal digit.
pub open spec fn digit_value(c: char) -> int {
    (c as int) - ('0' as int)
}

/// A natural number in decimal, without leading zeros.
pub open spec fn digits(n: nat) -> Seq<char>
    decreases n,
{
    if n < 10 {
        seq![digit_char(n as int)]
    } else {
        digits(n / 10).push(digit_char((n % 10) as int))
    }
}

/// A number in decimal.
pub open spec fn decimal(n: int) -> Seq<char> {
    if n < 0 {
        seq!['-'] + digits((-n) as nat)
    } else {
        digits(n as nat)
    }
}

/// Whether every character is a decimal digit.
pub open spec fn all_digits(s: Seq<char>) -> bool {
    forall|i: int| 0 <= i < s.len() ==> is_digit(#[trigger] s[i])
}

/// The value of a row of decimal digits.
pub open spec fn digits_value(s: Seq<char>) -> int
    decreases s.len(),
{
    if s.len() == 0 {
        0
    } else {
        10 * digits_value(s.drop_last()) + digit_value(s.last())
    }
}

/// The value of the digits of an optionally signed number.
pub open spec fn unsigned_part(s: Seq<char>) -> Seq<char> {
    if s.len() > 0 && (s[0] == '-' || s[0] == '+') {
        s.drop_first()
    } else {
        s
    }
}

/// The number a text holds: an optional sign and at least one decimal digit.
pub open spec fn int_value(s: Seq<char>) -> Option<int> {
    let body = unsigned_part(s);
    if body.len() > 0 && all_digits(body) {
        Some(
            if s[0] == '-' {
                -digits_value(body)
            } else {
                digits_value(body)
            },
        )
    } else {
        None
    }
}

/// The 32-bit number a text holds.
pub open spec fn i32_value(s: Seq<char>) -> Option<i32> {
    match int_value(s) {
        Some(n) => if i32::MIN <= n <= i32::MAX {
            Some(n as i32)
        } else {
            None
        },
        None => None,
    }
}

/// Returns the character of a decimal digit.
fn digit(d: u8) -> (c: char)
    requires
        d < 10,
    ensures
        c == digit_char(d as int),
{
    (48 + d) as char
}

/// Returns a natural number in decimal.
pub fn render(n: u64) -> (r: String)
    ensures
        r@ == decimal(n as int),
    decreases n,
{
    let last: char = digit((n % 10) as u8);
    let mut out: String = if n < 10 {
        String::new()
    } else {
        render(n / 10)
    };
    out.push(last);
    assert(out@ =~= digits(n as nat));
    out
}

/// Returns a number in decimal.
pub fn render_i32(n: i32) -> (r: String)
    ensures
        r@ == decimal(n as int),
{
    if n < 0 {
        let rest: String = render((-(n as i64)) as u64);
        let mut out: String = String::new();
        out.push('-');
        out.append(rest.as_str());
        assert(out@ =~= seq!['-'] + rest@);
        out
    } else {
        render(n as u64)
    }
}

proof fn lemma_value_nonnegative(s: Seq<char>)
    requires
        all_digits(s),
    ensures
        digits_value(s) >= 0,
    decreases s.len(),
{
    if s.len() > 0 {
        assert(is_digit(s.last()));
        assert(all_digits(s.drop_last()));
        lemma_value_nonnegative(s.drop_last());
    }
}

/// A longer row of digits holds no smaller number.
proof fn lemma_value_grows(s: Seq<char>, n: int)
    requires
        all_digits(s),
        0 <= n <= s.len(),
    ensures
        digits_value(s.take(n)) <= digits_value(s),
    decreases s.len(),
{
    if n == s.len() {
        assert(s.take(n) =~= s);
    } else {
        let shorter = s.drop_last();
        assert(is_digit(s.last()));
        assert(all_digits(shorter));
        lemma_value_grows(shorter, n);
        assert(shorter.take(n) =~= s.take(n));
        lemma_value_nonnegative(shorter);
    }
}

/// Returns the 32-bit number a text holds.
pub fn parse_i32(s: &str) -> (r: Option<i32>)
    ensures
        r == i32_value(s@),
{
    let chars: Vec<char> = text::chars_of(s);
    if chars.len() == 0 {
        return None;
    }
    let negative: bool = chars[0] == '-';
    let start: usize = if negative || chars[0] == '+' {
        1
    } else {
        0
    };
    let ghost body = unsigned_part(s@);
    assert(body =~= s@.skip(start as int));
    if start == chars.len() {
        return None;
    }
    let mut value: u64 = 0;
    let mut i: usize = start;
    assert(body.take(0) =~= Seq::<char>::empty());
    while i < chars.len()
        invariant
            start <= i <= chars.len(),
            start < chars.len(),
            chars@ == s@,
            start <= 1,
            body == s@.skip(start as int),
            body == unsigned_part(s@),
            value == digits_value(body.take(i - start)),
            value <= 2147483648,
            forall|j: int| 0 <= j < i - start ==> is_digit(#[trigger] body[j]),
        decreases chars.len() - i,
    {
        let c: char = chars[i];
        assert(body[i - start] == c);
        if !('0' <= c && c <= '9') {
            assert(!all_digits(body));
            return None;
        }
        assert(body.take(i - start + 1).drop_last() =~= body.take(i - start));
        value = 10 * value + ((c as u32) - 48) as u64;
        i = i + 1;
        if value > 2147483648 {
            proof {
                if all_digits(body) {
                    lemma_value_grows(body, i - start);
                }
            }
            return None;
        }
    }
    assert(body.take(i - start) =~= body);
    assert(all_digits(body));
    if negative {
        let v: i64 = -(value as i64);
        Some(v as i32)
    } else if value <= 2147483647 {
        Some(value as i32)
    } else {
        None
    }
}

proof fn lemma_digits(n: nat)
    ensures
        digits(n).len() > 0,
        all_digits(digits(n)),
        digits_value(digits(n)) == n,
    decreases n,
{
    if n < 10 {
        assert(digits(n).drop_last() =~= Seq::<char>::empty());
        assert(digits_value(digits(n).drop_last()) == 0);
    } else {
        lemma_digits(n / 10);
        assert(digits(n).drop_last() =~= digits(n / 10));
        assert forall|i: int| 0 <= i < digits(n).len() implies is_digit(#[trigger] digits(n)[i]) by {
            if i < digits(n).len() - 1 {
                assert(is_digit(digits(n / 10)[i]));
            }
        }
    }
}

/// A rendered number reads back as itself.
pub proof fn law_decimal_reads_back(n: i32)
    ensures
        i32_value(decimal(n as int)) == Some(n),
{
    let s = decimal(n as int);
    if n < 0 {
        lemma_digits((-n) as nat);
        assert(s.drop_first() =~= digits((-n) as nat));
    } else {
        lemma_digits(n as nat);
        assert(is_digit(digits(n as nat)[0]));
    }
}

/// A rendered number consists of digits, after a sign if it is negative.
pub proof fn law_decimal_is_plain(n: int)
    ensures
        n >= 0 ==> decimal(n).len() > 0 && all_digits(decimal(n)),
        n < 0 ==> decimal(n).len() > 1 && decimal(n)[0] == '-' && all_digits(
            decimal(n).drop_first(),
        ),
{
    if n < 0 {
        lemma_digits((-n) as nat);
        assert(decimal(n).drop_first() =~= digits((-n) as nat));
    } else {
        lemma_digits(n as nat);
    }
}

/// A rendered number has no leading zeros.
pub proof fn law_decimal_has_no_leading_zeros(n: nat)
    ensures
        decimal(n as int)[0] == '0' <==> n == 0,
    decreases n,
{
    lemma_digits(n);
    if n >= 10 {
        law_decimal_has_no_leading_zeros(n / 10);
        lemma_digits(n / 10);
        assert(digits(n)[0] == digits(n / 10)[0]);
    }
}

/// A rendered number stands for that number, however large it is.
pub proof fn law_decimal_has_its_value(n: nat)
    ensures
        int_value(decimal(n as int)) == Some(n as int),
        n > 0 ==> int_value(decimal(-(n as int))) == Some(-(n as int)),
{
    lemma_digits(n);
    assert(is_digit(digits(n)[0]));
    if n > 0 {
        let s = decimal(-(n as int));
        assert(s.drop_first() =~= digits(n));
    }
}

/// Another digit at the end makes a number ten times as large and adds the
/// digit. A sign in front of digits says whether to count up or down.
pub proof fn law_digits_count_in_tens(s: Seq<char>, d: char)
    requires
        s.len() > 0,
        all_digits(s),
        is_digit(d),
    ensures
        int_value(s.push(d)) == Some(10 * int_value(s)->0 + (d as int - '0' as int)),
        int_value(seq!['-'] + s) == Some(-int_value(s)->0),
        int_value(seq!['+'] + s) == int_value(s),
{
    assert(is_digit(s[0]));
    assert(s.push(d)[0] == s[0]);
    assert forall|i: int| 0 <= i < s.push(d).len() implies is_digit(#[trigger] s.push(d)[i]) by {
        if i < s.len() {
            assert(is_digit(s[i]));
        }
    }
    assert(s.push(d).drop_last() =~= s);
    assert((seq!['-'] + s).drop_first() =~= s);
    assert((seq!['+'] + s).drop_first() =~= s);
}

/// A text holds a 32-bit number exactly if it holds a number in that range,
/// and then it is the same number.
pub proof fn law_numbers_are_read_in_range(s: Seq<char>, n: i32)
    ensures
        i32_value(s) == Some(n) <==> int_value(s) == Some(n as int),
        i32_value(s) is None <==> int_value(s) is None || int_value(s)->0 < -0x8000_0000
            || int_value(s)->0 > 0x7fff_ffff,
{
}

} // verus!

//! Decimal notation for 32-bit signed integers: reading an exit code from an
//! argument and writing a status code into a message.

use vstd::prelude::*;

verus! {

/// Whether `c` is one of the ten decimal digits.
pub open spec fn is_digit(c: char) -> bool {
    '0' <= c <= '9'
}

/// Whether `s` consists of decimal digits only.
pub open spec fn all_digits(s: Seq<char>) -> bool {
    forall|i: int| 0 <= i < s.len() ==> is_digit(#[trigger] s[i])
}

/// The number that a run of decimal digits denotes; leading zeros count for
/// nothing.
pub open spec fn digits_value(s: Seq<char>) -> int
    decreases s.len(),
{
    if s.len() == 0 {
        0
    } else {
        digits_value(s.drop_last()) * 10 + (s.last() as u32 - '0' as u32)
    }
}

/// Whether `s` begins with a plus or minus sign.
pub open spec fn has_sign(s: Seq<char>) -> bool {
    s.len() > 0 && (s[0] == '-' || s[0] == '+')
}

/// The digits of `s`: all of it but a leading sign.
pub open spec fn unsigned_part(s: Seq<char>) -> Seq<char> {
    if has_sign(s) {
        s.skip(1)
    } else {
        s
    }
}

/// The number that `s` denotes without regard to range: the value of its
/// digits, negated after a minus sign.
pub open spec fn signed_value(s: Seq<char>) -> int {
    if s.len() > 0 && s[0] == '-' {
        -digits_value(unsigned_part(s))
    } else {
        digits_value(unsigned_part(s))
    }
}

/// The integer written in `s`, where `s` is an optional sign followed by at
/// least one decimal digit and nothing else, and the number fits in 32 bits.
pub open spec fn parse_decimal(s: Seq<char>) -> Option<i32> {
    if unsigned_part(s).len() > 0 && all_digits(unsigned_part(s)) && i32::MIN <= signed_value(s)
        <= i32::MAX {
        Some(signed_value(s) as i32)
    } else {
        None
    }
}

/// The character for a digit value.
pub open spec fn digit_char(d: int) -> char {
    if d == 0 {
        '0'
    } else if d == 1 {
        '1'
    } else if d == 2 {
        '2'
    } else if d == 3 {
        '3'
    } else if d == 4 {
        '4'
    } else if d == 5 {
        '5'
    } else if d == 6 {
        '6'
    } else if d == 7 {
        '7'
    } else if d == 8 {
        '8'
    } else {
        '9'
    }
}

/// The decimal digits of a natural number, without leading zeros.
pub open spec fn natural_text(n: nat) -> Seq<char>
    decreases n,
{
    if n < 10 {
        seq![digit_char(n as int)]
    } else {
        natural_text(n / 10).push(digit_char((n % 10) as int))
    }
}

/// The decimal notation of an integer: its digits, after a minus sign where
/// it is negative.
pub open spec fn decimal_text(n: int) -> Seq<char> {
    if n < 0 {
        seq!['-'] + natural_text((-n) as nat)
    } else {
        natural_text(n as nat)
    }
}

/// The digits written for a natural number denote that number.
pub proof fn lemma_natural_text_value(n: nat)
    ensures
        natural_text(n).len() > 0,
        all_digits(natural_text(n)),
        digits_value(natural_text(n)) == n,
        !has_sign(natural_text(n)),
    decreases n,
{
    if n < 10 {
        assert(digits_value(natural_text(n).drop_last()) == 0);
    } else {
        lemma_natural_text_value(n / 10);
        assert(natural_text(n).drop_last() =~= natural_text(n / 10));
    }
}

/// Reading what was written gives the number back.
pub proof fn lemma_parse_of_decimal_text(n: i32)
    ensures
        parse_decimal(decimal_text(n as int)) == Some(n),
{
    if n < 0 {
        lemma_natural_text_value((-n) as nat);
        assert(decimal_text(n as int).skip(1) =~= natural_text((-n) as nat));
    } else {
        lemma_natural_text_value(n as nat);
    }
}

/// Appending a digit never lowers the value of a run of digits.
proof fn lemma_digits_value_grows(s: Seq<char>)
    requires
        all_digits(s),
    ensures
        digits_value(s) >= 0,
        s.len() > 0 ==> digits_value(s) >= digits_value(s.drop_last()),
    decreases s.len(),
{
    if s.len() > 0 {
        lemma_digits_value_grows(s.drop_last());
    }
}

/// Reads a 32-bit signed integer in decimal notation.
pub fn parse_i32(s: &str) -> (parsed: Option<i32>)
    ensures
        parsed == parse_decimal(s@),
{
    let mut first = true;
    let mut signed = false;
    let mut negative = false;
    let mut empty = true;
    let mut acc: i64 = 0;
    let mut over = false;
    for c in it: s.chars()
        invariant
            it.seq() == s@,
            first == (it.index() == 0),
            signed == (it.index() > 0 && has_sign(s@)),
            negative == (it.index() > 0 && s@[0] == '-'),
            empty == (it.index() <= if signed { 1int } else { 0int }),
            all_digits(s@.subrange(if signed { 1int } else { 0int }, it.index() as int)),
            !over ==> acc == digits_value(
                s@.subrange(if signed { 1int } else { 0int }, it.index() as int),
            ),
            !over ==> 0 <= acc <= 0x8000_0000,
            over ==> digits_value(s@.subrange(if signed { 1int } else { 0int }, it.index() as int))
                > 0x8000_0000,
    {
        let ghost i = it.index();
        if first && (c == '-' || c == '+') {
            signed = true;
            negative = c == '-';
        } else {
            let ghost start = if signed { 1int } else { 0int };
            let ghost after = s@.subrange(start, i + 1);
            assert(after.drop_last() =~= s@.subrange(start, i));
            if c < '0' || c > '9' {
                assert(unsigned_part(s@)[i - start] == c);
                return None;
            }
            proof {
                assert(all_digits(after));
                lemma_digits_value_grows(after);
            }
            empty = false;
            if !over {
                acc = acc * 10 + (c as u32 - '0' as u32) as i64;
                if acc > 0x8000_0000 {
                    over = true;
                }
            }
        }
        first = false;
    }
    proof {
        assert(s@.subrange(if signed { 1int } else { 0int }, s@.len() as int) =~= unsigned_part(
            s@,
        ));
    }
    if empty || over {
        None
    } else if negative {
        Some((-acc) as i32)
    } else if acc > 0x7fff_ffff {
        None
    } else {
        Some(acc as i32)
    }
}

/// The one-character text of a digit value.
fn digit_str(d: u32) -> (text: &'static str)
    requires
        d < 10,
    ensures
        text@ == seq![digit_char(d as int)],
{
    proof {
        reveal_strlit("0");
        reveal_strlit("1");
        reveal_strlit("2");
        reveal_strlit("3");
        reveal_strlit("4");
        reveal_strlit("5");
        reveal_strlit("6");
        reveal_strlit("7");
        reveal_strlit("8");
        reveal_strlit("9");
    }
    if d == 0 {
        "0"
    } else if d == 1 {
        "1"
    } else if d == 2 {
        "2"
    } else if d == 3 {
        "3"
    } else if d == 4 {
        "4"
    } else if d == 5 {
        "5"
    } else if d == 6 {
        "6"
    } else if d == 7 {
        "7"
    } else if d == 8 {
        "8"
    } else {
        "9"
    }
}

/// Appends the decimal digits of `n` to `out`.
fn push_natural(out: &mut String, n: u32)
    ensures
        final(out)@ == old(out)@ + natural_text(n as nat),
    decreases n,
{
    if n >= 10 {
        push_natural(out, n / 10);
    }
    out.append(digit_str(n % 10));
}

/// Writes a 32-bit signed integer in decimal notation.
pub fn decimal(n: i32) -> (text: String)
    ensures
        text@ == decimal_text(n as int),
{
    let mut text = String::new();
    if n < 0 {
        proof {
            reveal_strlit("-");
        }
        text.append("-");
        let magnitude: i64 = -(n as i64);
        push_natural(&mut text, magnitude as u32);
    } else {
        push_natural(&mut text, n as u32);
    }
    text
}

} // verus!

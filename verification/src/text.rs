use vstd::prelude::*;
use vstd::string::*;

verus! {

/// The character that stands for a decimal digit.
pub open spec fn digit_char(d: int) -> char {
    if d == 0 {
        '0'
    } else if d == 1 {
        '1'
    } else if d == 2 {
        '2'
    } else if d == 3 {
        '3'
    } else if d == 4 {
        '4'
    } else if d == 5 {
        '5'
    } else if d == 6 {
        '6'
    } else if d == 7 {
        '7'
    } else if d == 8 {
        '8'
    } else {
        '9'
    }
}

/// The decimal numeral of `n`, without sign or leading zeros; zero is "0".
pub open spec fn decimal_digits(n: nat) -> Seq<char>
    decreases n,
{
    if n < 10 {
        seq![digit_char(n as int)]
    } else {
        decimal_digits(n / 10).push(digit_char((n % 10) as int))
    }
}

/// The character that stands for a four-bit value in upper-case hexadecimal.
pub open spec fn upper_hex_char(d: int) -> char {
    if d < 10 {
        digit_char(d)
    } else if d == 10 {
        'A'
    } else if d == 11 {
        'B'
    } else if d == 12 {
        'C'
    } else if d == 13 {
        'D'
    } else if d == 14 {
        'E'
    } else {
        'F'
    }
}

/// The character that stands for a four-bit value in lower-case hexadecimal.
pub open spec fn lower_hex_char(d: int) -> char {
    if d < 10 {
        digit_char(d)
    } else if d == 10 {
        'a'
    } else if d == 11 {
        'b'
    } else if d == 12 {
        'c'
    } else if d == 13 {
        'd'
    } else if d == 14 {
        'e'
    } else {
        'f'
    }
}

/// A byte as two upper-case hexadecimal digits.
pub open spec fn upper_hex_byte(b: u8) -> Seq<char> {
    seq![upper_hex_char(b as int / 16), upper_hex_char(b as int % 16)]
}

/// A 16-bit value as four upper-case hexadecimal digits.
pub open spec fn upper_hex_word(w: u16) -> Seq<char> {
    upper_hex_byte((w as int / 256) as u8) + upper_hex_byte((w as int % 256) as u8)
}

/// A byte string as lower-case hexadecimal, two digits per byte, in order.
pub open spec fn lower_hex_string(data: Seq<u8>) -> Seq<char> {
    Seq::new(
        2 * data.len(),
        |i: int|
            if i % 2 == 0 {
                lower_hex_char(data[i / 2] as int / 16)
            } else {
                lower_hex_char(data[i / 2] as int % 16)
            },
    )
}

/// The one-character string of a four-bit value in upper-case hexadecimal.
fn upper_hex_str(d: u8) -> (s: &'static str)
    requires
        d < 16,
    ensures
        s@ == seq![upper_hex_char(d as int)],
{
    proof {
        reveal_strlit("0");
        reveal_strlit("1");
        reveal_strlit("2");
        reveal_strlit("3");
        reveal_strlit("4");
        reveal_strlit("5");
        reveal_strlit("6");
        reveal_strlit("7");
        reveal_strlit("8");
        reveal_strlit("9");
        reveal_strlit("A");
        reveal_strlit("B");
        reveal_strlit("C");
        reveal_strlit("D");
        reveal_strlit("E");
        reveal_strlit("F");
    }
    let s = if d == 0 {
        "0"
    } else if d == 1 {
        "1"
    } else if d == 2 {
        "2"
    } else if d == 3 {
        "3"
    } else if d == 4 {
        "4"
    } else if d == 5 {
        "5"
    } else if d == 6 {
        "6"
    } else if d == 7 {
        "7"
    } else if d == 8 {
        "8"
    } else if d == 9 {
        "9"
    } else if d == 10 {
        "A"
    } else if d == 11 {
        "B"
    } else if d == 12 {
        "C"
    } else if d == 13 {
        "D"
    } else if d == 14 {
        "E"
    } else {
        "F"
    };
    assert(s@ =~= seq![upper_hex_char(d as int)]);
    s
}

/// The one-character string of a four-bit value in lower-case hexadecimal.
pub(crate) fn lower_hex_str(d: u8) -> (s: &'static str)
    requires
        d < 16,
    ensures
        s@ == seq![lower_hex_char(d as int)],
{
    if d < 10 {
        upper_hex_str(d)
    } else {
        proof {
            reveal_strlit("a");
            reveal_strlit("b");
            reveal_strlit("c");
            reveal_strlit("d");
            reveal_strlit("e");
            reveal_strlit("f");
        }
        let s = if d == 10 {
            "a"
        } else if d == 11 {
            "b"
        } else if d == 12 {
            "c"
        } else if d == 13 {
            "d"
        } else if d == 14 {
            "e"
        } else {
            "f"
        };
        assert(s@ =~= seq![lower_hex_char(d as int)]);
        s
    }
}

/// A 16-bit value as four lower-case hexadecimal digits.
pub open spec fn lower_hex_word(w: u16) -> Seq<char> {
    seq![
        lower_hex_char(w as int / 4096),
        lower_hex_char(w as int / 256 % 16),
        lower_hex_char(w as int / 16 % 16),
        lower_hex_char(w as int % 16),
    ]
}

/// Appends a 16-bit value as four lower-case hexadecimal digits.
pub fn push_lower_hex_word(out: &mut String, w: u16)
    ensures
        final(out)@ == old(out)@ + lower_hex_word(w),
{
    out.append(lower_hex_str((w / 4096) as u8));
    out.append(lower_hex_str((w / 256 % 16) as u8));
    out.append(lower_hex_str((w / 16 % 16) as u8));
    out.append(lower_hex_str((w % 16) as u8));
    assert(final(out)@ =~= old(out)@ + lower_hex_word(w));
}

/// Appends the decimal numeral of `n` to `out`.
pub fn push_decimal(out: &mut String, n: u64)
    ensures
        final(out)@ == old(out)@ + decimal_digits(n as nat),
    decreases n,
{
    if n >= 10 {
        push_decimal(out, n / 10);
    }
    let d = (n % 10) as u8;
    out.append(upper_hex_str(d));
    assert(final(out)@ =~= old(out)@ + decimal_digits(n as nat));
}

/// The decimal numeral of `n`.
pub fn decimal(n: u64) -> (s: String)
    ensures
        s@ == decimal_digits(n as nat),
{
    let mut s = String::new();
    push_decimal(&mut s, n);
    assert(s@ =~= decimal_digits(n as nat));
    s
}

/// Appends a byte as two upper-case hexadecimal digits.
pub fn push_upper_hex_byte(out: &mut String, b: u8)
    ensures
        final(out)@ == old(out)@ + upper_hex_byte(b),
{
    out.append(upper_hex_str(b / 16));
    out.append(upper_hex_str(b % 16));
    assert(final(out)@ =~= old(out)@ + upper_hex_byte(b));
}

/// Appends a 16-bit value as four upper-case hexadecimal digits.
pub fn push_upper_hex_word(out: &mut String, w: u16)
    ensures
        final(out)@ == old(out)@ + upper_hex_word(w),
{
    push_upper_hex_byte(out, (w / 256) as u8);
    push_upper_hex_byte(out, (w % 256) as u8);
    assert(final(out)@ =~= old(out)@ + upper_hex_word(w));
}

/// Lower-case hexadecimal text of a byte string, as `hex::encode` produces
/// it: for each byte in order the digit of its high four bits, then the
/// digit of its low four bits, from the alphabet `0123456789abcdef`.
#[verifier::external_body]
pub(crate) fn hex_encode(data: &[u8]) -> (s: String)
    ensures
        s@ == lower_hex_string(data@),
{
    hex::encode(data)
}

/// The text `a` followed by the text `b`.
pub fn join(a: &str, b: &str) -> (s: String)
    ensures
        s@ == a@ + b@,
{
    let mut s = String::from_str(a);
    s.append(b);
    s
}

} // verus!

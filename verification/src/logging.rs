use crate::text::{lower_hex_char, lower_hex_str};
use vstd::prelude::*;
use vstd::string::*;

verus! {

/// The lower-case hexadecimal numeral of `n`, without leading zeros; zero
/// is "0".
pub open spec fn hex_digits(n: nat) -> Seq<char>
    decreases n,
{
    if n < 16 {
        seq![lower_hex_char(n as int)]
    } else {
        hex_digits(n / 16).push(lower_hex_char((n % 16) as int))
    }
}

/// Appends the lower-case hexadecimal numeral of `n` to `out`.
pub fn push_hex(out: &mut String, n: u64)
    ensures
        final(out)@ == old(out)@ + hex_digits(n as nat),
    decreases n,
{
    if n >= 16 {
        push_hex(out, n / 16);
    }
    out.append(lower_hex_str((n % 16) as u8));
    assert(final(out)@ =~= old(out)@ + hex_digits(n as nat));
}

/// The text of a request identifier: its number in lower-case hexadecimal.
pub fn request_id_text(n: u64) -> (s: String)
    ensures
        s@ == hex_digits(n as nat),
{
    let mut s = String::new();
    push_hex(&mut s, n);
    assert(s@ =~= hex_digits(n as nat));
    s
}

/// A 64-bit number from `rand::random`, which draws it from the thread's
/// generator. Nothing is known of it but its type.
#[verifier::external_body]
fn random_number() -> u64 {
    rand::random::<u64>()
}

/// A request identifier drawn at random: some 64-bit number in
/// lower-case hexadecimal.
pub fn generate_request_id() -> (id: String)
    ensures
        exists|n: u64| id@ == hex_digits(n as nat),
        1 <= id@.len() <= 16,
{
    let n = random_number();
    proof {
        assert(pow16(16) == 0x1_0000_0000_0000_0000) by {
            reveal_with_fuel(pow16, 17);
        }
        lemma_hex_length(n as nat, 16);
    }
    request_id_text(n)
}

/// 16 to the power `e`.
pub open spec fn pow16(e: nat) -> nat
    decreases e,
{
    if e == 0 {
        1
    } else {
        16 * pow16((e - 1) as nat)
    }
}

/// A number below 16 to the power `width` is written in at most `width`
/// digits, and in at least one.
pub proof fn lemma_hex_length(n: nat, width: nat)
    requires
        width >= 1,
        n < pow16(width),
    ensures
        1 <= hex_digits(n).len() <= width,
    decreases width,
{
    if n >= 16 {
        assert(width >= 2) by {
            if width == 1 {
                assert(pow16(1) == 16 * pow16(0));
            }
        }
        lemma_hex_length(n / 16, (width - 1) as nat);
    }
}

} // verus!

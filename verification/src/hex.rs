//! Hexadecimal notation of a 64-bit hash: `0x`, then the digits in lower
//! case without leading zeros.
use vstd::prelude::*;
use vstd::string::StringExecFns;

verus! {

/// The sixteen digits, each at the index of its value.
pub open spec fn hex_alphabet() -> Seq<char> {
    seq!['0', '1', '2', '3', '4', '5', '6', '7', '8', '9', 'a', 'b', 'c', 'd', 'e', 'f']
}

/// The digit that writes the value `d`, for `d` below sixteen.
pub open spec fn hex_digit(d: nat) -> char
    recommends
        d < 16,
{
    hex_alphabet()[d as int]
}

/// The digits of `n` in base sixteen, most significant first; one digit for zero.
pub open spec fn hex_digits(n: nat) -> Seq<char>
    decreases n,
{
    if n < 16 {
        seq![hex_digit(n)]
    } else {
        hex_digits(n / 16).push(hex_digit(n % 16))
    }
}

/// The text that stands for a hash without a label: `0x` and its digits.
pub open spec fn hex_label(n: u64) -> Seq<char> {
    seq!['0', 'x'] + hex_digits(n as nat)
}

/// The one-character text of a digit.
fn digit_str(d: u64) -> (s: &'static str)
    requires
        d < 16,
    ensures
        s@ == seq![hex_digit(d as nat)],
{
    proof {
        reveal_strlit("0");
        reveal_strlit("1");
        reveal_strlit("2");
        reveal_strlit("3");
        reveal_strlit("4");
        reveal_strlit("5");
        reveal_strlit("6");
        reveal_strlit("7");
        reveal_strlit("8");
        reveal_strlit("9");
        reveal_strlit("a");
        reveal_strlit("b");
        reveal_strlit("c");
        reveal_strlit("d");
        reveal_strlit("e");
        reveal_strlit("f");
    }
    if d == 0 {
        "0"
    } else if d == 1 {
        "1"
    } else if d == 2 {
        "2"
    } else if d == 3 {
        "3"
    } else if d == 4 {
        "4"
    } else if d == 5 {
        "5"
    } else if d == 6 {
        "6"
    } else if d == 7 {
        "7"
    } else if d == 8 {
        "8"
    } else if d == 9 {
        "9"
    } else if d == 10 {
        "a"
    } else if d == 11 {
        "b"
    } else if d == 12 {
        "c"
    } else if d == 13 {
        "d"
    } else if d == 14 {
        "e"
    } else {
        "f"
    }
}

/// Appends the digits of `n` to `out`.
fn push_hex_digits(out: &mut String, n: u64)
    ensures
        final(out)@ == old(out)@ + hex_digits(n as nat),
    decreases n,
{
    if n >= 16 {
        push_hex_digits(out, n / 16);
    }
    out.append(digit_str(n % 16));
}

/// Writes a hash in hexadecimal notation, as `{:#x}` formats it.
pub fn to_hex(n: u64) -> (text: String)
    ensures
        text@ == hex_label(n),
{
    let mut text = String::from_str("0x");
    proof {
        reveal_strlit("0x");
    }
    push_hex_digits(&mut text, n);
    text
}

/// The value of a digit; zero for a character that is no digit.
pub open spec fn digit_value(c: char) -> nat {
    if hex_alphabet().contains(c) {
        hex_alphabet().index_of(c) as nat
    } else {
        0
    }
}

/// The number that a sequence of digits writes in base sixteen.
pub open spec fn hex_value(digits: Seq<char>) -> nat
    decreases digits.len(),
{
    if digits.len() == 0 {
        0
    } else {
        hex_value(digits.drop_last()) * 16 + digit_value(digits.last())
    }
}

/// Each digit has its own character.
pub proof fn digit_value_of_digit(d: nat)
    requires
        d < 16,
    ensures
        digit_value(hex_digit(d)) == d,
{
    let alphabet = hex_alphabet();
    let at = alphabet.index_of(hex_digit(d));
    assert(alphabet[d as int] == hex_digit(d));
    assert(0 <= at < 16 && alphabet[at] == hex_digit(d));
}

/// The digits of a number write that number.
pub proof fn hex_digits_value(n: nat)
    ensures
        hex_value(hex_digits(n)) == n,
    decreases n,
{
    let digits = hex_digits(n);
    if n < 16 {
        assert(hex_value(digits.drop_last()) == 0);
        digit_value_of_digit(n);
    } else {
        assert(digits.drop_last() =~= hex_digits(n / 16));
        hex_digits_value(n / 16);
        digit_value_of_digit(n % 16);
    }
}

/// The hexadecimal notation tells hashes apart: two hashes with the same
/// notation are the same hash.
pub proof fn hex_label_is_injective(a: u64, b: u64)
    requires
        hex_label(a) == hex_label(b),
    ensures
        a == b,
{
    assert(hex_label(a).subrange(2, hex_label(a).len() as int) =~= hex_digits(a as nat));
    assert(hex_label(b).subrange(2, hex_label(b).len() as int) =~= hex_digits(b as nat));
    hex_digits_value(a as nat);
    hex_digits_value(b as nat);
}

/// Whether a text begins with `0x`, as every hexadecimal notation does.
pub open spec fn has_hex_prefix(text: Seq<char>) -> bool {
    text.len() >= 2 && text[0] == '0' && text[1] == 'x'
}

/// Every hexadecimal notation begins with `0x`.
pub proof fn hex_label_has_prefix(n: u64)
    ensures
        has_hex_prefix(hex_label(n)),
{
}

} // verus!

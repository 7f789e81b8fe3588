//! Numbers as text: the decimal and hexadecimal forms that error messages show.

use vstd::prelude::*;
use vstd::arithmetic::div_mod::lemma_div_decreases;
use vstd::string::*;

verus! {

/// The sixteen digit characters, in the order of their values.
pub open spec fn digit_chars() -> Seq<char> {
    seq!['0', '1', '2', '3', '4', '5', '6', '7', '8', '9', 'a', 'b', 'c', 'd', 'e', 'f']
}

/// The digits of `n` in the given base, most significant first and without
/// leading zeros; zero is the single digit `0`.
pub open spec fn digits_in_base(n: nat, base: nat) -> Seq<char>
    recommends
        2 <= base <= 16,
    decreases n,
{
    if n < base || base < 2 {
        seq![digit_chars()[n as int]]
    } else {
        proof {
            lemma_div_decreases(n as int, base as int);
        }
        digits_in_base(n / base, base).push(digit_chars()[(n % base) as int])
    }
}

/// `n` in decimal.
pub open spec fn decimal(n: nat) -> Seq<char> {
    digits_in_base(n, 10)
}

/// `n` in lower-case hexadecimal behind the prefix `0x`.
pub open spec fn hexadecimal(n: nat) -> Seq<char> {
    seq!['0', 'x'] + digits_in_base(n, 16)
}

/// A label with a detail in round brackets behind it.
pub open spec fn labelled(label: Seq<char>, detail: Seq<char>) -> Seq<char> {
    label + "("@ + detail + ")"@
}

/// The one-character text of a digit.
fn digit_text(d: u64) -> (s: &'static str)
    requires
        d < 16,
    ensures
        s@ == seq![digit_chars()[d as int]],
{
    proof {
        reveal_strlit("0");
        reveal_strlit("1");
        reveal_strlit("2");
        reveal_strlit("3");
        reveal_strlit("4");
        reveal_strlit("5");
        reveal_strlit("6");
        reveal_strlit("7");
        reveal_strlit("8");
        reveal_strlit("9");
        reveal_strlit("a");
        reveal_strlit("b");
        reveal_strlit("c");
        reveal_strlit("d");
        reveal_strlit("e");
        reveal_strlit("f");
    }
    let s = match d {
        0 => "0",
        1 => "1",
        2 => "2",
        3 => "3",
        4 => "4",
        5 => "5",
        6 => "6",
        7 => "7",
        8 => "8",
        9 => "9",
        10 => "a",
        11 => "b",
        12 => "c",
        13 => "d",
        14 => "e",
        _ => "f",
    };
    assert(s@ =~= seq![digit_chars()[d as int]]);
    s
}

/// Appends the digits of `n` in the given base to `out`.
fn append_digits(out: &mut String, n: u64, base: u64)
    requires
        2 <= base <= 16,
    ensures
        final(out)@ == old(out)@ + digits_in_base(n as nat, base as nat),
    decreases n,
{
    if n < base {
        out.append(digit_text(n));
    } else {
        proof {
            lemma_div_decreases(n as int, base as int);
        }
        append_digits(out, n / base, base);
        let ghost front = digits_in_base((n / base) as nat, base as nat);
        out.append(digit_text(n % base));
        assert(out@ =~= old(out)@ + front.push(digit_chars()[(n % base) as int]));
    }
}

/// Appends `n` in decimal to `out`, as `{}` prints an unsigned integer.
pub fn append_decimal(out: &mut String, n: u64)
    ensures
        final(out)@ == old(out)@ + decimal(n as nat),
{
    append_digits(out, n, 10);
}

/// Appends `n` in hexadecimal, prefix included, to `out`, as `{:#x}` prints
/// an unsigned integer.
pub fn append_hexadecimal(out: &mut String, n: u64)
    ensures
        final(out)@ == old(out)@ + hexadecimal(n as nat),
{
    proof {
        reveal_strlit("0x");
    }
    out.append("0x");
    assert(out@ =~= old(out)@ + seq!['0', 'x']);
    append_digits(out, n, 16);
    assert(out@ =~= old(out)@ + hexadecimal(n as nat));
}

/// The label, then the detail in round brackets.
pub fn labelled_string(label: &str, detail: &str) -> (s: String)
    ensures
        s@ == labelled(label@, detail@),
{
    let mut s = String::from_str(label);
    s.append("(");
    s.append(detail);
    s.append(")");
    s
}

} // verus!

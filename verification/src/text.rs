//! Rendering of numbers and bytes as text.

use vstd::prelude::*;

verus! {

/// The decimal digit that stands for `d`.
pub open spec fn decimal_digit(d: int) -> char {
    (d + 48) as char
}

/// `n` written in base ten, without leading zeros.
pub open spec fn decimal(n: nat) -> Seq<char>
    decreases n,
{
    if n < 10 {
        seq![decimal_digit(n as int)]
    } else {
        decimal(n / 10).push(decimal_digit((n % 10) as int))
    }
}

/// The lower-case hexadecimal digit that stands for `d`.
pub open spec fn hex_digit(d: int) -> char {
    if d < 10 {
        (d + 48) as char
    } else {
        (d + 87) as char
    }
}

/// A byte as two lower-case hexadecimal digits.
pub open spec fn hex_byte(b: u8) -> Seq<char> {
    seq![hex_digit(b as int / 16), hex_digit(b as int % 16)]
}

/// Bytes as hexadecimal pairs, separated by a comma and a space.
pub open spec fn hex_items(bytes: Seq<u8>) -> Seq<char>
    decreases bytes.len(),
{
    if bytes.len() == 0 {
        seq![]
    } else if bytes.len() == 1 {
        hex_byte(bytes[0])
    } else {
        hex_items(bytes.drop_last()) + seq![',', ' '] + hex_byte(bytes.last())
    }
}

/// Bytes as a bracketed list of hexadecimal pairs, such as `[0a, ff]`.
pub open spec fn hex_list(bytes: Seq<u8>) -> Seq<char> {
    seq!['['] + hex_items(bytes) + seq![']']
}

/// The text of one digit in base sixteen.
fn hex_digit_str(d: u8) -> (r: &'static str)
    requires
        d < 16,
    ensures
        r@ == seq![hex_digit(d as int)],
{
    proof {
        reveal_strlit("0");
        reveal_strlit("1");
        reveal_strlit("2");
        reveal_strlit("3");
        reveal_strlit("4");
        reveal_strlit("5");
        reveal_strlit("6");
        reveal_strlit("7");
        reveal_strlit("8");
        reveal_strlit("9");
        reveal_strlit("a");
        reveal_strlit("b");
        reveal_strlit("c");
        reveal_strlit("d");
        reveal_strlit("e");
        reveal_strlit("f");
    }
    let r = match d {
        0 => "0",
        1 => "1",
        2 => "2",
        3 => "3",
        4 => "4",
        5 => "5",
        6 => "6",
        7 => "7",
        8 => "8",
        9 => "9",
        10 => "a",
        11 => "b",
        12 => "c",
        13 => "d",
        14 => "e",
        _ => "f",
    };
    assert(r@ =~= seq![hex_digit(d as int)]);
    r
}

/// Appends `n` in base ten to `out`.
pub fn push_decimal(out: &mut String, n: usize)
    ensures
        final(out)@ == old(out)@ + decimal(n as nat),
    decreases n,
{
    if n >= 10 {
        push_decimal(out, n / 10);
    }
    let digit: u8 = (n % 10) as u8;
    out.append(hex_digit_str(digit));
    assert(hex_digit(digit as int) == decimal_digit((n % 10) as int));
    assert(out@ =~= old(out)@ + decimal(n as nat));
}

/// Appends the bracketed hexadecimal list of `bytes` to `out`.
pub fn push_hex_list(out: &mut String, bytes: &[u8])
    ensures
        final(out)@ == old(out)@ + hex_list(bytes@),
{
    proof {
        reveal_strlit("[");
        reveal_strlit("]");
        reveal_strlit(", ");
    }
    out.append("[");
    let mut i: usize = 0;
    assert(out@ =~= old(out)@ + seq!['['] + hex_items(bytes@.take(0)));
    while i < bytes.len()
        invariant
            i <= bytes@.len(),
            out@ == old(out)@ + seq!['['] + hex_items(bytes@.take(i as int)),
        decreases bytes@.len() - i,
    {
        proof {
            reveal_strlit(", ");
        }
        if i > 0 {
            out.append(", ");
        }
        let b: u8 = bytes[i];
        out.append(hex_digit_str(b / 16));
        out.append(hex_digit_str(b % 16));
        proof {
            let before = bytes@.take(i as int);
            let after = bytes@.take(i + 1);
            assert(after.drop_last() =~= before);
            assert(after.last() == b);
            if i == 0 {
                assert(hex_items(before) =~= seq![]);
                assert(hex_items(after) == hex_byte(b));
            }
            assert(out@ =~= old(out)@ + seq!['['] + hex_items(after));
        }
        i = i + 1;
    }
    out.append("]");
    assert(bytes@.take(i as int) =~= bytes@);
    assert(out@ =~= old(out)@ + hex_list(bytes@));
}

} // verus!

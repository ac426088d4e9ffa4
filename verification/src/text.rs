//! Text rendering of the numbers that appear in identifiers.

use vstd::prelude::*;

verus! {

/// The decimal digit for `d`, meaningful for `d < 10`.
pub open spec fn digit_char(d: int) -> char {
    (48 + d) as char
}

/// The decimal numeral of `n`, without leading zeros.
pub open spec fn decimal(n: nat) -> Seq<char>
    decreases n,
{
    if n < 10 {
        seq![digit_char(n as int)]
    } else {
        decimal(n / 10).push(digit_char((n % 10) as int))
    }
}

/// The lower-case hexadecimal digit for `n`, meaningful for `n < 16`.
pub open spec fn hex_char(n: int) -> char {
    if n < 10 {
        (48 + n) as char
    } else {
        (87 + n) as char
    }
}

/// `std::string::String::push` appends one character.
pub assume_specification[ String::push ](s: &mut String, c: char)
    ensures
        final(s)@ == old(s)@.push(c),
;

/// Appends the decimal numeral of `n` to `out`.
pub fn push_decimal(out: &mut String, n: u32)
    ensures
        final(out)@ == old(out)@ + decimal(n as nat),
    decreases n,
{
    if n >= 10 {
        push_decimal(out, n / 10);
    }
    let d: u8 = (n % 10) as u8;
    out.push((48u8 + d) as char);
    proof {
        let before = old(out)@;
        if n >= 10 {
            assert(before + decimal(n as nat) =~= (before + decimal((n / 10) as nat)).push(
                digit_char((n % 10) as int),
            ));
        } else {
            assert(before + decimal(n as nat) =~= before.push(digit_char(n as int)));
        }
    }
}

/// How many hexadecimal digits stand before place `i` of the 36-character
/// hyphenated form; at a digit's place, that digit's position among the 32.
pub open spec fn digit_index(i: int) -> int {
    if i <= 8 {
        i
    } else if i <= 13 {
        i - 1
    } else if i <= 18 {
        i - 2
    } else if i <= 23 {
        i - 3
    } else {
        i - 4
    }
}

/// The `k`-th of the 32 hexadecimal digits of `id`, most significant first.
pub open spec fn nibble(id: u128, k: int) -> int {
    ((id >> ((124 - 4 * k) as u32)) & 0xf) as int
}

/// The 8-4-4-4-12 lower-case hexadecimal form of a 128-bit identifier.
pub open spec fn hyphenated_hex(id: u128) -> Seq<char> {
    Seq::new(
        36,
        |i: int|
            if i == 8 || i == 13 || i == 18 || i == 23 {
                '-'
            } else {
                hex_char(nibble(id, digit_index(i)))
            },
    )
}

/// Appends the hyphenated hexadecimal form of `id` to `out`.
pub fn push_hyphenated_hex(out: &mut String, id: u128)
    ensures
        final(out)@ == old(out)@ + hyphenated_hex(id),
{
    let ghost before = out@;
    let mut i: u32 = 0;
    let mut k: u32 = 0;
    while i < 36
        invariant
            i <= 36,
            k == digit_index(i as int),
            out@ == before + hyphenated_hex(id).take(i as int),
        decreases 36 - i,
    {
        let ghost sofar = out@;
        if i == 8 || i == 13 || i == 18 || i == 23 {
            out.push('-');
        } else {
            let shift: u32 = 124 - 4 * k;
            assert(((id >> shift) & 0xf) < 16) by (bit_vector);
            let n: u8 = ((id >> shift) & 0xf) as u8;
            if n < 10 {
                out.push((48u8 + n) as char);
            } else {
                out.push((87u8 + n) as char);
            }
            k = k + 1;
        }
        proof {
            let whole = hyphenated_hex(id);
            assert(whole.take(i + 1) =~= whole.take(i as int).push(whole[i as int]));
            assert(out@ == sofar.push(whole[i as int]));
            assert(out@ =~= before + whole.take(i + 1));
        }
        i = i + 1;
    }
    assert(hyphenated_hex(id).take(36) =~= hyphenated_hex(id));
}

} // verus!

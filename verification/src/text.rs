//! Building text: characters, hexadecimal and decimal numbers.
use vstd::prelude::*;

verus! {

/// Appends `c` to `s`: `String::push`, which the standard library documents
/// as appending the given char to the end of the string.
#[verifier::external_body]
pub(crate) fn push_char(s: &mut String, c: char)
    ensures
        final(s)@ == old(s)@.push(c),
{
    s.push(c);
}

/// The hexadecimal digit of `d` (`d < 16`), upper case.
pub open spec fn hex_digit(d: int) -> char {
    if d < 10 {
        (0x30 + d) as char
    } else {
        (0x41 + d - 10) as char
    }
}

/// The number of hexadecimal digits of `v` without leading zeros (at least one).
pub open spec fn hex_len(v: u16) -> nat {
    if v < 0x10 {
        1
    } else if v < 0x100 {
        2
    } else if v < 0x1000 {
        3
    } else {
        4
    }
}

/// Digit `i` of `v`, counted from the least significant one.
pub open spec fn nibble(v: u16, i: int) -> int {
    (v as int / pow16(i)) % 16
}

/// 16 to the power `i`, for the digit positions of a word.
pub open spec fn pow16(i: int) -> int {
    if i <= 0 {
        1
    } else if i == 1 {
        0x10
    } else if i == 2 {
        0x100
    } else if i == 3 {
        0x1000
    } else {
        0x10000
    }
}

/// `v` in upper-case hexadecimal, zero-padded to at least `width` digits
/// (`width <= 4`), as `{:0width$X}` writes it.
pub open spec fn hex_text(v: u16, width: nat) -> Seq<char> {
    let n = if hex_len(v) >= width { hex_len(v) } else { width };
    Seq::new(n, |j: int| hex_digit(nibble(v, n - 1 - j)))
}

/// `v` in decimal, as `{}` writes it.
pub open spec fn dec_text(v: u8) -> Seq<char> {
    if v >= 100 {
        seq![hex_digit((v / 100) as int), hex_digit(((v / 10) % 10) as int), hex_digit((v % 10) as int)]
    } else if v >= 10 {
        seq![hex_digit((v / 10) as int), hex_digit((v % 10) as int)]
    } else {
        seq![hex_digit(v as int)]
    }
}

/// The digit character of `d < 16`.
pub(crate) fn digit_char(d: u8) -> (c: char)
    requires
        d < 16,
    ensures
        c == hex_digit(d as int),
{
    if d < 10 {
        (0x30 + d) as char
    } else {
        (0x41 + d - 10) as char
    }
}

/// Appends `v` in hexadecimal, zero-padded to `width` digits.
pub(crate) fn push_hex(s: &mut String, v: u16, width: usize)
    requires
        width <= 4,
    ensures
        final(s)@ == old(s)@ + hex_text(v, width as nat),
{
    let len: usize = if v < 0x10 {
        1
    } else if v < 0x100 {
        2
    } else if v < 0x1000 {
        3
    } else {
        4
    };
    let n = if len >= width { len } else { width };
    let ghost start = s@;
    let mut k: usize = n;
    while k > 0
        invariant
            k <= n <= 4,
            n == if hex_len(v) >= width { hex_len(v) } else { width as nat },
            s@ == start + hex_text(v, width as nat).take(n - k),
        decreases k,
    {
        k = k - 1;
        let shift = (4 * k) as u16;
        let d = ((v >> shift) & 0xF) as u8;
        proof {
            assert(((v >> shift) & 0xF) as int == nibble(v, k as int)) by {
                if k == 0 {
                    assert((v >> 0u16) & 0xF == v % 16) by (bit_vector);
                } else if k == 1 {
                    assert((v >> 4u16) & 0xF == (v / 16) % 16) by (bit_vector);
                } else if k == 2 {
                    assert((v >> 8u16) & 0xF == (v / 256) % 16) by (bit_vector);
                } else {
                    assert((v >> 12u16) & 0xF == (v / 4096) % 16) by (bit_vector);
                }
            }
        }
        push_char(s, digit_char(d));
        assert(hex_text(v, width as nat).take(n - k) =~= hex_text(v, width as nat).take(n - k - 1).push(
            hex_digit(nibble(v, k as int)),
        ));
    }
    assert(hex_text(v, width as nat).take(n as int) =~= hex_text(v, width as nat));
}

/// Appends `v` in decimal.
pub(crate) fn push_dec(s: &mut String, v: u8)
    ensures
        final(s)@ == old(s)@ + dec_text(v),
{
    let ghost start = s@;
    if v >= 100 {
        push_char(s, digit_char(v / 100));
        push_char(s, digit_char((v / 10) % 10));
        push_char(s, digit_char(v % 10));
    } else if v >= 10 {
        push_char(s, digit_char(v / 10));
        push_char(s, digit_char(v % 10));
    } else {
        push_char(s, digit_char(v));
    }
    assert(s@ =~= start + dec_text(v));
}

} // verus!

verus! {

/// The value of a hexadecimal digit character.
pub open spec fn digit_value(c: char) -> int {
    if '0' <= c <= '9' {
        c as int - 0x30
    } else {
        c as int - 0x41 + 10
    }
}

/// Whether `c` is an upper-case hexadecimal digit.
pub open spec fn is_hex_digit(c: char) -> bool {
    ('0' <= c <= '9') || ('A' <= c <= 'F')
}

/// The number that a string of hexadecimal digits denotes.
pub open spec fn hex_value(s: Seq<char>) -> int
    decreases s.len(),
{
    if s.len() == 0 {
        0
    } else {
        hex_value(s.drop_last()) * 16 + digit_value(s.last())
    }
}

/// `hex_text(v, width)` is `v` written in upper-case hexadecimal digits:
/// the digits denote `v`, there are at least `width` of them and at least
/// one, and there is no leading zero beyond what `width` asks for.
#[verifier::spinoff_prover]
#[verifier::rlimit(40)]
pub proof fn law_hex_text(v: u16, width: nat)
    requires
        width <= 4,
    ensures
        ({
            let t = hex_text(v, width);
            &&& hex_value(t) == v
            &&& forall|j: int| 0 <= j < t.len() ==> is_hex_digit(#[trigger] t[j])
            &&& t.len() >= width && t.len() >= 1 && t.len() <= 4
            &&& t.len() > width && t.len() > 1 ==> t[0] != '0'
        }),
{
    let t = hex_text(v, width);
    let n = t.len() as int;
    assert forall|d: int| 0 <= d < 16 implies #[trigger] digit_value(hex_digit(d)) == d && is_hex_digit(hex_digit(d)) by {
    }
    assert forall|j: int| 0 <= j < t.len() implies is_hex_digit(#[trigger] t[j]) by {
        assert(0 <= nibble(v, n - 1 - j) < 16);
    }
    let d0 = nibble(v, 0);
    let d1 = nibble(v, 1);
    let d2 = nibble(v, 2);
    let d3 = nibble(v, 3);
    assert(v == d0 + 16 * d1 + 256 * d2 + 4096 * d3);
    reveal_with_fuel(hex_value, 5);
    if n == 1 {
        assert(t =~= seq![hex_digit(d0)]);
        assert(t.drop_last() =~= Seq::<char>::empty());
    } else if n == 2 {
        assert(t.drop_last() =~= seq![hex_digit(d1)]);
        assert(t.drop_last().drop_last() =~= Seq::<char>::empty());
    } else if n == 3 {
        assert(t.drop_last() =~= seq![hex_digit(d2), hex_digit(d1)]);
        assert(t.drop_last().drop_last() =~= seq![hex_digit(d2)]);
        assert(t.drop_last().drop_last().drop_last() =~= Seq::<char>::empty());
    } else {
        assert(t.drop_last() =~= seq![hex_digit(d3), hex_digit(d2), hex_digit(d1)]);
        assert(t.drop_last().drop_last() =~= seq![hex_digit(d3), hex_digit(d2)]);
        assert(t.drop_last().drop_last().drop_last() =~= seq![hex_digit(d3)]);
        assert(t.drop_last().drop_last().drop_last().drop_last() =~= Seq::<char>::empty());
    }
}

} // verus!

verus! {

/// The number that a string of decimal digits denotes.
pub open spec fn dec_value(s: Seq<char>) -> int
    decreases s.len(),
{
    if s.len() == 0 {
        0
    } else {
        dec_value(s.drop_last()) * 10 + digit_value(s.last())
    }
}

/// `dec_text(v)` is `v` in decimal digits, without leading zeros.
pub proof fn law_dec_text(v: u8)
    ensures
        dec_value(dec_text(v)) == v,
        forall|j: int| 0 <= j < dec_text(v).len() ==> '0' <= #[trigger] dec_text(v)[j] <= '9',
        1 <= dec_text(v).len() <= 3,
        dec_text(v).len() > 1 ==> dec_text(v)[0] != '0',
{
    reveal_with_fuel(dec_value, 4);
    let t = dec_text(v);
    if v >= 100 {
        assert(t.drop_last() =~= seq![hex_digit((v / 100) as int), hex_digit(((v / 10) % 10) as int)]);
        assert(t.drop_last().drop_last() =~= seq![hex_digit((v / 100) as int)]);
        assert(t.drop_last().drop_last().drop_last() =~= Seq::<char>::empty());
    } else if v >= 10 {
        assert(t.drop_last() =~= seq![hex_digit((v / 10) as int)]);
        assert(t.drop_last().drop_last() =~= Seq::<char>::empty());
    } else {
        assert(t.drop_last() =~= Seq::<char>::empty());
    }
}

} // verus!

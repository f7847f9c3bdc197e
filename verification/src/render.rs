//! Rendering of register values for diagnostics: fixed-width hexadecimal
//! (ten characters, `0x` and eight digits) and unpadded decimal.

use vstd::prelude::*;

verus! {

/// The character for one digit value below sixteen.
pub open spec fn spec_digit_char(d: u32) -> char {
    if d == 0 {
        '0'
    } else if d == 1 {
        '1'
    } else if d == 2 {
        '2'
    } else if d == 3 {
        '3'
    } else if d == 4 {
        '4'
    } else if d == 5 {
        '5'
    } else if d == 6 {
        '6'
    } else if d == 7 {
        '7'
    } else if d == 8 {
        '8'
    } else if d == 9 {
        '9'
    } else if d == 10 {
        'a'
    } else if d == 11 {
        'b'
    } else if d == 12 {
        'c'
    } else if d == 13 {
        'd'
    } else if d == 14 {
        'e'
    } else {
        'f'
    }
}

/// The `i`-th hexadecimal digit of `v`, most significant first.
pub open spec fn spec_nibble_at(v: u32, i: int) -> u32 {
    (v >> ((28 - 4 * i) as u32)) & 0xf
}

/// The ten-character rendering `0x` followed by eight hexadecimal digits,
/// most significant first, lower-case, zero-padded.
pub open spec fn spec_hex_chars(v: u32) -> Seq<char> {
    seq!['0', 'x'] + Seq::new(8, |i: int| spec_digit_char(spec_nibble_at(v, i)))
}

/// The unpadded decimal rendering of `v`, most significant digit first.
pub open spec fn spec_dec_chars(v: nat) -> Seq<char>
    decreases v,
{
    if v < 10 {
        seq![spec_digit_char(v as u32)]
    } else {
        spec_dec_chars(v / 10) + seq![spec_digit_char((v % 10) as u32)]
    }
}

/// One digit value below sixteen as its character.
pub fn digit_char(d: u32) -> (c: char)
    requires
        d < 16,
    ensures
        c == spec_digit_char(d),
{
    if d == 0 {
        '0'
    } else if d == 1 {
        '1'
    } else if d == 2 {
        '2'
    } else if d == 3 {
        '3'
    } else if d == 4 {
        '4'
    } else if d == 5 {
        '5'
    } else if d == 6 {
        '6'
    } else if d == 7 {
        '7'
    } else if d == 8 {
        '8'
    } else if d == 9 {
        '9'
    } else if d == 10 {
        'a'
    } else if d == 11 {
        'b'
    } else if d == 12 {
        'c'
    } else if d == 13 {
        'd'
    } else if d == 14 {
        'e'
    } else {
        'f'
    }
}

/// Renders `v` as `0x` plus eight lower-case hexadecimal digits.
pub fn hex32(v: u32) -> (r: Vec<char>)
    ensures
        r@ == spec_hex_chars(v),
{
    let mut r: Vec<char> = Vec::new();
    r.push('0');
    r.push('x');
    let mut i: usize = 0;
    while i < 8
        invariant
            i <= 8,
            r@.len() == 2 + i,
            r@[0] == '0',
            r@[1] == 'x',
            forall|j: int| 0 <= j < i ==> r@[2 + j] == spec_digit_char(spec_nibble_at(v, j)),
        decreases 8 - i,
    {
        let sh: u32 = 28 - 4 * (i as u32);
        let d: u32 = (v >> sh) & 0xf;
        proof {
            assert((v >> sh) & 0xf < 16) by (bit_vector);
            assert(sh == (28 - 4 * (i as int)) as u32);
        }
        let c = digit_char(d);
        r.push(c);
        i = i + 1;
    }
    proof {
        assert(r@ =~= spec_hex_chars(v));
    }
    r
}

/// Renders `v` in decimal, no padding, most significant digit first.
pub fn u32_to_dec(v: u32) -> (r: Vec<char>)
    ensures
        r@ == spec_dec_chars(v as nat),
    decreases v,
{
    if v < 10 {
        let mut r: Vec<char> = Vec::new();
        let c = digit_char(v);
        r.push(c);
        proof {
            assert(r@ =~= spec_dec_chars(v as nat));
        }
        r
    } else {
        let mut r = u32_to_dec(v / 10);
        let c = digit_char(v % 10);
        r.push(c);
        proof {
            assert(r@ =~= spec_dec_chars(v as nat));
        }
        r
    }
}

/// The characters of `s`, in order, as a vector.
pub fn chars_of(s: &str) -> (r: Vec<char>)
    ensures
        r@ == s@,
{
    let n = s.unicode_len();
    let mut r: Vec<char> = Vec::new();
    let mut i: usize = 0;
    while i < n
        invariant
            n == s@.len(),
            i <= n,
            r@ == s@.take(i as int),
        decreases n - i,
    {
        let c = s.get_char(i);
        r.push(c);
        proof {
            assert(r@ =~= s@.take(i + 1));
        }
        i = i + 1;
    }
    proof {
        assert(s@.take(n as int) =~= s@);
    }
    r
}

/// Appends the characters of `s` to `v`.
pub fn push_str_chars(v: &mut Vec<char>, s: &str)
    ensures
        final(v)@ == old(v)@ + s@,
{
    let n = s.unicode_len();
    let mut i: usize = 0;
    while i < n
        invariant
            n == s@.len(),
            i <= n,
            v@ == old(v)@ + s@.take(i as int),
        decreases n - i,
    {
        let c = s.get_char(i);
        v.push(c);
        proof {
            assert(v@ =~= old(v)@ + s@.take(i + 1));
        }
        i = i + 1;
    }
    proof {
        assert(old(v)@ + s@.take(n as int) =~= old(v)@ + s@);
    }
}

/// Appends the characters of `w` to `v`.
pub fn push_chars(v: &mut Vec<char>, w: &Vec<char>)
    ensures
        final(v)@ == old(v)@ + w@,
{
    let n = w.len();
    let mut i: usize = 0;
    while i < n
        invariant
            n == w@.len(),
            i <= n,
            v@ == old(v)@ + w@.take(i as int),
        decreases n - i,
    {
        let c = w[i];
        v.push(c);
        proof {
            assert(v@ =~= old(v)@ + w@.take(i + 1));
        }
        i = i + 1;
    }
    proof {
        assert(old(v)@ + w@.take(n as int) =~= old(v)@ + w@);
    }
}

} // verus!

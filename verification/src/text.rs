//! Character-level building blocks: decimal digit strings, the rendering of a
//! [`Decimal`] as a JSON number, and JSON string escaping.
//!
//! All building happens on `Vec<char>`; [`string_from_chars`] turns the result
//! into a `String` at the edge.

use vstd::prelude::*;
use vstd::string::*;
use crate::num::Decimal;

verus! {

/// Relies on `String`'s `FromIterator` impl (via `Iterator::collect`): the
/// collected string holds exactly the characters of the vector, in order.
#[verifier::external_body]
pub fn string_from_chars(v: &Vec<char>) -> (s: String)
    ensures
        s@ == v@,
{
    v.iter().collect()
}

/// The characters of a string slice, as a vector.
pub fn chars_of(s: &str) -> (v: Vec<char>)
    ensures
        v@ == s@,
{
    let n: usize = s.unicode_len();
    let mut v: Vec<char> = Vec::new();
    let mut i: usize = 0;
    while i < n
        invariant
            i <= n,
            n == s@.len(),
            v@ == s@.take(i as int),
        decreases n - i,
    {
        let c = s.get_char(i);
        v.push(c);
        i = i + 1;
        proof {
            assert(v@ =~= s@.take(i as int));
        }
    }
    proof {
        assert(s@.take(n as int) =~= s@);
    }
    v
}

pub open spec fn digit_char(d: int) -> char {
    if d == 0 {
        '0'
    } else if d == 1 {
        '1'
    } else if d == 2 {
        '2'
    } else if d == 3 {
        '3'
    } else if d == 4 {
        '4'
    } else if d == 5 {
        '5'
    } else if d == 6 {
        '6'
    } else if d == 7 {
        '7'
    } else if d == 8 {
        '8'
    } else {
        '9'
    }
}

fn digit_char_exec(d: u64) -> (c: char)
    requires
        d < 10,
    ensures
        c == digit_char(d as int),
{
    match d {
        0 => '0',
        1 => '1',
        2 => '2',
        3 => '3',
        4 => '4',
        5 => '5',
        6 => '6',
        7 => '7',
        8 => '8',
        _ => '9',
    }
}

/// The decimal digit string of a non-negative integer, most significant digit
/// first, with no leading zero except for zero itself.
pub open spec fn digits_spec(n: int) -> Seq<char>
    decreases n,
{
    if n < 10 {
        seq![digit_char(n)]
    } else {
        digits_spec(n / 10).push(digit_char(n % 10))
    }
}

/// Appends the digit string of `n`.
pub fn push_digits(v: &mut Vec<char>, n: u64)
    ensures
        final(v)@ == old(v)@ + digits_spec(n as int),
    decreases n,
{
    if n < 10 {
        v.push(digit_char_exec(n));
        proof {
            assert(v@ =~= old(v)@ + digits_spec(n as int));
        }
    } else {
        push_digits(v, n / 10);
        v.push(digit_char_exec(n % 10));
        proof {
            assert(v@ =~= old(v)@ + digits_spec(n as int));
        }
    }
}

/// A run of `k` zero characters.
pub open spec fn zero_chars(k: int) -> Seq<char>
    decreases k,
{
    if k <= 0 {
        Seq::empty()
    } else {
        zero_chars(k - 1).push('0')
    }
}

/// How a [`Decimal`] renders as a JSON number: always with a decimal point,
/// as in `3.0`, `12.5` or `0.012`.
pub open spec fn dec_render(d: Decimal) -> Seq<char> {
    let ds = digits_spec(d.mantissa as int);
    if d.exp == 0 {
        ds + seq!['.', '0']
    } else if ds.len() > d.exp {
        ds.take(ds.len() - d.exp) + seq!['.'] + ds.skip(ds.len() - d.exp)
    } else {
        seq!['0', '.'] + zero_chars(d.exp - ds.len()) + ds
    }
}

/// Appends `src[from .. to]`.
pub fn push_range(v: &mut Vec<char>, src: &Vec<char>, from: usize, to: usize)
    requires
        from <= to <= src@.len(),
    ensures
        final(v)@ == old(v)@ + src@.subrange(from as int, to as int),
{
    let mut i: usize = from;
    while i < to
        invariant
            from <= i <= to <= src@.len(),
            v@ == old(v)@ + src@.subrange(from as int, i as int),
        decreases to - i,
    {
        let c = src[i];
        v.push(c);
        i = i + 1;
        proof {
            assert(v@ =~= old(v)@ + src@.subrange(from as int, i as int));
        }
    }
}

/// Appends the JSON-number rendering of `d`.
pub fn push_decimal(v: &mut Vec<char>, d: Decimal)
    ensures
        final(v)@ == old(v)@ + dec_render(d),
{
    let mut ds: Vec<char> = Vec::new();
    push_digits(&mut ds, d.mantissa);
    if d.exp == 0 {
        push_range(v, &ds, 0, ds.len());
        v.push('.');
        v.push('0');
        proof {
            assert(ds@.subrange(0, ds@.len() as int) =~= ds@);
            assert(v@ =~= old(v)@ + dec_render(d));
        }
    } else if ds.len() > d.exp as usize {
        let cut: usize = ds.len() - d.exp as usize;
        push_range(v, &ds, 0, cut);
        v.push('.');
        push_range(v, &ds, cut, ds.len());
        proof {
            assert(v@ =~= old(v)@ + dec_render(d));
        }
    } else {
        v.push('0');
        v.push('.');
        let mut k: usize = ds.len();
        while k < d.exp as usize
            invariant
                ds@.len() <= k <= d.exp,
                v@ == old(v)@ + seq!['0', '.'] + zero_chars(k - ds@.len()),
            decreases d.exp - k,
        {
            v.push('0');
            k = k + 1;
            proof {
                assert(v@ =~= old(v)@ + seq!['0', '.'] + zero_chars(k - ds@.len()));
            }
        }
        push_range(v, &ds, 0, ds.len());
        proof {
            assert(ds@.subrange(0, ds@.len() as int) =~= ds@);
            assert(v@ =~= old(v)@ + dec_render(d));
        }
    }
}

pub open spec fn hex_char(d: int) -> char {
    if d < 10 {
        digit_char(d)
    } else if d == 10 {
        'a'
    } else if d == 11 {
        'b'
    } else if d == 12 {
        'c'
    } else if d == 13 {
        'd'
    } else if d == 14 {
        'e'
    } else {
        'f'
    }
}

/// How one character escapes inside a JSON string literal.
pub open spec fn esc_char(c: char) -> Seq<char> {
    if c == '"' {
        seq!['\\', '"']
    } else if c == '\\' {
        seq!['\\', '\\']
    } else if c == '\u{8}' {
        seq!['\\', 'b']
    } else if c == '\u{9}' {
        seq!['\\', 't']
    } else if c == '\u{a}' {
        seq!['\\', 'n']
    } else if c == '\u{c}' {
        seq!['\\', 'f']
    } else if c == '\u{d}' {
        seq!['\\', 'r']
    } else if (c as u32) < 32 {
        seq!['\\', 'u', '0', '0', hex_char((c as u32) as int / 16), hex_char((c as u32) as int % 16)]
    } else {
        seq![c]
    }
}

/// The escaped body of a JSON string literal.
pub open spec fn esc(s: Seq<char>) -> Seq<char>
    decreases s.len(),
{
    if s.len() == 0 {
        Seq::empty()
    } else {
        esc(s.drop_last()) + esc_char(s.last())
    }
}

/// A complete JSON string literal: quote, escaped body, quote.
pub open spec fn json_string(s: Seq<char>) -> Seq<char> {
    seq!['"'] + esc(s) + seq!['"']
}

fn hex_char_exec(d: u64) -> (c: char)
    requires
        d < 16,
    ensures
        c == hex_char(d as int),
{
    if d < 10 {
        digit_char_exec(d)
    } else {
        match d {
            10 => 'a',
            11 => 'b',
            12 => 'c',
            13 => 'd',
            14 => 'e',
            _ => 'f',
        }
    }
}

fn push_esc_char(v: &mut Vec<char>, c: char)
    ensures
        final(v)@ == old(v)@ + esc_char(c),
{
    if c == '"' {
        v.push('\\');
        v.push('"');
    } else if c == '\\' {
        v.push('\\');
        v.push('\\');
    } else if c == '\u{8}' {
        v.push('\\');
        v.push('b');
    } else if c == '\u{9}' {
        v.push('\\');
        v.push('t');
    } else if c == '\u{a}' {
        v.push('\\');
        v.push('n');
    } else if c == '\u{c}' {
        v.push('\\');
        v.push('f');
    } else if c == '\u{d}' {
        v.push('\\');
        v.push('r');
    } else if (c as u32) < 32 {
        let hi: u64 = (c as u32 / 16) as u64;
        let lo: u64 = (c as u32 % 16) as u64;
        v.push('\\');
        v.push('u');
        v.push('0');
        v.push('0');
        v.push(hex_char_exec(hi));
        v.push(hex_char_exec(lo));
    } else {
        v.push(c);
    }
    proof {
        assert(v@ =~= old(v)@ + esc_char(c));
    }
}

/// Appends the complete JSON string literal for `s`.
pub fn push_json_string(v: &mut Vec<char>, s: &Vec<char>)
    ensures
        final(v)@ == old(v)@ + json_string(s@),
{
    v.push('"');
    let mut i: usize = 0;
    while i < s.len()
        invariant
            i <= s@.len(),
            v@ == old(v)@ + seq!['"'] + esc(s@.take(i as int)),
        decreases s@.len() - i,
    {
        let c = s[i];
        push_esc_char(v, c);
        i = i + 1;
        proof {
            assert(s@.take(i as int).drop_last() =~= s@.take(i as int - 1));
            assert(s@.take(i as int).last() == s@[i as int - 1]);
            assert(v@ =~= old(v)@ + seq!['"'] + esc(s@.take(i as int)));
        }
    }
    v.push('"');
    proof {
        assert(s@.take(s@.len() as int) =~= s@);
        assert(v@ =~= old(v)@ + json_string(s@));
    }
}

} // verus!

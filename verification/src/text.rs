//! Verified text building.
//!
//! The response bodies of the service are JSON texts assembled here:
//! decimal renderings of integers and escaped JSON string literals.
//! Every builder states exactly which sequence of characters it appends.

use vstd::prelude::*;

verus! {

/// Relies on `String::push`: appends exactly the given character to the
/// end of the string.
#[verifier::external_body]
pub fn push_char(s: &mut String, c: char)
    ensures
        final(s)@ == old(s)@.push(c),
{
    s.push(c);
}

/// The characters of a string, in order.
pub fn str_chars(s: &str) -> (v: Vec<char>)
    ensures
        v@ == s@,
{
    let mut v: Vec<char> = Vec::new();
    for c in it: s.chars()
        invariant
            it.seq() == s@,
            v@ == it.seq().take(it.index() as int),
    {
        v.push(c);
    }
    v
}

/// The decimal digit character for a value below ten.
pub open spec fn digit_char(d: nat) -> char {
    if d == 0 {
        '0'
    } else if d == 1 {
        '1'
    } else if d == 2 {
        '2'
    } else if d == 3 {
        '3'
    } else if d == 4 {
        '4'
    } else if d == 5 {
        '5'
    } else if d == 6 {
        '6'
    } else if d == 7 {
        '7'
    } else if d == 8 {
        '8'
    } else {
        '9'
    }
}

/// The decimal rendering of a natural number, most significant digit
/// first, without sign or leading zeros (zero itself renders as "0").
pub open spec fn dec_digits(n: nat) -> Seq<char>
    decreases n,
{
    if n < 10 {
        seq![digit_char(n)]
    } else {
        dec_digits(n / 10) + seq![digit_char(n % 10)]
    }
}

/// The decimal digit character for `d`, executable side.
fn dec_char(d: u64) -> (c: char)
    requires
        d < 10,
    ensures
        c == digit_char(d as nat),
{
    match d {
        0 => '0',
        1 => '1',
        2 => '2',
        3 => '3',
        4 => '4',
        5 => '5',
        6 => '6',
        7 => '7',
        8 => '8',
        _ => '9',
    }
}

/// Append the decimal rendering of `n` to `s`.
pub fn push_decimal(s: &mut String, n: u64)
    ensures
        final(s)@ == old(s)@ + dec_digits(n as nat),
    decreases n,
{
    if n < 10 {
        push_char(s, dec_char(n));
        assert(final(s)@ =~= old(s)@ + dec_digits(n as nat));
    } else {
        push_decimal(s, n / 10);
        push_char(s, dec_char(n % 10));
        assert(final(s)@ =~= old(s)@ + dec_digits(n as nat));
    }
}

/// Append the decimal rendering of a `usize` to `s`.
pub fn push_decimal_usize(s: &mut String, n: usize)
    ensures
        final(s)@ == old(s)@ + dec_digits(n as nat),
{
    push_decimal(s, n as u64);
}

/// The lower-case hexadecimal digit character for a value below sixteen.
pub open spec fn hex_char(d: nat) -> char {
    if d < 10 {
        digit_char(d)
    } else if d == 10 {
        'a'
    } else if d == 11 {
        'b'
    } else if d == 12 {
        'c'
    } else if d == 13 {
        'd'
    } else if d == 14 {
        'e'
    } else {
        'f'
    }
}

/// How one character is written inside a JSON string literal: quotes and
/// backslashes get a backslash escape, the common control characters get
/// their short escapes, the remaining control characters a `\u00xx`
/// escape, and every other character stands for itself.
pub open spec fn escaped_char(c: char) -> Seq<char> {
    if c == '"' {
        seq!['\\', '"']
    } else if c == '\\' {
        seq!['\\', '\\']
    } else if c == '\n' {
        seq!['\\', 'n']
    } else if c == '\r' {
        seq!['\\', 'r']
    } else if c == '\t' {
        seq!['\\', 't']
    } else if (c as u32) < 32 {
        seq!['\\', 'u', '0', '0', hex_char(((c as u32) / 16) as nat), hex_char(
            ((c as u32) % 16) as nat,
        )]
    } else {
        seq![c]
    }
}

/// The body of the JSON string literal that denotes `s`.
pub open spec fn escaped(s: Seq<char>) -> Seq<char>
    decreases s.len(),
{
    if s.len() == 0 {
        Seq::empty()
    } else {
        escaped_char(s[0]) + escaped(s.skip(1))
    }
}

/// Escaping a string one character longer appends that character's
/// escape at the end.
pub proof fn lemma_escaped_push(s: Seq<char>, c: char)
    ensures
        escaped(s.push(c)) == escaped(s) + escaped_char(c),
    decreases s.len(),
{
    let t = s.push(c);
    assert(t[0] == if s.len() == 0 { c } else { s[0] });
    if s.len() == 0 {
        assert(t.skip(1) =~= Seq::<char>::empty());
        assert(escaped(t) == escaped_char(c) + escaped(Seq::<char>::empty()));
        assert(escaped(t) =~= escaped(s) + escaped_char(c));
    } else {
        assert(t.skip(1) =~= s.skip(1).push(c));
        lemma_escaped_push(s.skip(1), c);
        assert(escaped(t) == escaped_char(s[0]) + (escaped(s.skip(1)) + escaped_char(c)));
        assert(escaped(t) =~= escaped(s) + escaped_char(c));
    }
}

/// The lower-case hexadecimal digit character for `d`, executable side.
fn hex_char_exec(d: u32) -> (c: char)
    requires
        d < 16,
    ensures
        c == hex_char(d as nat),
{
    match d {
        0 => '0',
        1 => '1',
        2 => '2',
        3 => '3',
        4 => '4',
        5 => '5',
        6 => '6',
        7 => '7',
        8 => '8',
        9 => '9',
        10 => 'a',
        11 => 'b',
        12 => 'c',
        13 => 'd',
        14 => 'e',
        _ => 'f',
    }
}

/// Append the escape of one character to `s`.
fn push_escaped_char(s: &mut String, c: char)
    ensures
        final(s)@ == old(s)@ + escaped_char(c),
{
    if c == '"' {
        push_char(s, '\\');
        push_char(s, '"');
        assert(final(s)@ =~= old(s)@ + escaped_char(c));
    } else if c == '\\' {
        push_char(s, '\\');
        push_char(s, '\\');
        assert(final(s)@ =~= old(s)@ + escaped_char(c));
    } else if c == '\n' {
        push_char(s, '\\');
        push_char(s, 'n');
        assert(final(s)@ =~= old(s)@ + escaped_char(c));
    } else if c == '\r' {
        push_char(s, '\\');
        push_char(s, 'r');
        assert(final(s)@ =~= old(s)@ + escaped_char(c));
    } else if c == '\t' {
        push_char(s, '\\');
        push_char(s, 't');
        assert(final(s)@ =~= old(s)@ + escaped_char(c));
    } else if (c as u32) < 32 {
        let code: u32 = c as u32;
        push_char(s, '\\');
        push_char(s, 'u');
        push_char(s, '0');
        push_char(s, '0');
        push_char(s, hex_char_exec(code / 16));
        push_char(s, hex_char_exec(code % 16));
        assert(final(s)@ =~= old(s)@ + escaped_char(c));
    } else {
        push_char(s, c);
        assert(final(s)@ =~= old(s)@ + escaped_char(c));
    }
}

/// Append the JSON string-literal escape of `t` to `s`.
pub fn push_escaped(s: &mut String, t: &str)
    ensures
        final(s)@ == old(s)@ + escaped(t@),
{
    let chars = str_chars(t);
    let n = chars.len();
    assert(t@.take(0) =~= Seq::<char>::empty());
    assert(escaped(t@.take(0)) =~= Seq::<char>::empty());
    for i in 0..n
        invariant
            n == chars@.len(),
            chars@ == t@,
            s@ == old(s)@ + escaped(t@.take(i as int)),
    {
        push_escaped_char(s, chars[i]);
        proof {
            assert(t@.take(i + 1) =~= t@.take(i as int).push(t@[i as int]));
            lemma_escaped_push(t@.take(i as int), t@[i as int]);
        }
    }
    assert(t@.take(n as int) =~= t@);
}

} // verus!

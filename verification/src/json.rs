//! Verified JSON text emission: string escaping and number rendering.
//!
//! Every piece of the output line is specified as a sequence of characters,
//! and each emitting function proves that it appends exactly that sequence.
//! Escaping maps control characters to JSON escape sequences, so no emitted
//! piece ever contains a character below `' '` (space); in particular no
//! newline, which keeps each record on a single line.

use vstd::prelude::*;

verus! {

/// The lowercase hexadecimal digit for `d` (clamped to `'f'` above 15).
pub open spec fn spec_hex_digit(d: nat) -> char {
    if d == 0 {
        '0'
    } else if d == 1 {
        '1'
    } else if d == 2 {
        '2'
    } else if d == 3 {
        '3'
    } else if d == 4 {
        '4'
    } else if d == 5 {
        '5'
    } else if d == 6 {
        '6'
    } else if d == 7 {
        '7'
    } else if d == 8 {
        '8'
    } else if d == 9 {
        '9'
    } else if d == 10 {
        'a'
    } else if d == 11 {
        'b'
    } else if d == 12 {
        'c'
    } else if d == 13 {
        'd'
    } else if d == 14 {
        'e'
    } else {
        'f'
    }
}

/// How one character appears inside a JSON string: quote and backslash get
/// a backslash escape, the common control characters get their short
/// escapes, every other control character becomes `\u00XX`, and all
/// remaining characters stand as themselves.
pub open spec fn escape_char(c: char) -> Seq<char> {
    if c == '"' {
        seq!['\\', '"']
    } else if c == '\\' {
        seq!['\\', '\\']
    } else if c == '\u{8}' {
        seq!['\\', 'b']
    } else if c == '\t' {
        seq!['\\', 't']
    } else if c == '\n' {
        seq!['\\', 'n']
    } else if c == '\u{c}' {
        seq!['\\', 'f']
    } else if c == '\r' {
        seq!['\\', 'r']
    } else if (c as u32) < 0x20 {
        seq!['\\', 'u', '0', '0', spec_hex_digit((c as u32 / 16) as nat), spec_hex_digit(
            (c as u32 % 16) as nat,
        )]
    } else {
        seq![c]
    }
}

/// The body of a JSON string: each character escaped in order.
pub open spec fn escape_str(s: Seq<char>) -> Seq<char>
    decreases s.len(),
{
    if s.len() == 0 {
        Seq::empty()
    } else {
        escape_str(s.drop_last()) + escape_char(s.last())
    }
}

/// A complete JSON string: the escaped body between double quotes.
pub open spec fn json_quoted(s: Seq<char>) -> Seq<char> {
    seq!['"'] + escape_str(s) + seq!['"']
}

/// The decimal digits of `n`, most significant first, no leading zeros
/// (a single `'0'` for zero).
pub open spec fn dec_digits(n: nat) -> Seq<char>
    decreases n,
{
    if n < 10 {
        seq![spec_hex_digit(n)]
    } else {
        dec_digits(n / 10).push(spec_hex_digit(n % 10))
    }
}

/// The decimal rendering of a signed integer: a minus sign before the
/// digits of the magnitude when negative.
pub open spec fn int_digits(i: int) -> Seq<char> {
    if i < 0 {
        seq!['-'] + dec_digits((-i) as nat)
    } else {
        dec_digits(i as nat)
    }
}

/// `v` in lowercase hexadecimal, zero-padded to exactly `w` digits
/// (the `w` least significant hex digits of `v`).
pub open spec fn hex_pad(v: nat, w: nat) -> Seq<char>
    decreases w,
{
    if w == 0 {
        Seq::empty()
    } else {
        hex_pad(v / 16, (w - 1) as nat).push(spec_hex_digit(v % 16))
    }
}

/// True when no character of `s` lies below `' '`: such a sequence holds
/// no control character, in particular no newline.
pub open spec fn printable(s: Seq<char>) -> bool {
    forall|i: int| 0 <= i < s.len() ==> (#[trigger] s[i] as u32) >= 0x20
}

/// Relies on `String::push`: appends exactly the given character.
#[verifier::external_body]
fn push_char(out: &mut String, c: char)
    ensures
        final(out)@ == old(out)@.push(c),
{
    out.push(c);
}

/// The executable counterpart of [`spec_hex_digit`].
fn hex_digit_char(d: u8) -> (c: char)
    requires
        d < 16,
    ensures
        c == spec_hex_digit(d as nat),
{
    if d == 0 {
        '0'
    } else if d == 1 {
        '1'
    } else if d == 2 {
        '2'
    } else if d == 3 {
        '3'
    } else if d == 4 {
        '4'
    } else if d == 5 {
        '5'
    } else if d == 6 {
        '6'
    } else if d == 7 {
        '7'
    } else if d == 8 {
        '8'
    } else if d == 9 {
        '9'
    } else if d == 10 {
        'a'
    } else if d == 11 {
        'b'
    } else if d == 12 {
        'c'
    } else if d == 13 {
        'd'
    } else if d == 14 {
        'e'
    } else {
        'f'
    }
}

/// Appends [`escape_char`]`(c)` to `out`.
fn append_escaped_char(out: &mut String, c: char)
    ensures
        final(out)@ == old(out)@ + escape_char(c),
{
    let u = c as u32;
    if c == '"' {
        push_char(out, '\\');
        push_char(out, '"');
    } else if c == '\\' {
        push_char(out, '\\');
        push_char(out, '\\');
    } else if u == 0x8 {
        push_char(out, '\\');
        push_char(out, 'b');
    } else if u == 0x9 {
        push_char(out, '\\');
        push_char(out, 't');
    } else if u == 0xa {
        push_char(out, '\\');
        push_char(out, 'n');
    } else if u == 0xc {
        push_char(out, '\\');
        push_char(out, 'f');
    } else if u == 0xd {
        push_char(out, '\\');
        push_char(out, 'r');
    } else if u < 0x20 {
        push_char(out, '\\');
        push_char(out, 'u');
        push_char(out, '0');
        push_char(out, '0');
        push_char(out, hex_digit_char((u / 16) as u8));
        push_char(out, hex_digit_char((u % 16) as u8));
    } else {
        push_char(out, c);
    }
    proof {
        assert(final(out)@ =~= old(out)@ + escape_char(c));
    }
}

/// Appends [`escape_str`]`(s@)` to `out`: the body of the JSON string
/// for `s`, without the surrounding quotes.
pub fn append_escaped(out: &mut String, s: &str)
    ensures
        final(out)@ == old(out)@ + escape_str(s@),
{
    let ghost start = out@;
    let len = s.unicode_len();
    let mut i: usize = 0;
    while i < len
        invariant
            i <= len,
            len == s@.len(),
            out@ == start + escape_str(s@.take(i as int)),
        decreases len - i,
    {
        let c = s.get_char(i);
        append_escaped_char(out, c);
        proof {
            assert(s@.take(i + 1).drop_last() =~= s@.take(i as int));
            assert(s@.take(i + 1).last() == s@[i as int]);
        }
        i = i + 1;
    }
    proof {
        assert(s@.take(len as int) =~= s@);
    }
}

/// Appends [`json_quoted`]`(s@)` to `out`: the complete JSON string
/// rendering of `s`.
pub fn append_json_quoted(out: &mut String, s: &str)
    ensures
        final(out)@ == old(out)@ + json_quoted(s@),
{
    push_char(out, '"');
    append_escaped(out, s);
    push_char(out, '"');
    proof {
        assert(final(out)@ =~= old(out)@ + json_quoted(s@));
    }
}

/// Appends [`dec_digits`]`(n)` to `out`: `n` in decimal.
pub fn append_dec_u64(out: &mut String, n: u64)
    ensures
        final(out)@ == old(out)@ + dec_digits(n as nat),
    decreases n,
{
    if n < 10 {
        push_char(out, hex_digit_char(n as u8));
        proof {
            assert(final(out)@ =~= old(out)@ + dec_digits(n as nat));
        }
    } else {
        append_dec_u64(out, n / 10);
        push_char(out, hex_digit_char((n % 10) as u8));
    }
}

/// Appends [`int_digits`]`(i)` to `out`: `i` in decimal with its sign.
pub fn append_dec_i64(out: &mut String, i: i64)
    ensures
        final(out)@ == old(out)@ + int_digits(i as int),
{
    if i >= 0 {
        append_dec_u64(out, i as u64);
    } else {
        push_char(out, '-');
        let wide: i128 = i as i128;
        let magnitude: u64 = (-wide) as u64;
        append_dec_u64(out, magnitude);
        proof {
            assert(final(out)@ =~= old(out)@ + int_digits(i as int));
        }
    }
}

/// Appends [`hex_pad`]`(v, w)` to `out`: `v` in hexadecimal, zero-padded
/// to exactly `w` digits.
pub fn append_hex_pad(out: &mut String, v: u128, w: usize)
    ensures
        final(out)@ == old(out)@ + hex_pad(v as nat, w as nat),
    decreases w,
{
    if w > 0 {
        append_hex_pad(out, v / 16, w - 1);
        push_char(out, hex_digit_char((v % 16) as u8));
    }
}

/// Hexadecimal digits are ordinary visible characters.
pub proof fn lemma_hex_digit_printable(d: nat)
    ensures
        spec_hex_digit(d) as u32 >= 0x20,
{
}

/// Concatenation keeps sequences free of control characters.
pub proof fn lemma_printable_concat(a: Seq<char>, b: Seq<char>)
    requires
        printable(a),
        printable(b),
    ensures
        printable(a + b),
{
    assert forall|i: int| 0 <= i < (a + b).len() implies ((a + b)[i] as u32) >= 0x20 by {
        if i < a.len() {
            assert((a + b)[i] == a[i]);
        } else {
            assert((a + b)[i] == b[i - a.len()]);
        }
    }
}

/// Escaping one character yields only visible characters: control
/// characters are replaced by their escape sequences.
pub proof fn lemma_escape_char_printable(c: char)
    ensures
        printable(escape_char(c)),
{
    vstd::utf8::char_is_scalar(c);
}

/// An escaped string body holds no control character: escaping can never
/// split the surrounding line.
pub proof fn lemma_escape_str_printable(s: Seq<char>)
    ensures
        printable(escape_str(s)),
    decreases s.len(),
{
    if s.len() == 0 {
    } else {
        lemma_escape_str_printable(s.drop_last());
        lemma_escape_char_printable(s.last());
        lemma_printable_concat(escape_str(s.drop_last()), escape_char(s.last()));
    }
}

/// A complete JSON string holds no control character.
pub proof fn lemma_json_quoted_printable(s: Seq<char>)
    ensures
        printable(json_quoted(s)),
{
    lemma_escape_str_printable(s);
    lemma_printable_concat(seq!['"'], escape_str(s));
    lemma_printable_concat(seq!['"'] + escape_str(s), seq!['"']);
    assert(json_quoted(s) =~= (seq!['"'] + escape_str(s)) + seq!['"']);
}

/// Decimal digits hold no control character.
pub proof fn lemma_dec_digits_printable(n: nat)
    ensures
        printable(dec_digits(n)),
    decreases n,
{
    if n < 10 {
        lemma_hex_digit_printable(n);
    } else {
        lemma_dec_digits_printable(n / 10);
        lemma_hex_digit_printable(n % 10);
    }
}

/// A signed decimal rendering holds no control character.
pub proof fn lemma_int_digits_printable(i: int)
    ensures
        printable(int_digits(i)),
{
    if i < 0 {
        lemma_dec_digits_printable((-i) as nat);
        lemma_printable_concat(seq!['-'], dec_digits((-i) as nat));
    } else {
        lemma_dec_digits_printable(i as nat);
    }
}

/// Zero-padded hexadecimal holds no control character.
pub proof fn lemma_hex_pad_printable(v: nat, w: nat)
    ensures
        printable(hex_pad(v, w)),
    decreases w,
{
    if w > 0 {
        lemma_hex_pad_printable(v / 16, (w - 1) as nat);
        lemma_hex_digit_printable(v % 16);
    }
}

} // verus!

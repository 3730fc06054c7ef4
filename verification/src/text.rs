//! Building generated source text: decimal numbers, byte escapes, joined lists.
use vstd::prelude::*;

verus! {

/// Appends one character (`String::push`).
#[verifier::external_body]
pub(crate) fn push_char(s: &mut String, c: char)
    ensures
        final(s)@ == old(s)@.push(c),
{
    s.push(c);
}

/// The decimal digit character for `d < 10`.
pub open spec fn digit_char(d: nat) -> char {
    (d + 48) as char
}

/// The decimal representation of `n`, without sign or leading zeros.
pub open spec fn decimal(n: nat) -> Seq<char>
    decreases n,
{
    if n < 10 {
        seq![digit_char(n)]
    } else {
        decimal(n / 10) + seq![digit_char(n % 10)]
    }
}

/// Appends the decimal representation of `n` to `s`.
pub fn push_decimal(s: &mut String, n: u128)
    ensures
        final(s)@ == old(s)@ + decimal(n as nat),
    decreases n,
{
    if n >= 10 {
        push_decimal(s, n / 10);
    }
    let d: u8 = (n % 10) as u8;
    push_char(s, (d + 48) as char);
}

/// The decimal representation of `n` as a string.
pub fn decimal_string(n: u128) -> (s: String)
    ensures
        s@ == decimal(n as nat),
{
    let mut s = String::new();
    push_decimal(&mut s, n);
    s
}

/// Lower-case hexadecimal digit for `d < 16`.
pub open spec fn hex_digit(d: nat) -> char {
    if d < 10 {
        (d + 48) as char
    } else {
        (d + 87) as char
    }
}

/// The ASCII escape of one byte: `\t`, `\r`, `\n`, `\\`, `\'`, `\"` for those bytes,
/// the byte itself for the rest of the printable range 0x20..=0x7e, and `\xNN`
/// (lower-case hexadecimal) for all others.
pub open spec fn escape_byte(b: u8) -> Seq<char> {
    if b == 9 {
        seq!['\\', 't']
    } else if b == 13 {
        seq!['\\', 'r']
    } else if b == 10 {
        seq!['\\', 'n']
    } else if b == 92 {
        seq!['\\', '\\']
    } else if b == 39 {
        seq!['\\', '\'']
    } else if b == 34 {
        seq!['\\', '"']
    } else if 32 <= b <= 126 {
        seq![b as char]
    } else {
        seq!['\\', 'x', hex_digit((b / 16) as nat), hex_digit((b % 16) as nat)]
    }
}

/// The ASCII escape of a byte sequence, byte by byte.
pub open spec fn escape_ascii(bytes: Seq<u8>) -> Seq<char>
    decreases bytes.len(),
{
    if bytes.len() == 0 {
        Seq::empty()
    } else {
        escape_ascii(bytes.drop_last()) + escape_byte(bytes.last())
    }
}

fn push_hex_digit(s: &mut String, d: u8)
    requires
        d < 16,
    ensures
        final(s)@ == old(s)@.push(hex_digit(d as nat)),
{
    if d < 10 {
        push_char(s, (d + 48) as char);
    } else {
        push_char(s, (d + 87) as char);
    }
}

/// Appends the escape of one byte.
pub fn push_escaped_byte(s: &mut String, b: u8)
    ensures
        final(s)@ == old(s)@ + escape_byte(b),
{
    if b == 9 {
        push_char(s, '\\');
        push_char(s, 't');
    } else if b == 13 {
        push_char(s, '\\');
        push_char(s, 'r');
    } else if b == 10 {
        push_char(s, '\\');
        push_char(s, 'n');
    } else if b == 92 {
        push_char(s, '\\');
        push_char(s, '\\');
    } else if b == 39 {
        push_char(s, '\\');
        push_char(s, '\'');
    } else if b == 34 {
        push_char(s, '\\');
        push_char(s, '"');
    } else if 32 <= b && b <= 126 {
        push_char(s, b as char);
    } else {
        push_char(s, '\\');
        push_char(s, 'x');
        push_hex_digit(s, b / 16);
        push_hex_digit(s, b % 16);
    }
    assert(final(s)@ =~= old(s)@ + escape_byte(b));
}

/// The ASCII escape of `bytes`, as `<[u8]>::escape_ascii` renders it.
pub fn escape_ascii_string(bytes: &[u8]) -> (s: String)
    ensures
        s@ == escape_ascii(bytes@),
{
    let mut s = String::new();
    let mut i: usize = 0;
    while i < bytes.len()
        invariant
            i <= bytes@.len(),
            s@ == escape_ascii(bytes@.take(i as int)),
        decreases bytes@.len() - i,
    {
        assert(bytes@.take(i + 1).drop_last() =~= bytes@.take(i as int));
        push_escaped_byte(&mut s, bytes[i]);
        i = i + 1;
    }
    assert(bytes@.take(i as int) =~= bytes@);
    s
}

/// `parts` joined with `sep` between consecutive parts.
pub open spec fn join(parts: Seq<Seq<char>>, sep: Seq<char>) -> Seq<char>
    decreases parts.len(),
{
    if parts.len() == 0 {
        Seq::empty()
    } else if parts.len() == 1 {
        parts[0]
    } else {
        join(parts.drop_last(), sep) + sep + parts.last()
    }
}

/// The views of a vector of strings.
pub open spec fn views(parts: Seq<String>) -> Seq<Seq<char>> {
    parts.map_values(|p: String| p@)
}

/// Joins the strings of `parts` with `sep` between them.
pub fn join_strings(parts: &Vec<String>, sep: &str) -> (s: String)
    ensures
        s@ == join(views(parts@), sep@),
{
    let mut s = String::new();
    let mut i: usize = 0;
    while i < parts.len()
        invariant
            i <= parts@.len(),
            s@ == join(views(parts@).take(i as int), sep@),
        decreases parts@.len() - i,
    {
        assert(views(parts@).take(i + 1).drop_last() =~= views(parts@).take(i as int));
        if i > 0 {
            s.append(sep);
        }
        s.append(parts[i].as_str());
        i = i + 1;
    }
    assert(views(parts@).take(i as int) =~= views(parts@));
    s
}

} // verus!

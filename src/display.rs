//! Display glyphs and the status line.
use vstd::prelude::*;

verus! {

/// What `char::is_alphanumeric` returns for `c`.
pub uninterp spec fn alphanumeric(c: char) -> bool;

/// What `char::is_whitespace` returns for `c`.
pub uninterp spec fn whitespace(c: char) -> bool;

/// Relies on `char::is_alphanumeric`, which is true of ASCII letters and
/// digits among others.
#[verifier::external_body]
fn char_is_alphanumeric(c: char) -> (r: bool)
    ensures
        r == alphanumeric(c),
        ('a' <= c <= 'z') || ('A' <= c <= 'Z') || ('0' <= c <= '9') ==> r,
{
    c.is_alphanumeric()
}

/// Relies on `char::is_whitespace`, which is true of the space character
/// among others.
#[verifier::external_body]
fn char_is_whitespace(c: char) -> (r: bool)
    ensures
        r == whitespace(c),
        c == ' ' ==> r,
{
    c.is_whitespace()
}

/// The ASCII punctuation characters: `!` to `/`, `:` to `@`, `[` to `` ` ``
/// and `{` to `~`.
pub open spec fn ascii_punctuation(c: char) -> bool {
    ('!' <= c <= '/') || (':' <= c <= '@') || ('[' <= c <= '`') || ('{' <= c <= '~')
}

/// A character that may stand for a cell: a letter, a digit, white space or
/// ASCII punctuation.
pub open spec fn glyph_ok(c: char) -> bool {
    alphanumeric(c) || whitespace(c) || ascii_punctuation(c)
}

pub fn is_ascii_punctuation(c: char) -> (r: bool)
    ensures
        r == ascii_punctuation(c),
{
    ('!' <= c && c <= '/') || (':' <= c && c <= '@') || ('[' <= c && c <= '`') || ('{' <= c && c <= '~')
}

/// Whether `c` is acceptable as a display glyph.
pub fn valid_chars(c: char) -> (r: bool)
    ensures
        r == glyph_ok(c),
{
    char_is_alphanumeric(c) || char_is_whitespace(c) || is_ascii_punctuation(c)
}

pub open spec fn digit(d: nat) -> char {
    seq!['0', '1', '2', '3', '4', '5', '6', '7', '8', '9'][d as int]
}

/// `n` in decimal, without leading zeros.
pub open spec fn decimal(n: nat) -> Seq<char>
    decreases n,
{
    if n < 10 {
        seq![digit(n)]
    } else {
        decimal(n / 10).push(digit(n % 10))
    }
}

/// `tenths / 10` with one decimal place.
pub open spec fn one_place(tenths: nat) -> Seq<char> {
    decimal(tenths / 10) + seq!['.', digit(tenths % 10)]
}

/// The status line: both glyphs, both thresholds and the frame rate, which is
/// given in tenths of a frame per second.
pub open spec fn toolbar_text(fg: char, bg: char, live: nat, birth: nat, rate_tenths: nat) -> Seq<char> {
    seq!['F', 'G', ':', '\''] + seq![fg] + seq!['\'', ' ', 'B', 'G', ':', '\''] + seq![bg]
        + seq!['\'', ' ', 'L', 'i', 'v', 'e', ':'] + decimal(live)
        + seq![' ', 'B', 'i', 'r', 't', 'h', ':'] + decimal(birth)
        + seq![' ', 'F', 'P', 'S', ':'] + one_place(rate_tenths)
}

fn push_digit(out: &mut Vec<char>, d: u32)
    requires
        d < 10,
    ensures
        final(out)@ == old(out)@.push(digit(d as nat)),
{
    let digits: [char; 10] = ['0', '1', '2', '3', '4', '5', '6', '7', '8', '9'];
    assert(digits@ =~= seq!['0', '1', '2', '3', '4', '5', '6', '7', '8', '9']);
    out.push(digits[d as usize]);
}

/// Appends `n` in decimal.
pub fn push_decimal(out: &mut Vec<char>, n: u32)
    ensures
        final(out)@ == old(out)@ + decimal(n as nat),
    decreases n,
{
    if n >= 10 {
        push_decimal(out, n / 10);
    }
    push_digit(out, n % 10);
    assert(final(out)@ =~= old(out)@ + decimal(n as nat));
}

fn push_chars(out: &mut Vec<char>, s: &[char])
    ensures
        final(out)@ == old(out)@ + s@,
{
    let mut i: usize = 0;
    while i < s.len()
        invariant
            i <= s@.len(),
            out@ == old(out)@ + s@.take(i as int),
        decreases s@.len() - i,
    {
        out.push(s[i]);
        i += 1;
        assert(s@.take(i as int) =~= s@.take(i - 1).push(s@[i - 1]));
    }
    assert(s@.take(i as int) =~= s@);
}

/// Relies on `FromIterator<&char> for String`: collecting characters gives a
/// string of those characters in order.
#[verifier::external_body]
pub(crate) fn chars_to_string(v: &Vec<char>) -> (r: String)
    ensures
        r@ == v@,
{
    v.iter().collect()
}

/// The status line shown below the grid.
pub fn gen_toolbar(fg: char, bg: char, live: u32, birth: u32, rate_tenths: u32) -> (r: String)
    ensures
        r@ == toolbar_text(fg, bg, live as nat, birth as nat, rate_tenths as nat),
{
    let out = toolbar_chars(fg, bg, live, birth, rate_tenths);
    chars_to_string(&out)
}

/// The characters of `gen_toolbar`.
pub fn toolbar_chars(fg: char, bg: char, live: u32, birth: u32, rate_tenths: u32) -> (r: Vec<char>)
    ensures
        r@ == toolbar_text(fg, bg, live as nat, birth as nat, rate_tenths as nat),
{
    let mut out: Vec<char> = Vec::new();
    push_chars(&mut out, &['F', 'G', ':', '\'']);
    out.push(fg);
    push_chars(&mut out, &['\'', ' ', 'B', 'G', ':', '\'']);
    out.push(bg);
    push_chars(&mut out, &['\'', ' ', 'L', 'i', 'v', 'e', ':']);
    push_decimal(&mut out, live);
    push_chars(&mut out, &[' ', 'B', 'i', 'r', 't', 'h', ':']);
    push_decimal(&mut out, birth);
    push_chars(&mut out, &[' ', 'F', 'P', 'S', ':']);
    push_decimal(&mut out, rate_tenths / 10);
    out.push('.');
    push_digit(&mut out, rate_tenths % 10);
    assert(out@ =~= toolbar_text(fg, bg, live as nat, birth as nat, rate_tenths as nat));
    out
}

} // verus!

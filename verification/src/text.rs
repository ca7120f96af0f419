//! Building blocks for fixed-width text: decimal numbers, repeated characters
//! and left-aligned cells.

use vstd::prelude::*;
use vstd::string::*;

verus! {

/// The character that stands for the digit `d`; only `0 <= d < 10` is meaningful.
pub open spec fn digit_char(d: nat) -> char {
    "0123456789"@[d as int]
}

/// The decimal numeral of `n`: most significant digit first, no sign, no
/// separators and no leading zero (`0` itself is the one digit `0`).
pub open spec fn decimal_text(n: nat) -> Seq<char>
    decreases n,
{
    if n < 10 {
        seq![digit_char(n)]
    } else {
        decimal_text(n / 10).push(digit_char(n % 10))
    }
}

/// `count` copies of the character `c`.
pub open spec fn repeated(c: char, count: nat) -> Seq<char> {
    Seq::new(count, |i: int| c)
}

/// `text` left-aligned in a cell of `width` characters: filled with spaces on
/// the right up to `width`, and left as it is when it is already that long or
/// longer. Nothing is ever cut off.
pub open spec fn left_aligned(text: Seq<char>, width: nat) -> Seq<char> {
    if text.len() >= width {
        text
    } else {
        text + repeated(' ', (width - text.len()) as nat)
    }
}

/// The one-character string of a decimal digit.
fn digit_str(d: usize) -> (out: &'static str)
    requires
        d < 10,
    ensures
        out@ == seq![digit_char(d as nat)],
{
    proof {
        reveal_strlit("0123456789");
    }
    let out = "0123456789".substring_char(d, d + 1);
    assert(out@ =~= seq![digit_char(d as nat)]);
    out
}

/// Renders `n` in decimal.
pub fn decimal(n: usize) -> (out: String)
    ensures
        out@ == decimal_text(n as nat),
    decreases n,
{
    if n < 10 {
        let out = digit_str(n).to_owned();
        out
    } else {
        let mut out = decimal(n / 10);
        out.append(digit_str(n % 10));
        assert(out@ =~= decimal_text(n as nat));
        out
    }
}

/// Appends `count` copies of the one-character string `unit` to `out`.
fn append_repeated(out: &mut String, unit: &str, count: usize)
    requires
        unit@.len() == 1,
    ensures
        final(out)@ == old(out)@ + repeated(unit@[0], count as nat),
{
    let mut done: usize = 0;
    while done < count
        invariant
            done <= count,
            unit@.len() == 1,
            out@ == old(out)@ + repeated(unit@[0], done as nat),
        decreases count - done,
    {
        out.append(unit);
        done += 1;
        assert(out@ =~= old(out)@ + repeated(unit@[0], done as nat));
    }
}

/// A rule line: `count` dashes.
pub fn dashes(count: usize) -> (out: String)
    ensures
        out@ == repeated('-', count as nat),
{
    proof {
        reveal_strlit("-");
    }
    let mut out = String::new();
    append_repeated(&mut out, "-", count);
    assert(out@ =~= repeated('-', count as nat));
    out
}

/// Left-aligns `text` in a cell of `width` characters.
pub fn pad_right(text: &str, width: usize) -> (out: String)
    ensures
        out@ == left_aligned(text@, width as nat),
{
    let mut out = text.to_owned();
    let len: usize = text.unicode_len();
    if len < width {
        proof {
            reveal_strlit(" ");
        }
        append_repeated(&mut out, " ", width - len);
    }
    out
}

} // verus!

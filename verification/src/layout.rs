//! Laying text out in columns and writing numbers in decimal.
//!
//! Widths count characters, not bytes and not the cells of a terminal.

use vstd::prelude::*;

verus! {

/// `n` spaces.
pub open spec fn blanks(n: nat) -> Seq<char> {
    Seq::new(n, |i: int| ' ')
}

/// `s`, with spaces in front of it until it is `width` characters long. A
/// text that is already that long is left as it is.
pub open spec fn pad_start(s: Seq<char>, width: nat) -> Seq<char> {
    if s.len() >= width {
        s
    } else {
        blanks((width - s.len()) as nat) + s
    }
}

/// `s`, with spaces behind it until it is `width` characters long. A text
/// that is already that long is left as it is.
pub open spec fn pad_end(s: Seq<char>, width: nat) -> Seq<char> {
    if s.len() >= width {
        s
    } else {
        s + blanks((width - s.len()) as nat)
    }
}

/// The character for a digit below ten.
pub open spec fn digit_char(d: nat) -> char {
    if d == 0 {
        '0'
    } else if d == 1 {
        '1'
    } else if d == 2 {
        '2'
    } else if d == 3 {
        '3'
    } else if d == 4 {
        '4'
    } else if d == 5 {
        '5'
    } else if d == 6 {
        '6'
    } else if d == 7 {
        '7'
    } else if d == 8 {
        '8'
    } else {
        '9'
    }
}

/// `n` in decimal, without sign and without leading zeros; zero is `0`.
pub open spec fn decimal(n: nat) -> Seq<char>
    decreases n,
{
    if n < 10 {
        seq![digit_char(n)]
    } else {
        decimal(n / 10).push(digit_char(n % 10))
    }
}

/// Appends `count` spaces to `out`.
fn append_blanks(out: &mut String, count: usize)
    ensures
        final(out)@ == old(out)@ + blanks(count as nat),
{
    let mut done: usize = 0;
    proof {
        assert(out@ + blanks(0) =~= out@);
    }
    while done < count
        invariant
            done <= count,
            out@ == old(out)@ + blanks(done as nat),
        decreases count - done,
    {
        out.append(" ");
        proof {
            reveal_strlit(" ");
            assert(out@ =~= old(out)@ + blanks((done + 1) as nat));
        }
        done += 1;
    }
}

/// `text`, right-aligned in a column of `width` characters.
pub fn padded_start(text: &str, width: usize) -> (out: String)
    ensures
        out@ == pad_start(text@, width as nat),
{
    let len = text.unicode_len();
    let mut out = String::new();
    if len < width {
        append_blanks(&mut out, width - len);
    }
    out.append(text);
    proof {
        assert(out@ =~= pad_start(text@, width as nat));
    }
    out
}

/// `text`, left-aligned in a column of `width` characters.
pub fn padded_end(text: &str, width: usize) -> (out: String)
    ensures
        out@ == pad_end(text@, width as nat),
{
    let len = text.unicode_len();
    let mut out = text.to_owned();
    if len < width {
        append_blanks(&mut out, width - len);
    }
    out
}

/// The text of a digit below ten.
fn digit_text(d: u8) -> (s: &'static str)
    requires
        d < 10,
    ensures
        s@ == seq![digit_char(d as nat)],
{
    proof {
        reveal_strlit("0");
        reveal_strlit("1");
        reveal_strlit("2");
        reveal_strlit("3");
        reveal_strlit("4");
        reveal_strlit("5");
        reveal_strlit("6");
        reveal_strlit("7");
        reveal_strlit("8");
        reveal_strlit("9");
    }
    let s = match d {
        0 => "0",
        1 => "1",
        2 => "2",
        3 => "3",
        4 => "4",
        5 => "5",
        6 => "6",
        7 => "7",
        8 => "8",
        _ => "9",
    };
    assert(s@ =~= seq![digit_char(d as nat)]);
    s
}

/// `n` written in decimal.
pub fn decimal_text(n: u128) -> (out: String)
    ensures
        out@ == decimal(n as nat),
    decreases n,
{
    if n < 10 {
        digit_text(n as u8).to_owned()
    } else {
        let mut out = decimal_text(n / 10);
        out.append(digit_text((n % 10) as u8));
        proof {
            assert(out@ =~= decimal(n as nat));
        }
        out
    }
}

} // verus!

//! Building blocks for fixed-width text: repeated glyphs, decimal numbers and
//! justified columns, each with the sequence of characters it denotes.

use vstd::prelude::*;

verus! {

/// `n` copies of the character `c`.
pub open spec fn repeated(c: char, n: nat) -> Seq<char> {
    Seq::new(n, |i: int| c)
}

/// The character that writes the decimal digit `d`; meaningful for `d < 10`.
pub open spec fn digit_char(d: nat) -> char {
    if d == 0 {
        '0'
    } else if d == 1 {
        '1'
    } else if d == 2 {
        '2'
    } else if d == 3 {
        '3'
    } else if d == 4 {
        '4'
    } else if d == 5 {
        '5'
    } else if d == 6 {
        '6'
    } else if d == 7 {
        '7'
    } else if d == 8 {
        '8'
    } else {
        '9'
    }
}

/// The decimal notation of `n`, without sign or leading zeros.
pub open spec fn decimal(n: nat) -> Seq<char>
    decreases n,
{
    if n < 10 {
        seq![digit_char(n)]
    } else {
        decimal(n / 10).push(digit_char(n % 10))
    }
}

/// `s` moved to the right edge of a column of `width` characters. A text that
/// is wider than the column is left as it is.
pub open spec fn right_justified(s: Seq<char>, width: nat) -> Seq<char> {
    if s.len() < width {
        repeated(' ', (width - s.len()) as nat) + s
    } else {
        s
    }
}

/// `s` at the left edge of a column of `width` characters. A text that is
/// wider than the column is left as it is.
pub open spec fn left_justified(s: Seq<char>, width: nat) -> Seq<char> {
    if s.len() < width {
        s + repeated(' ', (width - s.len()) as nat)
    } else {
        s
    }
}

/// A justified text fills its column, or keeps its own width where that is
/// larger.
pub proof fn lemma_justified_len(s: Seq<char>, width: nat)
    ensures
        right_justified(s, width).len() == if s.len() < width { width } else { s.len() },
        left_justified(s, width).len() == if s.len() < width { width } else { s.len() },
{
}

/// A number below a thousand is written with as many digits as it has, and
/// no number is written with none.
pub proof fn lemma_decimal_len(n: nat)
    ensures
        decimal(n).len() >= 1,
        n < 10 ==> decimal(n).len() == 1,
        10 <= n < 100 ==> decimal(n).len() == 2,
        100 <= n < 1000 ==> decimal(n).len() == 3,
    decreases n,
{
    if n >= 10 {
        lemma_decimal_len(n / 10);
    }
}

/// The one-character text of a decimal digit.
pub(crate) fn digit_str(d: u8) -> (s: &'static str)
    requires
        d < 10,
    ensures
        s@ == seq![digit_char(d as nat)],
{
    proof {
        reveal_strlit("0");
        reveal_strlit("1");
        reveal_strlit("2");
        reveal_strlit("3");
        reveal_strlit("4");
        reveal_strlit("5");
        reveal_strlit("6");
        reveal_strlit("7");
        reveal_strlit("8");
        reveal_strlit("9");
    }
    let s: &'static str = if d == 0 {
        "0"
    } else if d == 1 {
        "1"
    } else if d == 2 {
        "2"
    } else if d == 3 {
        "3"
    } else if d == 4 {
        "4"
    } else if d == 5 {
        "5"
    } else if d == 6 {
        "6"
    } else if d == 7 {
        "7"
    } else if d == 8 {
        "8"
    } else {
        "9"
    };
    assert(s@ =~= seq![digit_char(d as nat)]);
    s
}

/// Appends the decimal notation of `n` to `buf`.
pub fn push_decimal(buf: &mut String, n: u128)
    ensures
        final(buf)@ == old(buf)@ + decimal(n as nat),
    decreases n,
{
    if n < 10 {
        buf.append(digit_str(n as u8));
    } else {
        push_decimal(buf, n / 10);
        buf.append(digit_str((n % 10) as u8));
        assert(buf@ =~= old(buf)@ + decimal(n as nat));
    }
}

/// Appends `n` copies of the single character of `glyph` to `buf`.
pub(crate) fn push_repeated(buf: &mut String, glyph: &str, n: usize)
    requires
        glyph@.len() == 1,
    ensures
        final(buf)@ == old(buf)@ + repeated(glyph@[0], n as nat),
{
    let ghost start = buf@;
    let mut i: usize = 0;
    while i < n
        invariant
            i <= n,
            glyph@.len() == 1,
            buf@ == start + repeated(glyph@[0], i as nat),
        decreases n - i,
    {
        buf.append(glyph);
        i = i + 1;
        assert(buf@ =~= start + repeated(glyph@[0], i as nat));
    }
}

/// Appends `s` to `buf`, with spaces before it up to a column of `width`
/// characters.
pub fn push_right_justified(buf: &mut String, s: &str, width: usize)
    ensures
        final(buf)@ == old(buf)@ + right_justified(s@, width as nat),
{
    proof {
        reveal_strlit(" ");
    }
    let len: usize = s.unicode_len();
    if len < width {
        push_repeated(buf, " ", width - len);
        buf.append(s);
        assert(buf@ =~= old(buf)@ + right_justified(s@, width as nat));
    } else {
        buf.append(s);
    }
}

/// Appends `s` to `buf`, with spaces after it up to a column of `width`
/// characters.
pub fn push_left_justified(buf: &mut String, s: &str, width: usize)
    ensures
        final(buf)@ == old(buf)@ + left_justified(s@, width as nat),
{
    proof {
        reveal_strlit(" ");
    }
    let len: usize = s.unicode_len();
    buf.append(s);
    if len < width {
        push_repeated(buf, " ", width - len);
        assert(buf@ =~= old(buf)@ + left_justified(s@, width as nat));
    }
}

/// The characters of `s`, one by one.
pub fn chars_of(s: &str) -> (chars: Vec<char>)
    ensures
        chars@ == s@,
{
    let mut chars: Vec<char> = Vec::new();
    for c in it: s.chars()
        invariant
            it.seq() == s@,
            chars@ == it.seq().take(it.index() as int),
    {
        chars.push(c);
    }
    chars
}

} // verus!

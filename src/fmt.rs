//! Fixed-width text: decimal numbers, padding, truncation with an ellipsis.

use vstd::prelude::*;
use vstd::string::StringExecFns;

verus! {

/// The decimal digit for `d < 10`.
pub open spec fn digit_char(d: nat) -> char {
    ((d + 48) as u8) as char
}

/// The decimal representation of `n`, without leading zeros.
pub open spec fn digits(n: nat) -> Seq<char>
    decreases n,
{
    if n < 10 {
        seq![digit_char(n)]
    } else {
        digits(n / 10).push(digit_char(n % 10))
    }
}

/// `n` copies of the character `c`.
pub open spec fn repeat(c: char, n: nat) -> Seq<char> {
    Seq::new(n, |i: int| c)
}

/// `s` right-aligned in a field of `w` characters filled with `c`.
pub open spec fn pad_left(s: Seq<char>, w: nat, c: char) -> Seq<char> {
    if s.len() < w {
        repeat(c, (w - s.len()) as nat) + s
    } else {
        s
    }
}

/// `s` left-aligned in a field of at least `w` characters.
pub open spec fn pad_right(s: Seq<char>, w: nat) -> Seq<char> {
    if s.len() < w {
        s + repeat(' ', (w - s.len()) as nat)
    } else {
        s
    }
}

/// `s` made exactly `w` characters wide: padded with spaces or cut.
pub open spec fn fit(s: Seq<char>, w: nat) -> Seq<char> {
    if s.len() <= w {
        pad_right(s, w)
    } else {
        s.take(w as int)
    }
}

/// `s` shortened for a column of `w` characters: kept when it has at most
/// `w - 2` characters; otherwise its first `min(len, w) - 3` characters
/// (none when that is negative) followed by `...`, so never wider than `w`
/// for `w >= 3`.
pub open spec fn truncated(s: Seq<char>, w: nat) -> Seq<char> {
    if s.len() + 2 <= w {
        s
    } else {
        let k: int = if s.len() < w { s.len() as int } else { w as int };
        s.take(if k >= 3 { k - 3 } else { 0 }) + "..."@
    }
}

/// Appends the decimal digits of `n`.
pub fn push_digits(out: &mut String, n: u64)
    ensures
        final(out)@ == old(out)@ + digits(n as nat),
    decreases n,
{
    if n >= 10 {
        push_digits(out, n / 10);
    }
    let d = (n % 10) as u8;
    out.push((d + 48) as char);
    assert(final(out)@ =~= old(out)@ + digits(n as nat));
}

/// Appends `n` copies of `c`.
pub fn push_repeat(out: &mut String, c: char, n: usize)
    ensures
        final(out)@ == old(out)@ + repeat(c, n as nat),
{
    let mut i: usize = 0;
    while i < n
        invariant
            i <= n,
            out@ == old(out)@ + repeat(c, i as nat),
        decreases n - i,
    {
        out.push(c);
        i = i + 1;
        assert(out@ =~= old(out)@ + repeat(c, i as nat));
    }
}

/// Appends `n` right-aligned in a field of `w` characters filled with `c`.
pub fn push_num(out: &mut String, n: u64, w: usize, c: char)
    ensures
        final(out)@ == old(out)@ + pad_left(digits(n as nat), w as nat, c),
{
    let mut t = String::new();
    push_digits(&mut t, n);
    assert(t@ =~= digits(n as nat));
    let len = t.as_str().unicode_len();
    if len < w {
        push_repeat(out, c, w - len);
    }
    out.append(t.as_str());
    assert(final(out)@ =~= old(out)@ + pad_left(digits(n as nat), w as nat, c));
}

/// Appends `s` left-aligned in a field of at least `w` characters.
pub fn push_pad_right(out: &mut String, s: &str, w: usize)
    ensures
        final(out)@ == old(out)@ + pad_right(s@, w as nat),
{
    out.append(s);
    let len = s.unicode_len();
    if len < w {
        push_repeat(out, ' ', w - len);
    }
    assert(final(out)@ =~= old(out)@ + pad_right(s@, w as nat));
}

/// Appends `s` made exactly `w` characters wide.
pub fn push_fit(out: &mut String, s: &str, w: usize)
    ensures
        final(out)@ == old(out)@ + fit(s@, w as nat),
{
    let len = s.unicode_len();
    if len <= w {
        push_pad_right(out, s, w);
    } else {
        out.append(s.substring_char(0, w));
        assert(s@.subrange(0, w as int) =~= s@.take(w as int));
    }
}

/// Shortens `str` for a column of `len` characters: kept as it is when it
/// has at most `len - 2` characters, else cut and ended with `...`, never
/// wider than `len`.
pub fn truncate_str(str: &str, len: usize) -> (r: String)
    requires
        len >= 3,
    ensures
        r@ == truncated(str@, len as nat),
        r@.len() <= len,
{
    let n = str.unicode_len();
    if n <= len - 2 {
        String::from_str(str)
    } else {
        let k = if n < len { n } else { len };
        let keep = if k >= 3 { k - 3 } else { 0 };
        let head = String::from_str(str.substring_char(0, keep));
        assert(str@.subrange(0, keep as int) =~= str@.take(keep as int));
        proof {
            reveal_strlit("...");
        }
        head.concat("...")
    }
}

/// A name as wide as the column's threshold (`w - 2`) is kept; one character
/// wider loses its last three characters to `...` once it has three to lose
/// (`w >= 4`); at `w == 3` every longer name becomes `...`.
pub proof fn lemma_truncation_edges(s: Seq<char>, w: nat)
    requires
        w >= 3,
    ensures
        s.len() == w - 2 ==> truncated(s, w) == s,
        w >= 4 && s.len() == w - 1 ==> truncated(s, w) == s.take(s.len() - 3) + "..."@,
        w == 3 && s.len() > 1 ==> truncated(s, w) == "..."@,
        truncated(s, w).len() <= w,
{
    reveal_strlit("...");
    assert(s.take(0) + "..."@ =~= "..."@);
}

} // verus!

use vstd::prelude::*;
use vstd::string::{StrSliceExecFns, StringExecFns};

verus! {

/// `n` copies of the character `c`.
pub open spec fn repeated(c: char, n: nat) -> Seq<char> {
    Seq::new(n, |_i: int| c)
}

/// How many fill characters bring `s` up to `width`; none when it is as wide
/// already.
pub open spec fn fill_len(s: Seq<char>, width: nat) -> nat {
    if s.len() < width {
        (width - s.len()) as nat
    } else {
        0
    }
}

/// `s` padded with spaces on the right to at least `width` characters.
pub open spec fn align_left(s: Seq<char>, width: nat) -> Seq<char> {
    s + repeated(' ', fill_len(s, width))
}

/// `s` padded with spaces on the left to at least `width` characters.
pub open spec fn align_right(s: Seq<char>, width: nat) -> Seq<char> {
    repeated(' ', fill_len(s, width)) + s
}

/// `s` centred in `width` characters; an odd space goes to the right.
pub open spec fn align_center(s: Seq<char>, width: nat) -> Seq<char> {
    repeated(' ', fill_len(s, width) / 2) + s + repeated(' ', (fill_len(s, width) - fill_len(
        s,
        width,
    ) / 2) as nat)
}

/// Appends `n` copies of the one character of `fill`.
pub fn push_repeated(out: &mut String, fill: &str, n: usize)
    requires
        fill@.len() == 1,
    ensures
        final(out)@ == old(out)@ + repeated(fill@[0], n as nat),
{
    let mut i: usize = 0;
    while i < n
        invariant
            fill@.len() == 1,
            i <= n,
            out@ == old(out)@ + repeated(fill@[0], i as nat),
        decreases n - i,
    {
        out.append(fill);
        assert(out@ =~= old(out)@ + repeated(fill@[0], (i + 1) as nat));
        i = i + 1;
    }
}

fn fill_count(s: &str, width: usize) -> (r: usize)
    ensures
        r as nat == fill_len(s@, width as nat),
{
    let len = s.unicode_len();
    if len < width {
        width - len
    } else {
        0
    }
}

/// Appends `s` left-aligned in `width` characters.
pub fn push_left(out: &mut String, s: &str, width: usize)
    ensures
        final(out)@ == old(out)@ + align_left(s@, width as nat),
{
    let fill = fill_count(s, width);
    out.append(s);
    proof {
        reveal_strlit(" ");
    }
    push_repeated(out, " ", fill);
    assert(out@ =~= old(out)@ + align_left(s@, width as nat));
}

/// Appends `s` right-aligned in `width` characters.
pub fn push_right(out: &mut String, s: &str, width: usize)
    ensures
        final(out)@ == old(out)@ + align_right(s@, width as nat),
{
    let fill = fill_count(s, width);
    proof {
        reveal_strlit(" ");
    }
    push_repeated(out, " ", fill);
    out.append(s);
    assert(out@ =~= old(out)@ + align_right(s@, width as nat));
}

/// Appends `s` centred in `width` characters.
pub fn push_center(out: &mut String, s: &str, width: usize)
    ensures
        final(out)@ == old(out)@ + align_center(s@, width as nat),
{
    let fill = fill_count(s, width);
    proof {
        reveal_strlit(" ");
    }
    push_repeated(out, " ", fill / 2);
    out.append(s);
    push_repeated(out, " ", fill - fill / 2);
    assert(out@ =~= old(out)@ + align_center(s@, width as nat));
}

} // verus!

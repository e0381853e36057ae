//! Small text helpers: padding labels to a fixed column.
use vstd::prelude::*;

verus! {

/// `n` space characters.
pub open spec fn spaces(n: nat) -> Seq<char> {
    Seq::new(n, |_i: int| ' ')
}

/// `s` followed by spaces up to `width` characters; `s` itself when it is
/// already that long or longer.
pub open spec fn padded(s: Seq<char>, width: nat) -> Seq<char> {
    if s.len() >= width {
        s
    } else {
        s + spaces((width - s.len()) as nat)
    }
}

/// Left-aligns `s` in a column of `len` characters by appending spaces.
pub fn pad(s: &str, len: usize) -> (r: String)
    ensures
        r@ == padded(s@, len as nat),
{
    let n = s.unicode_len();
    let mut r = s.to_owned();
    if n >= len {
        return r;
    }
    let mut i: usize = n;
    while i < len
        invariant
            n <= i <= len,
            n == s@.len(),
            r@ == s@ + spaces((i - n) as nat),
        decreases len - i,
    {
        r.append(" ");
        proof {
            reveal_strlit(" ");
            assert(spaces((i + 1 - n) as nat) =~= spaces((i - n) as nat).push(' '));
        }
        i = i + 1;
        assert(r@ =~= s@ + spaces((i - n) as nat));
    }
    r
}

} // verus!

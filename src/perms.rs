//! A stable textual form of permission bits: nine `rwx` characters for owner,
//! group and others, `-` where the bit is clear.
use vstd::prelude::*;

verus! {

/// Whether bit `k` of `mode` is set.
pub open spec fn bit_set(mode: u32, k: u32) -> bool {
    (mode >> k) & 1u32 == 1u32
}

/// The letter that a set bit shows at position `i` (0 to 8): `r`, `w`, `x` in turn.
pub open spec fn perm_letter(i: int) -> char {
    if i % 3 == 0 {
        'r'
    } else if i % 3 == 1 {
        'w'
    } else {
        'x'
    }
}

/// Character `i` of the rendering: position 0 stands for bit 8 (owner read),
/// position 8 for bit 0 (others execute).
pub open spec fn perm_char(mode: u32, i: int) -> char {
    if bit_set(mode, (8 - i) as u32) {
        perm_letter(i)
    } else {
        '-'
    }
}

/// The nine-character rendering of the low nine bits of `mode`.
pub open spec fn mode_text(mode: u32) -> Seq<char> {
    Seq::new(9, |i: int| perm_char(mode, i))
}

/// Renders the permission bits of `mode` as `rwxr-xr-x` and the like; bits
/// above the ninth are not shown.
pub fn permission_text(mode: u32) -> (r: String)
    ensures
        r@ == mode_text(mode),
{
    let mut r = String::new();
    let mut i: u32 = 0;
    while i < 9
        invariant
            i <= 9,
            r@ == mode_text(mode).take(i as int),
        decreases 9 - i,
    {
        let k: u32 = 8 - i;
        let set = (mode >> k) & 1u32 == 1u32;
        proof {
            reveal_strlit("r");
            reveal_strlit("w");
            reveal_strlit("x");
            reveal_strlit("-");
        }
        if !set {
            r.append("-");
        } else if i % 3 == 0 {
            r.append("r");
        } else if i % 3 == 1 {
            r.append("w");
        } else {
            r.append("x");
        }
        assert(r@ =~= mode_text(mode).take(i as int + 1));
        i = i + 1;
    }
    assert(r@ =~= mode_text(mode));
    r
}

} // verus!

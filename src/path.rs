//! Paths written with `/` separators: the final name of a path, and joining a
//! path onto a base directory.
use vstd::prelude::*;

verus! {

/// A segment that names nothing: empty (between repeated separators, or after
/// a trailing one) or `.`.
pub open spec fn is_blank(seg: Seq<char>) -> bool {
    seg.len() == 0 || seg == seq!['.']
}

/// The last segment that names something, given the segment `seg` just ended
/// and the one found before it.
pub open spec fn settle(seg: Seq<char>, before: Option<Seq<char>>) -> Option<Seq<char>> {
    if is_blank(seg) {
        before
    } else {
        Some(seg)
    }
}

/// The last segment of `rest` that names something, where `seg` is what was
/// read of the current segment so far and `before` the last such segment
/// that ended before it.
pub open spec fn last_segment_from(
    rest: Seq<char>,
    seg: Seq<char>,
    before: Option<Seq<char>>,
) -> Option<Seq<char>>
    decreases rest.len(),
{
    if rest.len() == 0 {
        settle(seg, before)
    } else if rest[0] == '/' {
        last_segment_from(rest.drop_first(), Seq::empty(), settle(seg, before))
    } else {
        last_segment_from(rest.drop_first(), seg.push(rest[0]), before)
    }
}

/// The last segment of `p` that is neither empty nor `.`, if there is one.
pub open spec fn last_segment(p: Seq<char>) -> Option<Seq<char>> {
    last_segment_from(p, Seq::empty(), None)
}

/// The final name of `p`: its last segment that is neither empty nor `.`;
/// none where there is no such segment (a root, `.`, an empty path) or where
/// that segment is `..`.
pub open spec fn final_name(p: Seq<char>) -> Option<Seq<char>> {
    match last_segment(p) {
        Some(n) => if n == seq!['.', '.'] {
            None
        } else {
            Some(n)
        },
        None => None,
    }
}

/// `p` taken relative to `base`: `p` itself where it is absolute, else `base`
/// and `p` with one separator between them (none where `base` is empty or
/// already ends in one).
pub open spec fn joined(base: Seq<char>, p: Seq<char>) -> Seq<char> {
    if p.len() > 0 && p[0] == '/' {
        p
    } else if base.len() == 0 || base.last() == '/' {
        base + p
    } else {
        base + seq!['/'] + p
    }
}

/// A run of separators, read with nothing named before it, names nothing.
proof fn lemma_separators_name_nothing(rest: Seq<char>)
    requires
        forall|i: int| 0 <= i < rest.len() ==> rest[i] == '/',
    ensures
        last_segment_from(rest, Seq::empty(), None) is None,
    decreases rest.len(),
{
    if rest.len() > 0 {
        assert(rest[0] == '/');
        lemma_separators_name_nothing(rest.drop_first());
    }
}

/// A root, written as one or more separators and nothing else, has no final
/// name.
pub proof fn lemma_root_has_no_name(p: Seq<char>)
    requires
        forall|i: int| 0 <= i < p.len() ==> p[i] == '/',
    ensures
        final_name(p) is None,
{
    lemma_separators_name_nothing(p);
}

/// The text of `p` between the positions of `span`, if there is one.
spec fn span_text(p: Seq<char>, span: Option<(usize, usize)>) -> Option<Seq<char>> {
    match span {
        Some((a, b)) => Some(p.subrange(a as int, b as int)),
        None => None,
    }
}

/// Whether the characters from `a` to `b` of `path` are empty or `.`.
fn blank_span(path: &str, a: usize, b: usize) -> (r: bool)
    requires
        a <= b <= path@.len(),
    ensures
        r == is_blank(path@.subrange(a as int, b as int)),
{
    if a == b {
        assert(path@.subrange(a as int, b as int).len() == 0);
        true
    } else if b - a == 1 {
        let c = path.get_char(a);
        assert(path@.subrange(a as int, b as int) =~= seq![c]);
        assert(seq![c][0] == c);
        assert(seq!['.'][0] == '.');
        c == '.'
    } else {
        assert(path@.subrange(a as int, b as int).len() != seq!['.'].len());
        false
    }
}

/// The final name of `path` (see `final_name`).
pub fn file_name(path: &str) -> (r: Option<String>)
    ensures
        match r {
            Some(n) => final_name(path@) == Some(n@),
            None => final_name(path@) is None,
        },
{
    let n = path.unicode_len();
    let ghost p = path@;
    let mut i: usize = 0;
    let mut start: usize = 0;
    let mut before: Option<(usize, usize)> = None;
    assert(p.skip(0) =~= p);
    assert(p.subrange(0, 0) =~= Seq::<char>::empty());
    while i < n
        invariant
            n == p.len(),
            p == path@,
            start <= i <= n,
            match before {
                Some((a, b)) => a <= b <= n,
                None => true,
            },
            last_segment(p) == last_segment_from(
                p.skip(i as int),
                p.subrange(start as int, i as int),
                span_text(p, before),
            ),
        decreases n - i,
    {
        let c = path.get_char(i);
        assert(p.skip(i as int).drop_first() =~= p.skip(i as int + 1));
        assert(p.skip(i as int)[0] == c);
        if c == '/' {
            if !blank_span(path, start, i) {
                before = Some((start, i));
            }
            start = i + 1;
            assert(p.subrange(start as int, i as int + 1) =~= Seq::<char>::empty());
        } else {
            assert(p.subrange(start as int, i as int).push(c) =~= p.subrange(
                start as int,
                i as int + 1,
            ));
        }
        i = i + 1;
    }
    assert(p.skip(n as int) =~= Seq::<char>::empty());
    if !blank_span(path, start, n) {
        before = Some((start, n));
    }
    match before {
        Some((a, b)) => {
            if b - a == 2 && path.get_char(a) == '.' && path.get_char(a + 1) == '.' {
                assert(p.subrange(a as int, b as int) =~= seq!['.', '.']);
                None
            } else {
                let name = path.substring_char(a, b);
                assert(seq!['.', '.'].len() == 2);
                assert(seq!['.', '.'][0] == '.' && seq!['.', '.'][1] == '.');
                assert(name@.len() != 2 || name@[0] != '.' || name@[1] != '.');
                assert(name@ != seq!['.', '.']);
                Some(name.to_owned())
            }
        },
        None => None,
    }
}

/// Joins `path` onto the directory `base` (see `joined`).
pub fn join_path(base: &str, path: &str) -> (r: String)
    ensures
        r@ == joined(base@, path@),
{
    let absolute = path.unicode_len() > 0 && path.get_char(0) == '/';
    if absolute {
        return path.to_owned();
    }
    let bn = base.unicode_len();
    let mut r = base.to_owned();
    if bn > 0 && base.get_char(bn - 1) != '/' {
        r.append("/");
        proof {
            reveal_strlit("/");
        }
    }
    r.append(path);
    r
}

} // verus!

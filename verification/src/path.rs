//! Paths as text, with the Unix rules of `std::path`: '/' separates
//! components and a component that starts with '/' replaces what it is
//! joined to.

use vstd::prelude::*;
use crate::text::{join_spec, split_spec, views, split_char, join_strings, lemma_join_starts_with_first, lemma_split_pieces_lack_sep};

verus! {

/// `base.join(part)`: `part` alone when it is absolute, otherwise `part`
/// appended to `base` with one '/' between them unless `base` is empty or
/// already ends with '/'.
pub open spec fn path_join(base: Seq<char>, part: Seq<char>) -> Seq<char> {
    if part.len() > 0 && part[0] == '/' {
        part
    } else if base.len() == 0 || base.last() == '/' {
        base + part
    } else {
        base + seq!['/'] + part
    }
}

/// The path that pushing each of `parts` onto an empty path builds.
pub open spec fn path_of(parts: Seq<Seq<char>>) -> Seq<char>
    decreases parts.len(),
{
    if parts.len() == 0 {
        Seq::<char>::empty()
    } else {
        path_join(path_of(parts.drop_last()), parts.last())
    }
}

/// The pieces of a split path that name something: neither empty nor ".".
pub open spec fn normal_segments(pieces: Seq<Seq<char>>) -> Seq<Seq<char>>
    decreases pieces.len(),
{
    if pieces.len() == 0 {
        Seq::<Seq<char>>::empty()
    } else {
        let r = normal_segments(pieces.drop_last());
        let p = pieces.last();
        if p.len() == 0 || p == seq!['.'] {
            r
        } else {
            r.push(p)
        }
    }
}

/// Whether the first component of `p` is the root ("/") or the current
/// directory ("." at the start), rather than a named one.
pub open spec fn has_marker_component(p: Seq<char>) -> bool {
    p.len() > 0 && (p[0] == '/' || (p[0] == '.' && (p.len() == 1 || p[1] == '/')))
}

/// The named components of `p`, in order.
pub open spec fn named_components(p: Seq<char>) -> Seq<Seq<char>> {
    normal_segments(split_spec(p, '/'))
}

/// `p` without its first component: the remaining components joined by '/'.
pub open spec fn strip_first_spec(p: Seq<char>) -> Seq<char> {
    let segs = named_components(p);
    if has_marker_component(p) {
        join_spec(segs, seq!['/'])
    } else if segs.len() == 0 {
        Seq::<char>::empty()
    } else {
        join_spec(segs.drop_first(), seq!['/'])
    }
}

/// `base.join(part)` as text.
pub fn join_path(base: &str, part: &str) -> (r: String)
    ensures
        r@ == path_join(base@, part@),
{
    let part_len = part.unicode_len();
    let base_len = base.unicode_len();
    let mut r = String::from_str(base);
    if part_len > 0 && part.get_char(0) == '/' {
        return String::from_str(part);
    }
    if base_len == 0 || base.get_char(base_len - 1) == '/' {
        r.append(part);
    } else {
        r.append("/");
        r.append(part);
        proof {
            reveal_strlit("/");
        }
    }
    r
}

/// The components of a path that name something, as `Path::components`
/// yields its `Normal` components.
pub fn named_components_of(p: &str) -> (segs: Vec<String>)
    ensures
        views(segs@) == named_components(p@),
{
    let pieces = split_char(p, '/');
    let mut segs: Vec<String> = Vec::new();
    let mut i: usize = 0;
    while i < pieces.len()
        invariant
            i <= pieces.len(),
            views(pieces@) == split_spec(p@, '/'),
            views(segs@) == normal_segments(views(pieces@).take(i as int)),
        decreases pieces.len() - i,
    {
        let ghost taken = views(pieces@).take(i + 1);
        assert(taken.drop_last() == views(pieces@).take(i as int));
        let piece = &pieces[i];
        let n = piece.unicode_len();
        let is_dot = n == 1 && piece.as_str().get_char(0) == '.';
        proof {
            if n == 1 && piece@[0] == '.' {
                assert(piece@ =~= seq!['.']);
            }
        }
        if n > 0 && !is_dot {
            segs.push(piece.clone());
        }
        i = i + 1;
    }
    assert(views(pieces@).take(pieces.len() as int) == views(pieces@));
    segs
}

/// Whether the first component of `p` is the root or the current directory.
pub fn has_marker(p: &str) -> (b: bool)
    ensures
        b == has_marker_component(p@),
{
    let n = p.unicode_len();
    if n == 0 {
        return false;
    }
    let c0 = p.get_char(0);
    c0 == '/' || (c0 == '.' && (n == 1 || p.get_char(1) == '/'))
}

/// `p` without its first component, as `p.components().skip(1).collect()`.
pub fn strip_first_component(p: &str) -> (r: String)
    ensures
        r@ == strip_first_spec(p@),
{
    let segs = named_components_of(p);
    proof {
        reveal_strlit("/");
        assert("/"@ =~= seq!['/']);
    }
    if has_marker(p) {
        join_strings(&segs, "/")
    } else if segs.len() == 0 {
        String::new()
    } else {
        let mut rest: Vec<String> = Vec::new();
        let mut i: usize = 1;
        while i < segs.len()
            invariant
                1 <= i <= segs.len(),
                views(rest@) == views(segs@).subrange(1, i as int),
            decreases segs.len() - i,
        {
            let ghost before = views(rest@);
            let seg = segs[i].clone();
            rest.push(seg);
            assert(views(rest@) =~= before.push(segs@[i as int]@));
            assert(views(segs@).subrange(1, i + 1) =~= views(segs@).subrange(1, i as int).push(segs@[i as int]@));
            i = i + 1;
        }
        assert(views(segs@).subrange(1, segs.len() as int) == views(segs@).drop_first());
        join_strings(&rest, "/")
    }
}

/// The kept pieces are pieces that are neither empty nor ".".
proof fn lemma_normal_segments_from(pieces: Seq<Seq<char>>)
    ensures
        forall|i: int| 0 <= i < normal_segments(pieces).len() ==> (#[trigger] normal_segments(pieces)[i]).len() > 0
            && pieces.contains(normal_segments(pieces)[i]),
    decreases pieces.len(),
{
    if pieces.len() > 0 {
        lemma_normal_segments_from(pieces.drop_last());
        let r = normal_segments(pieces.drop_last());
        let t = normal_segments(pieces);
        assert forall|i: int| 0 <= i < t.len() implies (#[trigger] t[i]).len() > 0 && pieces.contains(t[i]) by {
            if i < r.len() {
                assert(t[i] == r[i]);
                let k = choose|k: int| 0 <= k < pieces.drop_last().len() && pieces.drop_last()[k] == r[i];
                assert(pieces[k] == r[i]);
            } else {
                assert(t[i] == pieces.last());
                assert(pieces[pieces.len() - 1] == pieces.last());
            }
        }
    }
}

/// A path without its first component is relative: it is empty or does not
/// begin with '/'.
pub proof fn law_stripped_path_is_relative(p: Seq<char>)
    ensures
        strip_first_spec(p).len() > 0 ==> strip_first_spec(p)[0] != '/',
{
    let pieces = split_spec(p, '/');
    let segs = named_components(p);
    lemma_split_pieces_lack_sep(p, '/');
    lemma_normal_segments_from(pieces);
    let parts = if has_marker_component(p) {
        segs
    } else if segs.len() == 0 {
        segs
    } else {
        segs.drop_first()
    };
    if parts.len() >= 1 {
        assert(parts[0].len() > 0 && pieces.contains(parts[0])) by {
            if has_marker_component(p) {
                assert(parts[0] == segs[0]);
            } else {
                assert(parts[0] == segs[1]);
            }
        }
        let k = choose|k: int| 0 <= k < pieces.len() && pieces[k] == parts[0];
        assert(!pieces[k].contains('/'));
        assert(parts[0][0] != '/');
        lemma_join_starts_with_first(parts, seq!['/']);
        assert(join_spec(parts, seq!['/']).take(parts[0].len() as int)[0] == parts[0][0]);
    }
}

} // verus!

//! Paths as sequences of components, and how they map from the source
//! tree to the destination tree.
use vstd::prelude::*;

verus! {

/// A path, seen as the sequence of its components.
pub open spec fn components(p: &Vec<String>) -> Seq<Seq<char>> {
    p.deep_view()
}

/// `root` is a leading part of `p`: `p` lies at or under `root`.
pub open spec fn is_prefix_of(root: Seq<Seq<char>>, p: Seq<Seq<char>>) -> bool {
    root.len() <= p.len() && p.take(root.len() as int) == root
}

/// Where `p`, a path under `src_root`, lands under `dest_root`.
pub open spec fn mirror_path(
    src_root: Seq<Seq<char>>,
    dest_root: Seq<Seq<char>>,
    p: Seq<Seq<char>>,
) -> Seq<Seq<char>> {
    dest_root + p.skip(src_root.len() as int)
}

/// Whether `p` lies at or under `root`.
pub fn has_prefix(root: &Vec<String>, p: &Vec<String>) -> (r: bool)
    ensures
        r == is_prefix_of(components(root), components(p)),
{
    if root.len() > p.len() {
        return false;
    }
    let mut i: usize = 0;
    while i < root.len()
        invariant
            i <= root.len() <= p.len(),
            forall|k: int| 0 <= k < i ==> components(root)[k] == components(p)[k],
        decreases root.len() - i,
    {
        if !(root[i] == p[i]) {
            assert(components(p).take(root.len() as int)[i as int] != components(root)[i as int]);
            return false;
        }
        i += 1;
    }
    assert(components(p).take(root.len() as int) =~= components(root));
    true
}

/// Appends the components of `rest` from index `from` on to `out`.
pub fn push_from(out: &mut Vec<String>, rest: &Vec<String>, from: usize)
    requires
        from <= rest.len(),
    ensures
        components(final(out)) == components(old(out)) + components(rest).skip(from as int),
{
    let mut i: usize = from;
    while i < rest.len()
        invariant
            from <= i <= rest.len(),
            components(out) == components(old(out)) + components(rest).subrange(from as int, i as int),
        decreases rest.len() - i,
    {
        let ghost prev = components(out);
        let c = rest[i].clone();
        assert(c@ == components(rest)[i as int]);
        out.push(c);
        assert(components(out) =~= prev.push(components(rest)[i as int]));
        i += 1;
        assert(components(out) =~= components(old(out)) + components(rest).subrange(from as int, i as int));
    }
    assert(components(rest).subrange(from as int, i as int) =~= components(rest).skip(from as int));
}

/// The components of `base` followed by those of `rest`.
pub fn join(base: &Vec<String>, rest: &Vec<String>) -> (r: Vec<String>)
    ensures
        components(&r) == components(base) + components(rest),
{
    let mut r: Vec<String> = Vec::new();
    push_from(&mut r, base, 0);
    push_from(&mut r, rest, 0);
    assert(components(base).skip(0) =~= components(base));
    assert(components(rest).skip(0) =~= components(rest));
    r
}

/// The part of `p` below `root`, or `None` where `p` does not lie under it.
pub fn strip_prefix(root: &Vec<String>, p: &Vec<String>) -> (r: Option<Vec<String>>)
    ensures
        r is Some <==> is_prefix_of(components(root), components(p)),
        r matches Some(rest) ==> components(&rest) == components(p).skip(root.len() as int),
{
    if has_prefix(root, p) {
        let mut rest: Vec<String> = Vec::new();
        push_from(&mut rest, p, root.len());
        assert(components(&rest) =~= components(p).skip(root.len() as int));
        Some(rest)
    } else {
        None
    }
}

} // verus!

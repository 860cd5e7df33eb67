//! Properties of a sync, stated over the decisions that the library makes
//! and proved from their contracts.
use vstd::prelude::*;
use crate::meta::{EntryKind, Meta, file_in_sync, same_meta};
use crate::reconcile::{Child, ChildAction, DirPlan, DirState, child_action, child_names, plans};

verus! {

/// The names in a destination directory once its plan has run and every
/// source child stands at its destination: the stale names are swept, and
/// each child is there (a file copied or skipped, a directory created by the
/// walk, a symlink by the symlink pass).
pub open spec fn names_after(dest_names: Seq<Seq<char>>, children: Seq<Child>, plan: DirPlan) -> Set<
    Seq<char>,
> {
    dest_names.to_set().difference(plan.deletes.deep_view().to_set()).union(
        child_names(children).to_set(),
    )
}

/// With deletion enabled, a reconciled destination directory holds exactly
/// the names of its source directory's children.
pub proof fn lemma_directory_mirrored(
    check_content: bool,
    children: Seq<Child>,
    dest_names: Seq<Seq<char>>,
    plan: DirPlan,
)
    requires
        plans(check_content, true, children, dest_names, plan),
    ensures
        names_after(dest_names, children, plan) == child_names(children).to_set(),
{
    assert(names_after(dest_names, children, plan) =~= child_names(children).to_set());
}

/// A tree as the set of the paths below its root, each a non-empty sequence
/// of names, with the parent of each path in the set too.
pub open spec fn is_tree(t: Set<Seq<Seq<char>>>) -> bool {
    &&& forall|p: Seq<Seq<char>>| #[trigger] t.contains(p) ==> p.len() > 0
    &&& forall|p: Seq<Seq<char>>| #[trigger] t.contains(p) && p.len() > 1 ==> t.contains(p.drop_last())
}

/// The names of the entries directly under `d` in `t` (`d` empty: the root).
pub open spec fn children_of(t: Set<Seq<Seq<char>>>, d: Seq<Seq<char>>) -> Set<Seq<char>> {
    Set::new(|n: Seq<char>| t.contains(d.push(n)))
}

/// Every path of `d` lies in `s` where the two agree below the root and below
/// every path of `s`.
proof fn lemma_contained(s: Set<Seq<Seq<char>>>, d: Set<Seq<Seq<char>>>, p: Seq<Seq<char>>)
    requires
        is_tree(s),
        is_tree(d),
        d.contains(p),
        forall|q: Seq<Seq<char>>|
            (q.len() == 0 || s.contains(q)) ==> #[trigger] children_of(d, q) == children_of(s, q),
    ensures
        s.contains(p),
    decreases p.len(),
{
    let q = p.drop_last();
    let n = p.last();
    assert(q.push(n) =~= p);
    if p.len() > 1 {
        lemma_contained(s, d, q);
    }
    assert(children_of(d, q).contains(n));
}

/// Whole-tree mirroring: where, after a sync, the destination root and each
/// source path's destination hold exactly the children that the source has
/// there, the destination tree is the source tree.
pub proof fn lemma_tree_mirrored(s: Set<Seq<Seq<char>>>, d: Set<Seq<Seq<char>>>)
    requires
        is_tree(s),
        is_tree(d),
        forall|q: Seq<Seq<char>>|
            (q.len() == 0 || s.contains(q)) ==> #[trigger] children_of(d, q) == children_of(s, q),
    ensures
        d == s,
{
    assert forall|p: Seq<Seq<char>>| d.contains(p) implies s.contains(p) by {
        lemma_contained(s, d, p);
    }
    assert forall|p: Seq<Seq<char>>| s.contains(p) implies d.contains(p) by {
        let q = p.drop_last();
        assert(q.push(p.last()) =~= p);
        assert(q.len() == 0 || s.contains(q));
        assert(children_of(d, q) == children_of(s, q));
        assert(children_of(s, q).contains(p.last()));
    }
    assert(d =~= s);
}

/// A file child as a completed copy leaves it: its destination holds the
/// source's length and modification time, and no content comparison reports a
/// difference.
pub open spec fn copied_before(c: Child) -> bool {
    &&& c.src matches Some(m) && c.dest matches Some(d) && same_meta(m, d)
    &&& c.content != Some(false)
}

/// A second run changes no file: where every source file's destination holds
/// the source's length and modification time, as a copy leaves it, and no
/// content comparison reports a difference, no file is copied.
pub proof fn lemma_second_run_copies_nothing(
    check_content: bool,
    delete: bool,
    children: Seq<Child>,
    dest_names: Seq<Seq<char>>,
    plan: DirPlan,
)
    requires
        plans(check_content, delete, children, dest_names, plan),
        forall|i: int|
            0 <= i < children.len() && (#[trigger] children[i]).kind == EntryKind::File
                ==> copied_before(children[i]),
    ensures
        forall|i: int|
            0 <= i < children.len() && (#[trigger] children[i]).kind == EntryKind::File
                ==> plan.actions@[i] == ChildAction::Skip,
        forall|i: int| 0 <= i < plan.actions@.len() ==> #[trigger] plan.actions@[i] != ChildAction::Copy,
{
    assert forall|i: int| 0 <= i < plan.actions@.len() implies #[trigger] plan.actions@[i]
        != ChildAction::Copy by {
        assert(plan.actions@[i] == child_action(check_content, children[i]));
    }
}

/// Content sensitivity: two files of equal length and modification time whose
/// contents differ are unequal in content mode, and equal otherwise.
pub proof fn lemma_content_sensitivity(src: Meta, dest: Meta)
    requires
        same_meta(src, dest),
    ensures
        !file_in_sync(true, src, Some(dest), Some(false)),
        file_in_sync(false, src, Some(dest), Some(false)),
{
}

/// Deletion safety: with deletion disabled nothing is swept, and every name
/// that the destination held is still there.
pub proof fn lemma_no_deletion(
    check_content: bool,
    children: Seq<Child>,
    dest_names: Seq<Seq<char>>,
    plan: DirPlan,
)
    requires
        plans(check_content, false, children, dest_names, plan),
    ensures
        plan.deletes.deep_view().to_set() == Set::<Seq<char>>::empty(),
        dest_names.to_set().subset_of(names_after(dest_names, children, plan)),
{
}

/// Isolation of a per-file failure: changing one child (an unreadable file,
/// say) changes the action of no other child.
pub proof fn lemma_siblings_unaffected(
    check_content: bool,
    delete: bool,
    a: Seq<Child>,
    b: Seq<Child>,
    dest_names: Seq<Seq<char>>,
    plan_a: DirPlan,
    plan_b: DirPlan,
    j: int,
)
    requires
        plans(check_content, delete, a, dest_names, plan_a),
        plans(check_content, delete, b, dest_names, plan_b),
        a.len() == b.len(),
        forall|i: int| 0 <= i < a.len() && i != j ==> a[i] == b[i],
    ensures
        forall|i: int|
            0 <= i < a.len() && i != j ==> #[trigger] plan_a.actions@[i] == plan_b.actions@[i],
{
    assert forall|i: int| 0 <= i < a.len() && i != j implies #[trigger] plan_a.actions@[i]
        == plan_b.actions@[i] by {
        assert(plan_a.actions@[i] == child_action(check_content, a[i]));
        assert(plan_b.actions@[i] == child_action(check_content, b[i]));
    }
}

/// The failure flag along a path of the walk: each directory's state is what
/// its parent handed down after its own creation and sweep.
pub open spec fn state_along(start: DirState, steps: Seq<(bool, bool)>) -> DirState
    decreases steps.len(),
{
    if steps.len() == 0 {
        start
    } else {
        let parent = state_along(start, steps.drop_last());
        DirState { failed: parent.failed || !steps.last().0 || !steps.last().1 }
    }
}

/// Failure propagates downward only: once a directory has failed, every
/// directory below it stays failed, whatever happens there.
pub proof fn lemma_failure_inherited(start: DirState, steps: Seq<(bool, bool)>)
    requires
        start.failed,
    ensures
        state_along(start, steps).failed,
    decreases steps.len(),
{
    if steps.len() > 0 {
        lemma_failure_inherited(start, steps.drop_last());
    }
}

/// A branch in which every directory was created and swept stays clear of
/// failure, whatever failed elsewhere in the tree.
pub proof fn lemma_clean_branch(steps: Seq<(bool, bool)>)
    requires
        forall|i: int| 0 <= i < steps.len() ==> (#[trigger] steps[i]).0 && steps[i].1,
    ensures
        !state_along(DirState { failed: false }, steps).failed,
    decreases steps.len(),
{
    if steps.len() > 0 {
        assert(steps.drop_last().len() < steps.len());
        assert forall|i: int| 0 <= i < steps.drop_last().len() implies (#[trigger] steps.drop_last()[i]).0
            && steps.drop_last()[i].1 by {
            assert(steps.drop_last()[i] == steps[i]);
        }
        lemma_clean_branch(steps.drop_last());
        assert(steps.last() == steps[steps.len() - 1]);
    }
}

} // verus!

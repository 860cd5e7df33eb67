//! Reconciliation of one source directory with its destination: what each
//! child calls for, which destination entries are stale, and how a failure
//! halts a subtree.
use vstd::prelude::*;
use crate::meta::{EntryKind, FileAction, Meta, decide_file, file_in_sync};

verus! {

/// One immediate child of a source directory, with what was read of it and
/// of its destination.
#[derive(Debug)]
pub struct Child {
    /// The child's name within its directory.
    pub name: String,
    /// Its kind, as the walk listed it.
    pub kind: EntryKind,
    /// Its own metadata, `None` where it could not be read.
    pub src: Option<Meta>,
    /// The destination's metadata, `None` where it is absent or unreadable.
    pub dest: Option<Meta>,
    /// The outcome of a content comparison, `None` where none was made or it
    /// failed.
    pub content: Option<bool>,
}

/// What becomes of one child in its directory's reconciliation.
#[derive(Clone, Copy, Debug, PartialEq, Eq, Structural)]
pub enum ChildAction {
    /// A regular file whose destination is out of date.
    Copy,
    /// A regular file whose destination already matches.
    Skip,
    /// A regular file whose metadata could not be read: a per-file error.
    Unreadable,
    /// A directory or a symlink, left to the walk and to the symlink pass;
    /// or a special file, left alone.
    Later,
}

/// The decisions of one directory's reconciliation.
#[derive(Debug)]
pub struct DirPlan {
    /// One action per child, in the order of the listing.
    pub actions: Vec<ChildAction>,
    /// Names of destination entries that no source child stands for, to be
    /// swept; empty unless deletion is enabled.
    pub deletes: Vec<String>,
}

/// What a child calls for.
pub open spec fn child_action(check_content: bool, c: Child) -> ChildAction {
    match c.kind {
        EntryKind::File => match c.src {
            None => ChildAction::Unreadable,
            Some(m) => if file_in_sync(check_content, m, c.dest, c.content) {
                ChildAction::Skip
            } else {
                ChildAction::Copy
            },
        },
        _ => ChildAction::Later,
    }
}

/// The names of the children.
pub open spec fn child_names(children: Seq<Child>) -> Seq<Seq<char>> {
    children.map_values(|c: Child| c.name@)
}

/// The deletion set: destination names that no source child has.
pub open spec fn stale_names(dest_names: Seq<Seq<char>>, children: Seq<Child>) -> Set<Seq<char>> {
    dest_names.to_set().difference(child_names(children).to_set())
}

/// Whether `plan` is the reconciliation of `children` against a destination
/// directory that held `dest_names`.
pub open spec fn plans(
    check_content: bool,
    delete: bool,
    children: Seq<Child>,
    dest_names: Seq<Seq<char>>,
    plan: DirPlan,
) -> bool {
    &&& plan.actions@.len() == children.len()
    &&& forall|i: int|
        0 <= i < children.len() ==> #[trigger] plan.actions@[i] == child_action(
            check_content,
            children[i],
        )
    &&& plan.deletes.deep_view().to_set() == (if delete {
        stale_names(dest_names, children)
    } else {
        Set::empty()
    })
}

/// The action for one child.
pub fn plan_child(check_content: bool, c: &Child) -> (r: ChildAction)
    ensures
        r == child_action(check_content, *c),
{
    match c.kind {
        EntryKind::File => match &c.src {
            None => ChildAction::Unreadable,
            Some(m) => match decide_file(check_content, m, &c.dest, c.content) {
                FileAction::Skip => ChildAction::Skip,
                FileAction::Copy => ChildAction::Copy,
            },
        },
        _ => ChildAction::Later,
    }
}

/// Whether some child is named `n`.
pub fn has_child_named(children: &Vec<Child>, n: &String) -> (r: bool)
    ensures
        r == child_names(children@).contains(n@),
{
    let mut i: usize = 0;
    while i < children.len()
        invariant
            i <= children.len(),
            forall|k: int| 0 <= k < i ==> children@[k].name@ != n@,
        decreases children.len() - i,
    {
        if children[i].name == *n {
            assert(child_names(children@)[i as int] == n@);
            return true;
        }
        i += 1;
    }
    assert forall|k: int| 0 <= k < child_names(children@).len() implies child_names(children@)[k]
        != n@ by {
        assert(child_names(children@)[k] == children@[k].name@);
    }
    false
}

/// The destination names that no child has, in the order listed.
pub fn deletion_set(dest_names: &Vec<String>, children: &Vec<Child>) -> (r: Vec<String>)
    ensures
        r.deep_view().to_set() == stale_names(dest_names.deep_view(), children@),
{
    let ghost wanted = child_names(children@);
    let ghost dv = dest_names.deep_view();
    let mut r: Vec<String> = Vec::new();
    let mut i: usize = 0;
    while i < dest_names.len()
        invariant
            i <= dest_names.len(),
            dv == dest_names.deep_view(),
            wanted == child_names(children@),
            forall|k: int|
                0 <= k < r.deep_view().len() ==> dv.take(i as int).contains(
                    #[trigger] r.deep_view()[k],
                ) && !wanted.contains(r.deep_view()[k]),
            forall|j: int|
                0 <= j < i && !wanted.contains(#[trigger] dv[j]) ==> r.deep_view().contains(dv[j]),
        decreases dest_names.len() - i,
    {
        let ghost prev = r.deep_view();
        if !has_child_named(children, &dest_names[i]) {
            let n = dest_names[i].clone();
            r.push(n);
            assert(r.deep_view() =~= prev.push(dv[i as int]));
            assert(r.deep_view()[prev.len() as int] == dv[i as int]);
        }
        assert forall|k: int| 0 <= k < r.deep_view().len() implies dv.take(i + 1).contains(
            #[trigger] r.deep_view()[k],
        ) && !wanted.contains(r.deep_view()[k]) by {
            if k < prev.len() {
                assert(r.deep_view()[k] == prev[k]);
                let w = choose|w: int| 0 <= w < i && dv.take(i as int)[w] == prev[k];
                assert(dv.take(i + 1)[w] == prev[k]);
            } else {
                assert(dv.take(i + 1)[i as int] == dv[i as int]);
            }
        }
        assert forall|j: int| 0 <= j < i + 1 && !wanted.contains(#[trigger] dv[j]) implies r.deep_view().contains(dv[j]) by {
            if j < i {
                let w = choose|w: int| 0 <= w < prev.len() && prev[w] == dv[j];
                assert(r.deep_view()[w] == dv[j]);
            } else {
                assert(r.deep_view()[prev.len() as int] == dv[j]);
            }
        }
        i += 1;
    }
    assert(dv.take(i as int) =~= dv);
    assert(r.deep_view().to_set() =~= stale_names(dv, children@)) by {
        assert forall|n: Seq<char>| r.deep_view().to_set().contains(n) implies stale_names(dv, children@).contains(n) by {
            let k = choose|k: int| 0 <= k < r.deep_view().len() && r.deep_view()[k] == n;
            assert(dv.take(i as int).contains(r.deep_view()[k]));
        }
        assert forall|n: Seq<char>| stale_names(dv, children@).contains(n) implies r.deep_view().to_set().contains(n) by {
            let j = choose|j: int| 0 <= j < dv.len() && dv[j] == n;
            assert(!wanted.contains(dv[j]));
        }
    }
    r
}

/// Plans the reconciliation of a directory's children against a destination
/// directory that held `dest_names`.
pub fn plan_dir(check_content: bool, delete: bool, children: &Vec<Child>, dest_names: &Vec<String>) -> (r:
    DirPlan)
    ensures
        plans(check_content, delete, children@, dest_names.deep_view(), r),
{
    let mut actions: Vec<ChildAction> = Vec::new();
    let mut i: usize = 0;
    while i < children.len()
        invariant
            i <= children.len(),
            actions@.len() == i,
            forall|k: int| 0 <= k < i ==> #[trigger] actions@[k] == child_action(check_content, children@[k]),
        decreases children.len() - i,
    {
        let a = plan_child(check_content, &children[i]);
        actions.push(a);
        i += 1;
    }
    let deletes = if delete {
        deletion_set(dest_names, children)
    } else {
        let d: Vec<String> = Vec::new();
        assert(d.deep_view().to_set() =~= Set::empty());
        d
    };
    DirPlan { actions, deletes }
}

/// The failure flag of a directory in the walk, handed by value to each of
/// its children before they are visited.
#[derive(Clone, Copy, Debug, PartialEq, Eq, Structural)]
pub struct DirState {
    /// The directory or one of its ancestors failed: nothing below it is
    /// touched.
    pub failed: bool,
}

impl DirState {
    /// The state at the root of the walk.
    pub fn root() -> (r: DirState)
        ensures
            !r.failed,
    {
        DirState { failed: false }
    }

    /// Whether a directory read at `depth` in this state is reconciled: the
    /// read that lists the walk's root itself (no depth) is not, nor is any
    /// directory under a failed one.
    pub fn reconciles(&self, depth: Option<usize>) -> (r: bool)
        ensures
            r == (depth is Some && !self.failed),
    {
        depth.is_some() && !self.failed
    }

    /// The state that a directory hands to its children: failed where it
    /// already was, where its destination could not be created, or where the
    /// deletion sweep failed. Per-file errors play no part.
    pub fn after(&self, created: bool, swept: bool) -> (r: DirState)
        ensures
            r.failed == (self.failed || !created || !swept),
    {
        DirState { failed: self.failed || !created || !swept }
    }
}

/// Records a fatal error: the first one is kept, later ones are dropped.
pub fn keep_first<E>(first: &mut Option<E>, e: E)
    ensures
        *final(first) == (if *old(first) is None {
            Some(e)
        } else {
            *old(first)
        }),
{
    if first.is_none() {
        *first = Some(e);
    }
}

impl Default for DirState {
    fn default() -> (r: DirState)
        ensures
            !r.failed,
    {
        DirState::root()
    }
}

} // verus!

use fsync::meta::{EntryKind, LinkAction, Meta, Timestamp};
use fsync::progress::{Counts, Progress, FLUSH_INTERVAL_MS};
use fsync::reconcile::{deletion_set, keep_first, plan_dir, Child, ChildAction, DirState};

const MB10: u64 = 10 * 1024 * 1024;

fn meta(kind: EntryKind, len: u64, secs: i64) -> Meta {
    Meta { kind, len, modified: Timestamp { secs, nanos: 0 } }
}

fn child(name: &str, kind: EntryKind, src: Option<Meta>, dest: Option<Meta>) -> Child {
    Child { name: name.to_string(), kind, src, dest, content: None }
}

fn names(v: &[&str]) -> Vec<String> {
    v.iter().map(|s| s.to_string()).collect()
}

fn sorted(mut v: Vec<String>) -> Vec<String> {
    v.sort();
    v
}

#[test]
fn plan_gives_one_action_per_child() {
    let f = meta(EntryKind::File, 3, 9);
    let children = vec![
        child("new", EntryKind::File, Some(f), None),
        child("same", EntryKind::File, Some(f), Some(f)),
        child("locked", EntryKind::File, None, None),
        child("sub", EntryKind::Dir, Some(meta(EntryKind::Dir, 0, 1)), None),
        child("ln", EntryKind::Symlink, Some(meta(EntryKind::Symlink, 2, 1)), None),
    ];
    let plan = plan_dir(false, false, &children, &names(&["stale"]));
    assert_eq!(
        plan.actions,
        vec![
            ChildAction::Copy,
            ChildAction::Skip,
            ChildAction::Unreadable,
            ChildAction::Later,
            ChildAction::Later
        ]
    );
    assert!(plan.deletes.is_empty());
}

#[test]
fn deletion_set_is_destination_minus_source() {
    let f = meta(EntryKind::File, 1, 1);
    let children = vec![
        child("keep", EntryKind::File, Some(f), Some(f)),
        child("sub", EntryKind::Dir, None, None),
        child("ln", EntryKind::Symlink, None, None),
    ];
    let dest = names(&["old", "keep", "sub", "ln", "gone"]);
    let plan = plan_dir(false, true, &children, &dest);
    assert_eq!(sorted(plan.deletes), names(&["gone", "old"]));
    assert_eq!(deletion_set(&dest, &children), names(&["old", "gone"]));
    assert!(deletion_set(&names(&[]), &children).is_empty());
    assert_eq!(deletion_set(&names(&["a"]), &Vec::new()), names(&["a"]));
}

#[test]
fn deletion_disabled_keeps_destination_only_files() {
    let children = vec![child("a", EntryKind::File, Some(meta(EntryKind::File, 1, 1)), None)];
    let plan = plan_dir(true, false, &children, &names(&["extra", "other"]));
    assert!(plan.deletes.is_empty());
}

#[test]
fn unreadable_file_leaves_siblings_planned() {
    let f = meta(EntryKind::File, 5, 5);
    let children = vec![
        child("a", EntryKind::File, Some(f), None),
        child("bad", EntryKind::File, None, None),
        child("c", EntryKind::File, Some(f), None),
    ];
    let plan = plan_dir(false, true, &children, &names(&[]));
    assert_eq!(plan.actions, vec![ChildAction::Copy, ChildAction::Unreadable, ChildAction::Copy]);
    // The directory's own state is untouched by the file error.
    let state = DirState::root().after(true, true);
    assert!(!state.failed);
}

#[test]
fn failure_halts_only_the_subtree() {
    let root = DirState::root();
    assert!(!root.reconciles(None));
    assert!(root.reconciles(Some(0)));
    let failed = root.after(false, true);
    assert!(failed.failed);
    assert!(!failed.reconciles(Some(1)));
    let below = failed.after(true, true);
    assert!(below.failed);
    assert!(root.after(true, false).failed);
    let sibling = root.after(true, true);
    assert!(sibling.reconciles(Some(1)));
    assert!(!DirState::default().failed);
}

#[test]
fn ticks_are_spaced_by_the_flush_interval() {
    let mut p = Progress::new();
    assert!(p.tick(5));
    assert!(!p.tick(5 + FLUSH_INTERVAL_MS));
    assert!(p.tick(6 + FLUSH_INTERVAL_MS));
    assert_eq!(p.last_flush_ms, Some(6 + FLUSH_INTERVAL_MS));
    assert!(!p.add_copied(2, 100 + FLUSH_INTERVAL_MS));
    assert_eq!(p.counts().copied, 2);
    assert_eq!(p.last_flush_ms, Some(6 + FLUSH_INTERVAL_MS));
}

#[test]
fn counters_add_independently_and_saturate() {
    let mut p = Progress::default();
    p.add_source(3, 0);
    p.add_skipped(2, 0);
    p.add_deleted(1, 0);
    p.add_bytes_copied(u64::MAX, 0);
    p.add_bytes_copied(5, 0);
    assert_eq!(
        p.counts(),
        Counts { paths: 3, copied: 0, skipped: 2, deleted: 1, bytes: u64::MAX }
    );
}

#[test]
fn symlink_kept_is_not_counted() {
    let mut p = Progress::new();
    p.record_link(LinkAction::Keep, 0);
    assert_eq!(p.counts().copied, 0);
    p.record_link(LinkAction::Replace, 0);
    p.record_link(LinkAction::Create, 0);
    assert_eq!(p.counts().copied, 2);
}

/// Runs the library's decisions over one directory as the walk would, with
/// every copy succeeding, and returns the destination metadata afterwards.
fn reconcile(
    progress: &mut Progress,
    children: &[(&str, EntryKind, Meta)],
    dest: &[Option<Meta>],
    dest_existed: bool,
) -> Vec<Option<Meta>> {
    progress.add_source(children.len() as u64, 0);
    progress.record_dir(dest_existed, 0);
    let list: Vec<Child> = children
        .iter()
        .zip(dest)
        .map(|((n, k, m), d)| child(n, *k, Some(*m), *d))
        .collect();
    let plan = plan_dir(false, false, &list, &Vec::new());
    let mut after = Vec::new();
    for (c, a) in list.iter().zip(plan.actions.iter()) {
        progress.record_file(*a, c.src.unwrap().len, 0);
        after.push(match a {
            ChildAction::Copy => c.src,
            _ => c.dest,
        });
    }
    after
}

#[test]
fn example_tree_copies_four_files_and_two_directories() {
    let f = meta(EntryKind::File, MB10, 1000);
    let two = meta(EntryKind::Dir, 0, 1000);
    let one_children = [("f1", EntryKind::File, f), ("f2", EntryKind::File, f), ("two", EntryKind::Dir, two)];
    let two_children = [("f1", EntryKind::File, f), ("f2", EntryKind::File, f)];
    let mut p = Progress::new();
    let one_after = reconcile(&mut p, &one_children, &[None, None, None], false);
    let two_after = reconcile(&mut p, &two_children, &[None, None], false);
    assert_eq!(p.counts().copied, 4 + 2);
    assert_eq!(p.counts().deleted, 0);
    assert_eq!(p.counts().bytes, 4 * MB10);
    assert_eq!(p.counts().paths, 5);
    assert_eq!(one_after, vec![Some(f), Some(f), None]);
    assert_eq!(two_after, vec![Some(f), Some(f)]);

    // A second run finds everything in sync.
    let mut q = Progress::new();
    reconcile(&mut q, &one_children, &one_after, true);
    reconcile(&mut q, &two_children, &two_after, true);
    assert_eq!(q.counts().copied, 0);
    assert_eq!(q.counts().bytes, 0);
    assert_eq!(q.counts().skipped, 2 + 4);
}

#[test]
fn first_fatal_error_is_kept() {
    let mut first: Option<String> = None;
    keep_first(&mut first, "create".to_string());
    keep_first(&mut first, "sweep".to_string());
    assert_eq!(first.as_deref(), Some("create"));
}

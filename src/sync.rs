//! The configuration of one sync, and the decisions that depend on it.
use vstd::prelude::*;
use crate::meta::{LinkAction, Meta, decide_symlink, link_in_sync};
use crate::path::{components, is_prefix_of, push_from, mirror_path};

verus! {

/// The configuration of one sync: the two roots, as path components, and the
/// options.
#[derive(Debug)]
pub struct Synchronize {
    pub src: Vec<String>,
    pub dest: Vec<String>,
    /// Remove destination entries that the source does not have.
    pub delete: bool,
    /// Size of the worker pool; `None` for the platform's default.
    pub num_threads: Option<u8>,
    /// Leave hidden entries out of the walk.
    pub skip_hidden: bool,
    /// Print a live status line.
    pub display_progress: bool,
    /// Compare file contents, not only metadata.
    pub check_content: bool,
    /// Do not copy permission bits.
    pub skip_permissions: bool,
}

/// The symlink pass's decision for one source symlink.
#[derive(Debug)]
pub struct LinkPlan<T> {
    pub action: LinkAction,
    /// The destination path of the link.
    pub at: Vec<String>,
    /// The target that the new link points at.
    pub target: T,
}

impl Synchronize {
    /// A sync from `src` to `dest` with every option off.
    pub fn new(src: Vec<String>, dest: Vec<String>) -> (r: Self)
        ensures
            r.src == src,
            r.dest == dest,
            !r.delete,
            r.num_threads is None,
            !r.skip_hidden,
            !r.display_progress,
            !r.check_content,
            !r.skip_permissions,
    {
        Synchronize {
            src,
            dest,
            delete: false,
            num_threads: None,
            skip_hidden: false,
            display_progress: false,
            check_content: false,
            skip_permissions: false,
        }
    }

    /// Sets whether stale destination entries are removed.
    pub fn delete(self, value: bool) -> (r: Self)
        ensures
            (r == Synchronize { delete: value, ..self }),
    {
        Synchronize { delete: value, ..self }
    }

    /// Sets the size of the worker pool.
    pub fn num_threads(self, value: Option<u8>) -> (r: Self)
        ensures
            (r == Synchronize { num_threads: value, ..self }),
    {
        Synchronize { num_threads: value, ..self }
    }

    /// Sets whether hidden entries are left out.
    pub fn skip_hidden(self, value: bool) -> (r: Self)
        ensures
            (r == Synchronize { skip_hidden: value, ..self }),
    {
        Synchronize { skip_hidden: value, ..self }
    }

    /// Sets whether a live status line is printed.
    pub fn display_progress(self, value: bool) -> (r: Self)
        ensures
            (r == Synchronize { display_progress: value, ..self }),
    {
        Synchronize { display_progress: value, ..self }
    }

    /// Sets whether file contents are compared.
    pub fn check_content(self, value: bool) -> (r: Self)
        ensures
            (r == Synchronize { check_content: value, ..self }),
    {
        Synchronize { check_content: value, ..self }
    }

    /// Sets whether permission bits are left as they are.
    pub fn skip_permissions(self, value: bool) -> (r: Self)
        ensures
            (r == Synchronize { skip_permissions: value, ..self }),
    {
        Synchronize { skip_permissions: value, ..self }
    }

    /// The destination of a path under the source root: the destination root
    /// followed by the part of `src_path` below the source root.
    pub fn get_destination_path(&self, src_path: &Vec<String>) -> (r: Vec<String>)
        requires
            is_prefix_of(components(&self.src), components(src_path)),
        ensures
            components(&r) == mirror_path(
                components(&self.src),
                components(&self.dest),
                components(src_path),
            ),
    {
        let mut r = self.dest.clone();
        assert(components(&r) =~= components(&self.dest));
        push_from(&mut r, src_path, self.src.len());
        r
    }

    /// Decides what the symlink pass does for the source symlink at
    /// `src_path`, which points at `target`: the link is recreated at the
    /// destination path with the same target, unless a matching link is there.
    pub fn plan_symlink<T>(&self, src_path: &Vec<String>, src: &Meta, dest: &Option<Meta>, target: T) -> (r:
        LinkPlan<T>)
        requires
            is_prefix_of(components(&self.src), components(src_path)),
        ensures
            r.target == target,
            components(&r.at) == mirror_path(
                components(&self.src),
                components(&self.dest),
                components(src_path),
            ),
            r.action == (match *dest {
                None => LinkAction::Create,
                Some(d) => if link_in_sync(*src, d) {
                    LinkAction::Keep
                } else {
                    LinkAction::Replace
                },
            }),
    {
        let at = self.get_destination_path(src_path);
        let action = decide_symlink(src, dest);
        LinkPlan { action, at, target }
    }
}

} // verus!

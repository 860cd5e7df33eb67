//! What the sync knows of an entry, and the rules that decide whether a
//! destination entry already matches its source.
use vstd::prelude::*;

verus! {

/// The kind of a filesystem entry, as seen without following a symlink.
#[derive(Clone, Copy, Debug, PartialEq, Eq, Structural)]
pub enum EntryKind {
    File,
    Dir,
    Symlink,
    /// A FIFO, a socket or a device: neither copied nor walked into.
    Other,
}

/// A modification time: whole seconds since the Unix epoch and the
/// nanoseconds past them.
#[derive(Clone, Copy, Debug, PartialEq, Eq, Structural)]
pub struct Timestamp {
    pub secs: i64,
    pub nanos: u32,
}

/// The metadata that the equality rules read.
#[derive(Clone, Copy, Debug, PartialEq, Eq, Structural)]
pub struct Meta {
    pub kind: EntryKind,
    pub len: u64,
    pub modified: Timestamp,
}

/// Metadata equality: same length and exactly the same modification time.
pub open spec fn same_meta(src: Meta, dest: Meta) -> bool {
    dest.len == src.len && dest.modified == src.modified
}

/// Whether a destination file already matches its source.
///
/// `dest` is the destination's metadata, `None` where it does not exist or
/// could not be read. `content` is the outcome of a byte-for-byte comparison,
/// `None` where none was made or it failed. In content mode a comparison that
/// was made decides; where it failed, metadata equality is the fallback.
pub open spec fn file_in_sync(
    check_content: bool,
    src: Meta,
    dest: Option<Meta>,
    content: Option<bool>,
) -> bool {
    match dest {
        None => false,
        Some(d) => if check_content && content is Some {
            content->0
        } else {
            same_meta(src, d)
        },
    }
}

/// Whether a destination entry already matches a source symlink: it is a
/// symlink itself and its metadata equals the source link's.
pub open spec fn link_in_sync(src: Meta, dest: Meta) -> bool {
    dest.kind == EntryKind::Symlink && same_meta(src, dest)
}

/// What to do with one regular file of the source.
#[derive(Clone, Copy, Debug, PartialEq, Eq, Structural)]
pub enum FileAction {
    Skip,
    Copy,
}

/// What to do with one symlink of the source.
#[derive(Clone, Copy, Debug, PartialEq, Eq, Structural)]
pub enum LinkAction {
    /// The destination already holds a matching link.
    Keep,
    /// Nothing is at the destination: create the link.
    Create,
    /// Remove what is at the destination, then create the link.
    Replace,
}

/// The outcome of comparing one chunk read from each of two files.
#[derive(Clone, Copy, Debug, PartialEq, Eq, Structural)]
pub enum ChunkStep {
    /// The chunks differ in length or in a byte: the files differ.
    Differ,
    /// Both files are exhausted with no difference: the files are equal.
    End,
    /// The chunks are equal and not empty: read the next ones.
    Continue,
}

/// Metadata equality of a source entry and a destination that may be absent.
pub fn is_equal(src: &Meta, dest: &Option<Meta>) -> (r: bool)
    ensures
        r == (*dest matches Some(d) && same_meta(*src, d)),
{
    match dest {
        None => false,
        Some(d) => d.len == src.len && d.modified == src.modified,
    }
}

/// Decides whether a source file is copied or skipped.
pub fn decide_file(check_content: bool, src: &Meta, dest: &Option<Meta>, content: Option<bool>) -> (r:
    FileAction)
    ensures
        r == (if file_in_sync(check_content, *src, *dest, content) {
            FileAction::Skip
        } else {
            FileAction::Copy
        }),
{
    let in_sync = match dest {
        None => false,
        Some(_) => match content {
            Some(same) if check_content => same,
            _ => is_equal(src, dest),
        },
    };
    if in_sync {
        FileAction::Skip
    } else {
        FileAction::Copy
    }
}

/// Decides what becomes of a source symlink's destination.
pub fn decide_symlink(src: &Meta, dest: &Option<Meta>) -> (r: LinkAction)
    ensures
        r == (match *dest {
            None => LinkAction::Create,
            Some(d) => if link_in_sync(*src, d) {
                LinkAction::Keep
            } else {
                LinkAction::Replace
            },
        }),
{
    match dest {
        None => LinkAction::Create,
        Some(d) => {
            if d.kind == EntryKind::Symlink && is_equal(src, dest) {
                LinkAction::Keep
            } else {
                LinkAction::Replace
            }
        },
    }
}

/// One step of a streamed content comparison, on the next chunk of each file.
pub fn compare_chunks(a: &[u8], b: &[u8]) -> (r: ChunkStep)
    ensures
        r == (if a@ != b@ {
            ChunkStep::Differ
        } else if a@.len() == 0 {
            ChunkStep::End
        } else {
            ChunkStep::Continue
        }),
{
    if a.len() != b.len() {
        return ChunkStep::Differ;
    }
    let mut i: usize = 0;
    while i < a.len()
        invariant
            a.len() == b.len(),
            i <= a.len(),
            forall|k: int| 0 <= k < i ==> a@[k] == b@[k],
        decreases a.len() - i,
    {
        if a[i] != b[i] {
            return ChunkStep::Differ;
        }
        i += 1;
    }
    assert(a@ =~= b@);
    if a.len() == 0 {
        ChunkStep::End
    } else {
        ChunkStep::Continue
    }
}

} // verus!

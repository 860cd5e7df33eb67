//! Progress counters of one sync, and the time gate that spaces out status
//! lines.
use vstd::prelude::*;
use crate::meta::LinkAction;
use crate::reconcile::ChildAction;

verus! {

/// The least time, in milliseconds, between two status lines.
pub const FLUSH_INTERVAL_MS: u64 = 120;

/// One of the five counters.
#[derive(Clone, Copy, Debug, PartialEq, Eq, Structural)]
pub enum Counter {
    /// Entries seen in the source.
    Paths,
    /// Files, directories and symlinks written to the destination.
    Copied,
    /// Entries found already in sync.
    Skipped,
    /// Destination entries removed.
    Deleted,
    /// Bytes of file content copied.
    Bytes,
}

/// The values of the five counters.
#[derive(Clone, Copy, Debug, PartialEq, Eq, Structural)]
pub struct Counts {
    pub paths: u64,
    pub copied: u64,
    pub skipped: u64,
    pub deleted: u64,
    pub bytes: u64,
}

/// `a + n`, held at `u64::MAX` where it would go past it.
pub open spec fn sat_add(a: u64, n: u64) -> u64 {
    if a + n > u64::MAX {
        u64::MAX
    } else {
        (a + n) as u64
    }
}

impl Counts {
    /// All five counters at zero.
    pub open spec fn is_zero(self) -> bool {
        self.paths == 0 && self.copied == 0 && self.skipped == 0 && self.deleted == 0 && self.bytes
            == 0
    }

    /// The value of one counter.
    pub open spec fn get(self, which: Counter) -> u64 {
        match which {
            Counter::Paths => self.paths,
            Counter::Copied => self.copied,
            Counter::Skipped => self.skipped,
            Counter::Deleted => self.deleted,
            Counter::Bytes => self.bytes,
        }
    }

    /// These counts with `n` added to one counter.
    pub open spec fn added(self, which: Counter, n: u64) -> Counts {
        let v = sat_add(self.get(which), n);
        Counts {
            paths: if which == Counter::Paths { v } else { self.paths },
            copied: if which == Counter::Copied { v } else { self.copied },
            skipped: if which == Counter::Skipped { v } else { self.skipped },
            deleted: if which == Counter::Deleted { v } else { self.deleted },
            bytes: if which == Counter::Bytes { v } else { self.bytes },
        }
    }
}

/// The counts after a directory's destination was found (`existed`) or
/// created.
pub open spec fn counted_dir(c: Counts, existed: bool) -> Counts {
    if existed {
        c.added(Counter::Skipped, 1)
    } else {
        c.added(Counter::Copied, 1)
    }
}

/// The counts after a file's action was carried out; a copy of `len` bytes
/// counts them too.
pub open spec fn counted_file(c: Counts, action: ChildAction, len: u64) -> Counts {
    match action {
        ChildAction::Copy => c.added(Counter::Copied, 1).added(Counter::Bytes, len),
        ChildAction::Skip => c.added(Counter::Skipped, 1),
        _ => c,
    }
}

/// The counts after the symlink pass carried out `action`: only a link that
/// was written counts.
pub open spec fn counted_link(c: Counts, action: LinkAction) -> Counts {
    match action {
        LinkAction::Keep => c,
        _ => c.added(Counter::Copied, 1),
    }
}

/// Whether a status line is due at `now_ms`, given the time of the last one.
pub open spec fn flush_due(last_flush_ms: Option<u64>, now_ms: u64) -> bool {
    match last_flush_ms {
        None => true,
        Some(t) => now_ms > t + FLUSH_INTERVAL_MS,
    }
}

/// The counters of one sync and the time of its last status line.
///
/// Times are milliseconds on a clock that the caller keeps; the first tick
/// always prints.
#[derive(Debug)]
pub struct Progress {
    pub counts: Counts,
    pub last_flush_ms: Option<u64>,
}

impl Progress {
    /// Counters at zero, and no status line printed yet.
    pub fn new() -> (r: Progress)
        ensures
            r.counts.is_zero(),
            r.last_flush_ms is None,
    {
        Progress {
            counts: Counts { paths: 0, copied: 0, skipped: 0, deleted: 0, bytes: 0 },
            last_flush_ms: None,
        }
    }

    /// Decides whether a status line is printed now, and if so records the
    /// time as that of the last one.
    pub fn tick(&mut self, now_ms: u64) -> (flush: bool)
        ensures
            flush == flush_due(old(self).last_flush_ms, now_ms),
            final(self).last_flush_ms == (if flush {
                Some(now_ms)
            } else {
                old(self).last_flush_ms
            }),
            final(self).counts == old(self).counts,
    {
        let due = match self.last_flush_ms {
            None => true,
            Some(t) => now_ms > t && now_ms - t > FLUSH_INTERVAL_MS,
        };
        if due {
            self.last_flush_ms = Some(now_ms);
        }
        due
    }

    /// Adds `n` to one counter, then ticks.
    pub fn add(&mut self, which: Counter, n: u64, now_ms: u64) -> (flush: bool)
        ensures
            final(self).counts == old(self).counts.added(which, n),
            flush == flush_due(old(self).last_flush_ms, now_ms),
            final(self).last_flush_ms == (if flush {
                Some(now_ms)
            } else {
                old(self).last_flush_ms
            }),
    {
        match which {
            Counter::Paths => self.counts.paths = self.counts.paths.saturating_add(n),
            Counter::Copied => self.counts.copied = self.counts.copied.saturating_add(n),
            Counter::Skipped => self.counts.skipped = self.counts.skipped.saturating_add(n),
            Counter::Deleted => self.counts.deleted = self.counts.deleted.saturating_add(n),
            Counter::Bytes => self.counts.bytes = self.counts.bytes.saturating_add(n),
        }
        self.tick(now_ms)
    }

    /// Counts `n` entries seen in the source.
    pub fn add_source(&mut self, n: u64, now_ms: u64) -> (flush: bool)
        ensures
            final(self).counts == old(self).counts.added(Counter::Paths, n),
            flush == flush_due(old(self).last_flush_ms, now_ms),
            final(self).last_flush_ms == (if flush {
                Some(now_ms)
            } else {
                old(self).last_flush_ms
            }),
    {
        self.add(Counter::Paths, n, now_ms)
    }

    /// Counts `n` entries written to the destination.
    pub fn add_copied(&mut self, n: u64, now_ms: u64) -> (flush: bool)
        ensures
            final(self).counts == old(self).counts.added(Counter::Copied, n),
            flush == flush_due(old(self).last_flush_ms, now_ms),
            final(self).last_flush_ms == (if flush {
                Some(now_ms)
            } else {
                old(self).last_flush_ms
            }),
    {
        self.add(Counter::Copied, n, now_ms)
    }

    /// Counts `n` entries found already in sync.
    pub fn add_skipped(&mut self, n: u64, now_ms: u64) -> (flush: bool)
        ensures
            final(self).counts == old(self).counts.added(Counter::Skipped, n),
            flush == flush_due(old(self).last_flush_ms, now_ms),
            final(self).last_flush_ms == (if flush {
                Some(now_ms)
            } else {
                old(self).last_flush_ms
            }),
    {
        self.add(Counter::Skipped, n, now_ms)
    }

    /// Counts `n` destination entries removed.
    pub fn add_deleted(&mut self, n: u64, now_ms: u64) -> (flush: bool)
        ensures
            final(self).counts == old(self).counts.added(Counter::Deleted, n),
            flush == flush_due(old(self).last_flush_ms, now_ms),
            final(self).last_flush_ms == (if flush {
                Some(now_ms)
            } else {
                old(self).last_flush_ms
            }),
    {
        self.add(Counter::Deleted, n, now_ms)
    }

    /// Counts `n` bytes of file content copied.
    pub fn add_bytes_copied(&mut self, n: u64, now_ms: u64) -> (flush: bool)
        ensures
            final(self).counts == old(self).counts.added(Counter::Bytes, n),
            flush == flush_due(old(self).last_flush_ms, now_ms),
            final(self).last_flush_ms == (if flush {
                Some(now_ms)
            } else {
                old(self).last_flush_ms
            }),
    {
        self.add(Counter::Bytes, n, now_ms)
    }

    /// Counts a directory of the source whose destination existed already or
    /// was just created, then ticks.
    pub fn record_dir(&mut self, existed: bool, now_ms: u64) -> (flush: bool)
        ensures
            final(self).counts == counted_dir(old(self).counts, existed),
            flush == flush_due(old(self).last_flush_ms, now_ms),
            final(self).last_flush_ms == (if flush {
                Some(now_ms)
            } else {
                old(self).last_flush_ms
            }),
    {
        if existed {
            self.add_skipped(1, now_ms)
        } else {
            self.add_copied(1, now_ms)
        }
    }

    /// Counts a file whose action was carried out, `len` being its length,
    /// then ticks.
    pub fn record_file(&mut self, action: ChildAction, len: u64, now_ms: u64) -> (flush: bool)
        ensures
            final(self).counts == counted_file(old(self).counts, action, len),
            flush == flush_due(old(self).last_flush_ms, now_ms),
            final(self).last_flush_ms == (if flush {
                Some(now_ms)
            } else {
                old(self).last_flush_ms
            }),
    {
        match action {
            ChildAction::Copy => {
                self.counts.copied = self.counts.copied.saturating_add(1);
                self.add_bytes_copied(len, now_ms)
            },
            ChildAction::Skip => self.add_skipped(1, now_ms),
            _ => self.tick(now_ms),
        }
    }

    /// Counts a symlink whose action was carried out, then ticks.
    pub fn record_link(&mut self, action: LinkAction, now_ms: u64) -> (flush: bool)
        ensures
            final(self).counts == counted_link(old(self).counts, action),
            flush == flush_due(old(self).last_flush_ms, now_ms),
            final(self).last_flush_ms == (if flush {
                Some(now_ms)
            } else {
                old(self).last_flush_ms
            }),
    {
        match action {
            LinkAction::Keep => self.tick(now_ms),
            _ => self.add_copied(1, now_ms),
        }
    }

    /// The current values of the counters.
    pub fn counts(&self) -> (r: Counts)
        ensures
            r == self.counts,
    {
        self.counts
    }
}

impl Default for Progress {
    fn default() -> (r: Progress)
        ensures
            r.counts.is_zero(),
            r.last_flush_ms is None,
    {
        Progress::new()
    }
}

} // verus!

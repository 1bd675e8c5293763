use vstd::prelude::*;

use crate::filter::views;

verus! {

/// The extensions ignored until the user saves a list of their own.
pub open spec fn default_ignored() -> Seq<Seq<char>> {
    seq![
        seq!['p', 'l', 'i', 's', 't'],
        seq!['l', 'o', 'g'],
        seq!['d', 'b'],
        seq!['l', 'd', 'b'],
        seq!['l', 'o', 'c', 'k'],
        seq!['t', 'm', 'p'],
        seq!['t', 'e', 'm', 'p'],
        seq!['c', 'r', 'd', 'o', 'w', 'n', 'l', 'o', 'a', 'd'],
        seq!['p', 'a', 'r', 't'],
        seq!['i', 'n', 'i'],
        seq!['d', 'a', 't'],
        seq!['s', 'h', 'm'],
        seq!['w', 'a', 'l']
    ]
}

/// The sync settings: file extensions whose files are never copied, compared
/// without regard to letter case.
#[derive(Clone, Debug)]
pub struct SyncConfig {
    pub ignored_extensions: Vec<String>,
}

impl View for SyncConfig {
    type V = Seq<Seq<char>>;

    open spec fn view(&self) -> Seq<Seq<char>> {
        views(self.ignored_extensions@)
    }
}

impl Default for SyncConfig {
    fn default() -> (r: SyncConfig)
        ensures
            r@ == default_ignored(),
    {
        let mut v: Vec<String> = Vec::new();
        v.push("plist".to_owned());
        v.push("log".to_owned());
        v.push("db".to_owned());
        v.push("ldb".to_owned());
        v.push("lock".to_owned());
        v.push("tmp".to_owned());
        v.push("temp".to_owned());
        v.push("crdownload".to_owned());
        v.push("part".to_owned());
        v.push("ini".to_owned());
        v.push("dat".to_owned());
        v.push("shm".to_owned());
        v.push("wal".to_owned());
        proof {
            reveal_strlit("plist");
            reveal_strlit("log");
            reveal_strlit("db");
            reveal_strlit("ldb");
            reveal_strlit("lock");
            reveal_strlit("tmp");
            reveal_strlit("temp");
            reveal_strlit("crdownload");
            reveal_strlit("part");
            reveal_strlit("ini");
            reveal_strlit("dat");
            reveal_strlit("shm");
            reveal_strlit("wal");
        }
        let r = SyncConfig { ignored_extensions: v };
        assert(r@.len() == default_ignored().len());
        assert(r@[0] =~= default_ignored()[0]);
        assert(r@[1] =~= default_ignored()[1]);
        assert(r@[2] =~= default_ignored()[2]);
        assert(r@[3] =~= default_ignored()[3]);
        assert(r@[4] =~= default_ignored()[4]);
        assert(r@[5] =~= default_ignored()[5]);
        assert(r@[6] =~= default_ignored()[6]);
        assert(r@[7] =~= default_ignored()[7]);
        assert(r@[8] =~= default_ignored()[8]);
        assert(r@[9] =~= default_ignored()[9]);
        assert(r@[10] =~= default_ignored()[10]);
        assert(r@[11] =~= default_ignored()[11]);
        assert(r@[12] =~= default_ignored()[12]);
        assert(r@ =~= default_ignored());
        r
    }
}

impl SyncConfig {
    /// A copy of the settings, taken so that a lock on them can be let go
    /// before any file is touched.
    pub fn snapshot(&self) -> (r: SyncConfig)
        ensures
            r@ == self@,
    {
        let mut v: Vec<String> = Vec::new();
        let mut i: usize = 0;
        while i < self.ignored_extensions.len()
            invariant
                i <= self.ignored_extensions.len(),
                v.len() == i,
                forall|j: int| 0 <= j < i ==> (#[trigger] v[j])@ == self.ignored_extensions[j]@,
            decreases self.ignored_extensions.len() - i,
        {
            v.push(self.ignored_extensions[i].clone());
            i = i + 1;
        }
        let r = SyncConfig { ignored_extensions: v };
        assert(r@ =~= self@);
        r
    }
}

/// The configured backup destination, if any.
#[derive(Clone, Debug)]
pub struct BackupTarget {
    root: Option<String>,
}

impl View for BackupTarget {
    type V = Option<Seq<char>>;

    closed spec fn view(&self) -> Option<Seq<char>> {
        match self.root {
            Some(s) => Some(s@),
            None => None,
        }
    }
}

impl BackupTarget {
    /// No destination is set.
    pub fn new() -> (r: BackupTarget)
        ensures
            r@ is None,
    {
        BackupTarget { root: None }
    }

    /// Sets the destination, replacing any earlier one.
    pub fn set_backup_path(&mut self, path: String)
        ensures
            final(self)@ == Some(path@),
    {
        self.root = Some(path);
    }

    /// The destination currently set.
    pub fn get_backup_path(&self) -> (r: Option<String>)
        ensures
            match r {
                Some(s) => self@ == Some(s@),
                None => self@ is None,
            },
    {
        match &self.root {
            Some(s) => Some(s.clone()),
            None => None,
        }
    }
}

/// Installing `w` into a slot that holds `held`: the slot then holds `w`
/// alone, and `held` is handed back.
pub open spec fn after_install<W>(held: Option<W>, w: W) -> (Option<W>, Option<W>) {
    (Some(w), held)
}

/// Replacing an active watcher leaks nothing: after a second install the slot
/// holds only the second watcher, and the first has been handed back to be
/// dropped.
pub proof fn lemma_second_install_replaces_first<W>(first: W, second: W)
    ensures
        after_install(after_install(None, first).0, second) == (Some(second), Some(first)),
        after_install(None, first).1 is None,
{
}

/// A slot for the one live watcher handle.
pub struct WatchSlot<W> {
    current: Option<W>,
}

impl<W> View for WatchSlot<W> {
    type V = Option<W>;

    closed spec fn view(&self) -> Option<W> {
        self.current
    }
}

impl<W> WatchSlot<W> {
    /// An empty slot.
    pub fn new() -> (r: WatchSlot<W>)
        ensures
            r@ is None,
    {
        WatchSlot { current: None }
    }

    /// Whether a watcher is held.
    pub fn is_active(&self) -> (r: bool)
        ensures
            r == self@ is Some,
    {
        self.current.is_some()
    }

    /// Puts `w` in the slot and hands back the watcher it held before, so
    /// that the caller drops it and no two watchers stay alive.
    pub fn install(&mut self, w: W) -> (prior: Option<W>)
        ensures
            (final(self)@, prior) == after_install(old(self)@, w),
    {
        let prior = self.current.take();
        self.current = Some(w);
        prior
    }
}

} // verus!

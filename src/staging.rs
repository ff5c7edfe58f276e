use vstd::prelude::*;

verus! {

/// One staged path: its file mode and the id of its content.
pub struct IndexEntry {
    pub path: String,
    pub mode: u32,
    pub oid: Vec<u8>,
}

impl IndexEntry {
    pub open spec fn state(&self) -> (u32, Seq<u8>) {
        (self.mode, self.oid@)
    }
}

/// What HEAD holds for a path being unstaged.
pub enum HeadEntry {
    /// The repository has no commit yet.
    NoCommits,
    /// HEAD's tree has no such path.
    Absent,
    /// HEAD's tree holds the path with this mode and content id.
    Present(u32, Vec<u8>),
}

impl HeadEntry {
    /// The state that unstaging restores: nothing, unless HEAD holds the path.
    pub open spec fn restored(&self) -> Option<(u32, Seq<u8>)> {
        match self {
            HeadEntry::Present(m, o) => Some((*m, o@)),
            _ => None,
        }
    }
}

/// The staging area: an ordered sequence of entries, at most one per path.
pub struct Index {
    pub entries: Vec<IndexEntry>,
}

impl Index {
    /// No path is staged twice.
    pub open spec fn wf(&self) -> bool {
        forall|i: int, j: int|
            0 <= i < self.entries@.len() && 0 <= j < self.entries@.len() && i != j
                ==> (#[trigger] self.entries@[i]).path@ != (#[trigger] self.entries@[j]).path@
    }

    pub open spec fn holds(&self, p: Seq<char>) -> bool {
        exists|i: int| 0 <= i < self.entries@.len() && (#[trigger] self.entries@[i]).path@ == p
    }

    /// The staged state of a path, if it is staged.
    pub open spec fn entry(&self, p: Seq<char>) -> Option<(u32, Seq<u8>)> {
        if self.holds(p) {
            let i = choose|i: int| 0 <= i < self.entries@.len() && (#[trigger] self.entries@[i]).path@ == p;
            Some(self.entries@[i].state())
        } else {
            None
        }
    }

    pub proof fn lemma_entry_at(&self, i: int)
        requires
            self.wf(),
            0 <= i < self.entries@.len(),
        ensures
            self.entry(self.entries@[i].path@) == Some(self.entries@[i].state()),
    {
        let p = self.entries@[i].path@;
        assert(self.holds(p));
        let j = choose|j: int| 0 <= j < self.entries@.len() && (#[trigger] self.entries@[j]).path@ == p;
        assert(i == j);
    }

    pub fn new() -> (r: Index)
        ensures
            r.wf(),
            forall|p: Seq<char>| r.entry(p).is_none(),
    {
        Index { entries: Vec::new() }
    }

    /// The position of a path, if it is staged.
    pub fn position(&self, path: &String) -> (r: Option<usize>)
        requires
            self.wf(),
        ensures
            match r {
                Some(i) => i < self.entries@.len() && self.entries@[i as int].path@ == path@,
                None => !self.holds(path@),
            },
            r.is_none() <==> self.entry(path@).is_none(),
    {
        let mut i: usize = 0;
        while i < self.entries.len()
            invariant
                i <= self.entries@.len(),
                forall|k: int| 0 <= k < i ==> (#[trigger] self.entries@[k]).path@ != path@,
            decreases self.entries@.len() - i,
        {
            if self.entries[i].path == *path {
                return Some(i);
            }
            i = i + 1;
        }
        None
    }

    /// Sets the staged state of a path, in place when it is already staged.
    pub fn upsert(&mut self, path: String, mode: u32, oid: Vec<u8>)
        requires
            old(self).wf(),
        ensures
            final(self).wf(),
            final(self).entry(path@) == Some((mode, oid@)),
            forall|q: Seq<char>| q != path@ ==> final(self).entry(q) == old(self).entry(q),
    {
        let ghost p = path@;
        let ghost st = (mode, oid@);
        let pos = self.position(&path);
        match pos {
            Some(i) => {
                self.entries.set(i, IndexEntry { path, mode, oid });
            },
            None => {
                self.entries.push(IndexEntry { path, mode, oid });
            },
        }
        let ghost n = self.entries@.len();
        let ghost at: int = match pos { Some(i) => i as int, None => n - 1 };
        proof {
            assert(self.entries@[at].path@ == p);
            self.lemma_entry_at(at);
            assert forall|q: Seq<char>| q != p implies self.entry(q) == old(self).entry(q) by {
                if old(self).holds(q) {
                    let j = choose|j: int| 0 <= j < old(self).entries@.len() && (#[trigger] old(self).entries@[j]).path@ == q;
                    old(self).lemma_entry_at(j);
                    assert(self.entries@[j] == old(self).entries@[j]);
                    self.lemma_entry_at(j);
                } else if self.holds(q) {
                    let j = choose|j: int| 0 <= j < self.entries@.len() && (#[trigger] self.entries@[j]).path@ == q;
                    assert(j != at);
                    assert(old(self).entries@[j] == self.entries@[j]);
                }
            }
        }
    }

    /// Takes a path out of the index; nothing changes when it is not staged.
    pub fn remove_path(&mut self, path: &String)
        requires
            old(self).wf(),
        ensures
            final(self).wf(),
            final(self).entry(path@).is_none(),
            forall|q: Seq<char>| q != path@ ==> final(self).entry(q) == old(self).entry(q),
    {
        let pos = self.position(path);
        match pos {
            Some(i) => {
                self.entries.remove(i);
                proof {
                    let o = old(self).entries@;
                    let s = self.entries@;
                    assert forall|a: int| 0 <= a < s.len() implies (#[trigger] s[a]) == o[if a < i { a } else { a + 1 }] by {}
                    assert forall|a: int, b: int|
                        0 <= a < s.len() && 0 <= b < s.len() && a != b
                            implies (#[trigger] s[a]).path@ != (#[trigger] s[b]).path@ by {
                        assert(s[a] == o[if a < i { a } else { a + 1 }]);
                        assert(s[b] == o[if b < i { b } else { b + 1 }]);
                    }
                    if self.holds(path@) {
                        let j = choose|j: int| 0 <= j < s.len() && (#[trigger] s[j]).path@ == path@;
                        assert(s[j] == o[if j < i { j } else { j + 1 }]);
                    }
                    assert forall|q: Seq<char>| q != path@ implies self.entry(q) == old(self).entry(q) by {
                        if old(self).holds(q) {
                            let j = choose|j: int| 0 <= j < o.len() && (#[trigger] o[j]).path@ == q;
                            old(self).lemma_entry_at(j);
                            let k = if j < i { j } else { j - 1 };
                            assert(s[k] == o[j]);
                            self.lemma_entry_at(k);
                        } else if self.holds(q) {
                            let j = choose|j: int| 0 <= j < s.len() && (#[trigger] s[j]).path@ == q;
                            assert(s[j] == o[if j < i { j } else { j + 1 }]);
                        }
                    }
                }
            },
            None => {},
        }
    }

    /// Stages a path: its state on disk when the file exists, otherwise its deletion.
    pub fn stage(&mut self, path: String, on_disk: Option<(u32, Vec<u8>)>)
        requires
            old(self).wf(),
        ensures
            final(self).wf(),
            final(self).entry(path@) == spec_staged_state(on_disk),
            forall|q: Seq<char>| q != path@ ==> final(self).entry(q) == old(self).entry(q),
    {
        match on_disk {
            Some((mode, oid)) => self.upsert(path, mode, oid),
            None => self.remove_path(&path),
        }
    }

    /// Unstages a path: back to what HEAD holds for it, or out of the index when
    /// HEAD holds nothing for it or there is no commit yet.
    pub fn unstage(&mut self, path: String, head: HeadEntry)
        requires
            old(self).wf(),
        ensures
            final(self).wf(),
            final(self).entry(path@) == head.restored(),
            forall|q: Seq<char>| q != path@ ==> final(self).entry(q) == old(self).entry(q),
    {
        match head {
            HeadEntry::Present(mode, oid) => self.upsert(path, mode, oid),
            _ => self.remove_path(&path),
        }
    }
}

/// The staged state that staging a file records: its mode and content id, or
/// nothing for a deleted file.
pub open spec fn spec_staged_state(on_disk: Option<(u32, Vec<u8>)>) -> Option<(u32, Seq<u8>)> {
    match on_disk {
        Some((m, o)) => Some((m, o@)),
        None => None,
    }
}

/// Staging a path and then unstaging it leaves its index entry as it was, for an
/// added or edited file and for a deleted one alike, when the entry agreed with
/// HEAD before staging; every other path is untouched throughout.
pub proof fn lemma_stage_then_unstage(
    before: Index,
    staged: Index,
    after: Index,
    path: Seq<char>,
    on_disk: Option<(u32, Vec<u8>)>,
    head: HeadEntry,
)
    requires
        before.entry(path) == head.restored(),
        staged.entry(path) == spec_staged_state(on_disk),
        forall|q: Seq<char>| q != path ==> staged.entry(q) == before.entry(q),
        after.entry(path) == head.restored(),
        forall|q: Seq<char>| q != path ==> after.entry(q) == staged.entry(q),
    ensures
        forall|q: Seq<char>| after.entry(q) == before.entry(q),
{
}

/// Whether staging a path records a file or a deletion: presence on disk alone decides.
#[derive(Clone, Copy, Debug, PartialEq, Eq, Structural)]
pub enum StageAction {
    AddFile,
    RemoveEntry,
}

pub fn stage_action(exists_on_disk: bool) -> (r: StageAction)
    ensures
        r == (if exists_on_disk { StageAction::AddFile } else { StageAction::RemoveEntry }),
{
    if exists_on_disk { StageAction::AddFile } else { StageAction::RemoveEntry }
}

/// How unstaging proceeds: with no commit there is nothing to go back to.
#[derive(Clone, Copy, Debug, PartialEq, Eq, Structural)]
pub enum UnstageAction {
    RemoveEntry,
    ResetToHead,
}

pub fn unstage_action(repo_is_empty: bool) -> (r: UnstageAction)
    ensures
        r == (if repo_is_empty { UnstageAction::RemoveEntry } else { UnstageAction::ResetToHead }),
{
    if repo_is_empty { UnstageAction::RemoveEntry } else { UnstageAction::ResetToHead }
}

} // verus!

use vstd::prelude::*;

verus! {

/// How a path differs between two of the three snapshots.
#[derive(Clone, Copy, Debug, PartialEq, Eq, Structural)]
pub enum Change {
    New,
    Modified,
    Deleted,
}

impl Change {
    /// The lower-case word for the change: `new`, `modified` or `deleted`.
    pub open spec fn spec_word(self) -> Seq<char> {
        match self {
            Change::New => "new"@,
            Change::Modified => "modified"@,
            Change::Deleted => "deleted"@,
        }
    }

    pub fn word(&self) -> (r: String)
        ensures
            r@ == self.spec_word(),
    {
        match self {
            Change::New => String::from_str("new"),
            Change::Modified => String::from_str("modified"),
            Change::Deleted => String::from_str("deleted"),
        }
    }
}

/// The per-path comparison facts reported by the repository: which ways the
/// index differs from HEAD, and which ways the working tree differs from the index.
#[derive(Clone, Copy, Debug, PartialEq, Eq, Structural)]
pub struct StatusFlags {
    pub index_new: bool,
    pub index_modified: bool,
    pub index_deleted: bool,
    pub index_renamed: bool,
    pub wt_new: bool,
    pub wt_modified: bool,
    pub wt_deleted: bool,
    pub wt_renamed: bool,
}

impl StatusFlags {
    /// Some difference between the index and HEAD.
    pub open spec fn spec_staged_any(self) -> bool {
        self.index_new || self.index_modified || self.index_deleted || self.index_renamed
    }

    /// Present only in the working tree.
    pub open spec fn spec_untracked(self) -> bool {
        self.wt_new && !self.spec_staged_any()
    }

    /// The staged change, if any: `new` wins over `deleted`, which wins over `modified`.
    pub open spec fn spec_staged(self) -> Option<Change> {
        if self.spec_untracked() || !self.spec_staged_any() {
            None
        } else if self.index_new {
            Some(Change::New)
        } else if self.index_deleted {
            Some(Change::Deleted)
        } else {
            Some(Change::Modified)
        }
    }

    /// The unstaged change, if any: `deleted` wins over `modified`.
    pub open spec fn spec_unstaged(self) -> Option<Change> {
        if self.spec_untracked() || !(self.wt_modified || self.wt_deleted || self.wt_renamed) {
            None
        } else if self.wt_deleted {
            Some(Change::Deleted)
        } else {
            Some(Change::Modified)
        }
    }

    /// No difference of any kind.
    pub open spec fn spec_clean(self) -> bool {
        !self.spec_staged_any() && !self.wt_new && !self.wt_modified && !self.wt_deleted
            && !self.wt_renamed
    }
}

/// Where one path lands in a status report.
#[derive(Clone, Copy, Debug, PartialEq, Eq, Structural)]
pub struct EntryClass {
    pub untracked: bool,
    pub staged: Option<Change>,
    pub unstaged: Option<Change>,
}

/// Classifies one path from its comparison facts. An untracked path is never
/// also staged or unstaged.
pub fn classify_entry(f: StatusFlags) -> (r: EntryClass)
    ensures
        r.untracked == f.spec_untracked(),
        r.staged == f.spec_staged(),
        r.unstaged == f.spec_unstaged(),
        r.untracked ==> r.staged.is_none() && r.unstaged.is_none(),
{
    let staged_any = f.index_new || f.index_modified || f.index_deleted || f.index_renamed;
    if f.wt_new && !staged_any {
        return EntryClass { untracked: true, staged: None, unstaged: None };
    }
    let staged = if !staged_any {
        None
    } else if f.index_new {
        Some(Change::New)
    } else if f.index_deleted {
        Some(Change::Deleted)
    } else {
        Some(Change::Modified)
    };
    let unstaged = if !(f.wt_modified || f.wt_deleted || f.wt_renamed) {
        None
    } else if f.wt_deleted {
        Some(Change::Deleted)
    } else {
        Some(Change::Modified)
    };
    EntryClass { untracked: false, staged, unstaged }
}

/// One path of a status listing with its comparison facts.
pub struct StatusRecord {
    pub path: String,
    pub flags: StatusFlags,
}

/// A path with the way it changed.
#[derive(Clone, Debug)]
pub struct GitFileEntry {
    pub path: String,
    pub status: String,
}

/// Branch name and the three classified path lists.
#[derive(Debug)]
pub struct GitStatusResult {
    pub branch: String,
    pub staged: Vec<GitFileEntry>,
    pub unstaged: Vec<GitFileEntry>,
    pub untracked: Vec<String>,
}

/// The paths, in listing order, whose class is picked out by `pick`, each with its word.
pub open spec fn changes_of(
    records: Seq<(Seq<char>, StatusFlags)>,
    pick: spec_fn(StatusFlags) -> Option<Change>,
) -> Seq<(Seq<char>, Seq<char>)>
    decreases records.len(),
{
    if records.len() == 0 {
        seq![]
    } else {
        let rest = changes_of(records.drop_last(), pick);
        let last = records.last();
        match pick(last.1) {
            Some(c) => rest.push((last.0, c.spec_word())),
            None => rest,
        }
    }
}

/// The untracked paths, in listing order.
pub open spec fn untracked_of(records: Seq<(Seq<char>, StatusFlags)>) -> Seq<Seq<char>>
    decreases records.len(),
{
    if records.len() == 0 {
        seq![]
    } else {
        let rest = untracked_of(records.drop_last());
        if records.last().1.spec_untracked() {
            rest.push(records.last().0)
        } else {
            rest
        }
    }
}

pub open spec fn staged_pick() -> spec_fn(StatusFlags) -> Option<Change> {
    |f: StatusFlags| f.spec_staged()
}

pub open spec fn unstaged_pick() -> spec_fn(StatusFlags) -> Option<Change> {
    |f: StatusFlags| f.spec_unstaged()
}

/// The abstract content of a status listing.
pub open spec fn records_view(records: Seq<StatusRecord>) -> Seq<(Seq<char>, StatusFlags)> {
    records.map_values(|r: StatusRecord| (r.path@, r.flags))
}

pub open spec fn entries_view(entries: Seq<GitFileEntry>) -> Seq<(Seq<char>, Seq<char>)> {
    entries.map_values(|e: GitFileEntry| (e.path@, e.status@))
}

pub open spec fn paths_view(paths: Seq<String>) -> Seq<Seq<char>> {
    paths.map_values(|p: String| p@)
}

/// The branch shown in a status report: `main` while there is no commit yet,
/// the branch's short name when HEAD names one, `HEAD` otherwise.
pub open spec fn spec_branch_name(is_empty: bool, head_shorthand: Option<String>) -> Seq<char> {
    if is_empty {
        "main"@
    } else {
        match head_shorthand {
            Some(s) => s@,
            None => "HEAD"@,
        }
    }
}

pub fn current_branch_name(is_empty: bool, head_shorthand: Option<String>) -> (r: String)
    ensures
        r@ == spec_branch_name(is_empty, head_shorthand),
{
    if is_empty {
        String::from_str("main")
    } else {
        match head_shorthand {
            Some(s) => s,
            None => String::from_str("HEAD"),
        }
    }
}

/// Builds the status report: each path goes to the untracked list, or to the
/// staged and unstaged lists by its changes, keeping the listing order.
pub fn classify_status(branch: String, records: &Vec<StatusRecord>) -> (r: GitStatusResult)
    ensures
        r.branch@ == branch@,
        entries_view(r.staged@) == changes_of(records_view(records@), staged_pick()),
        entries_view(r.unstaged@) == changes_of(records_view(records@), unstaged_pick()),
        paths_view(r.untracked@) == untracked_of(records_view(records@)),
{
    let mut staged: Vec<GitFileEntry> = Vec::new();
    let mut unstaged: Vec<GitFileEntry> = Vec::new();
    let mut untracked: Vec<String> = Vec::new();
    let ghost rv = records_view(records@);
    let mut i: usize = 0;
    while i < records.len()
        invariant
            i <= records.len(),
            rv == records_view(records@),
            entries_view(staged@) == changes_of(rv.take(i as int), staged_pick()),
            entries_view(unstaged@) == changes_of(rv.take(i as int), unstaged_pick()),
            paths_view(untracked@) == untracked_of(rv.take(i as int)),
        decreases records.len() - i,
    {
        let rec = &records[i];
        let class = classify_entry(rec.flags);
        proof {
            assert(rv.take(i + 1).drop_last() == rv.take(i as int));
            assert(rv.take(i + 1).last() == (rec.path@, rec.flags));
        }
        if class.untracked {
            untracked.push(rec.path.clone());
            proof {
                assert(paths_view(untracked@) == paths_view(untracked@.drop_last()).push(rec.path@));
            }
        } else {
            match class.staged {
                Some(c) => {
                    let e = GitFileEntry { path: rec.path.clone(), status: c.word() };
                    staged.push(e);
                    proof {
                        assert(entries_view(staged@) == entries_view(staged@.drop_last()).push(
                            (rec.path@, c.spec_word()),
                        ));
                    }
                },
                None => {},
            }
            match class.unstaged {
                Some(c) => {
                    let e = GitFileEntry { path: rec.path.clone(), status: c.word() };
                    unstaged.push(e);
                    proof {
                        assert(entries_view(unstaged@) == entries_view(
                            unstaged@.drop_last(),
                        ).push((rec.path@, c.spec_word())));
                    }
                },
                None => {},
            }
        }
        i = i + 1;
    }
    proof {
        assert(rv.take(records.len() as int) == rv);
    }
    GitStatusResult { branch, staged, unstaged, untracked }
}

/// A listing in which no path differs between HEAD, the index and the working
/// tree yields no staged, unstaged or untracked path.
pub proof fn lemma_clean_listing_reports_nothing(records: Seq<(Seq<char>, StatusFlags)>)
    requires
        forall|i: int| 0 <= i < records.len() ==> (#[trigger] records[i]).1.spec_clean(),
    ensures
        changes_of(records, staged_pick()) == Seq::<(Seq<char>, Seq<char>)>::empty(),
        changes_of(records, unstaged_pick()) == Seq::<(Seq<char>, Seq<char>)>::empty(),
        untracked_of(records) == Seq::<Seq<char>>::empty(),
    decreases records.len(),
{
    if records.len() > 0 {
        let init = records.drop_last();
        assert forall|i: int| 0 <= i < init.len() implies (#[trigger] init[i]).1.spec_clean() by {
            assert(init[i] == records[i]);
        }
        lemma_clean_listing_reports_nothing(init);
        assert(records.last() == records[records.len() - 1]);
    }
}

} // verus!

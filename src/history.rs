use vstd::prelude::*;

verus! {

/// One line of history: a commit's id, message and commit time in seconds.
#[derive(Debug)]
pub struct GitLogEntry {
    pub oid: String,
    pub message: String,
    pub timestamp: i64,
}

/// A commit as read from the object store, with the id of its first parent.
pub struct CommitRecord {
    pub oid: String,
    pub message: String,
    pub timestamp: i64,
    pub first_parent: Option<String>,
}

pub open spec fn entry_matches(e: GitLogEntry, c: CommitRecord) -> bool {
    e.oid@ == c.oid@ && e.message@ == c.message@ && e.timestamp == c.timestamp
}

/// A walk of first-parent history from HEAD, newest first, bounded by a count.
/// The walker asks for one commit at a time; whoever reads the object store
/// hands each one back.
pub struct LogWalk {
    pub limit: usize,
    pub entries: Vec<GitLogEntry>,
    pub next: Option<String>,
}

impl LogWalk {
    /// Never more entries than the limit, and no further request once it is reached.
    pub open spec fn wf(&self) -> bool {
        self.entries@.len() <= self.limit
            && (self.next.is_some() ==> self.entries@.len() < self.limit)
    }

    /// Starts at HEAD's commit; with no commit yet there is nothing to walk.
    pub fn start(head: Option<String>, limit: usize) -> (r: LogWalk)
        ensures
            r.wf(),
            r.limit == limit,
            r.entries@.len() == 0,
            r.next == (if limit > 0 { head } else { None }),
    {
        let next = if limit > 0 { head } else { None };
        LogWalk { limit, entries: Vec::new(), next }
    }

    /// The id of the commit to read next, if the walk goes on.
    pub fn next_request(&self) -> (r: Option<String>)
        ensures
            r == self.next,
    {
        self.next.clone()
    }

    /// Records the commit that was asked for and moves to its first parent.
    pub fn feed(&mut self, commit: CommitRecord)
        requires
            old(self).wf(),
            old(self).next.is_some(),
        ensures
            final(self).wf(),
            final(self).limit == old(self).limit,
            final(self).entries@.len() == old(self).entries@.len() + 1,
            final(self).entries@.drop_last() == old(self).entries@,
            entry_matches(final(self).entries@.last(), commit),
            final(self).next == (if old(self).entries@.len() + 1 < old(self).limit {
                commit.first_parent
            } else {
                None
            }),
    {
        let ghost c = commit;
        let CommitRecord { oid, message, timestamp, first_parent } = commit;
        self.entries.push(GitLogEntry { oid, message, timestamp });
        if self.entries.len() < self.limit {
            self.next = first_parent;
        } else {
            self.next = None;
        }
        assert(self.entries@.drop_last() =~= old(self).entries@);
    }

    pub fn finish(self) -> (r: Vec<GitLogEntry>)
        ensures
            r@ == self.entries@,
    {
        self.entries
    }
}

/// The name recorded as author and committer of new commits.
pub const AUTHOR_NAME: &'static str = "DDD Tool";

/// The e-mail address recorded as author and committer of new commits.
pub const AUTHOR_EMAIL: &'static str = "ddd-tool@local";

/// The parents of a new commit: HEAD's commit when there is one, none for the
/// first commit of a repository.
pub fn commit_parents(head_commit: Option<String>) -> (r: Vec<String>)
    ensures
        head_commit.is_none() ==> r@.len() == 0,
        head_commit.is_some() ==> r@.len() == 1 && r@[0] == head_commit.unwrap(),
{
    let mut r: Vec<String> = Vec::new();
    match head_commit {
        Some(h) => r.push(h),
        None => {},
    }
    r
}

/// `k` is the first record with this id.
pub open spec fn first_match(arena: Seq<CommitRecord>, oid: Seq<char>, k: int) -> bool {
    0 <= k < arena.len() && arena[k].oid@ == oid && forall|j: int|
        0 <= j < k ==> (#[trigger] arena[j]).oid@ != oid
}

/// No record has this id.
pub open spec fn no_match(arena: Seq<CommitRecord>, oid: Seq<char>) -> bool {
    forall|k: int| 0 <= k < arena.len() ==> (#[trigger] arena[k]).oid@ != oid
}

/// The position of the first record with the given id.
pub fn find_commit(arena: &Vec<CommitRecord>, oid: &String) -> (r: Option<usize>)
    ensures
        match r {
            Some(k) => first_match(arena@, oid@, k as int),
            None => no_match(arena@, oid@),
        },
{
    let mut k: usize = 0;
    while k < arena.len()
        invariant
            k <= arena@.len(),
            forall|j: int| 0 <= j < k ==> (#[trigger] arena@[j]).oid@ != oid@,
        decreases arena@.len() - k,
    {
        if arena[k].oid == *oid {
            return Some(k);
        }
        k = k + 1;
    }
    None
}

/// The record kept for id `a` names `b` as its first parent.
pub open spec fn parent_link(arena: Seq<CommitRecord>, a: Seq<char>, b: Seq<char>) -> bool {
    exists|k: int|
        first_match(arena, a, k) && arena[k].first_parent.is_some()
            && arena[k].first_parent.unwrap()@ == b
}

/// The record kept for this entry's id carries its message and time.
pub open spec fn recorded(arena: Seq<CommitRecord>, e: GitLogEntry) -> bool {
    exists|k: int| first_match(arena, e.oid@, k) && entry_matches(e, arena[k])
}

/// History ends after this commit: it has no parent, or its parent is not kept.
pub open spec fn walk_ended(arena: Seq<CommitRecord>, oid: Seq<char>) -> bool {
    exists|k: int|
        first_match(arena, oid, k) && (arena[k].first_parent.is_none() || no_match(
            arena,
            arena[k].first_parent.unwrap()@,
        ))
}

/// Walks first-parent history through commit records kept by id, from HEAD,
/// newest first: none when there is no HEAD, the first entry HEAD's, each next
/// one the first parent of the one before, until `limit` entries are taken or
/// history ends.
pub fn walk_history(arena: &Vec<CommitRecord>, head: Option<String>, limit: usize) -> (r: Vec<
    GitLogEntry,
>)
    ensures
        r@.len() <= limit,
        head.is_none() || limit == 0 ==> r@.len() == 0,
        r@.len() > 0 ==> head.is_some() && r@[0].oid@ == head.unwrap()@,
        forall|i: int| 0 <= i < r@.len() ==> recorded(arena@, #[trigger] r@[i]),
        forall|i: int|
            0 <= i < r@.len() - 1 ==> parent_link(arena@, (#[trigger] r@[i]).oid@, r@[i + 1].oid@),
        head.is_some() && r@.len() < limit && r@.len() == 0 ==> no_match(arena@, head.unwrap()@),
        r@.len() < limit && r@.len() > 0 ==> walk_ended(arena@, r@.last().oid@),
{
    let ghost h = head;
    let mut walk = LogWalk::start(head, limit);
    while walk.next.is_some()
        invariant
            walk.wf(),
            walk.limit == limit,
            h.is_none() || limit == 0 ==> walk.entries@.len() == 0 && walk.next.is_none(),
            walk.entries@.len() == 0 ==> walk.next == (if limit > 0 { h } else { None }),
            walk.entries@.len() > 0 ==> walk.entries@[0].oid@ == h.unwrap()@ && h.is_some(),
            forall|i: int| 0 <= i < walk.entries@.len() ==> recorded(arena@, #[trigger] walk.entries@[i]),
            forall|i: int|
                0 <= i < walk.entries@.len() - 1 ==> parent_link(
                    arena@,
                    (#[trigger] walk.entries@[i]).oid@,
                    walk.entries@[i + 1].oid@,
                ),
            walk.entries@.len() > 0 && walk.next.is_some() ==> parent_link(
                arena@,
                walk.entries@.last().oid@,
                walk.next.unwrap()@,
            ),
            walk.entries@.len() > 0 && walk.entries@.len() < limit && walk.next.is_none()
                ==> walk_ended(arena@, walk.entries@.last().oid@),
        ensures
            walk.wf(),
            walk.limit == limit,
            h.is_none() || limit == 0 ==> walk.entries@.len() == 0,
            walk.entries@.len() > 0 ==> walk.entries@[0].oid@ == h.unwrap()@ && h.is_some(),
            forall|i: int| 0 <= i < walk.entries@.len() ==> recorded(arena@, #[trigger] walk.entries@[i]),
            forall|i: int|
                0 <= i < walk.entries@.len() - 1 ==> parent_link(
                    arena@,
                    (#[trigger] walk.entries@[i]).oid@,
                    walk.entries@[i + 1].oid@,
                ),
            h.is_some() && walk.entries@.len() < limit && walk.entries@.len() == 0 ==> no_match(
                arena@,
                h.unwrap()@,
            ),
            walk.entries@.len() < limit && walk.entries@.len() > 0 ==> walk_ended(
                arena@,
                walk.entries@.last().oid@,
            ),
        decreases limit - walk.entries@.len(),
    {
        let want = walk.next_request();
        let id = match want {
            Some(id) => id,
            None => break,
        };
        match find_commit(arena, &id) {
            Some(k) => {
                let c = &arena[k];
                let ghost before = walk.entries@;
                let rec = CommitRecord {
                    oid: c.oid.clone(),
                    message: c.message.clone(),
                    timestamp: c.timestamp,
                    first_parent: c.first_parent.clone(),
                };
                walk.feed(rec);
                proof {
                    let after = walk.entries@;
                    assert(entry_matches(after.last(), arena@[k as int]));
                    assert(first_match(arena@, after.last().oid@, k as int));
                    assert forall|i: int| 0 <= i < after.len() implies recorded(arena@, #[trigger] after[i]) by {
                        if i < before.len() {
                            assert(after[i] == before[i]);
                        } else {
                            assert(after[i] == after.last());
                        }
                    }
                    assert forall|i: int| 0 <= i < after.len() - 1 implies parent_link(
                        arena@,
                        (#[trigger] after[i]).oid@,
                        after[i + 1].oid@,
                    ) by {
                        assert(after[i] == before[i]);
                        if i + 1 < before.len() {
                            assert(after[i + 1] == before[i + 1]);
                        } else {
                            assert(after[i + 1] == after.last());
                        }
                    }
                    if walk.next.is_some() {
                        assert(parent_link(arena@, after.last().oid@, walk.next.unwrap()@));
                    } else if after.len() < limit {
                        assert(walk_ended(arena@, after.last().oid@));
                    }
                    if before.len() == 0 {
                        assert(after[0] == after.last());
                    } else {
                        assert(after[0] == before[0]);
                    }
                }
            },
            None => {
                proof {
                    let e = walk.entries@;
                    if e.len() > 0 {
                        let k = choose|k: int|
                            first_match(arena@, e.last().oid@, k) && arena@[k].first_parent.is_some()
                                && arena@[k].first_parent.unwrap()@ == id@;
                        assert(walk_ended(arena@, e.last().oid@));
                    }
                }
                break;
            },
        }
    }
    walk.finish()
}

} // verus!

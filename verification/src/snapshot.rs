//! What the filesystem held at the paths a request names, as the caller
//! observed it.

use vstd::prelude::*;

verus! {

/// What a query found at a path.
#[derive(Clone, Copy, Debug, PartialEq, Eq, Structural)]
pub enum PathKind {
    /// Nothing is there.
    Missing,
    /// Something is there that is not a directory.
    File,
    /// A directory is there.
    Directory,
}

/// One observation: a path and what was found at it.
#[derive(Debug)]
pub struct Observation {
    pub path: String,
    pub kind: PathKind,
}

/// The state that a sequence of observations describes. A later observation
/// of a path replaces an earlier one.
pub open spec fn recorded(entries: Seq<Observation>) -> Map<Seq<char>, PathKind>
    decreases entries.len(),
{
    if entries.len() == 0 {
        Map::empty()
    } else {
        recorded(entries.drop_last()).insert(entries.last().path@, entries.last().kind)
    }
}

/// What `state` holds at `path`. A path that was never observed counts as
/// missing.
pub open spec fn kind_in(state: Map<Seq<char>, PathKind>, path: Seq<char>) -> PathKind {
    if state.contains_key(path) {
        state[path]
    } else {
        PathKind::Missing
    }
}

/// Whether `state` holds anything at `path`.
pub open spec fn exists_in(state: Map<Seq<char>, PathKind>, path: Seq<char>) -> bool {
    kind_in(state, path) != PathKind::Missing
}

/// Whether `state` holds a directory at `path`.
pub open spec fn is_dir_in(state: Map<Seq<char>, PathKind>, path: Seq<char>) -> bool {
    kind_in(state, path) == PathKind::Directory
}

/// A record of observations, read as a map from path to what was found.
#[derive(Debug)]
pub struct Snapshot {
    entries: Vec<Observation>,
}

impl View for Snapshot {
    type V = Map<Seq<char>, PathKind>;

    closed spec fn view(&self) -> Map<Seq<char>, PathKind> {
        recorded(self.entries@)
    }
}

impl Snapshot {
    /// A snapshot in which every path is missing.
    pub fn new() -> (snapshot: Snapshot)
        ensures
            snapshot@ == Map::<Seq<char>, PathKind>::empty(),
    {
        Snapshot { entries: Vec::new() }
    }

    /// Records that `kind` was found at `path`, in place of whatever was
    /// recorded for that path before.
    pub fn record(&mut self, path: &str, kind: PathKind)
        ensures
            final(self)@ == old(self)@.insert(path@, kind),
    {
        let observation = Observation { path: path.to_owned(), kind };
        self.entries.push(observation);
        proof {
            assert(self.entries@.drop_last() =~= old(self).entries@);
        }
    }

    /// What was found at `path`.
    pub fn kind_of(&self, path: &str) -> (kind: PathKind)
        ensures
            kind == kind_in(self@, path@),
    {
        let wanted = path.to_owned();
        let mut i: usize = self.entries.len();
        proof {
            assert(self.entries@.take(i as int) =~= self.entries@);
        }
        while i > 0
            invariant
                i <= self.entries.len(),
                wanted@ == path@,
                kind_in(recorded(self.entries@), path@) == kind_in(
                    recorded(self.entries@.take(i as int)),
                    path@,
                ),
            decreases i,
        {
            i -= 1;
            proof {
                let upto = self.entries@.take(i + 1);
                assert(upto.drop_last() =~= self.entries@.take(i as int));
                assert(upto.last() == self.entries@[i as int]);
            }
            if self.entries[i].path == wanted {
                return self.entries[i].kind;
            }
        }
        proof {
            assert(self.entries@.take(0).len() == 0);
        }
        PathKind::Missing
    }

    /// Whether anything was found at `path`.
    pub fn is_present(&self, path: &str) -> (found: bool)
        ensures
            found == exists_in(self@, path@),
    {
        self.kind_of(path) != PathKind::Missing
    }

    /// Whether a directory was found at `path`.
    pub fn is_dir(&self, path: &str) -> (found: bool)
        ensures
            found == is_dir_in(self@, path@),
    {
        self.kind_of(path) == PathKind::Directory
    }
}

} // verus!

//! The storage capability that the kernel-runtime core works against,
//! and a verified in-memory implementation of it.
//!
//! The core never touches a filesystem directly: kernelspec discovery and
//! connection-descriptor persistence go through the [`Storage`] trait, whose
//! behaviour is specified against a map from paths to entries. That keeps
//! discovery and persistence testable against the in-memory [`MemStorage`].

use vstd::prelude::*;
use crate::strutil::str_eq;
use vstd::string::StrSliceExecFns;

verus! {

/// What a path denotes in a storage model: a directory, or a file with its text.
pub enum FsEntry {
    Dir,
    File(Seq<char>),
}

/// `path` names an entry directly inside the directory `dir`: it extends
/// `dir` with a single separator and a non-empty name free of separators.
pub open spec fn is_direct_child(dir: Seq<char>, path: Seq<char>) -> bool {
    &&& path.len() > dir.len() + 1
    &&& path.subrange(0, dir.len() as int) == dir
    &&& path[dir.len() as int] == '/'
    &&& forall|i: int| dir.len() + 1 <= i < path.len() ==> path[i] != '/'
}

/// Decides `is_direct_child` on concrete strings.
pub fn check_direct_child(dir: &String, path: &String) -> (r: bool)
    ensures
        r == is_direct_child(dir@, path@),
{
    let dn = dir.as_str().unicode_len();
    let pn = path.as_str().unicode_len();
    if pn <= dn {
        return false;
    }
    if pn - dn <= 1 {
        return false;
    }
    if !crate::strutil::has_prefix(path.as_str(), dir.as_str()) {
        return false;
    }
    if path.as_str().get_char(dn) != '/' {
        return false;
    }
    let mut i: usize = dn + 1;
    while i < pn
        invariant
            dn == dir@.len(),
            pn == path@.len(),
            dn + 1 <= i <= pn,
            forall|j: int| dn + 1 <= j < i ==> path@[j] != '/',
        decreases pn - i,
    {
        if path.as_str().get_char(i) == '/' {
            return false;
        }
        i = i + 1;
    }
    proof {
        assert(path@.subrange(0, dn as int) =~= dir@);
    }
    true
}

/// `paths` is a complete, duplicate-free listing of the entries directly
/// inside `dir`, under the storage model `m`.
pub open spec fn is_dir_listing(m: Map<Seq<char>, FsEntry>, dir: Seq<char>, paths: Seq<String>) -> bool {
    &&& forall|i: int|
        0 <= i < paths.len() ==> is_direct_child(dir, #[trigger] paths[i]@) && m.contains_key(
            paths[i]@,
        )
    &&& forall|k: Seq<char>|
        #[trigger] m.contains_key(k) && is_direct_child(dir, k) ==> exists|i: int|
            0 <= i < paths.len() && paths[i]@ == k
    &&& forall|i: int, j: int| 0 <= i < j < paths.len() ==> paths[i]@ != paths[j]@
}

/// A storage capability: a read/write view of a tree of directories and
/// text files, modelled as a map from full paths to entries.
pub trait Storage {
    /// The mathematical content of the storage: full path to entry.
    /// The default stands for an implementation whose model is not spelled
    /// out; a verified implementation overrides it.
    open spec fn model(&self) -> Map<Seq<char>, FsEntry> {
        Map::empty()
    }

    /// Whether `path` names a directory.
    fn is_dir(&self, path: &String) -> (r: bool)
        ensures
            r == (self.model().contains_key(path@) && self.model()[path@] is Dir),
    ;

    /// The text of the file at `path`, if `path` names a file.
    fn load(&self, path: &String) -> (r: Option<String>)
        ensures
            match r {
                Some(text) => self.model().contains_key(path@) && self.model()[path@]
                    == FsEntry::File(text@),
                None => !(self.model().contains_key(path@) && self.model()[path@] is File),
            },
    ;

    /// The full paths of the entries directly inside the directory `path`,
    /// complete, without duplicates, in unspecified order; `None` when
    /// `path` is not a directory.
    fn read_dir(&self, path: &String) -> (r: Option<Vec<String>>)
        ensures
            match r {
                Some(paths) => self.model().contains_key(path@) && self.model()[path@] is Dir
                    && is_dir_listing(self.model(), path@, paths@),
                None => !(self.model().contains_key(path@) && self.model()[path@] is Dir),
            },
    ;

    /// Writes the whole text of the file at `path` in one step: a reader
    /// never observes a partial write. On failure the storage is unchanged.
    fn atomic_write(&mut self, path: &String, content: &String) -> (r: bool)
        ensures
            r ==> final (self).model() == old(self).model().insert(
                path@,
                FsEntry::File(content@),
            ),
            !r ==> final (self).model() == old(self).model(),
    ;

    /// Removes the entry at `path`, if any.
    fn remove_file(&mut self, path: &String)
        ensures
            final (self).model() == old(self).model().remove(path@),
    ;
}

/// An entry of the in-memory storage.
#[derive(Debug)]
pub enum MemEntry {
    Dir,
    File(String),
}

pub open spec fn entry_view(e: MemEntry) -> FsEntry {
    match e {
        MemEntry::Dir => FsEntry::Dir,
        MemEntry::File(s) => FsEntry::File(s@),
    }
}

/// The map described by an association list, later entries overriding earlier.
pub open spec fn assoc_model(s: Seq<(String, MemEntry)>) -> Map<Seq<char>, FsEntry>
    decreases s.len(),
{
    if s.len() == 0 {
        Map::empty()
    } else {
        assoc_model(s.drop_last()).insert(s.last().0@, entry_view(s.last().1))
    }
}

/// The keys of the association list are exactly the domain of its map.
proof fn lemma_assoc_dom(s: Seq<(String, MemEntry)>, k: Seq<char>)
    ensures
        assoc_model(s).contains_key(k) <==> exists|i: int| 0 <= i < s.len() && s[i].0@ == k,
    decreases s.len(),
{
    if s.len() > 0 {
        lemma_assoc_dom(s.drop_last(), k);
        if s.last().0@ == k {
            assert(s[s.len() - 1].0@ == k);
        } else {
            if exists|i: int| 0 <= i < s.len() && s[i].0@ == k {
                let i = choose|i: int| 0 <= i < s.len() && s[i].0@ == k;
                assert(s.drop_last()[i].0@ == k);
            }
        }
    }
}

/// The association list with every pair keyed `k` left out.
pub open spec fn assoc_without(s: Seq<(String, MemEntry)>, k: Seq<char>) -> Seq<
    (String, MemEntry),
>
    decreases s.len(),
{
    if s.len() == 0 {
        s
    } else if s.last().0@ == k {
        assoc_without(s.drop_last(), k)
    } else {
        assoc_without(s.drop_last(), k).push(s.last())
    }
}

proof fn lemma_assoc_without(s: Seq<(String, MemEntry)>, k: Seq<char>)
    ensures
        assoc_model(assoc_without(s, k)) == assoc_model(s).remove(k),
    decreases s.len(),
{
    if s.len() == 0 {
        assert(assoc_model(s).remove(k) =~= assoc_model(s));
    } else {
        lemma_assoc_without(s.drop_last(), k);
        if s.last().0@ == k {
            assert(assoc_model(s).remove(k) =~= assoc_model(s.drop_last()).remove(k));
        } else {
            let t = assoc_without(s.drop_last(), k).push(s.last());
            assert(t.drop_last() =~= assoc_without(s.drop_last(), k));
            assert(assoc_model(s).remove(k) =~= assoc_model(s.drop_last()).remove(k).insert(
                s.last().0@,
                entry_view(s.last().1),
            ));
        }
    }
}

/// In-memory storage: an association list from full paths to entries,
/// the last binding for a path being the current one.
pub struct MemStorage {
    entries: Vec<(String, MemEntry)>,
}

impl MemStorage {
    pub fn new() -> (r: MemStorage)
        ensures
            r.model() == Map::<Seq<char>, FsEntry>::empty(),
    {
        MemStorage { entries: Vec::new() }
    }

    /// Records a directory at `path`.
    pub fn insert_dir(&mut self, path: &String)
        ensures
            final (self).model() == old(self).model().insert(path@, FsEntry::Dir),
    {
        let owned = path.clone();
        self.entries.push((owned, MemEntry::Dir));
        proof {
            assert(self.entries@.drop_last() =~= old(self).entries@);
        }
    }

    /// Records a text file at `path`.
    pub fn insert_file(&mut self, path: &String, content: &String)
        ensures
            final (self).model() == old(self).model().insert(path@, FsEntry::File(content@)),
    {
        let owned = path.clone();
        let text = content.clone();
        self.entries.push((owned, MemEntry::File(text)));
        proof {
            assert(self.entries@.drop_last() =~= old(self).entries@);
        }
    }

    /// The current entry at `path`: the last binding in the list, if any.
    fn lookup_upto(&self, path: &String, n: usize) -> (r: Option<&MemEntry>)
        requires
            n <= self.entries@.len(),
        ensures
            match r {
                Some(e) => assoc_model(self.entries@.take(n as int)).contains_key(path@)
                    && assoc_model(self.entries@.take(n as int))[path@] == entry_view(*e),
                None => !assoc_model(self.entries@.take(n as int)).contains_key(path@),
            },
        decreases n,
    {
        if n == 0 {
            None
        } else {
            proof {
                assert(self.entries@.take(n as int).drop_last() =~= self.entries@.take(
                    n as int - 1,
                ));
                assert(self.entries@.take(n as int).last() == self.entries@[n as int - 1]);
            }
            let pair = &self.entries[n - 1];
            if str_eq(pair.0.as_str(), path.as_str()) {
                Some(&pair.1)
            } else {
                self.lookup_upto(path, n - 1)
            }
        }
    }

    fn lookup(&self, path: &String) -> (r: Option<&MemEntry>)
        ensures
            match r {
                Some(e) => self.model().contains_key(path@) && self.model()[path@] == entry_view(
                    *e,
                ),
                None => !self.model().contains_key(path@),
            },
    {
        proof {
            assert(self.entries@.take(self.entries@.len() as int) =~= self.entries@);
        }
        self.lookup_upto(path, self.entries.len())
    }

    fn entry_clone(e: &MemEntry) -> (r: MemEntry)
        ensures
            r == *e,
    {
        match e {
            MemEntry::Dir => MemEntry::Dir,
            MemEntry::File(s) => MemEntry::File(s.clone()),
        }
    }

    /// The entries with every binding for `path` left out, over the first `n`.
    fn without_upto(&self, path: &String, n: usize) -> (r: Vec<(String, MemEntry)>)
        requires
            n <= self.entries@.len(),
        ensures
            r@ == assoc_without(self.entries@.take(n as int), path@),
        decreases n,
    {
        if n == 0 {
            proof {
                assert(self.entries@.take(0) =~= Seq::<(String, MemEntry)>::empty());
            }
            Vec::new()
        } else {
            let mut r = self.without_upto(path, n - 1);
            proof {
                assert(self.entries@.take(n as int).drop_last() =~= self.entries@.take(
                    n as int - 1,
                ));
                assert(self.entries@.take(n as int).last() == self.entries@[n as int - 1]);
            }
            let pair = &self.entries[n - 1];
            if !str_eq(pair.0.as_str(), path.as_str()) {
                let key = pair.0.clone();
                let entry = Self::entry_clone(&pair.1);
                r.push((key, entry));
                proof {
                    assert((key, entry) == self.entries@[n as int - 1]);
                }
            }
            r
        }
    }
}

impl Storage for MemStorage {
    closed spec fn model(&self) -> Map<Seq<char>, FsEntry> {
        assoc_model(self.entries@)
    }

    fn is_dir(&self, path: &String) -> (r: bool)
    {
        match self.lookup(path) {
            Some(e) => match e {
                MemEntry::Dir => true,
                MemEntry::File(_) => false,
            },
            None => false,
        }
    }

    fn load(&self, path: &String) -> (r: Option<String>)
    {
        match self.lookup(path) {
            Some(e) => match e {
                MemEntry::Dir => None,
                MemEntry::File(text) => Some(text.clone()),
            },
            None => None,
        }
    }

    #[verifier::rlimit(50)]
    fn read_dir(&self, path: &String) -> (r: Option<Vec<String>>)
    {
        if !self.is_dir(path) {
            return None;
        }
        let n = self.entries.len();
        let mut paths: Vec<String> = Vec::new();
        let mut i: usize = 0;
        while i < n
            invariant
                n == self.entries@.len(),
                i <= n,
                forall|p: int|
                    0 <= p < paths@.len() ==> is_direct_child(path@, #[trigger] paths@[p]@)
                        && self.model().contains_key(paths@[p]@),
                forall|j: int|
                    0 <= j < i && is_direct_child(path@, #[trigger] self.entries@[j].0@)
                        ==> exists|p: int| 0 <= p < paths@.len() && paths@[p]@ == self.entries@[j].0@,
                forall|p: int, q: int| 0 <= p < q < paths@.len() ==> paths@[p]@ != paths@[q]@,
            decreases n - i,
        {
            let key = &self.entries[i].0;
            if check_direct_child(path, key) {
                let mut seen = false;
                let mut p: usize = 0;
                let m = paths.len();
                while p < m
                    invariant
                        m == paths@.len(),
                        p <= m,
                        seen == exists|q: int| 0 <= q < p && paths@[q]@ == key@,
                    decreases m - p,
                {
                    if str_eq(paths[p].as_str(), key.as_str()) {
                        seen = true;
                        proof {
                            assert(paths@[p as int]@ == key@);
                        }
                    }
                    p = p + 1;
                }
                let ghost prev = paths@;
                if !seen {
                    proof {
                        lemma_assoc_dom(self.entries@, key@);
                    }
                    paths.push(key.clone());
                }
                proof {
                    assert forall|j: int|
                        0 <= j < i + 1 && is_direct_child(
                            path@,
                            #[trigger] self.entries@[j].0@,
                        ) implies exists|p: int|
                        0 <= p < paths@.len() && paths@[p]@ == self.entries@[j].0@ by {
                        if j == i {
                            if seen {
                                let q = choose|q: int| 0 <= q < prev.len() && prev[q]@ == key@;
                                assert(paths@[q]@ == self.entries@[j].0@);
                            } else {
                                assert(paths@[paths@.len() - 1]@ == self.entries@[j].0@);
                            }
                        } else {
                            let q = choose|q: int|
                                0 <= q < prev.len() && prev[q]@ == self.entries@[j].0@;
                            assert(paths@[q]@ == self.entries@[j].0@);
                        }
                    }
                }
            }
            i = i + 1;
        }
        proof {
            assert forall|k: Seq<char>|
                #[trigger] self.model().contains_key(k) && is_direct_child(path@, k) implies exists|
                p: int,
            | 0 <= p < paths@.len() && paths@[p]@ == k by {
                lemma_assoc_dom(self.entries@, k);
                let j = choose|j: int| 0 <= j < self.entries@.len() && self.entries@[j].0@ == k;
                assert(is_direct_child(path@, self.entries@[j].0@));
            }
            assert(self.model().contains_key(path@) && self.model()[path@] is Dir);
            assert(is_dir_listing(self.model(), path@, paths@));
        }
        Some(paths)
    }

    fn atomic_write(&mut self, path: &String, content: &String) -> (r: bool)
    {
        self.insert_file(path, content);
        true
    }

    fn remove_file(&mut self, path: &String)
    {
        let n = self.entries.len();
        let kept = self.without_upto(path, n);
        proof {
            assert(self.entries@.take(n as int) =~= self.entries@);
            lemma_assoc_without(self.entries@, path@);
        }
        self.entries = kept;
    }
}

} // verus!

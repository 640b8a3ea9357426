//! A directory of files held in memory, keyed by path.

use vstd::prelude::*;
use crate::ops::{FileError, FileOp, Files, perform, outcome_of, overwrite_prefix};

verus! {

/// Files in memory: `paths[i]` holds `contents[i]`, and no path is listed twice.
pub struct MemStore {
    paths: Vec<String>,
    contents: Vec<Vec<u8>>,
    files: Ghost<Files>,
}

impl View for MemStore {
    type V = Files;

    closed spec fn view(&self) -> Files {
        self.files@
    }
}

impl MemStore {
    /// The listing matches the files, one entry per path.
    pub closed spec fn wf(&self) -> bool {
        &&& self.paths.len() == self.contents.len()
        &&& forall|i: int, j: int|
            0 <= i < j < self.paths.len() ==> self.paths[i]@ != self.paths[j]@
        &&& forall|i: int|
            0 <= i < self.paths.len() ==> #[trigger] self.files@.contains_key(self.paths[i]@)
                && self.files@[self.paths[i]@] == self.contents[i]@
        &&& forall|k: Seq<char>|
            #[trigger] self.files@.contains_key(k) ==> exists|i: int|
                0 <= i < self.paths.len() && self.paths[i]@ == k
    }

    /// An empty directory.
    pub fn new() -> (r: MemStore)
        ensures
            r.wf(),
            r@ == Files::empty(),
    {
        MemStore { paths: Vec::new(), contents: Vec::new(), files: Ghost(Map::empty()) }
    }

    /// The index at which `path` is listed.
    fn find(&self, path: &String) -> (r: Option<usize>)
        requires
            self.wf(),
        ensures
            match r {
                Some(i) => i < self.paths.len() && self.paths[i as int]@ == path@,
                None => !self@.contains_key(path@),
            },
    {
        let mut i: usize = 0;
        while i < self.paths.len()
            invariant
                self.wf(),
                i <= self.paths.len(),
                forall|j: int| 0 <= j < i ==> self.paths[j]@ != path@,
            decreases self.paths.len() - i,
        {
            if self.paths[i] == *path {
                return Some(i);
            }
            i = i + 1;
        }
        None
    }

    /// The whole content of the file at `path`.
    pub fn read(&self, path: &String) -> (r: Result<Vec<u8>, FileError>)
        requires
            self.wf(),
        ensures
            match r {
                Ok(b) => self@.contains_key(path@) && b@ == self@[path@],
                Err(e) => !self@.contains_key(path@) && e == FileError::NotFound,
            },
    {
        match self.find(path) {
            Some(i) => {
                let b = self.contents[i].clone();
                assert(b@ =~= self.contents[i as int]@);
                assert(self.files@.contains_key(self.paths[i as int]@));
                Ok(b)
            },
            None => Err(FileError::NotFound),
        }
    }

    /// Creates the file at `path`, or truncates it, and writes `body`.
    pub fn create_or_replace(&mut self, path: &String, body: Vec<u8>)
        requires
            old(self).wf(),
        ensures
            final(self).wf(),
            final(self)@ == old(self)@.insert(path@, body@),
    {
        match self.find(path) {
            Some(i) => {
                self.files = Ghost(self.files@.insert(path@, body@));
                self.contents[i] = body;
                assert forall|j: int| 0 <= j < self.paths.len() implies #[trigger] self.files@.contains_key(
                    self.paths[j]@) && self.files@[self.paths[j]@] == self.contents[j]@ by {
                    if j != i {
                        assert(old(self).files@.contains_key(old(self).paths[j]@));
                    }
                }
                assert forall|k: Seq<char>| #[trigger] self.files@.contains_key(k) implies exists|j: int|
                    0 <= j < self.paths.len() && self.paths[j]@ == k by {
                    if k != path@ {
                        assert(old(self).files@.contains_key(k));
                    }
                }
            },
            None => {
                self.files = Ghost(self.files@.insert(path@, body@));
                self.paths.push(path.clone());
                self.contents.push(body);
                let ghost n = self.paths.len() - 1;
                assert(self.paths[n]@ == path@);
                assert forall|j: int| 0 <= j < self.paths.len() implies #[trigger] self.files@.contains_key(
                    self.paths[j]@) && self.files@[self.paths[j]@] == self.contents[j]@ by {
                    if j != n {
                        assert(old(self).files@.contains_key(old(self).paths[j]@));
                        assert(self.paths[j] == old(self).paths[j]);
                        assert(self.contents[j] == old(self).contents[j]);
                    }
                }
                assert forall|a: int, b: int| 0 <= a < b < self.paths.len() implies self.paths[a]@
                    != self.paths[b]@ by {
                    if b == n {
                        assert(old(self).files@.contains_key(old(self).paths[a]@));
                    }
                }
                assert forall|k: Seq<char>| #[trigger] self.files@.contains_key(k) implies exists|j: int|
                    0 <= j < self.paths.len() && self.paths[j]@ == k by {
                    if k != path@ {
                        assert(old(self).files@.contains_key(k));
                        let j = choose|j: int| 0 <= j < old(self).paths.len() && old(self).paths[j]@ == k;
                        assert(self.paths[j]@ == k);
                    }
                }
            },
        }
    }

    /// Writes `body` at the start of the existing file at `path`, keeping the
    /// bytes past the end of `body`; a missing file is not created.
    pub fn overwrite(&mut self, path: &String, body: &Vec<u8>) -> (r: Result<(), FileError>)
        requires
            old(self).wf(),
        ensures
            final(self).wf(),
            old(self)@.contains_key(path@) ==> r is Ok && final(self)@ == old(self)@.insert(
                path@,
                overwrite_prefix(old(self)@[path@], body@),
            ),
            !old(self)@.contains_key(path@) ==> r == Err::<(), FileError>(FileError::NotFound)
                && final(self)@ == old(self)@,
    {
        match self.find(path) {
            Some(i) => {
                assert(self.files@.contains_key(self.paths[i as int]@));
                let new_content = overwrite_bytes(&self.contents[i], body);
                self.files = Ghost(self.files@.insert(path@, new_content@));
                self.contents[i] = new_content;
                assert forall|j: int| 0 <= j < self.paths.len() implies #[trigger] self.files@.contains_key(
                    self.paths[j]@) && self.files@[self.paths[j]@] == self.contents[j]@ by {
                    if j != i {
                        assert(old(self).files@.contains_key(old(self).paths[j]@));
                    }
                }
                assert forall|k: Seq<char>| #[trigger] self.files@.contains_key(k) implies exists|j: int|
                    0 <= j < self.paths.len() && self.paths[j]@ == k by {
                    if k != path@ {
                        assert(old(self).files@.contains_key(k));
                        let oj = choose|oj: int| 0 <= oj < old(self).paths.len() && old(self).paths[oj]@ == k;
                        assert(self.paths[oj]@ == k);
                    } else {
                        assert(self.paths[i as int]@ == k);
                    }
                }
                Ok(())
            },
            None => Err(FileError::NotFound),
        }
    }

    /// Deletes the file at `path`; a missing file is no error.
    pub fn remove(&mut self, path: &String)
        requires
            old(self).wf(),
        ensures
            final(self).wf(),
            final(self)@ == old(self)@.remove(path@),
    {
        match self.find(path) {
            Some(i) => {
                self.files = Ghost(self.files@.remove(path@));
                self.paths.remove(i);
                self.contents.remove(i);
                assert forall|j: int| 0 <= j < self.paths.len() implies #[trigger] self.files@.contains_key(
                    self.paths[j]@) && self.files@[self.paths[j]@] == self.contents[j]@ by {
                    if j < i {
                        assert(old(self).files@.contains_key(old(self).paths[j]@));
                        assert(old(self).paths[j]@ != old(self).paths[i as int]@);
                    } else {
                        assert(old(self).files@.contains_key(old(self).paths[j + 1]@));
                        assert(old(self).paths[j + 1]@ != old(self).paths[i as int]@);
                    }
                }
                assert forall|k: Seq<char>| #[trigger] self.files@.contains_key(k) implies exists|j: int|
                    0 <= j < self.paths.len() && self.paths[j]@ == k by {
                    assert(old(self).files@.contains_key(k));
                    let j = choose|j: int| 0 <= j < old(self).paths.len() && old(self).paths[j]@ == k;
                    assert(k != path@);
                    if j < i {
                        assert(self.paths@[j] == old(self).paths@[j]);
                        assert(self.paths[j]@ == k);
                    } else {
                        assert(j != i);
                        assert(self.paths@[j - 1] == old(self).paths@[j]);
                        assert(self.paths[j - 1]@ == k);
                    }
                    let w = if j < i { j } else { j - 1 };
                    assert(0 <= w < self.paths.len() && self.paths[w]@ == k);
                }
                assert forall|a: int, b: int| 0 <= a < b < self.paths.len() implies self.paths[a]@
                    != self.paths[b]@ by {
                    let oa = if a < i { a } else { a + 1 };
                    let ob = if b < i { b } else { b + 1 };
                    assert(self.paths[a] == old(self).paths[oa]);
                    assert(self.paths[b] == old(self).paths[ob]);
                }
            },
            None => {
                assert(self.files@.remove(path@) =~= self.files@);
            },
        }
    }

    /// Carries out one file operation and reports its outcome.
    pub fn execute(&mut self, op: &FileOp) -> (r: Result<Vec<u8>, FileError>)
        requires
            old(self).wf(),
        ensures
            final(self).wf(),
            (final(self)@, outcome_of(r)) == perform(old(self)@, op@),
    {
        match op {
            FileOp::Read { path } => self.read(path),
            FileOp::Overwrite { path, body } => match self.overwrite(path, body) {
                Ok(()) => Ok(Vec::new()),
                Err(e) => Err(e),
            },
            FileOp::CreateOrReplace { path, body } => {
                self.create_or_replace(path, body.clone());
                Ok(Vec::new())
            },
            FileOp::Remove { path } => {
                self.remove(path);
                Ok(Vec::new())
            },
            FileOp::Unsupported => Ok(Vec::new()),
        }
    }
}

/// `body` written over the start of `old`, with the bytes of `old` past the
/// end of `body` kept.
pub fn overwrite_bytes(old: &Vec<u8>, body: &Vec<u8>) -> (r: Vec<u8>)
    ensures
        r@ == overwrite_prefix(old@, body@),
{
    let mut r: Vec<u8> = Vec::new();
    let mut i: usize = 0;
    while i < body.len()
        invariant
            i <= body.len(),
            r@ == body@.subrange(0, i as int),
        decreases body.len() - i,
    {
        r.push(body[i]);
        i = i + 1;
    }
    assert(r@ =~= body@);
    if body.len() < old.len() {
        let mut j: usize = body.len();
        assert(r@ =~= body@ + old@.subrange(body.len() as int, j as int));
        while j < old.len()
            invariant
                body.len() <= j <= old.len(),
                r@ == body@ + old@.subrange(body.len() as int, j as int),
            decreases old.len() - j,
        {
            r.push(old[j]);
            j = j + 1;
            assert(r@ =~= body@ + old@.subrange(body.len() as int, j as int));
        }
    }
    assert(r@ =~= overwrite_prefix(old@, body@));
    r
}

} // verus!

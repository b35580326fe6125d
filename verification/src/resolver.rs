//! Finding a program among the directories of a search path.

use vstd::prelude::*;

verus! {

/// What the file system says of one path.
#[derive(Debug, Clone, Copy, PartialEq, Eq, Structural)]
pub struct PathFacts {
    /// Something is there.
    pub exists: bool,
    /// It is a regular file.
    pub is_file: bool,
    /// It is a directory.
    pub is_dir: bool,
    /// Its permission bits.
    pub mode: u32,
}

impl PathFacts {
    /// A regular file that somebody may execute: owner, group or others.
    pub open spec fn is_executable_file(self) -> bool {
        self.exists && self.is_file && self.mode & 0o111 != 0
    }

    /// A directory that is there.
    pub open spec fn is_directory(self) -> bool {
        self.exists && self.is_dir
    }

    /// Whether this is a regular file with an executable bit set.
    pub fn executable_file(&self) -> (b: bool)
        ensures
            b == self.is_executable_file(),
    {
        self.exists && self.is_file && self.mode & 0o111 != 0
    }

    /// Whether this is a directory that is there.
    pub fn directory(&self) -> (b: bool)
        ensures
            b == self.is_directory(),
    {
        self.exists && self.is_dir
    }
}

/// The place where one directory of the search path would hold the program.
#[derive(Debug, PartialEq, Eq)]
pub struct Candidate {
    /// The directory joined with the program's name.
    pub path: String,
    /// What was found there.
    pub facts: PathFacts,
}

/// The index of the first candidate that is an executable file.
pub open spec fn first_executable(candidates: Seq<Candidate>) -> Option<int>
    decreases candidates.len(),
{
    if candidates.len() == 0 {
        None
    } else if candidates.first().facts.is_executable_file() {
        Some(0)
    } else {
        match first_executable(candidates.drop_first()) {
            Some(i) => Some(i + 1),
            None => None,
        }
    }
}

/// The search finds an executable candidate before which none is executable,
/// or there is none at all: directories listed earlier take precedence.
pub proof fn lemma_first_executable(candidates: Seq<Candidate>)
    ensures
        match first_executable(candidates) {
            Some(i) => {
                &&& 0 <= i < candidates.len()
                &&& candidates[i].facts.is_executable_file()
                &&& forall|j: int| 0 <= j < i ==> !(#[trigger] candidates[j]).facts.is_executable_file()
            },
            None => forall|j: int|
                0 <= j < candidates.len() ==> !(#[trigger] candidates[j]).facts.is_executable_file(),
        },
    decreases candidates.len(),
{
    if candidates.len() > 0 && !candidates.first().facts.is_executable_file() {
        let rest = candidates.drop_first();
        lemma_first_executable(rest);
        match first_executable(rest) {
            Some(i) => {
                assert forall|j: int| 0 <= j < i + 1 implies !(#[trigger] candidates[j]).facts.is_executable_file() by {
                    if j > 0 {
                        assert(candidates[j] == rest[j - 1]);
                    }
                }
            },
            None => {
                assert forall|j: int| 0 <= j < candidates.len() implies !(#[trigger] candidates[j]).facts.is_executable_file() by {
                    if j > 0 {
                        assert(candidates[j] == rest[j - 1]);
                    }
                }
            },
        }
    }
}

/// An executable candidate before which none is executable is the one that
/// the search finds.
pub proof fn lemma_first_executable_is(candidates: Seq<Candidate>, i: int)
    requires
        0 <= i < candidates.len(),
        candidates[i].facts.is_executable_file(),
        forall|j: int| 0 <= j < i ==> !(#[trigger] candidates[j]).facts.is_executable_file(),
    ensures
        first_executable(candidates) == Some(i),
{
    lemma_first_executable(candidates);
}

/// Where the program is: the first candidate, in the order of the search
/// path, that exists, is a regular file and has an executable bit set.
pub fn resolve(candidates: &Vec<Candidate>) -> (found: Option<usize>)
    ensures
        match found {
            Some(i) => {
                &&& first_executable(candidates@) == Some(i as int)
                &&& i < candidates.len()
                &&& candidates[i as int].facts.is_executable_file()
                &&& forall|j: int|
                    0 <= j < i ==> !(#[trigger] candidates[j]).facts.is_executable_file()
            },
            None => {
                &&& first_executable(candidates@) is None
                &&& forall|j: int|
                    0 <= j < candidates.len() ==> !(#[trigger] candidates[j]).facts.is_executable_file()
            },
        },
{
    let mut i: usize = 0;
    while i < candidates.len()
        invariant
            i <= candidates.len(),
            forall|j: int| 0 <= j < i ==> !(#[trigger] candidates@[j]).facts.is_executable_file(),
        decreases candidates.len() - i,
    {
        if candidates[i].facts.executable_file() {
            proof {
                lemma_first_executable_is(candidates@, i as int);
            }
            return Some(i);
        }
        i = i + 1;
    }
    proof {
        lemma_first_executable(candidates@);
    }
    None
}

} // verus!

//! The project registry: the externally loaded, read-only mapping from
//! project identifier to display name and root directory, plus the optional
//! default identifier. It is loaded once before the dispatch loop starts and
//! never changes afterwards; a malformed registry must fail fast, which the
//! well-formedness check here decides.
use vstd::prelude::*;

use crate::bytes::{bytes_eq, clone_bytes};
use crate::sandbox::{is_absolute, is_absolute_path};

verus! {

/// One registered project.
pub struct Project {
    /// Unique identifier the channel peer names the project by.
    pub id: Vec<u8>,
    /// Human-readable display name.
    pub name: Vec<u8>,
    /// Absolute root directory that sandboxed writes may not escape.
    pub root: Vec<u8>,
}

/// The loaded registry.
pub struct Registry {
    pub projects: Vec<Project>,
    /// Identifier of the project a caller may treat as preselected.
    pub default_project: Option<Vec<u8>>,
}

impl Registry {
    /// Some project carries this identifier.
    pub open spec fn has_project(self, id: Seq<u8>) -> bool {
        exists|i: int| 0 <= i < self.projects@.len() && self.projects@[i].id@ == id
    }

    /// No two projects share an identifier.
    pub open spec fn ids_unique(self) -> bool {
        forall|i: int, j: int|
            0 <= i < j < self.projects@.len() ==> self.projects@[i].id@ != self.projects@[j].id@
    }

    /// Every root directory is an absolute path.
    pub open spec fn roots_absolute(self) -> bool {
        forall|i: int| 0 <= i < self.projects@.len() ==> is_absolute(#[trigger] self.projects@[i].root@)
    }

    /// The registry invariant: unique identifiers, absolute roots. A loaded
    /// configuration that violates it must never reach the dispatch loop.
    pub open spec fn wf(self) -> bool {
        self.ids_unique() && self.roots_absolute()
    }

    /// Machine limit: every root, extended by `extra` bytes, still fits in a
    /// vector's length.
    pub open spec fn roots_fit(self, extra: nat) -> bool {
        forall|i: int|
            0 <= i < self.projects@.len() ==> (#[trigger] self.projects@[i]).root@.len() + extra
                <= usize::MAX
    }

    /// Looks the identifier up, returning the one project that carries it.
    pub fn lookup(&self, id: &Vec<u8>) -> (r: Option<&Project>)
        ensures
            match r {
                Some(p) => exists|i: int|
                    0 <= i < self.projects@.len() && self.projects@[i] == *p && p.id@ == id@,
                None => !self.has_project(id@),
            },
    {
        let mut i: usize = 0;
        while i < self.projects.len()
            invariant
                i <= self.projects@.len(),
                forall|j: int| 0 <= j < i ==> self.projects@[j].id@ != id@,
            decreases self.projects@.len() - i,
        {
            if bytes_eq(&self.projects[i].id, id) {
                return Some(&self.projects[i]);
            }
            i = i + 1;
        }
        None
    }

    /// Decides the registry invariant, so a malformed configuration can fail
    /// fast before the dispatch loop starts.
    pub fn check(&self) -> (r: bool)
        ensures
            r == self.wf(),
    {
        let mut i: usize = 0;
        while i < self.projects.len()
            invariant
                i <= self.projects@.len(),
                forall|a: int, b: int|
                    0 <= a < b < self.projects@.len() && a < i ==> self.projects@[a].id@
                        != self.projects@[b].id@,
                forall|a: int| 0 <= a < i ==> is_absolute(#[trigger] self.projects@[a].root@),
            decreases self.projects@.len() - i,
        {
            if !is_absolute_path(&self.projects[i].root) {
                return false;
            }
            let mut j: usize = i + 1;
            while j < self.projects.len()
                invariant
                    i < j <= self.projects@.len(),
                    forall|b: int| i < b < j ==> self.projects@[i as int].id@ != self.projects@[b].id@,
                decreases self.projects@.len() - j,
            {
                if bytes_eq(&self.projects[i].id, &self.projects[j].id) {
                    return false;
                }
                j = j + 1;
            }
            i = i + 1;
        }
        true
    }
}

/// Picks the configuration file location: the first candidate that exists on
/// disk, and the designated fallback when none does. `exists[i]` says whether
/// `candidates[i]` exists.
pub fn pick_config_path(candidates: &Vec<Vec<u8>>, exists_flags: &Vec<bool>, fallback: &Vec<u8>) -> (r:
    Vec<u8>)
    requires
        candidates@.len() == exists_flags@.len(),
    ensures
        (exists|i: int| 0 <= i < exists_flags@.len() && exists_flags@[i]) ==> exists|i: int|
            0 <= i < exists_flags@.len() && exists_flags@[i] && r@ == candidates@[i]@ && (forall|j: int|
                0 <= j < i ==> !exists_flags@[j]),
        (forall|i: int| 0 <= i < exists_flags@.len() ==> !exists_flags@[i]) ==> r@ == fallback@,
{
    let mut i: usize = 0;
    while i < candidates.len()
        invariant
            candidates@.len() == exists_flags@.len(),
            i <= candidates@.len(),
            forall|j: int| 0 <= j < i ==> !exists_flags@[j],
        decreases candidates@.len() - i,
    {
        if exists_flags[i] {
            return clone_bytes(&candidates[i]);
        }
        i = i + 1;
    }
    clone_bytes(fallback)
}

} // verus!

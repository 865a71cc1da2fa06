//! Path resolution and the write sandbox.
//!
//! Paths are UTF-8 bytes with `/` as the separator. Resolution first applies
//! a weak normalization (one leading `/` and one leading `../` are stripped),
//! joins the result under the project root, and then requires authoritative
//! proof of containment: the canonical form of the target — or of its nearest
//! existing ancestor when the target does not exist yet — must be a
//! descendant of the root. Normalization is defensive only; the canonical
//! check is what decides.
use vstd::prelude::*;

use crate::bytes::{bytes_eq, clone_bytes, starts_with_bytes, suffix_bytes};
use crate::protocol::{Response, SaveError, is_save_failure};

verus! {

/// The byte of the path separator `/`.
pub const SEPARATOR: u8 = 47;

/// The byte of `.`.
pub const DOT: u8 = 46;

/// An absolute path: nonempty and rooted at the separator.
pub open spec fn is_absolute(p: Seq<u8>) -> bool {
    p.len() > 0 && p[0] == SEPARATOR
}

/// `p` with one leading separator removed.
pub open spec fn strip_leading_slash(p: Seq<u8>) -> Seq<u8> {
    if p.len() > 0 && p[0] == SEPARATOR {
        p.skip(1)
    } else {
        p
    }
}

/// `p` with one leading `../` removed.
pub open spec fn strip_leading_parent(p: Seq<u8>) -> Seq<u8> {
    if p.len() >= 3 && p[0] == DOT && p[1] == DOT && p[2] == SEPARATOR {
        p.skip(3)
    } else {
        p
    }
}

/// The weak normalization applied to a relative path before joining: one
/// leading separator, then one leading `../`, are stripped.
pub open spec fn sanitized(p: Seq<u8>) -> Seq<u8> {
    strip_leading_parent(strip_leading_slash(p))
}

/// `rel` joined under `root`, with exactly one separator between them.
pub open spec fn joined(root: Seq<u8>, rel: Seq<u8>) -> Seq<u8> {
    if root.len() > 0 && root[root.len() - 1] == SEPARATOR {
        root + rel
    } else {
        root + seq![SEPARATOR] + rel
    }
}

/// Containment of canonical paths: `p` is the root itself, or extends it at
/// a component boundary.
pub open spec fn is_within(root: Seq<u8>, p: Seq<u8>) -> bool {
    p == root || (p.len() > root.len() && p.subrange(0, root.len() as int) == root && p[root.len() as int]
        == SEPARATOR)
}

/// True exactly when the path is absolute.
pub fn is_absolute_path(p: &Vec<u8>) -> (r: bool)
    ensures
        r == is_absolute(p@),
{
    p.len() > 0 && p[0] == SEPARATOR
}

/// Applies the weak normalization to a relative path.
pub fn sanitize_rel_path(p: &Vec<u8>) -> (r: Vec<u8>)
    ensures
        r@ == sanitized(p@),
{
    let mut start: usize = 0;
    if p.len() > 0 && p[0] == SEPARATOR {
        start = 1;
    }
    proof {
        assert(p@.skip(start as int) =~= strip_leading_slash(p@));
    }
    if p.len() - start >= 3 && p[start] == DOT && p[start + 1] == DOT && p[start + 2]
        == SEPARATOR {
        proof {
            assert(p@.skip(start as int + 3) =~= strip_leading_slash(p@).skip(3));
        }
        start = start + 3;
    }
    suffix_bytes(p, start)
}

/// Joins a relative path under a root with exactly one separator.
pub fn join_under_root(root: &Vec<u8>, rel: &Vec<u8>) -> (r: Vec<u8>)
    requires
        root@.len() + rel@.len() + 1 <= usize::MAX,
    ensures
        r@ == joined(root@, rel@),
{
    let mut r = clone_bytes(root);
    if root.len() == 0 || root[root.len() - 1] != SEPARATOR {
        r.push(SEPARATOR);
    }
    crate::bytes::append_bytes(&mut r, rel);
    proof {
        assert(r@ =~= joined(root@, rel@));
    }
    r
}

/// True exactly when canonical path `p` is contained in canonical `root`.
pub fn path_is_within(root: &Vec<u8>, p: &Vec<u8>) -> (r: bool)
    ensures
        r == is_within(root@, p@),
{
    if p.len() == root.len() {
        bytes_eq(p, root)
    } else if p.len() > root.len() {
        starts_with_bytes(p, root) && p[root.len()] == SEPARATOR
    } else {
        false
    }
}

/// What canonicalization could establish about a save target before the
/// write: the canonical form of the target itself when it exists, of its
/// nearest existing ancestor otherwise, or nothing when no ancestor exists
/// yet.
pub enum CanonicalEvidence {
    /// The target exists; this is its canonical form.
    Target(Vec<u8>),
    /// The target does not exist; this is the canonical form of its nearest
    /// existing ancestor.
    Parent(Vec<u8>),
    /// No ancestor of the target exists yet, so containment is not checkable.
    NoExistingAncestor,
}

/// Whether the gathered evidence allows the write to proceed.
pub open spec fn evidence_allows(root: Seq<u8>, ev: CanonicalEvidence) -> bool {
    match ev {
        CanonicalEvidence::Target(c) => is_within(root, c@),
        CanonicalEvidence::Parent(c) => is_within(root, c@),
        CanonicalEvidence::NoExistingAncestor => true,
    }
}

/// Decides containment from canonical evidence.
pub fn containment_allows(root: &Vec<u8>, ev: &CanonicalEvidence) -> (r: bool)
    ensures
        r == evidence_allows(root@, *ev),
{
    match ev {
        CanonicalEvidence::Target(c) => path_is_within(root, c),
        CanonicalEvidence::Parent(c) => path_is_within(root, c),
        CanonicalEvidence::NoExistingAncestor => true,
    }
}

/// Absolute-mode resolution: the caller's path is taken as is, and the one
/// check is that it really is absolute. A relative path is always refused
/// with `NotAbsolute`, so the write location can never depend on the
/// process's working directory.
pub fn resolve_absolute(path: &Vec<u8>) -> (r: Result<Vec<u8>, SaveError>)
    ensures
        r is Ok <==> is_absolute(path@),
        r matches Ok(p) ==> p@ == path@,
        r matches Err(e) ==> e == SaveError::NotAbsolute,
{
    if is_absolute_path(path) {
        Ok(clone_bytes(path))
    } else {
        Err(SaveError::NotAbsolute)
    }
}

/// The response that refuses a save for the given reason.
pub fn save_rejection(e: SaveError) -> (r: Response)
    ensures
        is_save_failure(r, e),
{
    Response::SaveResult { success: false, full_path: None, error: Some(e) }
}

/// Law: the joined candidate path always lies textually under the root; an
/// escape can only arise from `..` segments or links inside it, which
/// canonicalization resolves and the containment check then refuses.
pub proof fn lemma_joined_path_is_within_root(root: Seq<u8>, rel: Seq<u8>)
    requires
        root.len() > 0,
        root[root.len() - 1] != SEPARATOR,
    ensures
        is_within(root, joined(root, rel)),
{
    let p = joined(root, rel);
    assert(p.subrange(0, root.len() as int) =~= root);
}

/// Law: evidence whose canonical path lies outside the root never allows the
/// write, whichever of the target or its nearest existing ancestor the
/// evidence speaks of.
pub proof fn lemma_escaping_evidence_refused(root: Seq<u8>, ev: CanonicalEvidence)
    ensures
        match ev {
            CanonicalEvidence::Target(c) => !is_within(root, c@) ==> !evidence_allows(root, ev),
            CanonicalEvidence::Parent(c) => !is_within(root, c@) ==> !evidence_allows(root, ev),
            CanonicalEvidence::NoExistingAncestor => evidence_allows(root, ev),
        },
{
}

} // verus!

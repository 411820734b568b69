//! Selection filter for files about to be sent.
//!
//! Only regular, non-empty files that are not already in the selection are
//! added.  The caller reads each candidate's kind and size from disk and
//! hands them over as plain [`CandidateFile`] records.

use vstd::prelude::*;

verus! {

/// One file offered for sending: its display name, whether it is a regular
/// file, and its size in bytes.
#[derive(Debug)]
pub struct CandidateFile {
    /// Display name that identifies the file in the selection.
    pub name: String,
    /// Whether the path is a regular file (not a directory or special file).
    pub is_regular: bool,
    /// File size in bytes.
    pub size: usize,
}

/// Whether a candidate survives the kind and size checks: it must be a
/// regular file and not empty (the engine expects file contents).
pub open spec fn passes_type_filters(c: CandidateFile) -> bool {
    c.is_regular && c.size != 0
}

/// Whether `name` is already in the selection.
pub open spec fn name_included(existing: Seq<String>, name: Seq<char>) -> bool {
    exists|i: int| 0 <= i < existing.len() && #[trigger] existing[i]@ == name
}

/// The names that the filter adds: candidates that pass the kind and size
/// checks and are not in the selection yet, in their original order.
pub open spec fn filtered_names(existing: Seq<String>, cs: Seq<CandidateFile>) -> Seq<String>
    decreases cs.len(),
{
    if cs.len() == 0 {
        Seq::empty()
    } else {
        let rest = filtered_names(existing, cs.drop_last());
        let c = cs.last();
        if passes_type_filters(c) && !name_included(existing, c.name@) {
            rest.push(c.name)
        } else {
            rest
        }
    }
}

/// How many candidates pass the kind and size checks but are already in
/// the selection.
pub open spec fn already_included_count(existing: Seq<String>, cs: Seq<CandidateFile>) -> nat
    decreases cs.len(),
{
    if cs.len() == 0 {
        0
    } else {
        let rest = already_included_count(existing, cs.drop_last());
        let c = cs.last();
        if passes_type_filters(c) && name_included(existing, c.name@) {
            (rest + 1) as nat
        } else {
            rest
        }
    }
}

/// Whether `name` is already in the selection.
fn is_name_included(existing: &Vec<String>, name: &String) -> (r: bool)
    ensures
        r == name_included(existing@, name@),
{
    let n: usize = existing.len();
    let mut i: usize = 0;
    while i < n
        invariant
            i <= n,
            n == existing@.len(),
            forall|j: int| 0 <= j < i ==> #[trigger] existing@[j]@ != name@,
        decreases n - i,
    {
        if existing[i] == *name {
            return true;
        }
        i = i + 1;
    }
    false
}

/// Filters the candidates down to the names worth adding — regular,
/// non-empty files not yet in the selection — and reports whether every
/// regular, non-empty candidate was already in the selection (then the
/// request as a whole is a duplicate and nothing needs to change).
pub fn filter_added_files(existing: &Vec<String>, files: Vec<CandidateFile>) -> (r: (
    Vec<String>,
    bool,
))
    ensures
        r.0@ == filtered_names(existing@, files@),
        r.1 == (already_included_count(existing@, files@) == files@.len()),
{
    let n: usize = files.len();
    let mut kept: Vec<String> = Vec::new();
    let mut already: usize = 0;
    let mut i: usize = 0;
    while i < n
        invariant
            i <= n,
            n == files@.len(),
            kept@ == filtered_names(existing@, files@.take(i as int)),
            already == already_included_count(existing@, files@.take(i as int)),
            already <= i,
        decreases n - i,
    {
        proof {
            assert(files@.take(i + 1).drop_last() =~= files@.take(i as int));
            assert(files@.take(i + 1).last() == files@[i as int]);
        }
        let c = &files[i];
        if c.is_regular && c.size != 0 {
            if is_name_included(existing, &c.name) {
                already = already + 1;
            } else {
                kept.push(c.name.clone());
            }
        }
        i = i + 1;
    }
    proof {
        assert(files@.take(n as int) =~= files@);
        lemma_already_included_at_most(existing@, files@);
    }
    let is_already_in_model: bool = already == n;
    (kept, is_already_in_model)
}

/// At most every candidate can be an already-included duplicate.
proof fn lemma_already_included_at_most(existing: Seq<String>, cs: Seq<CandidateFile>)
    ensures
        already_included_count(existing, cs) <= cs.len(),
    decreases cs.len(),
{
    if cs.len() > 0 {
        lemma_already_included_at_most(existing, cs.drop_last());
    }
}

} // verus!

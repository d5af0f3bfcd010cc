//! The helper-function registry interface: which helper identifiers a
//! program may call.
//!
//! A request may carry an explicit allowed-helper list; when it does, that
//! list is authoritative.  When it carries none — as a request rebuilt from
//! the fixed IPC header does — the standard set of helpers is allowed, the
//! same full set the long-running worker registers.  The request's preset
//! bytes (`helper_set`, `helper_indices`) are carried through on the wire
//! for ingress paths that use them; their expansion into concrete presets
//! belongs to the host's registry, which is outside this library.

use vstd::prelude::*;

verus! {

/// How many helpers the standard registry holds.
pub const STANDARD_HELPER_COUNT: usize = 24;

/// The identifiers of the standard helper set: 1 through the registry size.
pub open spec fn spec_all_helpers() -> Seq<u8> {
    Seq::new(STANDARD_HELPER_COUNT as nat, |i: int| (i + 1) as u8)
}

/// The standard helper set, as a list.
pub fn all_helpers() -> (r: Vec<u8>)
    ensures
        r@ == spec_all_helpers(),
{
    let mut out: Vec<u8> = Vec::new();
    let mut id: usize = 1;
    while id <= STANDARD_HELPER_COUNT
        invariant
            1 <= id <= STANDARD_HELPER_COUNT + 1,
            out@.len() == id - 1,
            forall|i: int| 0 <= i < out@.len() ==> out@[i] == i + 1,
        decreases STANDARD_HELPER_COUNT + 1 - id,
    {
        out.push(id as u8);
        id += 1;
    }
    assert(out@ =~= spec_all_helpers());
    out
}

/// The helpers a request actually allows: its explicit list where it has
/// one, the standard set otherwise.
pub open spec fn spec_effective_helpers(explicit: Seq<u8>) -> Seq<u8> {
    if explicit.len() > 0 {
        explicit
    } else {
        spec_all_helpers()
    }
}

/// Resolves a request's allowed-helper list: the explicit list is
/// authoritative when non-empty; an empty list means the standard set.
pub fn effective_helpers(explicit: &Vec<u8>) -> (r: Vec<u8>)
    ensures
        r@ == spec_effective_helpers(explicit@),
{
    if explicit.len() > 0 {
        vstd::slice::slice_to_vec(explicit.as_slice())
    } else {
        all_helpers()
    }
}

} // verus!

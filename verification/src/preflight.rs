//! Pre-flight helper-access verification.
//!
//! Before a program runs, every call instruction in its bytecode is
//! inspected: the program is rejected if any call targets a helper whose
//! identifier is not in the allowed set carried by the request.  The check
//! runs only in pre-flight mode; in deferred mode an unknown helper traps at
//! the call site instead.

use vstd::prelude::*;
use crate::relocation::spec_u32_le;

verus! {

/// The opcode of the eBPF call instruction; when its source-register nibble
/// is zero, its 32-bit immediate names a helper.
pub const CALL_OPCODE: u8 = 0x85;

/// Whether an instruction boundary `i` of the program holds a helper call:
/// the call opcode with a zero source-register nibble (the instruction's
/// second byte carries the source register in its high nibble; a source
/// register of one marks a call to another eBPF function, whose immediate
/// is a code offset, not a helper identifier).
pub open spec fn spec_is_call_at(prog: Seq<u8>, i: int) -> bool {
    &&& 0 <= i
    &&& i % 8 == 0
    &&& i + 8 <= prog.len()
    &&& prog[i] == CALL_OPCODE
    &&& prog[i + 1] < 16
}

/// The helper identifiers the program calls.
pub open spec fn spec_called_helpers(prog: Seq<u8>) -> Set<u32> {
    Set::new(
        |id: u32| exists|i: int| spec_is_call_at(prog, i) && spec_u32_le(prog, i + 4) == id,
    )
}

/// Whether the allowed list contains the helper identifier.
pub open spec fn spec_helper_allowed(allowed: Seq<u8>, id: u32) -> bool {
    exists|j: int| 0 <= j < allowed.len() && (allowed[j] as u32) == id
}

/// The allowed list as a set of 32-bit helper identifiers.
pub open spec fn spec_allowed_set(allowed: Seq<u8>) -> Set<u32> {
    Set::new(|id: u32| spec_helper_allowed(allowed, id))
}

/// Whether the allowed list contains the helper identifier.
fn helper_allowed(allowed: &Vec<u8>, id: u32) -> (r: bool)
    ensures
        r == spec_helper_allowed(allowed@, id),
{
    let mut j: usize = 0;
    while j < allowed.len()
        invariant
            j <= allowed@.len(),
            forall|k: int| 0 <= k < j ==> (allowed@[k] as u32) != id,
        decreases allowed@.len() - j,
    {
        if (allowed[j] as u32) == id {
            return true;
        }
        j += 1;
    }
    false
}

/// Checks every call instruction of the program against the allowed set.
/// Succeeds exactly when each called helper is allowed; on failure reports
/// the identifier of the first offending call.
pub fn check_helper_access(prog: &Vec<u8>, allowed: &Vec<u8>) -> (r: Result<(), u32>)
    ensures
        r is Ok <==> (forall|i: int|
            spec_is_call_at(prog@, i) ==> spec_helper_allowed(allowed@, spec_u32_le(prog@, i + 4))),
        r matches Err(id) ==> !spec_helper_allowed(allowed@, id) && spec_called_helpers(
            prog@,
        ).contains(id),
{
    let n = prog.len();
    let mut i: usize = 0;
    while n - i >= 8
        invariant
            n == prog@.len(),
            i <= n,
            i % 8 == 0,
            forall|k: int|
                spec_is_call_at(prog@, k) && k < i ==> spec_helper_allowed(
                    allowed@,
                    spec_u32_le(prog@, k + 4),
                ),
        decreases n - i,
    {
        if prog[i] == CALL_OPCODE && prog[i + 1] < 16 {
            let id = crate::relocation::read_u32_le(prog, i + 4);
            if !helper_allowed(allowed, id) {
                assert(spec_is_call_at(prog@, i as int));
                assert(spec_called_helpers(prog@).contains(id));
                return Err(id);
            }
        }
        i += 8;
    }
    assert forall|k: int| spec_is_call_at(prog@, k) implies spec_helper_allowed(
        allowed@,
        spec_u32_le(prog@, k + 4),
    ) by {
        assert(k < i);
    }
    Ok(())
}

/// A program that passes the pre-flight check calls only allowed helpers:
/// the allowed set is a superset of every helper the program's call
/// instructions name.
pub proof fn lemma_preflight_superset(prog: Seq<u8>, allowed: Seq<u8>)
    requires
        forall|i: int|
            spec_is_call_at(prog, i) ==> spec_helper_allowed(allowed, spec_u32_le(prog, i + 4)),
    ensures
        spec_called_helpers(prog).subset_of(spec_allowed_set(allowed)),
{
    assert forall|id: u32| spec_called_helpers(prog).contains(id) implies spec_allowed_set(
        allowed,
    ).contains(id) by {
        let i = choose|i: int| spec_is_call_at(prog, i) && spec_u32_le(prog, i + 4) == id;
        assert(spec_helper_allowed(allowed, spec_u32_le(prog, i + 4)));
    }
}

} // verus!

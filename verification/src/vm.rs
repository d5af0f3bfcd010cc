//! The virtual-machine back-ends and the execution pipeline.
//!
//! A request selects one of three back-ends: the rBPF bytecode interpreter,
//! the rBPF just-in-time compiler (which needs an exclusive slot of the JIT
//! arena), or the native fall-back container VM that lives outside this
//! library.  Every back-end runs the same pipeline: resolve relocations,
//! initialize, verify, execute.  Steps that only decide and transform bytes
//! are verified here; the rBPF calls stand behind trusted wrappers, and work
//! only the host can do — invoking compiled native code, or the fall-back
//! VM — is handed back to the caller as an explicit host call.

use vstd::prelude::*;
use crate::config::{
    BinaryFileLayout, HelperAccessListSource, HelperAccessVerification, TargetVM, VMConfiguration,
};
use crate::jit_storage::{JitProgramStorage, JitSlotModel, spec_free_slot, JIT_SLOT_SIZE};
use crate::preflight::{check_helper_access, spec_helper_allowed, spec_is_call_at};
use crate::relocation::{elf_model_of, resolve_relocations, spec_resolved, spec_text_usable, spec_u32_le};
use crate::textfmt::{spec_decimal_nat, u64_to_decimal};

verus! {

/// Whether the rBPF verifier accepts the program: its structural check is a
/// pure function of the bytecode, and this name stands for its verdict.
pub uninterp spec fn rbpf_accepts(prog: Seq<u8>) -> bool;

/// The helper installed for every allowed identifier.  The device's real
/// helper implementations live in the host's registry, outside this
/// library, and cannot be registered through it: the library's own VMs
/// resolve every allowed call to this stub, so a program that computes with
/// helper results gets zeros where the device's helpers would answer.
pub fn stub_helper(a1: u64, a2: u64, a3: u64, a4: u64, a5: u64) -> (r: u64)
    ensures
        r == 0,
{
    let _ = (a1, a2, a3, a4, a5);
    0
}

/// Relies on `rbpf::EbpfVmMbuff::new`: creating a VM runs the rBPF verifier
/// over the program, a structural check of the bytecode alone, and fails
/// exactly when that check rejects it.
#[verifier::external_body]
fn rbpf_check_program(prog: &[u8]) -> (r: Result<(), String>)
    ensures
        (r is Ok) == rbpf_accepts(prog@),
{
    rbpf::EbpfVmMbuff::new(Some(prog)).map(|_| ()).map_err(|e| format!("Error: {:?}", e))
}

/// The opcode of the eBPF exit instruction.
pub const EXIT_OPCODE: u8 = 0x95;

/// Whether the program's last instruction slot holds an exit instruction.
/// rbpf's own check only asks for a jump-class opcode there, which admits
/// programs whose final conditional branch falls off the end — and the
/// interpreter aborts on that path instead of returning.  A trailing exit
/// closes it: accepted programs have every jump target in range and every
/// 16-byte load's second half marked, so control can only leave through the
/// exit.
pub open spec fn spec_ends_with_exit(prog: Seq<u8>) -> bool {
    &&& prog.len() >= 8
    &&& prog.len() % 8 == 0
    &&& prog[prog.len() - 8] == EXIT_OPCODE
}

/// Whether the program's last instruction slot holds an exit instruction.
fn ends_with_exit(prog: &Vec<u8>) -> (r: bool)
    ensures
        r == spec_ends_with_exit(prog@),
{
    let n = prog.len();
    n >= 8 && n % 8 == 0 && prog[n - 8] == EXIT_OPCODE
}

/// The largest program handed to the interpreter, in bytes: 32767
/// instructions.  The interpreter computes jump targets in 16-bit
/// arithmetic over instruction indexes, so a taken jump at any index above
/// 32767 wraps and aborts instead of failing; rbpf's own length cap is far
/// wider (a million instructions).
pub const RBPF_INTERPRETER_PROGRAM_CAP: usize = 262136;

/// Whether instruction boundary `i` holds a call into another eBPF
/// function: the call opcode with source-register nibble one.
pub open spec fn spec_is_local_call_at(prog: Seq<u8>, i: int) -> bool {
    &&& 0 <= i
    &&& i % 8 == 0
    &&& i + 8 <= prog.len()
    &&& prog[i] == crate::preflight::CALL_OPCODE
    &&& 16 <= prog[i + 1] < 32
}

/// Whether every call into another eBPF function points forward.  The
/// interpreter adds a local call's signed target offset to its unsigned
/// instruction pointer with wrap-around, which aborts under overflow checks
/// when the offset is negative — even for targets its structural check
/// approved — so backward local calls are kept away from it.
pub open spec fn spec_no_backward_local_calls(prog: Seq<u8>) -> bool {
    forall|i: int|
        spec_is_local_call_at(prog, i) ==> spec_u32_le(prog, i + 4) < 0x8000_0000
}

/// Whether every local call of the program points forward.
fn no_backward_local_calls(prog: &Vec<u8>) -> (r: bool)
    ensures
        r == spec_no_backward_local_calls(prog@),
{
    let n = prog.len();
    let mut i: usize = 0;
    while n - i >= 8
        invariant
            n == prog@.len(),
            i <= n,
            i % 8 == 0,
            forall|k: int|
                spec_is_local_call_at(prog@, k) && k < i ==> spec_u32_le(prog@, k + 4)
                    < 0x8000_0000,
        decreases n - i,
    {
        if prog[i] == crate::preflight::CALL_OPCODE && prog[i + 1] >= 16 && prog[i + 1] < 32 {
            let target = crate::relocation::read_u32_le(prog, i + 4);
            if target >= 0x8000_0000 {
                assert(spec_is_local_call_at(prog@, i as int));
                return false;
            }
        }
        i += 8;
    }
    assert forall|k: int| spec_is_local_call_at(prog@, k) implies spec_u32_le(prog@, k + 4)
        < 0x8000_0000 by {
        assert(k < i);
    }
    true
}

/// Relies on `rbpf::EbpfVmMbuff::{new, register_helper, execute_program}`,
/// taken as one step because the VM between the calls is opaque: creates the
/// VM (which runs the structural check), registers every helper, and
/// interprets the program against scratch copies of the given memory and
/// metadata buffer.  The copies matter: the interpreter lets the program
/// store into both buffers through raw pointers, so handing it the caller's
/// slices would mutate what this signature declares shared; the copies keep
/// the caller's bytes what they were.  Nothing is assumed of the outcome:
/// the program may compute from buffer addresses.  The preconditions keep
/// the interpreter away from its aborting paths — falling past the last
/// instruction, 16-bit jump-index wrap-around, and backward local calls —
/// which abort rather than fail: for any program the structural check lets
/// through to execution, jump targets stay inside the program, and a
/// trailing exit instruction then ends every run.
#[verifier::external_body]
fn rbpf_interpret(prog: &[u8], helpers: &[u8], mem: &[u8], mbuff: &[u8]) -> (r: Result<
    u64,
    String,
>)
    requires
        spec_ends_with_exit(prog@),
        prog@.len() <= RBPF_INTERPRETER_PROGRAM_CAP,
        spec_no_backward_local_calls(prog@),
    ensures
        !rbpf_accepts(prog@) ==> r is Err,
{
    let mut vm = rbpf::EbpfVmMbuff::new(Some(prog)).map_err(|e| format!("Error: {:?}", e))?;
    for id in helpers {
        vm.register_helper(*id as u32, stub_helper).map_err(|e| format!("Error: {:?}", e))?;
    }
    let mem_scratch = mem.to_vec();
    let mbuff_scratch = mbuff.to_vec();
    vm.execute_program(&mem_scratch, &mbuff_scratch).map_err(|e| format!("Error: {:?}", e))
}

/// Whether rbpf's just-in-time compiler accepts the program with the given
/// helper identifiers registered: the verdict is a function of the two
/// alone, and this name stands for it.
pub uninterp spec fn rbpf_jit_ok(prog: Seq<u8>, helpers: Seq<u8>) -> bool;

/// The largest program handed to the JIT, in bytes.  rbpf's emitter writes
/// into a single fixed 4096-byte page and aborts, rather than failing, when
/// the page overflows.  Its widest translation is the 64-bit register
/// division / modulo sequence at under 64 native bytes per eBPF instruction,
/// and prologue plus epilogue stay under 128 bytes, so 60 instructions —
/// 480 bytecode bytes — always fit the page.
pub const RBPF_JIT_PROGRAM_CAP: usize = 480;

/// Relies on `rbpf::EbpfVmMbuff::{new, register_helper, jit_compile}`, taken
/// as one step because the compilation verdict is a function of the program
/// and helper list alone and must be stated over them (the VM between the
/// calls is opaque): creates the VM, registers every helper, compiles.
/// Succeeds exactly when rbpf's structural check and its JIT both accept.
/// The input cap keeps the emitter inside its fixed page (see
/// [`RBPF_JIT_PROGRAM_CAP`]), whose overflow would abort.
#[verifier::external_body]
fn rbpf_jit_compile_program(prog: &[u8], helpers: &[u8]) -> (r: Result<(), String>)
    requires
        prog@.len() <= RBPF_JIT_PROGRAM_CAP,
    ensures
        (r is Ok) == rbpf_jit_ok(prog@, helpers@),
        r is Ok ==> rbpf_accepts(prog@),
{
    let mut vm = rbpf::EbpfVmMbuff::new(Some(prog)).map_err(|e| format!("Error: {:?}", e))?;
    for id in helpers {
        vm.register_helper(*id as u32, stub_helper).map_err(|e| format!("Error: {:?}", e))?;
    }
    vm.jit_compile().map_err(|e| format!("Error: {:?}", e))
}

/// Work only the host can perform, handed back by the pipeline.
#[derive(Clone, Copy, PartialEq, Eq, Structural, Debug)]
pub enum HostCall {
    /// Invoke the compiled program held in the given JIT slot, entering at
    /// the given offset — with the incoming packet as its input for a
    /// packet-bound run, with empty buffers otherwise.
    InvokeJitProgram { slot: usize, text_offset: usize, with_packet: bool },
    /// Run the program on the native fall-back container VM.
    InvokeNativeFallback,
}

/// What running the pipeline produced: a finished result, or a host call the
/// caller must perform before finishing through
/// [`VirtualMachine::finish_host_call`].
pub enum RunOutcome {
    Done(Result<u64, String>),
    Host(HostCall),
}

/// The message given when a helper call names an identifier outside the
/// allowed set.
pub open spec fn spec_helper_access_error(id: u32) -> Seq<char> {
    "Error when checking helper function access, helper id: "@ + spec_decimal_nat(id as int)
}

/// Formats the helper-access failure message for the offending identifier.
fn helper_access_error(id: u32) -> (r: String)
    ensures
        r@ == spec_helper_access_error(id),
{
    let mut s = String::from_str("Error when checking helper function access, helper id: ");
    let digits = u64_to_decimal(id as u64);
    s.append(digits.as_str());
    assert(s@ =~= spec_helper_access_error(id));
    s
}

/// Whether a program passes verification for the given mode and allowed
/// list: the rBPF structural check, and in pre-flight mode the helper-access
/// check on every call instruction.
pub open spec fn spec_verifies(
    prog: Seq<u8>,
    allowed: Seq<u8>,
    mode: HelperAccessVerification,
) -> bool {
    &&& rbpf_accepts(prog)
    &&& (mode == HelperAccessVerification::PreFlight ==> (forall|i: int|
        spec_is_call_at(prog, i) ==> spec_helper_allowed(allowed, spec_u32_le(prog, i + 4))))
}

/// Whether the interpreter can run the program at all: it verifies, ends in
/// an exit instruction, fits the interpreter's jump-index range, and makes
/// no backward local call.  A program failing any of these is answered with
/// an error, never run.
pub open spec fn spec_interpretable(
    t: Seq<u8>,
    allowed: Seq<u8>,
    mode: HelperAccessVerification,
) -> bool {
    &&& spec_verifies(t, allowed, mode)
    &&& spec_ends_with_exit(t)
    &&& t.len() <= RBPF_INTERPRETER_PROGRAM_CAP
    &&& spec_no_backward_local_calls(t)
}

/// Runs the structural and helper-access verification of one program.
/// Succeeds exactly when the program verifies under the given mode.
fn verify_program(
    program: &Vec<u8>,
    allowed: &Vec<u8>,
    mode: HelperAccessVerification,
) -> (r: Result<(), String>)
    ensures
        (r is Ok) == spec_verifies(program@, allowed@, mode),
{
    match rbpf_check_program(program.as_slice()) {
        Ok(()) => (),
        Err(e) => {
            return Err(e);
        },
    }
    if mode == HelperAccessVerification::PreFlight {
        match check_helper_access(program, allowed) {
            Ok(()) => (),
            Err(id) => {
                return Err(helper_access_error(id));
            },
        }
    }
    Ok(())
}

/// The rBPF interpreter back-end: executes the bytecode directly, bound to
/// the allowed helpers.
pub struct RbpfVm {
    pub layout: BinaryFileLayout,
    pub allowed_helpers: Vec<u8>,
    pub helper_access_verification: HelperAccessVerification,
    pub program_length: usize,
}

impl RbpfVm {
    pub fn new(config: VMConfiguration, allowed_helpers: Vec<u8>) -> (r: RbpfVm)
        ensures
            r.layout == config.binary_layout,
            r.allowed_helpers@ == allowed_helpers@,
            r.helper_access_verification == config.helper_access_verification,
            r.program_length == 0,
    {
        RbpfVm {
            layout: config.binary_layout,
            allowed_helpers,
            helper_access_verification: config.helper_access_verification,
            program_length: 0,
        }
    }

    /// Interprets the program against the given memory buffer.  The program
    /// must pass the rBPF structural check to load at all, and to run at
    /// all it must end in an exit instruction, fit the interpreter's
    /// jump-index range, and make no backward local calls; the result is
    /// the program's, and nothing is promised of it.
    fn execute_with_mem(&self, program: &Vec<u8>, mem: &[u8]) -> (r: Result<u64, String>)
        ensures
            !rbpf_accepts(program@) ==> r is Err,
            !spec_ends_with_exit(program@) ==> r is Err,
            program@.len() > RBPF_INTERPRETER_PROGRAM_CAP ==> r is Err,
            !spec_no_backward_local_calls(program@) ==> r is Err,
    {
        if !ends_with_exit(program) {
            return Err(String::from_str("The program does not end with an EXIT instruction"));
        }
        if program.len() > RBPF_INTERPRETER_PROGRAM_CAP {
            return Err(String::from_str("The program is too large for the interpreter"));
        }
        if !no_backward_local_calls(program) {
            return Err(String::from_str("The program makes a backward local call"));
        }
        let mbuff: Vec<u8> = Vec::new();
        rbpf_interpret(
            program.as_slice(),
            self.allowed_helpers.as_slice(),
            mem,
            mbuff.as_slice(),
        )
    }
}

/// The rBPF just-in-time back-end: compiles the bytecode into an exclusive
/// slot of the JIT arena, and asks the host to invoke the compiled code.
pub struct RbpfJIT {
    pub layout: BinaryFileLayout,
    pub allowed_helpers: Vec<u8>,
    pub helper_access_verification: HelperAccessVerification,
    pub helper_access_list_source: HelperAccessListSource,
    pub recompile: bool,
    pub jit_prog_slot: usize,
    pub jit_program_length: usize,
}

/// Whether one JIT initialization can succeed against the arena as it
/// stands: the raw-object-file layout, a slot index naming a free slot, a
/// program that fits both the slot and the compiler's input cap, and a
/// program the JIT accepts with these helpers.
pub open spec fn spec_jit_compiles(storage: Seq<JitSlotModel>, j: RbpfJIT, prog: Seq<u8>) -> bool {
    &&& j.layout == BinaryFileLayout::RawObjectFile
    &&& j.jit_prog_slot < storage.len()
    &&& !storage[j.jit_prog_slot as int].occupied
    &&& prog.len() <= RBPF_JIT_PROGRAM_CAP
    &&& prog.len() <= JIT_SLOT_SIZE
    &&& rbpf_jit_ok(prog, j.allowed_helpers@)
}

impl RbpfJIT {
    pub fn new(config: VMConfiguration, allowed_helpers: Vec<u8>) -> (r: RbpfJIT)
        ensures
            r.layout == config.binary_layout,
            r.allowed_helpers@ == allowed_helpers@,
            r.helper_access_verification == config.helper_access_verification,
            r.helper_access_list_source == config.helper_access_list_source,
            r.recompile == config.jit_compile,
            r.jit_prog_slot == config.suit_slot,
            r.jit_program_length == 0,
    {
        RbpfJIT {
            layout: config.binary_layout,
            allowed_helpers,
            helper_access_verification: config.helper_access_verification,
            helper_access_list_source: config.helper_access_list_source,
            recompile: config.jit_compile,
            jit_prog_slot: config.suit_slot,
            jit_program_length: 0,
        }
    }

    /// Compiles the program into this back-end's JIT slot.  The slot is
    /// acquired first and released again on every failure path, so an
    /// initialization error never leaks a slot.  Succeeds exactly when the
    /// layout is the raw object file, the slot is free, the program fits the
    /// slot and the JIT's input cap, and the JIT accepts it; without the
    /// recompile flag the slot is assumed to hold the program from an
    /// earlier run and nothing is done.  On success the slot records the
    /// program the JIT compiled from — the compiled native artifact itself
    /// stays inside the host's JIT — with entry offset zero.
    pub fn initialize_vm(&mut self, storage: &mut JitProgramStorage, program: &Vec<u8>) -> (r:
        Result<(), String>)
        ensures
            final(self).jit_prog_slot == old(self).jit_prog_slot,
            final(self).allowed_helpers@ == old(self).allowed_helpers@,
            final(self).layout == old(self).layout,
            final(self).helper_access_verification == old(self).helper_access_verification,
            final(self).helper_access_list_source == old(self).helper_access_list_source,
            final(self).recompile == old(self).recompile,
            !old(self).recompile ==> final(storage)@ == old(storage)@ && *final(self)
                == *old(self),
            // Success is owed exactly where initialization can succeed.
            r is Ok <==> (!old(self).recompile || spec_jit_compiles(
                old(storage)@,
                *old(self),
                program@,
            )),
            old(self).recompile && old(self).layout != BinaryFileLayout::RawObjectFile ==> (r
                matches Err(e) && e@ == "The JIT only supports the RawObjectFile binary layout"@),
            final(storage)@.len() == old(storage)@.len(),
            // A failed initialization holds no slot: every slot's occupancy is
            // what it was before the call, and no other slot is touched.
            r is Err ==> forall|i: int|
                0 <= i < old(storage)@.len() ==> final(storage)@[i].occupied == old(storage)@[
                    i
                ].occupied,
            r is Err ==> forall|i: int|
                0 <= i < old(storage)@.len() && i != old(self).jit_prog_slot ==> final(storage)@[i]
                    == old(storage)@[i],
            r is Ok && old(self).recompile ==> final(storage)@ =~= old(storage)@.update(
                old(self).jit_prog_slot as int,
                JitSlotModel { occupied: true, text_offset: 0, program: program@ },
            ) && final(self).jit_program_length == program@.len(),
    {
        if !self.recompile {
            return Ok(());
        }
        if self.layout != BinaryFileLayout::RawObjectFile {
            return Err(String::from_str("The JIT only supports the RawObjectFile binary layout"));
        }
        if program.len() > RBPF_JIT_PROGRAM_CAP || program.len() > JIT_SLOT_SIZE {
            return Err(String::from_str("The program is too large for the JIT"));
        }
        let slot = self.jit_prog_slot;
        match storage.acquire_storage_slot(slot) {
            Ok(()) => (),
            Err(_) => {
                return Err(String::from_str("Failed to acquire the JIT program slot"));
            },
        }
        match rbpf_jit_compile_program(program.as_slice(), self.allowed_helpers.as_slice()) {
            Ok(()) => (),
            Err(e) => {
                let released = storage.free_storage_slot(slot);
                assert(released is Ok);
                return Err(e);
            },
        }
        let stored = storage.store_program(slot, program.as_slice(), 0);
        assert(stored is Ok);
        self.jit_program_length = program.len();
        Ok(())
    }

    /// The host call that runs the compiled program — against the incoming
    /// packet for a packet-bound run: the slot must currently hold one.
    pub fn begin_execute(&self, storage: &JitProgramStorage, with_packet: bool) -> (r: Result<
        HostCall,
        String,
    >)
        ensures
            r is Ok <==> self.jit_prog_slot < storage@.len() && storage@[
                self.jit_prog_slot as int
            ].occupied,
            r matches Ok(h) ==> h == (HostCall::InvokeJitProgram {
                slot: self.jit_prog_slot,
                text_offset: storage@[self.jit_prog_slot as int].text_offset,
                with_packet,
            }),
    {
        match storage.get_program_from_slot(self.jit_prog_slot) {
            Ok((_, text_offset)) => Ok(
                HostCall::InvokeJitProgram {
                    slot: self.jit_prog_slot,
                    text_offset,
                    with_packet,
                },
            ),
            Err(_) => Err(String::from_str("The JIT slot holds no compiled program")),
        }
    }

    /// Takes the host's result of invoking the compiled program and releases
    /// the slot.  The release happens whatever the outcome was — success,
    /// program error, or a host that never managed to run it.
    pub fn finish_execute(&self, storage: &mut JitProgramStorage, outcome: Result<u64, String>) -> (r:
        Result<u64, String>)
        ensures
            r == outcome,
            final(storage)@.len() == old(storage)@.len(),
            self.jit_prog_slot < old(storage)@.len() ==> !final(storage)@[
                self.jit_prog_slot as int
            ].occupied,
            forall|i: int|
                0 <= i < old(storage)@.len() && i != self.jit_prog_slot ==> final(storage)@[i]
                    == old(storage)@[i],
            self.jit_prog_slot < old(storage)@.len() && old(storage)@[
                self.jit_prog_slot as int
            ].occupied ==> final(storage)@ =~= old(storage)@.update(
                self.jit_prog_slot as int,
                spec_free_slot(),
            ),
            !(self.jit_prog_slot < old(storage)@.len() && old(storage)@[
                self.jit_prog_slot as int
            ].occupied) ==> final(storage)@ == old(storage)@,
    {
        let _ = storage.free_storage_slot(self.jit_prog_slot);
        outcome
    }
}

/// What the relocation step leaves in the program buffer, and whether it
/// succeeded: raw object files are resolved against the image base, every
/// other layout is passed through untouched.
pub open spec fn spec_resolve_outcome(p: Seq<u8>, base: u64, layout: BinaryFileLayout) -> (
    Seq<u8>,
    bool,
) {
    if layout != BinaryFileLayout::RawObjectFile {
        (p, true)
    } else {
        match elf_model_of(p) {
            Option::None => (p, false),
            Option::Some(m) => if spec_text_usable(m, p.len() as int) {
                (spec_resolved(p, m, base), true)
            } else {
                (p, false)
            },
        }
    }
}

/// The bytes the rBPF machines actually load: the whole image for the
/// pre-processed layouts, and the (patched) `.text` section for a raw object
/// file, whose other sections only feed the data references.  Nothing where a
/// raw image cannot be parsed or has no usable `.text` section.
pub open spec fn spec_vm_program(p: Seq<u8>, layout: BinaryFileLayout) -> Option<Seq<u8>> {
    if layout != BinaryFileLayout::RawObjectFile {
        Some(p)
    } else {
        match elf_model_of(p) {
            Option::None => Option::None,
            Option::Some(m) => if spec_text_usable(m, p.len() as int) {
                Some(
                    p.subrange(
                        m.sections[1].file_offset as int,
                        m.sections[1].file_offset as int + m.sections[1].size as int,
                    ),
                )
            } else {
                Option::None
            },
        }
    }
}

/// The bytes handed to the rBPF machines for the given layout: a copy of the
/// image, or of its `.text` section for a raw object file.
fn program_for_vm(program: &Vec<u8>, layout: BinaryFileLayout) -> (r: Result<Vec<u8>, String>)
    ensures
        (r is Ok) == (spec_vm_program(program@, layout) is Some),
        r matches Ok(t) ==> spec_vm_program(program@, layout) == Some(t@),
{
    if layout != BinaryFileLayout::RawObjectFile {
        return Ok(vstd::slice::slice_to_vec(program.as_slice()));
    }
    let image_len = program.len();
    let info = match crate::relocation::parse_elf(program.as_slice()) {
        Option::None => {
            return Err(String::from_str("Failed to parse the ELF binary"));
        },
        Option::Some(i) => i,
    };
    if info.sections.len() < 2 {
        return Err(String::from_str("Failed to find the .text section"));
    }
    let text = info.sections[1];
    if text.file_offset > image_len as u64 || text.size > image_len as u64 - text.file_offset {
        return Err(String::from_str("Failed to find the .text section"));
    }
    let text_off = text.file_offset as usize;
    let text_len = text.size as usize;
    Ok(vstd::slice::slice_to_vec(vstd::slice::slice_subrange(
        program.as_slice(),
        text_off,
        text_off + text_len,
    )))
}

/// Whether one JIT pipeline run reaches the host call: the bytes handed to
/// the VM verify, and — with the recompile flag — initialization can
/// succeed against the arena as it stood, or — without it — the slot
/// already holds a program from an earlier run.
pub open spec fn spec_jit_run_starts(j: RbpfJIT, storage: Seq<JitSlotModel>, t: Seq<u8>) -> bool {
    &&& spec_verifies(t, j.allowed_helpers@, j.helper_access_verification)
    &&& if j.recompile {
        spec_jit_compiles(storage, j, t)
    } else {
        j.jit_prog_slot < storage.len() && storage[j.jit_prog_slot as int].occupied
    }
}

/// One virtual machine bound to one request: the interpreter, the JIT, or
/// the native fall-back container VM.
pub enum VirtualMachine {
    Rbpf(RbpfVm),
    RbpfJit(RbpfJIT),
    FemtoContainer,
}

impl VirtualMachine {
    /// The binary layout this machine expects.
    pub open spec fn spec_layout(self) -> BinaryFileLayout {
        match self {
            VirtualMachine::Rbpf(vm) => vm.layout,
            VirtualMachine::RbpfJit(j) => j.layout,
            VirtualMachine::FemtoContainer => BinaryFileLayout::FemtoContainersHeader,
        }
    }

    /// The allowed helper identifiers.
    pub open spec fn spec_allowed(self) -> Seq<u8> {
        match self {
            VirtualMachine::Rbpf(vm) => vm.allowed_helpers@,
            VirtualMachine::RbpfJit(j) => j.allowed_helpers@,
            VirtualMachine::FemtoContainer => Seq::empty(),
        }
    }

    /// The helper-access verification mode.
    pub open spec fn spec_mode(self) -> HelperAccessVerification {
        match self {
            VirtualMachine::Rbpf(vm) => vm.helper_access_verification,
            VirtualMachine::RbpfJit(j) => j.helper_access_verification,
            VirtualMachine::FemtoContainer => HelperAccessVerification::Deferred,
        }
    }

    /// The JIT slot this machine compiles into (meaningful for the JIT).
    pub open spec fn spec_jit_slot(self) -> usize {
        match self {
            VirtualMachine::RbpfJit(j) => j.jit_prog_slot,
            _ => 0,
        }
    }

    /// The length of the program this machine last prepared.
    pub fn get_program_length(&self) -> (r: usize)
        ensures
            self is Rbpf ==> r == self->Rbpf_0.program_length,
            self is RbpfJit ==> r == self->RbpfJit_0.jit_program_length,
            self is FemtoContainer ==> r == 0,
    {
        match self {
            VirtualMachine::Rbpf(vm) => vm.program_length,
            VirtualMachine::RbpfJit(j) => j.jit_program_length,
            VirtualMachine::FemtoContainer => 0,
        }
    }

    /// Runs the pipeline — resolve relocations, initialize, verify,
    /// execute — on the loaded program, with the given memory buffer as the
    /// program's input.
    ///
    /// The interpreter finishes here.  The JIT compiles into its slot and
    /// hands back the host call that invokes the compiled code; the fall-back
    /// VM hands back its own host call; both are finished through
    /// [`VirtualMachine::finish_host_call`], which releases the JIT slot.  A
    /// failure at any step is returned unchanged, the program is never
    /// executed unverified, and a failed run holds no JIT slot it did not
    /// already hold.
    pub fn full_run_with_mem(
        &mut self,
        storage: &mut JitProgramStorage,
        program: &mut Vec<u8>,
        base_address: u64,
        mem: &[u8],
        with_packet: bool,
    ) -> (r: RunOutcome)
        ensures
            *old(self) is FemtoContainer ==> (r matches RunOutcome::Host(
                HostCall::InvokeNativeFallback,
            )) && final(storage)@ == old(storage)@ && final(program)@ == old(program)@,
            ((*old(self)) is Rbpf || (*old(self)) is RbpfJit) ==> final(program)@ == spec_resolve_outcome(
                old(program)@,
                base_address,
                old(self).spec_layout(),
            ).0,
            ((*old(self)) is Rbpf || (*old(self)) is RbpfJit) && !spec_resolve_outcome(
                old(program)@,
                base_address,
                old(self).spec_layout(),
            ).1 ==> (r matches RunOutcome::Done(res) && res is Err),
            *old(self) is Rbpf ==> final(storage)@ == old(storage)@ && r is Done,
            *old(self) is Rbpf && (r matches RunOutcome::Done(res) && res is Ok) ==> (
            spec_vm_program(final(program)@, old(self).spec_layout()) matches Some(t)
                && spec_interpretable(t, old(self).spec_allowed(), old(self).spec_mode())
                && (*final(self))->Rbpf_0.program_length == t.len()),
            *old(self) is Rbpf && spec_vm_program(final(program)@, old(self).spec_layout())
                is None ==> (r matches RunOutcome::Done(res) && res is Err),
            *old(self) is Rbpf && (spec_vm_program(final(program)@, old(self).spec_layout())
                matches Some(t) && !spec_interpretable(
                t,
                old(self).spec_allowed(),
                old(self).spec_mode(),
            )) ==> (r matches RunOutcome::Done(res) && res is Err),
            // The JIT touches no slot but its own, holds its slot across the
            // host call, and holds nothing on failure that it did not hold
            // before.
            *old(self) is RbpfJit ==> {
                let slot = old(self).spec_jit_slot() as int;
                &&& final(storage)@.len() == old(storage)@.len()
                &&& forall|i: int|
                    0 <= i < old(storage)@.len() && i != slot
                        ==> final(storage)@[i] == old(storage)@[i]
                &&& (r matches RunOutcome::Done(res) ==> res is Err && (0 <= slot
                    < old(storage)@.len() && !old(storage)@[slot].occupied
                    ==> !final(storage)@[slot].occupied))
                &&& (r matches RunOutcome::Host(h) ==> h == (HostCall::InvokeJitProgram {
                    slot: old(self).spec_jit_slot(),
                    text_offset: final(storage)@[slot].text_offset,
                    with_packet,
                }) && 0 <= slot < final(storage)@.len() && final(storage)@[slot].occupied
                    && (spec_vm_program(final(program)@, old(self).spec_layout()) matches Some(
                    t,
                ) && spec_verifies(t, old(self).spec_allowed(), old(self).spec_mode())))
                // The host call is reached exactly when every deciding step
                // can go through: usable text, verification, and a slot to
                // compile into or an already compiled one.
                &&& ((r is Host) <==> (spec_vm_program(
                    final(program)@,
                    old(self).spec_layout(),
                ) matches Some(t) && spec_jit_run_starts(
                    (*old(self))->RbpfJit_0,
                    old(storage)@,
                    t,
                )))
            },
            final(self).spec_jit_slot() == old(self).spec_jit_slot(),
            final(self).spec_allowed() == old(self).spec_allowed(),
            final(self).spec_mode() == old(self).spec_mode(),
            final(self).spec_layout() == old(self).spec_layout(),
            (*final(self) is RbpfJit) == (*old(self) is RbpfJit),
            (*final(self) is Rbpf) == (*old(self) is Rbpf),
    {
        match self {
            VirtualMachine::FemtoContainer => RunOutcome::Host(HostCall::InvokeNativeFallback),
            VirtualMachine::Rbpf(vm) => {
                if vm.layout == BinaryFileLayout::RawObjectFile {
                    match resolve_relocations(program, base_address) {
                        Ok(()) => (),
                        Err(e) => {
                            return RunOutcome::Done(Err(e));
                        },
                    }
                }
                let vm_prog = match program_for_vm(program, vm.layout) {
                    Ok(t) => t,
                    Err(e) => {
                        return RunOutcome::Done(Err(e));
                    },
                };
                match verify_program(&vm_prog, &vm.allowed_helpers, vm.helper_access_verification) {
                    Ok(()) => (),
                    Err(e) => {
                        return RunOutcome::Done(Err(e));
                    },
                }
                vm.program_length = vm_prog.len();
                RunOutcome::Done(vm.execute_with_mem(&vm_prog, mem))
            },
            VirtualMachine::RbpfJit(j) => {
                if j.layout == BinaryFileLayout::RawObjectFile {
                    match resolve_relocations(program, base_address) {
                        Ok(()) => (),
                        Err(e) => {
                            return RunOutcome::Done(Err(e));
                        },
                    }
                }
                let vm_prog = match program_for_vm(program, j.layout) {
                    Ok(t) => t,
                    Err(e) => {
                        return RunOutcome::Done(Err(e));
                    },
                };
                match j.initialize_vm(storage, &vm_prog) {
                    Ok(()) => (),
                    Err(e) => {
                        return RunOutcome::Done(Err(e));
                    },
                }
                match verify_program(&vm_prog, &j.allowed_helpers, j.helper_access_verification) {
                    Ok(()) => (),
                    Err(e) => {
                        let _ = storage.free_storage_slot(j.jit_prog_slot);
                        return RunOutcome::Done(Err(e));
                    },
                }
                match j.begin_execute(storage, with_packet) {
                    Ok(host) => RunOutcome::Host(host),
                    Err(e) => {
                        let _ = storage.free_storage_slot(j.jit_prog_slot);
                        RunOutcome::Done(Err(e))
                    },
                }
            },
        }
    }

    /// Runs the pipeline with no program input.
    pub fn full_run(
        &mut self,
        storage: &mut JitProgramStorage,
        program: &mut Vec<u8>,
        base_address: u64,
    ) -> (r: RunOutcome)
        ensures
            *old(self) is FemtoContainer ==> (r matches RunOutcome::Host(
                HostCall::InvokeNativeFallback,
            )) && final(storage)@ == old(storage)@ && final(program)@ == old(program)@,
            ((*old(self)) is Rbpf || (*old(self)) is RbpfJit) ==> final(program)@ == spec_resolve_outcome(
                old(program)@,
                base_address,
                old(self).spec_layout(),
            ).0,
            ((*old(self)) is Rbpf || (*old(self)) is RbpfJit) && !spec_resolve_outcome(
                old(program)@,
                base_address,
                old(self).spec_layout(),
            ).1 ==> (r matches RunOutcome::Done(res) && res is Err),
            *old(self) is Rbpf ==> final(storage)@ == old(storage)@ && r is Done,
            *old(self) is Rbpf && (r matches RunOutcome::Done(res) && res is Ok) ==> (
            spec_vm_program(final(program)@, old(self).spec_layout()) matches Some(t)
                && spec_interpretable(t, old(self).spec_allowed(), old(self).spec_mode())
                && (*final(self))->Rbpf_0.program_length == t.len()),
            *old(self) is Rbpf && spec_vm_program(final(program)@, old(self).spec_layout())
                is None ==> (r matches RunOutcome::Done(res) && res is Err),
            *old(self) is Rbpf && (spec_vm_program(final(program)@, old(self).spec_layout())
                matches Some(t) && !spec_interpretable(
                t,
                old(self).spec_allowed(),
                old(self).spec_mode(),
            )) ==> (r matches RunOutcome::Done(res) && res is Err),
            *old(self) is RbpfJit ==> {
                let slot = old(self).spec_jit_slot() as int;
                &&& final(storage)@.len() == old(storage)@.len()
                &&& forall|i: int|
                    0 <= i < old(storage)@.len() && i != slot
                        ==> final(storage)@[i] == old(storage)@[i]
                &&& (r matches RunOutcome::Done(res) ==> res is Err && (0 <= slot
                    < old(storage)@.len() && !old(storage)@[slot].occupied
                    ==> !final(storage)@[slot].occupied))
                &&& (r matches RunOutcome::Host(h) ==> 0 <= slot < final(storage)@.len()
                    && final(storage)@[slot].occupied && (h matches HostCall::InvokeJitProgram {
                    with_packet: false,
                    ..
                }))
                &&& ((r is Host) <==> (spec_vm_program(
                    final(program)@,
                    old(self).spec_layout(),
                ) matches Some(t) && spec_jit_run_starts(
                    (*old(self))->RbpfJit_0,
                    old(storage)@,
                    t,
                )))
            },
            final(self).spec_jit_slot() == old(self).spec_jit_slot(),
            final(self).spec_allowed() == old(self).spec_allowed(),
            final(self).spec_mode() == old(self).spec_mode(),
            final(self).spec_layout() == old(self).spec_layout(),
            (*final(self) is RbpfJit) == (*old(self) is RbpfJit),
            (*final(self) is Rbpf) == (*old(self) is Rbpf),
    {
        let mem: Vec<u8> = Vec::new();
        self.full_run_with_mem(storage, program, base_address, mem.as_slice(), false)
    }

    /// Runs the pipeline with the incoming CoAP packet as the program's
    /// input; the result is the length of the packet's PDU and payload that
    /// the surrounding handler uses to build its response.  A JIT run here
    /// yields a host call marked to carry the packet, so the host invokes
    /// the compiled code with the packet's buffer and length.
    pub fn full_run_on_coap_pkt(
        &mut self,
        storage: &mut JitProgramStorage,
        program: &mut Vec<u8>,
        base_address: u64,
        pkt: &Vec<u8>,
    ) -> (r: RunOutcome)
        ensures
            *old(self) is FemtoContainer ==> (r matches RunOutcome::Host(
                HostCall::InvokeNativeFallback,
            )) && final(storage)@ == old(storage)@ && final(program)@ == old(program)@,
            ((*old(self)) is Rbpf || (*old(self)) is RbpfJit) ==> final(program)@ == spec_resolve_outcome(
                old(program)@,
                base_address,
                old(self).spec_layout(),
            ).0,
            ((*old(self)) is Rbpf || (*old(self)) is RbpfJit) && !spec_resolve_outcome(
                old(program)@,
                base_address,
                old(self).spec_layout(),
            ).1 ==> (r matches RunOutcome::Done(res) && res is Err),
            *old(self) is Rbpf ==> final(storage)@ == old(storage)@ && r is Done,
            *old(self) is Rbpf && (r matches RunOutcome::Done(res) && res is Ok) ==> (
            spec_vm_program(final(program)@, old(self).spec_layout()) matches Some(t)
                && spec_interpretable(t, old(self).spec_allowed(), old(self).spec_mode())
                && (*final(self))->Rbpf_0.program_length == t.len()),
            *old(self) is Rbpf && spec_vm_program(final(program)@, old(self).spec_layout())
                is None ==> (r matches RunOutcome::Done(res) && res is Err),
            *old(self) is Rbpf && (spec_vm_program(final(program)@, old(self).spec_layout())
                matches Some(t) && !spec_interpretable(
                t,
                old(self).spec_allowed(),
                old(self).spec_mode(),
            )) ==> (r matches RunOutcome::Done(res) && res is Err),
            *old(self) is RbpfJit ==> {
                let slot = old(self).spec_jit_slot() as int;
                &&& final(storage)@.len() == old(storage)@.len()
                &&& forall|i: int|
                    0 <= i < old(storage)@.len() && i != slot
                        ==> final(storage)@[i] == old(storage)@[i]
                &&& (r matches RunOutcome::Done(res) ==> res is Err && (0 <= slot
                    < old(storage)@.len() && !old(storage)@[slot].occupied
                    ==> !final(storage)@[slot].occupied))
                &&& (r matches RunOutcome::Host(h) ==> 0 <= slot < final(storage)@.len()
                    && final(storage)@[slot].occupied && (h matches HostCall::InvokeJitProgram {
                    with_packet: true,
                    ..
                }))
                &&& ((r is Host) <==> (spec_vm_program(
                    final(program)@,
                    old(self).spec_layout(),
                ) matches Some(t) && spec_jit_run_starts(
                    (*old(self))->RbpfJit_0,
                    old(storage)@,
                    t,
                )))
            },
            final(self).spec_jit_slot() == old(self).spec_jit_slot(),
            final(self).spec_allowed() == old(self).spec_allowed(),
            final(self).spec_mode() == old(self).spec_mode(),
            final(self).spec_layout() == old(self).spec_layout(),
            (*final(self) is RbpfJit) == (*old(self) is RbpfJit),
            (*final(self) is Rbpf) == (*old(self) is Rbpf),
    {
        self.full_run_with_mem(storage, program, base_address, pkt.as_slice(), true)
    }

    /// Takes the host's result of the pending host call.  For the JIT this
    /// releases the slot, whatever the outcome; the other machines pass the
    /// result through.
    pub fn finish_host_call(
        &self,
        storage: &mut JitProgramStorage,
        outcome: Result<u64, String>,
    ) -> (r: Result<u64, String>)
        ensures
            r == outcome,
            final(storage)@.len() == old(storage)@.len(),
            self is RbpfJit ==> (self.spec_jit_slot() < old(storage)@.len() ==> !final(storage)@[
                self.spec_jit_slot() as int
            ].occupied) && (forall|i: int|
                0 <= i < old(storage)@.len() && i != self.spec_jit_slot() ==> final(storage)@[i]
                    == old(storage)@[i]),
            !(self is RbpfJit) ==> final(storage)@ == old(storage)@,
    {
        match self {
            VirtualMachine::RbpfJit(j) => j.finish_execute(storage, outcome),
            _ => outcome,
        }
    }
}

/// Builds the virtual machine a configuration selects: the native fall-back
/// VM for its target, otherwise the JIT when requested, otherwise the
/// interpreter.
pub fn initialize_vm(config: VMConfiguration, allowed_helpers: Vec<u8>) -> (r: VirtualMachine)
    ensures
        config.vm_target == TargetVM::FemtoContainer ==> r is FemtoContainer,
        config.vm_target == TargetVM::Rbpf && config.use_jit ==> (r matches VirtualMachine::RbpfJit(
            j,
        ) && j.layout == config.binary_layout && j.allowed_helpers@ == allowed_helpers@
            && j.helper_access_verification == config.helper_access_verification && j.recompile
            == config.jit_compile && j.jit_prog_slot == config.suit_slot),
        config.vm_target == TargetVM::Rbpf && !config.use_jit ==> (r matches VirtualMachine::Rbpf(
            vm,
        ) && vm.layout == config.binary_layout && vm.allowed_helpers@ == allowed_helpers@
            && vm.helper_access_verification == config.helper_access_verification),
{
    match config.vm_target {
        TargetVM::FemtoContainer => VirtualMachine::FemtoContainer,
        TargetVM::Rbpf => {
            if config.use_jit {
                VirtualMachine::RbpfJit(RbpfJIT::new(config, allowed_helpers))
            } else {
                VirtualMachine::Rbpf(RbpfVm::new(config, allowed_helpers))
            }
        },
    }
}

} // verus!

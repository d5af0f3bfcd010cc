use mibpf_vm::config::{
    BinaryFileLayout, ExecutionModel, HelperAccessListSource, HelperAccessVerification, TargetVM,
    VMConfiguration,
};
use mibpf_vm::jit_storage::{JitProgramStorage, JitStorageError, JIT_SLOT_SIZE};
use mibpf_vm::manager::{run_worker_job, worker_finish};
use mibpf_vm::preflight::check_helper_access;
use mibpf_vm::requests::VMExecutionRequest;
use mibpf_vm::textfmt::format_execution_response;
use mibpf_vm::vm::{initialize_vm, HostCall, RunOutcome, VirtualMachine};

fn push_u16(out: &mut Vec<u8>, v: u16) {
    out.extend_from_slice(&v.to_le_bytes());
}

fn push_u32(out: &mut Vec<u8>, v: u32) {
    out.extend_from_slice(&v.to_le_bytes());
}

fn push_u64(out: &mut Vec<u8>, v: u64) {
    out.extend_from_slice(&v.to_le_bytes());
}

#[allow(clippy::too_many_arguments)]
fn push_section_header(
    out: &mut Vec<u8>,
    sh_type: u32,
    flags: u64,
    offset: u64,
    size: u64,
    link: u32,
    info: u32,
    entsize: u64,
) {
    push_u32(out, 0);
    push_u32(out, sh_type);
    push_u64(out, flags);
    push_u64(out, 0);
    push_u64(out, offset);
    push_u64(out, size);
    push_u32(out, link);
    push_u32(out, info);
    push_u64(out, 8);
    push_u64(out, entsize);
}

/// A minimal relocatable ELF around the given `.text`, with `.data` at file
/// offset 0x200, one symbol table and one `.rel.text` section.
fn build_elf(text: &[u8], symbols: &[(u16, u64)], relocs: &[(u64, u32)]) -> Vec<u8> {
    let text_off = 64 + 5 * 64u64;
    let nsyms = symbols.len() as u64 + 1;
    let sym_off = text_off + text.len() as u64;
    let rel_off = sym_off + 24 * nsyms;
    let data_off = 0x200u64;
    assert!(rel_off + 16 * relocs.len() as u64 <= data_off);

    let mut out = Vec::new();
    out.extend_from_slice(&[0x7f, b'E', b'L', b'F', 2, 1, 1, 0]);
    out.extend_from_slice(&[0u8; 8]);
    push_u16(&mut out, 1);
    push_u16(&mut out, 247);
    push_u32(&mut out, 1);
    push_u64(&mut out, 0);
    push_u64(&mut out, 0);
    push_u64(&mut out, 64);
    push_u32(&mut out, 0);
    push_u16(&mut out, 64);
    push_u16(&mut out, 0);
    push_u16(&mut out, 0);
    push_u16(&mut out, 64);
    push_u16(&mut out, 5);
    push_u16(&mut out, 0);

    out.extend_from_slice(&[0u8; 64]);
    push_section_header(&mut out, 1, 6, text_off, text.len() as u64, 0, 0, 0);
    push_section_header(&mut out, 1, 3, data_off, 0x10, 0, 0, 0);
    push_section_header(&mut out, 2, 0, sym_off, 24 * nsyms, 0, 1, 24);
    push_section_header(&mut out, 9, 0, rel_off, 16 * relocs.len() as u64, 3, 1, 16);

    out.extend_from_slice(text);
    out.extend_from_slice(&[0u8; 24]);
    for &(shndx, value) in symbols {
        push_u32(&mut out, 0);
        out.push(0);
        out.push(0);
        push_u16(&mut out, shndx);
        push_u64(&mut out, value);
        push_u64(&mut out, 0);
    }
    for &(offset, sym) in relocs {
        push_u64(&mut out, offset);
        push_u64(&mut out, ((sym as u64) << 32) | 1);
    }
    while (out.len() as u64) < data_off {
        out.push(0);
    }
    out.extend_from_slice(&[0u8; 0x10]);
    out
}

/// `lddw r1, 0` (relocatable), `mov r0, 42`, `exit`.
fn text_returning_42_with_data_ref() -> Vec<u8> {
    let mut text = Vec::new();
    text.extend_from_slice(&[0x18, 0x01, 0, 0, 0, 0, 0, 0]);
    text.extend_from_slice(&[0x00, 0x00, 0, 0, 0, 0, 0, 0]);
    text.extend_from_slice(&[0xb7, 0x00, 0, 0, 42, 0, 0, 0]);
    text.extend_from_slice(&[0x95, 0x00, 0, 0, 0, 0, 0, 0]);
    text
}

fn jit_config(layout: BinaryFileLayout, slot: usize) -> VMConfiguration {
    VMConfiguration {
        vm_target: TargetVM::Rbpf,
        binary_layout: layout,
        suit_slot: slot,
        execution_model: ExecutionModel::ShortLived,
        use_jit: true,
        jit_compile: true,
        benchmark: false,
        helper_access_verification: HelperAccessVerification::PreFlight,
        helper_access_list_source: HelperAccessListSource::ExecuteRequest,
    }
}

#[test]
fn jit_pipeline_compiles_verifies_and_releases_its_slot() {
    // A raw-object-file request with the JIT: the pipeline resolves the
    // `.data` relocation, compiles into slot 2, asks the host to invoke the
    // compiled program, and releases the slot when the result comes back.
    let image0 = build_elf(&text_returning_42_with_data_ref(), &[(2, 0x4)], &[(0, 1)]);
    let mut image = image0;
    let mut storage = JitProgramStorage::new(4);
    let mut vm = initialize_vm(jit_config(BinaryFileLayout::RawObjectFile, 2), vec![1, 2, 3]);

    let outcome = vm.full_run(&mut storage, &mut image, 0x2000_0000);
    match outcome {
        RunOutcome::Host(HostCall::InvokeJitProgram {
            slot, with_packet, ..
        }) => {
            assert_eq!(slot, 2);
            assert!(!with_packet);
        }
        RunOutcome::Host(_) => panic!("expected the JIT host call"),
        RunOutcome::Done(res) => panic!("expected a host call, got {:?}", res),
    }

    // The slot holds the patched text section.
    let (stored, _) = storage.get_program_from_slot(2).unwrap();
    assert_eq!(stored[0], 0x18);
    assert_eq!(
        u32::from_le_bytes([stored[4], stored[5], stored[6], stored[7]]),
        0x2000_0204
    );

    // The host ran the compiled code and reports 0x2a.
    let result = vm.finish_host_call(&mut storage, Ok(0x2a));
    assert_eq!(result, Ok(42));
    assert!(storage.get_program_from_slot(2).is_err());

    let response = format_execution_response(17, result.unwrap() as i64);
    assert_eq!(response, "{\"execution_time\": 17, \"result\": 42}");
}

#[test]
fn jit_rejects_other_layouts_without_leaking_a_slot() {
    // The same request with the plain text-section layout: initialization
    // fails naming the only supported layout, and no JIT slot stays held.
    let mut program = vec![
        0xb7, 0x00, 0, 0, 42, 0, 0, 0, // mov r0, 42
        0x95, 0x00, 0, 0, 0, 0, 0, 0, // exit
    ];
    let mut storage = JitProgramStorage::new(4);
    let mut vm = initialize_vm(jit_config(BinaryFileLayout::OnlyTextSection, 2), vec![1, 2, 3]);

    match vm.full_run(&mut storage, &mut program, 0) {
        RunOutcome::Done(Err(message)) => assert!(message.contains("RawObjectFile")),
        _ => panic!("expected initialization to fail"),
    }
    assert!(storage.acquire_storage_slot(2).is_ok());
}

#[test]
fn preflight_rejection_blocks_execution_and_still_completes() {
    // The program calls helper 9 while only 1, 2 and 3 are allowed: the
    // pre-flight verifier rejects it, nothing executes, and the worker
    // still posts its completion notification.
    let program = vec![
        0x85, 0x00, 0, 0, 9, 0, 0, 0, // call helper 9
        0x95, 0x00, 0, 0, 0, 0, 0, 0, // exit
    ];
    let mut request =
        VMExecutionRequest::new(0, TargetVM::Rbpf, BinaryFileLayout::OnlyTextSection);
    request.allowed_helpers = vec![1, 2, 3];
    let mut storage = JitProgramStorage::new(4);
    let mut loaded = program;

    let (_vm, outcome) = run_worker_job(&request, &mut storage, &mut loaded, 0);
    let error = match outcome {
        RunOutcome::Done(Err(message)) => message,
        _ => panic!("expected verification to fail"),
    };
    assert_eq!(
        error,
        "Error when checking helper function access, helper id: 9"
    );

    let (report, completion) = worker_finish(7, 0, &Err(error));
    assert_eq!(completion.worker_pid, 7);
    assert_eq!(report, "Execution_time: 0, result: 0");
}

#[test]
fn interpreter_executes_a_simple_program() {
    let mut request =
        VMExecutionRequest::new(0, TargetVM::Rbpf, BinaryFileLayout::OnlyTextSection);
    request.allowed_helpers = vec![1, 2, 3];
    let mut storage = JitProgramStorage::new(4);
    let mut program = vec![
        0xb7, 0x00, 0, 0, 42, 0, 0, 0, // mov r0, 42
        0x95, 0x00, 0, 0, 0, 0, 0, 0, // exit
    ];

    let (vm, outcome) = run_worker_job(&request, &mut storage, &mut program, 0);
    match outcome {
        RunOutcome::Done(Ok(value)) => assert_eq!(value, 42),
        _ => panic!("expected the interpreter to finish"),
    }
    assert_eq!(vm.get_program_length(), 16);

    let (report, completion) = worker_finish(3, 11, &Ok(42));
    assert_eq!(report, "Execution_time: 11, result: 42");
    assert_eq!(completion.worker_pid, 3);
}

#[test]
fn interpreter_runs_a_raw_object_file() {
    // The interpreter path over a raw ELF: relocations are resolved, the
    // text section is extracted, verified and interpreted.
    let image0 = build_elf(&text_returning_42_with_data_ref(), &[(2, 0x4)], &[(0, 1)]);
    let mut image = image0;
    let mut request = VMExecutionRequest::new(0, TargetVM::Rbpf, BinaryFileLayout::RawObjectFile);
    request.allowed_helpers = vec![1, 2, 3];
    let mut storage = JitProgramStorage::new(4);

    let (_vm, outcome) = run_worker_job(&request, &mut storage, &mut image, 0x2000_0000);
    match outcome {
        RunOutcome::Done(Ok(value)) => assert_eq!(value, 42),
        RunOutcome::Done(Err(e)) => panic!("pipeline failed: {e}"),
        RunOutcome::Host(_) => panic!("the interpreter needs no host call"),
    }
}

#[test]
fn fallback_target_is_handed_to_the_host() {
    let request =
        VMExecutionRequest::new(1, TargetVM::FemtoContainer, BinaryFileLayout::FemtoContainersHeader);
    let mut storage = JitProgramStorage::new(4);
    let mut program = vec![0u8; 8];

    let (vm, outcome) = run_worker_job(&request, &mut storage, &mut program, 0);
    match outcome {
        RunOutcome::Host(HostCall::InvokeNativeFallback) => {}
        _ => panic!("expected the native fall-back host call"),
    }
    // The host result is passed through unchanged.
    assert_eq!(vm.finish_host_call(&mut storage, Ok(9)), Ok(9));
    assert!(matches!(vm, VirtualMachine::FemtoContainer));
}

#[test]
fn slots_are_exclusive_until_released() {
    let mut storage = JitProgramStorage::new(2);
    assert_eq!(storage.slot_count(), 2);
    assert!(storage.acquire_storage_slot(1).is_ok());
    assert_eq!(
        storage.acquire_storage_slot(1).unwrap_err(),
        JitStorageError::AlreadyTaken
    );
    assert_eq!(
        storage.acquire_storage_slot(5).unwrap_err(),
        JitStorageError::OutOfRange
    );
    assert_eq!(
        storage.get_program_from_slot(0).unwrap_err(),
        JitStorageError::SlotFree
    );
    assert!(storage.free_storage_slot(1).is_ok());
    assert!(storage.acquire_storage_slot(1).is_ok());
}

#[test]
fn slots_bound_the_program_size() {
    let mut storage = JitProgramStorage::new(1);
    assert!(storage.acquire_storage_slot(0).is_ok());
    let oversized = vec![0u8; JIT_SLOT_SIZE + 1];
    assert_eq!(
        storage.store_program(0, &oversized, 0).unwrap_err(),
        JitStorageError::ProgramTooLarge
    );
    let fitting = vec![7u8; 16];
    assert!(storage.store_program(0, &fitting, 4).is_ok());
    let (stored, text_offset) = storage.get_program_from_slot(0).unwrap();
    assert_eq!(stored, &fitting);
    assert_eq!(text_offset, 4);
}

#[test]
fn helper_access_check_reports_the_offending_identifier() {
    let calls_two = vec![
        0x85, 0x00, 0, 0, 2, 0, 0, 0, // call helper 2
        0x95, 0x00, 0, 0, 0, 0, 0, 0, // exit
    ];
    assert_eq!(check_helper_access(&calls_two, &vec![1, 2, 3]), Ok(()));

    let calls_nine = vec![
        0x85, 0x00, 0, 0, 9, 0, 0, 0, // call helper 9
        0x95, 0x00, 0, 0, 0, 0, 0, 0, // exit
    ];
    assert_eq!(check_helper_access(&calls_nine, &vec![1, 2, 3]), Err(9));
    // Without calls there is nothing to reject.
    let no_calls = vec![0xb7, 0, 0, 0, 0, 0, 0, 0, 0x95, 0, 0, 0, 0, 0, 0, 0];
    assert_eq!(check_helper_access(&no_calls, &Vec::new()), Ok(()));
}

#[test]
fn malformed_bytecode_is_rejected_by_the_loader() {
    // Programs the rBPF verifier rejects never reach execution: a program
    // that does not end in an exit instruction fails the pipeline.
    let mut request =
        VMExecutionRequest::new(0, TargetVM::Rbpf, BinaryFileLayout::OnlyTextSection);
    request.allowed_helpers = vec![];
    let mut storage = JitProgramStorage::new(1);
    let mut no_exit = vec![0xb7, 0x00, 0, 0, 1, 0, 0, 0]; // mov r0, 1 and nothing more
    let (_vm, outcome) = run_worker_job(&request, &mut storage, &mut no_exit, 0);
    assert!(matches!(outcome, RunOutcome::Done(Err(_))));

    let mut ragged = vec![0xb7, 0x00, 0, 0]; // half an instruction
    let (_vm, outcome) = run_worker_job(&request, &mut storage, &mut ragged, 0);
    assert!(matches!(outcome, RunOutcome::Done(Err(_))));
}

#[test]
fn packet_bound_execution_uses_the_packet_as_input() {
    // The packet-bound path hands the packet buffer to the program as its
    // input memory; this program ignores it and reports its own result,
    // which the CoAP handler would use as the response length.
    let mut request =
        VMExecutionRequest::new(0, TargetVM::Rbpf, BinaryFileLayout::OnlyTextSection);
    request.allowed_helpers = vec![1];
    let config = VMConfiguration::new(
        request.vm_target,
        request.binary_layout,
        request.suit_slot,
    );
    let mut vm = initialize_vm(config, request.allowed_helpers.clone());
    let mut storage = JitProgramStorage::new(1);
    let mut program = vec![
        0xb7, 0x00, 0, 0, 42, 0, 0, 0, // mov r0, 42
        0x95, 0x00, 0, 0, 0, 0, 0, 0, // exit
    ];
    let packet = vec![0x40, 0x01, 0x00, 0x01]; // a minimal CoAP header
    match vm.full_run_on_coap_pkt(&mut storage, &mut program, 0, &packet) {
        RunOutcome::Done(Ok(value)) => assert_eq!(value, 42),
        _ => panic!("expected the packet-bound run to finish"),
    }
}

#[test]
fn jit_without_recompile_needs_a_previously_held_slot() {
    // Without the recompile flag, initialization assumes the slot already
    // holds a program from an earlier run; on a fresh arena there is
    // nothing to invoke, the run fails, and no slot is leaked.
    let mut config = jit_config(BinaryFileLayout::RawObjectFile, 0);
    config.jit_compile = false;
    let image = build_elf(&text_returning_42_with_data_ref(), &[(2, 0x4)], &[(0, 1)]);
    let mut image = image;
    let mut storage = JitProgramStorage::new(1);
    let mut vm = initialize_vm(config, vec![1, 2, 3]);

    match vm.full_run(&mut storage, &mut image, 0x2000_0000) {
        RunOutcome::Done(Err(_)) => {}
        _ => panic!("expected the run to fail on the empty slot"),
    }
    assert!(storage.acquire_storage_slot(0).is_ok());
}

#[test]
fn ebpf_to_ebpf_calls_are_not_helper_calls() {
    // A call instruction whose source-register nibble is one targets
    // another eBPF function: its immediate is a code offset, not a helper
    // identifier, and the helper-access check must not compare it against
    // the allowed list.
    let local_call = vec![
        0x85, 0x10, 0, 0, 99, 0, 0, 0, // call +99 (eBPF-to-eBPF)
        0x95, 0x00, 0, 0, 0, 0, 0, 0, // exit
    ];
    assert_eq!(check_helper_access(&local_call, &vec![1, 2, 3]), Ok(()));
}

#[test]
fn mailbox_requests_get_the_standard_helper_set() {
    // A request rebuilt from the fixed IPC header carries no explicit
    // helper list; the worker then allows the standard set, so a program
    // calling helper 5 passes pre-flight and runs (the library's stub
    // helpers answer zero).
    let request = VMExecutionRequest::new(0, TargetVM::Rbpf, BinaryFileLayout::OnlyTextSection);
    assert!(request.allowed_helpers.is_empty());
    let mut storage = JitProgramStorage::new(1);
    let mut program = vec![
        0x85, 0x00, 0, 0, 5, 0, 0, 0, // call helper 5
        0x95, 0x00, 0, 0, 0, 0, 0, 0, // exit
    ];
    let (_vm, outcome) = run_worker_job(&request, &mut storage, &mut program, 0);
    match outcome {
        RunOutcome::Done(Ok(value)) => assert_eq!(value, 0),
        RunOutcome::Done(Err(e)) => panic!("pipeline failed: {e}"),
        RunOutcome::Host(_) => panic!("the interpreter needs no host call"),
    }
}

#[test]
fn programs_not_ending_in_exit_are_refused_not_run() {
    // rbpf's structural check admits a trailing conditional branch, whose
    // not-taken path would fall off the end of the program; the library
    // refuses to run such a program instead.
    let mut request =
        VMExecutionRequest::new(0, TargetVM::Rbpf, BinaryFileLayout::OnlyTextSection);
    request.allowed_helpers = vec![1];
    let mut storage = JitProgramStorage::new(1);
    let mut program = vec![
        0xb7, 0x00, 0, 0, 0, 0, 0, 0, // mov r0, 0
        0x15, 0x00, 0xfe, 0xff, 1, 0, 0, 0, // jeq r0, 1, -2 (never taken)
    ];
    let (_vm, outcome) = run_worker_job(&request, &mut storage, &mut program, 0);
    match outcome {
        RunOutcome::Done(Err(message)) => {
            assert_eq!(message, "The program does not end with an EXIT instruction")
        }
        _ => panic!("expected the run to be refused"),
    }
}

#[test]
fn oversized_programs_are_refused_before_compilation() {
    // The JIT emits into one fixed native-code page; programs beyond the
    // library's input cap are refused up front, holding no slot.
    let mut program = Vec::new();
    for _ in 0..70 {
        program.extend_from_slice(&[0xb7, 0x00, 0, 0, 1, 0, 0, 0]); // mov r0, 1
    }
    program.extend_from_slice(&[0x95, 0x00, 0, 0, 0, 0, 0, 0]); // exit
    let mut storage = JitProgramStorage::new(1);
    let mut jit = mibpf_vm::vm::RbpfJIT::new(jit_config(BinaryFileLayout::RawObjectFile, 0), vec![]);
    match jit.initialize_vm(&mut storage, &program) {
        Err(message) => assert_eq!(message, "The program is too large for the JIT"),
        Ok(()) => panic!("expected the oversized program to be refused"),
    }
    assert!(storage.acquire_storage_slot(0).is_ok());
}

#[test]
fn failed_compilation_releases_the_acquired_slot() {
    // The JIT refuses a call to a helper that was never registered; the
    // slot acquired for the compilation is released again.
    let program = vec![
        0x85, 0x00, 0, 0, 9, 0, 0, 0, // call helper 9
        0x95, 0x00, 0, 0, 0, 0, 0, 0, // exit
    ];
    let mut storage = JitProgramStorage::new(1);
    let mut jit = mibpf_vm::vm::RbpfJIT::new(jit_config(BinaryFileLayout::RawObjectFile, 0), vec![]);
    assert!(jit.initialize_vm(&mut storage, &program).is_err());
    assert!(storage.acquire_storage_slot(0).is_ok());
}


#[test]
fn packet_bound_jit_runs_carry_the_packet_flag() {
    // A packet-bound JIT run yields a host call marked for the packet, so
    // the host invokes the compiled code with the packet buffer rather
    // than empty input.
    let image0 = build_elf(&text_returning_42_with_data_ref(), &[(2, 0x4)], &[(0, 1)]);
    let mut image = image0;
    let mut storage = JitProgramStorage::new(4);
    let mut vm = initialize_vm(jit_config(BinaryFileLayout::RawObjectFile, 1), vec![1, 2, 3]);
    let packet = vec![0x40, 0x01, 0x00, 0x01];

    match vm.full_run_on_coap_pkt(&mut storage, &mut image, 0x2000_0000, &packet) {
        RunOutcome::Host(HostCall::InvokeJitProgram { with_packet, .. }) => assert!(with_packet),
        _ => panic!("expected the JIT host call"),
    }
    assert_eq!(vm.finish_host_call(&mut storage, Ok(9)), Ok(9));
}

#[test]
fn oversized_programs_are_refused_by_the_interpreter() {
    // The interpreter computes jump targets over 16-bit instruction
    // indexes; programs beyond that range are refused instead of run.
    let mut request =
        VMExecutionRequest::new(0, TargetVM::Rbpf, BinaryFileLayout::OnlyTextSection);
    request.allowed_helpers = vec![1];
    let mut program = Vec::new();
    for _ in 0..33000 {
        program.extend_from_slice(&[0xb7, 0x00, 0, 0, 1, 0, 0, 0]); // mov r0, 1
    }
    program.extend_from_slice(&[0x95, 0x00, 0, 0, 0, 0, 0, 0]); // exit
    let mut storage = JitProgramStorage::new(1);
    let (_vm, outcome) = run_worker_job(&request, &mut storage, &mut program, 0);
    match outcome {
        RunOutcome::Done(Err(message)) => {
            assert_eq!(message, "The program is too large for the interpreter")
        }
        _ => panic!("expected the oversized program to be refused"),
    }
}

#[test]
fn backward_local_calls_are_refused_not_run() {
    // rbpf's interpreter adds a local call's signed offset to its unsigned
    // instruction pointer with wrap-around, which aborts under overflow
    // checks for backward targets; the library refuses such programs.
    let mut request =
        VMExecutionRequest::new(0, TargetVM::Rbpf, BinaryFileLayout::OnlyTextSection);
    request.allowed_helpers = vec![1];
    let mut program = vec![
        0xb7, 0x00, 0, 0, 0, 0, 0, 0, // mov r0, 0
        0x85, 0x10, 0, 0, 0xfe, 0xff, 0xff, 0xff, // call -2 (backward, to index 0)
        0x95, 0x00, 0, 0, 0, 0, 0, 0, // exit
    ];
    let mut storage = JitProgramStorage::new(1);
    let (_vm, outcome) = run_worker_job(&request, &mut storage, &mut program, 0);
    match outcome {
        RunOutcome::Done(Err(message)) => {
            assert_eq!(message, "The program makes a backward local call")
        }
        _ => panic!("expected the backward call to be refused"),
    }
}

#[test]
fn forward_local_calls_run_normally() {
    let mut request =
        VMExecutionRequest::new(0, TargetVM::Rbpf, BinaryFileLayout::OnlyTextSection);
    request.allowed_helpers = vec![1];
    let mut program = vec![
        0x85, 0x10, 0, 0, 1, 0, 0, 0, // call +1 (forward, to index 2)
        0x95, 0x00, 0, 0, 0, 0, 0, 0, // exit
        0xb7, 0x00, 0, 0, 7, 0, 0, 0, // mov r0, 7
        0x95, 0x00, 0, 0, 0, 0, 0, 0, // exit (returns from the local call)
    ];
    let mut storage = JitProgramStorage::new(1);
    let (_vm, outcome) = run_worker_job(&request, &mut storage, &mut program, 0);
    match outcome {
        RunOutcome::Done(Ok(value)) => assert_eq!(value, 7),
        RunOutcome::Done(Err(e)) => panic!("pipeline failed: {e}"),
        RunOutcome::Host(_) => panic!("the interpreter needs no host call"),
    }
}

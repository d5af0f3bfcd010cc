//! The execution manager: dispatching requests to a fixed pool of workers.
//!
//! The manager owns the set of currently free worker identifiers.  A request
//! takes the most recently freed worker (last in, first out); when none is
//! free the request is rejected rather than queued.  A completion
//! notification returns its worker to the free set — but only a known, busy
//! worker: anything else is a protocol violation and leaves the free set
//! alone.  Only the manager thread ever touches the free set; workers talk
//! to it through messages alone.

use vstd::prelude::*;
use crate::config::{HelperAccessVerification, TargetVM, VMConfiguration};
use crate::helpers::{effective_helpers, spec_effective_helpers};
use crate::jit_storage::JitProgramStorage;
use crate::requests::{VMExecutionCompleteMsg, VMExecutionRequest, VMExecutionRequestMsg};
use crate::textfmt::{format_worker_report, spec_worker_report};
use crate::vm::{
    initialize_vm, spec_interpretable, spec_resolve_outcome, spec_vm_program, HostCall,
    RunOutcome, VirtualMachine,
};

verus! {

/// The manager's state: the fixed table of worker identifiers, and the stack
/// of currently free ones.
pub struct VMExecutionManager {
    pub worker_ids: Vec<i16>,
    pub free_workers: Vec<i16>,
}

/// The mathematical value of the manager: both sequences.
pub struct ManagerModel {
    pub workers: Seq<i16>,
    pub free: Seq<i16>,
}

impl View for VMExecutionManager {
    type V = ManagerModel;

    open spec fn view(&self) -> ManagerModel {
        ManagerModel { workers: self.worker_ids@, free: self.free_workers@ }
    }
}

/// One message the manager's loop receives.
pub enum ManagerEvent {
    Request(VMExecutionRequestMsg),
    Completion(VMExecutionCompleteMsg),
}

/// What the manager does with one event.
pub enum ManagerAction {
    /// Forward the request to the given worker's mailbox and mark it busy.
    Dispatch { worker: i16, request: VMExecutionRequestMsg },
    /// No worker is free: answer with a busy error instead of queueing.
    RejectNoFreeWorkers,
    /// The worker has finished and is back in the free set.
    WorkerFreed { worker: i16 },
    /// A completion named no known busy worker; the free set is untouched.
    ProtocolViolation,
}

impl ManagerModel {
    /// The manager's invariant: the worker table has no duplicates, the free
    /// stack has no duplicates, and every free worker is in the table.
    pub open spec fn wf(self) -> bool {
        &&& (forall|i: int, j: int|
            0 <= i < j < self.workers.len() ==> self.workers[i] != self.workers[j])
        &&& (forall|i: int, j: int| 0 <= i < j < self.free.len() ==> self.free[i] != self.free[j])
        &&& (forall|i: int| 0 <= i < self.free.len() ==> self.workers.contains(#[trigger] self.free[i]))
    }

    /// The free stack after a request: the last-freed worker is taken when
    /// one is free; otherwise nothing changes.
    pub open spec fn spec_after_request(self) -> ManagerModel {
        if self.free.len() > 0 {
            ManagerModel { workers: self.workers, free: self.free.drop_last() }
        } else {
            self
        }
    }

    /// Whether a completion for `pid` is accepted: it must name a known
    /// worker that is not already free.
    pub open spec fn spec_accepts_completion(self, pid: i16) -> bool {
        self.workers.contains(pid) && !self.free.contains(pid)
    }

    /// The free stack after a completion: the worker is pushed back when the
    /// completion is accepted; otherwise nothing changes.
    pub open spec fn spec_after_completion(self, pid: i16) -> ManagerModel {
        if self.spec_accepts_completion(pid) {
            ManagerModel { workers: self.workers, free: self.free.push(pid) }
        } else {
            self
        }
    }

    /// The state after one event.
    pub open spec fn spec_step(self, event: ManagerEvent) -> ManagerModel {
        match event {
            ManagerEvent::Request(_) => self.spec_after_request(),
            ManagerEvent::Completion(c) => self.spec_after_completion(c.worker_pid),
        }
    }

    /// The state after the events from index `i` on.
    pub open spec fn spec_run(self, events: Seq<ManagerEvent>, i: int) -> ManagerModel
        decreases events.len() - i,
    {
        if 0 <= i < events.len() {
            self.spec_step(events[i]).spec_run(events, i + 1)
        } else {
            self
        }
    }

    /// How many requests the events from index `i` on leave in flight: each
    /// dispatched request counts one, each accepted completion takes one
    /// back.
    pub open spec fn spec_pending(self, events: Seq<ManagerEvent>, i: int) -> int
        decreases events.len() - i,
    {
        if 0 <= i < events.len() {
            let delta: int = match events[i] {
                ManagerEvent::Request(_) => if self.free.len() > 0 {
                    1
                } else {
                    0
                },
                ManagerEvent::Completion(c) => if self.spec_accepts_completion(c.worker_pid) {
                    -1
                } else {
                    0
                },
            };
            delta + self.spec_step(events[i]).spec_pending(events, i + 1)
        } else {
            0
        }
    }
}

/// Whether the vector contains the identifier.
fn contains_worker(v: &Vec<i16>, x: i16) -> (r: bool)
    ensures
        r == v@.contains(x),
{
    let mut j: usize = 0;
    while j < v.len()
        invariant
            j <= v@.len(),
            forall|k: int| 0 <= k < j ==> v@[k] != x,
        decreases v@.len() - j,
    {
        if v[j] == x {
            assert(v@.contains(x));
            return true;
        }
        j += 1;
    }
    false
}

impl VMExecutionManager {
    /// A fresh manager over the given worker table: every worker starts
    /// free, so the last one in the table is dispatched first.
    pub fn new(worker_ids: Vec<i16>) -> (r: VMExecutionManager)
        requires
            forall|i: int, j: int|
                0 <= i < j < worker_ids@.len() ==> worker_ids@[i] != worker_ids@[j],
        ensures
            r@.workers == worker_ids@,
            r@.free == worker_ids@,
            r@.wf(),
    {
        let free = vstd::slice::slice_to_vec(worker_ids.as_slice());
        VMExecutionManager { worker_ids, free_workers: free }
    }

    /// How many workers are free right now.
    pub fn free_worker_count(&self) -> (r: usize)
        ensures
            r == self@.free.len(),
    {
        self.free_workers.len()
    }

    /// Serves one execution request: pops the most recently freed worker and
    /// dispatches to it, or rejects the request when every worker is busy.
    pub fn handle_request(&mut self, request: VMExecutionRequestMsg) -> (r: ManagerAction)
        ensures
            final(self)@ == old(self)@.spec_after_request(),
            old(self)@.free.len() == 0 ==> r == ManagerAction::RejectNoFreeWorkers,
            old(self)@.free.len() > 0 ==> r == (ManagerAction::Dispatch {
                worker: old(self)@.free.last(),
                request,
            }),
            old(self)@.wf() ==> final(self)@.wf(),
    {
        match self.free_workers.pop() {
            Some(worker) => ManagerAction::Dispatch { worker, request },
            None => {
                assert(old(self)@.free.len() == 0);
                assert(final(self)@ =~= old(self)@.spec_after_request()) by {
                    assert(self.free_workers@ =~= old(self).free_workers@);
                }
                ManagerAction::RejectNoFreeWorkers
            },
        }
    }

    /// Takes one completion notification: a known busy worker goes back on
    /// the free stack; a completion for an unknown or already-free worker is
    /// a protocol violation and changes nothing.
    pub fn handle_completion(&mut self, notification: VMExecutionCompleteMsg) -> (r: ManagerAction)
        ensures
            final(self)@ == old(self)@.spec_after_completion(notification.worker_pid),
            old(self)@.spec_accepts_completion(notification.worker_pid) ==> r
                == (ManagerAction::WorkerFreed { worker: notification.worker_pid }),
            !old(self)@.spec_accepts_completion(notification.worker_pid) ==> r
                == ManagerAction::ProtocolViolation,
            old(self)@.wf() ==> final(self)@.wf(),
    {
        let pid = notification.worker_pid;
        if !contains_worker(&self.worker_ids, pid) {
            return ManagerAction::ProtocolViolation;
        }
        if contains_worker(&self.free_workers, pid) {
            return ManagerAction::ProtocolViolation;
        }
        self.free_workers.push(pid);
        proof {
            let m = old(self)@;
            assert(final(self)@.free =~= m.free.push(pid));
            if m.wf() {
                assert forall|i: int, j: int|
                    0 <= i < j < final(self)@.free.len() implies final(self)@.free[i]
                    != final(self)@.free[j] by {
                    if j < m.free.len() {
                    } else {
                        assert(final(self)@.free[j] == pid);
                        assert(!m.free.contains(pid));
                        assert(m.free[i] != pid);
                    }
                }
            }
        }
        ManagerAction::WorkerFreed { worker: pid }
    }
}

/// The free-worker accounting: after any run of events, the number of free
/// workers is what it was at the start minus the requests those events left
/// in flight — every dispatch takes exactly one worker from the free set,
/// and every accepted completion returns exactly one.
pub proof fn lemma_free_worker_accounting(m: ManagerModel, events: Seq<ManagerEvent>, i: int)
    ensures
        m.spec_run(events, i).free.len() == m.free.len() - m.spec_pending(events, i),
    decreases events.len() - i,
{
    if 0 <= i < events.len() {
        lemma_free_worker_accounting(m.spec_step(events[i]), events, i + 1);
    }
}

/// The manager's invariant survives every event.
pub proof fn lemma_manager_wf_preserved(m: ManagerModel, event: ManagerEvent)
    requires
        m.wf(),
    ensures
        m.spec_step(event).wf(),
{
    match event {
        ManagerEvent::Request(_) => {
            if m.free.len() > 0 {
                let m2 = m.spec_after_request();
                assert forall|i: int| 0 <= i < m2.free.len() implies m2.workers.contains(
                    #[trigger] m2.free[i],
                ) by {
                    assert(m2.free[i] == m.free[i]);
                }
            }
        },
        ManagerEvent::Completion(c) => {
            let pid = c.worker_pid;
            if m.spec_accepts_completion(pid) {
                let m2 = m.spec_after_completion(pid);
                assert forall|i: int, j: int|
                    0 <= i < j < m2.free.len() implies m2.free[i] != m2.free[j] by {
                    if j == m.free.len() {
                        assert(m2.free[j] == pid);
                        assert(!m.free.contains(pid));
                        assert(m.free[i] != pid);
                    }
                }
                assert forall|i: int| 0 <= i < m2.free.len() implies m2.workers.contains(
                    #[trigger] m2.free[i],
                ) by {
                    if i < m.free.len() {
                        assert(m2.free[i] == m.free[i]);
                    } else {
                        assert(m2.free[i] == pid);
                    }
                }
            }
        },
    }
}

/// The manager's invariant survives every run of events.
pub proof fn lemma_manager_wf_preserved_run(m: ManagerModel, events: Seq<ManagerEvent>, i: int)
    requires
        m.wf(),
    ensures
        m.spec_run(events, i).wf(),
    decreases events.len() - i,
{
    if 0 <= i < events.len() {
        lemma_manager_wf_preserved(m, events[i]);
        lemma_manager_wf_preserved_run(m.spec_step(events[i]), events, i + 1);
    }
}

/// The scheduling priorities of a worker pool: strictly increasing numeric
/// values (so strictly decreasing priority under a lower-is-higher scheduler),
/// ending one below the base priority, as many as there are workers.
pub fn worker_priorities(base_priority: u8, count: usize) -> (r: Vec<u8>)
    requires
        count <= base_priority,
    ensures
        r@.len() == count,
        forall|i: int| 0 <= i < count ==> r@[i] == base_priority - count + i,
{
    let mut out: Vec<u8> = Vec::new();
    let mut k: usize = 0;
    while k < count
        invariant
            k <= count,
            count <= base_priority,
            out@.len() == k,
            forall|i: int| 0 <= i < k ==> out@[i] == base_priority - count + i,
        decreases count - k,
    {
        out.push((base_priority as usize - count + k) as u8);
        k += 1;
    }
    out
}

/// One worker job: builds the virtual machine the request selects —
/// short-lived, no JIT, pre-flight helper checking — and runs the pipeline
/// over the loaded program bytes.  The helpers handed to the VM are the
/// request's effective list: its explicit list where it has one, the
/// standard set otherwise.  The rBPF target finishes here; the fall-back
/// target hands its host call back.
pub fn run_worker_job(
    request: &VMExecutionRequest,
    storage: &mut JitProgramStorage,
    program: &mut Vec<u8>,
    base_address: u64,
) -> (r: (VirtualMachine, RunOutcome))
    ensures
        request.vm_target == TargetVM::Rbpf ==> {
            &&& r.0 is Rbpf
            &&& r.0.spec_allowed() == spec_effective_helpers(request.allowed_helpers@)
            &&& r.0.spec_mode() == HelperAccessVerification::PreFlight
            &&& r.0.spec_layout() == request.binary_layout
            &&& r.1 is Done
            &&& final(storage)@ == old(storage)@
            &&& final(program)@ == spec_resolve_outcome(
                old(program)@,
                base_address,
                request.binary_layout,
            ).0
            &&& (!spec_resolve_outcome(old(program)@, base_address, request.binary_layout).1
                ==> (r.1 matches RunOutcome::Done(res) && res is Err))
            &&& (r.1 matches RunOutcome::Done(res) && res is Ok ==> (spec_vm_program(
                final(program)@,
                request.binary_layout,
            ) matches Some(t) && spec_interpretable(
                t,
                spec_effective_helpers(request.allowed_helpers@),
                HelperAccessVerification::PreFlight,
            )))
            &&& (spec_vm_program(final(program)@, request.binary_layout) is None ==> (r.1
                matches RunOutcome::Done(res) && res is Err))
            &&& ((spec_vm_program(final(program)@, request.binary_layout) matches Some(t)
                && !spec_interpretable(
                t,
                spec_effective_helpers(request.allowed_helpers@),
                HelperAccessVerification::PreFlight,
            )) ==> (r.1 matches RunOutcome::Done(res) && res is Err))
        },
        request.vm_target == TargetVM::FemtoContainer ==> (r.1 matches RunOutcome::Host(
            HostCall::InvokeNativeFallback,
        )) && final(storage)@ == old(storage)@ && final(program)@ == old(program)@,
{
    let config = VMConfiguration::new(request.vm_target, request.binary_layout, request.suit_slot);
    let allowed = effective_helpers(&request.allowed_helpers);
    let mut vm = initialize_vm(config, allowed);
    let outcome = vm.full_run(storage, program, base_address);
    (vm, outcome)
}

/// The end of one worker job: the console report for the outcome — the
/// program's result, or zero where it failed — and the completion message
/// that gives the worker back to the manager.  Exactly one completion
/// exists per processed request, for every outcome: a failed execution
/// still reports back, so a worker is never lost to an error.
pub fn worker_finish(worker_pid: i16, execution_time: u32, outcome: &Result<u64, String>) -> (r: (
    String,
    VMExecutionCompleteMsg,
))
    ensures
        r.1.worker_pid == worker_pid,
        outcome matches Ok(v) ==> r.0@ == spec_worker_report(execution_time, v as i64),
        outcome is Err ==> r.0@ == spec_worker_report(execution_time, 0),
{
    let result: i64 = match outcome {
        Ok(v) => #[verifier::truncate] (*v as i64),
        Err(_) => 0,
    };
    (format_worker_report(execution_time, result), VMExecutionCompleteMsg::new(worker_pid))
}

} // verus!

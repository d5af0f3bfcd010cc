use mibpf_vm::manager::{worker_priorities, ManagerAction, VMExecutionManager};
use mibpf_vm::requests::{VMExecutionCompleteMsg, VMExecutionRequestMsg};

fn request() -> VMExecutionRequestMsg {
    VMExecutionRequestMsg {
        binary_layout: 0,
        suit_slot: 0,
        helper_set: 0,
        helper_indices: 0,
    }
}

#[test]
fn four_workers_drain_and_refill() {
    // Four workers, four long-running requests back to back: the free set
    // walks 4 -> 3 -> 2 -> 1 -> 0, a fifth request is rejected, and after
    // one completion the freed worker is the only free one.
    let mut manager = VMExecutionManager::new(vec![11, 12, 13, 14]);
    assert_eq!(manager.free_worker_count(), 4);

    let mut dispatched = Vec::new();
    for expected_free in [3usize, 2, 1, 0] {
        match manager.handle_request(request()) {
            ManagerAction::Dispatch { worker, .. } => dispatched.push(worker),
            _ => panic!("expected a dispatch"),
        }
        assert_eq!(manager.free_worker_count(), expected_free);
    }
    // Workers are taken in last-in-first-out order.
    assert_eq!(dispatched, vec![14, 13, 12, 11]);

    match manager.handle_request(request()) {
        ManagerAction::RejectNoFreeWorkers => {}
        _ => panic!("expected the fifth request to be rejected"),
    }
    assert_eq!(manager.free_worker_count(), 0);

    match manager.handle_completion(VMExecutionCompleteMsg::new(13)) {
        ManagerAction::WorkerFreed { worker } => assert_eq!(worker, 13),
        _ => panic!("expected the completion to free the worker"),
    }
    assert_eq!(manager.free_worker_count(), 1);

    // The freed worker is the one handed out next.
    match manager.handle_request(request()) {
        ManagerAction::Dispatch { worker, .. } => assert_eq!(worker, 13),
        _ => panic!("expected a dispatch"),
    }
}

#[test]
fn unknown_worker_completion_is_a_protocol_violation() {
    let mut manager = VMExecutionManager::new(vec![1, 2]);
    match manager.handle_completion(VMExecutionCompleteMsg::new(99)) {
        ManagerAction::ProtocolViolation => {}
        _ => panic!("expected a protocol violation"),
    }
    assert_eq!(manager.free_worker_count(), 2);
}

#[test]
fn already_free_worker_completion_is_a_protocol_violation() {
    let mut manager = VMExecutionManager::new(vec![1, 2]);
    match manager.handle_completion(VMExecutionCompleteMsg::new(2)) {
        ManagerAction::ProtocolViolation => {}
        _ => panic!("expected a protocol violation"),
    }
    assert_eq!(manager.free_worker_count(), 2);
}

#[test]
fn completion_returns_exactly_the_dispatched_worker() {
    let mut manager = VMExecutionManager::new(vec![5]);
    match manager.handle_request(request()) {
        ManagerAction::Dispatch { worker, .. } => assert_eq!(worker, 5),
        _ => panic!("expected a dispatch"),
    }
    // A second completion for the same worker is rejected: completions are
    // matched one to one with dispatches.
    assert!(matches!(
        manager.handle_completion(VMExecutionCompleteMsg::new(5)),
        ManagerAction::WorkerFreed { worker: 5 }
    ));
    assert!(matches!(
        manager.handle_completion(VMExecutionCompleteMsg::new(5)),
        ManagerAction::ProtocolViolation
    ));
    assert_eq!(manager.free_worker_count(), 1);
}

#[test]
fn priorities_decrease_strictly() {
    // Four workers under a base priority of 7 run at 3, 4, 5, 6: strictly
    // decreasing priority under a lower-is-higher scheduler, so cooperative
    // tie-breaking is deterministic.
    let priorities = worker_priorities(7, 4);
    assert_eq!(priorities, vec![3, 4, 5, 6]);
    assert_eq!(worker_priorities(7, 0), Vec::<u8>::new());
}

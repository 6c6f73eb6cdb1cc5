use mcmc_demo::helpers::async_last_task_processor::{
    LoopAction, ProcessingLoop, TaskDispatchError, TaskSlot,
};
use mcmc_demo::helpers::owning_watch_channel::{RecvError, RecvPoll, SendError, WatchSlot};

#[test]
fn channel_delivers_sent_value() {
    let mut slot = WatchSlot::new();
    if slot.send(true, "Hello, World!".to_string()).is_err() {
        panic!("Sender error");
    }
    // the sender's task has ended, so the sender is gone when the receive runs
    match slot.poll_recv(false) {
        RecvPoll::Ready(Ok(v)) => assert_eq!(v, "Hello, World!"),
        _ => panic!("Didnt get expected value"),
    }
}

#[test]
fn channel_latest_value_wins() {
    let mut slot = WatchSlot::new();
    slot.send(true, 1).unwrap();
    slot.send(true, 2).unwrap();
    assert!(matches!(slot.poll_recv(true), RecvPoll::Ready(Ok(2))));
    assert!(matches!(slot.poll_recv(true), RecvPoll::Pending));
}

#[test]
fn channel_empty_is_pending() {
    let mut slot: WatchSlot<u8> = WatchSlot::new();
    assert!(matches!(slot.poll_recv(true), RecvPoll::Pending));
}

#[test]
fn channel_send_fails_without_receiver() {
    let mut slot = WatchSlot::new();
    slot.send(true, 7).unwrap();
    assert!(matches!(slot.send(false, 8), Err(SendError::ReveiverDropped)));
    assert!(matches!(slot.poll_recv(true), RecvPoll::Ready(Ok(7))));
}

#[test]
fn channel_recv_fails_without_sender() {
    let mut slot = WatchSlot::new();
    slot.send(true, 3).unwrap();
    // a waiting value comes first, the error only once the slot is empty
    assert!(matches!(slot.poll_recv(false), RecvPoll::Ready(Ok(3))));
    assert!(matches!(slot.poll_recv(false), RecvPoll::Ready(Err(RecvError::SenderDropped))));
}

#[test]
fn channel_empty_without_sender_fails() {
    let mut slot: WatchSlot<u8> = WatchSlot::new();
    assert!(matches!(slot.poll_recv(false), RecvPoll::Ready(Err(RecvError::SenderDropped))));
}

#[test]
fn executes_task_successfully() {
    let mut slot = TaskSlot::new();
    slot.dispatch_task(true, ()).unwrap();
    assert!(matches!(slot.next_action(true), LoopAction::Run(())));
    assert!(matches!(slot.next_action(true), LoopAction::Idle));
}

#[test]
fn finalizes_on_dispatcher_drop() {
    let mut slot: TaskSlot<()> = TaskSlot::new();
    assert!(matches!(slot.next_action(false), LoopAction::Finalize));
}

#[test]
fn errors_on_executor_drop() {
    let mut slot = TaskSlot::new();
    assert!(matches!(slot.dispatch_task(false, ()), Err(TaskDispatchError::TaskRunnerDropped)));
    assert!(matches!(slot.next_action(true), LoopAction::Idle));
}

#[test]
fn only_latest_task_runs() {
    let mut slot = TaskSlot::new();
    slot.dispatch_task(true, 1).unwrap();
    slot.dispatch_task(true, 2).unwrap();
    assert!(matches!(slot.next_action(true), LoopAction::Run(2)));
}

#[test]
fn pending_task_runs_after_dispatcher_drop() {
    let mut slot = TaskSlot::new();
    slot.dispatch_task(true, 5).unwrap();
    assert!(matches!(slot.next_action(false), LoopAction::Run(5)));
    assert!(matches!(slot.next_action(false), LoopAction::Finalize));
}

#[test]
fn processing_loop_waits_only_without_work() {
    let mut l = ProcessingLoop::new();
    let mut slot = TaskSlot::new();
    assert!(l.must_wait(&slot, true));
    assert!(!l.must_wait(&slot, false));
    slot.dispatch_task(true, 1).unwrap();
    assert!(!l.must_wait(&slot, true));
    assert!(matches!(slot.next_action(true), LoopAction::Run(1)));
    l.end_run(true);
    assert!(!l.must_wait(&slot, true));
    l.begin_turn();
    assert!(l.must_wait(&slot, true));
    l.end_run(false);
    assert!(l.must_wait(&slot, true));
    // after the last task ran and the dispatcher is gone, the loop goes on to finalize
    assert!(!l.must_wait(&slot, false));
    assert!(matches!(slot.next_action(false), LoopAction::Finalize));
}

#[test]
fn run_of_dispatches_and_takes() {
    let mut slot = TaskSlot::new();
    let mut ran = Vec::new();
    // dispatch 1, dispatch 2, take, dispatch 3, take, take, dispatch 4
    slot.dispatch_task(true, 1).unwrap();
    slot.dispatch_task(true, 2).unwrap();
    if let LoopAction::Run(t) = slot.next_action(true) {
        ran.push(t);
    }
    slot.dispatch_task(true, 3).unwrap();
    for _ in 0..2 {
        if let LoopAction::Run(t) = slot.next_action(true) {
            ran.push(t);
        }
    }
    slot.dispatch_task(true, 4).unwrap();
    assert_eq!(ran, vec![2, 3]);
    assert!(slot.has_pending());
    assert!(matches!(slot.next_action(false), LoopAction::Run(4)));
}

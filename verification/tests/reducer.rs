use par_runtime::reducer::ReducerInbox;
use par_runtime::reducer::{
    forward_step, handle_message, run_action, run_after_read, ForwardStep, HandleCounter, InboxPoll,
    ReducerMessage, RunAction, RunPhase,
};

#[test]
fn redex_is_queued() {
    let mut redexes: Vec<(u8, u8)> = vec![(1, 2)];
    let spawn = handle_message::<u8, &str>(&mut redexes, ReducerMessage::Redex(3, 4));
    assert_eq!(spawn, None);
    assert_eq!(redexes, vec![(1, 2), (3, 4)]);
}

#[test]
fn spawn_is_handed_back() {
    let mut redexes: Vec<(u8, u8)> = vec![];
    let spawn = handle_message(&mut redexes, ReducerMessage::Spawn("task"));
    assert_eq!(spawn, Some("task"));
    assert!(redexes.is_empty());
}

#[test]
fn notices_change_nothing() {
    let mut redexes: Vec<(u8, u8)> = vec![(5, 6)];
    assert_eq!(handle_message::<u8, &str>(&mut redexes, ReducerMessage::Dropped(3)), None);
    assert_eq!(handle_message::<u8, &str>(&mut redexes, ReducerMessage::Created(4)), None);
    assert_eq!(redexes, vec![(5, 6)]);
}

#[test]
fn handle_ids_on_live_channel_count_up() {
    let mut counter = HandleCounter::new();
    assert_eq!(counter.peek(), 0);
    assert_eq!(counter.issue(true), 0);
    assert_eq!(counter.issue(true), 1);
    assert_eq!(counter.issue(true), 2);
    assert_eq!(counter.peek(), 3);
}

#[test]
fn handle_on_new_channel_gets_zero() {
    let mut counter = HandleCounter::new();
    counter.issue(true);
    counter.issue(true);
    assert_eq!(counter.issue(false), 0);
    assert_eq!(counter.peek(), 2);
    assert_eq!(counter.issue(true), 2);
}

#[test]
fn forwarding_steps() {
    assert_eq!(forward_step(InboxPoll::Message, false), ForwardStep::Forward);
    assert_eq!(forward_step(InboxPoll::Message, true), ForwardStep::Forward);
    assert_eq!(forward_step(InboxPoll::Empty, true), ForwardStep::Stop);
    assert_eq!(forward_step(InboxPoll::Disconnected, false), ForwardStep::Stop);
}

#[test]
fn run_loop_actions() {
    assert_eq!(run_action(RunPhase::Draining, true), RunAction::Reduce);
    assert_eq!(run_action(RunPhase::Draining, false), RunAction::TryReceive);
    assert_eq!(run_action(RunPhase::Waiting, true), RunAction::Reduce);
    assert_eq!(run_action(RunPhase::Waiting, false), RunAction::Receive);
    assert_eq!(run_action(RunPhase::Finished, true), RunAction::Stop);
}

#[test]
fn run_loop_phases() {
    assert_eq!(run_after_read(RunPhase::Draining, true), RunPhase::Draining);
    assert_eq!(run_after_read(RunPhase::Draining, false), RunPhase::Waiting);
    assert_eq!(run_after_read(RunPhase::Waiting, true), RunPhase::Draining);
    assert_eq!(run_after_read(RunPhase::Waiting, false), RunPhase::Finished);
    assert_eq!(run_after_read(RunPhase::Finished, true), RunPhase::Finished);
}

#[test]
fn run_loop_scenario() {
    // Two redexes pending, one message arrives while draining, then the inbox ends.
    let mut phase = RunPhase::Draining;
    let mut pending = 2;
    let mut inbox = vec![true];
    let mut trace = Vec::new();
    loop {
        let action = run_action(phase, pending > 0);
        trace.push(action);
        match action {
            RunAction::Reduce => pending -= 1,
            RunAction::TryReceive | RunAction::Receive => {
                let got = inbox.pop().unwrap_or(false);
                phase = run_after_read(phase, got);
            }
            RunAction::Stop => break,
        }
    }
    assert_eq!(
        trace,
        vec![
            RunAction::Reduce,
            RunAction::Reduce,
            RunAction::TryReceive,
            RunAction::TryReceive,
            RunAction::Receive,
            RunAction::Stop
        ]
    );
}

#[test]
fn net_handle_on_live_channel_counts() {
    let (mut inbox, tx) = ReducerInbox::<u32>::new();
    let tx = tx.into_inner();
    let mut counter = HandleCounter::new();
    let (sender, id, reused) = inbox.net_handle(&mut counter);
    assert!(reused);
    assert_eq!(id, 0);
    assert_eq!(counter.peek(), 1);
    let (_sender2, id2, reused2) = inbox.net_handle(&mut counter);
    assert!(reused2);
    assert_eq!(id2, 1);
    sender.into_inner().send(5).unwrap();
    tx.send(6).unwrap();
    assert_eq!(inbox.try_receive(), Some(5));
    assert_eq!(inbox.try_receive(), Some(6));
    assert_eq!(inbox.try_receive(), None);
}

#[test]
fn net_handle_after_senders_gone_moves_messages() {
    let (mut inbox, tx) = ReducerInbox::<u32>::new();
    let tx = tx.into_inner();
    let mut counter = HandleCounter::new();
    counter.issue(true);
    tx.send(1).unwrap();
    tx.send(2).unwrap();
    tx.send(3).unwrap();
    drop(tx);
    let (new_tx, id, reused) = inbox.net_handle(&mut counter);
    assert!(!reused);
    assert_eq!(id, 0);
    assert_eq!(counter.peek(), 1);
    new_tx.into_inner().send(4).unwrap();
    assert_eq!(inbox.try_receive(), Some(1));
    assert_eq!(inbox.try_receive(), Some(2));
    assert_eq!(inbox.try_receive(), Some(3));
    assert_eq!(inbox.try_receive(), Some(4));
    assert_eq!(inbox.try_receive(), None);
}

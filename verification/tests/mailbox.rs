use par_runtime::channel::Refusal;
use par_runtime::mailbox::{dead_letter_reply, DeadLetter};
use par_runtime::mailbox::{
    mailbox_capacity, parse_receiver_request, parse_sender_request, DeadLetterReason, Mailbox,
    MailboxReply, ReceiverRequest, SendOutcome, SenderRequest, TrySendStart,
};

#[test]
fn capacity_is_at_least_one() {
    assert_eq!(mailbox_capacity(Some(0)), 1);
    assert_eq!(mailbox_capacity(Some(1)), 1);
    assert_eq!(mailbox_capacity(Some(8)), 8);
    assert_eq!(mailbox_capacity(None), usize::MAX);
}

#[test]
fn request_labels() {
    assert_eq!(parse_sender_request("trySend"), Some(SenderRequest::TrySend));
    assert_eq!(parse_sender_request("close"), Some(SenderRequest::Close));
    assert_eq!(parse_sender_request("receive"), None);
    assert_eq!(parse_sender_request("trysend"), None);
    assert_eq!(parse_receiver_request("receive"), Some(ReceiverRequest::Receive));
    assert_eq!(parse_receiver_request("close"), Some(ReceiverRequest::Close));
    assert_eq!(parse_receiver_request("trySend"), None);
}

#[test]
fn reply_signals() {
    assert_eq!(MailboxReply::Done.signals(), vec!["ok"]);
    assert_eq!(MailboxReply::Refused(DeadLetterReason::Full).signals(), vec!["err", "full"]);
    assert_eq!(MailboxReply::Refused(DeadLetterReason::Closed).signals(), vec!["err", "closed"]);
    assert_eq!(DeadLetterReason::Full.label(), "full");
    assert_eq!(DeadLetterReason::Closed.label(), "closed");
}

#[test]
fn new_mailbox_is_open_and_empty() {
    let (mailbox, _rx, _dead) = Mailbox::<u32>::new_for_request(Some(0));
    assert_eq!(mailbox.capacity(), 1);
    assert_eq!(mailbox.queued(), 0);
    assert!(!mailbox.is_closed());
    assert!(mailbox.has_sender());
}

#[test]
fn send_until_full_then_receive() {
    let (mut mailbox, rx, dead) = Mailbox::<u32>::open(2);
    let mut rx_in = rx.into_inner();
    let mut dead_in = dead.into_inner();
    assert_eq!(mailbox.offer(10), MailboxReply::Done);
    assert_eq!(mailbox.offer(11), MailboxReply::Done);
    assert_eq!(mailbox.queued(), 2);
    assert_eq!(mailbox.offer(12), MailboxReply::Refused(DeadLetterReason::Full));
    assert_eq!(mailbox.queued(), 2);
    let letter = dead_in.try_recv().unwrap();
    assert_eq!(letter.reason, DeadLetterReason::Full);
    assert_eq!(letter.message, 12);

    assert_eq!(rx_in.try_recv().unwrap(), 10);
    assert_eq!(mailbox.finish_receive(true), MailboxReply::Done);
    assert_eq!(mailbox.queued(), 1);
    assert_eq!(mailbox.offer(13), MailboxReply::Done);
    assert_eq!(rx_in.try_recv().unwrap(), 11);
    assert_eq!(rx_in.try_recv().unwrap(), 13);
}

#[test]
fn closed_mailbox_rejects_and_ends_receiver() {
    let (mut mailbox, rx, dead) = Mailbox::<u32>::open(4);
    let mut rx_in = rx.into_inner();
    let mut dead_in = dead.into_inner();
    assert_eq!(mailbox.offer(1), MailboxReply::Done);
    mailbox.close();
    assert!(mailbox.is_closed());
    assert!(!mailbox.has_sender());
    assert_eq!(mailbox.offer(2), MailboxReply::Refused(DeadLetterReason::Closed));
    let letter = dead_in.try_recv().unwrap();
    assert_eq!(letter.reason, DeadLetterReason::Closed);
    assert_eq!(letter.message, 2);
    assert_eq!(rx_in.try_recv().unwrap(), 1);
    assert!(rx_in.try_recv().is_err());
    assert_eq!(mailbox.finish_receive(false), MailboxReply::Refused(DeadLetterReason::Closed));
}

#[test]
fn channel_refusal_gives_slot_back() {
    let (mut mailbox, rx, _dead) = Mailbox::<u32>::open(2);
    drop(rx);
    let (reply, letter) = mailbox.try_send(5);
    assert_eq!(reply, MailboxReply::Refused(DeadLetterReason::Closed));
    let letter = letter.unwrap();
    assert_eq!(letter.reason, DeadLetterReason::Closed);
    assert_eq!(letter.message, 5);
    assert_eq!(mailbox.queued(), 0);
}

#[test]
fn try_send_steps() {
    let (mut mailbox, _rx, _dead) = Mailbox::<u32>::open(1);
    assert_eq!(mailbox.begin_try_send(), TrySendStart::Deliver);
    assert_eq!(mailbox.queued(), 1);
    assert_eq!(mailbox.begin_try_send(), TrySendStart::Reject(DeadLetterReason::Full));
    assert_eq!(mailbox.finish_try_send(SendOutcome::Full), MailboxReply::Refused(DeadLetterReason::Full));
    assert_eq!(mailbox.queued(), 0);
    assert_eq!(mailbox.begin_try_send(), TrySendStart::Deliver);
    assert_eq!(mailbox.finish_try_send(SendOutcome::Sent), MailboxReply::Done);
    assert_eq!(mailbox.queued(), 1);
}

#[test]
fn slots_reserve_and_release() {
    let (mut mailbox, _rx, _dead) = Mailbox::<u32>::open(1);
    mailbox.release_slot();
    assert_eq!(mailbox.queued(), 0);
    assert!(mailbox.reserve_slot());
    assert!(!mailbox.reserve_slot());
    assert_eq!(mailbox.queued(), 1);
    mailbox.release_slot();
    assert_eq!(mailbox.queued(), 0);
}

#[test]
fn settle_follows_channel_answer() {
    let (mut mailbox, _rx, _dead) = Mailbox::<u32>::open(3);
    assert_eq!(mailbox.begin_try_send(), TrySendStart::Deliver);
    let (reply, letter) = mailbox.settle_try_send(Err(Refusal::Full(7)));
    assert_eq!(reply, MailboxReply::Refused(DeadLetterReason::Full));
    let letter = letter.unwrap();
    assert_eq!(letter.reason, DeadLetterReason::Full);
    assert_eq!(letter.message, 7);
    assert_eq!(mailbox.queued(), 0);

    assert_eq!(mailbox.begin_try_send(), TrySendStart::Deliver);
    let (reply, letter) = mailbox.settle_try_send(Err(Refusal::Closed(8)));
    assert_eq!(reply, MailboxReply::Refused(DeadLetterReason::Closed));
    assert_eq!(letter.unwrap().reason, DeadLetterReason::Closed);
    assert_eq!(mailbox.queued(), 0);

    assert_eq!(mailbox.begin_try_send(), TrySendStart::Deliver);
    let (reply, letter) = mailbox.settle_try_send(Ok(()));
    assert_eq!(reply, MailboxReply::Done);
    assert!(letter.is_none());
    assert_eq!(mailbox.queued(), 1);
}

#[test]
fn dead_letter_replies() {
    assert_eq!(dead_letter_reply(true), MailboxReply::Done);
    assert_eq!(dead_letter_reply(false), MailboxReply::Refused(DeadLetterReason::Closed));
}

#[test]
fn emitted_letter_reaches_stream() {
    let (mut mailbox, _rx, dead) = Mailbox::<u32>::open(1);
    let mut dead_in = dead.into_inner();
    mailbox.emit_dead_letter(DeadLetter { reason: DeadLetterReason::Full, message: 9 });
    let letter = dead_in.try_recv().unwrap();
    assert_eq!(letter.reason, DeadLetterReason::Full);
    assert_eq!(letter.message, 9);
}

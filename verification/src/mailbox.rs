use vstd::prelude::*;

use crate::channel::{
    bounded_channel, channel_try_send, max_channel_capacity, unbounded_channel, unbounded_send,
    BoundedRx, BoundedTx, Refusal, UnboundedRx, UnboundedTx,
};
use crate::pkgid::str_eq;

verus! {

/// Why a message was turned away and handed to the dead-letter stream.
#[derive(Clone, Copy, Debug, PartialEq, Eq, Structural)]
pub enum DeadLetterReason {
    Full,
    Closed,
}

/// What a mailbox answers to a request: `ok` (done), or `err` with a reason (refused).
#[derive(Clone, Copy, Debug, PartialEq, Eq, Structural)]
pub enum MailboxReply {
    Done,
    Refused(DeadLetterReason),
}

/// The first half of a `trySend`: either the message goes on to the
/// channel, or it is rejected (a dead letter with that reason, and an
/// `err` reply with the same reason).
#[derive(Clone, Copy, Debug, PartialEq, Eq, Structural)]
pub enum TrySendStart {
    Deliver,
    Reject(DeadLetterReason),
}

/// What the bounded channel reported when a message was offered to it.
#[derive(Clone, Copy, Debug, PartialEq, Eq, Structural)]
pub enum SendOutcome {
    Sent,
    Full,
    Closed,
}

/// A request on the sending side of a mailbox.
#[derive(Clone, Copy, Debug, PartialEq, Eq, Structural)]
pub enum SenderRequest {
    TrySend,
    Close,
}

/// A request on a receiving side (the messages or the dead letters).
#[derive(Clone, Copy, Debug, PartialEq, Eq, Structural)]
pub enum ReceiverRequest {
    Receive,
    Close,
}

/// The counters and flags of a mailbox, as plain values.
#[derive(Clone, Copy, Debug, PartialEq, Eq, Structural)]
pub struct MailboxView {
    pub capacity: usize,
    pub queued: usize,
    pub closed: bool,
    pub sender_present: bool,
}

/// A message that a mailbox turned away, with the reason.
pub struct DeadLetter<M> {
    pub reason: DeadLetterReason,
    pub message: M,
}

/// The shared state of a bounded mailbox: the sender of its channel,
/// which is dropped when the mailbox is closed (so a mailbox is closed
/// exactly when it has no sender), how many messages it may hold, how many
/// slots are taken, and where rejected messages go. It also remembers
/// which channel it feeds and what had been offered to, and taken by, that
/// channel by the time its sender was dropped.
#[verifier::reject_recursive_types(M)]
pub struct Mailbox<M> {
    sender: Option<BoundedTx<M>>,
    capacity: usize,
    queued: usize,
    dead_letters: UnboundedTx<DeadLetter<M>>,
    chan: Ghost<int>,
    accepted_at_close: Ghost<Seq<M>>,
    offered_at_close: Ghost<Seq<M>>,
}

impl<M> View for Mailbox<M> {
    type V = MailboxView;

    closed spec fn view(&self) -> MailboxView {
        MailboxView {
            capacity: self.capacity,
            queued: self.queued,
            closed: self.sender is None,
            sender_present: self.sender is Some,
        }
    }
}

/// A mailbox never holds more reserved slots than its capacity, and its
/// sender is gone exactly when it has been closed.
pub open spec fn mailbox_wf(v: MailboxView) -> bool {
    &&& v.queued <= v.capacity
    &&& (v.closed <==> !v.sender_present)
}

/// The letters to hand to the dead-letter stream for a dead letter, if any.
pub open spec fn handed_for<M>(letter: Option<DeadLetter<M>>) -> Seq<DeadLetter<M>> {
    match letter {
        Some(l) => seq![l],
        None => Seq::empty(),
    }
}

/// The channel's answer to an offered message, as an outcome.
pub open spec fn outcome_of<M>(answer: Result<(), Refusal<M>>) -> SendOutcome {
    match answer {
        Ok(()) => SendOutcome::Sent,
        Err(Refusal::Full(_)) => SendOutcome::Full,
        Err(Refusal::Closed(_)) => SendOutcome::Closed,
    }
}

/// The dead letter for the channel's answer: the refused message, with
/// the channel's reason.
pub open spec fn letter_of<M>(answer: Result<(), Refusal<M>>) -> Option<DeadLetter<M>> {
    match answer {
        Ok(()) => None,
        Err(Refusal::Full(m)) => Some(DeadLetter { reason: DeadLetterReason::Full, message: m }),
        Err(Refusal::Closed(m)) => Some(DeadLetter { reason: DeadLetterReason::Closed, message: m }),
    }
}

/// Whether an answer that refuses carries back `message`.
pub open spec fn answer_returns<M>(answer: Result<(), Refusal<M>>, message: M) -> bool {
    match answer {
        Ok(()) => true,
        Err(Refusal::Full(m)) => m == message,
        Err(Refusal::Closed(m)) => m == message,
    }
}

/// How a `trySend` of `message` ends, from the state `before` it: the
/// mailbox's own refusals, or for a delivered message some answer of the
/// channel (which hands a refused message back), settled exactly.
pub open spec fn try_send_result<M>(
    before: MailboxView,
    message: M,
    after: MailboxView,
    reply: MailboxReply,
    letter: Option<DeadLetter<M>>,
) -> bool {
    let (mid, start) = try_send_start_spec(before);
    &&& letter == dead_letter_for(reply, message)
    &&& match start {
        TrySendStart::Reject(reason) => after == mid && reply == MailboxReply::Refused(reason),
        TrySendStart::Deliver => exists|a: Result<(), Refusal<M>>|
            #[trigger] answer_returns(a, message) && (after, reply) == try_send_finish_spec(
                mid,
                outcome_of(a),
            ) && letter == letter_of(a),
    }
}

/// The capacity asked for, raised to at least one; a request too large
/// for `usize` (`None`) gives the largest capacity.
pub open spec fn capacity_for(requested: Option<usize>) -> usize {
    match requested {
        Some(n) => if n == 0 { 1 } else { n },
        None => usize::MAX,
    }
}

/// Taking a slot: it succeeds exactly when a slot is free.
pub open spec fn reserve_spec(v: MailboxView) -> (MailboxView, bool) {
    if v.queued < v.capacity {
        (
            MailboxView {
                capacity: v.capacity,
                queued: (v.queued + 1) as usize,
                closed: v.closed,
                sender_present: v.sender_present,
            },
            true,
        )
    } else {
        (v, false)
    }
}

/// Giving a slot back; with no slot taken nothing changes.
pub open spec fn release_spec(v: MailboxView) -> MailboxView {
    MailboxView {
        capacity: v.capacity,
        queued: if v.queued > 0 { (v.queued - 1) as usize } else { 0 },
        closed: v.closed,
        sender_present: v.sender_present,
    }
}

/// Closing: the mailbox is marked closed and its sender is dropped.
pub open spec fn close_spec(v: MailboxView) -> MailboxView {
    MailboxView { capacity: v.capacity, queued: v.queued, closed: true, sender_present: false }
}

/// The first half of `trySend`.
pub open spec fn try_send_start_spec(v: MailboxView) -> (MailboxView, TrySendStart) {
    if v.closed {
        (v, TrySendStart::Reject(DeadLetterReason::Closed))
    } else if !reserve_spec(v).1 {
        (v, TrySendStart::Reject(DeadLetterReason::Full))
    } else if v.sender_present {
        (reserve_spec(v).0, TrySendStart::Deliver)
    } else {
        (release_spec(reserve_spec(v).0), TrySendStart::Reject(DeadLetterReason::Closed))
    }
}

/// The second half of `trySend`, once the channel has answered.
pub open spec fn try_send_finish_spec(v: MailboxView, outcome: SendOutcome) -> (
    MailboxView,
    MailboxReply,
) {
    match outcome {
        SendOutcome::Sent => (v, MailboxReply::Done),
        SendOutcome::Full => (release_spec(v), MailboxReply::Refused(DeadLetterReason::Full)),
        SendOutcome::Closed => (release_spec(v), MailboxReply::Refused(DeadLetterReason::Closed)),
    }
}

/// A `receive`: a message frees its slot; an exhausted channel answers `closed`.
pub open spec fn receive_spec(v: MailboxView, got_message: bool) -> (MailboxView, MailboxReply) {
    if got_message {
        (release_spec(v), MailboxReply::Done)
    } else {
        (v, MailboxReply::Refused(DeadLetterReason::Closed))
    }
}

/// The word that a reason is signalled as.
pub open spec fn reason_label(r: DeadLetterReason) -> Seq<char> {
    match r {
        DeadLetterReason::Full => seq!['f', 'u', 'l', 'l'],
        DeadLetterReason::Closed => seq!['c', 'l', 'o', 's', 'e', 'd'],
    }
}

/// The words that a reply is signalled as, in order.
pub open spec fn reply_signals(r: MailboxReply) -> Seq<Seq<char>> {
    match r {
        MailboxReply::Done => seq![seq!['o', 'k']],
        MailboxReply::Refused(reason) => seq![seq!['e', 'r', 'r'], reason_label(reason)],
    }
}

/// The label that closes either side of a mailbox.
pub open spec fn close_name() -> Seq<char> {
    seq!['c', 'l', 'o', 's', 'e']
}

/// The request that a case label on the sending side names.
pub open spec fn sender_request_from_name(s: Seq<char>) -> Option<SenderRequest> {
    if s == seq!['t', 'r', 'y', 'S', 'e', 'n', 'd'] {
        Some(SenderRequest::TrySend)
    } else if s == close_name() {
        Some(SenderRequest::Close)
    } else {
        None
    }
}

/// The request that a case label on a receiving side names.
pub open spec fn receiver_request_from_name(s: Seq<char>) -> Option<ReceiverRequest> {
    if s == seq!['r', 'e', 'c', 'e', 'i', 'v', 'e'] {
        Some(ReceiverRequest::Receive)
    } else if s == close_name() {
        Some(ReceiverRequest::Close)
    } else {
        None
    }
}

/// The capacity a new mailbox gets for a requested size; `None` stands
/// for a request that does not fit in `usize`.
pub fn mailbox_capacity(requested: Option<usize>) -> (r: usize)
    ensures
        r == capacity_for(requested),
        r >= 1,
        match requested {
            Some(n) => n >= 1 ==> r == n,
            None => r == usize::MAX,
        },
{
    match requested {
        Some(n) => if n == 0 { 1 } else { n },
        None => usize::MAX,
    }
}

/// The reply to a `receive` on the dead-letter stream: `ok` with a letter,
/// `closed` once the stream has ended.
pub fn dead_letter_reply(got_letter: bool) -> (r: MailboxReply)
    ensures
        r == (if got_letter {
            MailboxReply::Done
        } else {
            MailboxReply::Refused(DeadLetterReason::Closed)
        }),
{
    if got_letter {
        MailboxReply::Done
    } else {
        MailboxReply::Refused(DeadLetterReason::Closed)
    }
}

/// Reads the label of a request to the sending side.
pub fn parse_sender_request(s: &str) -> (r: Option<SenderRequest>)
    ensures
        r == sender_request_from_name(s@),
{
    proof {
        reveal_strlit("trySend");
        reveal_strlit("close");
        assert("trySend"@ =~= seq!['t', 'r', 'y', 'S', 'e', 'n', 'd']);
        assert("close"@ =~= close_name());
    }
    if str_eq(s, "trySend") {
        Some(SenderRequest::TrySend)
    } else if str_eq(s, "close") {
        Some(SenderRequest::Close)
    } else {
        None
    }
}

/// Reads the label of a request to a receiving side.
pub fn parse_receiver_request(s: &str) -> (r: Option<ReceiverRequest>)
    ensures
        r == receiver_request_from_name(s@),
{
    proof {
        reveal_strlit("receive");
        reveal_strlit("close");
        assert("receive"@ =~= seq!['r', 'e', 'c', 'e', 'i', 'v', 'e']);
        assert("close"@ =~= close_name());
    }
    if str_eq(s, "receive") {
        Some(ReceiverRequest::Receive)
    } else if str_eq(s, "close") {
        Some(ReceiverRequest::Close)
    } else {
        None
    }
}

impl DeadLetterReason {
    /// The word that the reason is signalled as.
    pub fn label(self) -> (r: &'static str)
        ensures
            r@ == reason_label(self),
    {
        match self {
            DeadLetterReason::Full => {
                proof {
                    reveal_strlit("full");
                    assert("full"@ =~= reason_label(DeadLetterReason::Full));
                }
                "full"
            },
            DeadLetterReason::Closed => {
                proof {
                    reveal_strlit("closed");
                    assert("closed"@ =~= reason_label(DeadLetterReason::Closed));
                }
                "closed"
            },
        }
    }
}

impl MailboxReply {
    /// The words that the reply is signalled as, in order.
    pub fn signals(self) -> (r: Vec<&'static str>)
        ensures
            r@.map_values(|s: &'static str| s@) == reply_signals(self),
    {
        let mut out: Vec<&'static str> = Vec::new();
        match self {
            MailboxReply::Done => {
                proof {
                    reveal_strlit("ok");
                    assert("ok"@ =~= seq!['o', 'k']);
                }
                out.push("ok");
                assert(out@.map_values(|s: &'static str| s@)[0] == seq!['o', 'k']);
                assert(out@.map_values(|s: &'static str| s@) =~= reply_signals(self));
            },
            MailboxReply::Refused(reason) => {
                proof {
                    reveal_strlit("err");
                    assert("err"@ =~= seq!['e', 'r', 'r']);
                }
                out.push("err");
                out.push(reason.label());
                assert(out@.map_values(|s: &'static str| s@)[0] == seq!['e', 'r', 'r']);
                assert(out@.map_values(|s: &'static str| s@)[1] == reason_label(reason));
                assert(out@.map_values(|s: &'static str| s@) =~= reply_signals(self));
            },
        }
        out
    }
}

/// Offers a message to the channel, if the sender is still there; without
/// a sender the message is handed back as `closed`.
fn offer_to_channel<M>(sender: &mut Option<BoundedTx<M>>, message: M) -> (r: Result<(), Refusal<M>>)
    ensures
        (*final(sender) is Some) == (*old(sender) is Some),
        answer_returns(r, message),
        match (*old(sender), *final(sender)) {
            (Some(a), Some(b)) => b.chan() == a.chan() && b.offered() == a.offered().push(message)
                && b.sent() == (if r is Ok {
                a.sent().push(message)
            } else {
                a.sent()
            }),
            _ => r is Err,
        },
    no_unwind
{
    match sender {
        Some(s) => channel_try_send(s, message),
        None => Err(Refusal::Closed(message)),
    }
}

/// The dead letter that goes with a reply: none for `ok`, the message
/// with the reply's reason for `err`.
pub open spec fn dead_letter_for<M>(reply: MailboxReply, message: M) -> Option<DeadLetter<M>> {
    match reply {
        MailboxReply::Done => None,
        MailboxReply::Refused(reason) => Some(DeadLetter { reason, message }),
    }
}

impl<M> Mailbox<M> {
    #[verifier::type_invariant]
    closed spec fn inv(self) -> bool {
        &&& mailbox_wf(self@)
        &&& match self.sender {
            Some(s) => s.chan() == self.chan@,
            None => true,
        }
    }

    /// The letters this mailbox has handed to its dead-letter stream, in
    /// order (as recorded by the stream's sender).
    pub closed spec fn handed_on(&self) -> Seq<DeadLetter<M>> {
        self.dead_letters.sent()
    }

    /// The channel that the mailbox's messages go to.
    pub closed spec fn channel(&self) -> int {
        self.chan@
    }

    /// The channel that the mailbox's dead letters go to.
    pub closed spec fn dead_letter_channel(&self) -> int {
        self.dead_letters.chan()
    }

    /// The messages that the mailbox's channel took, in order (as recorded
    /// by the channel's sender).
    pub closed spec fn accepted(&self) -> Seq<M> {
        match self.sender {
            Some(s) => s.sent(),
            None => self.accepted_at_close@,
        }
    }

    /// The messages offered to the mailbox's channel, taken or not, in
    /// order (as recorded by the channel's sender).
    pub closed spec fn offered(&self) -> Seq<M> {
        match self.sender {
            Some(s) => s.offered(),
            None => self.offered_at_close@,
        }
    }

    /// Everything a mailbox step other than a send leaves alone: the two
    /// channels and what was handed to each.
    pub open spec fn same_channels(&self, other: &Self) -> bool {
        &&& self.channel() == other.channel()
        &&& self.dead_letter_channel() == other.dead_letter_channel()
        &&& self.accepted() == other.accepted()
        &&& self.offered() == other.offered()
        &&& self.handed_on() == other.handed_on()
    }

    /// A fresh, open mailbox for `capacity` messages, with the receiving
    /// ends of its message channel and of its dead-letter stream.
    pub fn open(capacity: usize) -> (r: (Mailbox<M>, BoundedRx<M>, UnboundedRx<DeadLetter<M>>))
        requires
            0 < capacity <= max_channel_capacity(),
        ensures
            r.0@ == (MailboxView { capacity, queued: 0, closed: false, sender_present: true }),
            mailbox_wf(r.0@),
            r.0.channel() == r.1.chan(),
            r.0.dead_letter_channel() == r.2.chan(),
            r.0.accepted() == Seq::<M>::empty(),
            r.0.offered() == Seq::<M>::empty(),
            r.0.handed_on() == Seq::<DeadLetter<M>>::empty(),
    {
        let (tx, rx) = bounded_channel::<M>(capacity);
        let (dead_tx, dead_rx) = unbounded_channel::<DeadLetter<M>>();
        let ghost chan = tx.chan();
        let mailbox = Mailbox {
            sender: Some(tx),
            capacity,
            queued: 0,
            dead_letters: dead_tx,
            chan: Ghost(chan),
            accepted_at_close: Ghost(Seq::empty()),
            offered_at_close: Ghost(Seq::empty()),
        };
        (mailbox, rx, dead_rx)
    }

    /// A mailbox for a requested size, raised to at least one; `None`
    /// stands for a request too large for `usize`. The channel refuses a
    /// capacity above its limit, so `requires` leaves such requests out.
    pub fn new_for_request(requested: Option<usize>) -> (r: (
        Mailbox<M>,
        BoundedRx<M>,
        UnboundedRx<DeadLetter<M>>,
    ))
        requires
            capacity_for(requested) <= max_channel_capacity(),
        ensures
            r.0@ == (MailboxView {
                capacity: capacity_for(requested),
                queued: 0,
                closed: false,
                sender_present: true,
            }),
            mailbox_wf(r.0@),
            r.0.channel() == r.1.chan(),
            r.0.dead_letter_channel() == r.2.chan(),
            r.0.accepted() == Seq::<M>::empty(),
            r.0.offered() == Seq::<M>::empty(),
            r.0.handed_on() == Seq::<DeadLetter<M>>::empty(),
    {
        let capacity = mailbox_capacity(requested);
        Mailbox::open(capacity)
    }

    pub fn capacity(&self) -> (r: usize)
        ensures
            r == self@.capacity,
    {
        self.capacity
    }

    pub fn queued(&self) -> (r: usize)
        ensures
            r == self@.queued,
    {
        self.queued
    }

    pub fn is_closed(&self) -> (r: bool)
        ensures
            r == self@.closed,
    {
        self.sender.is_none()
    }

    pub fn has_sender(&self) -> (r: bool)
        ensures
            r == self@.sender_present,
    {
        self.sender.is_some()
    }

    /// Takes a slot if one is free.
    pub fn reserve_slot(&mut self) -> (r: bool)
        ensures
            mailbox_wf(final(self)@),
            (final(self)@, r) == reserve_spec(old(self)@),
            final(self).same_channels(&*old(self)),
    {
        proof {
            use_type_invariant(&*self);
        }
        if self.queued < self.capacity {
            self.queued = self.queued + 1;
            true
        } else {
            false
        }
    }

    /// Gives a slot back; with no slot taken it does nothing.
    pub fn release_slot(&mut self)
        ensures
            mailbox_wf(final(self)@),
            final(self)@ == release_spec(old(self)@),
            final(self).same_channels(&*old(self)),
    {
        proof {
            use_type_invariant(&*self);
        }
        if self.queued > 0 {
            self.queued = self.queued - 1;
        }
    }

    /// Closes the mailbox and drops its sender, so that the receiver sees
    /// the end of the channel once it is drained.
    pub fn close(&mut self)
        ensures
            mailbox_wf(final(self)@),
            final(self)@ == close_spec(old(self)@),
            final(self).same_channels(&*old(self)),
    {
        proof {
            use_type_invariant(&*self);
        }
        let ghost accepted = self.accepted();
        let ghost offered = self.offered();
        self.accepted_at_close = Ghost(accepted);
        self.offered_at_close = Ghost(offered);
        self.sender = None;
    }

    /// Decides a `trySend` before the channel is asked: a closed mailbox
    /// or one without a free slot rejects the message; otherwise a slot is
    /// taken, and without a sender it is given back and the message is
    /// rejected as `closed`.
    pub fn begin_try_send(&mut self) -> (r: TrySendStart)
        ensures
            mailbox_wf(final(self)@),
            (final(self)@, r) == try_send_start_spec(old(self)@),
            final(self).same_channels(&*old(self)),
            final(self)@.capacity == old(self)@.capacity,
            !old(self)@.closed && old(self)@.queued < old(self)@.capacity ==> r
                == TrySendStart::Deliver && final(self)@.queued == old(self)@.queued + 1,
            r == TrySendStart::Reject(DeadLetterReason::Full) ==> old(self)@.queued
                == old(self)@.capacity,
    {
        proof {
            use_type_invariant(&*self);
        }
        if self.is_closed() {
            return TrySendStart::Reject(DeadLetterReason::Closed);
        }
        if !self.reserve_slot() {
            return TrySendStart::Reject(DeadLetterReason::Full);
        }
        if self.sender.is_some() {
            TrySendStart::Deliver
        } else {
            self.release_slot();
            TrySendStart::Reject(DeadLetterReason::Closed)
        }
    }

    /// Completes a delivered `trySend` with what the channel reported: a
    /// refused message gives its slot back and is rejected with the
    /// channel's reason.
    pub fn finish_try_send(&mut self, outcome: SendOutcome) -> (r: MailboxReply)
        ensures
            mailbox_wf(final(self)@),
            (final(self)@, r) == try_send_finish_spec(old(self)@, outcome),
            final(self).same_channels(&*old(self)),
            final(self)@.capacity == old(self)@.capacity,
            final(self)@.closed == old(self)@.closed,
            outcome == SendOutcome::Sent ==> final(self)@ == old(self)@ && r == MailboxReply::Done,
    {
        proof {
            use_type_invariant(&*self);
        }
        match outcome {
            SendOutcome::Sent => MailboxReply::Done,
            SendOutcome::Full => {
                self.release_slot();
                MailboxReply::Refused(DeadLetterReason::Full)
            },
            SendOutcome::Closed => {
                self.release_slot();
                MailboxReply::Refused(DeadLetterReason::Closed)
            },
        }
    }

    /// Settles a delivered `trySend` with the channel's own answer: taken
    /// gives `ok`; a refusal gives its slot back and yields the refused
    /// message as a dead letter with the channel's reason.
    pub fn settle_try_send(&mut self, answer: Result<(), Refusal<M>>) -> (r: (
        MailboxReply,
        Option<DeadLetter<M>>,
    ))
        ensures
            mailbox_wf(final(self)@),
            (final(self)@, r.0) == try_send_finish_spec(old(self)@, outcome_of(answer)),
            r.1 == letter_of(answer),
            final(self).same_channels(&*old(self)),
    {
        proof {
            use_type_invariant(&*self);
        }
        match answer {
            Ok(()) => (self.finish_try_send(SendOutcome::Sent), None),
            Err(Refusal::Full(m)) => {
                let reply = self.finish_try_send(SendOutcome::Full);
                (reply, Some(DeadLetter { reason: DeadLetterReason::Full, message: m }))
            },
            Err(Refusal::Closed(m)) => {
                let reply = self.finish_try_send(SendOutcome::Closed);
                (reply, Some(DeadLetter { reason: DeadLetterReason::Closed, message: m }))
            },
        }
    }

    /// A `trySend`: the reply, and the dead letter that goes with a
    /// refusal. A delivered message is offered to the channel unchanged,
    /// and whatever the channel answers is settled by `settle_try_send`.
    pub fn try_send(&mut self, message: M) -> (r: (MailboxReply, Option<DeadLetter<M>>))
        ensures
            mailbox_wf(final(self)@),
            try_send_result(old(self)@, message, final(self)@, r.0, r.1),
            final(self).channel() == old(self).channel(),
            final(self).dead_letter_channel() == old(self).dead_letter_channel(),
            final(self).handed_on() == old(self).handed_on(),
            final(self).accepted() == (if r.0 == MailboxReply::Done {
                old(self).accepted().push(message)
            } else {
                old(self).accepted()
            }),
            final(self).offered() == (if try_send_start_spec(old(self)@).1 == TrySendStart::Deliver {
                old(self).offered().push(message)
            } else {
                old(self).offered()
            }),
    {
        proof {
            use_type_invariant(&*self);
        }
        let ghost before = self@;
        match self.begin_try_send() {
            TrySendStart::Reject(reason) => {
                (MailboxReply::Refused(reason), Some(DeadLetter { reason, message }))
            },
            TrySendStart::Deliver => {
                let ghost mid = self@;
                let ghost sent = message;
                proof {
                    use_type_invariant(&*self);
                }
                let answer = offer_to_channel(&mut self.sender, message);
                assert(answer_returns(answer, sent));
                let r = self.settle_try_send(answer);
                assert(try_send_start_spec(before).0 == mid);
                assert(r.1 == dead_letter_for(r.0, sent));
                r
            },
        }
    }

    /// Hands a rejected message to the dead-letter stream; if nobody reads
    /// that stream any more, the channel drops it.
    pub fn emit_dead_letter(&mut self, letter: DeadLetter<M>)
        ensures
            mailbox_wf(final(self)@),
            final(self)@ == old(self)@,
            final(self).channel() == old(self).channel(),
            final(self).dead_letter_channel() == old(self).dead_letter_channel(),
            final(self).accepted() == old(self).accepted(),
            final(self).offered() == old(self).offered(),
            final(self).handed_on() == old(self).handed_on().push(letter),
    {
        proof {
            use_type_invariant(&*self);
        }
        unbounded_send(&mut self.dead_letters, letter);
    }

    /// A `trySend` as the mailbox serves it: the message is offered, a
    /// rejected one is handed to the dead-letter stream, and the reply is
    /// returned.
    pub fn offer(&mut self, message: M) -> (r: MailboxReply)
        ensures
            mailbox_wf(final(self)@),
            exists|letter: Option<DeadLetter<M>>|
                #[trigger] try_send_result(old(self)@, message, final(self)@, r, letter)
                    && final(self).handed_on() == old(self).handed_on() + handed_for(letter),
            final(self).channel() == old(self).channel(),
            final(self).dead_letter_channel() == old(self).dead_letter_channel(),
            final(self).accepted() == (if r == MailboxReply::Done {
                old(self).accepted().push(message)
            } else {
                old(self).accepted()
            }),
            final(self).offered() == (if try_send_start_spec(old(self)@).1 == TrySendStart::Deliver {
                old(self).offered().push(message)
            } else {
                old(self).offered()
            }),
    {
        proof {
            use_type_invariant(&*self);
        }
        let (reply, letter) = self.try_send(message);
        let ghost l = letter;
        let ghost before_emit = self.handed_on();
        match letter {
            Some(d) => self.emit_dead_letter(d),
            None => {},
        }
        assert(self.handed_on() =~= before_emit + handed_for(l));
        reply
    }

    /// Answers a `receive` once the channel has yielded a message or
    /// reported that none will come: a message frees its slot.
    pub fn finish_receive(&mut self, got_message: bool) -> (r: MailboxReply)
        ensures
            mailbox_wf(final(self)@),
            (final(self)@, r) == receive_spec(old(self)@, got_message),
            final(self).same_channels(&*old(self)),
            final(self)@.capacity == old(self)@.capacity,
            got_message && old(self)@.queued > 0 ==> final(self)@.queued == old(self)@.queued - 1
                && r == MailboxReply::Done,
    {
        proof {
            use_type_invariant(&*self);
        }
        if got_message {
            self.release_slot();
            MailboxReply::Done
        } else {
            MailboxReply::Refused(DeadLetterReason::Closed)
        }
    }
}

/// Giving back a slot that was just taken restores the mailbox.
pub proof fn lemma_release_undoes_reserve(v: MailboxView)
    requires
        mailbox_wf(v),
    ensures
        reserve_spec(v).1 ==> release_spec(reserve_spec(v).0) == v,
        !reserve_spec(v).1 ==> reserve_spec(v).0 == v,
{
}

/// A `trySend` takes a slot only when it is delivered and the channel
/// accepts the message; every other outcome leaves the mailbox as it was,
/// and a rejection names the same reason in its reply as in its dead letter.
pub proof fn lemma_try_send_accounting(v: MailboxView, outcome: SendOutcome)
    requires
        mailbox_wf(v),
    ensures
        ({
            let (mid, start) = try_send_start_spec(v);
            match start {
                TrySendStart::Reject(_) => mid == v,
                TrySendStart::Deliver => {
                    let (after, reply) = try_send_finish_spec(mid, outcome);
                    &&& v.queued < v.capacity
                    &&& (reply is Done <==> outcome is Sent)
                    &&& outcome is Sent ==> after.queued == v.queued + 1
                    &&& !(outcome is Sent) ==> after == v
                },
            }
        }),
{
}

/// A closed mailbox turns every message away as `closed`, and nothing
/// reopens it.
pub proof fn lemma_closed_is_final(v: MailboxView, outcome: SendOutcome, got: bool)
    requires
        mailbox_wf(v),
        v.closed,
    ensures
        try_send_start_spec(v) == (v, TrySendStart::Reject(DeadLetterReason::Closed)),
        try_send_finish_spec(v, outcome).0.closed,
        receive_spec(v, got).0.closed,
        reserve_spec(v).0.closed,
        release_spec(v).closed,
        close_spec(v).closed,
{
}

/// A full mailbox rejects a send as `full`, and a received message makes
/// room for exactly one more.
pub proof fn lemma_full_until_received(v: MailboxView)
    requires
        mailbox_wf(v),
        !v.closed,
        v.queued == v.capacity,
        v.capacity > 0,
    ensures
        try_send_start_spec(v) == (v, TrySendStart::Reject(DeadLetterReason::Full)),
        try_send_start_spec(receive_spec(v, true).0).1 == TrySendStart::Deliver,
        try_send_start_spec(receive_spec(v, true).0).0 == v,
{
}

/// Every step keeps a mailbox well formed.
pub proof fn lemma_steps_keep_wf(v: MailboxView, outcome: SendOutcome, got: bool)
    requires
        mailbox_wf(v),
    ensures
        mailbox_wf(reserve_spec(v).0),
        mailbox_wf(release_spec(v)),
        mailbox_wf(close_spec(v)),
        mailbox_wf(try_send_start_spec(v).0),
        mailbox_wf(try_send_finish_spec(v, outcome).0),
        mailbox_wf(receive_spec(v, got).0),
{
}

/// `k` reservations one after another, and how many of them succeeded.
pub open spec fn reserve_many(v: MailboxView, k: nat) -> (MailboxView, nat)
    decreases k,
{
    if k == 0 {
        (v, 0)
    } else {
        let (w, n) = reserve_many(v, (k - 1) as nat);
        let (x, ok) = reserve_spec(w);
        (x, if ok { n + 1 } else { n })
    }
}

pub open spec fn min_nat(a: nat, b: nat) -> nat {
    if a <= b { a } else { b }
}

/// Of `k` reservations on a mailbox with `q` of `c` slots taken, exactly
/// `min(k, c - q)` succeed, and the taken slots grow by that much, never
/// beyond the capacity.
pub proof fn lemma_reservations_fill_up(v: MailboxView, k: nat)
    requires
        v.queued <= v.capacity,
    ensures
        reserve_many(v, k).1 == min_nat(k, (v.capacity - v.queued) as nat),
        reserve_many(v, k).0.queued == v.queued + min_nat(k, (v.capacity - v.queued) as nat),
        reserve_many(v, k).0.queued <= v.capacity,
        reserve_many(v, k).0.capacity == v.capacity,
        reserve_many(v, k).0.closed == v.closed,
        reserve_many(v, k).0.sender_present == v.sender_present,
    decreases k,
{
    if k > 0 {
        lemma_reservations_fill_up(v, (k - 1) as nat);
    }
}

/// An open mailbox with a free slot takes the message: the first step of
/// `trySend` delivers it and takes exactly one slot, leaving everything
/// else as it was. A `trySend` is refused as full exactly when every slot
/// is taken, and as closed exactly when the mailbox is closed.
pub proof fn lemma_send_with_room_is_delivered(v: MailboxView)
    requires
        mailbox_wf(v),
    ensures
        !v.closed && v.queued < v.capacity ==> try_send_start_spec(v) == (
            MailboxView {
                capacity: v.capacity,
                queued: (v.queued + 1) as usize,
                closed: false,
                sender_present: true,
            },
            TrySendStart::Deliver,
        ),
        try_send_start_spec(v).1 == TrySendStart::Reject(DeadLetterReason::Full) <==> (!v.closed
            && v.queued == v.capacity),
        try_send_start_spec(v).1 == TrySendStart::Reject(DeadLetterReason::Closed) <==> v.closed,
        try_send_start_spec(v).0.capacity == v.capacity,
{
}

/// Receiving a message frees exactly one slot, whatever the fill level,
/// and changes nothing else; an exhausted channel changes nothing.
pub proof fn lemma_receive_frees_one_slot(v: MailboxView)
    requires
        mailbox_wf(v),
        v.queued > 0,
    ensures
        receive_spec(v, true) == (
            MailboxView {
                capacity: v.capacity,
                queued: (v.queued - 1) as usize,
                closed: v.closed,
                sender_present: v.sender_present,
            },
            MailboxReply::Done,
        ),
        receive_spec(v, false) == (v, MailboxReply::Refused(DeadLetterReason::Closed)),
{
}

/// The capacity of a mailbox is the size requested, raised to one; a
/// request too large for `usize` gives `usize::MAX`.
pub proof fn lemma_capacity_is_request(n: usize)
    ensures
        n >= 1 ==> capacity_for(Some(n)) == n,
        capacity_for(Some(0)) == 1,
        capacity_for(None) == usize::MAX,
        capacity_for(Some(n)) >= n,
{
}

/// A message the channel took leaves the mailbox exactly as the first step
/// left it (its slot stays taken) and is answered `ok`; a refused one gives
/// back exactly one slot. No step of a `trySend` changes the capacity or
/// whether the mailbox is closed.
pub proof fn lemma_finish_keeps_capacity(v: MailboxView, outcome: SendOutcome)
    requires
        mailbox_wf(v),
    ensures
        try_send_finish_spec(v, SendOutcome::Sent) == (v, MailboxReply::Done),
        try_send_finish_spec(v, outcome).0.capacity == v.capacity,
        try_send_finish_spec(v, outcome).0.closed == v.closed,
        try_send_finish_spec(v, outcome).0.sender_present == v.sender_present,
        outcome != SendOutcome::Sent && v.queued > 0 ==> try_send_finish_spec(v, outcome).0.queued
            == v.queued - 1,
        outcome == SendOutcome::Full ==> try_send_finish_spec(v, outcome).1 == MailboxReply::Refused(
            DeadLetterReason::Full,
        ),
        outcome == SendOutcome::Closed ==> try_send_finish_spec(v, outcome).1
            == MailboxReply::Refused(DeadLetterReason::Closed),
{
}

/// On an open mailbox with `q` of `c` slots taken, `k` sends that the
/// channel takes, one after another, are all answered `ok` while `q + k`
/// stays within `c`, and leave `q + k` slots taken and the capacity as it was.
pub proof fn lemma_sends_fill_slots(v: MailboxView, k: nat)
    requires
        mailbox_wf(v),
        !v.closed,
        v.queued + k <= v.capacity,
    ensures
        accepted_sends(v, k).1,
        accepted_sends(v, k).0 == (MailboxView {
            capacity: v.capacity,
            queued: (v.queued + k) as usize,
            closed: false,
            sender_present: true,
        }),
    decreases k,
{
    if k > 0 {
        lemma_sends_fill_slots(v, (k - 1) as nat);
    }
}

/// `k` sends one after another, each taken by the channel when delivered:
/// the mailbox after them, and whether every one was answered `ok`.
pub open spec fn accepted_sends(v: MailboxView, k: nat) -> (MailboxView, bool)
    decreases k,
{
    if k == 0 {
        (v, true)
    } else {
        let (w, all_ok) = accepted_sends(v, (k - 1) as nat);
        let (mid, start) = try_send_start_spec(w);
        match start {
            TrySendStart::Deliver => {
                let (after, reply) = try_send_finish_spec(mid, SendOutcome::Sent);
                (after, all_ok && reply == MailboxReply::Done)
            },
            TrySendStart::Reject(_) => (mid, false),
        }
    }
}

} // verus!

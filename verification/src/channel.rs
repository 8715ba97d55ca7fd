use vstd::prelude::*;

use tokio::sync::mpsc::error::{TryRecvError, TrySendError};
use tokio::sync::mpsc::{Receiver, Sender, UnboundedReceiver, UnboundedSender, WeakUnboundedSender};

use crate::reducer::InboxPoll;

verus! {

/// The sending half of a bounded tokio channel.
#[verifier::external_type_specification]
#[verifier::external_body]
#[verifier::reject_recursive_types(T)]
pub struct ExBoundedSender<T>(Sender<T>);

/// The receiving half of a bounded tokio channel.
#[verifier::external_type_specification]
#[verifier::external_body]
#[verifier::reject_recursive_types(T)]
pub struct ExBoundedReceiver<T>(Receiver<T>);

/// The sending half of an unbounded tokio channel.
#[verifier::external_type_specification]
#[verifier::external_body]
#[verifier::reject_recursive_types(T)]
pub struct ExUnboundedSender<T>(UnboundedSender<T>);

/// The receiving half of an unbounded tokio channel.
#[verifier::external_type_specification]
#[verifier::external_body]
#[verifier::reject_recursive_types(T)]
pub struct ExUnboundedReceiver<T>(UnboundedReceiver<T>);

/// A sending half of an unbounded tokio channel that does not keep the
/// channel open.
#[verifier::external_type_specification]
#[verifier::external_body]
#[verifier::reject_recursive_types(T)]
pub struct ExWeakUnboundedSender<T>(WeakUnboundedSender<T>);

/// The largest buffer that a bounded tokio channel accepts (its semaphore's
/// `MAX_PERMITS`, `usize::MAX >> 3`).
pub open spec fn max_channel_capacity() -> int {
    usize::MAX as int / 8
}

/// What a refused offer to a channel reports: why, and the message itself.
pub enum Refusal<M> {
    Full(M),
    Closed(M),
}

/// The sending half of a bounded channel, with the channel it belongs to
/// and the messages the channel took from this half, in order. Only the
/// functions of this module make one or change its record.
#[verifier::reject_recursive_types(M)]
pub struct BoundedTx<M> {
    tx: Sender<M>,
    chan: Ghost<int>,
    sent: Ghost<Seq<M>>,
    offered: Ghost<Seq<M>>,
}

/// The receiving half of a bounded channel, with the channel it belongs to.
#[verifier::reject_recursive_types(M)]
pub struct BoundedRx<M> {
    inner: Receiver<M>,
    chan: Ghost<int>,
}

/// The sending half of an unbounded channel, with its channel and the
/// messages handed to the channel through this half, in order.
#[verifier::reject_recursive_types(M)]
pub struct UnboundedTx<M> {
    inner: UnboundedSender<M>,
    chan: Ghost<int>,
    sent: Ghost<Seq<M>>,
}

/// The receiving half of an unbounded channel, with its channel and the
/// messages taken from it without waiting, in order.
#[verifier::reject_recursive_types(M)]
pub struct UnboundedRx<M> {
    inner: UnboundedReceiver<M>,
    chan: Ghost<int>,
    taken: Ghost<Seq<M>>,
    ended: Ghost<bool>,
    polls: Ghost<nat>,
}

/// A weak sending half of an unbounded channel, with its channel.
#[verifier::reject_recursive_types(M)]
pub struct WeakTx<M> {
    weak: WeakUnboundedSender<M>,
    chan: Ghost<int>,
}

impl<M> BoundedTx<M> {
    pub closed spec fn chan(&self) -> int {
        self.chan@
    }

    pub closed spec fn sent(&self) -> Seq<M> {
        self.sent@
    }

    /// Every message offered through this half, taken or not, in order.
    pub closed spec fn offered(&self) -> Seq<M> {
        self.offered@
    }
}

impl<M> BoundedRx<M> {
    pub closed spec fn chan(&self) -> int {
        self.chan@
    }

    /// The tokio receiver.
    pub fn into_inner(self) -> Receiver<M> {
        self.inner
    }
}

impl<M> UnboundedTx<M> {
    pub closed spec fn chan(&self) -> int {
        self.chan@
    }

    pub closed spec fn sent(&self) -> Seq<M> {
        self.sent@
    }

    /// The tokio sender.
    pub fn into_inner(self) -> UnboundedSender<M> {
        self.inner
    }
}

impl<M> UnboundedRx<M> {
    pub closed spec fn chan(&self) -> int {
        self.chan@
    }

    pub closed spec fn taken(&self) -> Seq<M> {
        self.taken@
    }

    /// The tokio receiver, for reads that wait; the channel and the record
    /// of messages taken without waiting stay as they are.
    pub fn inner_mut(&mut self) -> (r: &mut UnboundedReceiver<M>)
        ensures
            final(self).chan() == old(self).chan(),
            final(self).taken() == old(self).taken(),
            final(self).ended() == old(self).ended(),
            final(self).polls() == old(self).polls(),
        no_unwind
    {
        &mut self.inner
    }

    /// The tokio receiver.
    pub fn into_inner(self) -> UnboundedReceiver<M> {
        self.inner
    }

    /// Whether the last read without waiting found no message.
    pub closed spec fn ended(&self) -> bool {
        self.ended@
    }

    /// How many reads without waiting were made.
    pub closed spec fn polls(&self) -> nat {
        self.polls@
    }
}

impl<M> WeakTx<M> {
    pub closed spec fn chan(&self) -> int {
        self.chan@
    }
}

/// `tokio::sync::mpsc::channel`: a bounded channel holding up to
/// `capacity` messages, whose two halves belong to one channel. It panics
/// on a capacity of zero or above `MAX_PERMITS`, which `requires` leaves out.
#[verifier::external_body]
pub(crate) fn bounded_channel<M>(capacity: usize) -> (r: (BoundedTx<M>, BoundedRx<M>))
    requires
        0 < capacity <= max_channel_capacity(),
    ensures
        r.0.chan() == r.1.chan(),
        r.0.sent() == Seq::<M>::empty(),
        r.0.offered() == Seq::<M>::empty(),
{
    let (tx, rx) = tokio::sync::mpsc::channel::<M>(capacity);
    let chan = Ghost(arbitrary());
    (
        BoundedTx { tx, chan, sent: Ghost(Seq::empty()), offered: Ghost(Seq::empty()) },
        BoundedRx { inner: rx, chan },
    )
}

/// `tokio::sync::mpsc::unbounded_channel`: a channel without a bound, whose
/// two halves belong to one channel.
#[verifier::external_body]
pub(crate) fn unbounded_channel<M>() -> (r: (UnboundedTx<M>, UnboundedRx<M>))
    ensures
        r.0.chan() == r.1.chan(),
        r.0.sent() == Seq::<M>::empty(),
        r.1.taken() == Seq::<M>::empty(),
{
    let (tx, rx) = tokio::sync::mpsc::unbounded_channel::<M>();
    let chan = Ghost(arbitrary());
    (
        UnboundedTx { inner: tx, chan, sent: Ghost(Seq::empty()) },
        UnboundedRx { inner: rx, chan, taken: Ghost(Seq::empty()), ended: Ghost(false), polls: Ghost(0) },
    )
}

/// `Sender::try_send`: offers a message without waiting. Whether it is
/// taken depends on the channel's other users. Claimed: the message is
/// offered whatever the answer; a taken message is the one offered, and a
/// refusal (`Full` when no permit is free, `Closed` when the receiver is
/// gone) hands it back and takes nothing.
#[verifier::external_body]
pub(crate) fn channel_try_send<M>(sender: &mut BoundedTx<M>, message: M) -> (r: Result<(), Refusal<M>>)
    ensures
        final(sender).chan() == old(sender).chan(),
        final(sender).offered() == old(sender).offered().push(message),
        match r {
            Ok(()) => final(sender).sent() == old(sender).sent().push(message),
            Err(Refusal::Full(m)) => m == message && final(sender).sent() == old(sender).sent(),
            Err(Refusal::Closed(m)) => m == message && final(sender).sent() == old(sender).sent(),
        },
    no_unwind
{
    match sender.tx.try_send(message) {
        Ok(()) => Ok(()),
        Err(TrySendError::Full(m)) => Err(Refusal::Full(m)),
        Err(TrySendError::Closed(m)) => Err(Refusal::Closed(m)),
    }
}

/// `UnboundedSender::send`: hands the message to the channel, which queues
/// it unless the receiver is gone, in which case it is dropped. Whether the
/// receiver is still there depends on another task; claimed only that the
/// message was handed on through this half.
#[verifier::external_body]
pub(crate) fn unbounded_send<M>(sender: &mut UnboundedTx<M>, message: M)
    ensures
        final(sender).chan() == old(sender).chan(),
        final(sender).sent() == old(sender).sent().push(message),
    no_unwind
{
    let _ = sender.inner.send(message);
}

/// `UnboundedSender::downgrade`: a weak sender for the same channel.
#[verifier::external_body]
pub(crate) fn downgrade_sender<M>(sender: &UnboundedTx<M>) -> (r: WeakTx<M>)
    ensures
        r.chan() == sender.chan(),
{
    WeakTx { weak: sender.inner.downgrade(), chan: sender.chan }
}

/// `WeakUnboundedSender::upgrade`: a sender for the same channel while
/// other senders keep it alive, else `None`. Which one depends on other
/// tasks; claimed only that a sender given is for the same channel.
#[verifier::external_body]
pub(crate) fn upgrade_sender<M>(weak: &WeakTx<M>) -> (r: Option<UnboundedTx<M>>)
    ensures
        match r {
            Some(s) => s.chan() == weak.chan() && s.sent() == Seq::<M>::empty(),
            None => true,
        },
{
    match weak.weak.upgrade() {
        Some(tx) => Some(UnboundedTx { inner: tx, chan: weak.chan, sent: Ghost(Seq::empty()) }),
        None => None,
    }
}

/// `UnboundedReceiver::try_recv`: the next queued message, or why there is
/// none (`Empty` while senders remain, `Disconnected` once all are gone).
/// Claimed: a message comes exactly with `InboxPoll::Message`, and is
/// recorded as taken.
#[verifier::external_body]
pub(crate) fn inbox_try_recv<M>(inbox: &mut UnboundedRx<M>) -> (r: (InboxPoll, Option<M>))
    ensures
        final(inbox).chan() == old(inbox).chan(),
        (r.0 == InboxPoll::Message) <==> r.1 is Some,
        final(inbox).ended() == (r.0 != InboxPoll::Message),
        final(inbox).polls() == old(inbox).polls() + 1,
        match r.1 {
            Some(m) => final(inbox).taken() == old(inbox).taken().push(m),
            None => final(inbox).taken() == old(inbox).taken(),
        },
    no_unwind
{
    match inbox.inner.try_recv() {
        Ok(m) => (InboxPoll::Message, Some(m)),
        Err(TryRecvError::Empty) => (InboxPoll::Empty, None),
        Err(TryRecvError::Disconnected) => (InboxPoll::Disconnected, None),
    }
}

/// `UnboundedReceiver::is_closed`: whether every sender is gone or the
/// receiver was closed; that depends on other tasks, so nothing is claimed.
#[verifier::external_body]
pub(crate) fn inbox_is_closed<M>(inbox: &UnboundedRx<M>) -> bool
    no_unwind
{
    inbox.inner.is_closed()
}

} // verus!

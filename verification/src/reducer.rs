use vstd::prelude::*;

use tokio::sync::mpsc::UnboundedReceiver;

use crate::channel::{
    downgrade_sender, inbox_is_closed, inbox_try_recv, unbounded_channel, unbounded_send, upgrade_sender,
    UnboundedRx, UnboundedTx, WeakTx,
};

verus! {

/// A message to the reducer: an active pair of nodes to reduce, a task to
/// spawn, or a notice that a handle was dropped or created.
pub enum ReducerMessage<N, S> {
    Redex(N, N),
    Spawn(S),
    Dropped(usize),
    Created(usize),
}

/// Files a message: a redex joins the pending redexes, a task is handed
/// back to be spawned, and the notices change nothing.
pub fn handle_message<N, S>(redexes: &mut Vec<(N, N)>, msg: ReducerMessage<N, S>) -> (spawn: Option<
    S,
>)
    ensures
        match msg {
            ReducerMessage::Redex(a, b) => final(redexes)@ == old(redexes)@.push((a, b))
                && spawn is None,
            ReducerMessage::Spawn(s) => final(redexes)@ == old(redexes)@ && spawn == Some(s),
            _ => final(redexes)@ == old(redexes)@ && spawn is None,
        },
{
    match msg {
        ReducerMessage::Redex(a, b) => {
            redexes.push((a, b));
            None
        },
        ReducerMessage::Spawn(s) => Some(s),
        ReducerMessage::Dropped(_) => None,
        ReducerMessage::Created(_) => None,
    }
}

/// The counter from which the reducer's network handles take their ids.
pub struct HandleCounter {
    next: usize,
}

impl View for HandleCounter {
    type V = usize;

    closed spec fn view(&self) -> usize {
        self.next
    }
}

/// The id that a handle gets, and the counter after it: a handle on the
/// live channel takes the counter's value and advances it (wrapping); a
/// handle on a freshly made channel gets id 0 and leaves the counter alone.
pub open spec fn handle_id_spec(next: usize, channel_alive: bool) -> (usize, usize) {
    if channel_alive {
        (next, if next == usize::MAX { 0 } else { (next + 1) as usize })
    } else {
        (0, next)
    }
}

impl HandleCounter {
    /// A counter for a new reducer, whose first handle has id 0.
    pub fn new() -> (r: HandleCounter)
        ensures
            r@ == 0,
    {
        HandleCounter { next: 0 }
    }

    pub fn peek(&self) -> (r: usize)
        ensures
            r == self@,
    {
        self.next
    }

    /// The id for a new handle.
    pub fn issue(&mut self, channel_alive: bool) -> (id: usize)
        ensures
            (id, final(self)@) == handle_id_spec(old(self)@, channel_alive),
    {
        if channel_alive {
            let id = self.next;
            self.next = self.next.wrapping_add(1);
            id
        } else {
            0
        }
    }
}

/// Handles issued one after another on a live channel get consecutive ids
/// until the counter wraps, so they are distinct.
pub proof fn lemma_consecutive_ids(next: usize)
    requires
        next < usize::MAX,
    ensures
        handle_id_spec(handle_id_spec(next, true).1, true).0 == next + 1,
        handle_id_spec(next, true).0 != handle_id_spec(handle_id_spec(next, true).1, true).0,
{
}

/// The ids of `k` handles issued one after another on a live channel, and
/// the counter after them.
pub open spec fn issue_many(next: usize, k: nat) -> (Seq<usize>, usize)
    decreases k,
{
    if k == 0 {
        (Seq::empty(), next)
    } else {
        let (ids, c) = issue_many(next, (k - 1) as nat);
        let (id, c2) = handle_id_spec(c, true);
        (ids.push(id), c2)
    }
}

/// `k` handles issued from a counter at `c0` get exactly the ids
/// `c0, c0 + 1, ..., c0 + k - 1`, and leave the counter at `c0 + k`, as
/// long as that does not pass `usize::MAX`.
pub proof fn lemma_issued_ids(next: usize, k: nat)
    requires
        next + k <= usize::MAX,
    ensures
        issue_many(next, k).0 == Seq::new(k, |i: int| (next + i) as usize),
        issue_many(next, k).1 == next + k,
    decreases k,
{
    if k > 0 {
        lemma_issued_ids(next, (k - 1) as nat);
        assert(issue_many(next, k).0 =~= Seq::new(k, |i: int| (next + i) as usize));
    }
}

/// What a non-blocking read of the reducer's inbox found.
#[derive(Clone, Copy, Debug, PartialEq, Eq, Structural)]
pub enum InboxPoll {
    Message,
    Empty,
    Disconnected,
}

/// While old messages are moved to a new channel: whether to move the one
/// just read, or to stop.
#[derive(Clone, Copy, Debug, PartialEq, Eq, Structural)]
pub enum ForwardStep {
    Forward,
    Stop,
}

/// Moving the inbox to a new channel: every message read is forwarded,
/// and the move stops once the old inbox is empty and closed or
/// disconnected. An empty inbox that is still open cannot occur here,
/// since every sender is gone.
pub fn forward_step(poll: InboxPoll, inbox_closed: bool) -> (r: ForwardStep)
    requires
        !(poll == InboxPoll::Empty && !inbox_closed),
    ensures
        r == (if poll == InboxPoll::Message { ForwardStep::Forward } else { ForwardStep::Stop }),
    no_unwind
{
    match poll {
        InboxPoll::Message => ForwardStep::Forward,
        InboxPoll::Empty => ForwardStep::Stop,
        InboxPoll::Disconnected => ForwardStep::Stop,
    }
}

/// The reducer's inbox, with a weak sender into the same channel for
/// handing out new handles.
#[verifier::reject_recursive_types(M)]
pub struct ReducerInbox<M> {
    inbox: UnboundedRx<M>,
    sender: WeakTx<M>,
    retired: Ghost<Option<UnboundedRx<M>>>,
}

impl<M> ReducerInbox<M> {
    #[verifier::type_invariant]
    closed spec fn inv(self) -> bool {
        self.sender.chan() == self.inbox.chan()
    }

    /// The channel that the inbox reads.
    pub closed spec fn channel(&self) -> int {
        self.inbox.chan()
    }

    /// The messages read from the inbox without waiting, in order.
    pub closed spec fn taken(&self) -> Seq<M> {
        self.inbox.taken()
    }

    /// How many reads without waiting the inbox has had.
    pub closed spec fn polls(&self) -> nat {
        self.inbox.polls()
    }

    /// The inbox that the last move to a new channel emptied, as it was
    /// when it was dropped.
    pub closed spec fn retired(&self) -> Option<UnboundedRx<M>> {
        self.retired@
    }

    /// A new inbox and the first sender into it.
    pub fn new() -> (r: (ReducerInbox<M>, UnboundedTx<M>))
        ensures
            r.1.chan() == r.0.channel(),
            r.1.sent() == Seq::<M>::empty(),
            r.0.taken() == Seq::<M>::empty(),
    {
        let (tx, rx) = unbounded_channel::<M>();
        let weak = downgrade_sender(&tx);
        (ReducerInbox { inbox: rx, sender: weak, retired: Ghost(None) }, tx)
    }

    /// The receiving end, for reads that wait.
    pub fn inbox_mut(&mut self) -> (r: &mut UnboundedReceiver<M>)
        ensures
            final(self).channel() == old(self).channel(),
            final(self).taken() == old(self).taken(),
    {
        proof {
            use_type_invariant(&*self);
        }
        self.inbox.inner_mut()
    }

    /// Reads the inbox without waiting; a message read is recorded as taken.
    pub fn try_receive(&mut self) -> (r: Option<M>)
        ensures
            final(self).channel() == old(self).channel(),
            match r {
                Some(m) => final(self).taken() == old(self).taken().push(m),
                None => final(self).taken() == old(self).taken(),
            },
    {
        proof {
            use_type_invariant(&*self);
        }
        let (_poll, msg) = inbox_try_recv(&mut self.inbox);
        msg
    }

    /// A sender into the inbox, and the id of the handle that carries it.
    /// While some sender keeps the channel alive (`r.2`), the sender is for
    /// the inbox's channel, the inbox is left alone and the id is taken
    /// from the counter. Once every sender is gone, a new channel is made,
    /// what is left in the old inbox is moved to it by `forward_all`, it
    /// becomes the inbox, and the handle gets id 0 without touching the
    /// counter.
    pub fn net_handle(&mut self, counter: &mut HandleCounter) -> (r: (UnboundedTx<M>, usize, bool))
        ensures
            (r.1, final(counter)@) == handle_id_spec(old(counter)@, r.2),
            r.0.chan() == final(self).channel(),
            r.2 ==> final(self).channel() == old(self).channel() && final(self).taken() == old(
                self,
            ).taken() && r.0.sent() == Seq::<M>::empty(),
            !r.2 ==> final(self).taken() == Seq::<M>::empty() && match final(self).retired() {
                Some(old_inbox) => {
                    &&& old_inbox.chan() == old(self).channel()
                    &&& old_inbox.polls() > old(self).polls()
                    &&& old(self).taken().is_prefix_of(old_inbox.taken())
                    &&& r.0.sent() == old_inbox.taken().skip(old(self).taken().len() as int)
                    &&& (old_inbox.ended() || old_inbox.taken().len() - old(self).taken().len()
                        == usize::MAX)
                },
                None => false,
            },
    {
        proof {
            use_type_invariant(&*self);
        }
        match upgrade_sender(&self.sender) {
            Some(sender) => {
                let id = counter.issue(true);
                (sender, id, true)
            },
            None => {
                let (mut tx, rx) = unbounded_channel::<M>();
                forward_all(&mut self.inbox, &mut tx);
                let ghost old_inbox = self.inbox;
                let weak = downgrade_sender(&tx);
                *self = ReducerInbox { inbox: rx, sender: weak, retired: Ghost(Some(old_inbox)) };
                let id = counter.issue(false);
                (tx, id, false)
            },
        }
    }
}

/// Moves what is left in `from` to `to`: every message read from `from`
/// is handed to `to`, in order, and the move stops only once `from` reports
/// no message, or after `usize::MAX` messages (more than a channel holds).
/// An empty inbox that is still open would mean a sender is alive; the
/// move stops there too.
pub fn forward_all<M>(from: &mut UnboundedRx<M>, to: &mut UnboundedTx<M>)
    ensures
        final(from).chan() == old(from).chan(),
        final(to).chan() == old(to).chan(),
        old(from).taken().is_prefix_of(final(from).taken()),
        final(to).sent() == old(to).sent() + final(from).taken().skip(old(from).taken().len() as int),
        final(from).ended() || final(from).taken().len() - old(from).taken().len() == usize::MAX,
        final(from).polls() > old(from).polls(),
    no_unwind
{
    let ghost from0 = from.taken();
    let ghost to0 = to.sent();
    let mut budget: usize = usize::MAX;
    while budget > 0
        invariant_except_break
            from.polls() == old(from).polls() + (usize::MAX - budget),
        invariant
            from.chan() == old(from).chan(),
            to.chan() == old(to).chan(),
            from0 == old(from).taken(),
            to0 == old(to).sent(),
            from0.is_prefix_of(from.taken()),
            to.sent() == to0 + from.taken().skip(from0.len() as int),
            from.taken().len() - from0.len() == usize::MAX - budget,
        ensures
            from.polls() > old(from).polls(),
            from.chan() == old(from).chan(),
            to.chan() == old(to).chan(),
            from0.is_prefix_of(from.taken()),
            to.sent() == to0 + from.taken().skip(from0.len() as int),
            from.ended() || from.taken().len() - from0.len() == usize::MAX,
        decreases budget,
    {
        let ghost taken_before = from.taken();
        let (poll, msg) = inbox_try_recv(from);
        let closed = inbox_is_closed(from);
        if poll == InboxPoll::Empty && !closed {
            break;
        }
        match forward_step(poll, closed) {
            ForwardStep::Forward => match msg {
                Some(m) => {
                    unbounded_send(to, m);
                    assert(from.taken().skip(from0.len() as int) =~= taken_before.skip(
                        from0.len() as int,
                    ).push(m));
                },
                None => {},
            },
            ForwardStep::Stop => break,
        }
        budget = budget - 1;
    }
}

/// Where the reducer's main loop stands: reducing and draining the inbox
/// without waiting, waiting for the next message, or finished.
#[derive(Clone, Copy, Debug, PartialEq, Eq, Structural)]
pub enum RunPhase {
    Draining,
    Waiting,
    Finished,
}

/// What the reducer does next.
#[derive(Clone, Copy, Debug, PartialEq, Eq, Structural)]
pub enum RunAction {
    Reduce,
    TryReceive,
    Receive,
    Stop,
}

pub open spec fn run_action_spec(phase: RunPhase, redexes_pending: bool) -> RunAction {
    match phase {
        RunPhase::Draining => if redexes_pending { RunAction::Reduce } else { RunAction::TryReceive },
        RunPhase::Waiting => if redexes_pending { RunAction::Reduce } else { RunAction::Receive },
        RunPhase::Finished => RunAction::Stop,
    }
}

pub open spec fn run_after_read_spec(phase: RunPhase, got_message: bool) -> RunPhase {
    match phase {
        RunPhase::Draining => if got_message { RunPhase::Draining } else { RunPhase::Waiting },
        RunPhase::Waiting => if got_message { RunPhase::Draining } else { RunPhase::Finished },
        RunPhase::Finished => RunPhase::Finished,
    }
}

/// The next thing the loop does: pending redexes are reduced first; with
/// none left the inbox is read without waiting; after that the loop waits.
/// The inbox is never read while a redex is pending. (The loop only comes
/// to wait after a read found nothing, and nothing adds a redex while it
/// waits, so the waiting phase always meets no pending redex.)
pub fn run_action(phase: RunPhase, redexes_pending: bool) -> (r: RunAction)
    ensures
        r == run_action_spec(phase, redexes_pending),
        (r == RunAction::TryReceive || r == RunAction::Receive) ==> !redexes_pending,
{
    match phase {
        RunPhase::Draining => if redexes_pending {
            RunAction::Reduce
        } else {
            RunAction::TryReceive
        },
        RunPhase::Waiting => if redexes_pending {
            RunAction::Reduce
        } else {
            RunAction::Receive
        },
        RunPhase::Finished => RunAction::Stop,
    }
}

/// The phase after a read of the inbox: a message (which is then handled)
/// sends the loop back to draining; nothing from a non-blocking read makes
/// it wait; nothing from a waiting read, all senders being gone, ends it.
pub fn run_after_read(phase: RunPhase, got_message: bool) -> (r: RunPhase)
    ensures
        r == run_after_read_spec(phase, got_message),
{
    match phase {
        RunPhase::Draining => if got_message {
            RunPhase::Draining
        } else {
            RunPhase::Waiting
        },
        RunPhase::Waiting => if got_message {
            RunPhase::Draining
        } else {
            RunPhase::Finished
        },
        RunPhase::Finished => RunPhase::Finished,
    }
}

/// Redexes pending while the loop waits, at each step: a step that reads
/// no message leaves the pending redexes as they were, so the loop only
/// waits, and reads the inbox, with none pending.
pub open spec fn run_idle_inv(phase: RunPhase, pending: bool) -> bool {
    phase == RunPhase::Waiting ==> !pending
}

/// The loop reads its inbox only when no redex is pending, the state
/// "waiting with none pending" is kept by every step (a read that finds
/// nothing changes no redex; a message read may add some, but sends the
/// loop back to draining), and the loop ends with none pending.
pub proof fn lemma_reads_only_when_idle(
    phase: RunPhase,
    pending: bool,
    got: bool,
    pending_after: bool,
)
    requires
        run_idle_inv(phase, pending),
        !got ==> pending_after == pending,
    ensures
        (run_action_spec(phase, pending) == RunAction::TryReceive || run_action_spec(phase, pending)
            == RunAction::Receive) ==> !pending,
        (run_action_spec(phase, pending) == RunAction::TryReceive || run_action_spec(phase, pending)
            == RunAction::Receive) ==> run_idle_inv(run_after_read_spec(phase, got), pending_after),
        run_action_spec(phase, pending) == RunAction::Reduce ==> run_idle_inv(phase, pending_after),
        phase != RunPhase::Finished && run_after_read_spec(phase, got) == RunPhase::Finished ==> !pending_after,
{
}

/// The loop reduces only while redexes are pending, reads its inbox only
/// while none is pending, ends only after a waiting read finds the inbox
/// gone, and stays ended.
pub proof fn lemma_run_loop(phase: RunPhase, pending: bool, got: bool)
    ensures
        run_action_spec(phase, pending) == RunAction::Reduce ==> pending,
        (run_action_spec(phase, pending) == RunAction::TryReceive || run_action_spec(phase, pending)
            == RunAction::Receive) ==> !pending,
        run_after_read_spec(phase, got) == RunPhase::Finished ==> (phase == RunPhase::Finished || (
        phase == RunPhase::Waiting && !got)),
        run_after_read_spec(RunPhase::Finished, got) == RunPhase::Finished,
        run_action_spec(RunPhase::Finished, pending) == RunAction::Stop,
        got && phase != RunPhase::Finished ==> run_after_read_spec(phase, got) == RunPhase::Draining,
{
}

} // verus!

use vstd::prelude::*;

use futures::channel::mpsc::UnboundedReceiver;
use futures::channel::mpsc::UnboundedSender;

verus! {

/// `futures::channel::mpsc::UnboundedSender`: the end of a channel that
/// messages are put into.
#[verifier::external_type_specification]
#[verifier::external_body]
#[verifier::reject_recursive_types(T)]
pub struct ExUnboundedSender<T>(UnboundedSender<T>);

/// `futures::channel::mpsc::UnboundedReceiver`: the end of a channel that
/// messages are taken from.
#[verifier::external_type_specification]
#[verifier::external_body]
#[verifier::reject_recursive_types(T)]
pub struct ExUnboundedReceiver<T>(UnboundedReceiver<T>);

/// The other side of the bridge is gone: the message was not taken.
#[derive(Debug, Clone, Copy, PartialEq, Eq, Structural)]
pub struct PeerGone;

/// Nothing is pending, and the other side may still send.
#[derive(Debug, Clone, Copy, PartialEq, Eq, Structural)]
pub struct TryRecvError;

/// Calls `futures::channel::mpsc::unbounded`, which makes a channel
/// without a bound and returns its two ends.
#[verifier::external_body]
fn unbounded<T>() -> (ends: (UnboundedSender<T>, UnboundedReceiver<T>)) {
    futures::channel::mpsc::unbounded()
}

/// Calls `UnboundedSender::unbounded_send`, which never waits. It fails
/// where the receiving end is closed or dropped; nothing is said of when
/// that is.
#[verifier::external_body]
fn unbounded_send<T>(sender: &UnboundedSender<T>, message: T) -> (sent: Result<(), PeerGone>) {
    match sender.unbounded_send(message) {
        Ok(()) => Ok(()),
        Err(_) => Err(PeerGone),
    }
}

/// Calls `UnboundedReceiver::try_recv`, which never waits: a message where
/// one is queued, `Ok(None)` where the channel is closed and empty, and
/// the error where it is empty and open. Nothing is said of which it is.
#[verifier::external_body]
fn try_recv<T>(receiver: &mut UnboundedReceiver<T>) -> (polled: Result<Option<T>, TryRecvError>) {
    match receiver.try_recv() {
        Ok(message) => Ok(Some(message)),
        Err(futures::channel::mpsc::TryRecvError::Closed) => Ok(None),
        Err(futures::channel::mpsc::TryRecvError::Empty) => Err(TryRecvError),
    }
}

/// One side of a bridge between a caller that polls and a task that
/// waits: it sends messages of type `I` and receives messages of type `O`,
/// each direction over a queue of its own. It keeps account of what it
/// has handed over, of what it has taken, and of how its last tries
/// ended.
#[verifier::reject_recursive_types(I)]
#[verifier::reject_recursive_types(O)]
pub struct Worker<I, O> {
    input: UnboundedSender<I>,
    output: UnboundedReceiver<O>,
    /// Set once the queue towards this side was found closed and empty.
    closed: bool,
    /// The messages that the queue to the other side has taken from this
    /// side, in the order in which they were handed over.
    accepted: Ghost<Seq<I>>,
    /// The messages that this side has taken from its incoming queue, in
    /// the order in which they came out.
    taken: Ghost<Seq<O>>,
    /// Whether the queue to the other side has refused a message of this
    /// side.
    refused: Ghost<bool>,
    /// Whether the last look at the incoming queue found it empty and
    /// open.
    idle: Ghost<bool>,
}

impl<I, O> Worker<I, O> {
    /// Whether this side has found its incoming queue closed and empty.
    pub closed spec fn is_closed(&self) -> bool {
        self.closed
    }

    /// The end that this side sends into.
    pub closed spec fn sender(&self) -> UnboundedSender<I> {
        self.input
    }

    /// The end that this side receives from.
    pub closed spec fn receiver(&self) -> UnboundedReceiver<O> {
        self.output
    }

    /// The messages that the queue to the other side has taken from this
    /// side so far, in the order in which they were handed over.
    pub closed spec fn accepted(&self) -> Seq<I> {
        self.accepted@
    }

    /// The messages that this side has taken from its incoming queue so
    /// far, in the order in which they came out.
    pub closed spec fn taken(&self) -> Seq<O> {
        self.taken@
    }

    /// Whether the queue to the other side has refused a message of this
    /// side at some time.
    pub closed spec fn refused(&self) -> bool {
        self.refused@
    }

    /// Whether the last look at the incoming queue found nothing pending
    /// while the other side could still send.
    pub closed spec fn idle(&self) -> bool {
        self.idle@
    }

    /// What this side has taken since it was `before`: `self` has taken
    /// all that `before` had, in the same order, and these behind it.
    pub open spec fn taken_since(self, before: Self) -> Seq<O>
        recommends
            before.taken().len() <= self.taken().len(),
    {
        self.taken().subrange(before.taken().len() as int, self.taken().len() as int)
    }

    /// Whether `self` is `before` but for what it has taken since: it has
    /// handed over nothing more, and has taken all that `before` had
    /// taken, in the same order, and then `messages`.
    pub open spec fn has_taken(self, before: Self, messages: Seq<O>) -> bool {
        &&& self.taken() == before.taken() + messages
        &&& self.accepted() == before.accepted()
        &&& self.refused() == before.refused()
        &&& self.sender() == before.sender()
    }

    /// Whether `self` is `before` but for what it has handed over since:
    /// it has taken nothing more, and the queue has taken from it all that
    /// it had taken from `before`, in the same order, and then `messages`.
    pub open spec fn has_sent(self, before: Self, messages: Seq<I>) -> bool {
        &&& self.accepted() == before.accepted() + messages
        &&& self.taken() == before.taken()
        &&& self.is_closed() == before.is_closed()
        &&& self.idle() == before.idle()
        &&& self.sender() == before.sender()
        &&& self.receiver() == before.receiver()
    }

    /// Makes a bridge and hands its far side to `function`, which makes
    /// the task that is to run there. What one side sends the other
    /// receives. Returns the near side and the task. Neither side has
    /// handed over or taken anything yet.
    pub fn spawn<Func, Fut>(function: Func) -> (spawned: (Self, Fut)) where
        Func: FnOnce(Worker<O, I>) -> Fut,

        requires
            forall|far: Worker<O, I>|
                !far.is_closed() ==> #[trigger] call_requires(function, (far,)),
        ensures
            !spawned.0.is_closed(),
            spawned.0.accepted() == Seq::<I>::empty(),
            spawned.0.taken() == Seq::<O>::empty(),
            !spawned.0.refused(),
            !spawned.0.idle(),
            exists|far: Worker<O, I>|
                !far.is_closed() && #[trigger] call_ensures(function, (far,), spawned.1),
    {
        let (input_tx, input_rx) = unbounded::<I>();
        let (output_tx, output_rx) = unbounded::<O>();
        let far = Worker {
            input: output_tx,
            output: input_rx,
            closed: false,
            accepted: Ghost(Seq::empty()),
            taken: Ghost(Seq::empty()),
            refused: Ghost(false),
            idle: Ghost(false),
        };
        let ghost handed = far;
        let task = function(far);
        let near = Worker {
            input: input_tx,
            output: output_rx,
            closed: false,
            accepted: Ghost(Seq::empty()),
            taken: Ghost(Seq::empty()),
            refused: Ghost(false),
            idle: Ghost(false),
        };
        let spawned = (near, task);
        assert(!handed.is_closed() && call_ensures(function, (handed,), spawned.1));
        spawned
    }

    /// Queues `message` for the other side without waiting. It fails only
    /// where the other side is gone. A message that the queue took is the
    /// last of those handed over; one that it did not take is handed over
    /// to nobody, and the refusal is on record.
    pub fn send(&mut self, message: I) -> (sent: Result<(), PeerGone>)
        ensures
            sent is Ok ==> final(self).has_sent(*old(self), seq![message]),
            sent is Ok ==> final(self).refused() == old(self).refused(),
            sent is Err ==> final(self).has_sent(*old(self), Seq::<I>::empty()),
            sent is Err ==> final(self).refused(),
    {
        let ghost handed = message;
        let sent = unbounded_send(&self.input, message);
        if sent.is_ok() {
            self.accepted = Ghost(self.accepted@.push(handed));
        } else {
            self.refused = Ghost(true);
        }
        proof {
            assert(old(self).accepted() + seq![handed] =~= old(self).accepted().push(handed));
            assert(old(self).accepted() + Seq::<I>::empty() =~= old(self).accepted());
        }
        sent
    }

    /// Takes the next message from the other side without waiting:
    /// `Ok(Some(..))` is a message, `Ok(None)` says that the other side is
    /// gone and nothing is left, and the error that nothing is pending.
    /// Once it has returned `Ok(None)` it does so on every later call. A
    /// message that is returned is the last of those taken; without one
    /// nothing is taken.
    pub fn try_recv(&mut self) -> (received: Result<Option<O>, TryRecvError>)
        ensures
            old(self).is_closed() ==> received == Ok::<Option<O>, TryRecvError>(None),
            final(self).is_closed() <==> received == Ok::<Option<O>, TryRecvError>(None),
            received matches Ok(Some(message)) ==> final(self).has_taken(
                *old(self),
                seq![message],
            ),
            !(received matches Ok(Some(_))) ==> final(self).has_taken(
                *old(self),
                Seq::<O>::empty(),
            ),
            final(self).idle() == match received {
                Ok(Some(_)) => false,
                Ok(None) => old(self).idle(),
                Err(_) => true,
            },
    {
        proof {
            assert(self.taken() + Seq::<O>::empty() =~= self.taken());
        }
        if self.closed {
            return Ok(None);
        }
        let received = try_recv(&mut self.output);
        match &received {
            Ok(Some(message)) => {
                self.taken = Ghost(self.taken@.push(*message));
                self.idle = Ghost(false);
                proof {
                    assert(old(self).taken() + seq![*message] =~= old(self).taken().push(*message));
                }
            },
            Ok(None) => {
                self.closed = true;
            },
            Err(_) => {
                self.idle = Ghost(true);
            },
        }
        received
    }

    /// Takes the bridge apart into its sending and its receiving end, for
    /// a task that waits on the receiving end.
    pub fn into_parts(self) -> (parts: (UnboundedSender<I>, UnboundedReceiver<O>))
        ensures
            parts.0 == self.sender(),
            parts.1 == self.receiver(),
    {
        (self.input, self.output)
    }
}

} // verus!

//! The channels of `tokio` that join a buffered chain to its callers: a queue of batches into the
//! chain, and for each batch that wants one a channel for a single reply.
//!
//! Each end of a channel carries, for specifications only, a number that the two ends share.

use crate::buffered::BufferedChainMessages;
use tokio::sync::{mpsc, oneshot};
use vstd::prelude::*;

verus! {

/// `tokio::sync::oneshot::Sender`, carried through as it is.
#[verifier::external_type_specification]
#[verifier::external_body]
#[verifier::reject_recursive_types(T)]
pub struct ExOneshotSender<T>(oneshot::Sender<T>);

/// `tokio::sync::oneshot::Receiver`, carried through as it is.
#[verifier::external_type_specification]
#[verifier::external_body]
#[verifier::reject_recursive_types(T)]
pub struct ExOneshotReceiver<T>(oneshot::Receiver<T>);

/// `tokio::sync::oneshot::error::RecvError`, carried through as it is.
#[verifier::external_type_specification]
#[verifier::external_body]
pub struct ExRecvError(oneshot::error::RecvError);

/// `tokio::sync::mpsc::Sender`, carried through as it is.
#[verifier::external_type_specification]
#[verifier::external_body]
#[verifier::reject_recursive_types(T)]
pub struct ExMpscSender<T>(mpsc::Sender<T>);

/// `tokio::sync::mpsc::Receiver`, carried through as it is.
#[verifier::external_type_specification]
#[verifier::external_body]
#[verifier::reject_recursive_types(T)]
pub struct ExMpscReceiver<T>(mpsc::Receiver<T>);

/// `tokio::sync::mpsc::UnboundedSender`, carried through as it is.
#[verifier::external_type_specification]
#[verifier::external_body]
#[verifier::reject_recursive_types(T)]
pub struct ExUnboundedSender<T>(mpsc::UnboundedSender<T>);

/// The end of a reply channel that the chain answers on.
#[verifier::reject_recursive_types(M)]
#[verifier::reject_recursive_types(E)]
pub struct ReplySender<M, E> {
    handle: oneshot::Sender<Result<Vec<M>, E>>,
    channel: Ghost<int>,
}

/// The end of a reply channel that the caller waits on.
#[verifier::reject_recursive_types(M)]
#[verifier::reject_recursive_types(E)]
pub struct ReplyReceiver<M, E> {
    handle: oneshot::Receiver<Result<Vec<M>, E>>,
    channel: Ghost<int>,
}

/// Evidence that a response was put into a reply channel.
#[verifier::reject_recursive_types(M)]
#[verifier::reject_recursive_types(E)]
pub struct Receipt<M, E> {
    channel: Ghost<int>,
    response: Ghost<Result<Vec<M>, E>>,
}

impl<M, E> Receipt<M, E> {
    /// The channel that took the response.
    pub closed spec fn channel(&self) -> int {
        self.channel@
    }

    /// The response.
    pub closed spec fn response(&self) -> Result<Vec<M>, E> {
        self.response@
    }
}

/// Evidence that a reply channel was handed a response and did not take it, because the other end
/// is gone. The response comes back with it.
#[verifier::reject_recursive_types(M)]
#[verifier::reject_recursive_types(E)]
pub struct Refusal<M, E> {
    channel: Ghost<int>,
    response: Result<Vec<M>, E>,
}

impl<M, E> Refusal<M, E> {
    /// The channel that did not take the response.
    pub closed spec fn channel(&self) -> int {
        self.channel@
    }

    /// The response.
    pub closed spec fn response(&self) -> Result<Vec<M>, E> {
        self.response
    }

    /// Gives the response back.
    pub fn into_response(self) -> (response: Result<Vec<M>, E>)
        ensures
            response == self.response(),
    {
        self.response
    }
}

/// `tokio::sync::oneshot::channel`: the two ends of one new channel.
#[verifier::external_body]
pub(crate) fn reply_channel<M, E>() -> (ends: (ReplySender<M, E>, ReplyReceiver<M, E>))
    ensures
        ends.0.channel() == ends.1.channel(),
{
    let (sender, receiver) = oneshot::channel();
    let channel = Ghost(arbitrary());
    (ReplySender { handle: sender, channel }, ReplyReceiver { handle: receiver, channel })
}

impl<M, E> ReplySender<M, E> {
    /// The channel that this is an end of.
    pub closed spec fn channel(&self) -> int {
        self.channel@
    }

    /// `tokio::sync::oneshot::Sender::send`: the response was handed to this channel, and either it
    /// is in there, or the other end is gone and the response comes back. Which of the two happens
    /// is up to the receiver.
    #[verifier::external_body]
    pub(crate) fn send(self, response: Result<Vec<M>, E>) -> (sent: Result<
        Receipt<M, E>,
        Refusal<M, E>,
    >)
        ensures
            sent matches Ok(receipt) ==> receipt.channel() == self.channel() && receipt.response()
                == response,
            sent matches Err(refusal) ==> refusal.channel() == self.channel() && refusal.response()
                == response,
    {
        let channel = self.channel;
        let receipt = Receipt { channel, response: Ghost(response) };
        match self.handle.send(response) {
            Ok(()) => Ok(receipt),
            Err(response) => Err(Refusal { channel, response }),
        }
    }
}

impl<M, E> ReplyReceiver<M, E> {
    /// The channel that this is an end of.
    pub closed spec fn channel(&self) -> int {
        self.channel@
    }

    /// What there is to wait on.
    pub closed spec fn handle(&self) -> oneshot::Receiver<Result<Vec<M>, E>> {
        self.handle
    }

    /// Gives up the receiving half itself, to be awaited.
    pub fn into_handle(self) -> (handle: oneshot::Receiver<Result<Vec<M>, E>>)
        ensures
            handle == self.handle(),
    {
        self.handle
    }
}

/// The end of a queue that batches are put into.
#[verifier::reject_recursive_types(M)]
#[verifier::reject_recursive_types(E)]
pub struct BatchSender<M, E> {
    handle: mpsc::Sender<BufferedChainMessages<M, E>>,
    queue: Ghost<int>,
    bound: Ghost<nat>,
}

/// The end of a queue that batches are taken out of.
#[verifier::reject_recursive_types(M)]
#[verifier::reject_recursive_types(E)]
pub struct BatchReceiver<M, E> {
    handle: mpsc::Receiver<BufferedChainMessages<M, E>>,
    queue: Ghost<int>,
}

/// The largest number of batches that a queue can be made to hold.
pub open spec fn max_queue_bound() -> int {
    usize::MAX as int / 8
}

/// `tokio::sync::mpsc::channel`: the two ends of one new queue that holds at most `bound` batches.
/// The outside function panics on a bound of zero and on one above an eighth of `usize::MAX`.
#[verifier::external_body]
pub(crate) fn batch_queue<M, E>(bound: usize) -> (ends: (BatchSender<M, E>, BatchReceiver<M, E>))
    requires
        0 < bound <= max_queue_bound(),
    ensures
        ends.0.queue() == ends.1.queue(),
        ends.0.bound() == bound,
{
    let (sender, receiver) = mpsc::channel(bound);
    let queue = Ghost(arbitrary());
    let sender = BatchSender { handle: sender, queue, bound: Ghost(bound as nat) };
    (sender, BatchReceiver { handle: receiver, queue })
}

/// `tokio::sync::mpsc::Sender::clone`: the clone feeds the same queue.
pub assume_specification<T>[ <mpsc::Sender<T> as Clone>::clone ](
    sender: &mpsc::Sender<T>,
) -> (clone: mpsc::Sender<T>)
    ensures
        clone == *sender,
;

/// `tokio::sync::mpsc::UnboundedSender::clone`: the clone feeds the same queue.
pub assume_specification<T>[ <mpsc::UnboundedSender<T> as Clone>::clone ](
    sender: &mpsc::UnboundedSender<T>,
) -> (clone: mpsc::UnboundedSender<T>)
    ensures
        clone == *sender,
;

impl<M, E> BatchSender<M, E> {
    /// The queue that this is an end of.
    pub closed spec fn queue(&self) -> int {
        self.queue@
    }

    /// How many batches the queue holds at most.
    pub closed spec fn bound(&self) -> nat {
        self.bound@
    }

    /// What to send through.
    pub closed spec fn sender(&self) -> mpsc::Sender<BufferedChainMessages<M, E>> {
        self.handle
    }

    /// The sending half itself, to be awaited on.
    pub fn handle(&self) -> (handle: &mpsc::Sender<BufferedChainMessages<M, E>>)
        ensures
            *handle == self.sender(),
    {
        &self.handle
    }
}

impl<M, E> Clone for BatchSender<M, E> {
    fn clone(&self) -> (clone: Self)
        ensures
            clone == *self,
    {
        BatchSender {
            handle: self.handle.clone(),
            queue: Ghost(self.queue@),
            bound: Ghost(self.bound@),
        }
    }
}

impl<M, E> BatchReceiver<M, E> {
    /// The queue that this is an end of.
    pub closed spec fn queue(&self) -> int {
        self.queue@
    }

    /// What to take batches from.
    pub closed spec fn handle(&self) -> mpsc::Receiver<BufferedChainMessages<M, E>> {
        self.handle
    }

    /// Gives up the receiving half itself, to be awaited.
    pub fn into_handle(self) -> (handle: mpsc::Receiver<BufferedChainMessages<M, E>>)
        ensures
            handle == self.handle(),
    {
        self.handle
    }
}

/// A queue can be made to hold up to an eighth of `usize::MAX` batches.
pub proof fn law_largest_queue()
    ensures
        max_queue_bound() * 8 <= usize::MAX < (max_queue_bound() + 1) * 8,
{
}

/// Ends of channels, receipts and refusals tell any channel from any other, a receipt and a refusal
/// tell any response from any other, and an end that is waited on any receiving half.
pub proof fn law_evidence_tells_apart<M, E>(
    channel: int,
    response: Result<Vec<M>, E>,
    handle: oneshot::Receiver<Result<Vec<M>, E>>,
)
    ensures
        exists|sender: ReplySender<M, E>| sender.channel() == channel,
        exists|receiver: ReplyReceiver<M, E>|
            receiver.channel() == channel && #[trigger] receiver.handle() == handle,
        exists|receipt: Receipt<M, E>|
            receipt.channel() == channel && #[trigger] receipt.response() == response,
        exists|refusal: Refusal<M, E>|
            refusal.channel() == channel && #[trigger] refusal.response() == response,
{
    let sender = ReplySender::<M, E> { handle: arbitrary(), channel: Ghost(channel) };
    assert(sender.channel() == channel);
    let receiver = ReplyReceiver::<M, E> { handle, channel: Ghost(channel) };
    assert(receiver.handle() == handle);
    let receipt = Receipt::<M, E> { channel: Ghost(channel), response: Ghost(response) };
    assert(receipt.response() == response);
    let refusal = Refusal::<M, E> { channel: Ghost(channel), response };
    assert(refusal.response() == response);
}

/// The ends of queues tell any queue from any other and any half of one, and a sending end any bound
/// from any other.
pub proof fn law_queue_ends_tell_apart<M, E>(
    queue: int,
    bound: nat,
    sending: mpsc::Sender<BufferedChainMessages<M, E>>,
    receiving: mpsc::Receiver<BufferedChainMessages<M, E>>,
)
    ensures
        exists|sender: BatchSender<M, E>|
            sender.queue() == queue && sender.sender() == sending && #[trigger] sender.bound()
                == bound,
        exists|receiver: BatchReceiver<M, E>|
            receiver.queue() == queue && #[trigger] receiver.handle() == receiving,
{
    let sender = BatchSender::<M, E> { handle: sending, queue: Ghost(queue), bound: Ghost(bound) };
    assert(sender.bound() == bound);
    let receiver = BatchReceiver::<M, E> { handle: receiving, queue: Ghost(queue) };
    assert(receiver.handle() == receiving);
}

} // verus!

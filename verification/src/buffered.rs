//! Buffered chains: a chain that runs in a task of its own, behind a queue of batches.
//!
//! A caller puts a batch into the queue and, if it wants the response, waits on a reply channel
//! that travels with the batch. The task takes the batches out one by one and passes each through
//! the chain. Once all the callers are gone it flushes the chain and ends.

use crate::builder::TransformChainBuilder;
use crate::chain::{ChainCall, Pass, TransformChain};
use crate::channel::{
    batch_queue, reply_channel, BatchReceiver, BatchSender, Receipt, Refusal, ReplyReceiver,
    ReplySender,
};
use crate::meter::{FixedPoint, HistogramHandle};
use crate::text::concat2;
use crate::wrapper::{LocalAddr, Wrapper};
use tokio::sync::oneshot;
use vstd::prelude::*;

verus! {

/// A batch on its way to a buffered chain.
#[verifier::reject_recursive_types(M)]
#[verifier::reject_recursive_types(E)]
pub struct BufferedChainMessages<M, E> {
    pub local_addr: LocalAddr,
    pub messages: Vec<M>,
    pub flush: bool,
    pub return_chan: Option<ReplySender<M, E>>,
}

impl<M, E> BufferedChainMessages<M, E> {
    /// A batch whose response nobody waits for.
    pub fn new_with_no_return(m: Vec<M>, local_addr: LocalAddr) -> (batch: Self)
        ensures
            batch == (BufferedChainMessages::<M, E> {
                local_addr,
                messages: m,
                flush: false,
                return_chan: None,
            }),
    {
        BufferedChainMessages { local_addr, messages: m, flush: false, return_chan: None }
    }

    /// A batch whose response goes to `return_chan`.
    pub fn new(
        m: Vec<M>,
        local_addr: LocalAddr,
        flush: bool,
        return_chan: ReplySender<M, E>,
    ) -> (batch: Self)
        ensures
            batch == (BufferedChainMessages::<M, E> {
                local_addr,
                messages: m,
                flush,
                return_chan: Some(return_chan),
            }),
    {
        BufferedChainMessages { local_addr, messages: m, flush, return_chan: Some(return_chan) }
    }
}

/// A batch that is to be put into the queue of a buffered chain, waiting no longer than
/// `timeout_micros` for a place there, if that is given.
#[verifier::reject_recursive_types(M)]
#[verifier::reject_recursive_types(E)]
pub struct Submission<M, E> {
    pub batch: BufferedChainMessages<M, E>,
    pub timeout_micros: Option<u64>,
}

/// Why a buffered chain gave no messages back.
#[derive(Debug)]
pub enum BufferedChainError<E> {
    /// The batch did not get into the queue.
    Send(String),
    /// The chain went away without a response.
    Reply(oneshot::error::RecvError),
    /// The chain failed.
    Chain(E),
}

/// What the error says of a batch that did not get into the queue for the reason `cause`.
pub open spec fn send_error_text(cause: Seq<char>) -> Seq<char> {
    "Couldn't send message to wrapped chain "@ + cause
}

/// The error about a batch that did not get into the queue.
fn send_error<E>(cause: String) -> (error: BufferedChainError<E>)
    ensures
        error matches BufferedChainError::Send(text) && text@ == send_error_text(cause@),
        error matches BufferedChainError::Send(text) && text@
            == "Couldn't send message to wrapped chain "@ + cause@,
{
    BufferedChainError::Send(concat2("Couldn't send message to wrapped chain ", cause.as_str()))
}

/// What a caller gets who waited for a response and was answered `reply`.
pub open spec fn reply_result<M, E>(
    reply: Result<Result<Vec<M>, E>, oneshot::error::RecvError>,
) -> Result<Vec<M>, BufferedChainError<E>> {
    match reply {
        Ok(Ok(messages)) => Ok(messages),
        Ok(Err(error)) => Err(BufferedChainError::Chain(error)),
        Err(error) => Err(BufferedChainError::Reply(error)),
    }
}

/// The callers' side of a buffered chain.
#[verifier::reject_recursive_types(M)]
#[verifier::reject_recursive_types(E)]
pub struct BufferedChain<M, E> {
    pub send_handle: BatchSender<M, E>,
}

impl<M, E> Clone for BufferedChain<M, E> {
    fn clone(&self) -> (clone: Self)
        ensures
            clone == *self,
    {
        BufferedChain { send_handle: self.send_handle.clone() }
    }
}

/// `submission` asks for `wrapper` to be processed, and `receiver` waits for the response.
pub open spec fn asks_for_response<M, E>(
    submission: Submission<M, E>,
    receiver: ReplyReceiver<M, E>,
    wrapper: Wrapper<M>,
    timeout_micros: Option<u64>,
) -> bool {
    &&& submission.batch.messages == wrapper.requests
    &&& submission.batch.local_addr == wrapper.local_addr
    &&& submission.batch.flush == wrapper.flush
    &&& submission.batch.return_chan matches Some(sender) && sender.channel() == receiver.channel()
    &&& submission.timeout_micros == timeout_micros
}

/// `submission` asks for the requests of `wrapper` to be processed, with nobody to wait for the
/// response.
pub open spec fn asks_no_response<M, E>(
    submission: Submission<M, E>,
    wrapper: Wrapper<M>,
    timeout_micros: Option<u64>,
) -> bool {
    &&& submission.batch.messages == wrapper.requests
    &&& submission.batch.local_addr == wrapper.local_addr
    &&& !submission.batch.flush
    &&& submission.batch.return_chan is None
    &&& submission.timeout_micros == timeout_micros
}

impl<M, E> BufferedChain<M, E> {
    /// Asks for a batch to be processed, and for its response. Once the submission has been sent,
    /// see [`Self::sent`], the response is to be waited for, see [`Self::replied`].
    pub fn process_request(
        &mut self,
        wrapper: Wrapper<M>,
        buffer_timeout_micros: Option<u64>,
    ) -> (request: (Submission<M, E>, ReplyReceiver<M, E>))
        ensures
            asks_for_response(request.0, request.1, wrapper, buffer_timeout_micros),
            *final(self) == *old(self),
            request.0.batch.messages == wrapper.requests,
            request.0.batch.local_addr == wrapper.local_addr,
            request.0.batch.flush == wrapper.flush,
            request.0.batch.return_chan matches Some(sender) && sender.channel()
                == request.1.channel(),
            request.0.timeout_micros == buffer_timeout_micros,
    {
        self.process_request_with_receiver(wrapper, buffer_timeout_micros)
    }

    fn process_request_with_receiver(
        &mut self,
        wrapper: Wrapper<M>,
        buffer_timeout_micros: Option<u64>,
    ) -> (request: (Submission<M, E>, ReplyReceiver<M, E>))
        ensures
            asks_for_response(request.0, request.1, wrapper, buffer_timeout_micros),
            *final(self) == *old(self),
            request.0.batch.messages == wrapper.requests,
            request.0.batch.local_addr == wrapper.local_addr,
            request.0.batch.flush == wrapper.flush,
            request.0.batch.return_chan matches Some(sender) && sender.channel()
                == request.1.channel(),
            request.0.timeout_micros == buffer_timeout_micros,
    {
        let (one_tx, one_rx) = reply_channel();
        let batch = BufferedChainMessages::new(
            wrapper.requests,
            wrapper.local_addr,
            wrapper.flush,
            one_tx,
        );
        (Submission { batch, timeout_micros: buffer_timeout_micros }, one_rx)
    }

    /// Asks for a batch to be processed, with no interest in its response.
    ///
    /// To obey a flush request the messages must have been sent on before the caller goes on, so
    /// there the response is asked for, and is to be waited for as after
    /// [`Self::process_request`], see [`Self::sent_no_return`] and [`Self::replied_no_return`].
    /// Without one there is nothing to wait for.
    pub fn process_request_no_return(
        &mut self,
        wrapper: Wrapper<M>,
        buffer_timeout_micros: Option<u64>,
    ) -> (request: (Submission<M, E>, Option<ReplyReceiver<M, E>>))
        ensures
            match request.1 {
                Some(receiver) => wrapper.flush && asks_for_response(
                    request.0,
                    receiver,
                    wrapper,
                    buffer_timeout_micros,
                ),
                None => !wrapper.flush && asks_no_response(
                    request.0,
                    wrapper,
                    buffer_timeout_micros,
                ),
            },
            *final(self) == *old(self),
            request.0.batch.messages == wrapper.requests,
            request.0.batch.local_addr == wrapper.local_addr,
            request.0.batch.flush == wrapper.flush,
            request.0.timeout_micros == buffer_timeout_micros,
            wrapper.flush ==> (request.1 matches Some(receiver)
                && request.0.batch.return_chan matches Some(sender) && sender.channel()
                == receiver.channel()),
            !wrapper.flush ==> request.0.batch.return_chan is None && request.1 is None,
    {
        if wrapper.flush {
            let (submission, receiver) = self.process_request(wrapper, buffer_timeout_micros);
            (submission, Some(receiver))
        } else {
            let batch = BufferedChainMessages::new_with_no_return(
                wrapper.requests,
                wrapper.local_addr,
            );
            (Submission { batch, timeout_micros: buffer_timeout_micros }, None)
        }
    }

    /// Takes what came of sending a submission, in case of failure the reason, and gives back the
    /// receiver if there is a response to be waited for.
    pub fn sent(
        receiver: ReplyReceiver<M, E>,
        outcome: Result<(), String>,
    ) -> (result: Result<ReplyReceiver<M, E>, BufferedChainError<E>>)
        ensures
            match outcome {
                Ok(_) => result == Ok::<ReplyReceiver<M, E>, BufferedChainError<E>>(receiver),
                Err(cause) => result matches Err(BufferedChainError::Send(text)) && text@
                    == send_error_text(cause@),
            },
            outcome is Ok ==> (result matches Ok(handed_back) && handed_back == receiver),
            outcome matches Err(cause) ==> (result matches Err(BufferedChainError::Send(text))
                && text@ == "Couldn't send message to wrapped chain "@ + cause@),
    {
        match outcome {
            Ok(_) => Ok(receiver),
            Err(cause) => Err(send_error(cause)),
        }
    }

    /// Takes what came of sending a submission that no response was wanted to, in case of failure
    /// the reason, and gives back the receiver, if there is one, when there is a response to be
    /// waited for all the same. Without one the request is done.
    pub fn sent_no_return(
        receiver: Option<ReplyReceiver<M, E>>,
        outcome: Result<(), String>,
    ) -> (result: Result<Option<ReplyReceiver<M, E>>, BufferedChainError<E>>)
        ensures
            match outcome {
                Ok(_) => result == Ok::<Option<ReplyReceiver<M, E>>, BufferedChainError<E>>(
                    receiver,
                ),
                Err(cause) => result matches Err(BufferedChainError::Send(text)) && text@
                    == send_error_text(cause@),
            },
            outcome is Ok ==> (result matches Ok(handed_back) && handed_back == receiver),
            outcome matches Err(cause) ==> (result matches Err(BufferedChainError::Send(text))
                && text@ == "Couldn't send message to wrapped chain "@ + cause@),
    {
        match outcome {
            Ok(_) => Ok(receiver),
            Err(cause) => Err(send_error(cause)),
        }
    }

    /// Takes what came of waiting for a response, and makes the result of the request of it.
    pub fn replied(
        reply: Result<Result<Vec<M>, E>, oneshot::error::RecvError>,
    ) -> (result: Result<Vec<M>, BufferedChainError<E>>)
        ensures
            result == reply_result(reply),
            match reply {
                Ok(Ok(messages)) => result matches Ok(answered) && answered == messages,
                Ok(Err(error)) => result matches Err(BufferedChainError::Chain(failure)) && failure
                    == error,
                Err(error) => result matches Err(BufferedChainError::Reply(failure)) && failure
                    == error,
            },
    {
        match reply {
            Ok(Ok(messages)) => Ok(messages),
            Ok(Err(error)) => Err(BufferedChainError::Chain(error)),
            Err(error) => Err(BufferedChainError::Reply(error)),
        }
    }

    /// Takes what came of waiting for the response to a flush that was asked for with no interest
    /// in the response: only whether it succeeded counts.
    pub fn replied_no_return(
        reply: Result<Result<Vec<M>, E>, oneshot::error::RecvError>,
    ) -> (result: Result<(), BufferedChainError<E>>)
        ensures
            match reply_result(reply) {
                Ok(_) => result is Ok,
                Err(error) => result == Err::<(), BufferedChainError<E>>(error),
            },
            match reply {
                Ok(Ok(_)) => result is Ok,
                Ok(Err(error)) => result matches Err(BufferedChainError::Chain(failure)) && failure
                    == error,
                Err(error) => result matches Err(BufferedChainError::Reply(failure)) && failure
                    == error,
            },
    {
        match Self::replied(reply) {
            Ok(_) => Ok(()),
            Err(error) => Err(error),
        }
    }
}

/// Where a batch that the task of a buffered chain passes through the chain comes from.
#[verifier::reject_recursive_types(M)]
#[verifier::reject_recursive_types(E)]
pub enum Origin<M, E> {
    /// Out of the queue, with the channel for its response if the caller waits for one.
    Queue(Option<ReplySender<M, E>>),
    /// It is the flush that the task ends with.
    Shutdown,
}

/// A batch that the task is to pass through the chain.
#[verifier::reject_recursive_types(M)]
#[verifier::reject_recursive_types(E)]
pub struct TaskCall<M, E> {
    pub call: ChainCall<M>,
    pub origin: Origin<M, E>,
}

/// What became of the response to a batch out of the queue.
#[verifier::reject_recursive_types(M)]
#[verifier::reject_recursive_types(E)]
pub enum Delivery<M, E> {
    /// Nobody asked for it.
    Ignored,
    /// It is in the channel for it.
    Delivered(Receipt<M, E>),
    /// The channel for it did not take it: whoever asked for it is gone.
    Undelivered(Refusal<M, E>),
}

/// What the task does next.
#[verifier::reject_recursive_types(M)]
#[verifier::reject_recursive_types(E)]
pub enum TaskNext<M, E> {
    /// It waits for the next batch; this is what became of the last response.
    Receive(Delivery<M, E>),
    /// It ends; this is what came of the flush.
    Exit(Result<Vec<M>, E>),
}

/// What the task does next, and the histogram that holds how long the last batch took.
#[verifier::reject_recursive_types(M)]
#[verifier::reject_recursive_types(E)]
pub struct TaskStep<M, E> {
    pub next: TaskNext<M, E>,
    pub latency: HistogramHandle,
}

/// The task of a buffered chain.
pub struct BufferedTask<T> {
    pub chain: TransformChain<T>,
    /// The number of batches that came out of the queue; it starts over when it overflows.
    pub count: u64,
}

/// `wrapper` is what the chain is given for `input`: a batch out of the queue, or for none, because
/// all the callers are gone, the flush.
pub open spec fn wraps<M, E>(
    wrapper: Wrapper<M>,
    input: Option<BufferedChainMessages<M, E>>,
) -> bool {
    &&& wrapper.client_details@ == Seq::<char>::empty()
    &&& match input {
        Some(batch) => {
            &&& wrapper.requests == batch.messages
            &&& wrapper.local_addr == batch.local_addr
            &&& wrapper.flush == batch.flush
        },
        None => {
            &&& wrapper.requests@ == Seq::<M>::empty()
            &&& crate::wrapper::flush_addr(wrapper.local_addr)
            &&& wrapper.flush
        },
    }
}

/// Where `input` comes from.
pub open spec fn origin_of<M, E>(input: Option<BufferedChainMessages<M, E>>) -> Origin<M, E> {
    match input {
        Some(batch) => Origin::Queue(batch.return_chan),
        None => Origin::Shutdown,
    }
}

/// `delivery` is what can become of `response` where it is to go to `return_chan`.
pub open spec fn delivers<M, E>(
    delivery: Delivery<M, E>,
    return_chan: Option<ReplySender<M, E>>,
    response: Result<Vec<M>, E>,
) -> bool {
    match return_chan {
        None => delivery == Delivery::<M, E>::Ignored,
        Some(sender) => match delivery {
            Delivery::Ignored => false,
            Delivery::Delivered(receipt) => receipt.channel() == sender.channel()
                && receipt.response() == response,
            Delivery::Undelivered(refusal) => refusal.channel() == sender.channel()
                && refusal.response() == response,
        },
    }
}

/// Hands a response to whoever waits for it.
pub fn deliver<M, E>(
    return_chan: Option<ReplySender<M, E>>,
    response: Result<Vec<M>, E>,
) -> (delivery: Delivery<M, E>)
    ensures
        delivers(delivery, return_chan, response),
        match delivery {
            Delivery::Ignored => return_chan is None,
            Delivery::Delivered(receipt) => return_chan matches Some(sender) && receipt.channel()
                == sender.channel() && receipt.response() == response,
            Delivery::Undelivered(refusal) => return_chan matches Some(sender) && refusal.channel()
                == sender.channel() && refusal.response() == response,
        },
{
    match return_chan {
        None => Delivery::Ignored,
        Some(sender) => match sender.send(response) {
            Ok(receipt) => Delivery::Delivered(receipt),
            Err(refusal) => Delivery::Undelivered(refusal),
        },
    }
}

impl<T> BufferedTask<T> {
    /// From `before`, the task took `input` and is to make `task_call`.
    pub open spec fn has_received<M, E>(
        &self,
        before: &BufferedTask<T>,
        input: Option<BufferedChainMessages<M, E>>,
        task_call: TaskCall<M, E>,
    ) -> bool {
        &&& task_call.call.pass == Pass::Requests
        &&& wraps(task_call.call.wrapper, input)
        &&& task_call.call.wrapper.transforms@ == crate::wrapper::forward_order(
            before.chain.chain@.len(),
        )
        &&& task_call.call.client_details@ == Seq::<char>::empty()
        &&& task_call.origin == origin_of(input)
        &&& self.chain.has_recorded_batch(
            &before.chain,
            task_call.call.wrapper.requests@.len(),
        )
        &&& self.count == (if input is Some {
            before.count.wrapping_add(1)
        } else {
            before.count
        })
    }

    /// From `before`, the task took `result` for a batch from `origin`, and `step` comes next.
    pub open spec fn has_finished<M, E>(
        &self,
        before: &BufferedTask<T>,
        origin: Origin<M, E>,
        client_details: Seq<char>,
        result: Result<Vec<M>, E>,
        elapsed: FixedPoint,
        step: TaskStep<M, E>,
    ) -> bool {
        &&& match origin {
            Origin::Queue(return_chan) => step.next matches TaskNext::Receive(delivery) && delivers(
                delivery,
                return_chan,
                result,
            ),
            Origin::Shutdown => step.next == TaskNext::Exit(result),
        }
        &&& step.latency.key() == Some(
            crate::chain::latency_key(before.chain.name@, client_details),
        )
        &&& step.latency.recorded() == seq![elapsed]
        &&& self.chain.has_counted_batch(&before.chain, result is Err)
        &&& self.count == before.count
    }

    /// Takes what came out of the queue, nothing once all the callers are gone, and sets it up to
    /// be passed through the chain. What comes of it is to be handed to [`Self::finished`].
    pub fn received<M, E>(
        &mut self,
        input: Option<BufferedChainMessages<M, E>>,
    ) -> (task_call: TaskCall<M, E>)
        ensures
            final(self).has_received(old(self), input, task_call),
            task_call.call.pass == Pass::Requests,
            input matches Some(batch) ==> {
                &&& task_call.call.wrapper.requests == batch.messages
                &&& task_call.call.wrapper.local_addr == batch.local_addr
                &&& task_call.call.wrapper.flush == batch.flush
                &&& task_call.origin matches Origin::Queue(return_chan) && return_chan
                    == batch.return_chan
                &&& final(self).count == (old(self).count + 1) % 0x1_0000_0000_0000_0000
            },
            input is None ==> {
                &&& task_call.call.wrapper.requests@.len() == 0
                &&& task_call.call.wrapper.local_addr matches LocalAddr::V4 { octets, port }
                    && octets@ == seq![127u8, 0, 0, 1] && port == 10000
                &&& task_call.call.wrapper.flush
                &&& task_call.origin is Shutdown
                &&& final(self).count == old(self).count
            },
            task_call.call.wrapper.client_details@.len() == 0,
            task_call.call.client_details@.len() == 0,
            task_call.call.wrapper.transforms@.len() == old(self).chain.chain@.len(),
            forall|i: int|
                0 <= i < old(self).chain.chain@.len()
                    ==> #[trigger] task_call.call.wrapper.transforms@[i] == i,
            final(self).chain.name == old(self).chain.name,
            final(self).chain.chain == old(self).chain.chain,
            final(self).chain.chain_total == old(self).chain.chain_total,
            final(self).chain.chain_failures == old(self).chain.chain_failures,
            final(self).chain.chain_batch_size.handle() == old(
                self,
            ).chain.chain_batch_size.handle(),
            final(self).chain.chain_batch_size.key() == old(self).chain.chain_batch_size.key(),
            final(self).chain.chain_batch_size.recorded().len() == old(
                self,
            ).chain.chain_batch_size.recorded().len() + 1,
            final(self).chain.chain_batch_size.recorded().drop_last() == old(
                self,
            ).chain.chain_batch_size.recorded(),
            final(self).chain.chain_batch_size.recorded().last().units
                == task_call.call.wrapper.requests@.len(),
            final(self).chain.chain_batch_size.recorded().last().nanos == 0,
    {
        match input {
            Some(batch) => {
                self.count = self.count.wrapping_add(1);
                let mut wrapper = Wrapper::new_with_addr(batch.messages, batch.local_addr);
                wrapper.flush = batch.flush;
                let call = self.chain.process_request(wrapper);
                TaskCall { call, origin: Origin::Queue(batch.return_chan) }
            },
            None => {
                let call = self.chain.process_request(Wrapper::flush());
                TaskCall { call, origin: Origin::Shutdown }
            },
        }
    }

    /// Takes what came of passing a batch from `origin` through the chain, hands it to whoever
    /// waits for it and says what comes next.
    pub fn finished<M, E>(
        &mut self,
        origin: Origin<M, E>,
        client_details: String,
        result: Result<Vec<M>, E>,
        elapsed: FixedPoint,
    ) -> (step: TaskStep<M, E>)
        requires
            elapsed.well_formed(),
        ensures
            final(self).has_finished(
                old(self),
                origin,
                client_details@,
                result,
                elapsed,
                step,
            ),
            origin is Shutdown ==> (step.next matches TaskNext::Exit(outcome) && outcome == result),
            origin matches Origin::Queue(return_chan) ==> (step.next matches TaskNext::Receive(
                delivery,
            ) && match delivery {
                Delivery::Ignored => return_chan is None,
                Delivery::Delivered(receipt) => return_chan matches Some(sender) && receipt.channel()
                    == sender.channel() && receipt.response() == result,
                Delivery::Undelivered(refusal) => return_chan matches Some(sender) && refusal.channel()
                    == sender.channel() && refusal.response() == result,
            }),
            step.latency.key() matches Some(key) && key.name == "shotover_chain_latency_seconds"@
                && key.labels == seq![
                ("chain"@, old(self).chain.name@),
                ("client_details"@, client_details@),
            ],
            step.latency.recorded().len() == 1,
            step.latency.recorded()[0] == elapsed,
            final(self).chain.name == old(self).chain.name,
            final(self).chain.chain == old(self).chain.chain,
            final(self).chain.chain_batch_size == old(self).chain.chain_batch_size,
            final(self).chain.chain_total.handle() == old(self).chain.chain_total.handle(),
            final(self).chain.chain_total.key() == old(self).chain.chain_total.key(),
            final(self).chain.chain_total.added() == old(self).chain.chain_total.added() + 1,
            final(self).chain.chain_failures.handle() == old(self).chain.chain_failures.handle(),
            final(self).chain.chain_failures.key() == old(self).chain.chain_failures.key(),
            result is Ok ==> final(self).chain.chain_failures.added() == old(
                self,
            ).chain.chain_failures.added(),
            result is Err ==> final(self).chain.chain_failures.added() == old(
                self,
            ).chain.chain_failures.added() + 1,
            final(self).count == old(self).count,
    {
        let finished = self.chain.finish_request(client_details, result, elapsed);
        let next = match origin {
            Origin::Queue(return_chan) => TaskNext::Receive(deliver(return_chan, finished.result)),
            Origin::Shutdown => TaskNext::Exit(finished.result),
        };
        TaskStep { next, latency: finished.latency }
    }
}

impl<T> TransformChainBuilder<T> {
    /// Builds a chain that runs behind a queue of at most `buffer_size` batches: the callers'
    /// side, the task that is to be run, and the end of the queue that the task takes batches
    /// from. The queue ends, and with it the task, once the callers' side and all its clones have
    /// been dropped.
    pub fn build_buffered<M, E>(&self, buffer_size: usize) -> (buffered: (
        BufferedChain<M, E>,
        BufferedTask<T>,
        BatchReceiver<M, E>,
    ))
        requires
            0 < buffer_size <= crate::channel::max_queue_bound(),
        ensures
            buffered.0.send_handle.queue() == buffered.2.queue(),
            buffered.0.send_handle.bound() == buffer_size,
            self.builds(buffered.1.chain),
            buffered.1.count == 0,
            buffered.1.chain.name == self.name,
            buffered.1.chain.chain@.len() == self.chain@.len(),
            forall|i: int|
                0 <= i < self.chain@.len() ==> self.chain@[i].builder.builds(
                    (#[trigger] buffered.1.chain.chain@[i]).transform,
                ) && self.chain@[i].meters(buffered.1.chain.chain@[i]),
            buffered.1.chain.chain_total.handle() == self.chain_total.handle(),
            buffered.1.chain.chain_total.key() == self.chain_total.key(),
            buffered.1.chain.chain_total.added() == 0,
            buffered.1.chain.chain_failures.handle() == self.chain_failures.handle(),
            buffered.1.chain.chain_failures.key() == self.chain_failures.key(),
            buffered.1.chain.chain_failures.added() == 0,
            buffered.1.chain.chain_batch_size.handle() == self.chain_batch_size.handle(),
            buffered.1.chain.chain_batch_size.key() == self.chain_batch_size.key(),
            buffered.1.chain.chain_batch_size.recorded().len() == 0,
    {
        let (tx, rx) = batch_queue(buffer_size);
        let chain = self.build();
        (BufferedChain { send_handle: tx }, BufferedTask { chain, count: 0 }, rx)
    }
}

/// One turn of the task: what it took, the call that it made, what came of it, and its state
/// before it took the batch, before the call, when the call had returned, and after the turn.
#[verifier::reject_recursive_types(M)]
#[verifier::reject_recursive_types(E)]
pub struct Turn<T, M, E> {
    pub before: BufferedTask<T>,
    pub input: Option<BufferedChainMessages<M, E>>,
    pub task_call: TaskCall<M, E>,
    pub called: BufferedTask<T>,
    pub resumed: BufferedTask<T>,
    pub result: Result<Vec<M>, E>,
    pub elapsed: FixedPoint,
    pub step: TaskStep<M, E>,
    pub after: BufferedTask<T>,
}

/// The turn is one of [`BufferedTask::received`] and [`BufferedTask::finished`], between which the
/// transforms of the chain were called and may have changed.
pub open spec fn turn_taken<T, M, E>(turn: Turn<T, M, E>) -> bool {
    &&& turn.called.has_received(&turn.before, turn.input, turn.task_call)
    &&& turn.resumed.chain.has_called_transforms(&turn.called.chain)
    &&& turn.resumed.count == turn.called.count
    &&& turn.after.has_finished(
        &turn.resumed,
        turn.task_call.origin,
        turn.task_call.call.client_details@,
        turn.result,
        turn.elapsed,
        turn.step,
    )
}

/// The task took these turns one after another, each but the first because the one before it asked
/// for it.
pub open spec fn turns_taken<T, M, E>(turns: Seq<Turn<T, M, E>>) -> bool {
    &&& forall|i: int| 0 <= i < turns.len() ==> turn_taken(#[trigger] turns[i])
    &&& forall|i: int, j: int|
        0 <= i && j == i + 1 && j < turns.len() ==> (#[trigger] turns[i]).step.next is Receive
            && turns[i].after == (#[trigger] turns[j]).before
}

/// A request for a response carries the whole batch: the messages, the address and whether to flush
/// are those of `wrapper`. It waits for a place in the queue just as long as the caller said, and
/// the caller waits on the channel that travels with it.
pub proof fn law_request_carries_the_batch<M, E>(
    submission: Submission<M, E>,
    receiver: ReplyReceiver<M, E>,
    wrapper: Wrapper<M>,
    buffer_timeout_micros: Option<u64>,
)
    requires
        asks_for_response(submission, receiver, wrapper, buffer_timeout_micros),
    ensures
        submission.batch.messages == wrapper.requests,
        submission.batch.local_addr == wrapper.local_addr,
        submission.batch.flush == wrapper.flush,
        submission.batch.return_chan matches Some(sender) && sender.channel() == receiver.channel(),
        submission.timeout_micros == buffer_timeout_micros,
{
}

/// A request that wants no response carries the messages and the address of `wrapper`, no flush and
/// no channel. It waits for a place in the queue just as long as the caller said.
pub proof fn law_request_without_response_carries_the_batch<M, E>(
    submission: Submission<M, E>,
    wrapper: Wrapper<M>,
    buffer_timeout_micros: Option<u64>,
)
    requires
        asks_no_response(submission, wrapper, buffer_timeout_micros),
    ensures
        submission.batch.messages == wrapper.requests,
        submission.batch.local_addr == wrapper.local_addr,
        !submission.batch.flush,
        submission.batch.return_chan is None,
        submission.timeout_micros == buffer_timeout_micros,
{
}

/// Whether the response is wanted makes no difference to what is put into the queue nor to how long
/// the caller waits for a place there, but for the flush and the channel.
pub proof fn law_requests_wait_alike<M, E>(
    with_response: Submission<M, E>,
    receiver: ReplyReceiver<M, E>,
    without_response: Submission<M, E>,
    wrapper: Wrapper<M>,
    buffer_timeout_micros: Option<u64>,
)
    requires
        asks_for_response(with_response, receiver, wrapper, buffer_timeout_micros),
        asks_no_response(without_response, wrapper, buffer_timeout_micros),
    ensures
        with_response.timeout_micros == without_response.timeout_micros,
        with_response.timeout_micros is None <==> buffer_timeout_micros is None,
        with_response.batch.messages == without_response.batch.messages,
        with_response.batch.local_addr == without_response.batch.local_addr,
        with_response.batch.return_chan is Some,
        without_response.batch.return_chan is None,
{
}

/// What the error says is that the batch was not sent, and then why.
pub proof fn law_send_error_tells_the_cause(cause: Seq<char>)
    ensures
        send_error_text(cause) == "Couldn't send message to wrapped chain "@ + cause,
{
}

/// A caller who is answered gets the answer: the messages if the chain succeeded, the error of the
/// chain if it failed; one who is not gets the error of the channel.
pub proof fn law_reply_is_passed_on<M, E>(
    messages: Vec<M>,
    error: E,
    gone: oneshot::error::RecvError,
)
    ensures
        reply_result(Ok::<Result<Vec<M>, E>, oneshot::error::RecvError>(Ok(messages))) == Ok::<
            Vec<M>,
            BufferedChainError<E>,
        >(messages),
        reply_result(Ok::<Result<Vec<M>, E>, oneshot::error::RecvError>(Err(error))) == Err::<
            Vec<M>,
            BufferedChainError<E>,
        >(BufferedChainError::Chain(error)),
        reply_result(Err::<Result<Vec<M>, E>, oneshot::error::RecvError>(gone)) == Err::<
            Vec<M>,
            BufferedChainError<E>,
        >(BufferedChainError::Reply(gone)),
{
}

/// A response goes to the channel that travelled with the batch and to no other, as it is; it is
/// dropped just when there was no such channel.
pub proof fn law_response_goes_to_the_channel<M, E>(
    delivery: Delivery<M, E>,
    return_chan: Option<ReplySender<M, E>>,
    response: Result<Vec<M>, E>,
)
    requires
        delivers(delivery, return_chan, response),
    ensures
        delivery is Ignored <==> return_chan is None,
        delivery matches Delivery::Delivered(receipt) ==> (return_chan matches Some(sender)
            && receipt.channel() == sender.channel() && receipt.response() == response),
        delivery matches Delivery::Undelivered(refusal) ==> (return_chan matches Some(sender)
            && refusal.channel() == sender.channel() && refusal.response() == response),
{
}

/// Whatever comes out of the queue goes into the chain as it is, on behalf of no client, to pass
/// through all the transforms from the first to the last, and is counted; when nothing comes any
/// more, an empty batch that asks for a flush does, and is not counted.
pub proof fn law_task_takes_what_comes<T, M, E>(
    before: BufferedTask<T>,
    input: Option<BufferedChainMessages<M, E>>,
    task_call: TaskCall<M, E>,
    after: BufferedTask<T>,
    i: int,
)
    requires
        after.has_received(&before, input, task_call),
    ensures
        input matches Some(batch) ==> {
            &&& task_call.call.wrapper.requests == batch.messages
            &&& task_call.call.wrapper.local_addr == batch.local_addr
            &&& task_call.call.wrapper.flush == batch.flush
            &&& task_call.origin matches Origin::Queue(return_chan) && return_chan
                == batch.return_chan
            &&& after.count == (before.count + 1) % 0x1_0000_0000_0000_0000
        },
        input is None ==> {
            &&& task_call.call.wrapper.requests@.len() == 0
            &&& task_call.call.wrapper.local_addr matches LocalAddr::V4 { octets, port } && octets@
                == seq![127u8, 0, 0, 1] && port == 10000
            &&& task_call.call.wrapper.flush
            &&& task_call.origin is Shutdown
            &&& after.count == before.count
        },
        task_call.call.pass == Pass::Requests,
        task_call.call.wrapper.client_details@.len() == 0,
        task_call.call.client_details@.len() == 0,
        task_call.call.wrapper.transforms@.len() == before.chain.chain@.len(),
        0 <= i < before.chain.chain@.len() ==> task_call.call.wrapper.transforms@[i] == i,
        after.chain.name == before.chain.name,
        after.chain.chain == before.chain.chain,
        after.chain.chain_total == before.chain.chain_total,
        after.chain.chain_failures == before.chain.chain_failures,
        after.chain.chain_batch_size.handle() == before.chain.chain_batch_size.handle(),
        after.chain.chain_batch_size.key() == before.chain.chain_batch_size.key(),
        after.chain.chain_batch_size.recorded().len()
            == before.chain.chain_batch_size.recorded().len() + 1,
        after.chain.chain_batch_size.recorded().drop_last()
            == before.chain.chain_batch_size.recorded(),
        after.chain.chain_batch_size.recorded().last().units
            == task_call.call.wrapper.requests@.len(),
        after.chain.chain_batch_size.recorded().last().nanos == 0,
{
    assert(before.chain.chain.len() == before.chain.chain@.len());
    assert(task_call.call.wrapper.requests.len() == task_call.call.wrapper.requests@.len());
}

/// What came of a batch out of the queue goes to whoever waits for it, and the task goes on whether
/// the batch failed or not; what came of the last flush ends the task. Either way the batch is
/// counted, the failure too if it is one, and the time that it took is put down to the client.
pub proof fn law_task_hands_results_on<T, M, E>(
    before: BufferedTask<T>,
    origin: Origin<M, E>,
    client_details: Seq<char>,
    result: Result<Vec<M>, E>,
    elapsed: FixedPoint,
    step: TaskStep<M, E>,
    after: BufferedTask<T>,
)
    requires
        after.has_finished(&before, origin, client_details, result, elapsed, step),
    ensures
        origin is Shutdown ==> (step.next matches TaskNext::Exit(outcome) && outcome == result),
        origin matches Origin::Queue(return_chan) ==> (step.next matches TaskNext::Receive(delivery)
            && match delivery {
            Delivery::Ignored => return_chan is None,
            Delivery::Delivered(receipt) => return_chan matches Some(sender) && receipt.channel()
                == sender.channel() && receipt.response() == result,
            Delivery::Undelivered(refusal) => return_chan matches Some(sender) && refusal.channel()
                == sender.channel() && refusal.response() == result,
        }),
        step.latency.key() matches Some(key) && key.name == "shotover_chain_latency_seconds"@
            && key.labels == seq![
            ("chain"@, before.chain.name@),
            ("client_details"@, client_details),
        ],
        step.latency.recorded().len() == 1,
        step.latency.recorded()[0] == elapsed,
        after.chain.name == before.chain.name,
        after.chain.chain == before.chain.chain,
        after.chain.chain_batch_size == before.chain.chain_batch_size,
        after.chain.chain_total.handle() == before.chain.chain_total.handle(),
        after.chain.chain_total.key() == before.chain.chain_total.key(),
        after.chain.chain_total.added() == before.chain.chain_total.added() + 1,
        after.chain.chain_failures.handle() == before.chain.chain_failures.handle(),
        after.chain.chain_failures.key() == before.chain.chain_failures.key(),
        result is Ok ==> after.chain.chain_failures.added() == before.chain.chain_failures.added(),
        result is Err ==> after.chain.chain_failures.added() == before.chain.chain_failures.added()
            + 1,
        after.count == before.count,
{
}

/// Over one turn, whatever the transforms make of the batch: what was taken is what the chain is
/// given, what came of it is what is answered, and the batch is counted once.
pub proof fn law_turn_answers_what_it_took<T, M, E>(turn: Turn<T, M, E>)
    requires
        turn_taken(turn),
    ensures
        turn.input matches Some(batch) ==> {
            &&& turn.task_call.call.wrapper.requests == batch.messages
            &&& turn.task_call.call.wrapper.local_addr == batch.local_addr
            &&& turn.task_call.call.wrapper.flush == batch.flush
            &&& turn.after.count == (turn.before.count + 1) % 0x1_0000_0000_0000_0000
            &&& turn.step.next matches TaskNext::Receive(delivery) && match delivery {
                Delivery::Ignored => batch.return_chan is None,
                Delivery::Delivered(receipt) => batch.return_chan matches Some(sender)
                    && receipt.channel() == sender.channel() && receipt.response() == turn.result,
                Delivery::Undelivered(refusal) => batch.return_chan matches Some(sender)
                    && refusal.channel() == sender.channel() && refusal.response() == turn.result,
            }
        },
        turn.input is None ==> {
            &&& turn.task_call.call.wrapper.requests@.len() == 0
            &&& turn.task_call.call.wrapper.flush
            &&& turn.after.count == turn.before.count
            &&& turn.step.next matches TaskNext::Exit(outcome) && outcome == turn.result
        },
        turn.after.chain.name == turn.before.chain.name,
        turn.after.chain.chain@.len() == turn.before.chain.chain@.len(),
        turn.after.chain.chain_total.added() == turn.before.chain.chain_total.added() + 1,
        turn.result is Ok ==> turn.after.chain.chain_failures.added()
            == turn.before.chain.chain_failures.added(),
        turn.result is Err ==> turn.after.chain.chain_failures.added()
            == turn.before.chain.chain_failures.added() + 1,
        turn.after.chain.chain_batch_size.recorded().drop_last()
            == turn.before.chain.chain_batch_size.recorded(),
        turn.after.chain.chain_batch_size.recorded().last().units
            == turn.task_call.call.wrapper.requests@.len(),
        turn.step.latency.recorded() == seq![turn.elapsed],
{
    law_task_takes_what_comes(turn.before, turn.input, turn.task_call, turn.called, 0);
}

/// To take a batch, have it passed through the chain, whatever that does to the transforms, and take
/// what came of it is a turn.
pub proof fn law_batch_makes_a_turn<T, M, E>(
    turn: Turn<T, M, E>,
    chain: Vec<crate::chain::TransformAndMetrics<T>>,
)
    requires
        turn.called.has_received(&turn.before, turn.input, turn.task_call),
        chain@.len() == turn.called.chain.chain@.len(),
        turn.resumed == (BufferedTask {
            chain: TransformChain { chain, ..turn.called.chain },
            count: turn.called.count,
        }),
        turn.after.has_finished(
            &turn.resumed,
            turn.task_call.origin,
            turn.task_call.call.client_details@,
            turn.result,
            turn.elapsed,
            turn.step,
        ),
    ensures
        turn_taken(turn),
{
}

/// Each turn takes the task on from where the one before it left it, as long as that one did not end
/// the task.
pub proof fn law_turns_follow_one_another<T, M, E>(
    turns: Seq<Turn<T, M, E>>,
    next: Turn<T, M, E>,
)
    requires
        turns_taken(turns),
        turn_taken(next),
        turns.len() > 0 ==> turns.last().step.next is Receive && turns.last().after == next.before,
    ensures
        turns_taken(turns.push(next)),
{
    let all = turns.push(next);
    assert forall|i: int| 0 <= i < all.len() implies turn_taken(#[trigger] all[i]) by {
        if i < turns.len() {
            assert(turn_taken(turns[i]));
        }
    }
    assert forall|i: int, j: int| 0 <= i && j == i + 1 && j < all.len() implies (
    #[trigger] all[i]).step.next is Receive && all[i].after == (#[trigger] all[j]).before by {
        if j < turns.len() {
            assert(turns[i].after == turns[j].before);
        }
    }
}

/// The task ends just when all the callers are gone, and with a flush that comes after all the
/// batches: every turn before the last is about a batch out of the queue, and the last one ends the
/// task just when there was none.
pub proof fn law_task_ends_with_a_flush<T, M, E>(turns: Seq<Turn<T, M, E>>)
    requires
        turns_taken(turns),
        turns.len() > 0,
    ensures
        forall|i: int| 0 <= i < turns.len() - 1 ==> (#[trigger] turns[i]).input is Some,
        turns.last().step.next is Exit <==> turns.last().input is None,
        turns.last().step.next is Exit ==> turns.last().task_call.call.wrapper.flush
            && turns.last().task_call.call.wrapper.requests@.len() == 0,
{
    assert forall|i: int| 0 <= i < turns.len() - 1 implies (#[trigger] turns[i]).input is Some by {
        let next = turns[i + 1];
        assert(turn_taken(turns[i]));
    }
    assert(turn_taken(turns.last()));
}

/// The batches come to the chain in the order in which they came out of the queue, each as it was
/// put in, and each passes through all the transforms from the first to the last.
pub proof fn law_task_passes_batches_on<T, M, E>(turns: Seq<Turn<T, M, E>>, i: int)
    requires
        turns_taken(turns),
        0 <= i < turns.len(),
    ensures
        wraps(turns[i].task_call.call.wrapper, turns[i].input),
        turns[i].task_call.call.pass == Pass::Requests,
        turns[i].task_call.call.wrapper.transforms@ == crate::wrapper::forward_order(
            turns[0].before.chain.chain@.len(),
        ),
        turns[i].input matches Some(batch) ==> turns[i].task_call.call.wrapper.requests
            == batch.messages && turns[i].task_call.call.wrapper.local_addr == batch.local_addr
            && turns[i].task_call.call.wrapper.flush == batch.flush,
        turns[i].task_call.call.wrapper.transforms@.len() == turns[0].before.chain.chain@.len(),
        forall|k: int|
            0 <= k < turns[0].before.chain.chain@.len()
                ==> #[trigger] turns[i].task_call.call.wrapper.transforms@[k] == k,
{
    assert(turns[0].before.chain.chain.len() == turns[0].before.chain.chain@.len());
    lemma_turns_taken_prefix(turns, i + 1);
    lemma_turns_pass_batches(turns.take(i + 1));
    assert(turns.take(i + 1).last() == turns[i]);
    assert(turn_taken(turns[i]));
}

/// The chain states between the turns.
spec fn chain_states<T, M, E>(turns: Seq<Turn<T, M, E>>) -> Seq<TransformChain<T>> {
    Seq::new(
        turns.len() + 1,
        |i: int|
            if i == 0 {
                turns[0].before.chain
            } else {
                turns[i - 1].after.chain
            },
    )
}

/// The sizes of the batches of the turns.
pub open spec fn sizes<T, M, E>(turns: Seq<Turn<T, M, E>>) -> Seq<nat> {
    turns.map_values(|turn: Turn<T, M, E>| turn.task_call.call.wrapper.requests@.len())
}

/// Which of the turns failed.
pub open spec fn failed<T, M, E>(turns: Seq<Turn<T, M, E>>) -> Seq<bool> {
    turns.map_values(|turn: Turn<T, M, E>| turn.result is Err)
}

proof fn lemma_turns_taken_prefix<T, M, E>(turns: Seq<Turn<T, M, E>>, len: int)
    requires
        turns_taken(turns),
        0 <= len <= turns.len(),
    ensures
        turns_taken(turns.take(len)),
{
    let first = turns.take(len);
    assert forall|i: int| 0 <= i < first.len() implies turn_taken(#[trigger] first[i]) by {
        assert(turn_taken(turns[i]));
    }
    assert forall|i: int, j: int| 0 <= i && j == i + 1 && j < first.len() implies (
    #[trigger] first[i]).step.next is Receive && first[i].after == (#[trigger] first[j]).before by {
        assert(turns[i].after == turns[j].before);
    }
}

proof fn lemma_turns_pass_batches<T, M, E>(turns: Seq<Turn<T, M, E>>)
    requires
        turns_taken(turns),
        turns.len() > 0,
    ensures
        crate::chain::batches_passed(chain_states(turns), sizes(turns), failed(turns)),
        turns.last().before.chain.chain@.len() == turns[0].before.chain.chain@.len(),
    decreases turns.len(),
{
    assert forall|i: int| 0 <= i < turns.len() implies #[trigger] crate::chain::batch_passed(
        chain_states(turns)[i],
        sizes(turns)[i],
        failed(turns)[i],
        chain_states(turns)[i + 1],
    ) by {
        assert(turn_taken(turns[i]));
        if i > 0 {
            assert(turns[i - 1].after == turns[i].before);
        }
        assert(turns[i].called.chain.has_recorded_batch(
            &chain_states(turns)[i],
            sizes(turns)[i],
        ));
        assert(turns[i].after.chain.has_counted_batch(
            &turns[i].resumed.chain,
            failed(turns)[i],
        ));
    }
    if turns.len() > 1 {
        let previous = turns.drop_last();
        lemma_turns_taken_prefix(turns, turns.len() - 1);
        assert(turns.take(turns.len() - 1) =~= previous);
        lemma_turns_pass_batches(previous);
        assert(turn_taken(turns[turns.len() - 2]));
        assert(turns[turns.len() - 2].after == turns[turns.len() - 1].before);
    }
}

/// However long the task runs, and whatever the transforms make of it, each batch is counted once
/// and each failure once more, the flush included.
pub proof fn law_task_counts_every_batch<T, M, E>(turns: Seq<Turn<T, M, E>>)
    requires
        turns_taken(turns),
        turns.len() > 0,
    ensures
        turns.last().after.chain.chain_total.added() == turns[0].before.chain.chain_total.added()
            + turns.len(),
        turns.last().after.chain.chain_failures.added()
            == turns[0].before.chain.chain_failures.added() + crate::chain::failures(
            failed(turns),
        ),
{
    lemma_turns_pass_batches(turns);
    crate::chain::law_batches_are_counted(chain_states(turns), sizes(turns), failed(turns));
}

/// How many of the turns were about a batch out of the queue.
pub open spec fn batches<T, M, E>(turns: Seq<Turn<T, M, E>>) -> nat {
    turns.filter(|turn: Turn<T, M, E>| turn.input is Some).len()
}

/// Each turn more leaves the size of its batch, whether it failed, and one batch more out of the
/// queue just when it was about one.
pub proof fn law_turns_add_up<T, M, E>(earlier: Seq<Turn<T, M, E>>, turn: Turn<T, M, E>)
    ensures
        sizes(earlier).len() == earlier.len(),
        sizes(earlier.push(turn)) == sizes(earlier).push(
            turn.task_call.call.wrapper.requests@.len(),
        ),
        failed(earlier).len() == earlier.len(),
        failed(earlier.push(turn)) == failed(earlier).push(turn.result is Err),
        batches(Seq::<Turn<T, M, E>>::empty()) == 0,
        batches(earlier.push(turn)) == batches(earlier) + (if turn.input is Some {
            1nat
        } else {
            0nat
        }),
{
    reveal(Seq::filter);
    assert(earlier.push(turn).drop_last() =~= earlier);
}

/// The task counts the batches that come out of the queue, and not the flush.
pub proof fn law_task_counts_the_queue<T, M, E>(turns: Seq<Turn<T, M, E>>)
    requires
        turns_taken(turns),
        turns.len() > 0,
    ensures
        turns.last().after.count == (turns[0].before.count + batches(turns)) % 0x1_0000_0000_0000_0000,
    decreases turns.len(),
{
    let previous = turns.drop_last();
    assert(turn_taken(turns.last()));
    assert(batches(turns) == batches(previous) + (if turns.last().input is Some {
        1nat
    } else {
        0nat
    })) by {
        reveal(Seq::filter);
    }
    if turns.len() > 1 {
        lemma_turns_taken_prefix(turns, turns.len() - 1);
        assert(turns.take(turns.len() - 1) =~= previous);
        law_task_counts_the_queue(previous);
        assert(turns[turns.len() - 2].after == turns[turns.len() - 1].before);
    } else {
        assert(batches(previous) == 0) by {
            reveal(Seq::filter);
        }
    }
}

/// What a caller asks for is what the chain gets, and what the chain makes of it is handed to the
/// channel that the caller waits on, which takes it unless the caller has stopped waiting.
pub proof fn law_caller_is_answered<T, M, E>(
    wrapper: Wrapper<M>,
    timeout_micros: Option<u64>,
    submission: Submission<M, E>,
    receiver: ReplyReceiver<M, E>,
    turn: Turn<T, M, E>,
)
    requires
        asks_for_response(submission, receiver, wrapper, timeout_micros),
        turn.input == Some(submission.batch),
        turn_taken(turn),
    ensures
        turn.task_call.call.wrapper.requests == wrapper.requests,
        turn.task_call.call.wrapper.local_addr == wrapper.local_addr,
        turn.task_call.call.wrapper.flush == wrapper.flush,
        turn.step.next matches TaskNext::Receive(delivery) && match delivery {
            Delivery::Ignored => false,
            Delivery::Delivered(receipt) => receipt.channel() == receiver.channel()
                && receipt.response() == turn.result,
            Delivery::Undelivered(refusal) => refusal.channel() == receiver.channel()
                && refusal.response() == turn.result,
        },
{
}

/// A batch whose response nobody wants reaches the chain all the same, and its response is dropped.
pub proof fn law_unwanted_response_is_ignored<T, M, E>(
    wrapper: Wrapper<M>,
    timeout_micros: Option<u64>,
    submission: Submission<M, E>,
    turn: Turn<T, M, E>,
)
    requires
        asks_no_response(submission, wrapper, timeout_micros),
        turn.input == Some(submission.batch),
        turn_taken(turn),
    ensures
        turn.task_call.call.wrapper.requests == wrapper.requests,
        turn.task_call.call.wrapper.local_addr == wrapper.local_addr,
        !turn.task_call.call.wrapper.flush,
        turn.step.next == TaskNext::<M, E>::Receive(Delivery::Ignored),
{
}

/// The task took the batches of `queued` in the order in which they had been put into the queue,
/// and nothing more after the last of them: the queue is first in, first out.
pub open spec fn taken_from_queue<T, M, E>(
    turns: Seq<Turn<T, M, E>>,
    queued: Seq<BufferedChainMessages<M, E>>,
) -> bool {
    forall|i: int|
        0 <= i < turns.len() ==> (#[trigger] turns[i]).input == (if i < queued.len() {
            Some(queued[i])
        } else {
            None
        })
}

/// The turn after `turns` takes the batch that is then first in the queue, or nothing when all have
/// been taken.
pub proof fn law_queue_goes_on<T, M, E>(
    turns: Seq<Turn<T, M, E>>,
    queued: Seq<BufferedChainMessages<M, E>>,
    next: Turn<T, M, E>,
)
    requires
        taken_from_queue(turns, queued),
    ensures
        taken_from_queue(Seq::<Turn<T, M, E>>::empty(), queued),
        turns.len() < queued.len() ==> (taken_from_queue(turns.push(next), queued) <==> next.input
            == Some(queued[turns.len() as int])),
        turns.len() >= queued.len() ==> (taken_from_queue(turns.push(next), queued) <==> next.input
            is None),
{
    let all = turns.push(next);
    assert forall|i: int| 0 <= i < turns.len() implies (#[trigger] all[i]).input == (if i
        < queued.len() {
        Some(queued[i])
    } else {
        None
    }) by {
        assert(all[i] == turns[i]);
    }
    assert(all[turns.len() as int] == next);
}

/// The task takes a turn for each batch of the queue, whatever comes of the batches before it and
/// whoever has stopped waiting for them, and one more for the flush, and then it ends.
pub proof fn law_task_handles_the_whole_queue<T, M, E>(
    turns: Seq<Turn<T, M, E>>,
    queued: Seq<BufferedChainMessages<M, E>>,
)
    requires
        turns_taken(turns),
        turns.len() > 0,
        taken_from_queue(turns, queued),
    ensures
        turns.len() <= queued.len() + 1,
        turns.last().step.next is Exit <==> turns.len() == queued.len() + 1,
        forall|i: int|
            0 <= i < turns.len() && i < queued.len() ==> wraps(
                (#[trigger] turns[i]).task_call.call.wrapper,
                Some(queued[i]),
            ) && (turns[i].step.next matches TaskNext::Receive(delivery) && delivers(
                delivery,
                queued[i].return_chan,
                turns[i].result,
            )),
{
    law_task_ends_with_a_flush(turns);
    if turns.len() > queued.len() + 1 {
        assert(turns[queued.len() as int].input is Some);
    }
    assert(turns[turns.len() - 1].input is None <==> turns.len() == queued.len() + 1);
    assert forall|i: int| 0 <= i < turns.len() && i < queued.len() implies wraps(
        (#[trigger] turns[i]).task_call.call.wrapper,
        Some(queued[i]),
    ) && (turns[i].step.next matches TaskNext::Receive(delivery) && delivers(
        delivery,
        queued[i].return_chan,
        turns[i].result,
    )) by {
        assert(turn_taken(turns[i]));
    }
}

/// A flush that was asked for without interest in the response, at place `k` of the queue, is
/// answered after every batch before it has been through the chain: a batch at place `j` was passed
/// through as it was asked for, in a turn of its own that had ended before the flush was taken, and
/// all of the first `k` batches had been counted by then. What the caller of the flush is answered
/// is what the chain made of the flush.
pub proof fn law_flush_follows_earlier_batches<T, M, E>(
    turns: Seq<Turn<T, M, E>>,
    queued: Seq<BufferedChainMessages<M, E>>,
    j: int,
    earlier: Wrapper<M>,
    earlier_timeout_micros: Option<u64>,
    earlier_submission: Submission<M, E>,
    k: int,
    flush: Wrapper<M>,
    timeout_micros: Option<u64>,
    submission: Submission<M, E>,
    receiver: ReplyReceiver<M, E>,
)
    requires
        turns_taken(turns),
        taken_from_queue(turns, queued),
        0 <= j < k < turns.len(),
        k < queued.len(),
        asks_no_response(earlier_submission, earlier, earlier_timeout_micros),
        queued[j] == earlier_submission.batch,
        flush.flush,
        asks_for_response(submission, receiver, flush, timeout_micros),
        queued[k] == submission.batch,
    ensures
        turns[j].task_call.call.wrapper.requests == earlier.requests,
        turns[j].task_call.call.wrapper.local_addr == earlier.local_addr,
        turns[j].step.next == TaskNext::<M, E>::Receive(Delivery::Ignored),
        turns[k].before.chain.chain_total.added() == turns[0].before.chain.chain_total.added() + k,
        turns[k].task_call.call.wrapper.requests == flush.requests,
        turns[k].task_call.call.wrapper.flush,
        turns[k].step.next matches TaskNext::Receive(delivery) && match delivery {
            Delivery::Ignored => false,
            Delivery::Delivered(receipt) => receipt.channel() == receiver.channel() && (
            reply_result(Ok(receipt.response())) is Ok <==> turns[k].result is Ok),
            Delivery::Undelivered(refusal) => refusal.channel() == receiver.channel()
                && refusal.response() == turns[k].result,
        },
{
    assert(turn_taken(turns[j]));
    assert(turn_taken(turns[k]));
    law_unwanted_response_is_ignored(
        earlier,
        earlier_timeout_micros,
        earlier_submission,
        turns[j],
    );
    law_caller_is_answered(flush, timeout_micros, submission, receiver, turns[k]);
    let first = turns.take(k);
    lemma_turns_taken_prefix(turns, k);
    law_task_counts_every_batch(first);
    assert(turns[k - 1].after == turns[k].before);
}

/// The transforms of a chain.
pub open spec fn transforms_of<T>(chain: TransformChain<T>) -> Seq<T> {
    chain.chain@.map_values(|metered: crate::chain::TransformAndMetrics<T>| metered.transform)
}

/// There are as many transforms as the chain is long, each in its place.
pub proof fn law_transforms_of<T>(chain: TransformChain<T>, i: int)
    ensures
        transforms_of(chain).len() == chain.chain@.len(),
        0 <= i < chain.chain@.len() ==> transforms_of(chain)[i] == chain.chain@[i].transform,
{
}

/// A buffered chain answers what the chain itself would have answered: given transforms in the same
/// state, whose response `answer` is a function of that state and of the call, what a caller of the
/// buffered chain is answered for `wrapper` is what comes of passing `plain` through the chain, where
/// `plain` has the requests, the address and the flush flag of `wrapper`, but not its client.
pub proof fn law_buffered_chain_answers_as_the_chain<T, M, E>(
    answer: spec_fn(Seq<T>, Pass, crate::wrapper::WrapperView<M>) -> Result<Vec<M>, E>,
    wrapper: Wrapper<M>,
    timeout_micros: Option<u64>,
    submission: Submission<M, E>,
    receiver: ReplyReceiver<M, E>,
    turn: Turn<T, M, E>,
    plain: Wrapper<M>,
    before: TransformChain<T>,
    started: TransformChain<T>,
    call: ChainCall<M>,
    result: Result<Vec<M>, E>,
)
    requires
        asks_for_response(submission, receiver, wrapper, timeout_micros),
        turn.input == Some(submission.batch),
        turn_taken(turn),
        plain.requests == wrapper.requests,
        plain.local_addr == wrapper.local_addr,
        plain.flush == wrapper.flush,
        plain.client_details@ == Seq::<char>::empty(),
        started.has_started(&before, plain, Pass::Requests, call),
        transforms_of(before) == transforms_of(turn.before.chain),
        turn.result == answer(
            transforms_of(turn.called.chain),
            turn.task_call.call.pass,
            turn.task_call.call.wrapper@,
        ),
        result == answer(transforms_of(started), call.pass, call.wrapper@),
    ensures
        turn.task_call.call.wrapper@ == call.wrapper@,
        turn.task_call.call.pass == call.pass,
        turn.result == result,
        turn.step.next matches TaskNext::Receive(delivery) && match delivery {
            Delivery::Ignored => false,
            Delivery::Delivered(receipt) => receipt.channel() == receiver.channel()
                && reply_result(Ok(receipt.response())) == match result {
                Ok(messages) => Ok(messages),
                Err(error) => Err(BufferedChainError::Chain(error)),
            },
            Delivery::Undelivered(refusal) => refusal.channel() == receiver.channel()
                && refusal.response() == result,
        },
{
    law_caller_is_answered(wrapper, timeout_micros, submission, receiver, turn);
    assert(transforms_of(before).len() == before.chain@.len());
    assert(transforms_of(turn.before.chain).len() == turn.before.chain.chain@.len());
}

} // verus!

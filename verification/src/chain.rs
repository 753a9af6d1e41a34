//! Chains of transforms, ready to be passed through.

use crate::meter::{CounterHandle, FixedPoint, HistogramHandle};
use crate::wrapper::Wrapper;
use vstd::prelude::*;

verus! {

/// A transform and the metrics that are kept about it.
pub struct TransformAndMetrics<T> {
    pub transform: T,
    pub transform_total: CounterHandle,
    pub transform_failures: CounterHandle,
    pub transform_latency: HistogramHandle,
    pub transform_pushed_total: CounterHandle,
    pub transform_pushed_failures: CounterHandle,
    pub transform_pushed_latency: HistogramHandle,
}

impl<T> TransformAndMetrics<T> {
    /// A transform whose metrics go nowhere.
    pub fn new(transform: T) -> (metered: Self)
        ensures
            metered.transform == transform,
            metered.transform_total.is_noop(),
            metered.transform_failures.is_noop(),
            metered.transform_latency.is_noop(),
            metered.transform_pushed_total.is_noop(),
            metered.transform_pushed_failures.is_noop(),
            metered.transform_pushed_latency.is_noop(),
            metered.transform_total.key() is None,
            metered.transform_total.added() == 0,
            metered.transform_failures.key() is None,
            metered.transform_failures.added() == 0,
            metered.transform_latency.key() is None,
            metered.transform_latency.recorded().len() == 0,
            metered.transform_pushed_total.key() is None,
            metered.transform_pushed_total.added() == 0,
            metered.transform_pushed_failures.key() is None,
            metered.transform_pushed_failures.added() == 0,
            metered.transform_pushed_latency.key() is None,
            metered.transform_pushed_latency.recorded().len() == 0,
    {
        TransformAndMetrics {
            transform,
            transform_total: CounterHandle::noop(),
            transform_failures: CounterHandle::noop(),
            transform_latency: HistogramHandle::noop(),
            transform_pushed_total: CounterHandle::noop(),
            transform_pushed_failures: CounterHandle::noop(),
            transform_pushed_latency: HistogramHandle::noop(),
        }
    }
}

/// A transform chain is an ordered list of transforms that a message will pass through.
/// Transform chains can be of arbitrary complexity and a transform can even have its own set of
/// child transform chains.
pub struct TransformChain<T> {
    pub name: &'static str,
    pub chain: Vec<TransformAndMetrics<T>>,
    /// Counts the batches that have been through the chain.
    pub chain_total: CounterHandle,
    /// Counts those of them that failed.
    pub chain_failures: CounterHandle,
    /// Holds the number of messages of each batch.
    pub chain_batch_size: HistogramHandle,
}

/// How the transforms of a chain are called.
#[derive(Clone, Copy, PartialEq, Eq, Debug)]
pub enum Pass {
    /// With the requests of a client, from the first transform to the last.
    Requests,
    /// With messages that no client asked for, from the last transform to the first.
    Pushed,
}

/// A batch that is to be passed through the transforms of a chain: the call to be made, and the
/// client that its latency is put down to.
pub struct ChainCall<M> {
    pub pass: Pass,
    pub wrapper: Wrapper<M>,
    pub client_details: String,
}

/// A batch that has been through a chain: what came of it, and the histogram that holds how long
/// it took.
pub struct FinishedCall<M, E> {
    pub result: Result<Vec<M>, E>,
    pub latency: HistogramHandle,
}

/// The key that the latency of a chain is recorded under, apart for each client.
pub open spec fn latency_key(
    chain: Seq<char>,
    client_details: Seq<char>,
) -> crate::meter::MetricKey {
    crate::meter::MetricKey {
        name: "shotover_chain_latency_seconds"@,
        labels: seq![("chain"@, chain), ("client_details"@, client_details)],
    }
}

/// A whole number.
pub open spec fn whole(units: nat) -> FixedPoint {
    FixedPoint { units: units as u64, nanos: 0 }
}

impl<T> TransformChain<T> {
    /// No more batches have failed than have been through.
    pub open spec fn well_formed(&self) -> bool {
        self.chain_failures.added() <= self.chain_total.added()
    }

    /// The same chain as `before`, but for the size of one more batch in its histogram.
    pub open spec fn has_recorded_batch(&self, before: &TransformChain<T>, size: nat) -> bool {
        &&& self.name == before.name
        &&& self.chain == before.chain
        &&& self.chain_total == before.chain_total
        &&& self.chain_failures == before.chain_failures
        &&& self.chain_batch_size.handle() == before.chain_batch_size.handle()
        &&& self.chain_batch_size.key() == before.chain_batch_size.key()
        &&& self.chain_batch_size.recorded() == before.chain_batch_size.recorded().push(
            whole(size),
        )
    }

    /// The same chain as `before`, but for one more batch in its counters.
    pub open spec fn has_counted_batch(&self, before: &TransformChain<T>, failed: bool) -> bool {
        &&& self.name == before.name
        &&& self.chain == before.chain
        &&& self.chain_batch_size == before.chain_batch_size
        &&& self.chain_total.handle() == before.chain_total.handle()
        &&& self.chain_total.key() == before.chain_total.key()
        &&& self.chain_total.added() == before.chain_total.added() + 1
        &&& self.chain_failures.handle() == before.chain_failures.handle()
        &&& self.chain_failures.key() == before.chain_failures.key()
        &&& self.chain_failures.added() == before.chain_failures.added() + (if failed {
            1nat
        } else {
            0nat
        })
    }

    /// The same chain as `before`, but that its transforms have been called, and may have changed.
    pub open spec fn has_called_transforms(&self, before: &TransformChain<T>) -> bool {
        &&& self.name == before.name
        &&& self.chain@.len() == before.chain@.len()
        &&& self.chain_total == before.chain_total
        &&& self.chain_failures == before.chain_failures
        &&& self.chain_batch_size == before.chain_batch_size
    }

    /// From `before`, the chain took `wrapper`, and is to be passed through by `call`.
    pub open spec fn has_started<M>(
        &self,
        before: &TransformChain<T>,
        wrapper: Wrapper<M>,
        pass: Pass,
        call: ChainCall<M>,
    ) -> bool {
        &&& call.pass == pass
        &&& call.wrapper.same_batch(&wrapper)
        &&& call.wrapper.transforms@ == match pass {
            Pass::Requests => crate::wrapper::forward_order(before.chain@.len()),
            Pass::Pushed => crate::wrapper::reverse_order(before.chain@.len()),
        }
        &&& call.client_details@ == wrapper.client_details@
        &&& self.has_recorded_batch(before, wrapper.requests@.len())
    }

    /// Sets a batch up to be passed through the chain from its first transform to its last. What
    /// comes of it is to be handed to [`Self::finish_request`].
    pub fn process_request<M>(&mut self, wrapper: Wrapper<M>) -> (call: ChainCall<M>)
        ensures
            final(self).has_started(old(self), wrapper, Pass::Requests, call),
            call.pass == Pass::Requests,
            call.wrapper.requests == wrapper.requests,
            call.wrapper.client_details == wrapper.client_details,
            call.wrapper.local_addr == wrapper.local_addr,
            call.wrapper.flush == wrapper.flush,
            call.wrapper.transforms@.len() == old(self).chain@.len(),
            forall|i: int|
                0 <= i < old(self).chain@.len() ==> #[trigger] call.wrapper.transforms@[i] == i,
            call.client_details@ == wrapper.client_details@,
            final(self).name == old(self).name,
            final(self).chain == old(self).chain,
            final(self).chain_total == old(self).chain_total,
            final(self).chain_failures == old(self).chain_failures,
            final(self).chain_batch_size.handle() == old(self).chain_batch_size.handle(),
            final(self).chain_batch_size.key() == old(self).chain_batch_size.key(),
            final(self).chain_batch_size.recorded().len() == old(
                self,
            ).chain_batch_size.recorded().len() + 1,
            final(self).chain_batch_size.recorded().drop_last() == old(
                self,
            ).chain_batch_size.recorded(),
            final(self).chain_batch_size.recorded().last().units == wrapper.requests@.len(),
            final(self).chain_batch_size.recorded().last().nanos == 0,
    {
        let mut wrapper = wrapper;
        wrapper.reset(self.chain.len());
        self.start_request(wrapper, Pass::Requests)
    }

    /// Sets a batch of pushed messages up to be passed through the chain from its last transform to
    /// its first. What comes of it is to be handed to [`Self::finish_request`].
    pub fn process_request_rev<M>(&mut self, wrapper: Wrapper<M>) -> (call: ChainCall<M>)
        ensures
            final(self).has_started(old(self), wrapper, Pass::Pushed, call),
            call.pass == Pass::Pushed,
            call.wrapper.requests == wrapper.requests,
            call.wrapper.client_details == wrapper.client_details,
            call.wrapper.local_addr == wrapper.local_addr,
            call.wrapper.flush == wrapper.flush,
            call.wrapper.transforms@.len() == old(self).chain@.len(),
            forall|i: int|
                0 <= i < old(self).chain@.len() ==> #[trigger] call.wrapper.transforms@[i] == old(
                    self,
                ).chain@.len() - 1 - i,
            call.client_details@ == wrapper.client_details@,
            final(self).name == old(self).name,
            final(self).chain == old(self).chain,
            final(self).chain_total == old(self).chain_total,
            final(self).chain_failures == old(self).chain_failures,
            final(self).chain_batch_size.handle() == old(self).chain_batch_size.handle(),
            final(self).chain_batch_size.key() == old(self).chain_batch_size.key(),
            final(self).chain_batch_size.recorded().len() == old(
                self,
            ).chain_batch_size.recorded().len() + 1,
            final(self).chain_batch_size.recorded().drop_last() == old(
                self,
            ).chain_batch_size.recorded(),
            final(self).chain_batch_size.recorded().last().units == wrapper.requests@.len(),
            final(self).chain_batch_size.recorded().last().nanos == 0,
    {
        let mut wrapper = wrapper;
        wrapper.reset_rev(self.chain.len());
        self.start_request(wrapper, Pass::Pushed)
    }

    fn start_request<M>(&mut self, wrapper: Wrapper<M>, pass: Pass) -> (call: ChainCall<M>)
        ensures
            call.pass == pass,
            call.wrapper == wrapper,
            call.client_details@ == wrapper.client_details@,
            final(self).has_recorded_batch(old(self), wrapper.requests@.len()),
            wrapper.requests@.len() <= usize::MAX,
    {
        let units: u64 = wrapper.requests.len() as u64;
        self.chain_batch_size.record(FixedPoint { units, nanos: 0 });
        let client_details = wrapper.client_details.clone();
        ChainCall { pass, wrapper, client_details }
    }

    /// Takes what came of a batch that was passed through the chain, in either direction: counts
    /// it, counts the failure if it is one, records how many seconds it took and hands it on.
    pub fn finish_request<M, E>(
        &mut self,
        client_details: String,
        result: Result<Vec<M>, E>,
        elapsed: FixedPoint,
    ) -> (finished: FinishedCall<M, E>)
        requires
            elapsed.well_formed(),
        ensures
            finished.result == result,
            finished.latency.key() == Some(latency_key(old(self).name@, client_details@)),
            finished.latency.recorded() == seq![elapsed],
            final(self).has_counted_batch(old(self), result is Err),
            old(self).well_formed() ==> final(self).well_formed(),
            finished.latency.key() matches Some(key) && key.name
                == "shotover_chain_latency_seconds"@ && key.labels == seq![
                ("chain"@, old(self).name@),
                ("client_details"@, client_details@),
            ],
            finished.latency.recorded().len() == 1,
            finished.latency.recorded()[0] == elapsed,
            final(self).name == old(self).name,
            final(self).chain == old(self).chain,
            final(self).chain_batch_size == old(self).chain_batch_size,
            final(self).chain_total.handle() == old(self).chain_total.handle(),
            final(self).chain_total.key() == old(self).chain_total.key(),
            final(self).chain_total.added() == old(self).chain_total.added() + 1,
            final(self).chain_failures.handle() == old(self).chain_failures.handle(),
            final(self).chain_failures.key() == old(self).chain_failures.key(),
            result is Ok ==> final(self).chain_failures.added() == old(
                self,
            ).chain_failures.added(),
            result is Err ==> final(self).chain_failures.added() == old(
                self,
            ).chain_failures.added() + 1,
    {
        self.chain_total.increment(1);
        if result.is_err() {
            self.chain_failures.increment(1);
        }
        let labels: Vec<(&'static str, String)> = vec![
            ("chain", self.name.to_owned()),
            ("client_details", client_details),
        ];
        let mut latency = HistogramHandle::register("shotover_chain_latency_seconds", &labels);
        proof {
            let key = crate::meter::metric_key("shotover_chain_latency_seconds", labels@);
            assert(key.labels =~= latency_key(self.name@, client_details@).labels);
        }
        latency.record(elapsed);
        FinishedCall { result, latency }
    }
}

/// Whichever way a batch is to be passed through a chain, the call carries all of it: the requests,
/// the client, the address and whether to flush are those that came in. It names each transform of
/// the chain in its place, and the chain itself has only recorded how many requests there are.
pub proof fn law_call_carries_the_batch<T, M>(
    before: TransformChain<T>,
    wrapper: Wrapper<M>,
    pass: Pass,
    call: ChainCall<M>,
    after: TransformChain<T>,
    i: int,
)
    requires
        after.has_started(&before, wrapper, pass, call),
    ensures
        call.pass == pass,
        call.wrapper.requests == wrapper.requests,
        call.wrapper.client_details == wrapper.client_details,
        call.wrapper.local_addr == wrapper.local_addr,
        call.wrapper.flush == wrapper.flush,
        call.client_details@ == wrapper.client_details@,
        call.wrapper.transforms@.len() == before.chain@.len(),
        0 <= i < before.chain@.len() ==> call.wrapper.transforms@[i] == match pass {
            Pass::Requests => i,
            Pass::Pushed => before.chain@.len() - 1 - i,
        },
        after.name == before.name,
        after.chain == before.chain,
        after.chain_total == before.chain_total,
        after.chain_failures == before.chain_failures,
        after.chain_batch_size.handle() == before.chain_batch_size.handle(),
        after.chain_batch_size.key() == before.chain_batch_size.key(),
        after.chain_batch_size.recorded().len() == before.chain_batch_size.recorded().len() + 1,
        after.chain_batch_size.recorded().drop_last() == before.chain_batch_size.recorded(),
        after.chain_batch_size.recorded().last().units == wrapper.requests@.len(),
        after.chain_batch_size.recorded().last().nanos == 0,
{
    assert(before.chain.len() == before.chain@.len());
    assert(wrapper.requests.len() == wrapper.requests@.len());
}

/// A batch is the same whether it goes forward or backward through a chain: only the transforms are
/// called in the opposite order.
pub proof fn law_passes_differ_in_order_only<T, M>(
    before: TransformChain<T>,
    wrapper: Wrapper<M>,
    forward: ChainCall<M>,
    after_forward: TransformChain<T>,
    backward: ChainCall<M>,
    after_backward: TransformChain<T>,
)
    requires
        after_forward.has_started(&before, wrapper, Pass::Requests, forward),
        after_backward.has_started(&before, wrapper, Pass::Pushed, backward),
    ensures
        forward.pass != backward.pass,
        forward.wrapper.requests == backward.wrapper.requests,
        forward.wrapper.client_details == backward.wrapper.client_details,
        forward.wrapper.local_addr == backward.wrapper.local_addr,
        forward.wrapper.flush == backward.wrapper.flush,
        forward.client_details@ == backward.client_details@,
        forward.wrapper.transforms@ == backward.wrapper.transforms@.reverse(),
        after_forward.chain_batch_size.recorded() == after_backward.chain_batch_size.recorded(),
{
    crate::wrapper::law_orders_are_reversed(before.chain@.len());
}

/// From the moment that a chain takes a batch until it has taken what came of it, in whichever
/// direction the batch goes: one more batch is counted, one more failure just when it failed, and
/// one more size recorded, that of the batch; the chain keeps its name, as many transforms and its
/// metrics.
pub proof fn law_batch_is_counted_once<T, M>(
    before: TransformChain<T>,
    wrapper: Wrapper<M>,
    pass: Pass,
    call: ChainCall<M>,
    started: TransformChain<T>,
    resumed: TransformChain<T>,
    failed: bool,
    after: TransformChain<T>,
)
    requires
        started.has_started(&before, wrapper, pass, call),
        resumed.has_called_transforms(&started),
        after.has_counted_batch(&resumed, failed),
    ensures
        after.name == before.name,
        after.chain@.len() == before.chain@.len(),
        after.chain == resumed.chain,
        after.chain_total.handle() == before.chain_total.handle(),
        after.chain_total.key() == before.chain_total.key(),
        after.chain_total.added() == before.chain_total.added() + 1,
        after.chain_failures.handle() == before.chain_failures.handle(),
        after.chain_failures.key() == before.chain_failures.key(),
        failed ==> after.chain_failures.added() == before.chain_failures.added() + 1,
        !failed ==> after.chain_failures.added() == before.chain_failures.added(),
        after.chain_batch_size.handle() == before.chain_batch_size.handle(),
        after.chain_batch_size.key() == before.chain_batch_size.key(),
        after.chain_batch_size.recorded().len() == before.chain_batch_size.recorded().len() + 1,
        after.chain_batch_size.recorded().drop_last() == before.chain_batch_size.recorded(),
        after.chain_batch_size.recorded().last().units == wrapper.requests@.len(),
        after.chain_batch_size.recorded().last().nanos == 0,
        batch_passed(before, wrapper.requests@.len(), failed, after),
{
    law_call_carries_the_batch(before, wrapper, pass, call, started, 0);
    assert(started.has_recorded_batch(&before, wrapper.requests@.len()));
}

/// Calling the transforms of a chain may leave them in any state, as long as there are as many.
pub proof fn law_transforms_may_change<T>(
    before: TransformChain<T>,
    chain: Vec<TransformAndMetrics<T>>,
)
    requires
        chain@.len() == before.chain@.len(),
    ensures
        (TransformChain { chain, ..before }).has_called_transforms(&before),
{
}

/// The latency of a chain is kept under the name of the chain and apart for each client.
pub proof fn law_latency_key(chain: Seq<char>, client_details: Seq<char>)
    ensures
        latency_key(chain, client_details).name == "shotover_chain_latency_seconds"@,
        latency_key(chain, client_details).labels.len() == 2,
        latency_key(chain, client_details).labels[0] == ("chain"@, chain),
        latency_key(chain, client_details).labels[1] == ("client_details"@, client_details),
{
}

/// The latencies of two chains, or of two clients of one chain, are not mixed up.
pub proof fn law_latency_keys_tell_apart(
    chain: Seq<char>,
    client_details: Seq<char>,
    other_chain: Seq<char>,
    other_client_details: Seq<char>,
)
    requires
        latency_key(chain, client_details) == latency_key(other_chain, other_client_details),
    ensures
        chain == other_chain,
        client_details == other_client_details,
{
    law_latency_key(chain, client_details);
    law_latency_key(other_chain, other_client_details);
}

/// A chain through which nothing has been counted is well formed, and no chain is that has counted
/// more failures than batches.
pub proof fn law_failures_are_batches<T>(chain: TransformChain<T>)
    ensures
        chain.well_formed() <==> chain.chain_total.added() >= chain.chain_failures.added(),
        chain.chain_failures.added() == 0 ==> chain.well_formed(),
{
}

/// A whole number has no fraction.
pub proof fn law_whole(units: nat)
    ensures
        whole(units).nanos == 0,
        units <= u64::MAX ==> whole(units).units == units,
        whole(units).well_formed(),
{
}

/// From `before`, one batch of `size` messages was passed through the chain, which may have changed
/// the transforms.
pub open spec fn batch_passed<T>(
    before: TransformChain<T>,
    size: nat,
    failed: bool,
    after: TransformChain<T>,
) -> bool {
    exists|started: TransformChain<T>, resumed: TransformChain<T>|
        {
            &&& #[trigger] started.has_recorded_batch(&before, size)
            &&& resumed.has_called_transforms(&started)
            &&& #[trigger] after.has_counted_batch(&resumed, failed)
        }
}

/// `states` are those of a chain between batches: batch `i`, of `sizes[i]` messages, took it from
/// `states[i]` to the next.
pub open spec fn batches_passed<T>(
    states: Seq<TransformChain<T>>,
    sizes: Seq<nat>,
    failed: Seq<bool>,
) -> bool {
    &&& states.len() == sizes.len() + 1
    &&& failed.len() == sizes.len()
    &&& forall|i: int|
        0 <= i < sizes.len() ==> #[trigger] batch_passed(
            states[i],
            sizes[i],
            failed[i],
            states[i + 1],
        )
}

/// How many of the batches failed.
pub open spec fn failures(failed: Seq<bool>) -> nat {
    failed.filter(|f: bool| f).len()
}

/// Of no batches none failed, and each batch more is one failure more just when it failed.
pub proof fn law_failures(earlier: Seq<bool>, failed: bool)
    ensures
        failures(Seq::empty()) == 0,
        failures(earlier.push(failed)) == failures(earlier) + (if failed {
            1nat
        } else {
            0nat
        }),
{
    reveal(Seq::filter);
    assert(earlier.push(failed).drop_last() =~= earlier);
}

/// A chain that no batch has been passed through is where it was, and each batch that is passed
/// through takes it on from where it is.
pub proof fn law_batches_follow_one_another<T>(
    states: Seq<TransformChain<T>>,
    sizes: Seq<nat>,
    failed: Seq<bool>,
    size: nat,
    fails: bool,
    next: TransformChain<T>,
)
    requires
        batches_passed(states, sizes, failed),
        batch_passed(states.last(), size, fails, next),
    ensures
        batches_passed(seq![states[0]], Seq::empty(), Seq::empty()),
        batches_passed(states.push(next), sizes.push(size), failed.push(fails)),
{
    assert forall|i: int| 0 <= i < sizes.push(size).len() implies #[trigger] batch_passed(
        states.push(next)[i],
        sizes.push(size)[i],
        failed.push(fails)[i],
        states.push(next)[i + 1],
    ) by {
        if i < sizes.len() {
            assert(batch_passed(states[i], sizes[i], failed[i], states[i + 1]));
        }
    }
}

/// Each batch that is passed through a chain, in whichever direction and whatever the transforms
/// make of it, is counted once, the failed ones are counted once more, and each leaves its size; the
/// chain keeps its name and as many transforms.
pub proof fn law_batches_are_counted<T>(
    states: Seq<TransformChain<T>>,
    sizes: Seq<nat>,
    failed: Seq<bool>,
)
    requires
        batches_passed(states, sizes, failed),
    ensures
        states.last().chain@.len() == states[0].chain@.len(),
        states.last().name == states[0].name,
        states.last().chain_total.added() == states[0].chain_total.added() + sizes.len(),
        states.last().chain_failures.added() == states[0].chain_failures.added() + failures(failed),
        states.last().chain_batch_size.recorded() == states[0].chain_batch_size.recorded()
            + sizes.map_values(|size: nat| whole(size)),
    decreases sizes.len(),
{
    let recorded = sizes.map_values(|size: nat| whole(size));
    if sizes.len() == 0 {
        reveal(Seq::filter);
        assert(states[0].chain_batch_size.recorded() + recorded
            =~= states[0].chain_batch_size.recorded());
    } else {
        let n = sizes.len() - 1;
        let previous = states.drop_last();
        assert(batches_passed(previous, sizes.drop_last(), failed.drop_last())) by {
            assert forall|i: int| 0 <= i < n implies #[trigger] batch_passed(
                previous[i],
                sizes.drop_last()[i],
                failed.drop_last()[i],
                previous[i + 1],
            ) by {
                assert(batch_passed(states[i], sizes[i], failed[i], states[i + 1]));
            }
        }
        law_batches_are_counted(previous, sizes.drop_last(), failed.drop_last());
        assert(batch_passed(states[n], sizes[n], failed[n], states[n + 1]));
        assert(failures(failed) == failures(failed.drop_last()) + (if failed.last() {
            1nat
        } else {
            0nat
        })) by {
            reveal(Seq::filter);
        }
        assert(states[0].chain_batch_size.recorded() + recorded =~= (
        states[0].chain_batch_size.recorded() + sizes.drop_last().map_values(
            |size: nat| whole(size),
        )).push(whole(sizes[n])));
    }
}

/// However many batches have been through a chain, no more of them have failed than have been
/// through, if that was so at first.
pub proof fn law_failures_within_total<T>(
    states: Seq<TransformChain<T>>,
    sizes: Seq<nat>,
    failed: Seq<bool>,
)
    requires
        batches_passed(states, sizes, failed),
        states[0].well_formed(),
    ensures
        states.last().well_formed(),
        states.last().chain_failures.added() <= states.last().chain_total.added(),
{
    law_batches_are_counted(states, sizes, failed);
    failed.lemma_filter_len(|f: bool| f);
}

} // verus!

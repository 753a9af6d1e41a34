//! Configured chains, from which any number of chains are built.

use crate::chain::{TransformAndMetrics, TransformChain};
use crate::meter::{CounterHandle, HistogramHandle};
use crate::transforms::{Transform, TransformBuilder};
use crate::validation::{empty_chain_lines, push_step_lines, put_heading};
use tokio::sync::mpsc;
use vstd::prelude::*;

verus! {

/// The builder of a transform and the metrics that all the transforms built from it share.
pub struct TransformBuilderAndMetrics<B> {
    pub builder: B,
    pub transform_total: CounterHandle,
    pub transform_failures: CounterHandle,
    pub transform_latency: HistogramHandle,
    pub transform_pushed_total: CounterHandle,
    pub transform_pushed_failures: CounterHandle,
    pub transform_pushed_latency: HistogramHandle,
}

impl<B> TransformBuilderAndMetrics<B> {
    /// The metrics are those of the transform `name`, and nothing has been recorded in them.
    pub open spec fn registered(&self, name: Seq<char>) -> bool {
        &&& self.transform_total.registered("shotover_transform_total_count", "transform", name)
        &&& self.transform_failures.registered(
            "shotover_transform_failures_count",
            "transform",
            name,
        )
        &&& self.transform_latency.registered(
            "shotover_transform_latency_seconds",
            "transform",
            name,
        )
        &&& self.transform_pushed_total.registered(
            "shotover_transform_pushed_total_count",
            "transform",
            name,
        )
        &&& self.transform_pushed_failures.registered(
            "shotover_transform_pushed_failures_count",
            "transform",
            name,
        )
        &&& self.transform_pushed_latency.registered(
            "shotover_transform_pushed_latency_seconds",
            "transform",
            name,
        )
    }

    /// `metered` is kept account of in the metrics of this builder.
    pub open spec fn meters<T>(&self, metered: TransformAndMetrics<T>) -> bool {
        &&& metered.transform_total.fresh_handle_of(&self.transform_total)
        &&& metered.transform_failures.fresh_handle_of(&self.transform_failures)
        &&& metered.transform_latency.fresh_handle_of(&self.transform_latency)
        &&& metered.transform_pushed_total.fresh_handle_of(&self.transform_pushed_total)
        &&& metered.transform_pushed_failures.fresh_handle_of(&self.transform_pushed_failures)
        &&& metered.transform_pushed_latency.fresh_handle_of(&self.transform_pushed_latency)
    }

    /// Registers the metrics of the transform `name`.
    fn register(builder: B, name: &'static str) -> (registered: Self)
        ensures
            registered.builder == builder,
            registered.registered(name@),
            registered.transform_total.key() matches Some(key) && key.name == "shotover_transform_total_count"@
                && key.labels == seq![("transform"@, name@)],
            registered.transform_total.added() == 0,
            registered.transform_failures.key() matches Some(key) && key.name == "shotover_transform_failures_count"@
                && key.labels == seq![("transform"@, name@)],
            registered.transform_failures.added() == 0,
            registered.transform_latency.key() matches Some(key) && key.name == "shotover_transform_latency_seconds"@
                && key.labels == seq![("transform"@, name@)],
            registered.transform_latency.recorded().len() == 0,
            registered.transform_pushed_total.key() matches Some(key) && key.name == "shotover_transform_pushed_total_count"@
                && key.labels == seq![("transform"@, name@)],
            registered.transform_pushed_total.added() == 0,
            registered.transform_pushed_failures.key() matches Some(key) && key.name == "shotover_transform_pushed_failures_count"@
                && key.labels == seq![("transform"@, name@)],
            registered.transform_pushed_failures.added() == 0,
            registered.transform_pushed_latency.key() matches Some(key) && key.name == "shotover_transform_pushed_latency_seconds"@
                && key.labels == seq![("transform"@, name@)],
            registered.transform_pushed_latency.recorded().len() == 0,
    {
        TransformBuilderAndMetrics {
            transform_total: CounterHandle::register_labelled(
                "shotover_transform_total_count",
                "transform",
                name,
            ),
            transform_failures: CounterHandle::register_labelled(
                "shotover_transform_failures_count",
                "transform",
                name,
            ),
            transform_latency: HistogramHandle::register_labelled(
                "shotover_transform_latency_seconds",
                "transform",
                name,
            ),
            transform_pushed_total: CounterHandle::register_labelled(
                "shotover_transform_pushed_total_count",
                "transform",
                name,
            ),
            transform_pushed_failures: CounterHandle::register_labelled(
                "shotover_transform_pushed_failures_count",
                "transform",
                name,
            ),
            transform_pushed_latency: HistogramHandle::register_labelled(
                "shotover_transform_pushed_latency_seconds",
                "transform",
                name,
            ),
            builder,
        }
    }
}

impl<T> TransformBuilderAndMetrics<Box<dyn TransformBuilder<T>>> {
    /// `metered` is a transform of this builder that was given `pushed_messages_tx`.
    pub open spec fn builds_with_pushed_messages<M>(
        &self,
        pushed_messages_tx: mpsc::UnboundedSender<Vec<M>>,
        metered: TransformAndMetrics<T>,
    ) -> bool where T: Transform<M> {
        &&& self.meters(metered)
        &&& exists|built: T|
            self.builder.builds(built) && #[trigger] built.takes_pushed_messages_tx(
                pushed_messages_tx,
                metered.transform,
            )
    }

    /// Builds the transform of one chain.
    pub fn build(&self) -> (metered: TransformAndMetrics<T>)
        ensures
            self.builder.builds(metered.transform),
            self.meters(metered),
            metered.transform_total.handle() == self.transform_total.handle(),
            metered.transform_total.key() == self.transform_total.key(),
            metered.transform_total.added() == 0,
            metered.transform_failures.handle() == self.transform_failures.handle(),
            metered.transform_failures.key() == self.transform_failures.key(),
            metered.transform_failures.added() == 0,
            metered.transform_latency.handle() == self.transform_latency.handle(),
            metered.transform_latency.key() == self.transform_latency.key(),
            metered.transform_latency.recorded().len() == 0,
            metered.transform_pushed_total.handle() == self.transform_pushed_total.handle(),
            metered.transform_pushed_total.key() == self.transform_pushed_total.key(),
            metered.transform_pushed_total.added() == 0,
            metered.transform_pushed_failures.handle() == self.transform_pushed_failures.handle(),
            metered.transform_pushed_failures.key() == self.transform_pushed_failures.key(),
            metered.transform_pushed_failures.added() == 0,
            metered.transform_pushed_latency.handle() == self.transform_pushed_latency.handle(),
            metered.transform_pushed_latency.key() == self.transform_pushed_latency.key(),
            metered.transform_pushed_latency.recorded().len() == 0,
    {
        TransformAndMetrics {
            transform: self.builder.build(),
            transform_total: self.transform_total.clone(),
            transform_failures: self.transform_failures.clone(),
            transform_latency: self.transform_latency.clone(),
            transform_pushed_total: self.transform_pushed_total.clone(),
            transform_pushed_failures: self.transform_pushed_failures.clone(),
            transform_pushed_latency: self.transform_pushed_latency.clone(),
        }
    }
}

/// A configured chain: the builders of its transforms, in order.
#[verifier::reject_recursive_types(T)]
pub struct TransformChainBuilder<T> {
    pub name: &'static str,
    pub chain: Vec<TransformBuilderAndMetrics<Box<dyn TransformBuilder<T>>>>,
    pub chain_total: CounterHandle,
    pub chain_failures: CounterHandle,
    pub chain_batch_size: HistogramHandle,
}

impl<T> TransformChainBuilder<T> {
    /// What validation asks about each transform.
    pub open spec fn steps(&self) -> Seq<crate::validation::Step> {
        self.chain@.map_values(
            |metered: TransformBuilderAndMetrics<Box<dyn TransformBuilder<T>>>|
                crate::validation::Step {
                    name: metered.builder.report().name@,
                    terminating: metered.builder.report().terminating,
                    problems: crate::text::lines(metered.builder.report().problems@),
                },
        )
    }

    /// `chain` has the name of this configuration, is kept account of in its metrics, and has a
    /// transform for each builder.
    pub open spec fn frames(&self, chain: TransformChain<T>) -> bool {
        &&& chain.name == self.name
        &&& chain.chain_total.fresh_handle_of(&self.chain_total)
        &&& chain.chain_failures.fresh_handle_of(&self.chain_failures)
        &&& chain.chain_batch_size.fresh_handle_of(&self.chain_batch_size)
        &&& chain.chain@.len() == self.chain@.len()
    }

    /// `chain` is a chain of this configuration: its transforms are those of the builders, in the
    /// same order.
    pub open spec fn builds(&self, chain: TransformChain<T>) -> bool {
        &&& self.frames(chain)
        &&& forall|i: int|
            0 <= i < self.chain@.len() ==> self.chain@[i].builder.builds(
                (#[trigger] chain.chain@[i]).transform,
            ) && self.chain@[i].meters(chain.chain@[i])
    }

    /// `chain` is a chain of this configuration each transform of which was given
    /// `pushed_messages_tx`.
    pub open spec fn builds_with_pushed_messages<M>(
        &self,
        pushed_messages_tx: mpsc::UnboundedSender<Vec<M>>,
        chain: TransformChain<T>,
    ) -> bool where T: Transform<M> {
        &&& self.frames(chain)
        &&& forall|i: int|
            0 <= i < self.chain@.len() ==> self.chain@[i].builds_with_pushed_messages(
                pushed_messages_tx,
                #[trigger] chain.chain@[i],
            )
    }

    /// This is the chain `name` of the transforms of `builders`, in the same order, with the metrics
    /// of the chain and of each transform registered and nothing recorded in them.
    pub open spec fn configures(
        &self,
        builders: Seq<Box<dyn TransformBuilder<T>>>,
        name: &'static str,
    ) -> bool {
        &&& self.name == name
        &&& self.chain@.len() == builders.len()
        &&& forall|i: int|
            0 <= i < builders.len() ==> (#[trigger] self.chain@[i]).builder == builders[i]
                && self.chain@[i].registered(builders[i].report().name@)
        &&& self.chain_total.registered("shotover_chain_total_count", "chain", name@)
        &&& self.chain_failures.registered("shotover_chain_failures_count", "chain", name@)
        &&& self.chain_batch_size.registered(
            "shotover_chain_messages_per_batch_count",
            "chain",
            name@,
        )
    }

    /// Configures the chain `name` of the given transforms, and registers its metrics and those of
    /// each transform.
    pub fn new(chain: Vec<Box<dyn TransformBuilder<T>>>, name: &'static str) -> (builder: Self)
        ensures
            builder.configures(chain@, name),
            builder.name == name,
            builder.chain@.len() == chain@.len(),
            forall|i: int|
                0 <= i < chain@.len() ==> (#[trigger] builder.chain@[i]).builder == chain@[i]
                    && builder.chain@[i].registered(chain@[i].report().name@),
            builder.chain_total.key() matches Some(key) && key.name == "shotover_chain_total_count"@
                && key.labels == seq![("chain"@, name@)],
            builder.chain_total.added() == 0,
            builder.chain_failures.key() matches Some(key) && key.name == "shotover_chain_failures_count"@
                && key.labels == seq![("chain"@, name@)],
            builder.chain_failures.added() == 0,
            builder.chain_batch_size.key() matches Some(key) && key.name == "shotover_chain_messages_per_batch_count"@
                && key.labels == seq![("chain"@, name@)],
            builder.chain_batch_size.recorded().len() == 0,
    {
        let mut registered: Vec<TransformBuilderAndMetrics<Box<dyn TransformBuilder<T>>>> = Vec::new();
        let ghost builders = chain@;
        for builder in remaining: chain
            invariant
                remaining.seq() == builders,
                registered@.len() == remaining.index(),
                forall|i: int|
                    0 <= i < registered@.len() ==> (#[trigger] registered@[i]).builder
                        == builders[i] && registered@[i].registered(builders[i].report().name@),
        {
            let name = builder.get_name();
            let metered = TransformBuilderAndMetrics::register(builder, name);
            registered.push(metered);
        }
        let chain_batch_size = HistogramHandle::register_labelled(
            "shotover_chain_messages_per_batch_count",
            "chain",
            name,
        );
        let chain_total = CounterHandle::register_labelled(
            "shotover_chain_total_count",
            "chain",
            name,
        );
        let chain_failures = CounterHandle::register_labelled(
            "shotover_chain_failures_count",
            "chain",
            name,
        );
        // The latency of a chain is not registered here: each client has a histogram of its own.
        TransformChainBuilder {
            name,
            chain: registered,
            chain_total,
            chain_failures,
            chain_batch_size,
        }
    }

    /// What is wrong with the chain, a line each; nothing if the chain is valid.
    pub fn validate(&self) -> (errors: Vec<String>)
        ensures
            crate::text::lines(errors@) == crate::validation::chain_errors(
                self.name@,
                self.steps(),
            ),
            self.chain@.len() == 0 ==> errors@.len() == 2 && errors@[0]@ == self.name@ + " chain:"@
                && errors@[1]@ == "  Chain cannot be empty"@,
            errors@.len() > 0 ==> errors@[0]@ == self.name@ + " chain:"@,
            errors@.len() == 0 <==> {
                &&& self.chain@.len() > 0
                &&& forall|i: int|
                    0 <= i < self.chain@.len() ==> {
                        &&& (#[trigger] self.chain@[i]).builder.report().terminating == (i
                            == self.chain@.len() - 1)
                        &&& self.chain@[i].builder.report().problems@.len() == 0
                    }
            },
    {
        proof {
            law_errors_are_about_the_builders(*self);
        }
        if self.chain.is_empty() {
            assert(self.steps() =~= Seq::empty());
            return empty_chain_lines(self.name);
        }
        let ghost by_step = crate::validation::errors_by_step(self.steps());
        let last_index: usize = self.chain.len() - 1;
        let mut errors: Vec<String> = Vec::new();
        let mut i: usize = 0;
        assert(crate::text::lines(errors@) =~= by_step.take(0).flatten());
        while i < self.chain.len()
            invariant
                i <= self.chain.len(),
                last_index == self.chain.len() - 1,
                by_step == crate::validation::errors_by_step(self.steps()),
                crate::text::lines(errors@) == by_step.take(i as int).flatten(),
            decreases self.chain.len() - i,
        {
            let builder = &self.chain[i].builder;
            let name = builder.get_name();
            let terminating = builder.is_terminating();
            let problems = builder.validate();
            push_step_lines(&mut errors, name, terminating, &problems, i == last_index);
            proof {
                by_step.take(i as int).lemma_flatten_push(by_step[i as int]);
                assert(by_step.take(i as int).push(by_step[i as int]) =~= by_step.take(i + 1));
            }
            i += 1;
        }
        assert(by_step.take(i as int) =~= by_step);
        put_heading(self.name, &mut errors);
        errors
    }

    /// Builds a chain.
    pub fn build(&self) -> (chain: TransformChain<T>)
        ensures
            self.builds(chain),
            chain.name == self.name,
            chain.chain@.len() == self.chain@.len(),
            chain.chain_total.handle() == self.chain_total.handle(),
            chain.chain_total.key() == self.chain_total.key(),
            chain.chain_total.added() == 0,
            chain.chain_failures.handle() == self.chain_failures.handle(),
            chain.chain_failures.key() == self.chain_failures.key(),
            chain.chain_failures.added() == 0,
            chain.chain_batch_size.handle() == self.chain_batch_size.handle(),
            chain.chain_batch_size.key() == self.chain_batch_size.key(),
            chain.chain_batch_size.recorded().len() == 0,
            forall|i: int|
                0 <= i < self.chain@.len() ==> self.chain@[i].builder.builds(
                    (#[trigger] chain.chain@[i]).transform,
                ) && self.chain@[i].meters(chain.chain@[i]),
    {
        let mut chain: Vec<TransformAndMetrics<T>> = Vec::new();
        let mut i: usize = 0;
        while i < self.chain.len()
            invariant
                i <= self.chain.len(),
                chain@.len() == i,
                forall|j: int|
                    0 <= j < i ==> self.chain@[j].builder.builds(
                        (#[trigger] chain@[j]).transform,
                    ) && self.chain@[j].meters(chain@[j]),
            decreases self.chain.len() - i,
        {
            chain.push(self.chain[i].build());
            i += 1;
        }
        self.assemble(chain)
    }

    /// Builds a chain whose transforms push the messages that no client asked for into
    /// `pushed_messages_tx`.
    pub fn build_with_pushed_messages<M>(
        &self,
        pushed_messages_tx: mpsc::UnboundedSender<Vec<M>>,
    ) -> (chain: TransformChain<T>) where T: Transform<M>
        ensures
            self.builds_with_pushed_messages(pushed_messages_tx, chain),
            chain.name == self.name,
            chain.chain@.len() == self.chain@.len(),
            chain.chain_total.handle() == self.chain_total.handle(),
            chain.chain_total.key() == self.chain_total.key(),
            chain.chain_total.added() == 0,
            chain.chain_failures.handle() == self.chain_failures.handle(),
            chain.chain_failures.key() == self.chain_failures.key(),
            chain.chain_failures.added() == 0,
            chain.chain_batch_size.handle() == self.chain_batch_size.handle(),
            chain.chain_batch_size.key() == self.chain_batch_size.key(),
            chain.chain_batch_size.recorded().len() == 0,
            forall|i: int|
                0 <= i < self.chain@.len() ==> self.chain@[i].meters(#[trigger] chain.chain@[i])
                    && (exists|built: T|
                    self.chain@[i].builder.builds(built)
                        && #[trigger] built.takes_pushed_messages_tx(
                        pushed_messages_tx,
                        chain.chain@[i].transform,
                    )),
    {
        let mut chain: Vec<TransformAndMetrics<T>> = Vec::new();
        let mut i: usize = 0;
        while i < self.chain.len()
            invariant
                i <= self.chain.len(),
                chain@.len() == i,
                forall|j: int|
                    0 <= j < i ==> self.chain@[j].builds_with_pushed_messages(
                        pushed_messages_tx,
                        #[trigger] chain@[j],
                    ),
            decreases self.chain.len() - i,
        {
            let mut metered = self.chain[i].build();
            let ghost built = metered.transform;
            metered.transform.set_pushed_messages_tx(pushed_messages_tx.clone());
            assert(built.takes_pushed_messages_tx(pushed_messages_tx, metered.transform));
            chain.push(metered);
            i += 1;
        }
        self.assemble(chain)
    }

    /// Puts a chain together of the transforms built for it.
    fn assemble(&self, transforms: Vec<TransformAndMetrics<T>>) -> (chain: TransformChain<T>)
        requires
            transforms@.len() == self.chain@.len(),
        ensures
            self.frames(chain),
            chain.chain == transforms,
            chain.name == self.name,
            chain.chain_total.handle() == self.chain_total.handle(),
            chain.chain_total.key() == self.chain_total.key(),
            chain.chain_total.added() == 0,
            chain.chain_failures.handle() == self.chain_failures.handle(),
            chain.chain_failures.key() == self.chain_failures.key(),
            chain.chain_failures.added() == 0,
            chain.chain_batch_size.handle() == self.chain_batch_size.handle(),
            chain.chain_batch_size.key() == self.chain_batch_size.key(),
            chain.chain_batch_size.recorded().len() == 0,
    {
        TransformChain {
            name: self.name,
            chain: transforms,
            chain_total: self.chain_total.clone(),
            chain_failures: self.chain_failures.clone(),
            chain_batch_size: self.chain_batch_size.clone(),
        }
    }
}

/// What validation asks about the transform at place `i` is what the builder at place `i` says.
pub proof fn law_steps_are_the_reports<T>(configured: TransformChainBuilder<T>, i: int)
    ensures
        configured.steps().len() == configured.chain@.len(),
        0 <= i < configured.chain@.len() ==> {
            let step = configured.steps()[i];
            let report = configured.chain@[i].builder.report();
            &&& step.name == report.name@
            &&& step.terminating == report.terminating
            &&& step.problems.len() == report.problems@.len()
            &&& forall|j: int|
                0 <= j < report.problems@.len() ==> step.problems[j] == (
                #[trigger] report.problems@[j])@
        },
{
}

/// Validation says nothing about a chain just when it has transforms, none of the builders reports a
/// problem and the last of them, and no other, reports that it terminates. Whatever it says stands
/// under the name of the chain.
pub proof fn law_errors_are_about_the_builders<T>(configured: TransformChainBuilder<T>)
    ensures
        ({
            let errors = crate::validation::chain_errors(configured.name@, configured.steps());
            &&& errors.len() > 0 ==> errors[0] == configured.name@ + " chain:"@
            &&& errors.len() == 0 <==> {
                &&& configured.chain@.len() > 0
                &&& forall|i: int|
                    0 <= i < configured.chain@.len() ==> {
                        &&& (#[trigger] configured.chain@[i]).builder.report().terminating == (i
                            == configured.chain@.len() - 1)
                        &&& configured.chain@[i].builder.report().problems@.len() == 0
                    }
            }
        }),
{
    let steps = configured.steps();
    crate::validation::law_no_errors_iff_valid(configured.name@, steps);
    assert forall|i: int| 0 <= i < configured.chain@.len() implies steps[i].terminating == (
    #[trigger] configured.chain@[i]).builder.report().terminating && steps[i].problems.len()
        == configured.chain@[i].builder.report().problems@.len() by {
        law_steps_are_the_reports(configured, i);
    }
    if configured.chain@.len() > 0 && crate::validation::valid(steps) {
        assert forall|i: int| 0 <= i < configured.chain@.len() implies (
        #[trigger] configured.chain@[i]).builder.report().terminating == (i
            == configured.chain@.len() - 1) && configured.chain@[i].builder.report().problems@.len()
            == 0 by {
            assert(steps[i].terminating == (i == steps.len() - 1));
        }
    }
}

/// What validation says of a chain with transforms, line by line: `starts[i]` lines below the heading
/// begin those about the transform at place `i`, first that it is in the wrong place, if it is, and
/// then each problem that its builder reports.
pub proof fn law_validation_goes_by_the_reports<T>(
    configured: TransformChainBuilder<T>,
    errors: Seq<String>,
) -> (starts: Seq<int>)
    requires
        configured.chain@.len() > 0,
        crate::text::lines(errors) == crate::validation::chain_errors(
            configured.name@,
            configured.steps(),
        ),
    ensures
        starts.len() == configured.chain@.len() + 1,
        starts[0] == 0,
        forall|i: int, next: int|
            0 <= i < configured.chain@.len() && next == i + 1 ==> #[trigger] starts[next] == (
            #[trigger] starts[i]) + configured.chain@[i].builder.report().problems@.len() + (
            if configured.chain@[i].builder.report().terminating != (i == configured.chain@.len()
                - 1) {
                1int
            } else {
                0
            }),
        errors.len() == (if starts.last() == 0 {
            0
        } else {
            starts.last() + 1
        }),
        starts.last() > 0 ==> errors[0]@ == configured.name@ + " chain:"@,
        forall|i: int|
            0 <= i < configured.chain@.len() - 1 && (
            #[trigger] configured.chain@[i]).builder.report().terminating ==> errors[1
                + starts[i]]@ == "  Terminating transform "@ + crate::text::debug_text(
                configured.chain@[i].builder.report().name@,
            ) + " is not last in chain. Terminating transform must be last in chain."@,
        !configured.chain@.last().builder.report().terminating ==> errors[1
            + starts[configured.chain@.len() - 1]]@ == "  Non-terminating transform "@
            + crate::text::debug_text(configured.chain@.last().builder.report().name@)
            + " is last in chain. Last transform must be terminating."@,
        forall|i: int, next: int, j: int|
            0 <= i < configured.chain@.len() && next == i + 1 && 0 <= j
                < configured.chain@[i].builder.report().problems@.len() ==> errors[1
                + #[trigger] starts[next] - configured.chain@[i].builder.report().problems@.len()
                + j]@ == "  "@ + (#[trigger] configured.chain@[i].builder.report().problems@[j])@,
{
    let steps = configured.steps();
    let lines = crate::text::lines(errors);
    let starts = crate::validation::law_lines_stand_in_order(configured.name@, steps);
    assert forall|k: int| 0 <= k < errors.len() implies (#[trigger] errors[k])@ == lines[k] by {
        crate::text::law_lines_are_the_strings(errors, k);
    }
    lemma_starts_grow(starts);
    assert forall|i: int|
        0 <= i < configured.chain@.len() - 1 && (
        #[trigger] configured.chain@[i]).builder.report().terminating implies errors[1
        + starts[i]]@ == "  Terminating transform "@ + crate::text::debug_text(
        configured.chain@[i].builder.report().name@,
    ) + " is not last in chain. Terminating transform must be last in chain."@ by {
        assert(steps[i].terminating);
        assert(starts[i + 1] > starts[i]);
        assert(errors[1 + starts[i]]@ == lines[1 + starts[i]]);
    }
    if !configured.chain@.last().builder.report().terminating {
        let last = configured.chain@.len() - 1;
        assert(steps[last] == steps.last());
        assert(starts[last + 1] > starts[last]);
        assert(errors[1 + starts[last]]@ == lines[1 + starts[last]]);
    }
    assert forall|i: int, next: int, j: int|
        0 <= i < configured.chain@.len() && next == i + 1 && 0 <= j
            < configured.chain@[i].builder.report().problems@.len() implies errors[1
        + #[trigger] starts[next] - configured.chain@[i].builder.report().problems@.len() + j]@
        == "  "@ + (#[trigger] configured.chain@[i].builder.report().problems@[j])@ by {
        let problems = configured.chain@[i].builder.report().problems@;
        crate::text::law_lines_are_the_strings(problems, j);
        assert(steps[i].problems[j] == problems[j]@);
        assert(starts[next] >= starts[i] + problems.len());
        let k = 1 + starts[next] - problems.len() + j;
        assert(errors[k]@ == lines[k]);
    }
    starts
}

/// Where no number is less than the one before it, none is less than the first nor more than the
/// last.
proof fn lemma_starts_grow(starts: Seq<int>)
    requires
        starts.len() > 0,
        forall|i: int, next: int|
            0 <= i < starts.len() - 1 && next == i + 1 ==> (#[trigger] starts[i])
                <= #[trigger] starts[next],
    ensures
        forall|i: int|
            0 <= i < starts.len() ==> starts[0] <= #[trigger] starts[i] <= starts.last(),
    decreases starts.len(),
{
    if starts.len() > 1 {
        let front = starts.drop_last();
        lemma_starts_grow(front);
        assert(front.last() == starts[starts.len() - 2]);
        assert(starts[starts.len() - 2] <= starts[starts.len() - 1]);
        assert forall|i: int| 0 <= i < starts.len() implies starts[0] <= #[trigger] starts[i]
            <= starts.last() by {
            if i < front.len() {
                assert(front[0] <= front[i] <= front.last());
            }
        }
    }
}

/// The metrics of a builder carry the name of its transform, each under a name of its own, and are
/// unused.
pub proof fn law_registered_metrics<B>(
    registered: TransformBuilderAndMetrics<B>,
    name: Seq<char>,
)
    requires
        registered.registered(name),
    ensures
        registered.transform_total.key() matches Some(key) && key.name == "shotover_transform_total_count"@
            && key.labels == seq![("transform"@, name)],
        registered.transform_total.added() == 0,
        registered.transform_failures.key() matches Some(key) && key.name == "shotover_transform_failures_count"@
            && key.labels == seq![("transform"@, name)],
        registered.transform_failures.added() == 0,
        registered.transform_latency.key() matches Some(key) && key.name == "shotover_transform_latency_seconds"@
            && key.labels == seq![("transform"@, name)],
        registered.transform_latency.recorded().len() == 0,
        registered.transform_pushed_total.key() matches Some(key) && key.name == "shotover_transform_pushed_total_count"@
            && key.labels == seq![("transform"@, name)],
        registered.transform_pushed_total.added() == 0,
        registered.transform_pushed_failures.key() matches Some(key) && key.name == "shotover_transform_pushed_failures_count"@
            && key.labels == seq![("transform"@, name)],
        registered.transform_pushed_failures.added() == 0,
        registered.transform_pushed_latency.key() matches Some(key) && key.name == "shotover_transform_pushed_latency_seconds"@
            && key.labels == seq![("transform"@, name)],
        registered.transform_pushed_latency.recorded().len() == 0,
{
}

/// A transform is kept account of in the metrics of its builder, each in the one of the same name,
/// and has left nothing in them yet.
pub proof fn law_transform_uses_the_metrics_of_its_builder<B, T>(
    registered: TransformBuilderAndMetrics<B>,
    metered: TransformAndMetrics<T>,
)
    requires
        registered.meters(metered),
    ensures
        metered.transform_total.handle() == registered.transform_total.handle(),
        metered.transform_total.key() == registered.transform_total.key(),
        metered.transform_total.added() == 0,
        metered.transform_failures.handle() == registered.transform_failures.handle(),
        metered.transform_failures.key() == registered.transform_failures.key(),
        metered.transform_failures.added() == 0,
        metered.transform_latency.handle() == registered.transform_latency.handle(),
        metered.transform_latency.key() == registered.transform_latency.key(),
        metered.transform_latency.recorded().len() == 0,
        metered.transform_pushed_total.handle() == registered.transform_pushed_total.handle(),
        metered.transform_pushed_total.key() == registered.transform_pushed_total.key(),
        metered.transform_pushed_total.added() == 0,
        metered.transform_pushed_failures.handle() == registered.transform_pushed_failures.handle(),
        metered.transform_pushed_failures.key() == registered.transform_pushed_failures.key(),
        metered.transform_pushed_failures.added() == 0,
        metered.transform_pushed_latency.handle() == registered.transform_pushed_latency.handle(),
        metered.transform_pushed_latency.key() == registered.transform_pushed_latency.key(),
        metered.transform_pushed_latency.recorded().len() == 0,
{
}

/// A configured chain has the given name and the given builders, each in its place, and its metrics
/// and those of each transform carry their names and are unused.
pub proof fn law_configuration_keeps_the_builders<T>(
    configured: TransformChainBuilder<T>,
    builders: Seq<Box<dyn TransformBuilder<T>>>,
    name: &'static str,
    i: int,
)
    requires
        configured.configures(builders, name),
    ensures
        configured.name == name,
        configured.chain@.len() == builders.len(),
        0 <= i < builders.len() ==> configured.chain@[i].builder == builders[i],
        0 <= i < builders.len() ==> configured.chain@[i].registered(builders[i].report().name@),
        configured.chain_total.key() matches Some(key) && key.name == "shotover_chain_total_count"@
            && key.labels == seq![("chain"@, name@)],
        configured.chain_total.added() == 0,
        configured.chain_failures.key() matches Some(key) && key.name == "shotover_chain_failures_count"@
            && key.labels == seq![("chain"@, name@)],
        configured.chain_failures.added() == 0,
        configured.chain_batch_size.key() matches Some(key) && key.name == "shotover_chain_messages_per_batch_count"@
            && key.labels == seq![("chain"@, name@)],
        configured.chain_batch_size.recorded().len() == 0,
{
}

/// A chain that was built has the name of its configuration and uses its metrics, in which it has
/// left nothing yet. The transform at place `i` is one that the builder at place `i` builds, and
/// there are no others.
pub proof fn law_built_chain_follows_the_builders<T>(
    configured: TransformChainBuilder<T>,
    chain: TransformChain<T>,
    i: int,
)
    requires
        configured.builds(chain),
    ensures
        chain.name == configured.name,
        chain.chain@.len() == configured.chain@.len(),
        chain.chain_total.handle() == configured.chain_total.handle(),
        chain.chain_total.key() == configured.chain_total.key(),
        chain.chain_total.added() == 0,
        chain.chain_failures.handle() == configured.chain_failures.handle(),
        chain.chain_failures.key() == configured.chain_failures.key(),
        chain.chain_failures.added() == 0,
        chain.chain_batch_size.handle() == configured.chain_batch_size.handle(),
        chain.chain_batch_size.key() == configured.chain_batch_size.key(),
        chain.chain_batch_size.recorded().len() == 0,
        0 <= i < configured.chain@.len() ==> configured.chain@[i].builder.builds(
            chain.chain@[i].transform,
        ) && configured.chain@[i].meters(chain.chain@[i]),
{
}

/// A chain that was built with a queue for pushed messages has the name of its configuration and
/// uses its metrics, in which it has left nothing yet. Whatever its place, each transform of the
/// chain is one that the builder at that place builds and that was then given the queue.
pub proof fn law_every_transform_takes_the_pushed_messages_queue<T: Transform<M>, M>(
    configured: TransformChainBuilder<T>,
    pushed_messages_tx: mpsc::UnboundedSender<Vec<M>>,
    chain: TransformChain<T>,
    i: int,
)
    requires
        configured.builds_with_pushed_messages(pushed_messages_tx, chain),
    ensures
        chain.name == configured.name,
        chain.chain@.len() == configured.chain@.len(),
        chain.chain_total.handle() == configured.chain_total.handle(),
        chain.chain_total.key() == configured.chain_total.key(),
        chain.chain_total.added() == 0,
        chain.chain_failures.handle() == configured.chain_failures.handle(),
        chain.chain_failures.key() == configured.chain_failures.key(),
        chain.chain_failures.added() == 0,
        chain.chain_batch_size.handle() == configured.chain_batch_size.handle(),
        chain.chain_batch_size.key() == configured.chain_batch_size.key(),
        chain.chain_batch_size.recorded().len() == 0,
        0 <= i < configured.chain@.len() ==> configured.chain@[i].meters(chain.chain@[i]),
        0 <= i < configured.chain@.len() ==> exists|built: T|
            configured.chain@[i].builder.builds(built) && #[trigger] built.takes_pushed_messages_tx(
                pushed_messages_tx,
                chain.chain@[i].transform,
            ),
{
    if 0 <= i < configured.chain@.len() {
        let built = choose|built: T|
            configured.chain@[i].builder.builds(built) && #[trigger] built.takes_pushed_messages_tx(
                pushed_messages_tx,
                chain.chain@[i].transform,
            );
        assert(configured.chain@[i].builds_with_pushed_messages(
            pushed_messages_tx,
            chain.chain@[i],
        ));
        assert(built.takes_pushed_messages_tx(pushed_messages_tx, chain.chain@[i].transform));
    }
}

/// A chain that was configured from builders is validated by what those builders say.
pub proof fn law_validation_asks_the_builders<T>(
    configured: TransformChainBuilder<T>,
    builders: Seq<Box<dyn TransformBuilder<T>>>,
    name: &'static str,
    i: int,
)
    requires
        configured.configures(builders, name),
        0 <= i < builders.len(),
    ensures
        configured.steps().len() == builders.len(),
        configured.steps()[i].name == builders[i].report().name@,
        configured.steps()[i].terminating == builders[i].report().terminating,
        configured.steps()[i].problems == crate::text::lines(builders[i].report().problems@),
{
    assert(configured.chain@[i].builder == builders[i]);
}

/// All the chains of one configuration have the same name and as many transforms, and are counted
/// in the same metrics, each transform in those of its builder. A new chain has counted no more
/// failures than batches.
pub proof fn law_chains_share_their_metrics<T>(
    configured: TransformChainBuilder<T>,
    first: TransformChain<T>,
    second: TransformChain<T>,
    i: int,
)
    requires
        configured.frames(first),
        configured.frames(second),
        0 <= i < configured.chain@.len() ==> configured.chain@[i].meters(first.chain@[i]),
        0 <= i < configured.chain@.len() ==> configured.chain@[i].meters(second.chain@[i]),
    ensures
        first.name == second.name,
        first.chain@.len() == second.chain@.len(),
        first.chain_total.handle() == second.chain_total.handle(),
        first.chain_failures.handle() == second.chain_failures.handle(),
        first.chain_batch_size.handle() == second.chain_batch_size.handle(),
        0 <= i < first.chain@.len() ==> {
            let a = first.chain@[i];
            let b = second.chain@[i];
            &&& a.transform_total.handle() == b.transform_total.handle()
            &&& a.transform_failures.handle() == b.transform_failures.handle()
            &&& a.transform_latency.handle() == b.transform_latency.handle()
            &&& a.transform_pushed_total.handle() == b.transform_pushed_total.handle()
            &&& a.transform_pushed_failures.handle() == b.transform_pushed_failures.handle()
            &&& a.transform_pushed_latency.handle() == b.transform_pushed_latency.handle()
        },
        first.well_formed(),
        second.well_formed(),
{
}

/// The metrics of a chain carry its name, and those of its transforms carry theirs.
pub proof fn law_metrics_carry_names<T>(
    configured: TransformChainBuilder<T>,
    builders: Seq<Box<dyn TransformBuilder<T>>>,
    name: &'static str,
    chain: TransformChain<T>,
    i: int,
)
    requires
        configured.configures(builders, name),
        configured.builds(chain),
        0 <= i < builders.len(),
    ensures
        chain.chain_total.registered("shotover_chain_total_count", "chain", name@),
        chain.chain_failures.registered("shotover_chain_failures_count", "chain", name@),
        chain.chain_batch_size.registered(
            "shotover_chain_messages_per_batch_count",
            "chain",
            name@,
        ),
        chain.chain@[i].transform_total.registered(
            "shotover_transform_total_count",
            "transform",
            builders[i].report().name@,
        ),
        chain.chain@[i].transform_failures.registered(
            "shotover_transform_failures_count",
            "transform",
            builders[i].report().name@,
        ),
        chain.chain@[i].transform_latency.registered(
            "shotover_transform_latency_seconds",
            "transform",
            builders[i].report().name@,
        ),
        chain.chain@[i].transform_pushed_total.registered(
            "shotover_transform_pushed_total_count",
            "transform",
            builders[i].report().name@,
        ),
        chain.chain@[i].transform_pushed_failures.registered(
            "shotover_transform_pushed_failures_count",
            "transform",
            builders[i].report().name@,
        ),
        chain.chain@[i].transform_pushed_latency.registered(
            "shotover_transform_pushed_latency_seconds",
            "transform",
            builders[i].report().name@,
        ),
{
    assert(configured.chain@[i].registered(builders[i].report().name@));
    assert(configured.chain@[i].meters(chain.chain@[i]));
}

} // verus!

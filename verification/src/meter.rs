//! Handles to the counters and histograms of the `metrics` crate.
//!
//! A handle carries, for specifications only, the key it was registered under and what has been
//! recorded through it.

use vstd::prelude::*;

verus! {

/// `metrics::Counter`, carried through as it is.
#[verifier::external_type_specification]
#[verifier::external_body]
pub struct ExCounter(metrics::Counter);

/// `metrics::Histogram`, carried through as it is.
#[verifier::external_type_specification]
#[verifier::external_body]
pub struct ExHistogram(metrics::Histogram);

/// The name and the labels that a metric is registered under.
pub struct MetricKey {
    pub name: Seq<char>,
    pub labels: Seq<(Seq<char>, Seq<char>)>,
}

/// The key of a metric with a single label.
pub open spec fn labelled(name: &str, label: &str, value: Seq<char>) -> MetricKey {
    MetricKey { name: name@, labels: seq![(label@, value)] }
}

/// The key that a name and a list of label pairs make.
pub open spec fn metric_key(name: &str, labels: Seq<(&'static str, String)>) -> MetricKey {
    MetricKey {
        name: name@,
        labels: labels.map_values(|label: (&'static str, String)| (label.0@, label.1@)),
    }
}

/// A non-negative decimal number: `units` and `nanos` billionths.
#[derive(Clone, Copy, PartialEq, Eq, Debug)]
pub struct FixedPoint {
    pub units: u64,
    pub nanos: u32,
}

impl FixedPoint {
    /// The fraction is less than one.
    pub open spec fn well_formed(self) -> bool {
        self.nanos < 1_000_000_000
    }
}

/// A counter, and what this handle has added to it.
pub struct CounterHandle {
    handle: metrics::Counter,
    key: Ghost<Option<MetricKey>>,
    added: Ghost<nat>,
}

impl CounterHandle {
    /// The counter that the handle refers to. Clones of a handle share it.
    pub closed spec fn handle(&self) -> metrics::Counter {
        self.handle
    }

    /// The key that the counter was registered under; `None` for one that goes nowhere.
    pub closed spec fn key(&self) -> Option<MetricKey> {
        self.key@
    }

    /// The sum of what this handle has added to the counter.
    pub closed spec fn added(&self) -> nat {
        self.added@
    }

    /// Registered under the given name and label, and nothing has been added to it.
    pub open spec fn registered(&self, name: &str, label: &str, value: Seq<char>) -> bool {
        &&& self.key() == Some(labelled(name, label, value))
        &&& self.added() == 0
    }

    /// Goes nowhere, and nothing has been added to it.
    pub open spec fn is_noop(&self) -> bool {
        &&& self.key() is None
        &&& self.added() == 0
    }

    /// A handle to the same counter through which nothing has been added yet.
    pub open spec fn fresh_handle_of(&self, other: &CounterHandle) -> bool {
        &&& self.handle() == other.handle()
        &&& self.key() == other.key()
        &&& self.added() == 0
    }

    /// `metrics::Counter::noop`: a counter that was registered nowhere, to which nothing has been
    /// added.
    #[verifier::external_body]
    pub(crate) fn noop() -> (counter: CounterHandle)
        ensures
            counter.is_noop(),
    {
        CounterHandle { handle: metrics::Counter::noop(), key: Ghost(None), added: Ghost(0) }
    }

    /// `metrics::Recorder::register_counter` on the installed recorder: a counter registered under
    /// the given name and labels, to which nothing has been added through this handle. Which
    /// counter the recorder hands out is left open.
    #[verifier::external_body]
    pub(crate) fn register(name: &'static str, labels: &Vec<(&'static str, String)>) -> (counter:
        CounterHandle)
        ensures
            counter.key() == Some(metric_key(name, labels@)),
            counter.added() == 0,
    {
        let key = metrics::Key::from_parts(name, labels);
        let handle = metrics::recorder().register_counter(&key);
        CounterHandle { handle, key: Ghost(Some(metric_key(name, labels@))), added: Ghost(0) }
    }

    /// Registers a counter with a single label.
    pub(crate) fn register_labelled(
        name: &'static str,
        label: &'static str,
        value: &str,
    ) -> (counter: CounterHandle)
        ensures
            counter.registered(name, label, value@),
            counter.key() matches Some(key) && key.name == name@ && key.labels == seq![
                (label@, value@),
            ],
            counter.added() == 0,
    {
        let labels: Vec<(&'static str, String)> = vec![(label, value.to_owned())];
        assert(metric_key(name, labels@) == labelled(name, label, value@)) by {
            assert(metric_key(name, labels@).labels =~= labelled(name, label, value@).labels);
        }
        Self::register(name, &labels)
    }

    /// The counter of `metrics` itself.
    pub fn metric(&self) -> (metric: &metrics::Counter)
        ensures
            *metric == self.handle(),
    {
        &self.handle
    }

    /// `metrics::Counter::increment`: adds `value` through this handle, and leaves the rest of the
    /// handle as it was.
    #[verifier::external_body]
    pub(crate) fn increment(&mut self, value: u64)
        ensures
            final(self).handle() == old(self).handle(),
            final(self).key() == old(self).key(),
            final(self).added() == old(self).added() + value,
    {
        self.handle.increment(value);
        self.added = Ghost(self.added@ + value as nat);
    }
}

/// `metrics::Counter::clone`: the clone refers to the same counter.
pub assume_specification[ <metrics::Counter as Clone>::clone ](
    counter: &metrics::Counter,
) -> (clone: metrics::Counter)
    ensures
        clone == *counter,
;

impl Clone for CounterHandle {
    fn clone(&self) -> (clone: Self)
        ensures
            clone.fresh_handle_of(self),
            clone.handle() == self.handle(),
            clone.key() == self.key(),
            clone.added() == 0,
    {
        CounterHandle { handle: self.handle.clone(), key: Ghost(self.key@), added: Ghost(0) }
    }
}

/// A histogram, and what this handle has recorded in it.
pub struct HistogramHandle {
    handle: metrics::Histogram,
    key: Ghost<Option<MetricKey>>,
    recorded: Ghost<Seq<FixedPoint>>,
}

impl HistogramHandle {
    /// The histogram that the handle refers to. Clones of a handle share it.
    pub closed spec fn handle(&self) -> metrics::Histogram {
        self.handle
    }

    /// The key that the histogram was registered under; `None` for one that goes nowhere.
    pub closed spec fn key(&self) -> Option<MetricKey> {
        self.key@
    }

    /// What this handle has recorded, oldest first.
    pub closed spec fn recorded(&self) -> Seq<FixedPoint> {
        self.recorded@
    }

    /// Registered under the given name and label, and nothing has been recorded in it.
    pub open spec fn registered(&self, name: &str, label: &str, value: Seq<char>) -> bool {
        &&& self.key() == Some(labelled(name, label, value))
        &&& self.recorded() == Seq::<FixedPoint>::empty()
    }

    /// Goes nowhere, and nothing has been recorded in it.
    pub open spec fn is_noop(&self) -> bool {
        &&& self.key() is None
        &&& self.recorded() == Seq::<FixedPoint>::empty()
    }

    /// A handle to the same histogram through which nothing has been recorded yet.
    pub open spec fn fresh_handle_of(&self, other: &HistogramHandle) -> bool {
        &&& self.handle() == other.handle()
        &&& self.key() == other.key()
        &&& self.recorded() == Seq::<FixedPoint>::empty()
    }

    /// `metrics::Histogram::noop`: a histogram that was registered nowhere, in which nothing has
    /// been recorded.
    #[verifier::external_body]
    pub(crate) fn noop() -> (histogram: HistogramHandle)
        ensures
            histogram.is_noop(),
    {
        HistogramHandle {
            handle: metrics::Histogram::noop(),
            key: Ghost(None),
            recorded: Ghost(Seq::empty()),
        }
    }

    /// `metrics::Recorder::register_histogram` on the installed recorder: a histogram registered
    /// under the given name and labels, in which nothing has been recorded through this handle.
    /// Which histogram the recorder hands out is left open.
    #[verifier::external_body]
    pub(crate) fn register(name: &'static str, labels: &Vec<(&'static str, String)>) -> (histogram:
        HistogramHandle)
        ensures
            histogram.key() == Some(metric_key(name, labels@)),
            histogram.recorded() == Seq::<FixedPoint>::empty(),
    {
        let key = metrics::Key::from_parts(name, labels);
        let handle = metrics::recorder().register_histogram(&key);
        HistogramHandle {
            handle,
            key: Ghost(Some(metric_key(name, labels@))),
            recorded: Ghost(Seq::empty()),
        }
    }

    /// Registers a histogram with a single label.
    pub(crate) fn register_labelled(
        name: &'static str,
        label: &'static str,
        value: &str,
    ) -> (histogram: HistogramHandle)
        ensures
            histogram.registered(name, label, value@),
            histogram.key() matches Some(key) && key.name == name@ && key.labels == seq![
                (label@, value@),
            ],
            histogram.recorded().len() == 0,
    {
        let labels: Vec<(&'static str, String)> = vec![(label, value.to_owned())];
        assert(metric_key(name, labels@) == labelled(name, label, value@)) by {
            assert(metric_key(name, labels@).labels =~= labelled(name, label, value@).labels);
        }
        Self::register(name, &labels)
    }

    /// The histogram of `metrics` itself.
    pub fn metric(&self) -> (metric: &metrics::Histogram)
        ensures
            *metric == self.handle(),
    {
        &self.handle
    }

    /// `metrics::Histogram::record` of a duration, which `metrics` records as its number of
    /// seconds: records `value` through this handle, and leaves the rest of the handle as it was.
    #[verifier::external_body]
    pub(crate) fn record(&mut self, value: FixedPoint)
        requires
            value.well_formed(),
        ensures
            final(self).handle() == old(self).handle(),
            final(self).key() == old(self).key(),
            final(self).recorded() == old(self).recorded().push(value),
    {
        self.handle.record(core::time::Duration::new(value.units, value.nanos));
        self.recorded = Ghost(self.recorded@.push(value));
    }
}

/// `metrics::Histogram::clone`: the clone refers to the same histogram.
pub assume_specification[ <metrics::Histogram as Clone>::clone ](
    histogram: &metrics::Histogram,
) -> (clone: metrics::Histogram)
    ensures
        clone == *histogram,
;

impl Clone for HistogramHandle {
    fn clone(&self) -> (clone: Self)
        ensures
            clone.fresh_handle_of(self),
            clone.handle() == self.handle(),
            clone.key() == self.key(),
            clone.recorded().len() == 0,
    {
        HistogramHandle {
            handle: self.handle.clone(),
            key: Ghost(self.key@),
            recorded: Ghost(Seq::empty()),
        }
    }
}

/// Any number of billionths below a whole one is a fraction, and no other.
pub proof fn law_fractions(number: FixedPoint)
    ensures
        number.well_formed() <==> 0 <= number.nanos <= 999_999_999,
{
}

/// A key holds the name and, in order, the pairs that it was made of.
pub proof fn law_keys_hold_their_parts(
    name: &str,
    labels: Seq<(&'static str, String)>,
    label: &str,
    value: Seq<char>,
    i: int,
)
    ensures
        metric_key(name, labels).name == name@,
        metric_key(name, labels).labels.len() == labels.len(),
        0 <= i < labels.len() ==> metric_key(name, labels).labels[i] == (labels[i].0@, labels[i].1@),
        labelled(name, label, value).name == name@,
        labelled(name, label, value).labels.len() == 1,
        labelled(name, label, value).labels[0] == (label@, value),
{
}

/// What is said of a counter handle in one word: registered, gone nowhere, or a new handle to the
/// counter of another.
pub proof fn law_counter_handles(
    counter: CounterHandle,
    other: CounterHandle,
    name: &str,
    label: &str,
    value: Seq<char>,
)
    ensures
        counter.registered(name, label, value) ==> counter.added() == 0 && (counter.key() matches Some(
            key,
        ) && key.name == name@ && key.labels == seq![(label@, value)]),
        counter.is_noop() ==> counter.key() is None && counter.added() == 0,
        counter.fresh_handle_of(&other) ==> counter.handle() == other.handle() && counter.key()
            == other.key() && counter.added() == 0,
{
}

/// What is said of a histogram handle in one word: registered, gone nowhere, or a new handle to the
/// histogram of another.
pub proof fn law_histogram_handles(
    histogram: HistogramHandle,
    other: HistogramHandle,
    name: &str,
    label: &str,
    value: Seq<char>,
)
    ensures
        histogram.registered(name, label, value) ==> histogram.recorded().len() == 0 && (
        histogram.key() matches Some(key) && key.name == name@ && key.labels == seq![
            (label@, value),
        ]),
        histogram.is_noop() ==> histogram.key() is None && histogram.recorded().len() == 0,
        histogram.fresh_handle_of(&other) ==> histogram.handle() == other.handle()
            && histogram.key() == other.key() && histogram.recorded().len() == 0,
{
}

/// A handle can refer to any metric, which can have been registered under any key or none, and any
/// amount can have been added, or any numbers recorded, through it.
pub proof fn law_handles_tell_apart(
    counter_metric: metrics::Counter,
    histogram_metric: metrics::Histogram,
    key: Option<MetricKey>,
    added: nat,
    recorded: Seq<FixedPoint>,
)
    ensures
        exists|counter: CounterHandle|
            counter.handle() == counter_metric && counter.key() == key
                && #[trigger] counter.added() == added,
        exists|histogram: HistogramHandle|
            histogram.handle() == histogram_metric && histogram.key() == key
                && #[trigger] histogram.recorded() == recorded,
{
    let counter = CounterHandle { handle: counter_metric, key: Ghost(key), added: Ghost(added) };
    assert(counter.key() == key && counter.added() == added);
    let histogram = HistogramHandle {
        handle: histogram_metric,
        key: Ghost(key),
        recorded: Ghost(recorded),
    };
    assert(histogram.key() == key && histogram.recorded() == recorded);
}

} // verus!

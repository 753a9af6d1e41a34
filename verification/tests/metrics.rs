use std::sync::{Arc, Mutex};

use metrics::{
    Counter, CounterFn, Gauge, Histogram, HistogramFn, Key, KeyName, Recorder, SharedString, Unit,
};
use transform_chain::{
    FixedPoint, LocalAddr, TransformAndMetrics, TransformBuilder, TransformChainBuilder, Wrapper,
};

#[derive(Clone, Default)]
struct Log(Arc<Mutex<Vec<String>>>);

impl Log {
    fn add(&self, line: String) {
        self.0.lock().unwrap().push(line);
    }

    fn take(&self) -> Vec<String> {
        std::mem::take(&mut *self.0.lock().unwrap())
    }
}

struct LoggedMetric {
    key: String,
    log: Log,
}

impl CounterFn for LoggedMetric {
    fn increment(&self, value: u64) {
        self.log.add(format!("{} + {}", self.key, value));
    }

    fn absolute(&self, value: u64) {
        self.log.add(format!("{} := {}", self.key, value));
    }
}

impl HistogramFn for LoggedMetric {
    fn record(&self, value: f64) {
        self.log.add(format!("{} <- {}", self.key, value));
    }
}

fn key_text(key: &Key) -> String {
    let labels: Vec<String> = key
        .labels()
        .map(|label| format!("{}={}", label.key(), label.value()))
        .collect();
    format!("{}[{}]", key.name(), labels.join(","))
}

struct LoggingRecorder(Log);

impl Recorder for LoggingRecorder {
    fn describe_counter(&self, _key: KeyName, _unit: Option<Unit>, _description: SharedString) {}

    fn describe_gauge(&self, _key: KeyName, _unit: Option<Unit>, _description: SharedString) {}

    fn describe_histogram(&self, _key: KeyName, _unit: Option<Unit>, _description: SharedString) {}

    fn register_counter(&self, key: &Key) -> Counter {
        let key = key_text(key);
        self.0.add(format!("counter {}", key));
        Counter::from_arc(Arc::new(LoggedMetric {
            key,
            log: self.0.clone(),
        }))
    }

    fn register_gauge(&self, _key: &Key) -> Gauge {
        Gauge::noop()
    }

    fn register_histogram(&self, key: &Key) -> Histogram {
        let key = key_text(key);
        self.0.add(format!("histogram {}", key));
        Histogram::from_arc(Arc::new(LoggedMetric {
            key,
            log: self.0.clone(),
        }))
    }
}

struct Sink;

impl TransformBuilder<u8> for Sink {
    fn build(&self) -> u8 {
        7
    }

    fn get_name(&self) -> &'static str {
        "Sink"
    }

    fn is_terminating(&self) -> bool {
        true
    }

    fn validate(&self) -> Vec<String> {
        vec![]
    }
}

#[test]
fn metrics_are_registered_and_recorded() {
    let log = Log::default();
    metrics::set_boxed_recorder(Box::new(LoggingRecorder(log.clone()))).unwrap();

    let builder = TransformChainBuilder::new(vec![Box::new(Sink)], "main");
    assert_eq!(
        log.take(),
        vec![
            "counter shotover_transform_total_count[transform=Sink]",
            "counter shotover_transform_failures_count[transform=Sink]",
            "histogram shotover_transform_latency_seconds[transform=Sink]",
            "counter shotover_transform_pushed_total_count[transform=Sink]",
            "counter shotover_transform_pushed_failures_count[transform=Sink]",
            "histogram shotover_transform_pushed_latency_seconds[transform=Sink]",
            "histogram shotover_chain_messages_per_batch_count[chain=main]",
            "counter shotover_chain_total_count[chain=main]",
            "counter shotover_chain_failures_count[chain=main]",
        ]
    );

    // Building registers nothing: the chains share the metrics of the builder.
    let mut first = builder.build();
    let mut second = builder.build();
    assert_eq!(log.take(), Vec::<String>::new());

    let addr = LocalAddr::V4 {
        octets: [10, 0, 0, 1],
        port: 6379,
    };
    let mut wrapper = Wrapper::new_with_addr(vec!["a", "b", "c"], addr);
    wrapper.client_details = "1.2.3.4".to_string();
    let call = first.process_request(wrapper);
    assert_eq!(call.client_details, "1.2.3.4");
    assert_eq!(
        log.take(),
        vec!["shotover_chain_messages_per_batch_count[chain=main] <- 3"]
    );

    let elapsed = FixedPoint {
        units: 2,
        nanos: 500_000_000,
    };
    let finished = first.finish_request(call.client_details, Ok::<_, String>(vec!["d"]), elapsed);
    assert_eq!(finished.result, Ok(vec!["d"]));
    assert_eq!(
        log.take(),
        vec![
            "shotover_chain_total_count[chain=main] + 1",
            "histogram shotover_chain_latency_seconds[chain=main,client_details=1.2.3.4]",
            "shotover_chain_latency_seconds[chain=main,client_details=1.2.3.4] <- 2.5",
        ]
    );

    let call = second.process_request_rev(Wrapper::<&str>::flush());
    let finished = second.finish_request(
        call.client_details,
        Err::<Vec<&str>, _>("broken".to_string()),
        FixedPoint { units: 0, nanos: 0 },
    );
    assert_eq!(finished.result, Err("broken".to_string()));
    assert_eq!(
        log.take(),
        vec![
            "shotover_chain_messages_per_batch_count[chain=main] <- 0",
            "shotover_chain_total_count[chain=main] + 1",
            "shotover_chain_failures_count[chain=main] + 1",
            "histogram shotover_chain_latency_seconds[chain=main,client_details=]",
            "shotover_chain_latency_seconds[chain=main,client_details=] <- 0",
        ]
    );

    // The metrics of the transforms are those of their builder.
    let metered = &first.chain[0];
    metered.transform_total.metric().increment(1);
    metered.transform_failures.metric().increment(2);
    metered.transform_pushed_total.metric().increment(3);
    metered.transform_pushed_failures.metric().increment(4);
    metered.transform_latency.metric().record(0.5);
    metered.transform_pushed_latency.metric().record(0.25);
    assert_eq!(
        log.take(),
        vec![
            "shotover_transform_total_count[transform=Sink] + 1",
            "shotover_transform_failures_count[transform=Sink] + 2",
            "shotover_transform_pushed_total_count[transform=Sink] + 3",
            "shotover_transform_pushed_failures_count[transform=Sink] + 4",
            "shotover_transform_latency_seconds[transform=Sink] <- 0.5",
            "shotover_transform_pushed_latency_seconds[transform=Sink] <- 0.25",
        ]
    );

    // Metrics that were registered nowhere record nothing.
    let quiet = TransformAndMetrics::new("transform");
    assert_eq!(quiet.transform, "transform");
    quiet.transform_total.metric().increment(1);
    quiet.transform_failures.metric().increment(1);
    quiet.transform_pushed_total.metric().increment(1);
    quiet.transform_pushed_failures.metric().increment(1);
    quiet.transform_latency.metric().record(1.0);
    quiet.transform_pushed_latency.metric().record(1.0);
    assert_eq!(log.take(), Vec::<String>::new());
}

use tokio::sync::{mpsc, oneshot};
use transform_chain::buffered::deliver;
use transform_chain::{
    BufferedChain, BufferedChainError, BufferedChainMessages, Delivery, FixedPoint, LocalAddr,
    Origin, Pass, TaskNext, Transform, TransformBuilder, TransformChainBuilder, Wrapper,
};

const INSTANT: FixedPoint = FixedPoint { units: 0, nanos: 0 };

const ADDR: LocalAddr = LocalAddr::V6 {
    segments: [0, 0, 0, 0, 0, 0, 0, 1],
    port: 9042,
    flowinfo: 0,
    scope_id: 3,
};

const FLUSH_ADDR: LocalAddr = LocalAddr::V4 {
    octets: [127, 0, 0, 1],
    port: 10000,
};

struct Pusher {
    id: u32,
    pushed: Option<mpsc::UnboundedSender<Vec<&'static str>>>,
}

impl Transform<&'static str> for Pusher {
    fn set_pushed_messages_tx(
        &mut self,
        pushed_messages_tx: mpsc::UnboundedSender<Vec<&'static str>>,
    ) {
        self.pushed = Some(pushed_messages_tx);
    }
}

struct PusherBuilder(u32);

impl TransformBuilder<Pusher> for PusherBuilder {
    fn build(&self) -> Pusher {
        Pusher {
            id: self.0,
            pushed: None,
        }
    }

    fn get_name(&self) -> &'static str {
        "Pusher"
    }

    fn is_terminating(&self) -> bool {
        false
    }

    fn validate(&self) -> Vec<String> {
        vec![]
    }
}

fn builder(len: u32) -> TransformChainBuilder<Pusher> {
    let mut builders: Vec<Box<dyn TransformBuilder<Pusher>>> = vec![];
    for id in 0..len {
        builders.push(Box::new(PusherBuilder(id)));
    }
    TransformChainBuilder::new(builders, "test-chain")
}

fn wrapper(requests: Vec<&'static str>, flush: bool) -> Wrapper<&'static str> {
    let mut wrapper = Wrapper::new_with_addr(requests, ADDR);
    wrapper.client_details = "client".to_string();
    wrapper.flush = flush;
    wrapper
}

#[test]
fn transforms_are_called_in_either_order() {
    let mut chain = builder(3).build();
    let call = chain.process_request(wrapper(vec!["a"], false));
    assert_eq!(call.pass, Pass::Requests);
    assert_eq!(call.wrapper.transforms, vec![0, 1, 2]);
    assert_eq!(call.wrapper.requests, vec!["a"]);
    assert_eq!(call.wrapper.local_addr, ADDR);
    assert_eq!(call.client_details, "client");

    let call = chain.process_request_rev(wrapper(vec!["a"], true));
    assert_eq!(call.pass, Pass::Pushed);
    assert_eq!(call.wrapper.transforms, vec![2, 1, 0]);
    assert!(call.wrapper.flush);

    let mut empty = builder(0).build();
    let call = empty.process_request(wrapper(vec![], false));
    assert_eq!(call.wrapper.transforms, Vec::<usize>::new());
}

#[test]
fn reset_replaces_what_was_left() {
    let mut wrapper = wrapper(vec!["a"], false);
    wrapper.reset(2);
    assert_eq!(wrapper.transforms, vec![0, 1]);
    wrapper.reset_rev(3);
    assert_eq!(wrapper.transforms, vec![2, 1, 0]);
    wrapper.reset_rev(0);
    assert_eq!(wrapper.transforms, Vec::<usize>::new());
    assert_eq!(wrapper.requests, vec!["a"]);
}

#[test]
fn pushed_messages_reach_one_queue() {
    let (pushed_tx, mut pushed_rx) = mpsc::unbounded_channel();
    let chain = builder(2).build_with_pushed_messages(pushed_tx);
    assert_eq!(chain.name, "test-chain");
    assert_eq!(chain.chain.len(), 2);
    for metered in &chain.chain {
        let message = if metered.transform.id == 0 { "zero" } else { "one" };
        metered
            .transform
            .pushed
            .as_ref()
            .unwrap()
            .send(vec![message])
            .unwrap();
    }
    assert_eq!(pushed_rx.try_recv(), Ok(vec!["zero"]));
    assert_eq!(pushed_rx.try_recv(), Ok(vec!["one"]));
    assert!(pushed_rx.try_recv().is_err());

    let plain = builder(2).build();
    assert!(plain.chain.iter().all(|metered| metered.transform.pushed.is_none()));
}

#[test]
fn batches_without_return() {
    let batch = BufferedChainMessages::<_, String>::new_with_no_return(vec!["a"], ADDR);
    assert_eq!(batch.messages, vec!["a"]);
    assert_eq!(batch.local_addr, ADDR);
    assert!(!batch.flush);
    assert!(batch.return_chan.is_none());
}

#[test]
fn request_asks_for_a_response() {
    let (mut chain, _task, _receiver) = builder(1).build_buffered::<&str, String>(1);
    let (submission, receiver) = chain.process_request(wrapper(vec!["a", "b"], true), Some(250));
    assert_eq!(submission.timeout_micros, Some(250));
    assert_eq!(submission.batch.messages, vec!["a", "b"]);
    assert_eq!(submission.batch.local_addr, ADDR);
    assert!(submission.batch.flush);

    let delivery = deliver(submission.batch.return_chan, Ok(vec!["c"]));
    assert!(matches!(delivery, Delivery::Delivered(_)));
    assert_eq!(receiver.into_handle().try_recv().unwrap(), Ok(vec!["c"]));
}

#[test]
fn only_a_flush_without_return_asks_for_a_response() {
    let (mut chain, _task, _receiver) = builder(1).build_buffered::<&str, String>(1);

    let (submission, receiver) = chain.process_request_no_return(wrapper(vec!["a"], false), None);
    assert!(receiver.is_none());
    assert!(submission.batch.return_chan.is_none());
    assert!(!submission.batch.flush);
    assert_eq!(submission.batch.messages, vec!["a"]);
    assert_eq!(submission.timeout_micros, None);

    let (submission, receiver) = chain.process_request_no_return(wrapper(vec!["a"], true), Some(1));
    assert!(receiver.is_some());
    assert!(submission.batch.return_chan.is_some());
    assert!(submission.batch.flush);
    assert_eq!(submission.timeout_micros, Some(1));
}

#[test]
fn failed_sends_say_why() {
    let text = "Couldn't send message to wrapped chain Timeout(..)";
    let failed = || Err("Timeout(..)".to_string());
    let (mut chain, _task, _receiver) = builder(1).build_buffered::<&str, String>(1);

    let (submission, receiver) = chain.process_request(wrapper(vec![], false), Some(1));
    assert!(matches!(
        BufferedChain::sent(receiver, failed()),
        Err(BufferedChainError::Send(error)) if error == text
    ));
    assert!(matches!(
        deliver(submission.batch.return_chan, Ok(vec![])),
        Delivery::Undelivered(_)
    ));

    let (_submission, receiver) = chain.process_request_no_return(wrapper(vec![], false), Some(1));
    assert!(matches!(
        BufferedChain::sent_no_return(receiver, failed()),
        Err(BufferedChainError::Send(error)) if error == text
    ));
}

#[test]
fn sent_requests_wait_on_their_own_channel() {
    let (mut chain, _task, _receiver) = builder(1).build_buffered::<&str, String>(1);

    let (submission, receiver) = chain.process_request(wrapper(vec![], false), None);
    let receiver = BufferedChain::sent(receiver, Ok(())).ok().unwrap();
    deliver(submission.batch.return_chan, Ok(vec!["a"]));
    assert_eq!(receiver.into_handle().try_recv().unwrap(), Ok(vec!["a"]));

    let (submission, receiver) = chain.process_request_no_return(wrapper(vec![], true), None);
    let receiver = BufferedChain::sent_no_return(receiver, Ok(())).ok().unwrap();
    deliver(submission.batch.return_chan, Ok(vec!["b"]));
    assert_eq!(
        receiver.unwrap().into_handle().try_recv().unwrap(),
        Ok(vec!["b"])
    );

    let (_submission, receiver) = chain.process_request_no_return(wrapper(vec![], false), None);
    assert!(matches!(
        BufferedChain::<&str, String>::sent_no_return(receiver, Ok(())),
        Ok(None)
    ));
}

#[test]
fn replies_become_results() {
    let (sender, mut receiver) = oneshot::channel::<()>();
    drop(sender);
    assert!(receiver.try_recv().is_err());

    let runtime = tokio::runtime::Builder::new_current_thread().build().unwrap();
    let (sender, receiver) = oneshot::channel::<Result<Vec<&str>, String>>();
    drop(sender);
    let gone = runtime.block_on(receiver).unwrap_err();

    type Chain = BufferedChain<&'static str, String>;
    assert!(matches!(Chain::replied(Ok(Ok(vec!["a"]))), Ok(messages) if messages == vec!["a"]));
    assert!(matches!(
        Chain::replied(Ok(Err("broken".to_string()))),
        Err(BufferedChainError::Chain(error)) if error == "broken"
    ));
    assert!(matches!(
        Chain::replied(Err(gone.clone())),
        Err(BufferedChainError::Reply(error)) if error == gone
    ));

    assert!(Chain::replied_no_return(Ok(Ok(vec!["a"]))).is_ok());
    assert!(matches!(
        Chain::replied_no_return(Ok(Err("broken".to_string()))),
        Err(BufferedChainError::Chain(error)) if error == "broken"
    ));
    assert!(matches!(
        Chain::replied_no_return(Err(gone)),
        Err(BufferedChainError::Reply(_))
    ));
}

#[test]
fn responses_are_delivered_if_someone_waits() {
    assert!(matches!(
        deliver::<&str, String>(None, Ok(vec![])),
        Delivery::Ignored
    ));

    let (mut chain, _task, _receiver) = builder(1).build_buffered::<&str, String>(1);
    let (submission, receiver) = chain.process_request(wrapper(vec![], false), None);
    drop(receiver);
    match deliver(submission.batch.return_chan, Err("late".to_string())) {
        Delivery::Undelivered(refusal) => {
            assert_eq!(refusal.into_response(), Err("late".to_string()))
        }
        _ => panic!("nobody waits for this response"),
    }
}

#[test]
fn queue_holds_as_many_batches_as_asked_for() {
    let (chain, _task, _receiver) = builder(1).build_buffered::<&str, String>(2);
    let other = chain.clone();
    assert!(other.send_handle.handle().same_channel(chain.send_handle.handle()));
    assert_eq!(chain.send_handle.handle().max_capacity(), 2);

    let batch = || BufferedChainMessages::new_with_no_return(vec!["a"], ADDR);
    assert!(chain.send_handle.handle().try_send(batch()).is_ok());
    assert!(other.send_handle.handle().try_send(batch()).is_ok());
    assert!(chain.send_handle.handle().try_send(batch()).is_err());
}

#[test]
fn task_answers_in_order_and_flushes_at_the_end() {
    let (mut chain, mut task, queue) = builder(2).build_buffered::<&str, String>(4);
    let mut queue = queue.into_handle();

    let (first, first_reply) = chain.process_request(wrapper(vec!["a"], false), None);
    let (second, no_reply) = chain.process_request_no_return(wrapper(vec!["b"], false), None);
    assert!(no_reply.is_none());
    let (third, third_reply) = chain.process_request_no_return(wrapper(vec!["c"], true), None);
    for submission in [first, second, third] {
        assert!(chain.send_handle.handle().try_send(submission.batch).is_ok());
    }
    drop(chain);

    let task_call = task.received(queue.try_recv().ok());
    assert_eq!(task_call.call.wrapper.requests, vec!["a"]);
    assert_eq!(task_call.call.wrapper.local_addr, ADDR);
    assert_eq!(task_call.call.wrapper.client_details, "");
    assert_eq!(task_call.call.pass, Pass::Requests);
    assert_eq!(task_call.call.wrapper.transforms, vec![0, 1]);
    assert!(!task_call.call.wrapper.flush);
    let step = task.finished(
        task_call.origin,
        task_call.call.client_details,
        Ok(vec!["A"]),
        INSTANT,
    );
    assert!(matches!(step.next, TaskNext::Receive(Delivery::Delivered(_))));
    assert_eq!(first_reply.into_handle().try_recv().unwrap(), Ok(vec!["A"]));

    let task_call = task.received(queue.try_recv().ok());
    assert_eq!(task_call.call.wrapper.requests, vec!["b"]);
    assert!(matches!(task_call.origin, Origin::Queue(None)));
    let step = task.finished(
        task_call.origin,
        task_call.call.client_details,
        Err("broken".to_string()),
        INSTANT,
    );
    assert!(matches!(step.next, TaskNext::Receive(Delivery::Ignored)));

    let task_call = task.received(queue.try_recv().ok());
    assert_eq!(task_call.call.wrapper.requests, vec!["c"]);
    assert!(task_call.call.wrapper.flush);
    let step = task.finished(
        task_call.origin,
        task_call.call.client_details,
        Err("broken".to_string()),
        INSTANT,
    );
    assert!(matches!(step.next, TaskNext::Receive(Delivery::Delivered(_))));
    assert_eq!(
        third_reply.unwrap().into_handle().try_recv().unwrap(),
        Err("broken".to_string())
    );
    assert_eq!(task.count, 3);

    let task_call = task.received::<&str, String>(queue.try_recv().ok());
    assert_eq!(task_call.call.wrapper.requests, Vec::<&str>::new());
    assert_eq!(task_call.call.wrapper.local_addr, FLUSH_ADDR);
    assert!(task_call.call.wrapper.flush);
    assert!(matches!(task_call.origin, Origin::Shutdown));
    let step = task.finished(
        task_call.origin,
        task_call.call.client_details,
        Ok(vec!["left over"]),
        INSTANT,
    );
    match step.next {
        TaskNext::Exit(result) => assert_eq!(result, Ok(vec!["left over"])),
        TaskNext::Receive(_) => panic!("the task must end"),
    }
    assert_eq!(task.count, 3);
}

#[test]
fn task_count_starts_over() {
    let (_chain, mut task, _queue) = builder(1).build_buffered::<&str, String>(1);
    task.count = u64::MAX;
    let batch = BufferedChainMessages::<_, String>::new_with_no_return(vec!["a"], ADDR);
    task.received(Some(batch));
    assert_eq!(task.count, 0);
}

#[test]
fn task_handles_the_whole_queue_and_ends() {
    let (mut chain, mut task, queue) = builder(1).build_buffered::<&str, String>(2);
    let mut queue = queue.into_handle();
    let (first, _) = chain.process_request_no_return(wrapper(vec![], false), None);
    let (second, reply) = chain.process_request(wrapper(vec![], true), None);
    assert!(chain.send_handle.handle().try_send(first.batch).is_ok());
    assert!(chain.send_handle.handle().try_send(second.batch).is_ok());
    drop(chain);

    let mut handled = vec![];
    let mut left_over = None;
    while left_over.is_none() {
        let task_call = task.received(queue.try_recv().ok());
        handled.push((
            task_call.call.wrapper.requests.len(),
            task_call.call.wrapper.flush,
        ));
        let response = if handled.len() == 2 { "second" } else { "other" };
        let step = task.finished(
            task_call.origin,
            task_call.call.client_details,
            Ok(vec![response]),
            INSTANT,
        );
        if let TaskNext::Exit(result) = step.next {
            left_over = Some(result);
        }
    }
    assert_eq!(handled, vec![(0, false), (0, true), (0, true)]);
    assert_eq!(reply.into_handle().try_recv().unwrap(), Ok(vec!["second"]));
    assert_eq!(left_over, Some(Ok(vec!["other"])));
}

#[test]
fn task_goes_on_after_failures_and_lost_callers() {
    let (mut chain, mut task, queue) = builder(1).build_buffered::<&str, String>(3);
    let mut queue = queue.into_handle();
    let (failing, failing_reply) = chain.process_request(wrapper(vec!["failing"], false), None);
    let (lost, lost_reply) = chain.process_request(wrapper(vec!["lost"], false), None);
    let (next, next_reply) = chain.process_request(wrapper(vec!["next"], false), None);
    drop(lost_reply);
    for submission in [failing, lost, next] {
        assert!(chain.send_handle.handle().try_send(submission.batch).is_ok());
    }

    let mut undelivered = vec![];
    for request in ["failing", "lost", "next"] {
        let task_call = task.received(queue.try_recv().ok());
        assert_eq!(task_call.call.wrapper.requests, vec![request]);
        let result = if request == "failing" {
            Err("broken".to_string())
        } else {
            Ok(vec![request])
        };
        let step = task.finished(
            task_call.origin,
            task_call.call.client_details,
            result,
            INSTANT,
        );
        match step.next {
            TaskNext::Receive(Delivery::Undelivered(refusal)) => {
                undelivered.push(refusal.into_response())
            }
            TaskNext::Receive(Delivery::Delivered(_)) => {}
            _ => panic!("every caller asked for a response"),
        }
    }
    assert_eq!(undelivered, vec![Ok(vec!["lost"])]);
    assert_eq!(
        failing_reply.into_handle().try_recv().unwrap(),
        Err("broken".to_string())
    );
    assert_eq!(next_reply.into_handle().try_recv().unwrap(), Ok(vec!["next"]));
}

#[test]
fn answered_flush_follows_earlier_batches() {
    let (mut chain, mut task, queue) = builder(1).build_buffered::<&str, String>(3);
    let mut queue = queue.into_handle();
    let mut flushed = None;
    for (request, flush) in [("a", false), ("b", false), ("c", true)] {
        let (submission, receiver) =
            chain.process_request_no_return(wrapper(vec![request], flush), None);
        assert!(chain.send_handle.handle().try_send(submission.batch).is_ok());
        flushed = receiver;
    }
    let mut flushed = flushed.unwrap().into_handle();

    let mut handled = vec![];
    for _ in 0..3 {
        assert!(flushed.try_recv().is_err());
        let task_call = task.received(queue.try_recv().ok());
        handled.extend(task_call.call.wrapper.requests.clone());
        task.finished(
            task_call.origin,
            task_call.call.client_details,
            Ok(vec!["done"]),
            INSTANT,
        );
    }
    assert_eq!(handled, vec!["a", "b", "c"]);
    assert!(BufferedChain::<&str, String>::replied_no_return(Ok(flushed.try_recv().unwrap())).is_ok());
}

#[test]
fn buffered_chain_is_called_as_the_chain_is() {
    let builder = builder(2);
    let (mut buffered, mut task, _queue) = builder.build_buffered::<&str, String>(1);
    let mut plain = builder.build();

    let (submission, receiver) = buffered.process_request(wrapper(vec!["a"], true), None);
    let task_call = task.received(Some(submission.batch));
    let mut without_client = Wrapper::new_with_addr(vec!["a"], ADDR);
    without_client.flush = true;
    let call = plain.process_request(without_client);
    assert_eq!(task_call.call.pass, call.pass);
    assert_eq!(task_call.call.wrapper.requests, call.wrapper.requests);
    assert_eq!(task_call.call.wrapper.client_details, call.wrapper.client_details);
    assert_eq!(task_call.call.wrapper.local_addr, call.wrapper.local_addr);
    assert_eq!(task_call.call.wrapper.flush, call.wrapper.flush);
    assert_eq!(task_call.call.wrapper.transforms, call.wrapper.transforms);

    let finished = plain.finish_request(call.client_details, Ok::<_, String>(vec!["b"]), INSTANT);
    task.finished(
        task_call.origin,
        task_call.call.client_details,
        Ok(vec!["b"]),
        INSTANT,
    );
    let reply = receiver.into_handle().try_recv().unwrap();
    assert_eq!(reply, finished.result);
    assert_eq!(BufferedChain::replied(Ok(reply)).ok(), finished.result.ok());
}

use remote_controller::{ActionQueue, QueueError};

#[test]
fn fresh_queue_is_open_and_empty() {
    let mut queue = ActionQueue::new();
    assert!(queue.is_open());
    assert_eq!(queue.len(), 0);
    assert_eq!(queue.try_drain(), Ok(None));
    assert!(ActionQueue::default().is_open());
}

#[test]
fn save_then_load_drain_in_that_order() {
    let mut queue = ActionQueue::new();
    // One session submits "save", another "load"; they reach the queue in
    // this order.
    assert_eq!(queue.submit(String::from("save")), Ok(()));
    assert_eq!(queue.submit(String::from("load")), Ok(()));
    assert_eq!(queue.try_drain(), Ok(Some(String::from("save"))));
    assert_eq!(queue.try_drain(), Ok(Some(String::from("load"))));
    assert_eq!(queue.try_drain(), Ok(None));
}

#[test]
fn drains_return_submissions_in_order_each_once() {
    let mut queue = ActionQueue::new();
    let ids: Vec<String> = (0..100).map(|i| format!("action-{}", i)).collect();
    for id in &ids {
        assert_eq!(queue.submit(id.clone()), Ok(()));
    }
    assert_eq!(queue.len(), 100);
    for id in &ids {
        assert_eq!(queue.try_drain(), Ok(Some(id.clone())));
    }
    assert_eq!(queue.try_drain(), Ok(None));
    assert_eq!(queue.len(), 0);
}

#[test]
fn interleaved_submits_and_drains_stay_first_in_first_out() {
    let mut queue = ActionQueue::new();
    assert_eq!(queue.submit(String::from("a")), Ok(()));
    assert_eq!(queue.submit(String::from("b")), Ok(()));
    assert_eq!(queue.try_drain(), Ok(Some(String::from("a"))));
    assert_eq!(queue.submit(String::from("c")), Ok(()));
    assert_eq!(queue.try_drain(), Ok(Some(String::from("b"))));
    assert_eq!(queue.try_drain(), Ok(Some(String::from("c"))));
    assert_eq!(queue.try_drain(), Ok(None));
    assert_eq!(queue.submit(String::from("d")), Ok(()));
    assert_eq!(queue.try_drain(), Ok(Some(String::from("d"))));
}

#[test]
fn equal_identifiers_are_delivered_once_each() {
    let mut queue = ActionQueue::new();
    assert_eq!(queue.submit(String::from("save")), Ok(()));
    assert_eq!(queue.submit(String::from("save")), Ok(()));
    assert_eq!(queue.len(), 2);
    assert_eq!(queue.try_drain(), Ok(Some(String::from("save"))));
    assert_eq!(queue.try_drain(), Ok(Some(String::from("save"))));
    assert_eq!(queue.try_drain(), Ok(None));
}

#[test]
fn unknown_and_empty_identifiers_are_queued_as_they_come() {
    let mut queue = ActionQueue::new();
    assert_eq!(queue.submit(String::new()), Ok(()));
    assert_eq!(queue.submit(String::from("not in any catalog")), Ok(()));
    assert_eq!(queue.try_drain(), Ok(Some(String::new())));
    assert_eq!(queue.try_drain(), Ok(Some(String::from("not in any catalog"))));
}

#[test]
fn submit_fails_with_queue_closed_after_consumer_is_gone() {
    let mut queue = ActionQueue::new();
    assert_eq!(queue.submit(String::from("save")), Ok(()));
    queue.close_consumer();
    assert!(!queue.is_open());
    assert_eq!(queue.submit(String::from("load")), Err(QueueError::QueueClosed));
    // What was pending went with the consumer, and the failed submission
    // left nothing behind.
    assert_eq!(queue.len(), 0);
    assert_eq!(queue.try_drain(), Ok(None));
}

#[test]
fn submit_is_taken_while_the_consumer_is_there() {
    let mut queue = ActionQueue::new();
    queue.close_producer();
    // Only the loss of the consumer closes the queue for submissions.
    assert!(queue.is_open());
    assert_eq!(queue.try_drain(), Err(QueueError::ProducerGone));
    assert_eq!(queue.submit(String::from("save")), Ok(()));
    assert_eq!(queue.len(), 1);
    assert_eq!(queue.try_drain(), Ok(Some(String::from("save"))));
    assert_eq!(queue.try_drain(), Err(QueueError::ProducerGone));
}

#[test]
fn drain_reports_producer_gone_once_empty() {
    let mut queue = ActionQueue::new();
    assert_eq!(queue.submit(String::from("save")), Ok(()));
    assert_eq!(queue.submit(String::from("load")), Ok(()));
    queue.close_producer();
    // What was submitted before is still delivered, in order.
    assert_eq!(queue.try_drain(), Ok(Some(String::from("save"))));
    assert_eq!(queue.try_drain(), Ok(Some(String::from("load"))));
    assert_eq!(queue.try_drain(), Err(QueueError::ProducerGone));
    assert_eq!(queue.try_drain(), Err(QueueError::ProducerGone));
}

#[test]
fn drain_of_queue_closed_on_both_sides_reports_producer_gone() {
    let mut queue = ActionQueue::new();
    assert_eq!(queue.submit(String::from("save")), Ok(()));
    queue.close_consumer();
    queue.close_producer();
    assert_eq!(queue.try_drain(), Err(QueueError::ProducerGone));
    assert_eq!(queue.submit(String::from("load")), Err(QueueError::QueueClosed));
}

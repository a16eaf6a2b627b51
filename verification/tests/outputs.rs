use web_codecs::{Error, HostError, Next, OutputQueue, Status};

fn host_error(text: &str) -> Error {
    Error::Unknown(HostError::new(text.to_string()))
}

#[test]
fn new_queue_is_open_and_empty() {
    let mut q: OutputQueue<u32> = OutputQueue::new();
    assert_eq!(q.len(), 0);
    assert_eq!(q.status(), Status::Open);
    assert!(q.is_attached());
    assert_eq!(q.next(), Next::Pending);
}

#[test]
fn outputs_come_out_in_the_order_they_went_in() {
    let mut q: OutputQueue<u32> = OutputQueue::new();
    for i in 0..100u32 {
        assert_eq!(q.push(i), None);
    }
    assert_eq!(q.len(), 100);
    for i in 0..100u32 {
        assert_eq!(q.next(), Next::Output(i));
    }
    assert_eq!(q.next(), Next::Pending);
}

#[test]
fn reads_between_pushes_keep_the_order() {
    let mut q: OutputQueue<&str> = OutputQueue::new();
    q.push("a");
    q.push("b");
    assert_eq!(q.next(), Next::Output("a"));
    q.push("c");
    assert_eq!(q.next(), Next::Output("b"));
    assert_eq!(q.next(), Next::Output("c"));
    assert_eq!(q.next(), Next::Pending);
    q.push("d");
    assert_eq!(q.next(), Next::Output("d"));
}

#[test]
fn failure_is_reported_on_every_read() {
    let mut q: OutputQueue<u32> = OutputQueue::new();
    q.fail(host_error("decode failed"));
    for _ in 0..5 {
        assert_eq!(q.next(), Next::Failed(host_error("decode failed")));
    }
    assert_eq!(q.status(), Status::Failed(host_error("decode failed")));
}

#[test]
fn clean_close_is_reported_on_every_read() {
    let mut q: OutputQueue<u32> = OutputQueue::new();
    q.close();
    for _ in 0..5 {
        assert_eq!(q.next(), Next::End);
    }
    assert_eq!(q.status(), Status::Closed);
}

#[test]
fn queued_outputs_are_read_before_the_end() {
    let mut q: OutputQueue<u32> = OutputQueue::new();
    q.push(1);
    q.push(2);
    q.fail(host_error("late"));
    assert_eq!(q.next(), Next::Output(1));
    assert_eq!(q.next(), Next::Output(2));
    assert_eq!(q.next(), Next::Failed(host_error("late")));
    assert_eq!(q.next(), Next::Failed(host_error("late")));
}

#[test]
fn first_error_wins() {
    let mut q: OutputQueue<u32> = OutputQueue::new();
    q.fail(host_error("first"));
    q.fail(host_error("second"));
    q.fail(Error::Dropped);
    assert_eq!(q.next(), Next::Failed(host_error("first")));
}

#[test]
fn close_does_not_overwrite_an_error() {
    let mut q: OutputQueue<u32> = OutputQueue::new();
    q.fail(host_error("broken"));
    q.close();
    assert_eq!(q.status(), Status::Failed(host_error("broken")));
    assert_eq!(q.next(), Next::Failed(host_error("broken")));
}

#[test]
fn error_does_not_overwrite_a_close() {
    let mut q: OutputQueue<u32> = OutputQueue::new();
    q.close();
    q.fail(host_error("too late"));
    assert_eq!(q.status(), Status::Closed);
    assert_eq!(q.next(), Next::End);
}

#[test]
fn outputs_after_the_end_are_handed_back() {
    let mut q: OutputQueue<u32> = OutputQueue::new();
    q.push(1);
    q.close();
    assert_eq!(q.push(2), Some(2));
    assert_eq!(q.len(), 1);
    assert_eq!(q.next(), Next::Output(1));
    assert_eq!(q.next(), Next::End);
    assert_eq!(q.push(3), Some(3));
    assert_eq!(q.next(), Next::End);
}

#[test]
fn detach_hands_back_what_was_not_read() {
    let mut q: OutputQueue<u32> = OutputQueue::new();
    q.push(1);
    q.push(2);
    q.push(3);
    assert_eq!(q.next(), Next::Output(1));
    let unread: Vec<u32> = q.detach().into_iter().collect();
    assert_eq!(unread, vec![2, 3]);
    assert_eq!(q.len(), 0);
    assert!(!q.is_attached());
    // Nothing was pushed since, so nothing was lost yet.
    assert_eq!(q.status(), Status::Open);
}

#[test]
fn push_without_a_reader_fails_the_sequence_as_dropped() {
    let mut q: OutputQueue<u32> = OutputQueue::new();
    q.detach();
    assert_eq!(q.push(7), Some(7));
    assert_eq!(q.len(), 0);
    assert_eq!(q.status(), Status::Failed(Error::Dropped));
    assert_eq!(q.push(8), Some(8));
    assert_eq!(q.status(), Status::Failed(Error::Dropped));
}

#[test]
fn dropped_does_not_overwrite_an_earlier_end() {
    let mut q: OutputQueue<u32> = OutputQueue::new();
    q.fail(host_error("engine"));
    q.detach();
    assert_eq!(q.push(7), Some(7));
    assert_eq!(q.status(), Status::Failed(host_error("engine")));
}

#[test]
fn error_messages() {
    assert_eq!(Error::Dropped.message(), "dropped");
    assert_eq!(Error::InvalidDimensions.message(), "invalid dimensions");
    assert_eq!(Error::NoChannels.message(), "no channels");
    assert_eq!(host_error("boom").message(), "unknown error: boom");
}

#[test]
fn host_error_becomes_unknown() {
    let e: Error = HostError::new("boom".to_string()).into();
    assert_eq!(e, host_error("boom"));
    assert_eq!(e.clone(), e);
    assert_eq!(Error::from(HostError::new(String::new())), host_error(""));
}

use transcoder::progress::EventKind;
use transcoder::progress::ProgressBuffer;
use transcoder::progress::ProgressEvent;

fn ev(worker: i32, msg: &str, kind: EventKind) -> ProgressEvent {
    ProgressEvent { handling_thread: worker, msg: String::from(msg), kind }
}

#[test]
fn empty_buffer_has_nothing_to_send() {
    let mut buf = ProgressBuffer::new();
    assert!(buf.send_one_update().is_none());
}

#[test]
fn emission_order_equals_append_order() {
    let mut buf = ProgressBuffer::new();
    buf.add(ev(1, "E1", EventKind::Success));
    buf.add(ev(2, "E2", EventKind::Fail));
    buf.add(ev(1, "E3", EventKind::WorkerFinished));

    let first = buf.send_one_update().unwrap();
    assert_eq!(first.msg, String::from("E1"));
    assert_eq!(first.handling_thread, 1);
    let second = buf.send_one_update().unwrap();
    assert_eq!(second.msg, String::from("E2"));
    assert_eq!(second.handling_thread, 2);
    let third = buf.send_one_update().unwrap();
    assert_eq!(third.msg, String::from("E3"));
    assert!(buf.send_one_update().is_none());
}

#[test]
fn drain_returns_everything_in_order() {
    let mut buf = ProgressBuffer::new();
    buf.add(ev(3, "a", EventKind::Success));
    buf.add(ev(1, "b", EventKind::Success));
    buf.add(ev(2, "c", EventKind::JobFinished));
    let out = buf.drain_in_order();
    assert_eq!(out.len(), 3);
    assert_eq!(out[0].msg, String::from("a"));
    assert_eq!(out[1].msg, String::from("b"));
    assert_eq!(out[2].msg, String::from("c"));
    assert!(buf.send_one_update().is_none());
}

#[test]
fn only_the_job_finished_event_is_terminal() {
    assert!(ev(0, "done", EventKind::JobFinished).is_terminal());
    assert!(!ev(1, "ok", EventKind::Success).is_terminal());
    assert!(!ev(1, "no", EventKind::Fail).is_terminal());
    assert!(!ev(1, "fin", EventKind::WorkerFinished).is_terminal());
}

use backend_link::BackendEventLoop;
use backend_link::BackendHungUp;
use backend_link::BackendLink;
use backend_link::BackendRequest;
use backend_link::BackendState;
use backend_link::CancellationFlag;
use backend_link::RunOutcome;
use backend_link::TryRecvError;
use backend_link::UIParameter;
use std::sync::mpsc::channel;

struct Names {
    known: Vec<String>,
}

impl BackendState for Names {}

type Backend = BackendEventLoop<Names>;

fn count_names(backend: &mut Backend) -> usize {
    backend.state.known.len()
}

fn add_name(backend: &mut Backend) -> usize {
    backend.state.known.push("added".to_string());
    backend.state.known.len()
}

fn backend_with(names: &[&str]) -> Backend {
    BackendEventLoop::new(Names { known: names.iter().map(|name| name.to_string()).collect() })
}

#[test]
fn new_parameter_holds_its_value_and_waits_for_nothing() {
    let mut parameter = UIParameter::new(5usize);
    assert_eq!(*parameter.value(), 5);
    assert!(!parameter.is_pending());
    assert!(!parameter.try_update());
    assert_eq!(*parameter.value(), 5);
}

#[test]
fn absorb_takes_in_a_value() {
    let (rx, _link) = BackendLink::new("count", count_names);
    let mut parameter = UIParameter::new(5usize);
    parameter.set_recv(rx);
    assert!(parameter.absorb(Ok(9)));
    assert_eq!(*parameter.value(), 9);
    assert!(!parameter.is_pending());
}

#[test]
fn absorb_keeps_waiting_on_an_empty_channel() {
    let (rx, _link) = BackendLink::new("count", count_names);
    let mut parameter = UIParameter::new(5usize);
    parameter.set_recv(rx);
    assert!(!parameter.absorb(Err(TryRecvError::Empty)));
    assert_eq!(*parameter.value(), 5);
    assert!(parameter.is_pending());
}

#[test]
fn absorb_stops_waiting_on_a_disconnected_channel() {
    let (rx, _link) = BackendLink::new("count", count_names);
    let mut parameter = UIParameter::new(5usize);
    parameter.set_recv(rx);
    assert!(!parameter.absorb(Err(TryRecvError::Disconnected)));
    assert_eq!(*parameter.value(), 5);
    assert!(!parameter.is_pending());
}

#[test]
fn try_update_takes_the_result_once_the_backend_has_run() {
    let mut backend = backend_with(&["a", "b"]);
    let (rx, link) = BackendLink::new("count", count_names);
    let mut parameter = UIParameter::new(0usize);
    parameter.set_recv(rx);
    assert!(parameter.is_pending());
    assert!(!parameter.try_update());
    assert_eq!(*parameter.value(), 0);
    assert!(parameter.is_pending());
    assert_eq!(Box::new(link).run_on_backend(&mut backend), RunOutcome::Delivered);
    assert!(parameter.try_update());
    assert_eq!(*parameter.value(), 2);
    assert!(!parameter.is_pending());
    assert!(!parameter.try_update());
    assert_eq!(*parameter.value(), 2);
}

#[test]
fn try_update_stops_waiting_when_the_request_was_destroyed() {
    let (rx, link) = BackendLink::new("count", count_names);
    let mut parameter = UIParameter::new(7usize);
    parameter.set_recv(rx);
    drop(link);
    assert!(!parameter.try_update());
    assert_eq!(*parameter.value(), 7);
    assert!(!parameter.is_pending());
}

#[test]
fn set_recv_cancels_the_request_it_supersedes() {
    let mut backend = backend_with(&[]);
    let (old_rx, old_link) = BackendLink::new("old", add_name);
    let (new_rx, new_link) = BackendLink::new("new", add_name);
    let mut parameter = UIParameter::new(0usize);
    parameter.set_recv(old_rx);
    assert!(!old_link.is_cancelled());
    parameter.set_recv(new_rx);
    assert!(old_link.is_cancelled());
    assert!(!new_link.is_cancelled());
    assert_eq!(Box::new(old_link).run_on_backend(&mut backend), RunOutcome::Skipped);
    assert!(backend.state.known.is_empty());
    assert_eq!(Box::new(new_link).run_on_backend(&mut backend), RunOutcome::Delivered);
    assert!(parameter.try_update());
    assert_eq!(*parameter.value(), 1);
}

#[test]
fn request_parameter_update_rewires_and_enqueues() {
    let (mut tx, pending) = channel::<Box<dyn BackendRequest<Names>>>();
    let mut backend = backend_with(&["a", "b", "c"]);
    let mut parameter = UIParameter::new(0usize);
    let queued =
        BackendLink::request_parameter_update(&mut parameter, "count", count_names, &mut tx);
    assert_eq!(queued, Ok(()));
    assert!(parameter.is_pending());
    assert_eq!(*parameter.value(), 0);
    let request = pending.try_recv().ok().unwrap();
    assert!(pending.try_recv().is_err());
    assert_eq!(request.describe(), "count");
    assert_eq!(backend.execute(request), RunOutcome::Delivered);
    assert!(parameter.try_update());
    assert_eq!(*parameter.value(), 3);
}

#[test]
fn second_update_request_cancels_the_first() {
    let (mut tx, pending) = channel::<Box<dyn BackendRequest<Names>>>();
    let mut backend = backend_with(&[]);
    let mut parameter = UIParameter::new(0usize);
    assert_eq!(
        BackendLink::request_parameter_update(&mut parameter, "first", add_name, &mut tx),
        Ok(())
    );
    assert_eq!(
        BackendLink::request_parameter_update(&mut parameter, "second", add_name, &mut tx),
        Ok(())
    );
    let mut batch = Vec::new();
    while let Ok(request) = pending.try_recv() {
        batch.push(request);
    }
    assert_eq!(batch.len(), 2);
    assert_eq!(batch[0].describe(), "first");
    assert_eq!(batch[1].describe(), "second");
    assert_eq!(backend.execute_all(batch), vec![RunOutcome::Skipped, RunOutcome::Delivered]);
    assert_eq!(backend.state.known.len(), 1);
    assert!(parameter.try_update());
    assert_eq!(*parameter.value(), 1);
}

#[test]
fn request_parameter_update_reports_a_backend_that_hung_up() {
    let (mut tx, pending) = channel::<Box<dyn BackendRequest<Names>>>();
    drop(pending);
    let mut parameter = UIParameter::new(4usize);
    let queued =
        BackendLink::request_parameter_update(&mut parameter, "count", count_names, &mut tx);
    assert_eq!(queued, Err(BackendHungUp));
    assert_eq!(*parameter.value(), 4);
    assert!(parameter.is_pending());
    assert!(!parameter.try_update());
    assert!(!parameter.is_pending());
}

#[test]
fn raised_flag_shows_on_every_handle() {
    let flag = CancellationFlag::new();
    let other = flag.share();
    assert!(!flag.is_raised());
    assert!(!other.is_raised());
    other.raise();
    assert!(flag.is_raised());
    assert!(other.is_raised());
    flag.raise();
    assert!(flag.is_raised());
    assert!(other.is_raised());
    let late = flag.share();
    assert!(late.is_raised());
}

#[test]
fn fresh_flags_are_independent() {
    let one = CancellationFlag::new();
    let two = CancellationFlag::new();
    one.raise();
    assert!(one.is_raised());
    assert!(!two.is_raised());
}

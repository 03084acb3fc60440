use std::cell::RefCell;
use std::future::{ready, Future, Ready};
use std::pin::Pin;

use egui_async::{Bind, Clock, ContextExt, Dispatcher, MaybeSend, State, StateWithData};
use tokio::sync::oneshot::Sender;

type Res = Result<i32, String>;

/// Keeps every started operation until the test lets it complete.
struct Manual {
    started: RefCell<Vec<(Pin<Box<dyn Future<Output = Res>>>, Sender<Res>)>>,
}

impl Manual {
    fn new() -> Manual {
        Manual { started: RefCell::new(Vec::new()) }
    }

    fn count(&self) -> usize {
        self.started.borrow().len()
    }

    /// Runs the operation started `i`-th to its end and sends its result.
    fn complete(&self, i: usize) {
        let rt = tokio::runtime::Builder::new_current_thread().build().unwrap();
        let (fut, tx) = {
            let mut v = self.started.borrow_mut();
            let (fut, tx) = v.remove(i);
            v.insert(i, (Box::pin(ready(Err("done".to_string()))), sender_stub()));
            (fut, tx)
        };
        let value = rt.block_on(fut);
        let _ = tx.send(value);
    }

    /// Drops the sender of the operation started `i`-th without sending.
    fn abandon(&self, i: usize) {
        let mut v = self.started.borrow_mut();
        v.remove(i);
        v.insert(i, (Box::pin(ready(Err("gone".to_string()))), sender_stub()));
    }
}

fn sender_stub() -> Sender<Res> {
    let (tx, _rx) = tokio::sync::oneshot::channel();
    tx
}

impl Dispatcher<Res> for Manual {
    fn dispatch<Fut>(&self, fut: Fut, tx: Sender<Res>)
    where
        Fut: Future<Output = Res> + MaybeSend + 'static,
    {
        self.started.borrow_mut().push((Box::pin(fut), tx));
    }
}

fn ok(v: i32) -> Ready<Res> {
    ready(Ok(v))
}

fn at(t: i64) -> Clock {
    let mut c = Clock::new();
    c.advance(t - 1);
    c.advance(t);
    c
}

#[test]
fn clock_keeps_previous_tick() {
    let mut c = Clock::new();
    assert_eq!(c.current(), 0);
    assert_eq!(c.previous(), 0);
    c.loop_handle(7);
    c.loop_handle(9);
    assert_eq!(c.current(), 9);
    assert_eq!(c.previous(), 7);
    let d = Clock::default();
    assert_eq!(d.current(), 0);
}

#[test]
fn new_binding_is_idle() {
    let clock = Clock::new();
    let mut b: Bind<i32, String> = Bind::new(false);
    assert!(b.is_idle(&clock));
    assert!(!b.is_pending(&clock));
    assert!(!b.is_finished(&clock));
    assert_eq!(b.get_state(&clock), State::Idle);
    assert!(b.read(&clock).is_none());
    assert_eq!(b.count_executed(), 0);
    assert_eq!(b.get_complete_time(&clock), i64::MIN);
    assert!(b.since_completed(&clock) > i64::MAX as i128);
    assert!(!b.task_lost());
    let mut d: Bind<i32, String> = Bind::default();
    assert!(d.is_idle(&clock));
}

#[test]
fn fill_makes_finished_without_dispatch() {
    let clock = at(3);
    let mut b: Bind<i32, String> = Bind::new(false);
    assert!(b.is_idle(&clock));
    b.fill(&clock, Ok(5));
    assert!(b.is_finished(&clock));
    assert_eq!(b.read(&clock), &Some(Ok(5)));
    assert!(matches!(b.state(&clock), StateWithData::Finished(&5)));
    assert!(b.just_completed(&clock));
    assert_eq!(b.get_complete_time(&clock), 3);
    assert_eq!(b.count_executed(), 0);
}

#[test]
fn request_then_take_round_trip() {
    let rt = Manual::new();
    let mut clock = Clock::new();
    let mut b: Bind<i32, String> = Bind::new(false);
    clock.advance(1);
    b.request(&clock, &rt, ok(42));
    assert_eq!(rt.count(), 1);
    assert!(b.is_pending(&clock));
    assert!(b.just_started(&clock));
    assert_eq!(b.count_executed(), 1);
    rt.complete(0);
    clock.advance(2);
    assert!(b.is_finished(&clock));
    assert_eq!(b.take(&clock), Some(Ok(42)));
    assert!(b.is_idle(&clock));
    assert!(b.read(&clock).is_none());
    assert_eq!(b.take(&clock), None);
}

#[test]
fn unqueried_result_is_released() {
    let rt = Manual::new();
    let mut clock = Clock::new();
    let mut b: Bind<i32, String> = Bind::new(false);
    clock.advance(1);
    b.request(&clock, &rt, ok(1));
    rt.complete(0);
    clock.advance(2);
    assert!(b.is_finished(&clock));
    clock.advance(3);
    clock.advance(4);
    assert!(b.is_idle(&clock));
    assert!(b.read(&clock).is_none());
}

#[test]
fn retained_result_survives_unqueried_ticks() {
    let rt = Manual::new();
    let mut clock = Clock::new();
    let mut b: Bind<i32, String> = Bind::new(true);
    clock.advance(1);
    b.request(&clock, &rt, ok(1));
    rt.complete(0);
    clock.advance(2);
    assert!(b.is_finished(&clock));
    for t in 3..10 {
        clock.advance(t);
    }
    assert!(b.is_finished(&clock));
    assert_eq!(b.read(&clock), &Some(Ok(1)));
    b.clear(&clock);
    assert!(b.is_idle(&clock));
}

#[test]
fn queries_in_one_tick_poll_once() {
    let rt = Manual::new();
    let mut clock = Clock::new();
    let mut b: Bind<i32, String> = Bind::new(false);
    clock.advance(1);
    b.request(&clock, &rt, ok(8));
    clock.advance(2);
    assert!(b.is_pending(&clock));
    assert!(b.was_drawn_this_frame(&clock));
    rt.complete(0);
    assert!(b.is_pending(&clock));
    assert!(b.read(&clock).is_none());
    assert!(b.was_drawn_last_frame(&clock));
    clock.advance(3);
    assert!(b.is_finished(&clock));
    assert_eq!(b.get_complete_time(&clock), 3);
    assert!(b.was_drawn_last_frame(&clock));
}

#[test]
fn periodic_refresh() {
    let rt = Manual::new();
    let mut clock = Clock::new();
    let mut b: Bind<i32, String> = Bind::new(true);
    let left = b.request_every_sec(&clock, &rt, || ok(1), 10);
    assert!(left < 0);
    assert_eq!(rt.count(), 1);
    assert!(b.is_pending(&clock));
    rt.complete(0);
    clock.advance(5);
    assert!(b.is_finished(&clock));
    clock.advance(8);
    assert_eq!(b.request_every_sec(&clock, &rt, || ok(2), 10), 7);
    assert!(b.is_finished(&clock));
    assert_eq!(rt.count(), 1);
    clock.advance(16);
    assert_eq!(b.request_every_sec(&clock, &rt, || ok(3), 10), -1);
    assert_eq!(rt.count(), 2);
    assert!(b.is_pending(&clock));
    assert_eq!(b.count_executed(), 2);
}

#[test]
fn abandoned_completion_is_discarded() {
    let rt = Manual::new();
    let mut clock = Clock::new();
    let mut b: Bind<i32, String> = Bind::new(false);
    clock.advance(1);
    b.request(&clock, &rt, ok(100));
    b.refresh(&clock, &rt, ok(200));
    assert!(b.is_pending(&clock));
    rt.complete(0);
    clock.advance(2);
    assert!(b.is_pending(&clock));
    assert!(b.read(&clock).is_none());
    rt.complete(1);
    clock.advance(3);
    assert_eq!(b.take(&clock), Some(Ok(200)));
    assert_eq!(b.count_executed(), 2);
}

#[test]
fn failed_result_is_shown_as_failed() {
    let clock = at(4);
    let mut b: Bind<i32, String> = Bind::new(false);
    b.fill(&clock, Err("bad".to_string()));
    match b.state(&clock) {
        StateWithData::Failed(e) => assert_eq!(e, "bad"),
        _ => panic!("expected a failure"),
    }
    assert!(matches!(b.read_as_ref(&clock), Some(Err(e)) if e == "bad"));
}

#[test]
fn read_mut_changes_held_value() {
    let clock = at(2);
    let mut b: Bind<i32, String> = Bind::new(false);
    b.fill(&clock, Ok(1));
    if let Some(Ok(v)) = b.read_mut(&clock) {
        *v = 11;
    }
    assert_eq!(b.read(&clock), &Some(Ok(11)));
    if let Some(Ok(v)) = b.read_as_mut(&clock) {
        *v += 1;
    }
    assert_eq!(b.take(&clock), Some(Ok(12)));
}

#[test]
fn state_or_request_starts_only_when_idle() {
    let rt = Manual::new();
    let mut clock = Clock::new();
    let mut b: Bind<i32, String> = Bind::new(false);
    clock.advance(1);
    assert!(matches!(b.state_or_request(&clock, &rt, || ok(3)), StateWithData::Pending));
    assert!(matches!(b.state_or_request(&clock, &rt, || ok(4)), StateWithData::Pending));
    assert_eq!(rt.count(), 1);
    rt.complete(0);
    clock.advance(2);
    assert!(matches!(b.state_or_request(&clock, &rt, || ok(5)), StateWithData::Finished(&3)));
    assert_eq!(rt.count(), 1);
}

#[test]
fn read_or_request_returns_value_once_there() {
    let rt = Manual::new();
    let mut clock = Clock::new();
    let mut b: Bind<i32, String> = Bind::new(false);
    clock.advance(1);
    assert!(b.read_or_request(&clock, &rt, || ok(6)).is_none());
    assert_eq!(rt.count(), 1);
    rt.complete(0);
    clock.advance(2);
    assert_eq!(b.read_or_request(&clock, &rt, || ok(7)), Some(&Ok(6)));
    if let Some(Ok(v)) = b.read_mut_or_request(&clock, &rt, || ok(8)) {
        *v = 60;
    }
    assert_eq!(b.read(&clock), &Some(Ok(60)));
    assert_eq!(rt.count(), 1);
}

#[test]
fn times_since_start_and_completion() {
    let rt = Manual::new();
    let mut clock = Clock::new();
    let mut b: Bind<i32, String> = Bind::new(true);
    clock.advance(10);
    b.request(&clock, &rt, ok(1));
    assert_eq!(b.get_start_time(&clock), 10);
    rt.complete(0);
    clock.advance(14);
    assert!(b.just_completed(&clock));
    assert!(!b.just_started(&clock));
    clock.advance(20);
    assert!(!b.just_completed(&clock));
    assert_eq!(b.since_started(&clock), 10);
    assert_eq!(b.since_completed(&clock), 6);
    assert_eq!(b.get_elapsed(&clock), 4);
}

#[test]
fn on_finished_runs_in_completion_tick_only() {
    let rt = Manual::new();
    let mut clock = Clock::new();
    let mut b: Bind<i32, String> = Bind::new(true);
    clock.advance(1);
    b.request(&clock, &rt, ok(9));
    rt.complete(0);
    clock.advance(2);
    let seen = RefCell::new(Vec::new());
    b.on_finished(&clock, |r| seen.borrow_mut().push(r.clone()));
    clock.advance(3);
    b.on_finished(&clock, |r| seen.borrow_mut().push(r.clone()));
    assert_eq!(seen.into_inner(), vec![Ok(9)]);
}

#[test]
fn lost_operation_returns_to_idle() {
    let rt = Manual::new();
    let mut clock = Clock::new();
    let mut b: Bind<i32, String> = Bind::new(false);
    clock.advance(1);
    b.request(&clock, &rt, ok(1));
    rt.abandon(0);
    clock.advance(2);
    assert!(b.is_idle(&clock));
    assert!(b.task_lost());
}

#[test]
fn track_follows_a_given_receiver() {
    let mut clock = Clock::new();
    let mut b: Bind<i32, String> = Bind::new(false);
    let (tx, rx) = tokio::sync::oneshot::channel();
    clock.advance(1);
    b.track(&clock, rx);
    assert!(b.is_pending(&clock));
    tx.send(Ok(31)).unwrap();
    clock.advance(2);
    assert_eq!(b.read(&clock), &Some(Ok(31)));
}

#[test]
fn read_or_error_retries_on_request() {
    let rt = Manual::new();
    let clock = at(1);
    let mut b: Bind<i32, String> = Bind::new(false);
    b.fill(&clock, Err("no".to_string()));
    assert!(b.read_or_error(&clock, &rt, || ok(1), false).is_none());
    assert_eq!(rt.count(), 0);
    assert!(b.read_mut_or_error(&clock, &rt, || ok(1), true).is_none());
    assert_eq!(rt.count(), 1);
    assert!(b.is_pending(&clock));
}

#[test]
fn read_or_request_or_error_starts_when_idle() {
    let rt = Manual::new();
    let mut clock = Clock::new();
    let mut b: Bind<i32, String> = Bind::new(false);
    clock.advance(1);
    assert!(b.read_or_request_or_error(&clock, &rt, || ok(2), false).is_none());
    assert_eq!(rt.count(), 1);
    rt.complete(0);
    clock.advance(2);
    assert_eq!(b.read_or_request_or_error(&clock, &rt, || ok(3), false), Some(&2));
    if let Some(v) = b.read_mut_or_request_or_error(&clock, &rt, || ok(4), false) {
        *v = 20;
    }
    assert_eq!(b.read_or_error(&clock, &rt, || ok(5), false), Some(&20));
    assert_eq!(rt.count(), 1);
}

#[test]
fn refresh_on_click_debounces() {
    let rt = Manual::new();
    let mut clock = Clock::new();
    let mut b: Bind<i32, String> = Bind::new(true);
    clock.advance(1);
    b.request(&clock, &rt, ok(1));
    rt.complete(0);
    clock.advance(2);
    assert!(b.is_finished(&clock));
    clock.advance(4);
    assert_eq!(b.refresh_on_click(&clock, &rt, || ok(2), 12, true), 10);
    assert_eq!(rt.count(), 1);
    clock.advance(6);
    assert_eq!(b.refresh_on_click(&clock, &rt, || ok(3), 12, false), 8);
    assert_eq!(rt.count(), 1);
    assert_eq!(b.refresh_on_click(&clock, &rt, || ok(4), 12, true), -1);
    assert_eq!(rt.count(), 2);
    assert!(b.is_pending(&clock));
    assert!(b.read(&clock).is_none());
}

#[test]
fn debug_output_names_the_binding() {
    let b: Bind<i32, String> = Bind::new(true);
    let text = format!("{:?}", b);
    assert!(text.starts_with("Bind"));
    assert!(text.contains("retain: true"));
}

#[test]
fn request_while_pending_starts_nothing() {
    let rt = Manual::new();
    let mut clock = Clock::new();
    let mut b: Bind<i32, String> = Bind::new(false);
    clock.advance(1);
    b.request(&clock, &rt, ok(1));
    assert_eq!(b.count_executed(), 1);
    clock.advance(2);
    b.request(&clock, &rt, ok(2));
    assert_eq!(rt.count(), 1);
    assert_eq!(b.count_executed(), 1);
    assert_eq!(b.get_start_time(&clock), 1);
    assert!(b.is_pending(&clock));
    rt.complete(0);
    clock.advance(3);
    assert_eq!(b.take(&clock), Some(Ok(1)));
}

#[test]
fn track_while_pending_keeps_first_receiver() {
    let mut clock = Clock::new();
    let mut b: Bind<i32, String> = Bind::new(false);
    let (tx1, rx1) = tokio::sync::oneshot::channel();
    let (tx2, rx2) = tokio::sync::oneshot::channel();
    clock.advance(1);
    b.track(&clock, rx1);
    b.track(&clock, rx2);
    assert!(tx2.send(Ok(2)).is_err());
    tx1.send(Ok(1)).unwrap();
    clock.advance(2);
    assert_eq!(b.read(&clock), &Some(Ok(1)));
}

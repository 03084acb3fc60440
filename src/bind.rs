//! The binding: a state machine that follows one background operation.
//!
//! Every query first runs [`Bind::poll`], which does at most one step per tick:
//! it records that the binding was looked at, releases a result nobody looked
//! at during the previous tick (unless the binding retains), and takes a result
//! that has arrived on the channel of the operation in flight.
use crate::channel::{receive_from, Delivery, Dispatcher, MaybeSend};
use crate::clock::Clock;
use std::future::Future;
use tokio::sync::oneshot::Receiver;
use vstd::prelude::*;

verus! {

/// Where the operation of a binding stands.
#[derive(Clone, Copy, Debug, Default, PartialEq, Eq, Structural)]
pub enum State {
    /// Nothing is running and no result is held.
    #[default]
    Idle,
    /// An operation is in flight.
    Pending,
    /// An operation has completed and its result is held.
    Finished,
}

/// Where the operation stands, with a view of the held result.
pub enum StateWithData<'a, T, E> {
    /// Nothing is running.
    Idle,
    /// An operation is in flight.
    Pending,
    /// The operation completed with a value.
    Finished(&'a T),
    /// The operation completed with an error.
    Failed(&'a E),
}

/// The abstract value of a binding.
pub struct BindView<T, E> {
    /// Where the operation stands.
    pub state: State,
    /// The held result.
    pub data: Option<Result<T, E>>,
    /// Whether a receiver for an operation in flight is held.
    pub listening: bool,
    /// Whether a result survives ticks in which the binding is not queried.
    pub retain: bool,
    /// Tick of the most recent query.
    pub drawn_last: int,
    /// Tick of the query before that.
    pub drawn_prev: int,
    /// Tick at which the latest operation started.
    pub start_time: int,
    /// Tick at which the latest operation completed.
    pub complete_time: int,
    /// How many operations were started (stops counting at `usize::MAX`).
    pub executed: nat,
    /// Whether an operation ever ended without sending its result.
    pub lost: bool,
}

impl<T, E> BindView<T, E> {
    /// A result is held exactly when the binding is finished, and a receiver
    /// exactly when it is pending.
    pub open spec fn inv(self) -> bool {
        &&& (self.data is Some <==> self.state == State::Finished)
        &&& (self.listening <==> self.state == State::Pending)
    }
}

/// A fresh binding: idle, with the sentinel completion time.
pub open spec fn fresh<T, E>(retain: bool) -> BindView<T, E> {
    BindView {
        state: State::Idle,
        data: None,
        listening: false,
        retain,
        drawn_last: 0,
        drawn_prev: 0,
        start_time: 0,
        complete_time: i64::MIN as int,
        executed: 0,
        lost: false,
    }
}

/// The first half of a poll in a new tick: the query is recorded, and a
/// binding that does not retain and was not queried during the previous tick
/// drops what it holds.
pub open spec fn ticked<T, E>(b: BindView<T, E>, now: int, before: int) -> BindView<T, E> {
    let shifted = BindView { drawn_prev: b.drawn_last, drawn_last: now, ..b };
    if !b.retain && b.drawn_last != before {
        BindView { state: State::Idle, data: None, listening: false, ..shifted }
    } else {
        shifted
    }
}

/// The second half of a poll: what the channel of a pending binding gave.
pub open spec fn delivered<T, E>(
    b: BindView<T, E>,
    now: int,
    o: Delivery<Result<T, E>>,
) -> BindView<T, E> {
    if b.state == State::Pending {
        match o {
            Delivery::Ready(v) => BindView {
                state: State::Finished,
                data: Some(v),
                listening: false,
                complete_time: now,
                ..b
            },
            Delivery::Empty => b,
            Delivery::Closed => BindView {
                state: State::Idle,
                data: None,
                listening: false,
                lost: true,
                ..b
            },
        }
    } else {
        b
    }
}

/// What a poll leaves when the channel, if it is looked at, gives `o`. A
/// binding already queried in this tick is left as it is.
pub open spec fn polled<T, E>(
    b: BindView<T, E>,
    c: Clock,
    o: Delivery<Result<T, E>>,
) -> BindView<T, E> {
    if b.drawn_last == c.now() {
        b
    } else {
        delivered(ticked(b, c.now(), c.before()), c.now(), o)
    }
}

/// What a poll leaves before the channel is looked at.
pub open spec fn settled<T, E>(b: BindView<T, E>, c: Clock) -> BindView<T, E> {
    if b.drawn_last == c.now() {
        b
    } else {
        ticked(b, c.now(), c.before())
    }
}

/// A state reached by a poll in the tick of `c`, for some outcome of the channel.
pub open spec fn polls_to<T, E>(b: BindView<T, E>, c: Clock, a: BindView<T, E>) -> bool {
    exists|o: Delivery<Result<T, E>>| a == #[trigger] polled(b, c, o)
}

/// A new operation has started at `now`; anything held is dropped.
pub open spec fn started<T, E>(b: BindView<T, E>, now: int) -> BindView<T, E> {
    BindView {
        state: State::Pending,
        data: None,
        listening: true,
        start_time: now,
        executed: if b.executed < usize::MAX {
            b.executed + 1
        } else {
            b.executed
        },
        ..b
    }
}

/// What a request leaves: nothing changes while an operation is in flight;
/// otherwise a new one starts at `now`.
pub open spec fn requested<T, E>(b: BindView<T, E>, now: int) -> BindView<T, E> {
    if b.state == State::Pending {
        b
    } else {
        started(b, now)
    }
}

/// Back to idle, holding nothing.
pub open spec fn cleared<T, E>(b: BindView<T, E>) -> BindView<T, E> {
    BindView { state: State::Idle, data: None, listening: false, ..b }
}

/// A finished binding gives up its result and becomes idle; any other is unchanged.
pub open spec fn taken<T, E>(b: BindView<T, E>) -> BindView<T, E> {
    if b.state == State::Finished {
        cleared(b)
    } else {
        b
    }
}

/// A result was put in at `now` without running anything.
pub open spec fn filled<T, E>(b: BindView<T, E>, now: int, v: Result<T, E>) -> BindView<T, E> {
    BindView { state: State::Finished, data: Some(v), complete_time: now, ..b }
}

/// `s` is what the binding `b` shows: its state, with the held value or error.
pub open spec fn shows<'a, T, E>(s: StateWithData<'a, T, E>, b: BindView<T, E>) -> bool {
    match s {
        StateWithData::Idle => b.state == State::Idle,
        StateWithData::Pending => b.state == State::Pending,
        StateWithData::Finished(x) => b.state == State::Finished && b.data == Some(Ok::<T, E>(*x)),
        StateWithData::Failed(x) => b.state == State::Finished && b.data == Some(Err::<T, E>(*x)),
    }
}

/// `r` shows the held result `d` by reference.
pub open spec fn refers_to<'a, T, E>(r: Option<Result<&'a T, &'a E>>, d: Option<Result<T, E>>) -> bool {
    match d {
        None => r is None,
        Some(Ok(t)) => r matches Some(Ok(x)) && *x == t,
        Some(Err(e)) => r matches Some(Err(x)) && *x == e,
    }
}

/// `r` refers to the held result `d`, if there is one.
pub open spec fn lends<'a, T, E>(r: Option<&'a Result<T, E>>, d: Option<Result<T, E>>) -> bool {
    match r {
        Some(x) => d == Some(*x),
        None => d is None,
    }
}

/// What a binding that starts work when idle leaves: a new operation if `b`
/// is idle, else `b` itself.
pub open spec fn auto_started<T, E>(b: BindView<T, E>, now: int) -> BindView<T, E> {
    if b.state == State::Idle {
        started(b, now)
    } else {
        b
    }
}

/// What a periodic request leaves: a new operation if none is in flight and
/// more than `interval` has passed since the latest completion.
pub open spec fn scheduled<T, E>(b: BindView<T, E>, now: int, interval: int) -> BindView<T, E> {
    if b.state != State::Pending && now - b.complete_time > interval {
        started(b, now)
    } else {
        b
    }
}

/// What a read that may retry leaves: a new operation if `b` holds an error
/// and the user asked to retry, or if `b` is idle and `when_idle` is set;
/// else `b` itself.
pub open spec fn retried<T, E>(b: BindView<T, E>, now: int, retry: bool, when_idle: bool) -> BindView<T, E> {
    if (retry && b.data matches Some(Err(_))) || (when_idle && b.state == State::Idle) {
        started(b, now)
    } else {
        b
    }
}

/// `r` is the value of the successful result in `d`, if `d` holds one.
pub open spec fn value_of<'a, T, E>(r: Option<&'a T>, d: Option<Result<T, E>>) -> bool {
    match r {
        Some(x) => d == Some(Ok::<T, E>(*x)),
        None => !(d matches Some(Ok(_))),
    }
}

/// Follows one background operation and holds its result.
///
/// The loop that owns the binding queries it once or more per tick; the
/// result of an operation reaches it through a one-shot channel.
#[derive(Debug)]
#[verifier::reject_recursive_types(T)]
#[verifier::reject_recursive_types(E)]
pub struct Bind<T, E> {
    drawn_time_last: i64,
    drawn_time_prev: i64,
    data: Option<Result<T, E>>,
    recv: Option<Receiver<Result<T, E>>>,
    state: State,
    last_start_time: i64,
    last_complete_time: i64,
    retain: bool,
    times_executed: usize,
    task_lost: bool,
}

impl<T, E> View for Bind<T, E> {
    type V = BindView<T, E>;

    closed spec fn view(&self) -> BindView<T, E> {
        BindView {
            state: self.state,
            data: self.data,
            listening: self.recv is Some,
            retain: self.retain,
            drawn_last: self.drawn_time_last as int,
            drawn_prev: self.drawn_time_prev as int,
            start_time: self.last_start_time as int,
            complete_time: self.last_complete_time as int,
            executed: self.times_executed as nat,
            lost: self.task_lost,
        }
    }
}

impl<T, E> Bind<T, E> {
    /// A new idle binding. With `retain` false, a result that is not queried
    /// for a whole tick is dropped.
    pub fn new(retain: bool) -> (r: Self)
        ensures
            r@ == fresh::<T, E>(retain),
            r@.inv(),
    {
        Bind {
            drawn_time_last: 0,
            drawn_time_prev: 0,
            data: None,
            recv: None,
            state: State::Idle,
            last_start_time: 0,
            last_complete_time: i64::MIN,
            retain,
            times_executed: 0,
            task_lost: false,
        }
    }

    /// Whether the binding has been queried in the current tick.
    pub fn was_drawn_this_frame(&self, clock: &Clock) -> (r: bool)
        ensures
            r == (self@.drawn_last == clock.now()),
    {
        self.drawn_time_last == clock.current()
    }

    /// Whether the binding was queried during the previous tick.
    pub fn was_drawn_last_frame(&self, clock: &Clock) -> (r: bool)
        ensures
            r == (self@.drawn_prev == clock.before()),
    {
        self.drawn_time_prev == clock.previous()
    }

    /// How many operations were started.
    pub fn count_executed(&self) -> (r: usize)
        ensures
            r == self@.executed,
    {
        self.times_executed
    }

    /// Whether an operation ever ended without sending its result, which
    /// means that the environment that ran it broke down.
    pub fn task_lost(&self) -> (r: bool)
        ensures
            r == self@.lost,
    {
        self.task_lost
    }

    /// Applies what the channel of a pending binding gave.
    fn deliver(&mut self, now: i64, o: Delivery<Result<T, E>>)
        requires
            old(self)@.inv(),
            old(self)@.state == State::Pending,
        ensures
            final(self)@ == delivered(old(self)@, now as int, o),
    {
        match o {
            Delivery::Ready(v) => {
                self.data = Some(v);
                self.last_complete_time = now;
                self.state = State::Finished;
                self.recv = None;
            },
            Delivery::Empty => {},
            Delivery::Closed => {
                self.state = State::Idle;
                self.data = None;
                self.recv = None;
                self.task_lost = true;
            },
        }
    }

    /// Brings the binding up to the current tick; does nothing if it was
    /// already queried in this tick.
    ///
    /// In a new tick it records the query, drops the result of a binding that
    /// does not retain and was not queried during the previous tick, and then,
    /// if an operation is in flight, looks at its channel without blocking.
    pub fn poll(&mut self, clock: &Clock)
        requires
            old(self)@.inv(),
        ensures
            polls_to(old(self)@, *clock, final(self)@),
            final(self)@.drawn_last == clock.now(),
            final(self)@.inv(),
    {
        let ghost start = self@;
        let now = clock.current();
        if now == self.drawn_time_last {
            assert(polled(start, *clock, Delivery::Empty) == self@);
            return;
        }
        self.drawn_time_prev = self.drawn_time_last;
        self.drawn_time_last = now;
        if !self.retain && !self.was_drawn_last_frame(clock) {
            self.state = State::Idle;
            self.data = None;
            self.recv = None;
        }
        assert(self@ == ticked(start, now as int, clock.before()));
        if self.state == State::Pending {
            let o = receive_from(&mut self.recv);
            let ghost og = o;
            self.deliver(now, o);
            assert(polled(start, *clock, og) == self@);
        } else {
            assert(polled(start, *clock, Delivery::Empty) == self@);
        }
    }

    /// Starts following an operation whose result will arrive on `rx`,
    /// unless one is already in flight once the binding is polled: then
    /// nothing changes and `rx` is dropped.
    ///
    /// Otherwise the binding drops what it holds and becomes pending.
    pub fn track(&mut self, clock: &Clock, rx: Receiver<Result<T, E>>)
        requires
            old(self)@.inv(),
        ensures
            exists|p: BindView<T, E>|
                polls_to(old(self)@, *clock, p) && final(self)@ == #[trigger] requested(p, clock.now()),
            final(self)@.inv(),
    {
        self.poll(clock);
        let ghost p = self@;
        if self.state == State::Pending {
            assert(self@ == requested(p, clock.now()));
            return;
        }
        self.last_start_time = clock.current();
        self.state = State::Pending;
        self.data = None;
        self.recv = Some(rx);
        if self.times_executed < usize::MAX {
            self.times_executed = self.times_executed + 1;
        }
        assert(self@ == requested(p, clock.now()));
    }

    /// Starts `fut` through `rt` and follows it until its result arrives,
    /// unless an operation is already in flight once the binding is polled:
    /// then nothing is started and nothing changes.
    pub fn request<D, Fut>(&mut self, clock: &Clock, rt: &D, fut: Fut)
        where
            D: Dispatcher<Result<T, E>>,
            Fut: Future<Output = Result<T, E>> + MaybeSend + 'static,
        requires
            old(self)@.inv(),
        ensures
            exists|p: BindView<T, E>|
                polls_to(old(self)@, *clock, p) && final(self)@ == #[trigger] requested(p, clock.now()),
            final(self)@.inv(),
    {
        self.poll(clock);
        let ghost p = self@;
        if self.state != State::Pending {
            let (tx, rx) = tokio::sync::oneshot::channel();
            rt.dispatch(fut, tx);
            self.track(clock, rx);
            assert(polled(p, *clock, Delivery::Empty) == p);
        }
        assert(self@ == requested(p, clock.now()));
    }

    /// Drops what the binding holds and goes back to idle. An operation in
    /// flight keeps running, but its result will never be seen.
    pub fn clear(&mut self, clock: &Clock)
        requires
            old(self)@.inv(),
        ensures
            exists|p: BindView<T, E>|
                polls_to(old(self)@, *clock, p) && final(self)@ == #[trigger] cleared(p),
            final(self)@.inv(),
    {
        self.poll(clock);
        let ghost p = self@;
        self.state = State::Idle;
        self.data = None;
        self.recv = None;
        assert(self@ == cleared(p));
    }

    /// Drops whatever the binding holds or awaits and starts `fut` at once.
    pub fn refresh<D, Fut>(&mut self, clock: &Clock, rt: &D, fut: Fut)
        where
            D: Dispatcher<Result<T, E>>,
            Fut: Future<Output = Result<T, E>> + MaybeSend + 'static,
        requires
            old(self)@.inv(),
        ensures
            exists|p: BindView<T, E>|
                polls_to(old(self)@, *clock, p) && final(self)@ == #[trigger] started(p, clock.now()),
            final(self)@.inv(),
    {
        self.clear(clock);
        let ghost q = self@;
        self.request(clock, rt, fut);
        proof {
            let p = choose|p: BindView<T, E>| polls_to(old(self)@, *clock, p) && q == cleared(p);
            assert(polled(q, *clock, Delivery::Empty) == q);
            assert(started(q, clock.now()) == started(p, clock.now()));
        }
    }

    /// Hands out the result of a finished binding, which becomes idle.
    /// Returns `None`, and changes nothing further, in any other state.
    pub fn take(&mut self, clock: &Clock) -> (r: Option<Result<T, E>>)
        requires
            old(self)@.inv(),
        ensures
            exists|p: BindView<T, E>|
                polls_to(old(self)@, *clock, p) && r == p.data && final(self)@ == #[trigger] taken(p),
            final(self)@.inv(),
    {
        self.poll(clock);
        let ghost p = self@;
        if self.state == State::Finished {
            self.state = State::Idle;
            let r = self.data.take();
            assert(self@ == taken(p));
            r
        } else {
            assert(self@ == taken(p));
            None
        }
    }

    /// Puts `data` in as the result of a finished operation, without running
    /// anything. The binding must be idle once polled.
    pub fn fill(&mut self, clock: &Clock, data: Result<T, E>)
        requires
            old(self)@.inv(),
            settled(old(self)@, *clock).state == State::Idle,
        ensures
            final(self)@ == filled(settled(old(self)@, *clock), clock.now(), data),
            final(self)@.inv(),
    {
        self.poll(clock);
        self.state = State::Finished;
        self.last_complete_time = clock.current();
        self.data = Some(data);
    }

    /// Whether the binding is idle.
    pub fn is_idle(&mut self, clock: &Clock) -> (r: bool)
        requires
            old(self)@.inv(),
        ensures
            polls_to(old(self)@, *clock, final(self)@),
            final(self)@.inv(),
            r == (final(self)@.state == State::Idle),
    {
        self.poll(clock);
        self.state == State::Idle
    }

    /// Whether an operation is in flight.
    pub fn is_pending(&mut self, clock: &Clock) -> (r: bool)
        requires
            old(self)@.inv(),
        ensures
            polls_to(old(self)@, *clock, final(self)@),
            final(self)@.inv(),
            r == (final(self)@.state == State::Pending),
    {
        self.poll(clock);
        self.state == State::Pending
    }

    /// Whether a result is held.
    pub fn is_finished(&mut self, clock: &Clock) -> (r: bool)
        requires
            old(self)@.inv(),
        ensures
            polls_to(old(self)@, *clock, final(self)@),
            final(self)@.inv(),
            r == (final(self)@.state == State::Finished),
    {
        self.poll(clock);
        self.state == State::Finished
    }

    /// The state of the binding.
    pub fn get_state(&mut self, clock: &Clock) -> (r: State)
        requires
            old(self)@.inv(),
        ensures
            polls_to(old(self)@, *clock, final(self)@),
            final(self)@.inv(),
            r == final(self)@.state,
    {
        self.poll(clock);
        self.state
    }

    /// Whether the latest operation completed in the current tick.
    pub fn just_completed(&mut self, clock: &Clock) -> (r: bool)
        requires
            old(self)@.inv(),
        ensures
            polls_to(old(self)@, *clock, final(self)@),
            final(self)@.inv(),
            r == (final(self)@.complete_time == clock.now()),
    {
        self.poll(clock);
        self.last_complete_time == clock.current()
    }

    /// Whether the latest operation started in the current tick.
    pub fn just_started(&mut self, clock: &Clock) -> (r: bool)
        requires
            old(self)@.inv(),
        ensures
            polls_to(old(self)@, *clock, final(self)@),
            final(self)@.inv(),
            r == (final(self)@.start_time == clock.now()),
    {
        self.poll(clock);
        self.last_start_time == clock.current()
    }

    /// The tick at which the latest operation started.
    pub fn get_start_time(&mut self, clock: &Clock) -> (r: i64)
        requires
            old(self)@.inv(),
        ensures
            polls_to(old(self)@, *clock, final(self)@),
            final(self)@.inv(),
            r == final(self)@.start_time,
    {
        self.poll(clock);
        self.last_start_time
    }

    /// The tick at which the latest operation completed; `i64::MIN` before
    /// any has.
    pub fn get_complete_time(&mut self, clock: &Clock) -> (r: i64)
        requires
            old(self)@.inv(),
        ensures
            polls_to(old(self)@, *clock, final(self)@),
            final(self)@.inv(),
            r == final(self)@.complete_time,
    {
        self.poll(clock);
        self.last_complete_time
    }

    /// The time from the start of the latest operation to its completion.
    pub fn get_elapsed(&mut self, clock: &Clock) -> (r: i128)
        requires
            old(self)@.inv(),
        ensures
            polls_to(old(self)@, *clock, final(self)@),
            final(self)@.inv(),
            r == final(self)@.complete_time - final(self)@.start_time,
    {
        self.poll(clock);
        self.last_complete_time as i128 - self.last_start_time as i128
    }

    /// The time since the latest operation started.
    pub fn since_started(&mut self, clock: &Clock) -> (r: i128)
        requires
            old(self)@.inv(),
        ensures
            polls_to(old(self)@, *clock, final(self)@),
            final(self)@.inv(),
            r == clock.now() - final(self)@.start_time,
    {
        self.poll(clock);
        clock.current() as i128 - self.last_start_time as i128
    }

    /// The time since the latest operation completed; very large before any has.
    pub fn since_completed(&mut self, clock: &Clock) -> (r: i128)
        requires
            old(self)@.inv(),
        ensures
            polls_to(old(self)@, *clock, final(self)@),
            final(self)@.inv(),
            r == clock.now() - final(self)@.complete_time,
    {
        self.poll(clock);
        clock.current() as i128 - self.last_complete_time as i128
    }

    /// The held result, if any.
    pub fn read(&mut self, clock: &Clock) -> (r: &Option<Result<T, E>>)
        requires
            old(self)@.inv(),
        ensures
            polls_to(old(self)@, *clock, final(self)@),
            final(self)@.inv(),
            *r == final(self)@.data,
    {
        self.poll(clock);
        &self.data
    }

    /// The held result, if any, as references to its value or error.
    pub fn read_as_ref(&mut self, clock: &Clock) -> (r: Option<Result<&T, &E>>)
        requires
            old(self)@.inv(),
        ensures
            polls_to(old(self)@, *clock, final(self)@),
            final(self)@.inv(),
            refers_to(r, final(self)@.data),
    {
        self.poll(clock);
        match &self.data {
            Some(Ok(t)) => Some(Ok(t)),
            Some(Err(e)) => Some(Err(e)),
            None => None,
        }
    }

    /// The state of the binding, with the held value or error.
    pub fn state(&mut self, clock: &Clock) -> (r: StateWithData<'_, T, E>)
        requires
            old(self)@.inv(),
        ensures
            polls_to(old(self)@, *clock, final(self)@),
            final(self)@.inv(),
            shows(r, final(self)@),
    {
        self.poll(clock);
        match self.state {
            State::Idle => StateWithData::Idle,
            State::Pending => StateWithData::Pending,
            State::Finished => match &self.data {
                Some(Ok(t)) => StateWithData::Finished(t),
                Some(Err(e)) => StateWithData::Failed(e),
                None => StateWithData::Idle,
            },
        }
    }

    /// The held result, if any, for writing.
    pub fn read_mut(&mut self, clock: &Clock) -> (r: Option<&mut Result<T, E>>)
        requires
            old(self)@.inv(),
        ensures
            exists|p: BindView<T, E>|
                #[trigger] polls_to(old(self)@, *clock, p) && match r {
                    Some(x) => p.data == Some(*x) && final(self)@ == BindView { data: Some(*final(x)), ..p },
                    None => p.data is None && final(self)@ == p,
                },
            final(self)@.inv(),
    {
        self.poll(clock);
        self.data.as_mut()
    }

    /// The held result, if any, as references for writing its value or error.
    pub fn read_as_mut(&mut self, clock: &Clock) -> (r: Option<Result<&mut T, &mut E>>)
        requires
            old(self)@.inv(),
        ensures
            exists|p: BindView<T, E>|
                #[trigger] polls_to(old(self)@, *clock, p) && match r {
                    Some(Ok(x)) => p.data == Some(Ok::<T, E>(*x))
                        && final(self)@ == BindView { data: Some(Ok::<T, E>(*final(x))), ..p },
                    Some(Err(x)) => p.data == Some(Err::<T, E>(*x))
                        && final(self)@ == BindView { data: Some(Err::<T, E>(*final(x))), ..p },
                    None => p.data is None && final(self)@ == p,
                },
            final(self)@.inv(),
    {
        self.poll(clock);
        match self.data.as_mut() {
            Some(d) => match d {
                Ok(t) => Some(Ok(t)),
                Err(e) => Some(Err(e)),
            },
            None => None,
        }
    }

    /// The state of the binding, after starting work with `f` if it was idle.
    pub fn state_or_request<D, F, Fut>(&mut self, clock: &Clock, rt: &D, f: F) -> (r: StateWithData<'_, T, E>)
        where
            D: Dispatcher<Result<T, E>>,
            F: FnOnce() -> Fut,
            Fut: Future<Output = Result<T, E>> + MaybeSend + 'static,
        requires
            old(self)@.inv(),
            f.requires(()),
        ensures
            exists|p: BindView<T, E>|
                polls_to(old(self)@, *clock, p) && final(self)@ == #[trigger] auto_started(p, clock.now()),
            final(self)@.inv(),
            shows(r, final(self)@),
    {
        self.poll(clock);
        let ghost p = self@;
        if self.data.is_none() && self.state == State::Idle {
            self.request(clock, rt, f());
        }
        assert(self@ == auto_started(p, clock.now()));
        self.state(clock)
    }

    /// The held result, after starting work with `f` if the binding was idle.
    pub fn read_or_request<D, F, Fut>(&mut self, clock: &Clock, rt: &D, f: F) -> (r: Option<&Result<T, E>>)
        where
            D: Dispatcher<Result<T, E>>,
            F: FnOnce() -> Fut,
            Fut: Future<Output = Result<T, E>> + MaybeSend + 'static,
        requires
            old(self)@.inv(),
            f.requires(()),
        ensures
            exists|p: BindView<T, E>|
                polls_to(old(self)@, *clock, p) && final(self)@ == #[trigger] auto_started(p, clock.now()),
            final(self)@.inv(),
            lends(r, final(self)@.data),
    {
        self.poll(clock);
        let ghost p = self@;
        if self.data.is_none() && self.state == State::Idle {
            self.request(clock, rt, f());
        }
        assert(self@ == auto_started(p, clock.now()));
        self.data.as_ref()
    }

    /// The held result for writing, after starting work with `f` if the
    /// binding was idle.
    pub fn read_mut_or_request<D, F, Fut>(&mut self, clock: &Clock, rt: &D, f: F) -> (r: Option<&mut Result<T, E>>)
        where
            D: Dispatcher<Result<T, E>>,
            F: FnOnce() -> Fut,
            Fut: Future<Output = Result<T, E>> + MaybeSend + 'static,
        requires
            old(self)@.inv(),
            f.requires(()),
        ensures
            exists|p: BindView<T, E>|
                #[trigger] polls_to(old(self)@, *clock, p) && match r {
                    Some(x) => auto_started(p, clock.now()).data == Some(*x)
                        && final(self)@ == BindView { data: Some(*final(x)), ..auto_started(p, clock.now()) },
                    None => auto_started(p, clock.now()).data is None
                        && final(self)@ == auto_started(p, clock.now()),
                },
            final(self)@.inv(),
    {
        self.poll(clock);
        let ghost p = self@;
        if self.data.is_none() && self.state == State::Idle {
            self.request(clock, rt, f());
        }
        assert(self@ == auto_started(p, clock.now()));
        self.data.as_mut()
    }

    /// Starts work with `f` if none is in flight and more than `secs` has
    /// passed since the latest completion. Returns the time left until that
    /// is the case; a negative value means that it is overdue.
    pub fn request_every_sec<D, F, Fut>(&mut self, clock: &Clock, rt: &D, f: F, secs: i64) -> (r: i128)
        where
            D: Dispatcher<Result<T, E>>,
            F: FnOnce() -> Fut,
            Fut: Future<Output = Result<T, E>> + MaybeSend + 'static,
        requires
            old(self)@.inv(),
            f.requires(()),
        ensures
            exists|p: BindView<T, E>|
                polls_to(old(self)@, *clock, p) && final(self)@ == #[trigger] scheduled(p, clock.now(), secs as int)
                    && r == secs - (clock.now() - p.complete_time),
            final(self)@.inv(),
    {
        let since = self.since_completed(clock);
        let ghost p = self@;
        if self.get_state(clock) != State::Pending && since > secs as i128 {
            self.request(clock, rt, f());
        }
        assert(self@ == scheduled(p, clock.now(), secs as int));
        secs as i128 - since
    }

    /// The decision behind a refresh button: when the button was `clicked`
    /// and more than a quarter of `secs` has passed since the latest
    /// completion, starts work with `f` at once, dropping anything held or in
    /// flight, and returns -1; otherwise acts as [`Bind::request_every_sec`].
    pub fn refresh_on_click<D, F, Fut>(&mut self, clock: &Clock, rt: &D, f: F, secs: i64, clicked: bool) -> (r: i128)
        where
            D: Dispatcher<Result<T, E>>,
            F: FnOnce() -> Fut,
            Fut: Future<Output = Result<T, E>> + MaybeSend + 'static,
        requires
            old(self)@.inv(),
            f.requires(()),
        ensures
            exists|p: BindView<T, E>|
                #[trigger] polls_to(old(self)@, *clock, p) && if clicked && 4 * (clock.now() - p.complete_time) > secs {
                    final(self)@ == started(p, clock.now()) && r == -1
                } else {
                    final(self)@ == scheduled(p, clock.now(), secs as int) && r == secs - (clock.now() - p.complete_time)
                },
            final(self)@.inv(),
    {
        let since = self.since_completed(clock);
        if clicked && 4 * since > secs as i128 {
            self.refresh(clock, rt, f());
            -1
        } else {
            self.request_every_sec(clock, rt, f, secs)
        }
    }

    /// Calls `f` on the held result if the operation completed in the
    /// current tick (or a result was put in by `fill` in this tick).
    pub fn on_finished<F>(&mut self, clock: &Clock, f: F)
        where
            F: FnOnce(&Result<T, E>),
        requires
            old(self)@.inv(),
            forall|d: &Result<T, E>| f.requires((d,)),
        ensures
            polls_to(old(self)@, *clock, final(self)@),
            final(self)@.inv(),
            final(self)@.complete_time == clock.now() ==> (final(self)@.data matches Some(d) ==> f.ensures(
                (&d,),
                (),
            )),
    {
        if self.just_completed(clock) {
            match &self.data {
                Some(d) => f(d),
                None => {},
            }
        }
    }

    /// The value of a successful result, if one is held. When an error is
    /// held, nothing is returned and, if the user asked to `retry` after
    /// seeing it, work is started again with `f`.
    pub fn read_or_error<D, F, Fut>(&mut self, clock: &Clock, rt: &D, f: F, retry: bool) -> (r: Option<&T>)
        where
            D: Dispatcher<Result<T, E>>,
            F: FnOnce() -> Fut,
            Fut: Future<Output = Result<T, E>> + MaybeSend + 'static,
        requires
            old(self)@.inv(),
            f.requires(()),
        ensures
            exists|p: BindView<T, E>|
                #[trigger] polls_to(old(self)@, *clock, p) && final(self)@ == retried(p, clock.now(), retry, false)
                    && value_of(r, p.data),
            final(self)@.inv(),
    {
        self.poll(clock);
        let ghost p = self@;
        if self.data.is_some() && self.data.as_ref().unwrap().is_err() {
            if retry {
                self.request(clock, rt, f());
            }
            assert(self@ == retried(p, clock.now(), retry, false));
            None
        } else {
            assert(self@ == retried(p, clock.now(), retry, false));
            match &self.data {
                Some(Ok(t)) => Some(t),
                _ => None,
            }
        }
    }

    /// The value of a successful result, if one is held, for writing. When an
    /// error is held, nothing is returned and, if the user asked to `retry`
    /// after seeing it, work is started again with `f`.
    pub fn read_mut_or_error<D, F, Fut>(&mut self, clock: &Clock, rt: &D, f: F, retry: bool) -> (r: Option<&mut T>)
        where
            D: Dispatcher<Result<T, E>>,
            F: FnOnce() -> Fut,
            Fut: Future<Output = Result<T, E>> + MaybeSend + 'static,
        requires
            old(self)@.inv(),
            f.requires(()),
        ensures
            exists|p: BindView<T, E>|
                #[trigger] polls_to(old(self)@, *clock, p) && match r {
                    Some(x) => p.data == Some(Ok::<T, E>(*x))
                        && final(self)@ == BindView { data: Some(Ok::<T, E>(*final(x))), ..p },
                    None => !(p.data matches Some(Ok(_))) && final(self)@ == retried(p, clock.now(), retry, false),
                },
            final(self)@.inv(),
    {
        self.poll(clock);
        let ghost p = self@;
        if self.data.is_some() && self.data.as_ref().unwrap().is_err() {
            if retry {
                self.request(clock, rt, f());
            }
            assert(self@ == retried(p, clock.now(), retry, false));
            None
        } else {
            match self.data.as_mut() {
                Some(d) => match d {
                    Ok(t) => Some(t),
                    Err(_) => None,
                },
                None => None,
            }
        }
    }

    /// Like [`Bind::read_or_error`], and work is also started with `f` when
    /// the binding is idle.
    pub fn read_or_request_or_error<D, F, Fut>(&mut self, clock: &Clock, rt: &D, f: F, retry: bool) -> (r: Option<&T>)
        where
            D: Dispatcher<Result<T, E>>,
            F: FnOnce() -> Fut,
            Fut: Future<Output = Result<T, E>> + MaybeSend + 'static,
        requires
            old(self)@.inv(),
            f.requires(()),
        ensures
            exists|p: BindView<T, E>|
                #[trigger] polls_to(old(self)@, *clock, p) && final(self)@ == retried(p, clock.now(), retry, true)
                    && value_of(r, p.data),
            final(self)@.inv(),
    {
        self.poll(clock);
        let ghost p = self@;
        if self.state == State::Idle {
            self.request(clock, rt, f());
            assert(self@ == retried(p, clock.now(), retry, true));
            None
        } else if self.data.is_some() && self.data.as_ref().unwrap().is_err() {
            if retry {
                self.request(clock, rt, f());
            }
            assert(self@ == retried(p, clock.now(), retry, true));
            None
        } else {
            assert(self@ == retried(p, clock.now(), retry, true));
            match &self.data {
                Some(Ok(t)) => Some(t),
                _ => None,
            }
        }
    }

    /// Like [`Bind::read_mut_or_error`], and work is also started with `f`
    /// when the binding is idle.
    pub fn read_mut_or_request_or_error<D, F, Fut>(&mut self, clock: &Clock, rt: &D, f: F, retry: bool) -> (r: Option<&mut T>)
        where
            D: Dispatcher<Result<T, E>>,
            F: FnOnce() -> Fut,
            Fut: Future<Output = Result<T, E>> + MaybeSend + 'static,
        requires
            old(self)@.inv(),
            f.requires(()),
        ensures
            exists|p: BindView<T, E>|
                #[trigger] polls_to(old(self)@, *clock, p) && match r {
                    Some(x) => p.data == Some(Ok::<T, E>(*x))
                        && final(self)@ == BindView { data: Some(Ok::<T, E>(*final(x))), ..p },
                    None => !(p.data matches Some(Ok(_))) && final(self)@ == retried(p, clock.now(), retry, true),
                },
            final(self)@.inv(),
    {
        self.poll(clock);
        let ghost p = self@;
        if self.state == State::Idle {
            self.request(clock, rt, f());
            assert(self@ == retried(p, clock.now(), retry, true));
            None
        } else if self.data.is_some() && self.data.as_ref().unwrap().is_err() {
            if retry {
                self.request(clock, rt, f());
            }
            assert(self@ == retried(p, clock.now(), retry, true));
            None
        } else {
            match self.data.as_mut() {
                Some(d) => match d {
                    Ok(t) => Some(t),
                    Err(_) => None,
                },
                None => None,
            }
        }
    }
}

impl<T, E> Default for Bind<T, E> {
    /// An idle binding that does not retain.
    fn default() -> (r: Self)
        ensures
            r@ == fresh::<T, E>(false),
            r@.inv(),
    {
        Bind::new(false)
    }
}

} // verus!

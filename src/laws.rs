//! Laws that relate the steps of a binding.
use crate::bind::{
    auto_started, cleared, filled, requested, fresh, polled, polls_to, scheduled, settled, started,
    taken, BindView, State,
};
use crate::channel::Delivery;
use crate::clock::Clock;
use vstd::prelude::*;

verus! {

/// A result is held exactly when the binding is finished, and a receiver
/// exactly when it is pending: a new binding is so, and every step keeps it so.
pub proof fn lemma_steps_keep_invariant<T, E>(
    retain: bool,
    b: BindView<T, E>,
    c: Clock,
    o: Delivery<Result<T, E>>,
    now: int,
    interval: int,
    v: Result<T, E>,
)
    requires
        b.inv(),
    ensures
        fresh::<T, E>(retain).inv(),
        polled(b, c, o).inv(),
        started(b, now).inv(),
        cleared(b).inv(),
        taken(b).inv(),
        auto_started(b, now).inv(),
        scheduled(b, now, interval).inv(),
        settled(b, c).state == State::Idle ==> filled(settled(b, c), now, v).inv(),
{
}

/// A binding that does not retain, last queried at tick `t1` and not at the
/// following tick `t2`, is idle and holds nothing once queried at tick `t3`,
/// whatever its channel gives.
pub proof fn lemma_unwatched_result_released<T, E>(
    b: BindView<T, E>,
    t1: int,
    t2: int,
    c: Clock,
    o: Delivery<Result<T, E>>,
)
    requires
        b.inv(),
        !b.retain,
        b.drawn_last == t1,
        t1 < t2 < c.now(),
        c.before() == t2,
    ensures
        polled(b, c, o).state == State::Idle,
        polled(b, c, o).data is None,
{
}

/// A finished binding that retains keeps its result through any poll, however
/// many ticks it was left unqueried.
pub proof fn lemma_retained_result_kept<T, E>(b: BindView<T, E>, c: Clock, o: Delivery<Result<T, E>>)
    requires
        b.inv(),
        b.retain,
        b.state == State::Finished,
    ensures
        polled(b, c, o).state == State::Finished,
        polled(b, c, o).data == b.data,
{
}

/// An operation requested at tick `c1`, when none was in flight, whose result
/// `v` is taken from its channel at a later tick `c2`, with the binding
/// queried in between as its policy asks, is handed out whole by `take`,
/// which leaves the binding idle.
pub proof fn lemma_request_take_round_trip<T, E>(
    b: BindView<T, E>,
    c1: Clock,
    c2: Clock,
    p: BindView<T, E>,
    v: Result<T, E>,
    o: Delivery<Result<T, E>>,
)
    requires
        b.inv(),
        polls_to(b, c1, p),
        p.state != State::Pending,
        c2.now() != c1.now(),
        b.retain || c2.before() == c1.now(),
    ensures
        ({
            let in_flight = requested(p, c1.now());
            let received = polled(in_flight, c2, Delivery::Ready(v));
            let before_take = polled(received, c2, o);
            &&& before_take.data == Some(v)
            &&& taken(before_take).state == State::Idle
            &&& taken(before_take).data is None
        }),
{
}

/// A second poll in the same tick changes nothing, whatever the channel
/// would give: the queries of one tick record it once and take at most one
/// result.
pub proof fn lemma_poll_once_per_tick<T, E>(
    b: BindView<T, E>,
    c: Clock,
    o1: Delivery<Result<T, E>>,
    o2: Delivery<Result<T, E>>,
)
    ensures
        polled(polled(b, c, o1), c, o2) == polled(b, c, o1),
        polled(b, c, o1).drawn_last == c.now(),
        polled(b, c, o1).drawn_prev == (if b.drawn_last == c.now() {
            b.drawn_prev
        } else {
            b.drawn_last
        }),
{
}

/// After a refresh, nothing is held until a result arrives on the channel of
/// the new operation, and what is then held is exactly that result: one that
/// the abandoned operation sends is never seen.
pub proof fn lemma_refresh_drops_abandoned<T, E>(
    b: BindView<T, E>,
    c1: Clock,
    p: BindView<T, E>,
    c2: Clock,
    o: Delivery<Result<T, E>>,
)
    requires
        b.inv(),
        polls_to(b, c1, p),
    ensures
        started(p, c1.now()).data is None,
        started(p, c1.now()).listening,
        polled(started(p, c1.now()), c2, o).data is Some ==> (o matches Delivery::Ready(v)
            && polled(started(p, c1.now()), c2, o).data == Some(v)),
{
}

} // verus!

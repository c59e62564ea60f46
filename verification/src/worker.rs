//! A worker thread: it names itself, then for ever counts, sleeps and
//! reports the count.

use vstd::prelude::*;
use crate::demo::SLEEP_TICKS;
use crate::effect::{answers, burst_ok, ConsoleLine, Effect, Event};
use crate::threadx::{KernelCall, KernelReply};

verus! {

/// A worker thread between two steps.
#[derive(Clone, Copy, Debug, PartialEq, Eq, Structural)]
pub enum Worker {
    /// Created with entry input `value`; its entry point has not run yet.
    Created { value: u32 },
    /// Asleep. `thread_counter` is the count that it reports on waking.
    Sleeping { value: u32, thread_counter: u64 },
}

/// The call by which a worker sleeps.
pub open spec fn sleep_call() -> KernelCall {
    KernelCall::ThreadSleep { timer_ticks: SLEEP_TICKS }
}

/// What a worker does when `event` arrives: what it is afterwards and the
/// burst it asks for. `None` where the event is not one that it waits for,
/// and for a worker whose counter cannot go up any more.
pub open spec fn worker_step(worker: Worker, event: Event) -> Option<(Worker, Seq<Effect>)> {
    match (worker, event) {
        (Worker::Created { value }, Event::Entered) => Some(
            (
                Worker::Sleeping { value, thread_counter: 1 },
                seq![Effect::Print(ConsoleLine::ThreadHello { value }), Effect::Call(sleep_call())],
            ),
        ),
        (Worker::Sleeping { value, thread_counter }, Event::Reply(KernelReply::ThreadWoke)) => {
            if thread_counter == u64::MAX {
                None
            } else {
                Some(
                    (
                        Worker::Sleeping { value, thread_counter: (thread_counter + 1) as u64 },
                        seq![
                            Effect::Print(
                                ConsoleLine::ThreadCount { value, count: thread_counter },
                            ),
                            Effect::Call(sleep_call()),
                        ],
                    ),
                )
            }
        },
        _ => None,
    }
}

/// One step of a worker thread.
///
/// Start from `Worker::Created` with `Event::Entered` when the kernel
/// first runs the thread. The worker never returns: every burst ends in
/// a sleep.
pub fn my_thread(worker: Worker, event: Event) -> (next: Option<(Worker, Vec<Effect>)>)
    ensures
        match next {
            Some((after, burst)) => worker_step(worker, event) == Some((after, burst@)),
            None => worker_step(worker, event) is None,
        },
{
    let sleep = Effect::Call(KernelCall::ThreadSleep { timer_ticks: SLEEP_TICKS });
    match (worker, event) {
        (Worker::Created { value }, Event::Entered) => {
            let burst = vec![Effect::Print(ConsoleLine::ThreadHello { value }), sleep];
            Some((Worker::Sleeping { value, thread_counter: 1 }, burst))
        },
        (Worker::Sleeping { value, thread_counter }, Event::Reply(KernelReply::ThreadWoke)) => {
            match thread_counter.checked_add(1) {
                Some(incremented) => {
                    let report = Effect::Print(
                        ConsoleLine::ThreadCount { value, count: thread_counter },
                    );
                    let burst = vec![report, sleep];
                    Some((Worker::Sleeping { value, thread_counter: incremented }, burst))
                },
                None => None,
            }
        },
        _ => None,
    }
}

/// The worker with entry input `value` after its start and `wakes`
/// wake-ups, and everything it has asked for on the way; `None` if its
/// counter could not go that far.
pub open spec fn worker_after(value: u32, wakes: nat) -> Option<(Worker, Seq<Effect>)>
    decreases wakes,
{
    if wakes == 0 {
        worker_step(Worker::Created { value }, Event::Entered)
    } else {
        match worker_after(value, (wakes - 1) as nat) {
            Some((worker, trace)) => match worker_step(
                worker,
                Event::Reply(KernelReply::ThreadWoke),
            ) {
                Some((after, burst)) => Some((after, trace + burst)),
                None => None,
            },
            None => None,
        }
    }
}

/// The counts that the count lines of the worker `value` among `effects`
/// report, in order.
pub open spec fn counts_of(value: u32, effects: Seq<Effect>) -> Seq<u64>
    decreases effects.len(),
{
    if effects.len() == 0 {
        Seq::empty()
    } else {
        match effects.last() {
            Effect::Print(ConsoleLine::ThreadCount { value: by, count }) if by == value => {
                counts_of(value, effects.drop_last()).push(count)
            },
            _ => counts_of(value, effects.drop_last()),
        }
    }
}

/// The number of sleeps among `effects`.
pub open spec fn sleeps_in(effects: Seq<Effect>) -> nat
    decreases effects.len(),
{
    if effects.len() == 0 {
        0
    } else {
        match effects.last() {
            Effect::Call(KernelCall::ThreadSleep { .. }) => sleeps_in(effects.drop_last()) + 1,
            _ => sleeps_in(effects.drop_last()),
        }
    }
}

/// Whether `merged` holds the effects of `first` and of `second`, those of
/// each in their own order and none torn apart: one way for a scheduler to
/// run the two side by side.
pub open spec fn interleaves(merged: Seq<Effect>, first: Seq<Effect>, second: Seq<Effect>) -> bool
    decreases merged.len(),
{
    if merged.len() == 0 {
        first.len() == 0 && second.len() == 0
    } else {
        ||| first.len() > 0 && merged.last() == first.last() && interleaves(
            merged.drop_last(),
            first.drop_last(),
            second,
        )
        ||| second.len() > 0 && merged.last() == second.last() && interleaves(
            merged.drop_last(),
            first,
            second.drop_last(),
        )
    }
}

/// Every burst of a worker is well formed and ends in a sleep of the
/// fixed length.
pub proof fn lemma_worker_bursts_ok(worker: Worker, event: Event)
    ensures
        worker_step(worker, event) matches Some((_, burst)) ==> burst.len() == 2 && burst_ok(burst)
            && burst.last() == Effect::Call(sleep_call()),
{
}

/// A worker is never at a loss while it can count: whatever its sleep
/// brings back, it takes as its next event, unless its counter is at the
/// top.
pub proof fn lemma_worker_takes_answers(worker: Worker, event: Event, answer: Event)
    requires
        worker_step(worker, event) is Some,
        answers(answer, worker_step(worker, event).unwrap().1.last()),
    ensures
        worker_step(worker, event).unwrap().0 matches Worker::Sleeping { thread_counter, .. }
            && (thread_counter < u64::MAX ==> worker_step(
            worker_step(worker, event).unwrap().0,
            answer,
        ) is Some),
{
}

/// A worker that has woken `wakes` times has put out exactly `wakes` count
/// lines, and they count 1, 2, 3 and so on: each is one more than the one
/// before. It has put out no line in another worker's name. It has gone to
/// sleep once more than it has woken, and sleeps now.
pub proof fn lemma_worker_counts(value: u32, wakes: nat)
    requires
        wakes < u64::MAX,
    ensures
        worker_after(value, wakes) matches Some((worker, trace)) && {
            &&& worker == Worker::Sleeping { value, thread_counter: (wakes + 1) as u64 }
            &&& counts_of(value, trace) == Seq::new(wakes, |k: int| (k + 1) as u64)
            &&& forall|other: u32| other != value ==> counts_of(other, trace).len() == 0
            &&& sleeps_in(trace) == wakes + 1
            &&& trace[0] == Effect::Print(ConsoleLine::ThreadHello { value })
        },
    decreases wakes,
{
    if wakes == 0 {
        reveal_with_fuel(counts_of, 3);
        reveal_with_fuel(sleeps_in, 3);
    } else {
        lemma_worker_counts(value, (wakes - 1) as nat);
        let (worker, trace) = worker_after(value, (wakes - 1) as nat).unwrap();
        let burst = worker_step(worker, Event::Reply(KernelReply::ThreadWoke)).unwrap().1;
        let whole = trace + burst;
        assert(whole.drop_last().drop_last() =~= trace);
        assert(counts_of(value, whole.drop_last()) == counts_of(value, trace).push(wakes as u64));
        assert forall|other: u32| other != value implies counts_of(other, whole).len() == 0 by {
            assert(counts_of(other, whole.drop_last()) == counts_of(other, trace));
        }
        assert(sleeps_in(whole.drop_last()) == sleeps_in(trace));
    }
}

/// Running beside another thread changes nothing in what a worker
/// reports: if `second` holds no count line of the worker `value`, then
/// however the two are interleaved, the count lines of `value` are those
/// of `first`, in the same order.
pub proof fn lemma_interleaving_keeps_counts(
    value: u32,
    merged: Seq<Effect>,
    first: Seq<Effect>,
    second: Seq<Effect>,
)
    requires
        interleaves(merged, first, second),
        counts_of(value, second).len() == 0,
    ensures
        counts_of(value, merged) == counts_of(value, first),
    decreases merged.len(),
{
    if merged.len() > 0 {
        if first.len() > 0 && merged.last() == first.last() && interleaves(
            merged.drop_last(),
            first.drop_last(),
            second,
        ) {
            lemma_interleaving_keeps_counts(value, merged.drop_last(), first.drop_last(), second);
        } else {
            lemma_interleaving_keeps_counts(value, merged.drop_last(), first, second.drop_last());
        }
    }
}

/// Two workers with different entry inputs, run side by side in whatever
/// order the kernel picks: on the console each has as many count lines as
/// it has woken, counting up from 1, whatever the other does in between.
pub proof fn lemma_two_workers_count_apart(
    value0: u32,
    wakes0: nat,
    value1: u32,
    wakes1: nat,
    merged: Seq<Effect>,
)
    requires
        value0 != value1,
        wakes0 < u64::MAX,
        wakes1 < u64::MAX,
        interleaves(
            merged,
            worker_after(value0, wakes0).unwrap().1,
            worker_after(value1, wakes1).unwrap().1,
        ),
    ensures
        counts_of(value0, merged) == Seq::new(wakes0, |k: int| (k + 1) as u64),
        counts_of(value1, merged) == Seq::new(wakes1, |k: int| (k + 1) as u64),
{
    let trace0 = worker_after(value0, wakes0).unwrap().1;
    let trace1 = worker_after(value1, wakes1).unwrap().1;
    lemma_worker_counts(value0, wakes0);
    lemma_worker_counts(value1, wakes1);
    lemma_interleaving_keeps_counts(value0, merged, trace0, trace1);
    lemma_interleaves_swapped(merged, trace0, trace1);
    lemma_interleaving_keeps_counts(value1, merged, trace1, trace0);
}

/// An interleaving of two traces is one of the two the other way round.
proof fn lemma_interleaves_swapped(merged: Seq<Effect>, first: Seq<Effect>, second: Seq<Effect>)
    requires
        interleaves(merged, first, second),
    ensures
        interleaves(merged, second, first),
    decreases merged.len(),
{
    if merged.len() > 0 {
        if first.len() > 0 && merged.last() == first.last() && interleaves(
            merged.drop_last(),
            first.drop_last(),
            second,
        ) {
            lemma_interleaves_swapped(merged.drop_last(), first.drop_last(), second);
        } else {
            lemma_interleaves_swapped(merged.drop_last(), first, second.drop_last());
        }
    }
}

} // verus!

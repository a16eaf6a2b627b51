//! What holds of an output sequence over any run of events, not just over
//! one step.
use vstd::prelude::*;
use crate::error::Error;
use crate::outputs::{Channel, Status};

verus! {

/// One thing that can happen to an output sequence.
pub enum Event<T> {
    /// The engine delivers an output.
    Push(T),
    /// The reader reads.
    Read,
    /// The engine reports a failure.
    Fail(Error),
    /// The engine is closed in good order.
    Close,
    /// The reader goes away.
    Detach,
}

/// The sequence after one event.
pub open spec fn step<T>(c: Channel<T>, event: Event<T>) -> Channel<T> {
    match event {
        Event::Push(item) => c.push(item),
        Event::Read => c.after_next(),
        Event::Fail(error) => c.fail(error),
        Event::Close => c.close(),
        Event::Detach => c.detach(),
    }
}

/// The output that one event hands to the reader, if it hands one.
pub open spec fn yielded<T>(c: Channel<T>, event: Event<T>) -> Seq<T> {
    if event is Read && c.queue.len() > 0 {
        seq![c.queue[0]]
    } else {
        Seq::empty()
    }
}

/// The output that one event asks the sequence to take, if it asks.
pub open spec fn offered<T>(event: Event<T>) -> Seq<T> {
    match event {
        Event::Push(item) => seq![item],
        _ => Seq::empty(),
    }
}

/// The sequence after a run of events.
pub open spec fn run<T>(c: Channel<T>, events: Seq<Event<T>>) -> Channel<T>
    decreases events.len(),
{
    if events.len() == 0 {
        c
    } else {
        run(step(c, events[0]), events.drop_first())
    }
}

/// All that the reader was handed during a run, in the order of the reads.
pub open spec fn delivered<T>(c: Channel<T>, events: Seq<Event<T>>) -> Seq<T>
    decreases events.len(),
{
    if events.len() == 0 {
        Seq::empty()
    } else {
        yielded(c, events[0]) + delivered(step(c, events[0]), events.drop_first())
    }
}

/// All that the engine delivered during a run, in the order of delivery.
pub open spec fn submitted<T>(events: Seq<Event<T>>) -> Seq<T>
    decreases events.len(),
{
    if events.len() == 0 {
        Seq::empty()
    } else {
        offered(events[0]) + submitted(events.drop_first())
    }
}

/// Whether a run consists of deliveries and reads alone: the engine neither
/// ends nor loses its reader.
pub open spec fn undisturbed<T>(events: Seq<Event<T>>) -> bool {
    forall|i: int| 0 <= i < events.len() ==> (#[trigger] events[i] is Push || events[i] is Read)
}

/// No event lets a sequence keep outputs without a reader.
pub proof fn lemma_inv_step<T>(c: Channel<T>, event: Event<T>)
    requires
        c.inv(),
    ensures
        step(c, event).inv(),
{
}

/// No run lets a sequence keep outputs without a reader.
pub proof fn lemma_inv_run<T>(c: Channel<T>, events: Seq<Event<T>>)
    requires
        c.inv(),
    ensures
        run(c, events).inv(),
    decreases events.len(),
{
    if events.len() > 0 {
        lemma_inv_step(c, events[0]);
        lemma_inv_run(step(c, events[0]), events.drop_first());
    }
}

/// While the engine runs and the reader stays, nothing is lost, repeated or
/// reordered: what was read, followed by what still waits, is what waited
/// before, followed by what the engine delivered.
pub proof fn lemma_lossless_in_order<T>(c: Channel<T>, events: Seq<Event<T>>)
    requires
        c.accepts(),
        undisturbed(events),
    ensures
        run(c, events).accepts(),
        delivered(c, events) + run(c, events).queue == c.queue + submitted(events),
    decreases events.len(),
{
    if events.len() == 0 {
        assert(delivered(c, events) + run(c, events).queue =~= c.queue + submitted(events));
    } else {
        let first = events[0];
        let rest = events.drop_first();
        let d = step(c, first);
        assert(first is Push || first is Read);
        assert forall|i: int| 0 <= i < rest.len() implies (#[trigger] rest[i] is Push
            || rest[i] is Read) by {
            assert(rest[i] == events[i + 1]);
        }
        lemma_lossless_in_order(d, rest);
        assert(yielded(c, first) + d.queue =~= c.queue + offered(first));
        assert(delivered(c, events) + run(c, events).queue =~= yielded(c, first) + (delivered(
            d,
            rest,
        ) + run(d, rest).queue));
        assert(c.queue + submitted(events) =~= (c.queue + offered(first)) + submitted(rest));
        assert(yielded(c, first) + (d.queue + submitted(rest)) =~= (yielded(c, first) + d.queue)
            + submitted(rest));
    }
}

/// From a new sequence, while the engine runs and the reader stays, the
/// reader is handed the outputs in the order in which the engine delivered
/// them, each once, and the rest waits in that same order.
pub proof fn lemma_fresh_run_in_order<T>(events: Seq<Event<T>>)
    requires
        undisturbed(events),
    ensures
        delivered(Channel::<T>::fresh(), events) + run(Channel::<T>::fresh(), events).queue
            == submitted(events),
{
    let c = Channel::<T>::fresh();
    lemma_lossless_in_order(c, events);
    assert(c.queue + submitted(events) =~= submitted(events));
}

/// Whatever happens, the reader is only ever handed what waited or what the
/// engine delivered, in that order and each at most once: what was read,
/// followed by what still waits, is the beginning of what waited before,
/// followed by all that the engine delivered.
pub proof fn lemma_never_reordered<T>(c: Channel<T>, events: Seq<Event<T>>)
    requires
        c.inv(),
    ensures
        (delivered(c, events) + run(c, events).queue).is_prefix_of(c.queue + submitted(events)),
        !c.accepts() ==> (delivered(c, events) + run(c, events).queue).is_prefix_of(c.queue),
    decreases events.len(),
{
    let out = delivered(c, events) + run(c, events).queue;
    if events.len() == 0 {
        assert(out =~= c.queue);
        assert(c.queue + submitted(events) =~= c.queue);
    } else {
        let first = events[0];
        let rest = events.drop_first();
        let d = step(c, first);
        let tail = delivered(d, rest) + run(d, rest).queue;
        lemma_inv_step(c, first);
        lemma_never_reordered(d, rest);
        assert(out =~= yielded(c, first) + tail);
        assert(c.queue + submitted(events) =~= (c.queue + offered(first)) + submitted(rest));
        if c.accepts() {
            // What waits after the step, behind what the step handed out, is
            // the beginning of what waited, behind what the step offered.
            assert((yielded(c, first) + d.queue).is_prefix_of(c.queue + offered(first)));
            if d.accepts() {
                assert(yielded(c, first) + d.queue =~= c.queue + offered(first));
                assert(yielded(c, first) + (d.queue + submitted(rest)) =~= (c.queue + offered(
                    first,
                )) + submitted(rest));
            }
        } else {
            assert(!d.accepts());
            assert((yielded(c, first) + d.queue).is_prefix_of(c.queue));
        }
    }
}

/// Once the engine has come to its end and nothing is left to read, every
/// read finds that same end, whatever else happens in between: no later
/// failure replaces it, and no late output is handed out.
pub proof fn lemma_end_is_final<T>(c: Channel<T>, events: Seq<Event<T>>)
    requires
        c.status.is_terminal(),
        c.queue.len() == 0,
    ensures
        run(c, events).status == c.status,
        run(c, events).queue.len() == 0,
        run(c, events).next() == c.next(),
        c.next() == c.last_word(),
        !(c.next() is Pending) && !(c.next() is Output),
        delivered(c, events) == Seq::<T>::empty(),
    decreases events.len(),
{
    if events.len() > 0 {
        let d = step(c, events[0]);
        assert(d.status == c.status);
        assert(d.queue =~= Seq::<T>::empty());
        lemma_end_is_final(d, events.drop_first());
        assert(delivered(c, events) =~= Seq::<T>::empty());
    }
}

/// An engine that has come to its end takes nothing more, so the reader
/// reaches the end after reading what waited: a run of reads as long as the
/// queue hands out exactly the queue, and the read after it finds the end.
pub proof fn lemma_drains_to_end<T>(c: Channel<T>, reads: Seq<Event<T>>)
    requires
        c.status.is_terminal(),
        reads.len() == c.queue.len(),
        forall|i: int| 0 <= i < reads.len() ==> #[trigger] reads[i] is Read,
    ensures
        delivered(c, reads) == c.queue,
        run(c, reads).queue.len() == 0,
        run(c, reads).next() == c.last_word(),
    decreases reads.len(),
{
    if reads.len() == 0 {
        assert(delivered(c, reads) =~= c.queue);
    } else {
        let d = step(c, reads[0]);
        let rest = reads.drop_first();
        assert(reads[0] is Read);
        assert forall|i: int| 0 <= i < rest.len() implies #[trigger] rest[i] is Read by {
            assert(rest[i] == reads[i + 1]);
        }
        lemma_drains_to_end(d, rest);
        assert(delivered(c, reads) =~= c.queue);
    }
}

/// Once the reader is gone, whatever the engine delivers is discarded:
/// nothing is kept, nothing is handed out, and the first delivery puts on
/// record that outputs were dropped, unless the end of the engine is on
/// record already.
pub proof fn lemma_detached_keeps_nothing<T>(c: Channel<T>, events: Seq<Event<T>>, item: T)
    requires
        !c.attached,
        c.queue.len() == 0,
    ensures
        !run(c, events).attached,
        run(c, events).queue.len() == 0,
        delivered(c, events) == Seq::<T>::empty(),
        c.push(item).queue == c.queue,
        c.push(item).status == if c.status is Open {
            Status::Failed(Error::Dropped)
        } else {
            c.status
        },
    decreases events.len(),
{
    if events.len() > 0 {
        let d = step(c, events[0]);
        assert(d.queue =~= Seq::<T>::empty());
        lemma_detached_keeps_nothing(d, events.drop_first(), item);
        assert(delivered(c, events) =~= Seq::<T>::empty());
    }
}

} // verus!

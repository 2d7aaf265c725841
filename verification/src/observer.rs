//! The batching adapter: records announced one by one under the time that is
//! currently open are handed to an endpoint as one batch when that time closes.

use crate::endpoint::Pushable;
use core::marker::PhantomData;
use vstd::prelude::*;

verus! {

/// Whether `entry` is the batch that closing `time` makes of `records`: a
/// clone of the time, and the records in the order in which they were
/// buffered.
pub open spec fn is_batch<T: Clone, D>(entry: (T, Vec<D>), time: T, records: Seq<D>) -> bool {
    cloned(time, entry.0) && entry.1@ == records
}

/// Whether an endpoint that held `before` holds `after` once it was handed
/// the one batch of `records` under `time`. A described content grows by that
/// batch, at its end, and by nothing else; an undescribed one stays
/// undescribed.
pub open spec fn flushed<T: Clone, D>(
    before: Option<Seq<(T, Vec<D>)>>,
    time: T,
    records: Seq<D>,
    after: Option<Seq<(T, Vec<D>)>>,
) -> bool {
    match (before, after) {
        (Some(b), Some(a)) => a.len() == b.len() + 1 && a.drop_last() == b && is_batch(
            a.last(),
            time,
            records,
        ),
        (None, None) => true,
        _ => false,
    }
}

/// Buffers the records of the open time and flushes them to `pushable`, as a
/// pair of the time and the records, when the time is shut.
pub struct PushableObserver<T: Send, D: Send + Clone, P: Pushable<(T, Vec<D>)>> {
    /// The records buffered since the last flush, oldest first.
    pub data: Vec<D>,
    /// The endpoint that batches are flushed to.
    pub pushable: P,
    pub phantom: PhantomData<T>,
}

impl<T: Send + Clone, D: Send + Clone, P: Pushable<(T, Vec<D>)>> PushableObserver<T, D, P> {
    /// The state after a time was opened: the state before it.
    pub open spec fn opened(&self, after: &Self) -> bool {
        *after == *self
    }

    /// The state after `record` joined the buffer: the buffer grew by it, at
    /// the end, and the endpoint was not touched.
    pub open spec fn gave(&self, record: D, after: &Self) -> bool {
        &&& after.data@ == self.data@.push(record)
        &&& after.pushable == self.pushable
    }

    /// The state after a clone of `record` joined the buffer.
    pub open spec fn showed(&self, record: D, after: &Self) -> bool {
        &&& after.data@.len() == self.data@.len() + 1
        &&& after.data@.drop_last() == self.data@
        &&& cloned(record, after.data@.last())
        &&& after.pushable == self.pushable
    }

    /// The state after `time` was shut. An empty buffer leaves everything as
    /// it was: no batch is made of nothing. Otherwise the endpoint was handed
    /// exactly one batch, of all the buffered records under `time`, and the
    /// buffer is empty again.
    pub open spec fn shut_to(&self, time: T, after: &Self) -> bool {
        if self.data@.len() == 0 {
            *after == *self
        } else {
            &&& after.data@.len() == 0
            &&& flushed(self.pushable.stored(), time, self.data@, after.pushable.stored())
        }
    }

    /// Announces that `time` is now open. The adapter keeps no record of it
    /// and does not hold later calls against it.
    pub fn open(&mut self, _time: &T)
        ensures
            old(self).opened(final(self)),
    {
    }

    /// Buffers a clone of `data`; the caller keeps its own value, which the
    /// buffered one is independent of.
    pub fn show(&mut self, data: &D)
        ensures
            old(self).showed(*data, final(self)),
    {
        let copy = data.clone();
        self.give(copy);
        proof {
            assert(self.data@.drop_last() =~= old(self).data@);
        }
    }

    /// Buffers `data`, which the caller gives up.
    pub fn give(&mut self, data: D)
        ensures
            old(self).gave(data, final(self)),
    {
        self.data.push(data);
    }

    /// Announces that `time` is closing: flushes the buffered records, if
    /// there are any, to the endpoint as one batch under a clone of `time`.
    pub fn shut(&mut self, time: &T)
        ensures
            old(self).shut_to(*time, final(self)),
    {
        if self.data.len() > 0 {
            let mut batch: Vec<D> = Vec::new();
            std::mem::swap(&mut self.data, &mut batch);
            let stamp = time.clone();
            self.pushable.push((stamp, batch));
            proof {
                if let Some(held) = old(self).pushable.stored() {
                    assert(held.push((stamp, batch)).drop_last() =~= held);
                }
            }
        }
    }
}

/// Whether `states` are the states that an adapter passes through while
/// `records` are given to it one by one: the first is the state before the
/// first record, and each later one follows from the one before it by one
/// `give`.
pub open spec fn gave_all<T: Send + Clone, D: Send + Clone, P: Pushable<(T, Vec<D>)>>(
    states: Seq<PushableObserver<T, D, P>>,
    records: Seq<D>,
) -> bool {
    &&& states.len() == records.len() + 1
    &&& forall|i: int|
        0 <= i < records.len() ==> states[i].gave(#[trigger] records[i], &states[i + 1])
}

/// After the first `k` of a run of gives the buffer holds what it held
/// before, then those `k` records, and the endpoint is the one it was.
proof fn lemma_gave_prefix<T: Send + Clone, D: Send + Clone, P: Pushable<(T, Vec<D>)>>(
    states: Seq<PushableObserver<T, D, P>>,
    records: Seq<D>,
    k: int,
)
    requires
        gave_all(states, records),
        0 <= k <= records.len(),
    ensures
        states[k].data@ == states[0].data@ + records.take(k),
        states[k].pushable == states[0].pushable,
    decreases k,
{
    if k == 0 {
        assert(states[0].data@ + records.take(0) =~= states[0].data@);
    } else {
        lemma_gave_prefix(states, records, k - 1);
        let record = records[k - 1];
        assert(states[k - 1].gave(record, &states[k - 1 + 1]));
        assert(records.take(k) =~= records.take(k - 1).push(record));
        assert(states[k].data@ =~= states[0].data@ + records.take(k));
    }
}

/// Whether `states` are the states that an adapter passes through while
/// `records` are announced to it one by one, each by `show` or by `give`
/// (see [`lemma_give_announces`]).
pub open spec fn announced_all<T: Send + Clone, D: Send + Clone, P: Pushable<(T, Vec<D>)>>(
    states: Seq<PushableObserver<T, D, P>>,
    records: Seq<D>,
) -> bool {
    &&& states.len() == records.len() + 1
    &&& forall|i: int|
        0 <= i < records.len() ==> states[i].showed(#[trigger] records[i], &states[i + 1])
}

/// A record joins the buffer by `give` as it would by `show`: as a clone of
/// itself, at the end.
pub proof fn lemma_give_announces<T: Send + Clone, D: Send + Clone, P: Pushable<(T, Vec<D>)>>(
    before: PushableObserver<T, D, P>,
    record: D,
    after: PushableObserver<T, D, P>,
)
    requires
        before.gave(record, &after),
    ensures
        before.showed(record, &after),
{
    assert(before.data@.push(record).drop_last() =~= before.data@);
}

/// After the first `k` of a run of announcements the buffer holds what it
/// held before, then one clone for each of those `k` records, in their order,
/// and the endpoint is the one it was.
proof fn lemma_announced_prefix<T: Send + Clone, D: Send + Clone, P: Pushable<(T, Vec<D>)>>(
    states: Seq<PushableObserver<T, D, P>>,
    records: Seq<D>,
    k: int,
)
    requires
        announced_all(states, records),
        0 <= k <= records.len(),
    ensures
        states[k].data@.len() == states[0].data@.len() + k,
        states[k].data@.take(states[0].data@.len() as int) == states[0].data@,
        forall|i: int|
            0 <= i < k ==> cloned(
                #[trigger] records[i],
                states[k].data@[states[0].data@.len() + i],
            ),
        states[k].pushable == states[0].pushable,
    decreases k,
{
    let base = states[0].data@.len() as int;
    if k == 0 {
        assert(states[0].data@.take(base) =~= states[0].data@);
    } else {
        lemma_announced_prefix(states, records, k - 1);
        let record = records[k - 1];
        assert(states[k - 1].showed(record, &states[k - 1 + 1]));
        let earlier = states[k - 1].data@;
        let now = states[k].data@;
        assert(now.drop_last() == earlier);
        assert(forall|j: int| 0 <= j < earlier.len() ==> now[j] == now.drop_last()[j]);
        assert(now.take(base) =~= earlier.take(base));
        assert forall|i: int| 0 <= i < k implies cloned(#[trigger] records[i], now[base + i]) by {
            if i < k - 1 {
                assert(now[base + i] == earlier[base + i]);
            }
        }
    }
}

/// Every shut leaves the buffer empty, whether it flushed or found nothing
/// to flush.
pub proof fn lemma_shut_empties<T: Send + Clone, D: Send + Clone, P: Pushable<(T, Vec<D>)>>(
    before: PushableObserver<T, D, P>,
    time: T,
    after: PushableObserver<T, D, P>,
)
    requires
        before.shut_to(time, &after),
    ensures
        after.data@.len() == 0,
{
}

/// A time that is opened and shut with no record announced in between, on an
/// adapter whose buffer was empty when the time was opened, leaves the
/// adapter as it was: its endpoint is handed nothing.
pub proof fn lemma_idle_time_flushes_nothing<
    T: Send + Clone,
    D: Send + Clone,
    P: Pushable<(T, Vec<D>)>,
>(
    before: PushableObserver<T, D, P>,
    time: T,
    opened: PushableObserver<T, D, P>,
    closed: PushableObserver<T, D, P>,
)
    requires
        before.data@.len() == 0,
        before.opened(&opened),
        opened.shut_to(time, &closed),
    ensures
        closed == before,
        closed.pushable == before.pushable,
{
}

/// A time that is opened on an adapter with an empty buffer, under which
/// `records` are given one by one, at least one of them, and that is then
/// shut hands the endpoint exactly one batch: all of `records`, in the order
/// given, under `time`. The buffer is empty afterwards.
pub proof fn lemma_batch_complete<T: Send + Clone, D: Send + Clone, P: Pushable<(T, Vec<D>)>>(
    before: PushableObserver<T, D, P>,
    time: T,
    states: Seq<PushableObserver<T, D, P>>,
    records: Seq<D>,
    closed: PushableObserver<T, D, P>,
)
    requires
        before.data@.len() == 0,
        records.len() > 0,
        gave_all(states, records),
        before.opened(&states[0]),
        states.last().shut_to(time, &closed),
    ensures
        closed.data@.len() == 0,
        flushed(before.pushable.stored(), time, records, closed.pushable.stored()),
{
    lemma_gave_prefix(states, records, records.len() as int);
    assert(records.take(records.len() as int) =~= records);
    assert(states.last().data@ =~= records);
}

/// Records shown and records given share one batch, in the order in which
/// they were announced: a time that is opened on an adapter with an empty
/// buffer, under which `records` are announced one by one, at least one of
/// them, and that is then shut hands the endpoint exactly one batch, which
/// holds one clone for each record, in that order, and nothing else.
pub proof fn lemma_batch_keeps_order<T: Send + Clone, D: Send + Clone, P: Pushable<(T, Vec<D>)>>(
    before: PushableObserver<T, D, P>,
    time: T,
    states: Seq<PushableObserver<T, D, P>>,
    records: Seq<D>,
    closed: PushableObserver<T, D, P>,
)
    requires
        before.data@.len() == 0,
        records.len() > 0,
        announced_all(states, records),
        before.opened(&states[0]),
        states.last().shut_to(time, &closed),
    ensures
        closed.data@.len() == 0,
        states.last().data@.len() == records.len(),
        forall|i: int|
            0 <= i < records.len() ==> cloned(#[trigger] records[i], states.last().data@[i]),
        flushed(
            before.pushable.stored(),
            time,
            states.last().data@,
            closed.pushable.stored(),
        ),
{
    lemma_announced_prefix(states, records, records.len() as int);
}

/// What one time left in the buffer does not reach the next batch: after a
/// shut, whatever was buffered before it, a time under which `records` are
/// given and that is then shut hands the endpoint a batch of `records` and of
/// nothing else.
pub proof fn lemma_shut_resets<T: Send + Clone, D: Send + Clone, P: Pushable<(T, Vec<D>)>>(
    stale: PushableObserver<T, D, P>,
    earlier: T,
    reset: PushableObserver<T, D, P>,
    time: T,
    states: Seq<PushableObserver<T, D, P>>,
    records: Seq<D>,
    closed: PushableObserver<T, D, P>,
)
    requires
        stale.shut_to(earlier, &reset),
        records.len() > 0,
        gave_all(states, records),
        reset.opened(&states[0]),
        states.last().shut_to(time, &closed),
    ensures
        closed.data@.len() == 0,
        flushed(reset.pushable.stored(), time, records, closed.pushable.stored()),
{
    lemma_shut_empties(stale, earlier, reset);
    lemma_batch_complete(reset, time, states, records, closed);
}

} // verus!

//! First in, first out: what the action queue hands out after any run of
//! submissions and drains.

use vstd::prelude::*;
use crate::queue::{ActionQueueView, QueueError};

verus! {

/// One operation on the queue. The queue is shared by all sessions, so
/// whatever they and the consumer do reaches it as one sequence of these.
pub enum QueueOp {
    Submit(Seq<char>),
    Drain,
}

impl ActionQueueView {
    /// This queue after `op`.
    pub open spec fn apply(self, op: QueueOp) -> ActionQueueView {
        match op {
            QueueOp::Submit(id) => self.submit(id),
            QueueOp::Drain => self.drained(),
        }
    }

    /// This queue after the operations of `ops`, first to last.
    pub open spec fn apply_all(self, ops: Seq<QueueOp>) -> ActionQueueView
        decreases ops.len(),
    {
        if ops.len() == 0 {
            self
        } else {
            self.apply_all(ops.drop_last()).apply(ops.last())
        }
    }

    /// The identifiers that the drains among `ops` hand out, in the order in
    /// which they hand them out, when `ops` run on this queue.
    pub open spec fn delivered(self, ops: Seq<QueueOp>) -> Seq<Seq<char>>
        decreases ops.len(),
    {
        if ops.len() == 0 {
            Seq::empty()
        } else {
            let earlier = self.delivered(ops.drop_last());
            match (ops.last(), self.apply_all(ops.drop_last()).front()) {
                (QueueOp::Drain, Ok(Some(id))) => earlier.push(id),
                _ => earlier,
            }
        }
    }
}

/// The identifiers that the submissions among `ops` carry, in their order.
pub open spec fn submitted(ops: Seq<QueueOp>) -> Seq<Seq<char>>
    decreases ops.len(),
{
    if ops.len() == 0 {
        Seq::empty()
    } else {
        match ops.last() {
            QueueOp::Submit(id) => submitted(ops.drop_last()).push(id),
            QueueOp::Drain => submitted(ops.drop_last()),
        }
    }
}

/// One submission for each identifier of `ids`, in their order.
pub open spec fn submissions(ids: Seq<Seq<char>>) -> Seq<QueueOp> {
    Seq::new(ids.len(), |i: int| QueueOp::Submit(ids[i]))
}

/// `count` drains.
pub open spec fn drains(count: nat) -> Seq<QueueOp> {
    Seq::new(count, |i: int| QueueOp::Drain)
}

/// No sequence of submissions and drains tears a side of the queue down.
pub proof fn lemma_operations_keep_sides(queue: ActionQueueView, ops: Seq<QueueOp>)
    ensures
        queue.apply_all(ops).producer_open == queue.producer_open,
        queue.apply_all(ops).consumer_open == queue.consumer_open,
    decreases ops.len(),
{
    if ops.len() > 0 {
        lemma_operations_keep_sides(queue, ops.drop_last());
    }
}

/// First in, first out, each identifier once: however submissions and drains
/// interleave on a queue that accepts submissions, what was pending before,
/// followed by what was submitted, is what the drains handed out, followed by
/// what is still pending. Nothing is lost, repeated or reordered.
pub proof fn lemma_fifo(queue: ActionQueueView, ops: Seq<QueueOp>)
    requires
        queue.accepts(),
    ensures
        queue.pending + submitted(ops) == queue.delivered(ops) + queue.apply_all(ops).pending,
    decreases ops.len(),
{
    if ops.len() == 0 {
        assert(queue.pending + submitted(ops) =~= queue.delivered(ops) + queue.apply_all(
            ops,
        ).pending);
    } else {
        let init = ops.drop_last();
        let before = queue.apply_all(init);
        lemma_fifo(queue, init);
        lemma_operations_keep_sides(queue, init);
        assert(queue.pending + submitted(init) == queue.delivered(init) + before.pending);
        match ops.last() {
            QueueOp::Submit(id) => {
                assert(queue.pending + submitted(init).push(id) =~= (queue.pending + submitted(
                    init,
                )).push(id));
                assert(queue.delivered(init) + before.pending.push(id) =~= (queue.delivered(init)
                    + before.pending).push(id));
            },
            QueueOp::Drain => {
                if before.pending.len() > 0 {
                    assert(queue.delivered(init).push(before.pending[0])
                        + before.pending.drop_first() =~= queue.delivered(init) + before.pending);
                }
            },
        }
    }
}

/// A queue that accepts no submissions hands out only what was pending: the
/// drains deliver a prefix of it and the rest stays pending.
pub proof fn lemma_closed_queue_takes_nothing(queue: ActionQueueView, ops: Seq<QueueOp>)
    requires
        !queue.accepts(),
    ensures
        queue.pending == queue.delivered(ops) + queue.apply_all(ops).pending,
    decreases ops.len(),
{
    if ops.len() == 0 {
        assert(queue.pending =~= queue.delivered(ops) + queue.apply_all(ops).pending);
    } else {
        let init = ops.drop_last();
        let before = queue.apply_all(init);
        lemma_closed_queue_takes_nothing(queue, init);
        lemma_operations_keep_sides(queue, init);
        if ops.last() is Drain && before.pending.len() > 0 {
            assert(queue.delivered(init).push(before.pending[0]) + before.pending.drop_first()
                =~= queue.delivered(init) + before.pending);
        }
    }
}

/// Submissions alone hand nothing out and line up behind what was pending.
pub proof fn lemma_submissions_line_up(queue: ActionQueueView, ids: Seq<Seq<char>>)
    requires
        queue.accepts(),
    ensures
        queue.apply_all(submissions(ids)).pending == queue.pending + ids,
        queue.apply_all(submissions(ids)).accepts(),
        queue.delivered(submissions(ids)) == Seq::<Seq<char>>::empty(),
    decreases ids.len(),
{
    let ops = submissions(ids);
    if ids.len() == 0 {
        assert(queue.pending + ids =~= queue.pending);
    } else {
        lemma_submissions_line_up(queue, ids.drop_last());
        assert(ops.drop_last() =~= submissions(ids.drop_last()));
        assert(ops.last() == QueueOp::Submit(ids.last()));
        assert((queue.pending + ids.drop_last()).push(ids.last()) =~= queue.pending + ids);
    }
}

/// Drains alone, no more of them than identifiers are pending, hand out the
/// oldest ones in their order and leave the rest.
pub proof fn lemma_drains_take_oldest(queue: ActionQueueView, count: nat)
    requires
        count <= queue.pending.len(),
    ensures
        queue.delivered(drains(count)) == queue.pending.take(count as int),
        queue.apply_all(drains(count)).pending == queue.pending.skip(count as int),
        queue.apply_all(drains(count)).producer_open == queue.producer_open,
        queue.apply_all(drains(count)).consumer_open == queue.consumer_open,
    decreases count,
{
    let ops = drains(count);
    if count == 0 {
        assert(queue.pending.take(0) =~= Seq::<Seq<char>>::empty());
        assert(queue.pending.skip(0) =~= queue.pending);
    } else {
        let fewer: nat = (count - 1) as nat;
        lemma_drains_take_oldest(queue, fewer);
        assert(ops.drop_last() =~= drains(fewer));
        assert(ops.last() == QueueOp::Drain);
        let before = queue.apply_all(drains(fewer));
        assert(before.pending[0] == queue.pending[fewer as int]);
        assert(queue.pending.take(fewer as int).push(queue.pending[fewer as int])
            =~= queue.pending.take(count as int));
        assert(queue.pending.skip(fewer as int).drop_first() =~= queue.pending.skip(
            count as int,
        ));
    }
}

/// Running `first` and then `second` is running `first + second`: the state
/// composes and the deliveries concatenate.
pub proof fn lemma_operations_compose(
    queue: ActionQueueView,
    first: Seq<QueueOp>,
    second: Seq<QueueOp>,
)
    ensures
        queue.apply_all(first + second) == queue.apply_all(first).apply_all(second),
        queue.delivered(first + second) == queue.delivered(first) + queue.apply_all(
            first,
        ).delivered(second),
    decreases second.len(),
{
    let all = first + second;
    if second.len() == 0 {
        assert(all =~= first);
        assert(queue.delivered(first) + queue.apply_all(first).delivered(second)
            =~= queue.delivered(first));
    } else {
        lemma_operations_compose(queue, first, second.drop_last());
        assert(all.drop_last() =~= first + second.drop_last());
        assert(all.last() == second.last());
        let middle = queue.apply_all(first);
        let before = middle.apply_all(second.drop_last());
        match (second.last(), before.front()) {
            (QueueOp::Drain, Ok(Some(id))) => {
                assert((queue.delivered(first) + middle.delivered(second.drop_last())).push(id)
                    =~= queue.delivered(first) + middle.delivered(second.drop_last()).push(id));
            },
            _ => {},
        }
    }
}

/// Identifiers submitted to a fresh queue come out of as many drains in the
/// order of their submission, each exactly once, and the drain after the last
/// of them finds nothing.
pub proof fn lemma_drains_return_submissions_in_order(ids: Seq<Seq<char>>)
    ensures
        ActionQueueView::fresh().delivered(submissions(ids) + drains(ids.len())) == ids,
        ActionQueueView::fresh().apply_all(submissions(ids) + drains(ids.len())).front() == Ok::<
            Option<Seq<char>>,
            QueueError,
        >(None),
{
    let fresh = ActionQueueView::fresh();
    let filled = fresh.apply_all(submissions(ids));
    lemma_submissions_line_up(fresh, ids);
    lemma_operations_keep_sides(fresh, submissions(ids));
    assert(filled.pending =~= ids);
    lemma_drains_take_oldest(filled, ids.len());
    lemma_operations_compose(fresh, submissions(ids), drains(ids.len()));
    assert(ids.take(ids.len() as int) =~= ids);
    assert(Seq::<Seq<char>>::empty() + ids =~= ids);
    assert(ids.skip(ids.len() as int) =~= Seq::<Seq<char>>::empty());
}

} // verus!

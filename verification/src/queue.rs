//! The action queue: an unbounded first-in, first-out queue that carries the
//! identifiers of submitted actions from the sessions to the one consumer.
//!
//! Submitting never waits for the consumer and draining never waits for a
//! producer. Either side can be torn down. Without the consumer, submissions
//! fail with [`QueueError::QueueClosed`]. Without the producers, a drain that
//! finds nothing left reports [`QueueError::ProducerGone`].

use vstd::prelude::*;
use std::collections::VecDeque;

verus! {

/// Why a queue operation did not go through.
#[derive(Clone, Copy, Debug, PartialEq, Eq, Structural)]
pub enum QueueError {
    /// The consuming side is gone: the queue takes no more submissions.
    QueueClosed,
    /// The queue is empty and no producer is left to fill it.
    ProducerGone,
}

/// What an [`ActionQueue`] holds, as mathematical values.
pub struct ActionQueueView {
    /// The identifiers that wait for the consumer, oldest first.
    pub pending: Seq<Seq<char>>,
    /// Whether the producing side is still there.
    pub producer_open: bool,
    /// Whether the consuming side is still there.
    pub consumer_open: bool,
}

impl ActionQueueView {
    /// The queue of a server that has just started: empty, both sides there.
    pub open spec fn fresh() -> ActionQueueView {
        ActionQueueView { pending: Seq::empty(), producer_open: true, consumer_open: true }
    }

    /// Whether a submission is taken: the consuming side must still be
    /// there.
    pub open spec fn accepts(self) -> bool {
        self.consumer_open
    }

    /// This queue after a submission of `id`: `id` joins at the back if the
    /// queue accepts it, and nothing changes if not.
    pub open spec fn submit(self, id: Seq<char>) -> ActionQueueView {
        if self.accepts() {
            ActionQueueView { pending: self.pending.push(id), ..self }
        } else {
            self
        }
    }

    /// What a drain of this queue reports: the oldest identifier, or nothing
    /// while producers may still come, or that the producers are gone.
    pub open spec fn front(self) -> Result<Option<Seq<char>>, QueueError> {
        if self.pending.len() > 0 {
            Ok(Some(self.pending[0]))
        } else if self.producer_open {
            Ok(None)
        } else {
            Err(QueueError::ProducerGone)
        }
    }

    /// This queue after a drain: without its oldest identifier.
    pub open spec fn drained(self) -> ActionQueueView {
        if self.pending.len() > 0 {
            ActionQueueView { pending: self.pending.drop_first(), ..self }
        } else {
            self
        }
    }

    /// This queue after the producing side was torn down. What is pending
    /// can still be drained, and so can what is submitted all the same.
    pub open spec fn without_producer(self) -> ActionQueueView {
        ActionQueueView { producer_open: false, ..self }
    }

    /// This queue after the consuming side was torn down. What was pending
    /// is dropped: nobody is left to take it.
    pub open spec fn without_consumer(self) -> ActionQueueView {
        ActionQueueView { pending: Seq::empty(), consumer_open: false, ..self }
    }
}

/// What a drain handed out, as mathematical values.
pub open spec fn drain_view(outcome: Result<Option<String>, QueueError>) -> Result<
    Option<Seq<char>>,
    QueueError,
> {
    match outcome {
        Ok(Some(id)) => Ok(Some(id@)),
        Ok(None) => Ok(None),
        Err(error) => Err(error),
    }
}

/// The action queue.
#[derive(Debug)]
pub struct ActionQueue {
    pending: VecDeque<String>,
    producer_open: bool,
    consumer_open: bool,
}

impl View for ActionQueue {
    type V = ActionQueueView;

    closed spec fn view(&self) -> ActionQueueView {
        ActionQueueView {
            pending: Seq::new(self.pending@.len(), |i: int| self.pending@[i]@),
            producer_open: self.producer_open,
            consumer_open: self.consumer_open,
        }
    }
}

impl ActionQueue {
    /// An empty queue with both sides there.
    pub fn new() -> (queue: ActionQueue)
        ensures
            queue@ == ActionQueueView::fresh(),
    {
        let queue = ActionQueue {
            pending: VecDeque::new(),
            producer_open: true,
            consumer_open: true,
        };
        assert(queue@.pending =~= Seq::<Seq<char>>::empty());
        queue
    }

    /// Puts `id` at the back of the queue.
    ///
    /// Fails with [`QueueError::QueueClosed`], and leaves the queue as it
    /// was, exactly when the consuming side has been torn down.
    pub fn submit(&mut self, id: String) -> (outcome: Result<(), QueueError>)
        ensures
            final(self)@ == old(self)@.submit(id@),
            outcome == if old(self)@.accepts() {
                Ok::<(), QueueError>(())
            } else {
                Err::<(), QueueError>(QueueError::QueueClosed)
            },
    {
        if self.consumer_open {
            self.pending.push_back(id);
            assert(self@.pending =~= old(self)@.pending.push(id@));
            Ok(())
        } else {
            Err(QueueError::QueueClosed)
        }
    }

    /// Takes the oldest identifier out of the queue, without waiting.
    ///
    /// Returns nothing when the queue is empty and the producing side is
    /// there. Fails with [`QueueError::ProducerGone`] exactly when the queue
    /// is empty and the producing side has been torn down.
    pub fn try_drain(&mut self) -> (outcome: Result<Option<String>, QueueError>)
        ensures
            drain_view(outcome) == old(self)@.front(),
            final(self)@ == old(self)@.drained(),
    {
        match self.pending.pop_front() {
            Some(id) => {
                assert(self@.pending =~= old(self)@.pending.drop_first());
                assert(old(self)@.pending[0] == id@);
                Ok(Some(id))
            },
            None => {
                assert(self@.pending =~= old(self)@.pending);
                if self.producer_open {
                    Ok(None)
                } else {
                    Err(QueueError::ProducerGone)
                }
            },
        }
    }

    /// Number of identifiers that wait for the consumer.
    pub fn len(&self) -> (count: usize)
        ensures
            count == self@.pending.len(),
    {
        self.pending.len()
    }

    /// Whether submissions are taken.
    pub fn is_open(&self) -> (open: bool)
        ensures
            open == self@.accepts(),
    {
        self.consumer_open
    }

    /// Tears the producing side down: from now on a drain that finds the
    /// queue empty reports [`QueueError::ProducerGone`].
    pub fn close_producer(&mut self)
        ensures
            final(self)@ == old(self)@.without_producer(),
    {
        self.producer_open = false;
    }

    /// Tears the consuming side down: from now on submissions fail, and what
    /// was pending is dropped.
    pub fn close_consumer(&mut self)
        ensures
            final(self)@ == old(self)@.without_consumer(),
    {
        self.pending.clear();
        self.consumer_open = false;
        assert(self@.pending =~= Seq::<Seq<char>>::empty());
    }
}

impl Default for ActionQueue {
    fn default() -> (queue: ActionQueue)
        ensures
            queue@ == ActionQueueView::fresh(),
    {
        ActionQueue::new()
    }
}

} // verus!

//! The state handle: what the embedding process holds to read the latest
//! input and to take submitted actions, without ever waiting for a session.

use vstd::prelude::*;
use crate::config::{ActionList, ActionView, AreaSize};
use crate::input::{CanvasTouch, GamepadCommand};
use crate::queue::{drain_view, ActionQueue, ActionQueueView, QueueError};
use crate::store::{StateStore, StoreContents};

verus! {

/// The producing side of the action queue is gone and the queue is empty: no
/// action will ever come again, and the embedder should stop polling.
#[derive(Clone, Copy, Debug, PartialEq, Eq, Structural)]
pub struct Disconnected;

impl Disconnected {
    /// The error in words.
    pub fn message(&self) -> (text: &'static str)
        ensures
            text@ == "Sender disconnected"@,
    {
        "Sender disconnected"
    }
}

/// What a [`StateHandle`] holds, as mathematical values.
pub struct StateHandleView {
    pub store: StoreContents,
    pub actions: ActionQueueView,
}

impl StateHandleView {
    /// The state of a server that has just started with the field `area` and
    /// the actions of `catalog`.
    pub open spec fn initial(area: AreaSize, catalog: Seq<ActionView>) -> StateHandleView {
        StateHandleView {
            store: StoreContents::initial(area, catalog),
            actions: ActionQueueView::fresh(),
        }
    }
}

/// What a poll of `queue` reports: the oldest identifier, or nothing yet, or
/// that the producers are gone.
pub open spec fn poll_of(queue: ActionQueueView) -> Result<Option<Seq<char>>, Disconnected> {
    match queue.front() {
        Ok(id) => Ok(id),
        Err(_) => Err(Disconnected),
    }
}

/// What a poll handed out, as mathematical values.
pub open spec fn poll_view(outcome: Result<Option<String>, Disconnected>) -> Result<
    Option<Seq<char>>,
    Disconnected,
> {
    match outcome {
        Ok(Some(id)) => Ok(Some(id@)),
        Ok(None) => Ok(None),
        Err(error) => Err(error),
    }
}

/// The state handle: the store and the action queue of one server.
#[derive(Debug)]
pub struct StateHandle {
    store: StateStore,
    actions: ActionQueue,
}

impl View for StateHandle {
    type V = StateHandleView;

    closed spec fn view(&self) -> StateHandleView {
        StateHandleView { store: self.store@, actions: self.actions@ }
    }
}

impl StateHandle {
    /// The handle over `store` and `actions`.
    pub fn new(store: StateStore, actions: ActionQueue) -> (handle: StateHandle)
        ensures
            handle@ == (StateHandleView { store: store@, actions: actions@ }),
    {
        StateHandle { store, actions }
    }

    /// The state of a server that starts with the field `map_size` and the
    /// catalog `actions`: neutral sticks, no touch, no action submitted.
    pub fn with_map(map_size: AreaSize, actions: ActionList) -> (handle: StateHandle)
        ensures
            handle@ == StateHandleView::initial(map_size, actions@),
    {
        StateHandle { store: StateStore::new(map_size, actions), actions: ActionQueue::new() }
    }

    /// The latest gamepad command: the neutral command until a client sends
    /// one.
    pub fn get_last_gamepad_command(&self) -> (command: GamepadCommand)
        ensures
            command == self@.store.gamepad,
    {
        self.store.snapshot_gamepad()
    }

    /// The latest touch: nothing until a client reports one.
    pub fn get_latest_canvas_touch(&self) -> (touch: Option<CanvasTouch>)
        ensures
            touch == self@.store.touch,
    {
        self.store.snapshot_touch()
    }

    /// Takes the oldest submitted action that has not been taken yet,
    /// without waiting.
    ///
    /// Returns nothing when no action waits. Fails with [`Disconnected`]
    /// exactly when no action waits and the producing side of the queue is
    /// gone. The store is left as it was.
    pub fn check_new_actions(&mut self) -> (outcome: Result<Option<String>, Disconnected>)
        ensures
            poll_view(outcome) == poll_of(old(self)@.actions),
            final(self)@ == (StateHandleView {
                store: old(self)@.store,
                actions: old(self)@.actions.drained(),
            }),
    {
        let drained = self.actions.try_drain();
        poll_outcome(drained)
    }

    /// The store, for readers.
    pub fn store(&self) -> (store: &StateStore)
        ensures
            store@ == self@.store,
    {
        &self.store
    }

    /// The action queue, for readers.
    pub fn actions(&self) -> (actions: &ActionQueue)
        ensures
            actions@ == self@.actions,
    {
        &self.actions
    }

    /// The store, for the sessions and request handlers that write into it.
    /// What the caller leaves in it is the handle's store afterwards; the
    /// queue does not change.
    pub fn store_mut(&mut self) -> (store: &mut StateStore)
        ensures
            store@ == old(self)@.store,
            final(self)@ == (StateHandleView { store: final(store)@, actions: old(self)@.actions }),
    {
        &mut self.store
    }

    /// The action queue, for the request handlers that submit into it and
    /// for the shutdown that closes it. What the caller leaves in it is the
    /// handle's queue afterwards; the store does not change.
    pub fn actions_mut(&mut self) -> (actions: &mut ActionQueue)
        ensures
            actions@ == old(self)@.actions,
            final(self)@ == (StateHandleView { store: old(self)@.store, actions: final(actions)@ }),
    {
        &mut self.actions
    }
}

impl Default for StateHandle {
    /// The state of a server that was given no configuration: the unit
    /// square and an empty catalog.
    fn default() -> (handle: StateHandle)
        ensures
            handle@ == StateHandleView::initial(AreaSize::unit_square(), Seq::empty()),
    {
        StateHandle::with_map(AreaSize::unit(), ActionList::default())
    }
}

/// What a poll reports for what a drain of the queue handed out: an
/// identifier or nothing is passed on, and the queue's error becomes
/// [`Disconnected`].
pub fn poll_outcome(drained: Result<Option<String>, QueueError>) -> (outcome: Result<
    Option<String>,
    Disconnected,
>)
    ensures
        poll_view(outcome) == match drain_view(drained) {
            Ok(id) => Ok::<Option<Seq<char>>, Disconnected>(id),
            Err(_) => Err::<Option<Seq<char>>, Disconnected>(Disconnected),
        },
{
    match drained {
        Ok(id) => Ok(id),
        Err(_) => Err(Disconnected),
    }
}

} // verus!

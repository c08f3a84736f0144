//! Configuration that is fixed when a server starts and published to clients:
//! the size of the playing field and the catalog of actions.

use vstd::prelude::*;

verus! {

/// Bit pattern of the single-precision number `1.0`.
pub const ONE_BITS: u32 = 0x3F80_0000;

/// Dimensions of the playing field. Each field is the bit pattern of a
/// single-precision number.
#[derive(Clone, Copy, Debug, PartialEq, Eq, Structural)]
pub struct AreaSize {
    pub width: u32,
    pub height: u32,
}

impl AreaSize {
    /// The unit square, `1.0` by `1.0`: the field of a server that was given
    /// no dimensions.
    pub open spec fn unit_square() -> AreaSize {
        AreaSize { width: ONE_BITS, height: ONE_BITS }
    }

    /// The field of the given width and height.
    pub fn new(width: u32, height: u32) -> (size: AreaSize)
        ensures
            size == (AreaSize { width, height }),
    {
        AreaSize { width, height }
    }

    /// The unit square.
    pub fn unit() -> (size: AreaSize)
        ensures
            size == AreaSize::unit_square(),
    {
        AreaSize { width: ONE_BITS, height: ONE_BITS }
    }
}

/// What an [`Action`] is, as mathematical values.
pub struct ActionView {
    pub id: Seq<char>,
    pub description: Seq<char>,
}

/// A discrete, named command that a client can trigger.
#[derive(Debug)]
pub struct Action {
    id: String,
    description: String,
}

impl View for Action {
    type V = ActionView;

    closed spec fn view(&self) -> ActionView {
        ActionView { id: self.id@, description: self.description@ }
    }
}

/// The views of `actions`, in their order.
pub open spec fn action_views(actions: Seq<Action>) -> Seq<ActionView> {
    Seq::new(actions.len(), |i: int| actions[i]@)
}

impl Action {
    /// The action that is triggered by `id` and described by `description`.
    pub fn new(id: String, description: String) -> (action: Action)
        ensures
            action@ == (ActionView { id: id@, description: description@ }),
    {
        Action { id, description }
    }

    /// The identifier that a client submits to trigger this action.
    pub fn id(&self) -> (id: &str)
        ensures
            id@ == self@.id,
    {
        self.id.as_str()
    }

    /// The text shown to the person who picks the action.
    pub fn description(&self) -> (description: &str)
        ensures
            description@ == self@.description,
    {
        self.description.as_str()
    }
}

impl Clone for Action {
    fn clone(&self) -> (copy: Action)
        ensures
            copy@ == self@,
    {
        Action { id: self.id.clone(), description: self.description.clone() }
    }
}

/// The ordered catalog of actions that a server offers.
#[derive(Debug)]
pub struct ActionList {
    actions: Vec<Action>,
}

impl View for ActionList {
    type V = Seq<ActionView>;

    closed spec fn view(&self) -> Seq<ActionView> {
        action_views(self.actions@)
    }
}

impl ActionList {
    /// The catalog that lists `actions` in their order.
    pub fn new(actions: Vec<Action>) -> (list: ActionList)
        ensures
            list@ == action_views(actions@),
    {
        ActionList { actions }
    }

    /// Number of actions in the catalog.
    pub fn len(&self) -> (count: usize)
        ensures
            count == self@.len(),
    {
        self.actions.len()
    }

    /// The action at `index`, or nothing past the end.
    pub fn get(&self, index: usize) -> (action: Option<&Action>)
        ensures
            match action {
                Some(found) => index < self@.len() && found@ == self@[index as int],
                None => index >= self@.len(),
            },
    {
        if index < self.actions.len() {
            Some(&self.actions[index])
        } else {
            None
        }
    }
}

impl Clone for ActionList {
    fn clone(&self) -> (copy: ActionList)
        ensures
            copy@ == self@,
    {
        let mut actions: Vec<Action> = Vec::new();
        let mut i: usize = 0;
        while i < self.actions.len()
            invariant
                i <= self.actions@.len(),
                actions@.len() == i,
                forall|j: int| 0 <= j < i ==> actions@[j]@ == self.actions@[j]@,
            decreases self.actions@.len() - i,
        {
            actions.push(self.actions[i].clone());
            i += 1;
        }
        let copy = ActionList { actions };
        assert(copy@ =~= self@);
        copy
    }
}

impl Default for ActionList {
    /// The empty catalog.
    fn default() -> (list: ActionList)
        ensures
            list@ == Seq::<ActionView>::empty(),
    {
        ActionList { actions: Vec::new() }
    }
}

} // verus!

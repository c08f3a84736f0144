//! The shared state store: the latest gamepad command, the latest touch and
//! the configuration that clients fetch.
//!
//! The store keeps no history. A write replaces the whole value, a read
//! returns a copy of it, and the configuration never changes after
//! construction. A server shares one store between all its sessions by
//! guarding it with a lock; every operation here is a plain field replacement
//! or copy, so the critical sections stay short.

use vstd::prelude::*;
use crate::input::{CanvasTouch, GamepadCommand};
use crate::config::{ActionList, ActionView, AreaSize};

verus! {

/// The cell that holds the most recent gamepad command.
#[derive(Debug)]
pub struct ControllerState {
    last_command: GamepadCommand,
}

impl View for ControllerState {
    type V = GamepadCommand;

    closed spec fn view(&self) -> GamepadCommand {
        self.last_command
    }
}

impl ControllerState {
    /// A cell that holds the neutral command.
    pub fn new() -> (state: ControllerState)
        ensures
            state@ == GamepadCommand::neutral(),
    {
        ControllerState { last_command: GamepadCommand::default() }
    }

    /// Replaces the stored command by `command`, whole.
    pub fn update(&mut self, command: GamepadCommand)
        ensures
            final(self)@ == command,
    {
        self.last_command = command;
    }

    /// A copy of the stored command. The cell is left as it was.
    pub fn get_latest(&mut self) -> (command: GamepadCommand)
        ensures
            command == old(self)@,
            final(self)@ == old(self)@,
    {
        self.last_command
    }

    /// A copy of the stored command, for a reader that holds only a shared
    /// reference.
    pub fn peek(&self) -> (command: GamepadCommand)
        ensures
            command == self@,
    {
        self.last_command
    }
}

impl Default for ControllerState {
    fn default() -> (state: ControllerState)
        ensures
            state@ == GamepadCommand::neutral(),
    {
        ControllerState::new()
    }
}

/// What a [`StateStore`] holds, as mathematical values.
pub struct StoreContents {
    pub gamepad: GamepadCommand,
    pub touch: Option<CanvasTouch>,
    pub area: AreaSize,
    pub catalog: Seq<ActionView>,
}

impl StoreContents {
    /// The store of a server that has just started: neutral sticks, no touch
    /// yet, and the given configuration.
    pub open spec fn initial(area: AreaSize, catalog: Seq<ActionView>) -> StoreContents {
        StoreContents { gamepad: GamepadCommand::neutral(), touch: None, area, catalog }
    }

    /// This store after `command` was written.
    pub open spec fn with_gamepad(self, command: GamepadCommand) -> StoreContents {
        StoreContents { gamepad: command, ..self }
    }

    /// This store after `touch` was written.
    pub open spec fn with_touch(self, touch: CanvasTouch) -> StoreContents {
        StoreContents { touch: Some(touch), ..self }
    }
}

/// The shared state store.
#[derive(Debug)]
pub struct StateStore {
    controller: ControllerState,
    touch: Option<CanvasTouch>,
    area: AreaSize,
    catalog: ActionList,
}

impl View for StateStore {
    type V = StoreContents;

    closed spec fn view(&self) -> StoreContents {
        StoreContents {
            gamepad: self.controller@,
            touch: self.touch,
            area: self.area,
            catalog: self.catalog@,
        }
    }
}

impl StateStore {
    /// The store of a server that starts with the field `area` and the
    /// actions of `catalog`.
    pub fn new(area: AreaSize, catalog: ActionList) -> (store: StateStore)
        ensures
            store@ == StoreContents::initial(area, catalog@),
    {
        StateStore { controller: ControllerState::new(), touch: None, area, catalog }
    }

    /// Replaces the stored gamepad command by `command`. Nothing else changes.
    pub fn update_gamepad(&mut self, command: GamepadCommand)
        ensures
            final(self)@ == old(self)@.with_gamepad(command),
    {
        self.controller.update(command);
    }

    /// Replaces the stored touch by `touch`. Nothing else changes.
    pub fn update_touch(&mut self, touch: CanvasTouch)
        ensures
            final(self)@ == old(self)@.with_touch(touch),
    {
        self.touch = Some(touch);
    }

    /// A copy of the latest gamepad command: the neutral command until the
    /// first write.
    pub fn snapshot_gamepad(&self) -> (command: GamepadCommand)
        ensures
            command == self@.gamepad,
    {
        self.controller.peek()
    }

    /// A copy of the latest touch: nothing until the first write.
    pub fn snapshot_touch(&self) -> (touch: Option<CanvasTouch>)
        ensures
            touch == self@.touch,
    {
        self.touch
    }

    /// The size of the playing field.
    pub fn area_size(&self) -> (area: AreaSize)
        ensures
            area == self@.area,
    {
        self.area
    }

    /// The catalog of actions.
    pub fn catalog(&self) -> (catalog: &ActionList)
        ensures
            catalog@ == self@.catalog,
    {
        &self.catalog
    }

    /// The cell of the gamepad command, for a session that writes into it.
    /// Whatever the caller leaves in the cell is the store's gamepad command
    /// afterwards; nothing else changes.
    pub fn controller_mut(&mut self) -> (cell: &mut ControllerState)
        ensures
            cell@ == old(self)@.gamepad,
            final(self)@ == old(self)@.with_gamepad(final(cell)@),
    {
        &mut self.controller
    }
}

} // verus!

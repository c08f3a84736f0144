//! Last writer wins: what the store holds after any run of writes and reads.

use vstd::prelude::*;
use crate::config::{ActionView, AreaSize};
use crate::input::{CanvasTouch, GamepadCommand};
use crate::store::StoreContents;

verus! {

/// One operation on the store, as sessions and readers issue them. A lock
/// around the store makes the operations of all tasks take effect one after
/// another, in some order: a sequence of these.
pub enum StoreOp {
    UpdateGamepad(GamepadCommand),
    UpdateTouch(CanvasTouch),
    SnapshotGamepad,
    SnapshotTouch,
}

impl StoreContents {
    /// This store after `op`. A snapshot changes nothing.
    pub open spec fn apply(self, op: StoreOp) -> StoreContents {
        match op {
            StoreOp::UpdateGamepad(command) => self.with_gamepad(command),
            StoreOp::UpdateTouch(touch) => self.with_touch(touch),
            StoreOp::SnapshotGamepad => self,
            StoreOp::SnapshotTouch => self,
        }
    }

    /// This store after the operations of `ops`, first to last.
    pub open spec fn apply_all(self, ops: Seq<StoreOp>) -> StoreContents
        decreases ops.len(),
    {
        if ops.len() == 0 {
            self
        } else {
            self.apply_all(ops.drop_last()).apply(ops.last())
        }
    }
}

/// The command of the last gamepad write among `ops`, if there is one.
pub open spec fn last_gamepad_write(ops: Seq<StoreOp>) -> Option<GamepadCommand>
    decreases ops.len(),
{
    if ops.len() == 0 {
        None
    } else {
        match ops.last() {
            StoreOp::UpdateGamepad(command) => Some(command),
            _ => last_gamepad_write(ops.drop_last()),
        }
    }
}

/// The touch of the last touch write among `ops`, if there is one.
pub open spec fn last_touch_write(ops: Seq<StoreOp>) -> Option<CanvasTouch>
    decreases ops.len(),
{
    if ops.len() == 0 {
        None
    } else {
        match ops.last() {
            StoreOp::UpdateTouch(touch) => Some(touch),
            _ => last_touch_write(ops.drop_last()),
        }
    }
}

/// Last writer wins: after any sequence of writes and snapshots, in any
/// interleaving, the stored gamepad command is the one of the last gamepad
/// write, and the command from before if there was none.
pub proof fn lemma_gamepad_is_last_write(store: StoreContents, ops: Seq<StoreOp>)
    ensures
        store.apply_all(ops).gamepad == match last_gamepad_write(ops) {
            Some(command) => command,
            None => store.gamepad,
        },
    decreases ops.len(),
{
    if ops.len() > 0 {
        lemma_gamepad_is_last_write(store, ops.drop_last());
    }
}

/// After any sequence of writes and snapshots the stored touch is the one of
/// the last touch write, and the touch from before if there was none.
pub proof fn lemma_touch_is_last_write(store: StoreContents, ops: Seq<StoreOp>)
    ensures
        store.apply_all(ops).touch == match last_touch_write(ops) {
            Some(touch) => Some(touch),
            None => store.touch,
        },
    decreases ops.len(),
{
    if ops.len() > 0 {
        lemma_touch_is_last_write(store, ops.drop_last());
    }
}

/// A store that has just been made reports no touch until the first touch
/// write, and from then on the most recent one.
pub proof fn lemma_touch_absent_until_written(
    area: AreaSize,
    catalog: Seq<ActionView>,
    ops: Seq<StoreOp>,
)
    ensures
        StoreContents::initial(area, catalog).apply_all(ops).touch == last_touch_write(ops),
{
    lemma_touch_is_last_write(StoreContents::initial(area, catalog), ops);
}

/// The configuration is written once: no sequence of operations changes the
/// field size or the catalog.
pub proof fn lemma_configuration_is_fixed(store: StoreContents, ops: Seq<StoreOp>)
    ensures
        store.apply_all(ops).area == store.area,
        store.apply_all(ops).catalog == store.catalog,
    decreases ops.len(),
{
    if ops.len() > 0 {
        lemma_configuration_is_fixed(store, ops.drop_last());
    }
}

} // verus!

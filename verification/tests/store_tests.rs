use remote_controller::{
    Action, ActionList, AreaSize, CanvasTouch, ControllerState, GamepadCommand, StateStore,
};

fn command(lx: f32, ly: f32, rx: f32, ry: f32) -> GamepadCommand {
    GamepadCommand::new(lx.to_bits(), ly.to_bits(), rx.to_bits(), ry.to_bits())
}

fn touch(width: f32, height: f32, down_x: f32, down_y: f32, up_x: f32, up_y: f32) -> CanvasTouch {
    CanvasTouch {
        width: width.to_bits(),
        height: height.to_bits(),
        down_x: down_x.to_bits(),
        down_y: down_y.to_bits(),
        up_x: up_x.to_bits(),
        up_y: up_y.to_bits(),
    }
}

fn catalog() -> ActionList {
    ActionList::new(vec![
        Action::new(String::from("save"), String::from("Save current position")),
        Action::new(String::from("load"), String::from("Load current position")),
    ])
}

#[test]
fn neutral_command_is_all_zero() {
    let neutral = GamepadCommand::default();
    assert_eq!(f32::from_bits(neutral.left_x), 0.0);
    assert_eq!(f32::from_bits(neutral.left_y), 0.0);
    assert_eq!(f32::from_bits(neutral.right_x), 0.0);
    assert_eq!(f32::from_bits(neutral.right_y), 0.0);
    assert_eq!(neutral, command(0.0, 0.0, 0.0, 0.0));
}

#[test]
fn command_keeps_each_axis_in_its_field() {
    let c = GamepadCommand::new(1, 2, 3, 4);
    assert_eq!(c.left_x, 1);
    assert_eq!(c.left_y, 2);
    assert_eq!(c.right_x, 3);
    assert_eq!(c.right_y, 4);
}

#[test]
fn default_touch_is_all_zero() {
    assert_eq!(CanvasTouch::default(), touch(0.0, 0.0, 0.0, 0.0, 0.0, 0.0));
}

#[test]
fn unit_area_is_one_by_one() {
    let unit = AreaSize::unit();
    assert_eq!(f32::from_bits(unit.width), 1.0);
    assert_eq!(f32::from_bits(unit.height), 1.0);
    assert_eq!(unit, AreaSize::new(1.0f32.to_bits(), 1.0f32.to_bits()));
}

#[test]
fn area_size_keeps_width_and_height_apart() {
    let size = AreaSize::new(1.0f32.to_bits(), 2.0f32.to_bits());
    assert_eq!(f32::from_bits(size.width), 1.0);
    assert_eq!(f32::from_bits(size.height), 2.0);
}

#[test]
fn action_keeps_id_and_description() {
    let action = Action::new(String::from("save"), String::from("Save current position"));
    assert_eq!(action.id(), "save");
    assert_eq!(action.description(), "Save current position");
}

#[test]
fn catalog_keeps_order() {
    let list = catalog();
    assert_eq!(list.len(), 2);
    assert_eq!(list.get(0).unwrap().id(), "save");
    assert_eq!(list.get(1).unwrap().id(), "load");
    assert_eq!(list.get(1).unwrap().description(), "Load current position");
    assert!(list.get(2).is_none());
}

#[test]
fn default_catalog_is_empty() {
    let list = ActionList::default();
    assert_eq!(list.len(), 0);
    assert!(list.get(0).is_none());
}

#[test]
fn controller_state_starts_neutral() {
    let mut state = ControllerState::new();
    assert_eq!(state.get_latest(), GamepadCommand::default());
    assert_eq!(ControllerState::default().peek(), GamepadCommand::default());
}

#[test]
fn controller_state_returns_last_update() {
    let mut state = ControllerState::new();
    state.update(command(0.25, 0.5, 0.75, 1.0));
    assert_eq!(state.get_latest(), command(0.25, 0.5, 0.75, 1.0));
    state.update(command(-1.0, 0.0, 0.0, 0.0));
    assert_eq!(state.get_latest(), command(-1.0, 0.0, 0.0, 0.0));
    assert_eq!(state.get_latest(), command(-1.0, 0.0, 0.0, 0.0));
    assert_eq!(state.peek(), command(-1.0, 0.0, 0.0, 0.0));
}

#[test]
fn fresh_store_holds_defaults_and_configuration() {
    let store = StateStore::new(AreaSize::new(3.0f32.to_bits(), 4.0f32.to_bits()), catalog());
    assert_eq!(store.snapshot_gamepad(), GamepadCommand::default());
    assert_eq!(store.snapshot_touch(), None);
    assert_eq!(store.area_size(), AreaSize::new(3.0f32.to_bits(), 4.0f32.to_bits()));
    assert_eq!(store.catalog().len(), 2);
    assert_eq!(store.catalog().get(0).unwrap().id(), "save");
}

#[test]
fn snapshot_returns_last_gamepad_update() {
    let mut store = StateStore::new(AreaSize::unit(), ActionList::default());
    let updates = [
        command(0.1, 0.2, 0.3, 0.4),
        command(0.5, -0.5, 0.0, 0.0),
        command(-1.0, 1.0, -1.0, 1.0),
    ];
    for update in updates {
        store.update_gamepad(update);
        assert_eq!(store.snapshot_gamepad(), update);
        // A second read sees the same value: reading changes nothing.
        assert_eq!(store.snapshot_gamepad(), update);
    }
    assert_eq!(store.snapshot_gamepad(), command(-1.0, 1.0, -1.0, 1.0));
}

#[test]
fn snapshot_touch_is_none_then_most_recent() {
    let mut store = StateStore::new(AreaSize::unit(), ActionList::default());
    assert_eq!(store.snapshot_touch(), None);
    store.update_touch(touch(640.0, 480.0, 10.0, 20.0, 30.0, 40.0));
    assert_eq!(store.snapshot_touch(), Some(touch(640.0, 480.0, 10.0, 20.0, 30.0, 40.0)));
    store.update_touch(touch(800.0, 600.0, 1.0, 2.0, 3.0, 4.0));
    assert_eq!(store.snapshot_touch(), Some(touch(800.0, 600.0, 1.0, 2.0, 3.0, 4.0)));
}

#[test]
fn touch_is_replaced_whole() {
    let mut store = StateStore::new(AreaSize::unit(), ActionList::default());
    store.update_touch(touch(640.0, 480.0, 10.0, 20.0, 30.0, 40.0));
    store.update_touch(touch(0.0, 0.0, 0.0, 0.0, 0.0, 5.0));
    let latest = store.snapshot_touch().unwrap();
    assert_eq!(f32::from_bits(latest.width), 0.0);
    assert_eq!(f32::from_bits(latest.down_x), 0.0);
    assert_eq!(f32::from_bits(latest.up_y), 5.0);
}

#[test]
fn gamepad_and_touch_do_not_disturb_each_other() {
    let mut store = StateStore::new(AreaSize::new(7, 9), catalog());
    store.update_gamepad(command(0.5, -0.5, 0.0, 0.0));
    store.update_touch(touch(640.0, 480.0, 10.0, 20.0, 30.0, 40.0));
    assert_eq!(store.snapshot_gamepad(), command(0.5, -0.5, 0.0, 0.0));
    store.update_gamepad(command(1.0, 1.0, 1.0, 1.0));
    assert_eq!(store.snapshot_touch(), Some(touch(640.0, 480.0, 10.0, 20.0, 30.0, 40.0)));
    assert_eq!(store.area_size(), AreaSize::new(7, 9));
    assert_eq!(store.catalog().len(), 2);
}

#[test]
fn controller_cell_of_store_writes_through() {
    let mut store = StateStore::new(AreaSize::unit(), ActionList::default());
    store.update_touch(touch(1.0, 2.0, 3.0, 4.0, 5.0, 6.0));
    store.controller_mut().update(command(0.5, 0.25, 0.0, -0.25));
    assert_eq!(store.snapshot_gamepad(), command(0.5, 0.25, 0.0, -0.25));
    assert_eq!(store.snapshot_touch(), Some(touch(1.0, 2.0, 3.0, 4.0, 5.0, 6.0)));
}

#[test]
fn bit_patterns_survive_unchanged() {
    // Not-a-number and the negative zero are stored as they came.
    let odd = GamepadCommand::new(f32::NAN.to_bits(), (-0.0f32).to_bits(), u32::MAX, 1);
    let mut store = StateStore::new(AreaSize::unit(), ActionList::default());
    store.update_gamepad(odd);
    let back = store.snapshot_gamepad();
    assert_eq!(back.left_x, f32::NAN.to_bits());
    assert_eq!(back.left_y, 0x8000_0000);
    assert_eq!(back.right_x, u32::MAX);
    assert_eq!(back.right_y, 1);
}

#[test]
fn copy_of_catalog_lists_the_same_actions() {
    let list = catalog();
    let copy = list.clone();
    assert_eq!(copy.len(), 2);
    assert_eq!(copy.get(0).unwrap().id(), "save");
    assert_eq!(copy.get(0).unwrap().description(), "Save current position");
    assert_eq!(copy.get(1).unwrap().id(), "load");
    let action = list.get(1).unwrap().clone();
    assert_eq!(action.id(), "load");
    assert_eq!(action.description(), "Load current position");
}

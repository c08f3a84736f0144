use remote_controller::handle::poll_outcome;
use remote_controller::{
    Action, ActionList, AreaSize, CanvasTouch, ControllerState, Disconnected, Frame,
    GamepadCommand, QueueError, Session, SessionAction, SessionEvent, StateHandle,
};

fn command(lx: f32, ly: f32, rx: f32, ry: f32) -> GamepadCommand {
    GamepadCommand::new(lx.to_bits(), ly.to_bits(), rx.to_bits(), ry.to_bits())
}

fn handle_with_two_actions() -> StateHandle {
    StateHandle::with_map(
        AreaSize::new(1.0f32.to_bits(), 2.0f32.to_bits()),
        ActionList::new(vec![
            Action::new(String::from("save"), String::from("Save current position")),
            Action::new(String::from("load"), String::from("Load current position")),
        ]),
    )
}

#[test]
fn default_handle_has_unit_area_and_no_actions() {
    let mut handle = StateHandle::default();
    assert_eq!(handle.store().area_size(), AreaSize::unit());
    assert_eq!(handle.store().catalog().len(), 0);
    assert_eq!(handle.get_last_gamepad_command(), GamepadCommand::default());
    assert_eq!(handle.get_latest_canvas_touch(), None);
    assert_eq!(handle.check_new_actions(), Ok(None));
    assert!(handle.actions().is_open());
}

#[test]
fn handle_with_map_publishes_its_configuration() {
    let handle = handle_with_two_actions();
    let area = handle.store().area_size();
    assert_eq!(f32::from_bits(area.width), 1.0);
    assert_eq!(f32::from_bits(area.height), 2.0);
    let catalog = handle.store().catalog();
    assert_eq!(catalog.len(), 2);
    assert_eq!(catalog.get(0).unwrap().id(), "save");
    assert_eq!(catalog.get(0).unwrap().description(), "Save current position");
    assert_eq!(catalog.get(1).unwrap().id(), "load");
}

#[test]
fn handle_reads_what_was_written_to_its_store() {
    let mut handle = handle_with_two_actions();
    handle.store_mut().update_gamepad(command(0.5, -0.5, 0.0, 0.0));
    assert_eq!(handle.get_last_gamepad_command(), command(0.5, -0.5, 0.0, 0.0));
    let touch = CanvasTouch {
        width: 640.0f32.to_bits(),
        height: 480.0f32.to_bits(),
        down_x: 1.0f32.to_bits(),
        down_y: 2.0f32.to_bits(),
        up_x: 3.0f32.to_bits(),
        up_y: 4.0f32.to_bits(),
    };
    handle.store_mut().update_touch(touch);
    assert_eq!(handle.get_latest_canvas_touch(), Some(touch));
    assert_eq!(handle.get_last_gamepad_command(), command(0.5, -0.5, 0.0, 0.0));
}

#[test]
fn handle_over_given_parts_keeps_them() {
    let mut store = remote_controller::StateStore::new(AreaSize::new(5, 6), ActionList::default());
    store.update_gamepad(command(1.0, 0.0, 0.0, 0.0));
    let mut queue = remote_controller::ActionQueue::new();
    assert_eq!(queue.submit(String::from("save")), Ok(()));
    let mut handle = StateHandle::new(store, queue);
    assert_eq!(handle.get_last_gamepad_command(), command(1.0, 0.0, 0.0, 0.0));
    assert_eq!(handle.store().area_size(), AreaSize::new(5, 6));
    assert_eq!(handle.check_new_actions(), Ok(Some(String::from("save"))));
    assert_eq!(handle.check_new_actions(), Ok(None));
}

#[test]
fn polling_yields_save_then_load_then_nothing() {
    let mut handle = handle_with_two_actions();
    assert_eq!(handle.actions_mut().submit(String::from("save")), Ok(()));
    assert_eq!(handle.actions_mut().submit(String::from("load")), Ok(()));
    assert_eq!(handle.check_new_actions(), Ok(Some(String::from("save"))));
    assert_eq!(handle.check_new_actions(), Ok(Some(String::from("load"))));
    assert_eq!(handle.check_new_actions(), Ok(None));
    assert_eq!(handle.check_new_actions(), Ok(None));
}

#[test]
fn polling_reports_disconnected_after_shutdown() {
    let mut handle = handle_with_two_actions();
    assert_eq!(handle.actions_mut().submit(String::from("save")), Ok(()));
    handle.actions_mut().close_producer();
    assert_eq!(handle.check_new_actions(), Ok(Some(String::from("save"))));
    assert_eq!(handle.check_new_actions(), Err(Disconnected));
    assert_eq!(handle.check_new_actions(), Err(Disconnected));
    assert_eq!(Disconnected.message(), "Sender disconnected");
}

#[test]
fn submitting_fails_cleanly_once_the_consumer_is_gone() {
    let mut handle = handle_with_two_actions();
    assert_eq!(handle.actions_mut().submit(String::from("save")), Ok(()));
    handle.actions_mut().close_consumer();
    assert!(!handle.actions().is_open());
    assert_eq!(handle.actions_mut().submit(String::from("load")), Err(QueueError::QueueClosed));
    assert_eq!(handle.check_new_actions(), Ok(None));
}

#[test]
fn polling_leaves_the_store_alone() {
    let mut handle = handle_with_two_actions();
    handle.store_mut().update_gamepad(command(0.5, 0.5, 0.5, 0.5));
    assert_eq!(handle.actions_mut().submit(String::from("save")), Ok(()));
    assert_eq!(handle.check_new_actions(), Ok(Some(String::from("save"))));
    assert_eq!(handle.get_last_gamepad_command(), command(0.5, 0.5, 0.5, 0.5));
    assert_eq!(handle.store().catalog().len(), 2);
}

#[test]
fn session_writes_into_the_store_of_the_handle() {
    let mut handle = handle_with_two_actions();
    let mut session = Session::new(0);
    let cell: &mut ControllerState = handle.store_mut().controller_mut();
    assert_eq!(session.step(0, SessionEvent::Started, cell), SessionAction::Nothing);
    let frame = Frame::Command(command(0.5, -0.5, 0.0, 0.0));
    assert_eq!(session.step(10, SessionEvent::Received(frame), cell), SessionAction::Nothing);
    assert_eq!(handle.get_last_gamepad_command(), command(0.5, -0.5, 0.0, 0.0));
}

#[test]
fn poll_outcome_passes_identifiers_on_and_renames_the_error() {
    assert_eq!(poll_outcome(Ok(Some(String::from("save")))), Ok(Some(String::from("save"))));
    assert_eq!(poll_outcome(Ok(None)), Ok(None));
    assert_eq!(poll_outcome(Err(QueueError::ProducerGone)), Err(Disconnected));
    assert_eq!(poll_outcome(Err(QueueError::QueueClosed)), Err(Disconnected));
}

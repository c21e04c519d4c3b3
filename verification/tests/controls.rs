use parametric_surface::controls::{loop_action, Axis, Controls, Input, Key, LoopAction, Reaction};

#[test]
fn controls_start_with_the_quad_shown_and_the_surface_at_rest() {
    assert_eq!(
        Controls::new(),
        Controls { pressed: false, play: false, show: true, axis: Axis::Z }
    );
}

#[test]
fn released_keys_flip_the_switches() {
    let mut controls = Controls::new();
    let release = |key| Input::Keyboard { key, pressed: false };
    assert_eq!(controls.handle(release(Key::Space)), Reaction::Ignore);
    assert!(controls.play);
    assert_eq!(controls.handle(release(Key::Space)), Reaction::Ignore);
    assert!(!controls.play);
    assert_eq!(controls.handle(release(Key::P)), Reaction::Ignore);
    assert!(!controls.show);
    assert_eq!(controls.handle(release(Key::Key1)), Reaction::Ignore);
    assert_eq!(controls.axis, Axis::X);
    assert_eq!(controls.handle(release(Key::Key2)), Reaction::Ignore);
    assert_eq!(controls.axis, Axis::Y);
    assert_eq!(controls.handle(release(Key::Key3)), Reaction::Ignore);
    assert_eq!(controls.axis, Axis::Z);
    assert_eq!(controls, Controls { pressed: false, play: false, show: false, axis: Axis::Z });
}

#[test]
fn pressed_keys_change_nothing() {
    let mut controls = Controls::new();
    for key in [Key::Space, Key::P, Key::R, Key::Key1, Key::Key2, Key::Escape, Key::Other] {
        assert_eq!(controls.handle(Input::Keyboard { key, pressed: true }), Reaction::Ignore);
        assert_eq!(controls, Controls::new());
    }
}

#[test]
fn released_r_asks_for_a_reload() {
    let mut controls = Controls::new();
    assert_eq!(controls.handle(Input::Keyboard { key: Key::R, pressed: false }), Reaction::Reload);
    assert_eq!(controls, Controls::new());
}

#[test]
fn mouse_turns_the_camera_while_the_left_button_is_down() {
    let mut controls = Controls::new();
    assert_eq!(controls.handle(Input::MouseMotion), Reaction::Ignore);
    assert_eq!(controls.handle(Input::MouseButton { left: false, pressed: true }), Reaction::Ignore);
    assert!(!controls.pressed);
    assert_eq!(controls.handle(Input::MouseButton { left: true, pressed: true }), Reaction::Ignore);
    assert!(controls.pressed);
    assert_eq!(controls.handle(Input::MouseMotion), Reaction::Orbit);
    assert_eq!(controls.handle(Input::MouseButton { left: true, pressed: false }), Reaction::Ignore);
    assert!(!controls.pressed);
    assert_eq!(controls.handle(Input::MouseMotion), Reaction::Ignore);
}

#[test]
fn pressing_another_button_ends_the_drag() {
    let mut controls = Controls::new();
    controls.handle(Input::MouseButton { left: true, pressed: true });
    controls.handle(Input::MouseButton { left: false, pressed: true });
    assert!(!controls.pressed);
}

#[test]
fn wheel_zooms_and_a_new_size_resizes_the_camera() {
    let mut controls = Controls::new();
    assert_eq!(controls.handle(Input::MouseWheel), Reaction::Zoom);
    assert_eq!(
        controls.handle(Input::Resized { width: 640, height: 480 }),
        Reaction::ResizeCamera
    );
    assert_eq!(controls.handle(Input::RedrawRequested), Reaction::Ignore);
    assert_eq!(controls.handle(Input::Other), Reaction::Ignore);
    assert_eq!(controls, Controls::new());
}

#[test]
fn event_loop_answers_each_input() {
    assert_eq!(
        loop_action(Input::Resized { width: 3, height: 0 }),
        LoopAction::Resize { width: 3, height: 0 }
    );
    assert_eq!(loop_action(Input::CloseRequested), LoopAction::Exit);
    assert_eq!(loop_action(Input::Keyboard { key: Key::Escape, pressed: true }), LoopAction::Exit);
    assert_eq!(
        loop_action(Input::Keyboard { key: Key::Escape, pressed: false }),
        LoopAction::Proceed
    );
    assert_eq!(loop_action(Input::Keyboard { key: Key::R, pressed: true }), LoopAction::Proceed);
    assert_eq!(loop_action(Input::RedrawRequested), LoopAction::Render);
    assert_eq!(loop_action(Input::RedrawEventsCleared), LoopAction::RequestRedraw);
    assert_eq!(loop_action(Input::MouseMotion), LoopAction::Proceed);
    assert_eq!(loop_action(Input::MouseWheel), LoopAction::Proceed);
    assert_eq!(loop_action(Input::Other), LoopAction::Proceed);
}

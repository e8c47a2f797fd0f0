use fly_camera::action::{Action, Axis, Quantity, Step};
use fly_camera::keys::{ElementState, InputEvent, Key};
use fly_camera::motion::tick_table;
use fly_camera::{Camera, CameraController};

fn step(quantity: Quantity, reverse: bool) -> Step {
    Step { quantity, reverse }
}

fn holding(actions: &[Action]) -> CameraController {
    let mut controller = CameraController::new();
    for action in actions {
        controller.set_pressed(*action, true);
    }
    controller
}

fn net(steps: &[Step], quantity: Quantity) -> i64 {
    let mut total = 0;
    for step in steps {
        if step.quantity == quantity {
            total += if step.reverse { -1 } else { 1 };
        }
    }
    total
}

/// A camera in numbers, for the tests that follow a few ticks through.
struct Pose {
    pos: [f32; 3],
    rot: [[f32; 4]; 4],
    scale: f32,
    yaw: f32,
    pitch: f32,
}

fn pose() -> Pose {
    Pose { pos: [0.0; 3], rot: [[0.0; 4]; 4], scale: 1.0, yaw: 0.0, pitch: 0.0 }
}

/// One tick: the rotation from the two angles, then the controller's steps.
fn tick(controller: &CameraController, pose: &mut Pose, speed: f32, turn: f32, factor: f32) {
    let (pitch_sin, pitch_cos) = pose.pitch.sin_cos();
    let (yaw_sin, yaw_cos) = pose.yaw.sin_cos();
    pose.rot = [
        [yaw_cos, 0.0, yaw_sin, 0.0],
        [pitch_sin * yaw_sin, pitch_cos, -pitch_sin * yaw_cos, 0.0],
        [pitch_cos * -yaw_sin, pitch_sin, pitch_cos * yaw_cos, 0.0],
        [0.0, 0.0, 0.0, 1.0],
    ];
    for step in controller.update_camera() {
        match step.quantity {
            Quantity::Position(axis) => {
                let speed = if step.reverse { speed * -1.0 } else { speed };
                let row = pose.rot[axis.row()];
                pose.pos[0] += speed * row[0] * pose.scale;
                pose.pos[1] += speed * row[1] * pose.scale;
                pose.pos[2] += speed * row[2] * pose.scale;
            }
            Quantity::Pitch => pose.pitch += if step.reverse { -turn } else { turn },
            Quantity::Yaw => pose.yaw += if step.reverse { -turn } else { turn },
            Quantity::Scale => pose.scale *= if step.reverse { 1.0 / factor } else { factor },
        }
    }
}

fn close(a: f32, b: f32) -> bool {
    (a - b).abs() <= 1e-5
}

#[test]
fn idle_tick_takes_no_step() {
    assert_eq!(CameraController::new().update_camera(), vec![]);
}

#[test]
fn each_action_takes_its_own_step() {
    let cases = [
        (Action::Forward, step(Quantity::Position(Axis::Longitudinal), false)),
        (Action::Backward, step(Quantity::Position(Axis::Longitudinal), true)),
        (Action::Left, step(Quantity::Position(Axis::Lateral), true)),
        (Action::Right, step(Quantity::Position(Axis::Lateral), false)),
        (Action::Up, step(Quantity::Position(Axis::Vertical), false)),
        (Action::Down, step(Quantity::Position(Axis::Vertical), true)),
        (Action::YawLeft, step(Quantity::Yaw, false)),
        (Action::YawRight, step(Quantity::Yaw, true)),
        (Action::PitchUp, step(Quantity::Pitch, false)),
        (Action::PitchDown, step(Quantity::Pitch, true)),
        (Action::ScaleUp, step(Quantity::Scale, false)),
        (Action::ScaleDown, step(Quantity::Scale, true)),
    ];
    for (action, expected) in cases {
        assert_eq!(action.step(), expected, "{:?}", action);
        assert_eq!(holding(&[action]).update_camera(), vec![expected], "{:?}", action);
    }
}

#[test]
fn all_actions_take_twelve_steps_in_order() {
    let controller = holding(&[
        Action::ScaleDown,
        Action::ScaleUp,
        Action::YawLeft,
        Action::YawRight,
        Action::PitchUp,
        Action::PitchDown,
        Action::Up,
        Action::Down,
        Action::Forward,
        Action::Backward,
        Action::Right,
        Action::Left,
    ]);
    assert_eq!(
        controller.update_camera(),
        vec![
            step(Quantity::Position(Axis::Lateral), true),
            step(Quantity::Position(Axis::Lateral), false),
            step(Quantity::Position(Axis::Longitudinal), true),
            step(Quantity::Position(Axis::Longitudinal), false),
            step(Quantity::Position(Axis::Vertical), true),
            step(Quantity::Position(Axis::Vertical), false),
            step(Quantity::Pitch, true),
            step(Quantity::Pitch, false),
            step(Quantity::Yaw, true),
            step(Quantity::Yaw, false),
            step(Quantity::Scale, false),
            step(Quantity::Scale, true),
        ]
    );
}

#[test]
fn steps_keep_the_order_of_the_tick() {
    let controller = holding(&[Action::ScaleUp, Action::Up, Action::YawRight, Action::Left]);
    assert_eq!(
        controller.update_camera(),
        vec![
            step(Quantity::Position(Axis::Lateral), true),
            step(Quantity::Position(Axis::Vertical), false),
            step(Quantity::Yaw, true),
            step(Quantity::Scale, false),
        ]
    );
}

#[test]
fn update_leaves_the_flags_as_they_are() {
    let controller = holding(&[Action::Forward, Action::PitchUp]);
    let first = controller.update_camera();
    let second = controller.update_camera();
    assert_eq!(first, second);
    assert!(controller.is_pressed(Action::Forward));
    assert!(controller.is_pressed(Action::PitchUp));
}

#[test]
fn tick_table_is_the_order_of_the_steps() {
    assert_eq!(
        tick_table(),
        [
            Action::Left,
            Action::Right,
            Action::Backward,
            Action::Forward,
            Action::Down,
            Action::Up,
            Action::PitchDown,
            Action::PitchUp,
            Action::YawRight,
            Action::YawLeft,
            Action::ScaleUp,
            Action::ScaleDown,
        ]
    );
}

#[test]
fn idle_tick_at_rest_agrees_with_the_default_camera() {
    let controller = CameraController::new();
    let mut pose = pose();
    tick(&controller, &mut pose, 0.05, 0.02, 1.01);
    let camera = Camera::default();
    for r in 0..4 {
        for c in 0..4 {
            assert_eq!(pose.rot[r][c], f32::from_bits(camera.rot[r][c]));
        }
    }
    for k in 0..3 {
        assert_eq!(pose.pos[k], f32::from_bits(camera.pos[k]));
    }
    assert_eq!(pose.scale, f32::from_bits(camera.scale));
}

#[test]
fn axes_name_the_rows_of_the_rotation() {
    assert_eq!(Axis::Lateral.row(), 0);
    assert_eq!(Axis::Vertical.row(), 1);
    assert_eq!(Axis::Longitudinal.row(), 2);
}

#[test]
fn opposite_moves_take_both_steps_and_cancel() {
    let pairs = [
        (Action::Left, Action::Right, Axis::Lateral),
        (Action::Backward, Action::Forward, Axis::Longitudinal),
        (Action::Down, Action::Up, Axis::Vertical),
    ];
    for (lower, raise, axis) in pairs {
        let steps = holding(&[raise, lower]).update_camera();
        assert_eq!(
            steps,
            vec![step(Quantity::Position(axis), true), step(Quantity::Position(axis), false)]
        );
        assert_eq!(net(&steps, Quantity::Position(axis)), 0);
    }
}

#[test]
fn opposite_turns_and_scalings_cancel() {
    let steps = holding(&[Action::PitchUp, Action::PitchDown]).update_camera();
    assert_eq!(steps, vec![step(Quantity::Pitch, true), step(Quantity::Pitch, false)]);
    let steps = holding(&[Action::YawLeft, Action::YawRight]).update_camera();
    assert_eq!(steps, vec![step(Quantity::Yaw, true), step(Quantity::Yaw, false)]);
    let steps = holding(&[Action::ScaleUp, Action::ScaleDown]).update_camera();
    assert_eq!(steps, vec![step(Quantity::Scale, false), step(Quantity::Scale, true)]);
}

#[test]
fn opposite_moves_leave_the_position() {
    let controller = holding(&[Action::Left, Action::Right, Action::Up, Action::Down]);
    let mut pose = pose();
    pose.pos = [1.5, -2.0, 0.25];
    pose.yaw = 0.7;
    pose.pitch = -0.3;
    tick(&controller, &mut pose, 0.05, 0.02, 1.01);
    assert!(close(pose.pos[0], 1.5));
    assert!(close(pose.pos[1], -2.0));
    assert!(close(pose.pos[2], 0.25));
}

#[test]
fn idle_tick_at_rest_gives_the_identity() {
    let controller = CameraController::new();
    let mut pose = pose();
    pose.pos = [3.0, 4.0, 5.0];
    tick(&controller, &mut pose, 0.05, 0.02, 1.01);
    for r in 0..4 {
        for c in 0..4 {
            assert_eq!(pose.rot[r][c], if r == c { 1.0 } else { 0.0 });
        }
    }
    assert_eq!(pose.pos, [3.0, 4.0, 5.0]);
    assert_eq!(pose.yaw, 0.0);
    assert_eq!(pose.pitch, 0.0);
    assert_eq!(pose.scale, 1.0);
}

#[test]
fn scale_up_then_down_returns() {
    let mut pose = pose();
    pose.scale = 2.5;
    tick(&holding(&[Action::ScaleUp]), &mut pose, 0.05, 0.02, 1.01);
    assert!(close(pose.scale, 2.5 * 1.01));
    tick(&holding(&[Action::ScaleDown]), &mut pose, 0.05, 0.02, 1.01);
    assert!(close(pose.scale, 2.5));
}

#[test]
fn scale_down_then_up_returns() {
    let mut pose = pose();
    pose.scale = 0.75;
    tick(&holding(&[Action::ScaleDown]), &mut pose, 0.05, 0.02, 1.01);
    assert!(close(pose.scale, 0.75 / 1.01));
    tick(&holding(&[Action::ScaleUp]), &mut pose, 0.05, 0.02, 1.01);
    assert!(close(pose.scale, 0.75));
}

#[test]
fn scale_steps_of_two_ticks_add_up_to_nothing() {
    let mut steps = holding(&[Action::ScaleUp, Action::Forward]).update_camera();
    steps.extend(holding(&[Action::ScaleDown, Action::YawLeft]).update_camera());
    assert_eq!(net(&steps, Quantity::Scale), 0);
}

#[test]
fn yaw_left_accumulates_without_bound() {
    let controller = holding(&[Action::YawLeft]);
    let mut pose = pose();
    let mut steps = Vec::new();
    let ticks = 500;
    for _ in 0..ticks {
        tick(&controller, &mut pose, 0.05, 0.02, 1.01);
        steps.extend(controller.update_camera());
    }
    assert_eq!(net(&steps, Quantity::Yaw), 500);
    assert!((pose.yaw - 0.02 * 500.0).abs() < 1e-3);
    assert!(pose.yaw > std::f32::consts::PI);
    let before = pose.yaw;
    tick(&controller, &mut pose, 0.05, 0.02, 1.01);
    assert!(close(pose.rot[0][0], before.cos()));
    assert!(close(pose.rot[0][2], before.sin()));
    assert!(close(pose.rot[2][0], -before.sin()));
    assert!(close(pose.rot[2][2], before.cos()));
}

#[test]
fn forward_moves_along_the_forward_row() {
    let mut controller = CameraController::new();
    let w = InputEvent::Keyboard { state: ElementState::Pressed, key: Some(Key::W) };
    assert!(controller.process_events(&w));
    let mut pose = pose();
    tick(&controller, &mut pose, 0.05, 0.02, 1.01);
    let forward = pose.rot[Axis::Longitudinal.row()];
    assert!(close(pose.pos[0], 0.05 * forward[0]));
    assert!(close(pose.pos[1], 0.05 * forward[1]));
    assert!(close(pose.pos[2], 0.05 * forward[2]));
    assert!(close(pose.pos[0], 0.0));
    assert!(close(pose.pos[1], 0.0));
    assert!(close(pose.pos[2], 0.05));
}

#[test]
fn movement_is_multiplied_by_the_scale() {
    let controller = holding(&[Action::Right]);
    let mut pose = pose();
    pose.scale = 4.0;
    tick(&controller, &mut pose, 0.05, 0.02, 1.01);
    assert!(close(pose.pos[0], 0.2));
    assert!(close(pose.pos[1], 0.0));
    assert!(close(pose.pos[2], 0.0));
}

#[test]
fn pitch_down_lowers_the_pitch() {
    let controller = holding(&[Action::PitchDown]);
    let mut pose = pose();
    tick(&controller, &mut pose, 0.05, 0.02, 1.01);
    tick(&controller, &mut pose, 0.05, 0.02, 1.01);
    assert!(close(pose.pitch, -0.04));
    assert_eq!(pose.yaw, 0.0);
}

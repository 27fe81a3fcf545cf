use camera_control::{Axis, CameraController, Intent, Step};
use winit::keyboard::KeyCode;

fn holding(codes: &[KeyCode]) -> CameraController {
    let mut controller = CameraController::new();
    for &code in codes {
        assert!(controller.handle_key(code, true));
    }
    controller
}

fn translate(axis: Axis, positive: bool) -> Step {
    Step::Translate { axis, positive }
}

fn rotate(axis: Axis, positive: bool) -> Step {
    Step::Rotate { axis, positive }
}

const ALL_KEYS: [KeyCode; 10] = [
    KeyCode::KeyQ,
    KeyCode::KeyE,
    KeyCode::ArrowDown,
    KeyCode::ArrowUp,
    KeyCode::ArrowRight,
    KeyCode::ArrowLeft,
    KeyCode::KeyD,
    KeyCode::KeyA,
    KeyCode::KeyS,
    KeyCode::KeyW,
];

/// A pose in whole numbers, and the vectors of one frame.
#[derive(Clone, Copy, Debug, PartialEq, Eq)]
struct Pose {
    eye: [i64; 3],
    target: [i64; 3],
}

fn plus(a: [i64; 3], b: [i64; 3], sign: i64) -> [i64; 3] {
    [a[0] + sign * b[0], a[1] + sign * b[1], a[2] + sign * b[2]]
}

fn shift(axis: Axis) -> [i64; 3] {
    match axis {
        Axis::Forward => [3, 0, 4],
        Axis::Right => [4, 0, -3],
        Axis::Up => [0, 5, 0],
    }
}

fn turned(axis: Axis, positive: bool) -> [i64; 3] {
    match (axis, positive) {
        (Axis::Up, true) => [70, 0, 71],
        (Axis::Up, false) => [71, 0, 70],
        (Axis::Right, true) => [60, 10, 80],
        (Axis::Right, false) => [60, -10, 80],
        (Axis::Forward, _) => [0, 0, 0],
    }
}

fn run(mut pose: Pose, steps: &[Step]) -> Pose {
    for &step in steps {
        match step {
            Step::Translate { axis, positive } => {
                let sign = if positive { 1 } else { -1 };
                pose.eye = plus(pose.eye, shift(axis), sign);
                pose.target = plus(pose.target, shift(axis), sign);
            }
            Step::Rotate { axis, positive } => {
                pose.target = plus(pose.eye, turned(axis, positive), 1);
            }
        }
    }
    pose
}

const START: Pose = Pose { eye: [0, 10, 20], target: [60, 10, 100] };

#[test]
fn idle_frame_has_no_steps() {
    let controller = CameraController::new();
    assert_eq!(controller.update_steps(true), vec![]);
    assert_eq!(controller.update_steps(false), vec![]);
    assert_eq!(run(START, &controller.update_steps(true)), START);
}

#[test]
fn frame_after_every_key_was_released_has_no_steps() {
    let mut controller = holding(&ALL_KEYS);
    for &code in ALL_KEYS.iter() {
        assert!(controller.handle_key(code, false));
    }
    assert_eq!(controller.update_steps(true), vec![]);
}

#[test]
fn forward_alone_with_the_target_far_is_one_step_forward() {
    let controller = holding(&[KeyCode::KeyW]);
    let steps = controller.update_steps(true);
    assert_eq!(steps, vec![translate(Axis::Forward, true)]);
    let after = run(START, &steps);
    assert_eq!(after.eye, [3, 10, 24]);
    assert_eq!(after.target, [63, 10, 104]);
    assert_eq!(plus(after.target, after.eye, -1), plus(START.target, START.eye, -1));
}

#[test]
fn forward_alone_with_the_target_near_does_nothing() {
    let controller = holding(&[KeyCode::KeyW]);
    let steps = controller.update_steps(false);
    assert_eq!(steps, vec![]);
    assert_eq!(run(START, &steps), START);
}

#[test]
fn backward_has_no_guard() {
    let controller = holding(&[KeyCode::KeyS]);
    assert_eq!(controller.update_steps(true), vec![translate(Axis::Forward, false)]);
    assert_eq!(controller.update_steps(false), vec![translate(Axis::Forward, false)]);
    let after = run(START, &controller.update_steps(false));
    assert_eq!(after.eye, [-3, 10, 16]);
    assert_eq!(after.target, [57, 10, 96]);
}

#[test]
fn yaw_left_alone_pivots_about_the_eye() {
    let controller = holding(&[KeyCode::ArrowLeft]);
    let steps = controller.update_steps(true);
    assert_eq!(steps, vec![rotate(Axis::Up, true)]);
    assert_eq!(controller.update_steps(false), steps);
    let after = run(START, &steps);
    assert_eq!(after.eye, START.eye);
    assert_eq!(after.target, [70, 10, 91]);
}

#[test]
fn each_rotation_alone() {
    assert_eq!(holding(&[KeyCode::ArrowRight]).update_steps(true), vec![rotate(Axis::Up, false)]);
    assert_eq!(holding(&[KeyCode::ArrowUp]).update_steps(true), vec![rotate(Axis::Right, true)]);
    assert_eq!(
        holding(&[KeyCode::ArrowDown]).update_steps(true),
        vec![rotate(Axis::Right, false)]
    );
}

#[test]
fn each_translation_alone() {
    assert_eq!(holding(&[KeyCode::KeyA]).update_steps(true), vec![translate(Axis::Right, false)]);
    assert_eq!(holding(&[KeyCode::KeyD]).update_steps(true), vec![translate(Axis::Right, true)]);
    assert_eq!(holding(&[KeyCode::KeyE]).update_steps(true), vec![translate(Axis::Up, true)]);
    assert_eq!(holding(&[KeyCode::KeyQ]).update_steps(true), vec![translate(Axis::Up, false)]);
}

#[test]
fn opposite_strafes_cancel() {
    let controller = holding(&[KeyCode::KeyD, KeyCode::KeyA]);
    let steps = controller.update_steps(true);
    assert_eq!(steps, vec![translate(Axis::Right, false), translate(Axis::Right, true)]);
    assert_eq!(run(START, &steps), START);
}

#[test]
fn opposite_strafes_cancel_among_other_intents() {
    let with = holding(&[KeyCode::KeyD, KeyCode::KeyA, KeyCode::KeyW, KeyCode::ArrowUp, KeyCode::KeyQ]);
    let without = holding(&[KeyCode::KeyW, KeyCode::ArrowUp, KeyCode::KeyQ]);
    assert_eq!(run(START, &with.update_steps(true)), run(START, &without.update_steps(true)));
    assert_eq!(run(START, &with.update_steps(false)), run(START, &without.update_steps(false)));
}

#[test]
fn all_intents_come_in_frame_order() {
    let controller = holding(&ALL_KEYS);
    assert_eq!(
        controller.update_steps(true),
        vec![
            translate(Axis::Forward, true),
            translate(Axis::Forward, false),
            translate(Axis::Right, false),
            translate(Axis::Right, true),
            rotate(Axis::Up, true),
            rotate(Axis::Up, false),
            rotate(Axis::Right, true),
            rotate(Axis::Right, false),
            translate(Axis::Up, true),
            translate(Axis::Up, false),
        ]
    );
}

#[test]
fn the_guard_drops_the_forward_step_alone() {
    let controller = holding(&ALL_KEYS);
    assert_eq!(
        controller.update_steps(false),
        vec![
            translate(Axis::Forward, false),
            translate(Axis::Right, false),
            translate(Axis::Right, true),
            rotate(Axis::Up, true),
            rotate(Axis::Up, false),
            rotate(Axis::Right, true),
            rotate(Axis::Right, false),
            translate(Axis::Up, true),
            translate(Axis::Up, false),
        ]
    );
}

#[test]
fn rotations_do_not_add_up() {
    let controller = holding(&[KeyCode::ArrowLeft, KeyCode::ArrowUp]);
    let steps = controller.update_steps(true);
    assert_eq!(steps, vec![rotate(Axis::Up, true), rotate(Axis::Right, true)]);
    let after = run(START, &steps);
    assert_eq!(after.eye, START.eye);
    assert_eq!(after.target, plus(START.eye, turned(Axis::Right, true), 1));
}

#[test]
fn translations_add_up() {
    let controller = holding(&[KeyCode::KeyW, KeyCode::KeyD, KeyCode::KeyE]);
    let steps = controller.update_steps(true);
    assert_eq!(
        steps,
        vec![translate(Axis::Forward, true), translate(Axis::Right, true), translate(Axis::Up, true)]
    );
    let after = run(START, &steps);
    assert_eq!(after.eye, [7, 15, 21]);
    assert_eq!(after.target, [67, 15, 101]);
}

#[test]
fn a_translation_before_a_rotation_moves_the_pivot() {
    let controller = holding(&[KeyCode::KeyS, KeyCode::ArrowRight, KeyCode::KeyQ]);
    let steps = controller.update_steps(true);
    assert_eq!(
        steps,
        vec![translate(Axis::Forward, false), rotate(Axis::Up, false), translate(Axis::Up, false)]
    );
    let after = run(START, &steps);
    assert_eq!(after.eye, [-3, 5, 16]);
    assert_eq!(after.target, [68, 5, 86]);
}

#[test]
fn a_pressed_key_shows_in_the_next_frame() {
    let mut controller = CameraController::new();
    assert_eq!(controller.update_steps(true), vec![]);
    assert!(controller.handle_key(KeyCode::KeyE, true));
    assert_eq!(controller.update_steps(true), vec![translate(Axis::Up, true)]);
    assert_eq!(controller.update_steps(true), vec![translate(Axis::Up, true)]);
    assert!(controller.handle_key(KeyCode::KeyE, false));
    assert_eq!(controller.update_steps(true), vec![]);
}

#[test]
fn step_of_each_intent() {
    assert_eq!(Intent::Forward.step(), translate(Axis::Forward, true));
    assert_eq!(Intent::Backward.step(), translate(Axis::Forward, false));
    assert_eq!(Intent::StrafeLeft.step(), translate(Axis::Right, false));
    assert_eq!(Intent::StrafeRight.step(), translate(Axis::Right, true));
    assert_eq!(Intent::YawLeft.step(), rotate(Axis::Up, true));
    assert_eq!(Intent::YawRight.step(), rotate(Axis::Up, false));
    assert_eq!(Intent::PitchUp.step(), rotate(Axis::Right, true));
    assert_eq!(Intent::PitchDown.step(), rotate(Axis::Right, false));
    assert_eq!(Intent::MoveUp.step(), translate(Axis::Up, true));
    assert_eq!(Intent::MoveDown.step(), translate(Axis::Up, false));
}

const FRAME_ORDER: [Intent; 10] = [
    Intent::Forward,
    Intent::Backward,
    Intent::StrafeLeft,
    Intent::StrafeRight,
    Intent::YawLeft,
    Intent::YawRight,
    Intent::PitchUp,
    Intent::PitchDown,
    Intent::MoveUp,
    Intent::MoveDown,
];

fn holding_subset(subset: u32) -> CameraController {
    let mut controller = CameraController::new();
    for (place, &intent) in FRAME_ORDER.iter().enumerate() {
        if subset >> place & 1 == 1 {
            controller.set_held(intent, true);
        }
    }
    controller
}

#[test]
fn every_subset_lists_the_steps_of_its_intents_in_order() {
    for subset in 0..1024u32 {
        let controller = holding_subset(subset);
        for forward_clear in [false, true] {
            let mut expected = Vec::new();
            for (place, &intent) in FRAME_ORDER.iter().enumerate() {
                let held = subset >> place & 1 == 1;
                assert_eq!(controller.is_held(intent), held);
                if held && (intent != Intent::Forward || forward_clear) {
                    expected.push(intent.step());
                }
            }
            assert_eq!(controller.update_steps(forward_clear), expected);
        }
    }
}

#[test]
fn every_subset_adds_up() {
    for subset in 0..1024u32 {
        let controller = holding_subset(subset);
        for forward_clear in [false, true] {
            let count = |plus: Intent, minus: Intent, guarded: bool| -> i64 {
                let up = controller.is_held(plus) && (!guarded || forward_clear);
                i64::from(up) - i64::from(controller.is_held(minus))
            };
            let mut eye = START.eye;
            eye = plus(eye, shift(Axis::Forward), count(Intent::Forward, Intent::Backward, true));
            eye = plus(eye, shift(Axis::Right), count(Intent::StrafeRight, Intent::StrafeLeft, false));
            eye = plus(eye, shift(Axis::Up), count(Intent::MoveUp, Intent::MoveDown, false));
            let look = if controller.is_held(Intent::PitchDown) {
                turned(Axis::Right, false)
            } else if controller.is_held(Intent::PitchUp) {
                turned(Axis::Right, true)
            } else if controller.is_held(Intent::YawRight) {
                turned(Axis::Up, false)
            } else if controller.is_held(Intent::YawLeft) {
                turned(Axis::Up, true)
            } else {
                plus(START.target, START.eye, -1)
            };
            let after = run(START, &controller.update_steps(forward_clear));
            assert_eq!(after.eye, eye);
            assert_eq!(after.target, plus(eye, look, 1));
        }
    }
}

#[test]
fn without_forward_the_guard_changes_nothing() {
    for subset in 0..1024u32 {
        if subset & 1 == 0 {
            let controller = holding_subset(subset);
            assert_eq!(controller.update_steps(false), controller.update_steps(true));
        }
    }
}

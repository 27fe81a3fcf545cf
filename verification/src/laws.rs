//! What holds of key events and of frames in general.

use vstd::prelude::*;
use winit::keyboard::KeyCode;
use crate::controller::after_key;
use crate::intent::{intent_of_key, key_of_intent, Intent};
use crate::motion::{acts, frame_steps, step_of, steps_for, Axis, Step};
use crate::pose::{after_frame, apply_step, apply_steps, look_after, net_shift, Frame, Pose};

verus! {

/// The held intents when `intent` alone is held.
pub open spec fn only(intent: Intent) -> Set<Intent> {
    Set::<Intent>::empty().insert(intent)
}

/// Each intent has one key, and no other key is bound: a key is bound to an
/// intent exactly if it is the key of that intent.
pub proof fn lemma_bindings(code: KeyCode, intent: Intent)
    ensures
        intent_of_key(code) == Some(intent) <==> code == key_of_intent(intent),
{
}

/// Ten keys are bound and no other: W, S, A, D, the four arrows, E and Q.
pub proof fn lemma_bound_keys(code: KeyCode)
    ensures
        intent_of_key(code).is_some() <==> code == KeyCode::KeyW || code == KeyCode::KeyS || code
            == KeyCode::KeyA || code == KeyCode::KeyD || code == KeyCode::ArrowLeft || code
            == KeyCode::ArrowRight || code == KeyCode::ArrowUp || code == KeyCode::ArrowDown
            || code == KeyCode::KeyE || code == KeyCode::KeyQ,
{
}

/// A key event changes the intent of its key and no other; the event of a
/// key that is not bound changes nothing.
pub proof fn lemma_key_event_is_local(
    held: Set<Intent>,
    code: KeyCode,
    is_pressed: bool,
    intent: Intent,
)
    ensures
        intent_of_key(code) == Some(intent) ==> after_key(held, code, is_pressed).contains(intent)
            == is_pressed,
        intent_of_key(code) != Some(intent) ==> after_key(held, code, is_pressed).contains(intent)
            == held.contains(intent),
{
}

/// A key event that comes twice does what it does once.
pub proof fn lemma_key_event_idempotent(held: Set<Intent>, code: KeyCode, is_pressed: bool)
    ensures
        after_key(after_key(held, code, is_pressed), code, is_pressed) == after_key(
            held,
            code,
            is_pressed,
        ),
{
    let once = after_key(held, code, is_pressed);
    assert(after_key(once, code, is_pressed) =~= once);
}

/// Pressing a key and releasing it again leaves held what was held before,
/// but for the intent of that key, which is released.
pub proof fn lemma_press_then_release(held: Set<Intent>, code: KeyCode)
    ensures
        after_key(after_key(held, code, true), code, false) == after_key(held, code, false),
{
    let pressed = after_key(held, code, true);
    assert(after_key(pressed, code, false) =~= after_key(held, code, false));
}

/// Applying one sequence of steps after another is applying the two in one.
pub proof fn lemma_apply_steps_concat(
    pose: Pose,
    first: Seq<Step>,
    second: Seq<Step>,
    frame: Frame,
)
    ensures
        apply_steps(pose, first + second, frame) == apply_steps(
            apply_steps(pose, first, frame),
            second,
            frame,
        ),
    decreases second.len(),
{
    if second.len() == 0 {
        assert(first + second =~= first);
    } else {
        assert((first + second).drop_last() =~= first + second.drop_last());
        assert((first + second).last() == second.last());
        lemma_apply_steps_concat(pose, first, second.drop_last(), frame);
    }
}

/// What the steps of one more intent do to the pose that the steps before
/// them gave.
proof fn lemma_apply_next(
    pose: Pose,
    done: Seq<Step>,
    held: Set<Intent>,
    forward_clear: bool,
    intent: Intent,
    frame: Frame,
)
    ensures
        apply_steps(pose, done + steps_for(held, forward_clear, intent), frame) == if acts(
            held,
            forward_clear,
            intent,
        ) {
            apply_step(apply_steps(pose, done, frame), step_of(intent), frame)
        } else {
            apply_steps(pose, done, frame)
        },
{
    let next = steps_for(held, forward_clear, intent);
    lemma_apply_steps_concat(pose, done, next, frame);
    if acts(held, forward_clear, intent) {
        assert(next.drop_last() =~= Seq::<Step>::empty());
        assert(next.last() == step_of(intent));
        reveal_with_fuel(apply_steps, 2);
    }
}

/// The steps of the intents that move the camera in its own plane: the
/// first four of a frame.
spec fn level_steps(held: Set<Intent>, forward_clear: bool) -> Seq<Step> {
    steps_for(held, forward_clear, Intent::Forward)
        + steps_for(held, forward_clear, Intent::Backward)
        + steps_for(held, forward_clear, Intent::StrafeLeft)
        + steps_for(held, forward_clear, Intent::StrafeRight)
}

/// The steps of a frame up to the last of those that turn the view: the
/// first eight.
spec fn level_and_turn_steps(held: Set<Intent>, forward_clear: bool) -> Seq<Step> {
    level_steps(held, forward_clear)
        + steps_for(held, forward_clear, Intent::YawLeft)
        + steps_for(held, forward_clear, Intent::YawRight)
        + steps_for(held, forward_clear, Intent::PitchUp)
        + steps_for(held, forward_clear, Intent::PitchDown)
}

/// The first four steps move the eye, and leave the eye-to-target vector.
proof fn lemma_level_steps(pose: Pose, held: Set<Intent>, forward_clear: bool, frame: Frame)
    ensures
        apply_steps(pose, level_steps(held, forward_clear), frame).eye == pose.eye.plus(
            (frame.shift)(Axis::Forward).when(acts(held, forward_clear, Intent::Forward)),
        ).minus((frame.shift)(Axis::Forward).when(held.contains(Intent::Backward))).plus(
            (frame.shift)(Axis::Right).when(held.contains(Intent::StrafeRight)),
        ).minus((frame.shift)(Axis::Right).when(held.contains(Intent::StrafeLeft))),
        apply_steps(pose, level_steps(held, forward_clear), frame).look() == pose.look(),
{
    let s0 = Seq::<Step>::empty();
    let s1 = steps_for(held, forward_clear, Intent::Forward);
    let s2 = s1 + steps_for(held, forward_clear, Intent::Backward);
    let s3 = s2 + steps_for(held, forward_clear, Intent::StrafeLeft);
    assert(s0 + s1 =~= s1);
    lemma_apply_next(pose, s0, held, forward_clear, Intent::Forward, frame);
    lemma_apply_next(pose, s1, held, forward_clear, Intent::Backward, frame);
    lemma_apply_next(pose, s2, held, forward_clear, Intent::StrafeLeft, frame);
    lemma_apply_next(pose, s3, held, forward_clear, Intent::StrafeRight, frame);
}

/// The next four steps leave the eye, and the last of them that is applied
/// decides the eye-to-target vector.
proof fn lemma_turn_steps(pose: Pose, held: Set<Intent>, forward_clear: bool, frame: Frame)
    ensures
        apply_steps(pose, level_and_turn_steps(held, forward_clear), frame).eye == apply_steps(
            pose,
            level_steps(held, forward_clear),
            frame,
        ).eye,
        apply_steps(pose, level_and_turn_steps(held, forward_clear), frame).look() == look_after(
            held,
            apply_steps(pose, level_steps(held, forward_clear), frame).look(),
            frame,
        ),
{
    let s4 = level_steps(held, forward_clear);
    let s5 = s4 + steps_for(held, forward_clear, Intent::YawLeft);
    let s6 = s5 + steps_for(held, forward_clear, Intent::YawRight);
    let s7 = s6 + steps_for(held, forward_clear, Intent::PitchUp);
    lemma_apply_next(pose, s4, held, forward_clear, Intent::YawLeft, frame);
    lemma_apply_next(pose, s5, held, forward_clear, Intent::YawRight, frame);
    lemma_apply_next(pose, s6, held, forward_clear, Intent::PitchUp, frame);
    lemma_apply_next(pose, s7, held, forward_clear, Intent::PitchDown, frame);
}

/// The last two steps move the eye, and leave the eye-to-target vector.
proof fn lemma_lift_steps(pose: Pose, held: Set<Intent>, forward_clear: bool, frame: Frame)
    ensures
        after_frame(pose, held, forward_clear, frame).eye == apply_steps(
            pose,
            level_and_turn_steps(held, forward_clear),
            frame,
        ).eye.plus((frame.shift)(Axis::Up).when(held.contains(Intent::MoveUp))).minus(
            (frame.shift)(Axis::Up).when(held.contains(Intent::MoveDown)),
        ),
        after_frame(pose, held, forward_clear, frame).look() == apply_steps(
            pose,
            level_and_turn_steps(held, forward_clear),
            frame,
        ).look(),
{
    let s8 = level_and_turn_steps(held, forward_clear);
    let s9 = s8 + steps_for(held, forward_clear, Intent::MoveUp);
    lemma_apply_next(pose, s8, held, forward_clear, Intent::MoveUp, frame);
    lemma_apply_next(pose, s9, held, forward_clear, Intent::MoveDown, frame);
}

/// What a frame adds up to. The eye moves by the sum of the translations,
/// whatever their order. The eye-to-target vector is that of the last rotation
/// applied, or stays where none is held: a translation moves eye and target
/// alike, and a rotation pivots about the eye.
pub proof fn lemma_frame_adds_up(
    pose: Pose,
    held: Set<Intent>,
    forward_clear: bool,
    frame: Frame,
)
    ensures
        after_frame(pose, held, forward_clear, frame).eye == pose.eye.plus(
            net_shift(held, forward_clear, frame),
        ),
        after_frame(pose, held, forward_clear, frame).look() == look_after(
            held,
            pose.look(),
            frame,
        ),
        after_frame(pose, held, forward_clear, frame).target == pose.eye.plus(
            net_shift(held, forward_clear, frame),
        ).plus(look_after(held, pose.look(), frame)),
{
    lemma_level_steps(pose, held, forward_clear, frame);
    lemma_turn_steps(pose, held, forward_clear, frame);
    lemma_lift_steps(pose, held, forward_clear, frame);
}

/// A frame with no intent held applies no step, and the pose stays as it is.
pub proof fn lemma_idle_frame(pose: Pose, forward_clear: bool, frame: Frame)
    ensures
        frame_steps(Set::<Intent>::empty(), forward_clear) == Seq::<Step>::empty(),
        after_frame(pose, Set::<Intent>::empty(), forward_clear, frame) == pose,
{
    assert(frame_steps(Set::<Intent>::empty(), forward_clear) =~= Seq::<Step>::empty());
}

/// With `Forward` alone held and the target further away than one step, the
/// frame is one step forward: eye and target move by the same vector, and the
/// vector from eye to target stays as it is.
pub proof fn lemma_forward_alone(pose: Pose, frame: Frame)
    ensures
        frame_steps(only(Intent::Forward), true) == seq![step_of(Intent::Forward)],
        after_frame(pose, only(Intent::Forward), true, frame).eye == pose.eye.plus(
            (frame.shift)(Axis::Forward),
        ),
        after_frame(pose, only(Intent::Forward), true, frame).target == pose.target.plus(
            (frame.shift)(Axis::Forward),
        ),
        after_frame(pose, only(Intent::Forward), true, frame).look() == pose.look(),
{
    assert(frame_steps(only(Intent::Forward), true) =~= seq![step_of(Intent::Forward)]);
    lemma_frame_adds_up(pose, only(Intent::Forward), true, frame);
}

/// With `Forward` alone held and the target no further away than one step,
/// the frame applies no step: the guard keeps the eye from passing the
/// target.
pub proof fn lemma_forward_guard(pose: Pose, frame: Frame)
    ensures
        frame_steps(only(Intent::Forward), false) == Seq::<Step>::empty(),
        after_frame(pose, only(Intent::Forward), false, frame) == pose,
{
    assert(frame_steps(only(Intent::Forward), false) =~= Seq::<Step>::empty());
}

/// The guard is on `Forward` alone: where `Forward` is not held, the frame
/// applies the same steps whether the target is near or far.
pub proof fn lemma_guard_is_on_forward_alone(held: Set<Intent>)
    requires
        !held.contains(Intent::Forward),
    ensures
        frame_steps(held, false) == frame_steps(held, true),
{
}

/// With `YawLeft` alone held, the frame is one rotation about the up axis
/// by the positive angle: the eye stays, and the target goes to the eye plus
/// the turned eye-to-target vector.
pub proof fn lemma_yaw_left_alone(pose: Pose, forward_clear: bool, frame: Frame)
    ensures
        frame_steps(only(Intent::YawLeft), forward_clear) == seq![step_of(Intent::YawLeft)],
        step_of(Intent::YawLeft) == (Step::Rotate { axis: Axis::Up, positive: true }),
        after_frame(pose, only(Intent::YawLeft), forward_clear, frame).eye == pose.eye,
        after_frame(pose, only(Intent::YawLeft), forward_clear, frame).target == pose.eye.plus(
            (frame.turned)(Axis::Up, true),
        ),
{
    assert(frame_steps(only(Intent::YawLeft), forward_clear) =~= seq![step_of(Intent::YawLeft)]);
    lemma_frame_adds_up(pose, only(Intent::YawLeft), forward_clear, frame);
}

/// `StrafeLeft` and `StrafeRight` held together cancel, whatever else is
/// held: both move along the one right axis of the frame, so the pose after
/// the frame is the one that it would be with neither held.
pub proof fn lemma_strafes_cancel(
    pose: Pose,
    held: Set<Intent>,
    forward_clear: bool,
    frame: Frame,
)
    requires
        held.contains(Intent::StrafeLeft),
        held.contains(Intent::StrafeRight),
    ensures
        after_frame(pose, held, forward_clear, frame) == after_frame(
            pose,
            held.remove(Intent::StrafeLeft).remove(Intent::StrafeRight),
            forward_clear,
            frame,
        ),
        (forall|intent: Intent|
            held.contains(intent) ==> intent == Intent::StrafeLeft || intent
                == Intent::StrafeRight) ==> after_frame(pose, held, forward_clear, frame) == pose,
{
    let rest = held.remove(Intent::StrafeLeft).remove(Intent::StrafeRight);
    lemma_frame_adds_up(pose, held, forward_clear, frame);
    lemma_frame_adds_up(pose, rest, forward_clear, frame);
    let with = after_frame(pose, held, forward_clear, frame);
    let without = after_frame(pose, rest, forward_clear, frame);
    assert(with.eye == without.eye);
    assert(with.look() == without.look());
    assert(with.target == without.target);
    if forall|intent: Intent|
        held.contains(intent) ==> intent == Intent::StrafeLeft || intent == Intent::StrafeRight {
        assert(rest =~= Set::<Intent>::empty());
        lemma_idle_frame(pose, forward_clear, frame);
    }
}

} // verus!

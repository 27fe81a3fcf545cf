//! A model of the camera's pose in exact arithmetic, to state what the steps
//! of a frame add up to.
//!
//! A renderer works in floating point and meets these statements up to
//! rounding; where a frame applies no step at all, it meets them exactly.

use vstd::prelude::*;
use crate::intent::Intent;
use crate::motion::{acts, frame_steps, Axis, Step};

verus! {

/// A point or a displacement: three whole numbers of some fixed unit.
pub struct Vector3 {
    pub x: int,
    pub y: int,
    pub z: int,
}

impl Vector3 {
    pub open spec fn zero() -> Vector3 {
        Vector3 { x: 0, y: 0, z: 0 }
    }

    pub open spec fn plus(self, other: Vector3) -> Vector3 {
        Vector3 { x: self.x + other.x, y: self.y + other.y, z: self.z + other.z }
    }

    pub open spec fn minus(self, other: Vector3) -> Vector3 {
        Vector3 { x: self.x - other.x, y: self.y - other.y, z: self.z - other.z }
    }

    /// The vector itself where `cond` holds, and zero otherwise.
    pub open spec fn when(self, cond: bool) -> Vector3 {
        if cond {
            self
        } else {
            Vector3::zero()
        }
    }
}

/// Where the camera is and what it looks at.
pub struct Pose {
    pub eye: Vector3,
    pub target: Vector3,
}

impl Pose {
    /// The vector from the eye to the target.
    pub open spec fn look(self) -> Vector3 {
        self.target.minus(self.eye)
    }
}

/// The vectors that the steps of one frame stand for. They are taken from the
/// camera once, when the frame begins, and no step changes them.
pub struct Frame {
    /// One linear step along each axis.
    pub shift: spec_fn(Axis) -> Vector3,
    /// The eye-to-target vector of the beginning of the frame, turned about
    /// an axis by one angular step: by the positive angle for `true`, by the
    /// negative for `false`.
    pub turned: spec_fn(Axis, bool) -> Vector3,
}

/// The pose after one step.
pub open spec fn apply_step(pose: Pose, step: Step, frame: Frame) -> Pose {
    match step {
        Step::Translate { axis, positive } => {
            let by = (frame.shift)(axis);
            if positive {
                Pose { eye: pose.eye.plus(by), target: pose.target.plus(by) }
            } else {
                Pose { eye: pose.eye.minus(by), target: pose.target.minus(by) }
            }
        },
        Step::Rotate { axis, positive } => Pose {
            eye: pose.eye,
            target: pose.eye.plus((frame.turned)(axis, positive)),
        },
    }
}

/// The pose after a sequence of steps, the first of them applied first.
pub open spec fn apply_steps(pose: Pose, steps: Seq<Step>, frame: Frame) -> Pose
    decreases steps.len(),
{
    if steps.len() == 0 {
        pose
    } else {
        apply_step(apply_steps(pose, steps.drop_last(), frame), steps.last(), frame)
    }
}

/// The pose after one frame.
pub open spec fn after_frame(
    pose: Pose,
    held: Set<Intent>,
    forward_clear: bool,
    frame: Frame,
) -> Pose {
    apply_steps(pose, frame_steps(held, forward_clear), frame)
}

/// The sum of the translations of one frame: each intent that the frame acts
/// on adds its step or takes it away, and the order does not matter.
pub open spec fn net_shift(held: Set<Intent>, forward_clear: bool, frame: Frame) -> Vector3 {
    let forward = (frame.shift)(Axis::Forward);
    let right = (frame.shift)(Axis::Right);
    let up = (frame.shift)(Axis::Up);
    forward.when(acts(held, forward_clear, Intent::Forward)).minus(
        forward.when(held.contains(Intent::Backward)),
    ).plus(right.when(held.contains(Intent::StrafeRight))).minus(
        right.when(held.contains(Intent::StrafeLeft)),
    ).plus(up.when(held.contains(Intent::MoveUp))).minus(
        up.when(held.contains(Intent::MoveDown)),
    )
}

/// The eye-to-target vector after one frame that began with `look`. The
/// rotations do not add up: each turns the vector of the beginning of the
/// frame, so the one that is applied last decides; with none held the vector
/// stays.
pub open spec fn look_after(held: Set<Intent>, look: Vector3, frame: Frame) -> Vector3 {
    if held.contains(Intent::PitchDown) {
        (frame.turned)(Axis::Right, false)
    } else if held.contains(Intent::PitchUp) {
        (frame.turned)(Axis::Right, true)
    } else if held.contains(Intent::YawRight) {
        (frame.turned)(Axis::Up, false)
    } else if held.contains(Intent::YawLeft) {
        (frame.turned)(Axis::Up, true)
    } else {
        look
    }
}

} // verus!

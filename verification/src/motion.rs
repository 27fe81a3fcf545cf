//! The steps that one frame applies to the camera, and what they do to its
//! pose.
//!
//! A step names an axis and a sense. The renderer turns it into numbers: the
//! three axes are the unit vector from eye to target, its cross product with
//! the camera's up vector, and the up vector itself, all three taken once,
//! when the frame begins.

use vstd::prelude::*;
use crate::intent::Intent;

verus! {

/// An axis of the camera, as it stands when the frame begins.
#[derive(Clone, Copy, Debug, PartialEq, Eq, Structural, Hash)]
pub enum Axis {
    /// From the eye towards the target.
    Forward,
    /// To the right of the viewing direction.
    Right,
    /// The camera's up vector.
    Up,
}

/// One change of the camera's pose.
#[derive(Clone, Copy, Debug, PartialEq, Eq, Structural, Hash)]
pub enum Step {
    /// Moves eye and target together by one linear step along `axis`, or
    /// against it where `positive` is false.
    Translate { axis: Axis, positive: bool },
    /// Leaves the eye where it is and puts the target at the eye plus the
    /// eye-to-target vector of the beginning of the frame, turned about
    /// `axis` by one angular step, or by as much the other way where
    /// `positive` is false.
    Rotate { axis: Axis, positive: bool },
}

/// The step that an intent asks for.
pub open spec fn step_of(intent: Intent) -> Step {
    match intent {
        Intent::Forward => Step::Translate { axis: Axis::Forward, positive: true },
        Intent::Backward => Step::Translate { axis: Axis::Forward, positive: false },
        Intent::StrafeLeft => Step::Translate { axis: Axis::Right, positive: false },
        Intent::StrafeRight => Step::Translate { axis: Axis::Right, positive: true },
        Intent::YawLeft => Step::Rotate { axis: Axis::Up, positive: true },
        Intent::YawRight => Step::Rotate { axis: Axis::Up, positive: false },
        Intent::PitchUp => Step::Rotate { axis: Axis::Right, positive: true },
        Intent::PitchDown => Step::Rotate { axis: Axis::Right, positive: false },
        Intent::MoveUp => Step::Translate { axis: Axis::Up, positive: true },
        Intent::MoveDown => Step::Translate { axis: Axis::Up, positive: false },
    }
}

/// Whether a frame acts on an intent: the intent is held, and for `Forward`
/// the target is also further away than one step (`forward_clear`), so that
/// the eye cannot pass it. No other intent has such a guard.
pub open spec fn acts(held: Set<Intent>, forward_clear: bool, intent: Intent) -> bool {
    held.contains(intent) && (intent == Intent::Forward ==> forward_clear)
}

/// The step of one intent where the frame acts on it, and nothing otherwise.
pub open spec fn steps_for(held: Set<Intent>, forward_clear: bool, intent: Intent) -> Seq<Step> {
    if acts(held, forward_clear, intent) {
        seq![step_of(intent)]
    } else {
        Seq::empty()
    }
}

/// The steps of one frame, in the order in which they are applied.
pub open spec fn frame_steps(held: Set<Intent>, forward_clear: bool) -> Seq<Step> {
    steps_for(held, forward_clear, Intent::Forward)
        + steps_for(held, forward_clear, Intent::Backward)
        + steps_for(held, forward_clear, Intent::StrafeLeft)
        + steps_for(held, forward_clear, Intent::StrafeRight)
        + steps_for(held, forward_clear, Intent::YawLeft)
        + steps_for(held, forward_clear, Intent::YawRight)
        + steps_for(held, forward_clear, Intent::PitchUp)
        + steps_for(held, forward_clear, Intent::PitchDown)
        + steps_for(held, forward_clear, Intent::MoveUp)
        + steps_for(held, forward_clear, Intent::MoveDown)
}

impl Intent {
    /// The step that the intent asks for.
    pub fn step(self) -> (step: Step)
        ensures
            step == step_of(self),
    {
        match self {
            Intent::Forward => Step::Translate { axis: Axis::Forward, positive: true },
            Intent::Backward => Step::Translate { axis: Axis::Forward, positive: false },
            Intent::StrafeLeft => Step::Translate { axis: Axis::Right, positive: false },
            Intent::StrafeRight => Step::Translate { axis: Axis::Right, positive: true },
            Intent::YawLeft => Step::Rotate { axis: Axis::Up, positive: true },
            Intent::YawRight => Step::Rotate { axis: Axis::Up, positive: false },
            Intent::PitchUp => Step::Rotate { axis: Axis::Right, positive: true },
            Intent::PitchDown => Step::Rotate { axis: Axis::Right, positive: false },
            Intent::MoveUp => Step::Translate { axis: Axis::Up, positive: true },
            Intent::MoveDown => Step::Translate { axis: Axis::Up, positive: false },
        }
    }
}

} // verus!

//! The intents that are held at the moment, and what key events do to them.

use vstd::prelude::*;
use winit::keyboard::KeyCode;
use crate::intent::{intent_of_key, Intent};
use crate::motion::{frame_steps, steps_for, Step};

verus! {

/// The held intents after an intent was pressed or released.
pub open spec fn after_intent(held: Set<Intent>, intent: Intent, is_pressed: bool) -> Set<Intent> {
    if is_pressed {
        held.insert(intent)
    } else {
        held.remove(intent)
    }
}

/// The held intents after a key event: a bound key sets its own intent to
/// `is_pressed`, any other key changes nothing.
pub open spec fn after_key(held: Set<Intent>, code: KeyCode, is_pressed: bool) -> Set<Intent> {
    match intent_of_key(code) {
        Some(intent) => after_intent(held, intent, is_pressed),
        None => held,
    }
}

/// Bit `k` of `bits`.
spec fn bit(bits: u16, k: u16) -> bool {
    bits & (1u16 << k) != 0
}

proof fn lemma_bit_of_zero(k: u16)
    requires
        k < 16,
    ensures
        !bit(0, k),
{
    assert(0u16 & (1u16 << k) == 0) by (bit_vector)
        requires
            k < 16,
    ;
}

proof fn lemma_bit_after_set(bits: u16, k: u16, j: u16)
    requires
        k < 16,
        j < 16,
    ensures
        bit(bits | (1u16 << k), j) == (j == k || bit(bits, j)),
{
    assert(((bits | (1u16 << k)) & (1u16 << j) != 0) == (j == k || bits & (1u16 << j) != 0))
        by (bit_vector)
        requires
            k < 16,
            j < 16,
    ;
}

proof fn lemma_bit_after_clear(bits: u16, k: u16, j: u16)
    requires
        k < 16,
        j < 16,
    ensures
        bit(bits & !(1u16 << k), j) == (j != k && bit(bits, j)),
{
    assert(((bits & !(1u16 << k)) & (1u16 << j) != 0) == (j != k && bits & (1u16 << j) != 0))
        by (bit_vector)
        requires
            k < 16,
            j < 16,
    ;
}

/// The intents whose keys are held, one bit for each.
///
/// Its view is the set of the held intents. Key events change it; a frame
/// reads it and changes nothing.
#[derive(Clone, Copy, Debug)]
pub struct CameraController {
    /// Bit `i.index()` is set exactly if intent `i` is held.
    held: u16,
}

impl View for CameraController {
    type V = Set<Intent>;

    closed spec fn view(&self) -> Set<Intent> {
        Set::new(|intent: Intent| bit(self.held, intent.index()))
    }
}

impl CameraController {
    /// A controller with no intent held.
    pub fn new() -> (controller: CameraController)
        ensures
            controller@ == Set::<Intent>::empty(),
    {
        let controller = CameraController { held: 0 };
        proof {
            assert forall|intent: Intent| !controller@.contains(intent) by {
                lemma_bit_of_zero(intent.index());
            }
            assert(controller@ =~= Set::<Intent>::empty());
        }
        controller
    }

    /// Whether an intent is held.
    pub fn is_held(&self, intent: Intent) -> (held: bool)
        ensures
            held == self@.contains(intent),
    {
        let mask: u16 = 1u16 << intent.index();
        self.held & mask != 0
    }

    /// Marks an intent as held or as released.
    pub fn set_held(&mut self, intent: Intent, is_pressed: bool)
        ensures
            final(self)@ == after_intent(old(self)@, intent, is_pressed),
    {
        let k: u16 = intent.index();
        let mask: u16 = 1u16 << k;
        if is_pressed {
            self.held = self.held | mask;
        } else {
            self.held = self.held & !mask;
        }
        proof {
            assert forall|other: Intent|
                self@.contains(other) == after_intent(old(self)@, intent, is_pressed).contains(
                    other,
                ) by {
                lemma_bit_after_set(old(self).held, k, other.index());
                lemma_bit_after_clear(old(self).held, k, other.index());
            }
            assert(self@ =~= after_intent(old(self)@, intent, is_pressed));
        }
    }

    /// Takes a key event. A bound key sets its intent to `is_pressed` and the
    /// event counts as handled; any other key leaves the controller as it was
    /// and is not handled.
    pub fn handle_key(&mut self, code: KeyCode, is_pressed: bool) -> (handled: bool)
        ensures
            handled == intent_of_key(code).is_some(),
            final(self)@ == after_key(old(self)@, code, is_pressed),
    {
        match Intent::from_key(code) {
            Some(intent) => {
                self.set_held(intent, is_pressed);
                true
            },
            None => false,
        }
    }

    /// Appends the step of one intent where the frame acts on it.
    fn push_steps_for(&self, steps: &mut Vec<Step>, forward_clear: bool, intent: Intent)
        ensures
            final(steps)@ == old(steps)@ + steps_for(self@, forward_clear, intent),
    {
        let guarded = match intent {
            Intent::Forward => true,
            _ => false,
        };
        if self.is_held(intent) && (!guarded || forward_clear) {
            steps.push(intent.step());
        }
        assert(steps@ =~= old(steps)@ + steps_for(self@, forward_clear, intent));
    }

    /// The steps that one frame applies to the camera, in order, for the
    /// intents that are held. `forward_clear` says whether the target is
    /// further from the eye than one step.
    pub fn update_steps(&self, forward_clear: bool) -> (steps: Vec<Step>)
        ensures
            steps@ == frame_steps(self@, forward_clear),
    {
        let mut steps: Vec<Step> = Vec::new();
        self.push_steps_for(&mut steps, forward_clear, Intent::Forward);
        self.push_steps_for(&mut steps, forward_clear, Intent::Backward);
        self.push_steps_for(&mut steps, forward_clear, Intent::StrafeLeft);
        self.push_steps_for(&mut steps, forward_clear, Intent::StrafeRight);
        self.push_steps_for(&mut steps, forward_clear, Intent::YawLeft);
        self.push_steps_for(&mut steps, forward_clear, Intent::YawRight);
        self.push_steps_for(&mut steps, forward_clear, Intent::PitchUp);
        self.push_steps_for(&mut steps, forward_clear, Intent::PitchDown);
        self.push_steps_for(&mut steps, forward_clear, Intent::MoveUp);
        self.push_steps_for(&mut steps, forward_clear, Intent::MoveDown);
        steps
    }
}

} // verus!

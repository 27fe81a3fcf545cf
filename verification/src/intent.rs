//! The ten things a held key can ask of the camera, and the key bound to each.

use vstd::prelude::*;
use winit::keyboard::KeyCode;

verus! {

/// `winit::keyboard::KeyCode`, the physical key codes of winit.
///
/// The verifier reads the enum as winit declares it, variant by variant; no
/// statement about it is taken on trust.
#[verifier::external_type_specification]
pub struct ExKeyCode(KeyCode);

/// One movement or rotation that the camera performs for as long as its key
/// is held. The variants are declared in the order in which a frame applies
/// them.
#[derive(Clone, Copy, Debug, PartialEq, Eq, Structural, Hash)]
pub enum Intent {
    /// Advance towards the target.
    Forward,
    /// Retreat from the target.
    Backward,
    /// Slide to the left of the viewing direction.
    StrafeLeft,
    /// Slide to the right of the viewing direction.
    StrafeRight,
    /// Turn the view to the left, about the up axis.
    YawLeft,
    /// Turn the view to the right, about the up axis.
    YawRight,
    /// Tilt the view upwards, about the right axis.
    PitchUp,
    /// Tilt the view downwards, about the right axis.
    PitchDown,
    /// Rise along the up axis.
    MoveUp,
    /// Sink along the up axis.
    MoveDown,
}

/// The intent bound to a key, if the key is bound at all.
pub open spec fn intent_of_key(code: KeyCode) -> Option<Intent> {
    match code {
        KeyCode::KeyW => Some(Intent::Forward),
        KeyCode::KeyS => Some(Intent::Backward),
        KeyCode::KeyA => Some(Intent::StrafeLeft),
        KeyCode::KeyD => Some(Intent::StrafeRight),
        KeyCode::ArrowLeft => Some(Intent::YawLeft),
        KeyCode::ArrowRight => Some(Intent::YawRight),
        KeyCode::ArrowUp => Some(Intent::PitchUp),
        KeyCode::ArrowDown => Some(Intent::PitchDown),
        KeyCode::KeyE => Some(Intent::MoveUp),
        KeyCode::KeyQ => Some(Intent::MoveDown),
        _ => None,
    }
}

/// The key bound to an intent.
pub open spec fn key_of_intent(intent: Intent) -> KeyCode {
    match intent {
        Intent::Forward => KeyCode::KeyW,
        Intent::Backward => KeyCode::KeyS,
        Intent::StrafeLeft => KeyCode::KeyA,
        Intent::StrafeRight => KeyCode::KeyD,
        Intent::YawLeft => KeyCode::ArrowLeft,
        Intent::YawRight => KeyCode::ArrowRight,
        Intent::PitchUp => KeyCode::ArrowUp,
        Intent::PitchDown => KeyCode::ArrowDown,
        Intent::MoveUp => KeyCode::KeyE,
        Intent::MoveDown => KeyCode::KeyQ,
    }
}

impl Intent {
    /// The position of the intent in the order of a frame, from 0.
    pub open spec fn spec_index(self) -> u16 {
        match self {
            Intent::Forward => 0,
            Intent::Backward => 1,
            Intent::StrafeLeft => 2,
            Intent::StrafeRight => 3,
            Intent::YawLeft => 4,
            Intent::YawRight => 5,
            Intent::PitchUp => 6,
            Intent::PitchDown => 7,
            Intent::MoveUp => 8,
            Intent::MoveDown => 9,
        }
    }

    /// The position of the intent in the order of a frame, from 0.
    #[verifier::when_used_as_spec(spec_index)]
    pub fn index(self) -> (k: u16)
        ensures
            k == self.spec_index(),
    {
        match self {
            Intent::Forward => 0,
            Intent::Backward => 1,
            Intent::StrafeLeft => 2,
            Intent::StrafeRight => 3,
            Intent::YawLeft => 4,
            Intent::YawRight => 5,
            Intent::PitchUp => 6,
            Intent::PitchDown => 7,
            Intent::MoveUp => 8,
            Intent::MoveDown => 9,
        }
    }

    /// The intent bound to a key, if the key is bound at all.
    pub fn from_key(code: KeyCode) -> (r: Option<Intent>)
        ensures
            r == intent_of_key(code),
    {
        match code {
            KeyCode::KeyW => Some(Intent::Forward),
            KeyCode::KeyS => Some(Intent::Backward),
            KeyCode::KeyA => Some(Intent::StrafeLeft),
            KeyCode::KeyD => Some(Intent::StrafeRight),
            KeyCode::ArrowLeft => Some(Intent::YawLeft),
            KeyCode::ArrowRight => Some(Intent::YawRight),
            KeyCode::ArrowUp => Some(Intent::PitchUp),
            KeyCode::ArrowDown => Some(Intent::PitchDown),
            KeyCode::KeyE => Some(Intent::MoveUp),
            KeyCode::KeyQ => Some(Intent::MoveDown),
            _ => None,
        }
    }
}

} // verus!

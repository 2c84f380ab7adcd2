use vstd::prelude::*;

verus! {

/// One direction of one control channel.
#[derive(Clone, Copy, Debug, PartialEq, Eq, Structural)]
pub enum AxisInput {
    ThrustUp,
    ThrustDown,
    AileronLeft,
    AileronRight,
    ElevatorUp,
    ElevatorDown,
    RudderLeft,
    RudderRight,
}

/// A discrete input edge handed to the vehicle controller.
#[derive(Clone, Copy, Debug, PartialEq, Eq, Structural)]
pub enum InputEvent {
    Press(AxisInput),
    Release(AxisInput),
    ResetRequested,
    ToggleFollowCamera,
}

/// The keys that the simulation listens to.
#[derive(Clone, Copy, Debug, PartialEq, Eq, Structural)]
pub enum Key {
    Q,
    Z,
    A,
    D,
    W,
    S,
    X,
    C,
    R,
    F,
}

pub open spec fn key_axis(key: Key) -> Option<AxisInput> {
    match key {
        Key::Q => Some(AxisInput::ThrustUp),
        Key::Z => Some(AxisInput::ThrustDown),
        Key::A => Some(AxisInput::AileronLeft),
        Key::D => Some(AxisInput::AileronRight),
        Key::W => Some(AxisInput::ElevatorUp),
        Key::S => Some(AxisInput::ElevatorDown),
        Key::X => Some(AxisInput::RudderLeft),
        Key::C => Some(AxisInput::RudderRight),
        _ => None,
    }
}

/// The input event that a key press (`pressed`) or release gives, if any: the
/// channel keys give press and release edges, R and F act on press only.
pub fn translate_key(key: Key, pressed: bool) -> (r: Option<InputEvent>)
    ensures
        key_axis(key) is Some ==> r == Some(
            if pressed {
                InputEvent::Press(key_axis(key)->0)
            } else {
                InputEvent::Release(key_axis(key)->0)
            },
        ),
        key == Key::R ==> r == (if pressed {
            Some(InputEvent::ResetRequested)
        } else {
            None
        }),
        key == Key::F ==> r == (if pressed {
            Some(InputEvent::ToggleFollowCamera)
        } else {
            None
        }),
{
    let axis = match key {
        Key::Q => AxisInput::ThrustUp,
        Key::Z => AxisInput::ThrustDown,
        Key::A => AxisInput::AileronLeft,
        Key::D => AxisInput::AileronRight,
        Key::W => AxisInput::ElevatorUp,
        Key::S => AxisInput::ElevatorDown,
        Key::X => AxisInput::RudderLeft,
        Key::C => AxisInput::RudderRight,
        Key::R => {
            return if pressed {
                Some(InputEvent::ResetRequested)
            } else {
                None
            };
        },
        Key::F => {
            return if pressed {
                Some(InputEvent::ToggleFollowCamera)
            } else {
                None
            };
        },
    };
    if pressed {
        Some(InputEvent::Press(axis))
    } else {
        Some(InputEvent::Release(axis))
    }
}

} // verus!

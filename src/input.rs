use vstd::prelude::*;

verus! {

/// The keys the camera responds to; every other key is `Other`.
#[derive(Clone, Copy, Debug, PartialEq, Eq, Structural)]
pub enum KeyCode {
    KeyW,
    KeyA,
    KeyS,
    KeyD,
    KeyE,
    KeyQ,
    Other,
}

#[derive(Clone, Copy, Debug, PartialEq, Eq, Structural)]
pub enum KeyState {
    Pressed,
    Released,
}

/// A discrete camera movement request.
#[derive(Clone, Copy, Debug, PartialEq, Eq, Structural)]
pub enum Movement {
    Forward,
    Backward,
    Left,
    Right,
    Up,
    Down,
}

/// The direction a movement is taken along. `Forward` points from the camera to
/// the world origin, `Right` is forward crossed with world up (+Y), and `WorldUp`
/// is +Y itself.
#[derive(Clone, Copy, Debug, PartialEq, Eq, Structural)]
pub enum Axis {
    Forward,
    Right,
    WorldUp,
}

/// A fixed-length step along an axis, in its positive or negative direction.
#[derive(Clone, Copy, Debug, PartialEq, Eq, Structural)]
pub struct Step {
    pub axis: Axis,
    pub positive: bool,
}

/// W and S move along the view direction, A and D strafe, E and Q move
/// vertically; only a key press moves, never a release.
pub open spec fn key_movement(code: KeyCode, state: KeyState) -> Option<Movement> {
    if state is Released {
        None
    } else {
        match code {
            KeyCode::KeyW => Some(Movement::Forward),
            KeyCode::KeyS => Some(Movement::Backward),
            KeyCode::KeyA => Some(Movement::Left),
            KeyCode::KeyD => Some(Movement::Right),
            KeyCode::KeyE => Some(Movement::Up),
            KeyCode::KeyQ => Some(Movement::Down),
            KeyCode::Other => None,
        }
    }
}

pub open spec fn movement_step(m: Movement) -> Step {
    match m {
        Movement::Forward => Step { axis: Axis::Forward, positive: true },
        Movement::Backward => Step { axis: Axis::Forward, positive: false },
        Movement::Right => Step { axis: Axis::Right, positive: true },
        Movement::Left => Step { axis: Axis::Right, positive: false },
        Movement::Up => Step { axis: Axis::WorldUp, positive: true },
        Movement::Down => Step { axis: Axis::WorldUp, positive: false },
    }
}

/// The movement a keyboard event asks for, if any.
pub fn movement_for_key(code: KeyCode, state: KeyState) -> (r: Option<Movement>)
    ensures
        r == key_movement(code, state),
{
    match state {
        KeyState::Released => None,
        KeyState::Pressed => match code {
            KeyCode::KeyW => Some(Movement::Forward),
            KeyCode::KeyS => Some(Movement::Backward),
            KeyCode::KeyA => Some(Movement::Left),
            KeyCode::KeyD => Some(Movement::Right),
            KeyCode::KeyE => Some(Movement::Up),
            KeyCode::KeyQ => Some(Movement::Down),
            KeyCode::Other => None,
        },
    }
}

impl Movement {
    /// The axis this movement is taken along, and in which direction.
    pub fn step(self) -> (r: Step)
        ensures
            r == movement_step(self),
    {
        match self {
            Movement::Forward => Step { axis: Axis::Forward, positive: true },
            Movement::Backward => Step { axis: Axis::Forward, positive: false },
            Movement::Right => Step { axis: Axis::Right, positive: true },
            Movement::Left => Step { axis: Axis::Right, positive: false },
            Movement::Up => Step { axis: Axis::WorldUp, positive: true },
            Movement::Down => Step { axis: Axis::WorldUp, positive: false },
        }
    }
}

/// Each movement key moves along exactly one axis: opposite keys move along the
/// same axis in opposite directions, vertical keys touch only world up, and no
/// other key, nor any release, moves at all.
pub proof fn lemma_key_axes(code: KeyCode, state: KeyState)
    ensures
        key_movement(code, state) is Some <==> (state is Pressed && !(code is Other)),
        key_movement(code, KeyState::Pressed) matches Some(m) ==> {
            &&& (code is KeyE || code is KeyQ) <==> movement_step(m).axis is WorldUp
            &&& (code is KeyW || code is KeyS) <==> movement_step(m).axis is Forward
            &&& (code is KeyA || code is KeyD) <==> movement_step(m).axis is Right
            &&& movement_step(m).positive <==> (code is KeyW || code is KeyD || code is KeyE)
        },
{
}

} // verus!

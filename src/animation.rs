//! Which animation clip plays: walking while a movement key is held, a jump
//! played once while the jump key is held, and idle otherwise.
use vstd::prelude::*;

verus! {

/// The animation clips of the character.
#[derive(PartialEq, Eq, Structural, Clone, Copy, Debug, Hash)]
pub enum Animation {
    Idle,
    Walk,
    Run,
    Sprint,
    Jump,
}

/// Whether a clip loops; the jump plays once.
pub open spec fn loops(a: Animation) -> bool {
    a != Animation::Jump
}

/// The clip to switch to, if any, given the clip playing now, whether a
/// movement key or the jump key is held, and whether the playing clip has
/// finished.
pub open spec fn next_clip(current: Animation, moving: bool, jumping: bool, finished: bool) -> Option<
    Animation,
> {
    if moving {
        if current != Animation::Walk {
            Some(Animation::Walk)
        } else {
            None
        }
    } else if jumping {
        if current != Animation::Jump {
            Some(Animation::Jump)
        } else {
            None
        }
    } else if current == Animation::Walk || (current == Animation::Jump && finished) {
        Some(Animation::Idle)
    } else {
        None
    }
}

/// Whether `a` loops.
pub fn is_looping(a: Animation) -> (b: bool)
    ensures
        b == loops(a),
{
    match a {
        Animation::Jump => false,
        _ => true,
    }
}

/// The clip to switch to this frame; `None` keeps the clip playing now.
pub fn keyboard_animation_control(
    current: Animation,
    moving: bool,
    jumping: bool,
    finished: bool,
) -> (next: Option<Animation>)
    ensures
        next == next_clip(current, moving, jumping, finished),
{
    if moving {
        match current {
            Animation::Walk => None,
            _ => Some(Animation::Walk),
        }
    } else if jumping {
        match current {
            Animation::Jump => None,
            _ => Some(Animation::Jump),
        }
    } else {
        match current {
            Animation::Walk => Some(Animation::Idle),
            Animation::Jump => if finished {
                Some(Animation::Idle)
            } else {
                None
            },
            _ => None,
        }
    }
}

} // verus!

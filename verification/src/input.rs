//! Keyboard state turned into the motion intent that the client sends to the
//! server every tick.
use vstd::prelude::*;

verus! {

/// Which of the movement keys are held down this tick.
#[derive(Clone, Copy, Debug, PartialEq, Eq, Structural)]
pub struct MovementKeys {
    /// W: walk forward.
    pub forward: bool,
    /// S: walk backward.
    pub backward: bool,
    /// A: strafe left.
    pub left: bool,
    /// D: strafe right.
    pub right: bool,
    /// Space: jump (held down to jump repeatedly).
    pub jump: bool,
}

/// The movement part of a player's input: a planar direction whose components
/// are each -1, 0 or 1, and whether the player jumps. `x` points right; `y`
/// points backward, since forward is the negative `z` axis of the world.
#[derive(Clone, Copy, Debug, PartialEq, Eq, Structural)]
pub struct MotionIntent {
    pub x: i8,
    pub y: i8,
    pub jump: bool,
}

/// The neutral intent: no motion and no jump.
pub open spec fn neutral_intent() -> MotionIntent {
    MotionIntent { x: 0, y: 0, jump: false }
}

impl Default for MotionIntent {
    /// The neutral intent, which stands in for a tick whose input was lost or
    /// has not arrived yet.
    fn default() -> (intent: MotionIntent)
        ensures
            intent == neutral_intent(),
    {
        MotionIntent { x: 0, y: 0, jump: false }
    }
}

/// 1 for a held key, 0 otherwise.
pub open spec fn key_value(pressed: bool) -> int {
    if pressed { 1 } else { 0 }
}

/// The intent that a set of held keys expresses.
pub open spec fn intent_of(keys: MovementKeys) -> MotionIntent {
    MotionIntent {
        x: (key_value(keys.right) - key_value(keys.left)) as i8,
        y: (key_value(keys.backward) - key_value(keys.forward)) as i8,
        jump: keys.jump,
    }
}

fn key_axis(pressed: bool) -> (v: i8)
    ensures
        v == key_value(pressed),
{
    if pressed { 1 } else { 0 }
}

/// Reads the movement keys into a motion intent: right minus left on `x`,
/// backward minus forward on `y`, and the jump key as it is.
pub fn buffer_input(keys: MovementKeys) -> (intent: MotionIntent)
    ensures
        intent == intent_of(keys),
        intent.jump == keys.jump,
{
    let rwd = key_axis(keys.right);
    let lwd = key_axis(keys.left);
    let fwd = key_axis(keys.forward);
    let bwd = key_axis(keys.backward);
    MotionIntent { x: rwd - lwd, y: bwd - fwd, jump: keys.jump }
}

/// The jump flag is exactly the jump key, whatever direction keys are held,
/// and each axis is 1, -1 or 0 as only its positive key, only its negative key,
/// or both or neither are held.
pub proof fn lemma_intent_follows_keys(keys: MovementKeys)
    ensures
        intent_of(keys).jump == keys.jump,
        intent_of(keys).x == 1 <==> keys.right && !keys.left,
        intent_of(keys).x == -1 <==> keys.left && !keys.right,
        intent_of(keys).x == 0 <==> keys.left == keys.right,
        intent_of(keys).y == 1 <==> keys.backward && !keys.forward,
        intent_of(keys).y == -1 <==> keys.forward && !keys.backward,
        intent_of(keys).y == 0 <==> keys.forward == keys.backward,
{
}

/// Each component of an intent read from the keyboard is -1, 0 or 1.
pub proof fn lemma_intent_components_bounded(keys: MovementKeys)
    ensures
        -1 <= intent_of(keys).x <= 1,
        -1 <= intent_of(keys).y <= 1,
{
}

/// Opposite keys cancel: holding both keys of an axis is the same as holding
/// neither.
pub proof fn lemma_opposite_keys_cancel(keys: MovementKeys)
    ensures
        keys.left && keys.right ==> intent_of(keys).x == 0,
        keys.forward && keys.backward ==> intent_of(keys).y == 0,
        intent_of(keys) == intent_of(MovementKeys { left: keys.left && !keys.right, right: keys.right && !keys.left, ..keys }),
        intent_of(keys) == intent_of(MovementKeys { forward: keys.forward && !keys.backward, backward: keys.backward && !keys.forward, ..keys }),
{
}

/// Walking forward alone moves along the negative `y` direction of the
/// intent, and no key gives no motion.
pub proof fn lemma_forward_is_negative_y(keys: MovementKeys)
    ensures
        keys.forward && !keys.backward ==> intent_of(keys).y == -1,
        !keys.forward && keys.backward ==> intent_of(keys).y == 1,
        !keys.forward && !keys.backward && !keys.left && !keys.right ==> intent_of(keys).x == 0 && intent_of(keys).y == 0,
{
}

/// The neutral intent is what a player who holds no key sends.
pub proof fn lemma_neutral_is_no_keys()
    ensures
        intent_of(MovementKeys { forward: false, backward: false, left: false, right: false, jump: false }) == neutral_intent(),
{
}

} // verus!

//! Input mapper: turns the frame's key snapshot and a paddle's binding into
//! a signed directional intent in {-1, 0, +1}.

use vstd::prelude::*;
use crate::entities::{InputBinding, Keys};

verus! {

/// Whether the key bound to upward motion for `binding` is held.
pub open spec fn up_key_held(keys: Keys, binding: InputBinding) -> bool {
    match binding {
        InputBinding::Arrows => keys.up,
        InputBinding::Wasd => keys.w,
    }
}

/// Whether the key bound to downward motion for `binding` is held.
pub open spec fn down_key_held(keys: Keys, binding: InputBinding) -> bool {
    match binding {
        InputBinding::Arrows => keys.down,
        InputBinding::Wasd => keys.s,
    }
}

/// The intent a key snapshot produces for a binding: the two bound keys
/// contribute +1 and -1 and are summed, so holding both cancels to 0.
pub open spec fn intent_of(keys: Keys, binding: InputBinding) -> int {
    (if up_key_held(keys, binding) { 1int } else { 0int })
        - (if down_key_held(keys, binding) { 1int } else { 0int })
}

/// Maps the frame's held keys to this paddle's directional intent.
pub fn paddle_intent(keys: &Keys, binding: &InputBinding) -> (r: i64)
    ensures
        r == intent_of(*keys, *binding),
        -1 <= r <= 1,
{
    let mut direction: i64 = 0;
    match binding {
        InputBinding::Arrows => {
            if keys.up {
                direction = direction + 1;
            }
            if keys.down {
                direction = direction - 1;
            }
        }
        InputBinding::Wasd => {
            if keys.w {
                direction = direction + 1;
            }
            if keys.s {
                direction = direction - 1;
            }
        }
    }
    direction
}

/// Input cancellation: holding both keys bound to one paddle yields intent
/// zero, identical to holding neither of them.
pub proof fn lemma_input_cancellation(both: Keys, neither: Keys, binding: InputBinding)
    requires
        up_key_held(both, binding),
        down_key_held(both, binding),
        !up_key_held(neither, binding),
        !down_key_held(neither, binding),
    ensures
        intent_of(both, binding) == 0,
        intent_of(both, binding) == intent_of(neither, binding),
{
}

} // verus!

use vstd::prelude::*;

verus! {

pub const LAYER_COLLISION_FLAGS: usize = 0x322;
pub const FAINT_ANIMATION_ACTIVE: usize = 0x36b;
pub const LAYER_COLLISION_BG1: u8 = 0x01;
pub const LAYER_COLLISION_BG2: u8 = 0x02;
pub const LAYER_COLLISION_BOTH: u8 = LAYER_COLLISION_BG1 | LAYER_COLLISION_BG2;

} // verus!

use vstd::prelude::*;

verus! {

pub const TILEMAP_UPLOAD_BUFFER: usize = 0x1000;
pub const VRAM_UPLOAD_DATA: usize = 0x1002;
pub const VRAM_UPLOAD_OFFSET: usize = 0x1000;
pub const VRAM_UPLOAD_TILE_BUF: usize = 0x1100;
pub const BG_CHAR_BUFFER: usize = 0x10000;
pub const BG_CHAR_BUFFER_1: usize = 0x10800;
pub const BG_CHAR_HALF_BUFFER: usize = 0x11000;
pub const BG1_WALL_TOP_BUFFER: usize = 0x0c880;
pub const BG1_WALL_BOTTOM_BUFFER: usize = 0x0c8c0;
pub const GAME_OVER_TEXT_BUFFER: usize = 0x2000;
pub const GAME_OVER_TEXT_TAIL_BUFFER: usize = 0x3400;
pub const STRIPE_BUFFER_021B: usize = 0x021b;
pub const ARBITRARY_TILEMAP_DST_BUFFER: usize = 0x14000;

} // verus!

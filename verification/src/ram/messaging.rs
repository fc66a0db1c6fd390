use vstd::prelude::*;

verus! {

pub const MODULE: usize = 0x1cd8;
pub const DIALOGUE_MESSAGE_INDEX: usize = 0x1cf0;
pub const CHOICE_IN_MULTISELECT_BOX: usize = 0x1ce8;
pub const CHOICE_IN_MULTISELECT_BOX_BAK: usize = 0x1cf4;
pub const TEXT_MSGBOX_TOPLEFT_COPY: usize = 0x1cd0;
pub const TEXT_MSGBOX_TOPLEFT: usize = 0x1cd2;
pub const TEXT_RENDER_STATE: usize = 0x1cd4;
pub const VWF_LINE_SPEED_CUR: usize = 0x1cd5;
pub const VWF_LINE_SPEED: usize = 0x1cd6;
pub const TEXT_INCREMENTAL_STATE: usize = 0x1cd7;
pub const DIALOGUE_MSG_READ_POS: usize = 0x1cd9;
pub const DIALOGUE_TEXT_COLOR: usize = 0x1cdc;
pub const DIALOGUE_MSG_SRC_OFFS: usize = 0x1cdd;
pub const TEXT_WAIT_COUNTDOWN: usize = 0x1ce0;
pub const TEXT_TILEMAP_CUR: usize = 0x1ce2;
pub const TEXT_WAIT_COUNTDOWN2: usize = 0x1ce9;
pub const DIALOGUE_SCROLL_SPEED: usize = 0x1cea;
pub const MESSAGE_DMA_DST_ADDR: usize = 0x219;
pub const MESSAGE_DMA_TILE_BASE: usize = 0x21d;
pub const MESSAGE_DMA_TILE_LIMIT: usize = 0x21f;
pub const MESSAGE_DMA_TILE_SENTINEL: usize = 0x221;
pub const VWF_FLAG_NEXT_LINE: usize = 0x720;
pub const VWF_CURLINE: usize = 0x722;
pub const VWF_LINE_PTR: usize = 0x726;
pub const VWF_ARR: usize = 0x0c230;
pub const TEXT_BUFFER: usize = 0x11200;

} // verus!

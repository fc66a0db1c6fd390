use lib::ram::semantic::addresses::{
    DUNGEON_BG2_ATTR_TABLE, HDMAEN_COPY, HUD_INVENTORY_ORDER, INTRO_SWORD_ANIM_STEP, INTRO_SWORD_SPARKLE_STEP,
    INTRO_SWORD_YPOS, LINK_BOTTLE_INFO, MESSAGING_RENDER_BUFFER, MESSAGING_TEXT_BUFFER,
    OVERWORLD_SPRITE_WAS_LOADED, PRIMARY_DECOMP_BUFFER_LOAD_GFX, SELECTFILE_SAVE_SLOT_FLAGS, SOUND_EFFECT_1,
    SOUND_EFFECT_2, SPRITE_STATE, SPRITE_TYPE, SPRITE_X_HI, SPRITE_X_LO, SPRITE_X_SUBPIXEL, SPRITE_X_VELOCITY,
    SPRITE_Y_VELOCITY,
};
use lib::ram::semantic::addresses::{OVERWORLD_DECOMP_SCRATCH, OVERWORLD_MAP16_DECODE_SRC};
use lib::ram::semantic::display_nmi::DisplayNmiView;
use lib::ram::semantic::dungeon_state::DungeonStateView;
use lib::ram::semantic::graphics_scratch::GraphicsScratchViewMut;
use lib::ram::semantic::hud_inventory_order::{HudInventoryOrderView, HudInventoryOrderViewMut};
use lib::ram::semantic::intro_sword::IntroSwordViewMut;
use lib::ram::semantic::inventory_state::InventoryStateView;
use lib::ram::semantic::messaging_text::MessagingTextView;
use lib::ram::semantic::overworld_map16_decode::OverworldMap16DecodeViewMut;
use lib::ram::semantic::overworld_sprite_loaded::OverworldSpriteLoadedViewMut;
use lib::ram::semantic::select_file_scratch::SelectFileScratchView;
use lib::ram::semantic::sprite_slot::{SpriteSlotView, SpriteSlotViewMut};
use lib::ram::semantic::system_signals::SystemSignalsViewMut;

const RAM_SIZE: usize = 0x20000;

fn blank_ram() -> Vec<u8> {
    vec![0u8; RAM_SIZE]
}

#[test]
fn sound_effect_is_queued_only_when_empty() {
    let mut ram = blank_ram();
    let (first, second) = {
        let mut signals = SystemSignalsViewMut::new(&mut ram);
        (signals.queue_sound_effect_1_if_empty(0x21), signals.queue_sound_effect_1_if_empty(0x22))
    };
    assert!(first);
    assert!(!second);
    assert_eq!(ram[SOUND_EFFECT_1], 0x21);
    assert_eq!(ram[SOUND_EFFECT_2], 0);
}

#[test]
fn second_sound_channel_is_independent() {
    let mut ram = blank_ram();
    ram[SOUND_EFFECT_1] = 5;
    let queued = {
        let mut signals = SystemSignalsViewMut::new(&mut ram);
        signals.queue_sound_effect_2_if_empty(0x33)
    };
    assert!(queued);
    assert_eq!(ram[SOUND_EFFECT_1], 5);
    assert_eq!(ram[SOUND_EFFECT_2], 0x33);
}

#[test]
fn default_inventory_order_counts_from_one() {
    let mut ram = blank_ram();
    ram[HUD_INVENTORY_ORDER + 4] = 0xee;
    {
        let mut order = HudInventoryOrderViewMut::new(&mut ram);
        order.initialize_default_order(4);
    }
    assert_eq!(&ram[HUD_INVENTORY_ORDER..HUD_INVENTORY_ORDER + 5], &[1, 2, 3, 4, 0xee]);
    let order = HudInventoryOrderView::new(&ram);
    assert!(order.is_custom());
    assert_eq!(order.item(2), 3);
}

#[test]
fn swapping_inventory_items_exchanges_two_entries() {
    let mut ram = blank_ram();
    {
        let mut order = HudInventoryOrderViewMut::new(&mut ram);
        order.initialize_default_order(3);
        order.swap_items(0, 2);
    }
    assert_eq!(&ram[HUD_INVENTORY_ORDER..HUD_INVENTORY_ORDER + 3], &[3, 2, 1]);
    {
        let mut order = HudInventoryOrderViewMut::new(&mut ram);
        order.swap_items(1, 1);
    }
    assert_eq!(&ram[HUD_INVENTORY_ORDER..HUD_INVENTORY_ORDER + 3], &[3, 2, 1]);
}

#[test]
fn decompressed_graphics_are_cut_at_the_end_of_ram() {
    let mut ram = vec![0u8; PRIMARY_DECOMP_BUFFER_LOAD_GFX + 3];
    {
        let mut gfx = GraphicsScratchViewMut::new(&mut ram);
        gfx.copy_to_primary_decomp_buffer(&[1, 2, 3, 4, 5]);
    }
    assert_eq!(&ram[PRIMARY_DECOMP_BUFFER_LOAD_GFX..], &[1, 2, 3]);
}

#[test]
fn decompressed_graphics_shorter_than_room_are_copied_whole() {
    let mut ram = blank_ram();
    {
        let mut gfx = GraphicsScratchViewMut::new(&mut ram);
        gfx.copy_to_primary_decomp_buffer(&[9, 8]);
    }
    assert_eq!(&ram[PRIMARY_DECOMP_BUFFER_LOAD_GFX..PRIMARY_DECOMP_BUFFER_LOAD_GFX + 3], &[9, 8, 0]);
}

#[test]
fn message_rows_are_copied_side_by_side() {
    let mut ram = blank_ram();
    ram[0x100..0x103].copy_from_slice(&[1, 2, 3]);
    ram[0x200..0x203].copy_from_slice(&[4, 5, 6]);
    {
        let mut gfx = GraphicsScratchViewMut::new(&mut ram);
        gfx.copy_message_rows(0x10, 0x100, 0x200, 3);
    }
    let dst = MESSAGING_RENDER_BUFFER + 0x10;
    assert_eq!(&ram[dst..dst + 6], &[1, 2, 3, 4, 5, 6]);
}

#[test]
fn ram_slice_is_clamped_to_ram() {
    let ram: Vec<u8> = (0..16u8).collect();
    let display = DisplayNmiView::new(&ram);
    assert_eq!(display.ram_slice_at(4, 3), &[4, 5, 6]);
    assert_eq!(display.ram_slice_at(14, 5), &[14, 15]);
    assert_eq!(display.ram_slice_at(20, 5), &[] as &[u8]);
}

#[test]
fn hdma_channels_are_the_bits_of_the_enable_mask() {
    let mut ram = blank_ram();
    ram[HDMAEN_COPY] = 0b1000_0100;
    let display = DisplayNmiView::new(&ram);
    assert!(display.is_hdma_channel_enabled(2));
    assert!(display.is_hdma_channel_enabled(7));
    assert!(!display.is_hdma_channel_enabled(0));
}

#[test]
fn bg2_attribute_pair_needs_both_bytes() {
    let mut ram = vec![0u8; DUNGEON_BG2_ATTR_TABLE + 4];
    ram[DUNGEON_BG2_ATTR_TABLE + 2] = 0x11;
    ram[DUNGEON_BG2_ATTR_TABLE + 3] = 0x22;
    let dungeon = DungeonStateView::new(&ram);
    assert_eq!(dungeon.bg2_attr_pair(2), Some((0x11, 0x22)));
    assert_eq!(dungeon.bg2_attr_pair(3), None);
    assert_eq!(dungeon.bg2_attr_pair(10), None);
}

#[test]
fn next_message_byte_is_none_past_the_end() {
    let mut ram = vec![0u8; MESSAGING_TEXT_BUFFER + 3];
    ram[MESSAGING_TEXT_BUFFER + 2] = 0x7f;
    let text = MessagingTextView::new(&ram);
    assert_eq!(text.next_byte(1), Some(0x7f));
    assert_eq!(text.next_byte(2), None);
}

#[test]
fn save_slot_flags_read_three_words() {
    let mut ram = blank_ram();
    ram[SELECTFILE_SAVE_SLOT_FLAGS + 4] = 0x01;
    ram[SELECTFILE_SAVE_SLOT_FLAGS + 5] = 0x80;
    let select = SelectFileScratchView::new(&ram);
    assert_eq!(select.save_slot_flags(), [0, 0, 0x8001]);
    assert!(select.any_save_slot_flag());
    let empty = vec![0u8; RAM_SIZE];
    assert!(!SelectFileScratchView::new(&empty).any_save_slot_flag());
}

#[test]
fn bottle_check_looks_at_all_four_bottles() {
    let mut ram = blank_ram();
    ram[LINK_BOTTLE_INFO + 3] = 5;
    let inventory = InventoryStateView::new(&ram);
    assert!(inventory.has_bottle_at_least(5));
    assert!(!inventory.has_bottle_at_least(6));
}

#[test]
fn wrapped_loaded_mask_clears_bits_in_low_ram() {
    let mut ram = blank_ram();
    // block 0x8800 addresses 0x1ef80 + 0x1100, which wraps to 0x0080
    ram[0x0080] = 0xff;
    {
        let mut loaded = OverworldSpriteLoadedViewMut::new(&mut ram);
        loaded.clear_loaded_mask_wrapped(0x8800, 0x81);
    }
    assert_eq!(ram[0x0080], 0x7e);
    assert_eq!(ram[OVERWORLD_SPRITE_WAS_LOADED], 0);
}

#[test]
fn intro_sword_reset_stores_the_start_height() {
    let mut ram = vec![0xffu8; RAM_SIZE];
    {
        let mut sword = IntroSwordViewMut::new(&mut ram);
        sword.reset_sword_state();
    }
    assert_eq!(ram[INTRO_SWORD_SPARKLE_STEP], 7);
    assert_eq!(ram[INTRO_SWORD_ANIM_STEP], 0);
    assert_eq!(&ram[INTRO_SWORD_YPOS..INTRO_SWORD_YPOS + 2], &[0x7e, 0xff]);
}

#[test]
fn sprite_slot_fields_are_indexed_by_slot() {
    let mut ram = blank_ram();
    {
        let mut sprite = SpriteSlotViewMut::new(&mut ram, 3);
        sprite.set_x(0x1234);
    }
    assert_eq!(ram[SPRITE_X_LO + 3], 0x34);
    assert_eq!(ram[SPRITE_X_HI + 3], 0x12);
    assert_eq!(ram[SPRITE_X_LO], 0);
    let sprite = SpriteSlotView::new(&ram, 3);
    assert_eq!(sprite.x(), 0x1234);
    assert_eq!(sprite.slot(), 3);
    assert!(!sprite.is_active());
}

#[test]
fn sprite_is_active_with_a_type_or_a_state() {
    let mut ram = blank_ram();
    ram[SPRITE_TYPE + 1] = 0x40;
    ram[SPRITE_STATE + 2] = 0x09;
    assert!(SpriteSlotView::new(&ram, 1).is_active());
    assert!(SpriteSlotView::new(&ram, 2).is_active());
    assert!(!SpriteSlotView::new(&ram, 0).is_active());
}

#[test]
fn sprite_moves_by_its_velocity() {
    let mut ram = blank_ram();
    ram[SPRITE_X_VELOCITY + 2] = 0xfc;
    ram[SPRITE_X_LO + 2] = 0x00;
    ram[SPRITE_X_HI + 2] = 0x01;
    ram[SPRITE_X_SUBPIXEL + 2] = 0x20;
    {
        let mut sprite = SpriteSlotViewMut::new(&mut ram, 2);
        sprite.move_x();
    }
    // 0x010020 - 0x40 = 0x00ffe0
    assert_eq!(ram[SPRITE_X_SUBPIXEL + 2], 0xe0);
    assert_eq!(ram[SPRITE_X_LO + 2], 0xff);
    assert_eq!(ram[SPRITE_X_HI + 2], 0x00);
}

#[test]
fn sprite_without_velocity_does_not_move() {
    let mut ram = blank_ram();
    ram[SPRITE_X_SUBPIXEL] = 0x20;
    {
        let mut sprite = SpriteSlotViewMut::new(&mut ram, 0);
        sprite.move_x();
    }
    assert_eq!(ram[SPRITE_X_SUBPIXEL], 0x20);
}

#[test]
fn velocity_shift_takes_the_amount_modulo_eight() {
    let mut ram = blank_ram();
    ram[SPRITE_X_VELOCITY + 1] = 0x03;
    ram[SPRITE_Y_VELOCITY + 1] = 0x81;
    {
        let mut sprite = SpriteSlotViewMut::new(&mut ram, 1);
        sprite.shift_x_velocity_left(9);
        sprite.shift_y_velocity_left(1);
    }
    assert_eq!(ram[SPRITE_X_VELOCITY + 1], 0x06);
    assert_eq!(ram[SPRITE_Y_VELOCITY + 1], 0x02);
}

#[test]
fn negating_velocity_twice_restores_it() {
    let mut ram = blank_ram();
    ram[SPRITE_X_VELOCITY] = 0x80;
    {
        let mut sprite = SpriteSlotViewMut::new(&mut ram, 0);
        sprite.negate_x_velocity();
    }
    assert_eq!(ram[SPRITE_X_VELOCITY], 0x80);
    ram[SPRITE_X_VELOCITY] = 0x05;
    {
        let mut sprite = SpriteSlotViewMut::new(&mut ram, 0);
        sprite.negate_x_velocity();
        sprite.negate_x_velocity();
    }
    assert_eq!(ram[SPRITE_X_VELOCITY], 0x05);
}

#[test]
fn scratch_bytes_fill_every_other_source_byte() {
    let mut ram = blank_ram();
    ram[OVERWORLD_DECOMP_SCRATCH..OVERWORLD_DECOMP_SCRATCH + 3].copy_from_slice(&[0xa1, 0xa2, 0xa3]);
    ram[OVERWORLD_MAP16_DECODE_SRC..OVERWORLD_MAP16_DECODE_SRC + 6].copy_from_slice(&[1, 2, 3, 4, 5, 6]);
    {
        let mut decode = OverworldMap16DecodeViewMut::new(&mut ram);
        decode.copy_scratch_to_source_words_high(3);
    }
    assert_eq!(
        &ram[OVERWORLD_MAP16_DECODE_SRC..OVERWORLD_MAP16_DECODE_SRC + 7],
        &[1, 0xa1, 3, 0xa2, 5, 0xa3, 0]
    );
    {
        let mut decode = OverworldMap16DecodeViewMut::new(&mut ram);
        decode.copy_scratch_to_source_words_low(2);
    }
    assert_eq!(
        &ram[OVERWORLD_MAP16_DECODE_SRC..OVERWORLD_MAP16_DECODE_SRC + 6],
        &[0xa1, 0xa1, 0xa2, 0xa2, 5, 0xa3]
    );
}

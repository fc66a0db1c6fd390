use lib::ram::semantic::addresses::{INTRO_STEP_TIMER, LINK_X_COORD, LINK_Y_COORD};
use lib::ram::semantic::addresses::{ALT_SPRITE_STATE, ALT_SPRITE_X_LO, SPRITE_STATE, SPRITE_X_LO};
use lib::ram::semantic::attract_state::AttractStateViewMut;
use lib::ram::semantic::cached_sprite_slot::{AltSpriteSlotViewMut, CachedSpriteSlotViewMut};
use lib::ram::semantic::hud_inventory_order::HudInventoryOrderViewMut;
use lib::ram::semantic::happiness_pond_rupee::{
    HappinessPondRupeeState, HappinessPondRupeeView, HappinessPondRupeeViewMut,
};
use lib::ram::semantic::player_state::PlayerStateViewMut;
use lib::ram::semantic::weather_vane_debris::{WeatherVaneDebrisView, WeatherVaneDebrisViewMut};

fn patterned_ram() -> Vec<u8> {
    (0..0x20000usize).map(|i| (i * 7 + 3) as u8).collect()
}

#[test]
fn increment_then_decrement_restores_ram() {
    let mut ram = patterned_ram();
    ram[INTRO_STEP_TIMER] = 0xff;
    let before = ram.clone();
    let (up, down) = {
        let mut attract = AttractStateViewMut::new(&mut ram);
        (attract.increment_intro_step_timer(), attract.decrement_intro_step_timer())
    };
    assert_eq!((up, down), (0x00, 0xff));
    assert_eq!(ram, before);
}

#[test]
fn decrement_then_increment_restores_ram() {
    let mut ram = patterned_ram();
    ram[INTRO_STEP_TIMER] = 0x00;
    let before = ram.clone();
    {
        let mut attract = AttractStateViewMut::new(&mut ram);
        assert_eq!(attract.decrement_intro_step_timer(), 0xff);
        assert_eq!(attract.increment_intro_step_timer(), 0x00);
    }
    assert_eq!(ram, before);
}

#[test]
fn a_word_setter_changes_only_its_two_bytes() {
    let mut ram = patterned_ram();
    let before = ram.clone();
    {
        let mut player = PlayerStateViewMut::new(&mut ram);
        player.set_x(0xbeef);
    }
    for (i, (now, was)) in ram.iter().zip(before.iter()).enumerate() {
        if i == LINK_X_COORD {
            assert_eq!(*now, 0xef);
        } else if i == LINK_X_COORD + 1 {
            assert_eq!(*now, 0xbe);
        } else {
            assert_eq!(now, was, "byte {:#x} changed", i);
        }
    }
}

#[test]
fn setting_a_word_to_what_it_holds_changes_nothing() {
    let mut ram = patterned_ram();
    let before = ram.clone();
    let y = u16::from_le_bytes([ram[LINK_Y_COORD], ram[LINK_Y_COORD + 1]]);
    {
        let mut player = PlayerStateViewMut::new(&mut ram);
        player.set_y(y);
    }
    assert_eq!(ram, before);
}

#[test]
fn a_step_and_its_negation_bring_the_player_back() {
    let mut ram = patterned_ram();
    let before = ram.clone();
    {
        let mut player = PlayerStateViewMut::new(&mut ram);
        player.move_x_by_velocity(0x25);
        player.move_x_by_velocity(0u8.wrapping_sub(0x25));
    }
    assert_eq!(ram, before);
}

#[test]
fn loading_the_cached_sprite_then_restoring_the_backup_restores_ram() {
    let mut ram = patterned_ram();
    let before = ram.clone();
    let mut backup = [0u8; 24];
    {
        let mut cached = CachedSpriteSlotViewMut::new(&mut ram, 5);
        cached.load_cached_into_live(&mut backup);
    }
    assert_eq!(backup[0], before[SPRITE_STATE + 5]);
    assert_eq!(backup[2], before[SPRITE_X_LO + 5]);
    assert_eq!(ram[SPRITE_STATE + 5], before[ALT_SPRITE_STATE + 5]);
    assert_eq!(ram[SPRITE_X_LO + 5], before[ALT_SPRITE_X_LO + 5]);
    assert_ne!(ram, before);
    {
        let mut alt: AltSpriteSlotViewMut = CachedSpriteSlotViewMut::new(&mut ram, 5);
        alt.restore_live_from_backup(&backup);
    }
    assert_eq!(ram, before);
}

#[test]
fn restoring_right_after_caching_changes_nothing_more() {
    let mut ram = patterned_ram();
    {
        let mut player = PlayerStateViewMut::new(&mut ram);
        player.cache_current_position();
    }
    let cached = ram.clone();
    {
        let mut player = PlayerStateViewMut::new(&mut ram);
        player.restore_position_from_cached();
    }
    assert_eq!(ram, cached);
}

fn rupee(timer: u8) -> HappinessPondRupeeState {
    HappinessPondRupeeState {
        y_low: 1,
        y_high: 2,
        x_low: 3,
        x_high: 4,
        z: 5,
        y_velocity: 6,
        x_velocity: 7,
        z_velocity: 8,
        y_subpixel: 9,
        x_subpixel: 10,
        z_subpixel: 11,
        item_to_link: 12,
        timer,
        step: 14,
    }
}

#[test]
fn rupee_snapshot_after_store_reads_back_with_timer_ticked() {
    let mut ram = patterned_ram();
    {
        let mut pond = HappinessPondRupeeViewMut::new(&mut ram, 2);
        pond.store_snapshot(rupee(13));
    }
    let snap = HappinessPondRupeeView::new(&ram, 2).snapshot();
    let expected = rupee(12);
    assert_eq!(
        (snap.y_low, snap.y_high, snap.x_low, snap.x_high, snap.z, snap.y_velocity, snap.x_velocity),
        (expected.y_low, expected.y_high, expected.x_low, expected.x_high, expected.z, expected.y_velocity, expected.x_velocity)
    );
    assert_eq!(
        (snap.z_velocity, snap.y_subpixel, snap.x_subpixel, snap.z_subpixel, snap.item_to_link, snap.timer, snap.step),
        (expected.z_velocity, expected.y_subpixel, expected.x_subpixel, expected.z_subpixel, expected.item_to_link, 12, 14)
    );
}

#[test]
fn rupee_snapshot_timer_stops_at_zero() {
    let mut ram = patterned_ram();
    {
        let mut pond = HappinessPondRupeeViewMut::new(&mut ram, 0);
        pond.store_snapshot(rupee(0));
    }
    assert_eq!(HappinessPondRupeeView::new(&ram, 0).snapshot().timer, 0);
}

#[test]
fn debris_snapshot_after_initialize_reads_back_its_setup() {
    let mut ram = patterned_ram();
    {
        let mut debris = WeatherVaneDebrisViewMut::new(&mut ram, 4);
        debris.initialize(0x0123, 0x0456, 0x10, 0xf0, 0x20, 0x30, 0x01);
    }
    let snap = WeatherVaneDebrisView::new(&ram, 4).snapshot();
    assert_eq!((snap.x, snap.y, snap.z), (0x0123, 0x0456, 0x30));
    assert_eq!((snap.x_velocity, snap.y_velocity, snap.z_velocity), (0x10, 0xf0, 0x20));
    assert_eq!(snap.draw_state, 0x01);
}

#[test]
fn swapping_inventory_entries_twice_restores_ram() {
    let mut ram = patterned_ram();
    let before = ram.clone();
    {
        let mut order = HudInventoryOrderViewMut::new(&mut ram);
        order.swap_items(3, 9);
        order.swap_items(3, 9);
    }
    assert_eq!(ram, before);
}

#[test]
fn toggling_quadrants_twice_restores_ram() {
    let mut ram = patterned_ram();
    let before = ram.clone();
    {
        let mut player = PlayerStateViewMut::new(&mut ram);
        player.toggle_quadrant_x();
        player.toggle_quadrant_y();
        player.toggle_quadrant_x();
        player.toggle_quadrant_y();
    }
    assert_eq!(ram, before);
}

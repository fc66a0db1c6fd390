use lib::ram::semantic::addresses::{
    LINK_ACTUAL_X_VELOCITY, LINK_ACTUAL_Y_VELOCITY, LINK_DIRECTION, LINK_HANDLER_STATE, LINK_QUADRANT_X,
    LINK_QUADRANT_Y, LINK_TIMER_TEMPBUNNY, LINK_X_COORD, LINK_X_COORD_CACHED, LINK_X_COORD_SAFE_RETURN_LO,
    LINK_X_SUBPIXEL, LINK_X_VELOCITY, LINK_Y_COORD, LINK_Y_COORD_CACHED, LINK_Y_COORD_SAFE_RETURN_LO,
    LINK_Y_VELOCITY,
};
use lib::ram::semantic::player_state::{PlayerStateView, PlayerStateViewMut};

const RAM_SIZE: usize = 0x20000;

fn player_ram() -> Vec<u8> {
    vec![0u8; RAM_SIZE]
}

#[test]
fn position_setters_read_back_through_getters() {
    let mut ram = player_ram();
    {
        let mut player = PlayerStateViewMut::new(&mut ram);
        player.set_position(0x0123, 0x0456);
    }
    assert_eq!(&ram[LINK_X_COORD..LINK_X_COORD + 2], &[0x23, 0x01]);
    assert_eq!(&ram[LINK_Y_COORD..LINK_Y_COORD + 2], &[0x56, 0x04]);
    let player = PlayerStateView::new(&ram);
    assert_eq!(player.x(), 0x0123);
    assert_eq!(player.y(), 0x0456);
}

#[test]
fn caching_the_position_copies_both_words() {
    let mut ram = player_ram();
    {
        let mut player = PlayerStateViewMut::new(&mut ram);
        player.set_position(0x0a0b, 0x0c0d);
        player.cache_current_position();
        player.set_position(0, 0);
    }
    let player = PlayerStateView::new(&ram);
    assert_eq!(player.cached_x(), 0x0a0b);
    assert_eq!(player.cached_y(), 0x0c0d);
    assert_eq!(&ram[LINK_X_COORD_CACHED..LINK_X_COORD_CACHED + 2], &[0x0b, 0x0a]);
    assert_eq!(&ram[LINK_Y_COORD_CACHED..LINK_Y_COORD_CACHED + 2], &[0x0d, 0x0c]);
    {
        let mut player = PlayerStateViewMut::new(&mut ram);
        player.restore_position_from_cached();
    }
    let player = PlayerStateView::new(&ram);
    assert_eq!((player.x(), player.y()), (0x0a0b, 0x0c0d));
}

#[test]
fn moving_by_negative_velocity_crosses_a_pixel() {
    let mut ram = player_ram();
    ram[LINK_X_SUBPIXEL] = 0x00;
    ram[LINK_X_COORD] = 0x00;
    ram[LINK_X_COORD + 1] = 0x01;
    let coord = {
        let mut player = PlayerStateViewMut::new(&mut ram);
        player.move_x_by_velocity(0xf0)
    };
    assert_eq!(coord, 0x00ff);
    assert_eq!(ram[LINK_X_SUBPIXEL], 0x00);
    assert_eq!(PlayerStateView::new(&ram).x(), 0x00ff);
}

#[test]
fn moving_by_small_velocity_only_moves_the_subpixel() {
    let mut ram = player_ram();
    ram[LINK_X_COORD] = 0x40;
    let coord = {
        let mut player = PlayerStateViewMut::new(&mut ram);
        player.move_x_by_velocity(0x02)
    };
    assert_eq!(coord, 0x0040);
    assert_eq!(ram[LINK_X_SUBPIXEL], 0x20);
}

#[test]
fn temp_bunny_timer_decrement_wraps_below_zero() {
    let mut ram = player_ram();
    let timer = {
        let mut player = PlayerStateViewMut::new(&mut ram);
        player.decrement_temp_bunny_timer()
    };
    assert_eq!(timer, 0xffff);
    assert_eq!(&ram[LINK_TIMER_TEMPBUNNY..LINK_TIMER_TEMPBUNNY + 2], &[0xff, 0xff]);
    assert_eq!(PlayerStateView::new(&ram).temp_bunny_timer(), 0xffff);
}

#[test]
fn direction_from_actual_velocity_sets_one_bit_per_axis() {
    let mut ram = player_ram();
    ram[LINK_DIRECTION] = 0xff;
    ram[LINK_ACTUAL_Y_VELOCITY] = 0xfe;
    ram[LINK_ACTUAL_X_VELOCITY] = 0x03;
    {
        let mut player = PlayerStateViewMut::new(&mut ram);
        player.derive_direction_from_actual_velocity();
    }
    assert_eq!(ram[LINK_DIRECTION], 8 | 1);

    ram[LINK_ACTUAL_Y_VELOCITY] = 0;
    ram[LINK_ACTUAL_X_VELOCITY] = 0x80;
    {
        let mut player = PlayerStateViewMut::new(&mut ram);
        player.derive_direction_from_actual_velocity();
    }
    assert_eq!(ram[LINK_DIRECTION], 2);
}

#[test]
fn actual_velocity_from_direction_negates_for_up_and_left() {
    let mut ram = player_ram();
    {
        let mut player = PlayerStateViewMut::new(&mut ram);
        player.set_actual_velocity_from_direction(0x0a, 0x18);
    }
    assert_eq!(ram[LINK_ACTUAL_X_VELOCITY], 0xe8);
    assert_eq!(ram[LINK_ACTUAL_Y_VELOCITY], 0xe8);
    {
        let mut player = PlayerStateViewMut::new(&mut ram);
        player.set_actual_velocity_from_direction(0x04, 0x18);
    }
    assert_eq!(ram[LINK_ACTUAL_X_VELOCITY], 0);
    assert_eq!(ram[LINK_ACTUAL_Y_VELOCITY], 0x18);
}

#[test]
fn inverting_actual_velocity_negates_both_axes() {
    let mut ram = player_ram();
    ram[LINK_ACTUAL_X_VELOCITY] = 0x10;
    ram[LINK_ACTUAL_Y_VELOCITY] = 0xf0;
    {
        let mut player = PlayerStateViewMut::new(&mut ram);
        player.invert_actual_velocity_xy();
    }
    assert_eq!(ram[LINK_ACTUAL_X_VELOCITY], 0xf0);
    assert_eq!(ram[LINK_ACTUAL_Y_VELOCITY], 0x10);
    {
        let mut player = PlayerStateViewMut::new(&mut ram);
        player.invert_actual_velocity_xy();
    }
    assert_eq!(ram[LINK_ACTUAL_X_VELOCITY], 0x10);
    assert_eq!(ram[LINK_ACTUAL_Y_VELOCITY], 0xf0);
}

#[test]
fn direction_refresh_from_safe_return_delta() {
    let mut ram = player_ram();
    ram[LINK_DIRECTION] = 0x00;
    ram[LINK_Y_COORD] = 0x10;
    ram[LINK_Y_COORD_SAFE_RETURN_LO] = 0x12;
    ram[LINK_X_COORD] = 0x30;
    ram[LINK_X_COORD_SAFE_RETURN_LO] = 0x20;
    {
        let mut player = PlayerStateViewMut::new(&mut ram);
        player.refresh_direction_from_safe_return_delta();
    }
    assert_eq!(ram[LINK_Y_VELOCITY], 0xfe);
    assert_eq!(ram[LINK_X_VELOCITY], 0x10);
    assert_eq!(ram[LINK_DIRECTION], 8 | 1);
}

#[test]
fn ledge_hopping_keeps_the_vertical_velocity() {
    let mut ram = player_ram();
    ram[LINK_HANDLER_STATE] = 11;
    ram[LINK_Y_VELOCITY] = 0x05;
    ram[LINK_Y_COORD] = 0x10;
    ram[LINK_Y_COORD_SAFE_RETURN_LO] = 0x12;
    {
        let mut player = PlayerStateViewMut::new(&mut ram);
        player.refresh_direction_from_safe_return_delta();
    }
    assert_eq!(ram[LINK_Y_VELOCITY], 0x05);
    assert_eq!(ram[LINK_DIRECTION], 4);
}

#[test]
fn quadrant_toggles_flip_their_own_bit() {
    let mut ram = player_ram();
    let (x, y) = {
        let mut player = PlayerStateViewMut::new(&mut ram);
        player.set_quadrants_from_packed_nibbles(0x12);
        (player.toggle_quadrant_x(), player.toggle_quadrant_y())
    };
    assert_eq!((x, y), (0, 0));
    assert_eq!(ram[LINK_QUADRANT_X], 0);
    assert_eq!(ram[LINK_QUADRANT_Y], 0);
    let player = PlayerStateView::new(&ram);
    assert_eq!((player.quadrant_x(), player.quadrant_y()), (0, 0));
}

#[test]
fn getters_on_short_ram_read_zero() {
    let ram = vec![0xffu8; LINK_X_COORD + 1];
    let player = PlayerStateView::new(&ram);
    assert_eq!(player.x(), 0);
    assert_eq!(player.y(), 0xffff);
}

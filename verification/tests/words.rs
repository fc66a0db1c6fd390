use lib::ram::semantic::access::{
    byte, copy_bytes, copy_word, fill_bytes, move_axis16, move_axis24, move_link_axis_by_subpixel_delta,
    move_link_axis_by_velocity, packed_position, word, write_position,
};
use lib::types::{read_le_u16, write_le_u16};

#[test]
fn le_word_is_low_byte_first() {
    let ram = [0x34u8, 0x12, 0xff];
    assert_eq!(read_le_u16(&ram, 0), 0x1234);
    assert_eq!(read_le_u16(&ram, 1), 0xff12);
}

#[test]
fn le_word_write_then_read_gives_value_back() {
    let mut ram = vec![0xaau8; 6];
    write_le_u16(&mut ram, 2, 0xbeef);
    assert_eq!(ram, vec![0xaa, 0xaa, 0xef, 0xbe, 0xaa, 0xaa]);
    assert_eq!(read_le_u16(&ram, 2), 0xbeef);
}

#[test]
fn le_word_second_write_wins() {
    let mut ram = vec![0u8; 4];
    write_le_u16(&mut ram, 1, 0x1111);
    write_le_u16(&mut ram, 1, 0x2233);
    assert_eq!(ram, vec![0, 0x33, 0x22, 0]);
}

#[test]
fn le_word_writing_back_what_was_read_changes_nothing() {
    let mut ram = vec![1u8, 2, 3, 4];
    let value = read_le_u16(&ram, 1);
    write_le_u16(&mut ram, 1, value);
    assert_eq!(ram, vec![1, 2, 3, 4]);
}

#[test]
fn byte_past_the_end_reads_zero() {
    let ram = [7u8, 8];
    assert_eq!(byte(&ram, 1), 8);
    assert_eq!(byte(&ram, 2), 0);
    assert_eq!(byte(&ram, usize::MAX), 0);
}

#[test]
fn word_needs_both_bytes_in_ram() {
    let ram = [0x01u8, 0x02, 0x03];
    assert_eq!(word(&ram, 1), 0x0302);
    assert_eq!(word(&ram, 2), 0);
    assert_eq!(word(&ram, 3), 0);
}

#[test]
fn copy_word_duplicates_the_source() {
    let mut ram = vec![0x10u8, 0x20, 0, 0, 0x99];
    copy_word(&mut ram, 2, 0);
    assert_eq!(ram, vec![0x10, 0x20, 0x10, 0x20, 0x99]);
}

#[test]
fn copy_word_between_overlapping_words() {
    let mut ram = vec![0x10u8, 0x20, 0x30];
    copy_word(&mut ram, 1, 0);
    assert_eq!(ram, vec![0x10, 0x10, 0x20]);
}

#[test]
fn packed_position_joins_separate_bytes() {
    let ram = [0x78u8, 0, 0, 0x05];
    assert_eq!(packed_position(&ram, 0, 3), 0x0578);
    assert_eq!(packed_position(&ram, 0, 9), 0x0078);
}

#[test]
fn write_position_then_packed_position_round_trips() {
    let mut ram = vec![0u8; 8];
    write_position(&mut ram, 6, 2, 0xabcd);
    assert_eq!(ram[6], 0xcd);
    assert_eq!(ram[2], 0xab);
    assert_eq!(packed_position(&ram, 6, 2), 0xabcd);
}

#[test]
fn move_axis24_adds_sixteen_times_velocity() {
    // subpixel 0, low 1, high 2, velocity 3
    let mut ram = vec![0x00u8, 0x10, 0x02, 0x05];
    move_axis24(&mut ram, 0, 1, 2, 3);
    // 0x021000 + 0x50 = 0x021050
    assert_eq!(ram, vec![0x50, 0x10, 0x02, 0x05]);
}

#[test]
fn move_axis24_negative_velocity_borrows_across_bytes() {
    let mut ram = vec![0x00u8, 0x00, 0x01, 0xf0];
    move_axis24(&mut ram, 0, 1, 2, 3);
    // 0x010000 - 256 = 0x00ff00
    assert_eq!(ram, vec![0x00, 0xff, 0x00, 0xf0]);
}

#[test]
fn move_axis24_wraps_at_24_bits() {
    let mut ram = vec![0xf8u8, 0xff, 0xff, 0x01];
    move_axis24(&mut ram, 0, 1, 2, 3);
    // 0xfffff8 + 0x10 wraps to 0x000008
    assert_eq!(ram, vec![0x08, 0x00, 0x00, 0x01]);
}

#[test]
fn move_axis24_zero_velocity_changes_nothing() {
    let mut ram = vec![0x12u8, 0x34, 0x56, 0x00];
    move_axis24(&mut ram, 0, 1, 2, 3);
    assert_eq!(ram, vec![0x12, 0x34, 0x56, 0x00]);
}

#[test]
fn move_axis24_step_back_after_negating_velocity() {
    let mut ram = vec![0x9au8, 0x00, 0x00, 0x83];
    move_axis24(&mut ram, 0, 1, 2, 3);
    ram[3] = 0u8.wrapping_sub(ram[3]);
    move_axis24(&mut ram, 0, 1, 2, 3);
    assert_eq!(&ram[..3], &[0x9a, 0x00, 0x00]);
}

#[test]
fn move_axis16_adds_sixteen_times_velocity() {
    // subpixel 0, whole 1, velocity 2
    let mut ram = vec![0xf0u8, 0x01, 0x02];
    move_axis16(&mut ram, 0, 1, 2);
    // 0x01f0 + 0x20 = 0x0210
    assert_eq!(ram, vec![0x10, 0x02, 0x02]);
}

#[test]
fn move_axis16_wraps_at_16_bits() {
    let mut ram = vec![0x00u8, 0x00, 0xff];
    move_axis16(&mut ram, 0, 1, 2);
    // 0x0000 - 16 = 0xfff0
    assert_eq!(ram, vec![0xf0, 0xff, 0xff]);
}

#[test]
fn link_axis_moves_by_velocity_and_returns_whole_pixels() {
    // subpixel at 0, coordinate word at 1..3
    let mut ram = vec![0x00u8, 0x00, 0x01];
    let coord = move_link_axis_by_velocity(&mut ram, 0, 1, 0xf0);
    // 0x010000 - 256 = 0x00ff00
    assert_eq!(coord, 0x00ff);
    assert_eq!(ram, vec![0x00, 0xff, 0x00]);
}

#[test]
fn link_axis_moves_by_positive_velocity() {
    let mut ram = vec![0xf8u8, 0x34, 0x12];
    let coord = move_link_axis_by_velocity(&mut ram, 0, 1, 0x01);
    assert_eq!(coord, 0x1235);
    assert_eq!(ram, vec![0x08, 0x35, 0x12]);
}

#[test]
fn link_axis_moves_by_signed_subpixel_delta() {
    let mut ram = vec![0x80u8, 0x00, 0x10];
    let coord = move_link_axis_by_subpixel_delta(&mut ram, 0, 1, 0xff00);
    // 0x100080 - 0x100 = 0x0fff80
    assert_eq!(coord, 0x0fff);
    assert_eq!(ram, vec![0x80, 0xff, 0x0f]);
}

#[test]
fn link_axis_wraps_at_24_bits() {
    let mut ram = vec![0xffu8, 0xff, 0xff];
    let coord = move_link_axis_by_subpixel_delta(&mut ram, 0, 1, 0x0001);
    assert_eq!(coord, 0);
    assert_eq!(ram, vec![0, 0, 0]);
}

#[test]
fn fill_bytes_sets_only_the_range() {
    let mut ram = vec![1u8; 6];
    fill_bytes(&mut ram, 2, 5, 9);
    assert_eq!(ram, vec![1, 1, 9, 9, 9, 1]);
    fill_bytes(&mut ram, 3, 3, 0);
    assert_eq!(ram, vec![1, 1, 9, 9, 9, 1]);
}

#[test]
fn copy_bytes_reads_back_as_source() {
    let mut ram = vec![0u8; 6];
    copy_bytes(&mut ram, 1, &[5, 6, 7]);
    assert_eq!(ram, vec![0, 5, 6, 7, 0, 0]);
    assert_eq!(&ram[1..4], &[5, 6, 7]);
}

#[test]
fn move_axis16_step_back_after_negating_velocity() {
    let mut ram = vec![0x05u8, 0x00, 0x90];
    move_axis16(&mut ram, 0, 1, 2);
    assert_eq!(&ram[..2], &[0x05, 0xf9]);
    ram[2] = 0u8.wrapping_sub(ram[2]);
    move_axis16(&mut ram, 0, 1, 2);
    assert_eq!(&ram[..2], &[0x05, 0x00]);
}

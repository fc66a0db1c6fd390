use vstd::prelude::*;
use super::access;
use super::access::{byte, word};
use super::addresses::{
    FOLLOWER_DROPPED, FOLLOWER_HOOKSHOT_RELEASE_TAIL_INDEX, FOLLOWER_INDICATOR,
    FOLLOWER_JUMP_TIMER, FOLLOWER_KIKI_ANIM_COUNTER, FOLLOWER_PALETTE_SWAP_FLAG,
    FOLLOWER_SAVED_FLOOR, FOLLOWER_SAVED_INDOORS, FOLLOWER_SAVED_X, FOLLOWER_SAVED_Y,
    FOLLOWER_TAIL_WRITE_INDEX, TAGALONG_ANIM_FRAME_COUNTER, TAGALONG_APPEARANCE_NONE_FLAG,
    TAGALONG_DATA_INDEX, TAGALONG_EVENT_FLAGS, TAGALONG_HOOKSHOT_INTERLOCK,
    TAGALONG_SHARED_STATE_A, TIMER_TAGALONG_REACQUIRE, ZELDA_RESCUE_CUTSCENE_STATE,
};
use crate::types;
use crate::types::{write_le_u16};

verus! {

pub struct FollowerStateView<'a> {
    ram: &'a [u8],
}

impl<'a> FollowerStateView<'a> {
    /// The bytes of RAM this view reads and writes.
    pub closed spec fn ram(&self) -> Seq<u8> {
        self.ram@
    }

    pub fn new(ram: &'a [u8]) -> (view: Self)
        ensures
            view.ram() == ram@,
    {
        Self { ram }
    }

    pub fn indicator(&self) -> (result: u8)
        ensures
            result == access::byte_at(self.ram(), FOLLOWER_INDICATOR as int),
    {
        byte(self.ram, FOLLOWER_INDICATOR)
    }

    pub fn indicator_word(&self) -> (result: u16)
        ensures
            result == access::word_at(self.ram(), FOLLOWER_INDICATOR as int),
    {
        word(self.ram, FOLLOWER_INDICATOR)
    }

    pub fn data_index(&self) -> (result: u8)
        ensures
            result == access::byte_at(self.ram(), TAGALONG_DATA_INDEX as int),
    {
        byte(self.ram, TAGALONG_DATA_INDEX)
    }

    pub fn data_index_word(&self) -> (result: u16)
        ensures
            result == access::word_at(self.ram(), TAGALONG_DATA_INDEX as int),
    {
        word(self.ram, TAGALONG_DATA_INDEX)
    }

    pub fn appearance_none_flag(&self) -> (result: u8)
        ensures
            result == access::byte_at(self.ram(), TAGALONG_APPEARANCE_NONE_FLAG as int),
    {
        byte(self.ram, TAGALONG_APPEARANCE_NONE_FLAG)
    }

    pub fn dropped(&self) -> (result: u8)
        ensures
            result == access::byte_at(self.ram(), FOLLOWER_DROPPED as int),
    {
        byte(self.ram, FOLLOWER_DROPPED)
    }

    pub fn hookshot_interlock(&self) -> (result: u8)
        ensures
            result == access::byte_at(self.ram(), TAGALONG_HOOKSHOT_INTERLOCK as int),
    {
        byte(self.ram, TAGALONG_HOOKSHOT_INTERLOCK)
    }

    pub fn hookshot_interlock_is_clear(&self) -> (result: bool)
        ensures
            result == (access::byte_at(self.ram(), TAGALONG_HOOKSHOT_INTERLOCK as int) == 0),
    {
        self.hookshot_interlock() == 0
    }

    pub fn tail_write_index(&self) -> (result: u8)
        ensures
            result == access::byte_at(self.ram(), FOLLOWER_TAIL_WRITE_INDEX as int),
    {
        byte(self.ram, FOLLOWER_TAIL_WRITE_INDEX)
    }

    pub fn hookshot_release_tail_index(&self) -> (result: u8)
        ensures
            result == access::byte_at(self.ram(), FOLLOWER_HOOKSHOT_RELEASE_TAIL_INDEX as int),
    {
        byte(self.ram, FOLLOWER_HOOKSHOT_RELEASE_TAIL_INDEX)
    }

    pub fn event_flags(&self) -> (result: u8)
        ensures
            result == access::byte_at(self.ram(), TAGALONG_EVENT_FLAGS as int),
    {
        byte(self.ram, TAGALONG_EVENT_FLAGS)
    }

    pub fn reacquire_timer_low(&self) -> (result: u8)
        ensures
            result == access::byte_at(self.ram(), TIMER_TAGALONG_REACQUIRE as int),
    {
        byte(self.ram, TIMER_TAGALONG_REACQUIRE)
    }

    pub fn reacquire_timer(&self) -> (result: u16)
        ensures
            result == access::word_at(self.ram(), TIMER_TAGALONG_REACQUIRE as int),
    {
        word(self.ram, TIMER_TAGALONG_REACQUIRE)
    }

    pub fn draw_anim_frame(&self) -> (result: u8)
        ensures
            result == access::byte_at(self.ram(), TAGALONG_ANIM_FRAME_COUNTER as int),
    {
        byte(self.ram, TAGALONG_ANIM_FRAME_COUNTER)
    }

    pub fn saved_y(&self) -> (result: u16)
        ensures
            result == access::word_at(self.ram(), FOLLOWER_SAVED_Y as int),
    {
        word(self.ram, FOLLOWER_SAVED_Y)
    }

    pub fn saved_x(&self) -> (result: u16)
        ensures
            result == access::word_at(self.ram(), FOLLOWER_SAVED_X as int),
    {
        word(self.ram, FOLLOWER_SAVED_X)
    }

    pub fn saved_indoor_flag(&self) -> (result: u8)
        ensures
            result == access::byte_at(self.ram(), FOLLOWER_SAVED_INDOORS as int),
    {
        byte(self.ram, FOLLOWER_SAVED_INDOORS)
    }

    pub fn saved_floor(&self) -> (result: u8)
        ensures
            result == access::byte_at(self.ram(), FOLLOWER_SAVED_FLOOR as int),
    {
        byte(self.ram, FOLLOWER_SAVED_FLOOR)
    }

    pub fn palette_swap_flag(&self) -> (result: u8)
        ensures
            result == access::byte_at(self.ram(), FOLLOWER_PALETTE_SWAP_FLAG as int),
    {
        byte(self.ram, FOLLOWER_PALETTE_SWAP_FLAG)
    }

    /// Cutscene progress byte shared by the Priest and rescued Zelda
    /// during the opening rescue sequence.
    pub fn zelda_rescue_cutscene_state(&self) -> (result: u8)
        ensures
            result == access::byte_at(self.ram(), ZELDA_RESCUE_CUTSCENE_STATE as int),
    {
        byte(self.ram, ZELDA_RESCUE_CUTSCENE_STATE)
    }
}

pub struct FollowerStateViewMut<'a> {
    pub ram: &'a mut [u8],
}

impl<'a> FollowerStateViewMut<'a> {
    /// The bytes of RAM this view reads and writes.
    pub open spec fn ram(&self) -> Seq<u8> {
        self.ram@
    }

    pub fn new(ram: &'a mut [u8]) -> (view: Self)
        ensures
            view.ram() == old(ram)@,
            final(view.ram)@ == final(ram)@,
    {
        Self { ram }
    }

    pub fn set_indicator(&mut self, value: u8)
        requires
            FOLLOWER_INDICATOR < old(self).ram().len(),
        ensures
            final(self).ram() == old(self).ram().update(FOLLOWER_INDICATOR as int, value),
            final(final(self).ram)@ == final(old(self).ram)@,
    {
        self.ram[FOLLOWER_INDICATOR] = value;
    }

    pub fn set_data_index(&mut self, value: u8)
        requires
            TAGALONG_DATA_INDEX < old(self).ram().len(),
        ensures
            final(self).ram() == old(self).ram().update(TAGALONG_DATA_INDEX as int, value),
            final(final(self).ram)@ == final(old(self).ram)@,
    {
        self.ram[TAGALONG_DATA_INDEX] = value;
    }

    pub fn advance_data_index_wrapping_at_20(&mut self)
        requires
            TAGALONG_DATA_INDEX < old(self).ram().len(),
        ensures
            final(self).ram() == old(self).ram().update(
                TAGALONG_DATA_INDEX as int,
                if old(self).ram()[TAGALONG_DATA_INDEX as int].wrapping_add(1) >= 20 {
                    0u8
                } else {
                    old(self).ram()[TAGALONG_DATA_INDEX as int].wrapping_add(1)
                },
            ),
            final(final(self).ram)@ == final(old(self).ram)@,
    {
        self.ram[TAGALONG_DATA_INDEX] = if self.ram[TAGALONG_DATA_INDEX].wrapping_add(1) >= 20 {
            0
        } else {
            self.ram[TAGALONG_DATA_INDEX].wrapping_add(1)
        };
    }

    pub fn xor_indicator(&mut self, value: u8)
        requires
            FOLLOWER_INDICATOR < old(self).ram().len(),
        ensures
            final(self).ram() == old(self).ram().update(
                FOLLOWER_INDICATOR as int,
                old(self).ram()[FOLLOWER_INDICATOR as int] ^ value,
            ),
            final(final(self).ram)@ == final(old(self).ram)@,
    {
        self.ram[FOLLOWER_INDICATOR] ^= value;
    }

    pub fn set_appearance_none_flag(&mut self, value: u8)
        requires
            TAGALONG_APPEARANCE_NONE_FLAG < old(self).ram().len(),
        ensures
            final(self).ram() == old(self).ram().update(
                TAGALONG_APPEARANCE_NONE_FLAG as int,
                value,
            ),
            final(final(self).ram)@ == final(old(self).ram)@,
    {
        self.ram[TAGALONG_APPEARANCE_NONE_FLAG] = value;
    }

    pub fn set_dropped(&mut self, value: u8)
        requires
            FOLLOWER_DROPPED < old(self).ram().len(),
        ensures
            final(self).ram() == old(self).ram().update(FOLLOWER_DROPPED as int, value),
            final(final(self).ram)@ == final(old(self).ram)@,
    {
        self.ram[FOLLOWER_DROPPED] = value;
    }

    pub fn clear_hookshot_interlock(&mut self)
        requires
            TAGALONG_HOOKSHOT_INTERLOCK < old(self).ram().len(),
        ensures
            final(self).ram() == old(self).ram().update(TAGALONG_HOOKSHOT_INTERLOCK as int, 0u8),
            final(final(self).ram)@ == final(old(self).ram)@,
    {
        self.ram[TAGALONG_HOOKSHOT_INTERLOCK] = 0;
    }

    pub fn set_hookshot_interlock(&mut self)
        requires
            TAGALONG_HOOKSHOT_INTERLOCK < old(self).ram().len(),
        ensures
            final(self).ram() == old(self).ram().update(TAGALONG_HOOKSHOT_INTERLOCK as int, 1u8),
            final(final(self).ram)@ == final(old(self).ram)@,
    {
        self.ram[TAGALONG_HOOKSHOT_INTERLOCK] = 1;
    }

    pub fn clear_event_flags(&mut self)
        requires
            TAGALONG_EVENT_FLAGS < old(self).ram().len(),
        ensures
            final(self).ram() == old(self).ram().update(TAGALONG_EVENT_FLAGS as int, 0u8),
            final(final(self).ram)@ == final(old(self).ram)@,
    {
        self.ram[TAGALONG_EVENT_FLAGS] = 0;
    }

    pub fn or_event_flags(&mut self, value: u8)
        requires
            TAGALONG_EVENT_FLAGS < old(self).ram().len(),
        ensures
            final(self).ram() == old(self).ram().update(
                TAGALONG_EVENT_FLAGS as int,
                old(self).ram()[TAGALONG_EVENT_FLAGS as int] | value,
            ),
            final(final(self).ram)@ == final(old(self).ram)@,
    {
        self.ram[TAGALONG_EVENT_FLAGS] |= value;
    }

    pub fn and_event_flags(&mut self, value: u8)
        requires
            TAGALONG_EVENT_FLAGS < old(self).ram().len(),
        ensures
            final(self).ram() == old(self).ram().update(
                TAGALONG_EVENT_FLAGS as int,
                old(self).ram()[TAGALONG_EVENT_FLAGS as int] & value,
            ),
            final(final(self).ram)@ == final(old(self).ram)@,
    {
        self.ram[TAGALONG_EVENT_FLAGS] &= value;
    }

    pub fn set_hookshot_release_tail_index_from_tail_write_index(&mut self)
        requires
            FOLLOWER_HOOKSHOT_RELEASE_TAIL_INDEX < old(self).ram().len(),
            FOLLOWER_TAIL_WRITE_INDEX < old(self).ram().len(),
        ensures
            final(self).ram() == old(self).ram().update(
                FOLLOWER_HOOKSHOT_RELEASE_TAIL_INDEX as int,
                old(self).ram()[FOLLOWER_TAIL_WRITE_INDEX as int],
            ),
            final(final(self).ram)@ == final(old(self).ram)@,
    {
        self.ram[FOLLOWER_HOOKSHOT_RELEASE_TAIL_INDEX] = self.ram[FOLLOWER_TAIL_WRITE_INDEX];
    }

    pub fn set_tail_write_index(&mut self, value: u8)
        requires
            FOLLOWER_TAIL_WRITE_INDEX < old(self).ram().len(),
        ensures
            final(self).ram() == old(self).ram().update(FOLLOWER_TAIL_WRITE_INDEX as int, value),
            final(final(self).ram)@ == final(old(self).ram)@,
    {
        self.ram[FOLLOWER_TAIL_WRITE_INDEX] = value;
    }

    pub fn increment_tail_write_index(&mut self)
        requires
            FOLLOWER_TAIL_WRITE_INDEX < old(self).ram().len(),
        ensures
            final(self).ram() == old(self).ram().update(
                FOLLOWER_TAIL_WRITE_INDEX as int,
                old(self).ram()[FOLLOWER_TAIL_WRITE_INDEX as int].wrapping_add(1),
            ),
            final(final(self).ram)@ == final(old(self).ram)@,
    {
        self.ram[FOLLOWER_TAIL_WRITE_INDEX] = self.ram[FOLLOWER_TAIL_WRITE_INDEX].wrapping_add(1);
    }

    pub fn set_hookshot_release_tail_index(&mut self, value: u8)
        requires
            FOLLOWER_HOOKSHOT_RELEASE_TAIL_INDEX < old(self).ram().len(),
        ensures
            final(self).ram() == old(self).ram().update(
                FOLLOWER_HOOKSHOT_RELEASE_TAIL_INDEX as int,
                value,
            ),
            final(final(self).ram)@ == final(old(self).ram)@,
    {
        self.ram[FOLLOWER_HOOKSHOT_RELEASE_TAIL_INDEX] = value;
    }

    pub fn set_reacquire_timer_low(&mut self, value: u8)
        requires
            TIMER_TAGALONG_REACQUIRE < old(self).ram().len(),
        ensures
            final(self).ram() == old(self).ram().update(TIMER_TAGALONG_REACQUIRE as int, value),
            final(final(self).ram)@ == final(old(self).ram)@,
    {
        self.ram[TIMER_TAGALONG_REACQUIRE] = value;
    }

    pub fn decrement_reacquire_timer_low(&mut self)
        requires
            TIMER_TAGALONG_REACQUIRE < old(self).ram().len(),
        ensures
            final(self).ram() == old(self).ram().update(
                TIMER_TAGALONG_REACQUIRE as int,
                old(self).ram()[TIMER_TAGALONG_REACQUIRE as int].wrapping_sub(1),
            ),
            final(final(self).ram)@ == final(old(self).ram)@,
    {
        self.ram[TIMER_TAGALONG_REACQUIRE] = self.ram[TIMER_TAGALONG_REACQUIRE].wrapping_sub(1);
    }

    pub fn set_reacquire_timer(&mut self, value: u16)
        requires
            TIMER_TAGALONG_REACQUIRE + 1 < old(self).ram().len(),
        ensures
            final(self).ram() == types::with_u16(
                old(self).ram(),
                TIMER_TAGALONG_REACQUIRE as int,
                value,
            ),
            final(final(self).ram)@ == final(old(self).ram)@,
    {
        write_le_u16(self.ram, TIMER_TAGALONG_REACQUIRE, value);
    }

    pub fn clear_tagalong_shared_state_a(&mut self)
        requires
            TAGALONG_SHARED_STATE_A < old(self).ram().len(),
        ensures
            final(self).ram() == old(self).ram().update(TAGALONG_SHARED_STATE_A as int, 0u8),
            final(final(self).ram)@ == final(old(self).ram)@,
    {
        self.ram[TAGALONG_SHARED_STATE_A] = 0;
    }

    pub fn clear_draw_anim_frame(&mut self)
        requires
            TAGALONG_ANIM_FRAME_COUNTER < old(self).ram().len(),
        ensures
            final(self).ram() == old(self).ram().update(TAGALONG_ANIM_FRAME_COUNTER as int, 0u8),
            final(final(self).ram)@ == final(old(self).ram)@,
    {
        self.ram[TAGALONG_ANIM_FRAME_COUNTER] = 0;
    }

    pub fn increment_and_cycle_draw_anim_frame(&mut self)
        requires
            TAGALONG_ANIM_FRAME_COUNTER < old(self).ram().len(),
        ensures
            final(self).ram() == (if old(self).ram()[TAGALONG_ANIM_FRAME_COUNTER as int].wrapping_add(1) == 3 {
                old(self).ram()
                    .update(
                        TAGALONG_ANIM_FRAME_COUNTER as int,
                        old(self).ram()[TAGALONG_ANIM_FRAME_COUNTER as int].wrapping_add(1),
                    )
                    .update(TAGALONG_ANIM_FRAME_COUNTER as int, 0u8)
            } else {
                old(self).ram()
                    .update(
                        TAGALONG_ANIM_FRAME_COUNTER as int,
                        old(self).ram()[TAGALONG_ANIM_FRAME_COUNTER as int].wrapping_add(1),
                    )
            }),
            final(final(self).ram)@ == final(old(self).ram)@,
    {
        self.ram[TAGALONG_ANIM_FRAME_COUNTER] = self.ram[TAGALONG_ANIM_FRAME_COUNTER].wrapping_add(1);
        if self.ram[TAGALONG_ANIM_FRAME_COUNTER] == 3 {
            self.ram[TAGALONG_ANIM_FRAME_COUNTER] = 0;
        }
    }

    pub fn clear_jump_timer(&mut self)
        requires
            FOLLOWER_JUMP_TIMER < old(self).ram().len(),
        ensures
            final(self).ram() == old(self).ram().update(FOLLOWER_JUMP_TIMER as int, 0u8),
            final(final(self).ram)@ == final(old(self).ram)@,
    {
        self.ram[FOLLOWER_JUMP_TIMER] = 0;
    }

    pub fn set_saved_y(&mut self, value: u16)
        requires
            FOLLOWER_SAVED_Y + 1 < old(self).ram().len(),
        ensures
            final(self).ram() == types::with_u16(old(self).ram(), FOLLOWER_SAVED_Y as int, value),
            final(final(self).ram)@ == final(old(self).ram)@,
    {
        write_le_u16(self.ram, FOLLOWER_SAVED_Y, value);
    }

    pub fn set_saved_x(&mut self, value: u16)
        requires
            FOLLOWER_SAVED_X + 1 < old(self).ram().len(),
        ensures
            final(self).ram() == types::with_u16(old(self).ram(), FOLLOWER_SAVED_X as int, value),
            final(final(self).ram)@ == final(old(self).ram)@,
    {
        write_le_u16(self.ram, FOLLOWER_SAVED_X, value);
    }

    pub fn set_saved_indoor_flag(&mut self, value: u8)
        requires
            FOLLOWER_SAVED_INDOORS < old(self).ram().len(),
        ensures
            final(self).ram() == old(self).ram().update(FOLLOWER_SAVED_INDOORS as int, value),
            final(final(self).ram)@ == final(old(self).ram)@,
    {
        self.ram[FOLLOWER_SAVED_INDOORS] = value;
    }

    pub fn set_saved_floor(&mut self, value: u8)
        requires
            FOLLOWER_SAVED_FLOOR < old(self).ram().len(),
        ensures
            final(self).ram() == old(self).ram().update(FOLLOWER_SAVED_FLOOR as int, value),
            final(final(self).ram)@ == final(old(self).ram)@,
    {
        self.ram[FOLLOWER_SAVED_FLOOR] = value;
    }

    pub fn clear_kiki_anim_counter(&mut self)
        requires
            FOLLOWER_KIKI_ANIM_COUNTER < old(self).ram().len(),
        ensures
            final(self).ram() == old(self).ram().update(FOLLOWER_KIKI_ANIM_COUNTER as int, 0u8),
            final(final(self).ram)@ == final(old(self).ram)@,
    {
        self.ram[FOLLOWER_KIKI_ANIM_COUNTER] = 0;
    }

    pub fn set_zelda_rescue_cutscene_state(&mut self, value: u8)
        requires
            ZELDA_RESCUE_CUTSCENE_STATE < old(self).ram().len(),
        ensures
            final(self).ram() == old(self).ram().update(ZELDA_RESCUE_CUTSCENE_STATE as int, value),
            final(final(self).ram)@ == final(old(self).ram)@,
    {
        self.ram[ZELDA_RESCUE_CUTSCENE_STATE] = value;
    }
}

} // verus!

use vstd::prelude::*;
use super::access;
use super::access::{byte};
use super::addresses::{
    GAME_OVER_LETTER_CURSOR, MENU_ANIMATION_TIMER, MESSAGE_OR_SPRITE_STATE_CACHE, MESSAGING_MODULE,
    TEXT_RENDER_STATE, TEXT_WAIT_COUNTDOWN2,
};

verus! {

pub struct MessagingStateView<'a> {
    ram: &'a [u8],
}

impl<'a> MessagingStateView<'a> {
    /// The bytes of RAM this view reads and writes.
    pub closed spec fn ram(&self) -> Seq<u8> {
        self.ram@
    }

    pub fn new(ram: &'a [u8]) -> (view: Self)
        ensures
            view.ram() == ram@,
    {
        Self { ram }
    }

    pub fn module(&self) -> (result: u8)
        ensures
            result == access::byte_at(self.ram(), MESSAGING_MODULE as int),
    {
        byte(self.ram, MESSAGING_MODULE)
    }

    pub fn text_render_state(&self) -> (result: u8)
        ensures
            result == access::byte_at(self.ram(), TEXT_RENDER_STATE as int),
    {
        byte(self.ram, TEXT_RENDER_STATE)
    }

    pub fn text_wait_countdown2(&self) -> (result: u8)
        ensures
            result == access::byte_at(self.ram(), TEXT_WAIT_COUNTDOWN2 as int),
    {
        byte(self.ram, TEXT_WAIT_COUNTDOWN2)
    }

    pub fn menu_animation_timer(&self) -> (result: u8)
        ensures
            result == access::byte_at(self.ram(), MENU_ANIMATION_TIMER as int),
    {
        byte(self.ram, MENU_ANIMATION_TIMER)
    }

    pub fn game_over_letter_cursor(&self) -> (result: u8)
        ensures
            result == access::byte_at(self.ram(), GAME_OVER_LETTER_CURSOR as int),
    {
        byte(self.ram, GAME_OVER_LETTER_CURSOR)
    }

    pub fn effect_index(&self) -> (result: u8)
        ensures
            result == access::byte_at(self.ram(), GAME_OVER_LETTER_CURSOR as int),
    {
        byte(self.ram, GAME_OVER_LETTER_CURSOR)
    }
}

pub struct MessagingStateViewMut<'a> {
    pub ram: &'a mut [u8],
}

impl<'a> MessagingStateViewMut<'a> {
    /// The bytes of RAM this view reads and writes.
    pub open spec fn ram(&self) -> Seq<u8> {
        self.ram@
    }

    pub fn new(ram: &'a mut [u8]) -> (view: Self)
        ensures
            view.ram() == old(ram)@,
            final(view.ram)@ == final(ram)@,
    {
        Self { ram }
    }

    pub fn set_module(&mut self, value: u8)
        requires
            MESSAGING_MODULE < old(self).ram().len(),
        ensures
            final(self).ram() == old(self).ram().update(MESSAGING_MODULE as int, value),
            final(final(self).ram)@ == final(old(self).ram)@,
    {
        self.ram[MESSAGING_MODULE] = value;
    }

    pub fn clear_module(&mut self)
        requires
            MESSAGING_MODULE < old(self).ram().len(),
        ensures
            final(self).ram() == old(self).ram().update(MESSAGING_MODULE as int, 0u8),
            final(final(self).ram)@ == final(old(self).ram)@,
    {
        self.ram[MESSAGING_MODULE] = 0;
    }

    pub fn clear_message_or_sprite_state_cache(&mut self)
        requires
            MESSAGE_OR_SPRITE_STATE_CACHE < old(self).ram().len(),
        ensures
            final(self).ram() == old(self).ram().update(MESSAGE_OR_SPRITE_STATE_CACHE as int, 0u8),
            final(final(self).ram)@ == final(old(self).ram)@,
    {
        self.ram[MESSAGE_OR_SPRITE_STATE_CACHE] = 0;
    }

    pub fn set_text_render_state(&mut self, value: u8)
        requires
            TEXT_RENDER_STATE < old(self).ram().len(),
        ensures
            final(self).ram() == old(self).ram().update(TEXT_RENDER_STATE as int, value),
            final(final(self).ram)@ == final(old(self).ram)@,
    {
        self.ram[TEXT_RENDER_STATE] = value;
    }

    pub fn increment_text_render_state(&mut self) -> (result: u8)
        requires
            TEXT_RENDER_STATE < old(self).ram().len(),
        ensures
            result == old(self).ram()[TEXT_RENDER_STATE as int].wrapping_add(1),
            final(self).ram() == old(self).ram().update(
                TEXT_RENDER_STATE as int,
                old(self).ram()[TEXT_RENDER_STATE as int].wrapping_add(1),
            ),
            final(final(self).ram)@ == final(old(self).ram)@,
    {
        self.ram[TEXT_RENDER_STATE] = self.ram[TEXT_RENDER_STATE].wrapping_add(1);
        self.ram[TEXT_RENDER_STATE]
    }

    pub fn set_text_wait_countdown2(&mut self, value: u8)
        requires
            TEXT_WAIT_COUNTDOWN2 < old(self).ram().len(),
        ensures
            final(self).ram() == old(self).ram().update(TEXT_WAIT_COUNTDOWN2 as int, value),
            final(final(self).ram)@ == final(old(self).ram)@,
    {
        self.ram[TEXT_WAIT_COUNTDOWN2] = value;
    }

    pub fn clear_text_wait_countdown2(&mut self)
        requires
            TEXT_WAIT_COUNTDOWN2 < old(self).ram().len(),
        ensures
            final(self).ram() == old(self).ram().update(TEXT_WAIT_COUNTDOWN2 as int, 0u8),
            final(final(self).ram)@ == final(old(self).ram)@,
    {
        self.ram[TEXT_WAIT_COUNTDOWN2] = 0;
    }

    pub fn decrement_text_wait_countdown2(&mut self) -> (result: u8)
        requires
            TEXT_WAIT_COUNTDOWN2 < old(self).ram().len(),
        ensures
            result == old(self).ram()[TEXT_WAIT_COUNTDOWN2 as int].wrapping_sub(1),
            final(self).ram() == old(self).ram().update(
                TEXT_WAIT_COUNTDOWN2 as int,
                old(self).ram()[TEXT_WAIT_COUNTDOWN2 as int].wrapping_sub(1),
            ),
            final(final(self).ram)@ == final(old(self).ram)@,
    {
        self.ram[TEXT_WAIT_COUNTDOWN2] = self.ram[TEXT_WAIT_COUNTDOWN2].wrapping_sub(1);
        self.ram[TEXT_WAIT_COUNTDOWN2]
    }

    pub fn set_menu_animation_timer(&mut self, value: u8)
        requires
            MENU_ANIMATION_TIMER < old(self).ram().len(),
        ensures
            final(self).ram() == old(self).ram().update(MENU_ANIMATION_TIMER as int, value),
            final(final(self).ram)@ == final(old(self).ram)@,
    {
        self.ram[MENU_ANIMATION_TIMER] = value;
    }

    pub fn decrement_menu_animation_timer(&mut self) -> (result: u8)
        requires
            MENU_ANIMATION_TIMER < old(self).ram().len(),
        ensures
            result == old(self).ram()[MENU_ANIMATION_TIMER as int].wrapping_sub(1),
            final(self).ram() == old(self).ram().update(
                MENU_ANIMATION_TIMER as int,
                old(self).ram()[MENU_ANIMATION_TIMER as int].wrapping_sub(1),
            ),
            final(final(self).ram)@ == final(old(self).ram)@,
    {
        self.ram[MENU_ANIMATION_TIMER] = self.ram[MENU_ANIMATION_TIMER].wrapping_sub(1);
        self.ram[MENU_ANIMATION_TIMER]
    }

    pub fn set_game_over_letter_cursor(&mut self, value: u8)
        requires
            GAME_OVER_LETTER_CURSOR < old(self).ram().len(),
        ensures
            final(self).ram() == old(self).ram().update(GAME_OVER_LETTER_CURSOR as int, value),
            final(final(self).ram)@ == final(old(self).ram)@,
    {
        self.ram[GAME_OVER_LETTER_CURSOR] = value;
    }

    pub fn set_effect_index(&mut self, value: u8)
        requires
            GAME_OVER_LETTER_CURSOR < old(self).ram().len(),
        ensures
            final(self).ram() == old(self).ram().update(GAME_OVER_LETTER_CURSOR as int, value),
            final(final(self).ram)@ == final(old(self).ram)@,
    {
        self.ram[GAME_OVER_LETTER_CURSOR] = value;
    }

    pub fn or_effect_index(&mut self, value: u8)
        requires
            GAME_OVER_LETTER_CURSOR < old(self).ram().len(),
        ensures
            final(self).ram() == old(self).ram().update(
                GAME_OVER_LETTER_CURSOR as int,
                old(self).ram()[GAME_OVER_LETTER_CURSOR as int] | value,
            ),
            final(final(self).ram)@ == final(old(self).ram)@,
    {
        self.ram[GAME_OVER_LETTER_CURSOR] |= value;
    }

    pub fn clear_game_over_letter_cursor(&mut self)
        requires
            GAME_OVER_LETTER_CURSOR < old(self).ram().len(),
        ensures
            final(self).ram() == old(self).ram().update(GAME_OVER_LETTER_CURSOR as int, 0u8),
            final(final(self).ram)@ == final(old(self).ram)@,
    {
        self.ram[GAME_OVER_LETTER_CURSOR] = 0;
    }

    pub fn clear_effect_index(&mut self)
        requires
            GAME_OVER_LETTER_CURSOR < old(self).ram().len(),
        ensures
            final(self).ram() == old(self).ram().update(GAME_OVER_LETTER_CURSOR as int, 0u8),
            final(final(self).ram)@ == final(old(self).ram)@,
    {
        self.ram[GAME_OVER_LETTER_CURSOR] = 0;
    }

    pub fn increment_game_over_letter_cursor(&mut self) -> (result: u8)
        requires
            GAME_OVER_LETTER_CURSOR < old(self).ram().len(),
        ensures
            result == old(self).ram()[GAME_OVER_LETTER_CURSOR as int].wrapping_add(1),
            final(self).ram() == old(self).ram().update(
                GAME_OVER_LETTER_CURSOR as int,
                old(self).ram()[GAME_OVER_LETTER_CURSOR as int].wrapping_add(1),
            ),
            final(final(self).ram)@ == final(old(self).ram)@,
    {
        self.ram[GAME_OVER_LETTER_CURSOR] = self.ram[GAME_OVER_LETTER_CURSOR].wrapping_add(1);
        self.ram[GAME_OVER_LETTER_CURSOR]
    }

    pub fn decrement_game_over_letter_cursor(&mut self) -> (result: u8)
        requires
            GAME_OVER_LETTER_CURSOR < old(self).ram().len(),
        ensures
            result == old(self).ram()[GAME_OVER_LETTER_CURSOR as int].wrapping_sub(1),
            final(self).ram() == old(self).ram().update(
                GAME_OVER_LETTER_CURSOR as int,
                old(self).ram()[GAME_OVER_LETTER_CURSOR as int].wrapping_sub(1),
            ),
            final(final(self).ram)@ == final(old(self).ram)@,
    {
        self.ram[GAME_OVER_LETTER_CURSOR] = self.ram[GAME_OVER_LETTER_CURSOR].wrapping_sub(1);
        self.ram[GAME_OVER_LETTER_CURSOR]
    }
}

} // verus!

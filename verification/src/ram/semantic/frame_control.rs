use vstd::prelude::*;
use super::access;
use super::access::{byte, word};
use super::addresses::{
    FRAME_COUNTER, MAIN_MODULE, MODAL_PAUSE_FLAG, NMI_THREAD_ACTIVE, POLY_THREAD_STACK,
    RUN_MAIN_THREAD, RUN_POLY_THREAD, SAVED_MODULE_FOR_MENU, SUBMODULE, SUBSUBMODULE,
};

verus! {

pub struct FrameControlView<'a> {
    ram: &'a [u8],
}

impl<'a> FrameControlView<'a> {
    /// The bytes of RAM this view reads and writes.
    pub closed spec fn ram(&self) -> Seq<u8> {
        self.ram@
    }

    pub fn new(ram: &'a [u8]) -> (view: Self)
        ensures
            view.ram() == ram@,
    {
        Self { ram }
    }

    pub fn main_module(&self) -> (result: u8)
        ensures
            result == access::byte_at(self.ram(), MAIN_MODULE as int),
    {
        byte(self.ram, MAIN_MODULE)
    }

    pub fn submodule(&self) -> (result: u8)
        ensures
            result == access::byte_at(self.ram(), SUBMODULE as int),
    {
        byte(self.ram, SUBMODULE)
    }

    pub fn subsubmodule(&self) -> (result: u8)
        ensures
            result == access::byte_at(self.ram(), SUBSUBMODULE as int),
    {
        byte(self.ram, SUBSUBMODULE)
    }

    pub fn frame_counter(&self) -> (result: u8)
        ensures
            result == access::byte_at(self.ram(), FRAME_COUNTER as int),
    {
        byte(self.ram, FRAME_COUNTER)
    }

    pub fn saved_module_for_menu(&self) -> (result: u8)
        ensures
            result == access::byte_at(self.ram(), SAVED_MODULE_FOR_MENU as int),
    {
        byte(self.ram, SAVED_MODULE_FOR_MENU)
    }

    pub fn modal_pause_flag(&self) -> (result: u8)
        ensures
            result == access::byte_at(self.ram(), MODAL_PAUSE_FLAG as int),
    {
        byte(self.ram, MODAL_PAUSE_FLAG)
    }

    pub fn nmi_thread_active(&self) -> (result: bool)
        ensures
            result == (access::byte_at(self.ram(), NMI_THREAD_ACTIVE as int) != 0),
    {
        byte(self.ram, NMI_THREAD_ACTIVE) != 0
    }

    pub fn selected_run_thread(&self) -> (result: u8)
        ensures
            result == (if (access::byte_at(self.ram(), NMI_THREAD_ACTIVE as int) != 0) && (access::word_at(self.ram(), POLY_THREAD_STACK as int) != 0x1f31) {
                RUN_POLY_THREAD
            } else {
                RUN_MAIN_THREAD
            }),
    {
        if self.nmi_thread_active() && word(self.ram, POLY_THREAD_STACK) != 0x1f31 {
            RUN_POLY_THREAD
        } else {
            RUN_MAIN_THREAD
        }
    }
}

pub struct FrameControlViewMut<'a> {
    pub ram: &'a mut [u8],
}

impl<'a> FrameControlViewMut<'a> {
    /// The bytes of RAM this view reads and writes.
    pub open spec fn ram(&self) -> Seq<u8> {
        self.ram@
    }

    pub fn new(ram: &'a mut [u8]) -> (view: Self)
        ensures
            view.ram() == old(ram)@,
            final(view.ram)@ == final(ram)@,
    {
        Self { ram }
    }

    pub fn set_main_module(&mut self, value: u8)
        requires
            MAIN_MODULE < old(self).ram().len(),
        ensures
            final(self).ram() == old(self).ram().update(MAIN_MODULE as int, value),
            final(final(self).ram)@ == final(old(self).ram)@,
    {
        self.ram[MAIN_MODULE] = value;
    }

    pub fn set_submodule(&mut self, value: u8)
        requires
            SUBMODULE < old(self).ram().len(),
        ensures
            final(self).ram() == old(self).ram().update(SUBMODULE as int, value),
            final(final(self).ram)@ == final(old(self).ram)@,
    {
        self.ram[SUBMODULE] = value;
    }

    pub fn set_subsubmodule(&mut self, value: u8)
        requires
            SUBSUBMODULE < old(self).ram().len(),
        ensures
            final(self).ram() == old(self).ram().update(SUBSUBMODULE as int, value),
            final(final(self).ram)@ == final(old(self).ram)@,
    {
        self.ram[SUBSUBMODULE] = value;
    }

    pub fn increment_submodule(&mut self)
        requires
            SUBMODULE < old(self).ram().len(),
        ensures
            final(self).ram() == old(self).ram().update(
                SUBMODULE as int,
                old(self).ram()[SUBMODULE as int].wrapping_add(1),
            ),
            final(final(self).ram)@ == final(old(self).ram)@,
    {
        self.ram[SUBMODULE] = self.ram[SUBMODULE].wrapping_add(1);
    }

    pub fn decrement_submodule(&mut self)
        requires
            SUBMODULE < old(self).ram().len(),
        ensures
            final(self).ram() == old(self).ram().update(
                SUBMODULE as int,
                old(self).ram()[SUBMODULE as int].wrapping_sub(1),
            ),
            final(final(self).ram)@ == final(old(self).ram)@,
    {
        self.ram[SUBMODULE] = self.ram[SUBMODULE].wrapping_sub(1);
    }

    pub fn increment_subsubmodule(&mut self)
        requires
            SUBSUBMODULE < old(self).ram().len(),
        ensures
            final(self).ram() == old(self).ram().update(
                SUBSUBMODULE as int,
                old(self).ram()[SUBSUBMODULE as int].wrapping_add(1),
            ),
            final(final(self).ram)@ == final(old(self).ram)@,
    {
        self.ram[SUBSUBMODULE] = self.ram[SUBSUBMODULE].wrapping_add(1);
    }

    pub fn decrement_subsubmodule(&mut self)
        requires
            SUBSUBMODULE < old(self).ram().len(),
        ensures
            final(self).ram() == old(self).ram().update(
                SUBSUBMODULE as int,
                old(self).ram()[SUBSUBMODULE as int].wrapping_sub(1),
            ),
            final(final(self).ram)@ == final(old(self).ram)@,
    {
        self.ram[SUBSUBMODULE] = self.ram[SUBSUBMODULE].wrapping_sub(1);
    }

    pub fn set_frame_counter(&mut self, value: u8)
        requires
            FRAME_COUNTER < old(self).ram().len(),
        ensures
            final(self).ram() == old(self).ram().update(FRAME_COUNTER as int, value),
            final(final(self).ram)@ == final(old(self).ram)@,
    {
        self.ram[FRAME_COUNTER] = value;
    }

    pub fn set_saved_module_for_menu(&mut self, value: u8)
        requires
            SAVED_MODULE_FOR_MENU < old(self).ram().len(),
        ensures
            final(self).ram() == old(self).ram().update(SAVED_MODULE_FOR_MENU as int, value),
            final(final(self).ram)@ == final(old(self).ram)@,
    {
        self.ram[SAVED_MODULE_FOR_MENU] = value;
    }

    pub fn clear_saved_module_for_menu(&mut self)
        requires
            SAVED_MODULE_FOR_MENU < old(self).ram().len(),
        ensures
            final(self).ram() == old(self).ram().update(SAVED_MODULE_FOR_MENU as int, 0),
            final(final(self).ram)@ == final(old(self).ram)@,
    {
        self.set_saved_module_for_menu(0);
    }

    pub fn save_main_module_for_menu(&mut self)
        requires
            SAVED_MODULE_FOR_MENU < old(self).ram().len(),
            MAIN_MODULE < old(self).ram().len(),
        ensures
            final(self).ram() == old(self).ram().update(
                SAVED_MODULE_FOR_MENU as int,
                old(self).ram()[MAIN_MODULE as int],
            ),
            final(final(self).ram)@ == final(old(self).ram)@,
    {
        self.ram[SAVED_MODULE_FOR_MENU] = self.ram[MAIN_MODULE];
    }

    pub fn save_submodule_for_menu(&mut self)
        requires
            SAVED_MODULE_FOR_MENU < old(self).ram().len(),
            SUBMODULE < old(self).ram().len(),
        ensures
            final(self).ram() == old(self).ram().update(
                SAVED_MODULE_FOR_MENU as int,
                old(self).ram()[SUBMODULE as int],
            ),
            final(final(self).ram)@ == final(old(self).ram)@,
    {
        self.ram[SAVED_MODULE_FOR_MENU] = self.ram[SUBMODULE];
    }

    pub fn increment_frame_counter(&mut self)
        requires
            FRAME_COUNTER < old(self).ram().len(),
        ensures
            final(self).ram() == old(self).ram().update(
                FRAME_COUNTER as int,
                old(self).ram()[FRAME_COUNTER as int].wrapping_add(1),
            ),
            final(final(self).ram)@ == final(old(self).ram)@,
    {
        self.ram[FRAME_COUNTER] = self.ram[FRAME_COUNTER].wrapping_add(1);
    }

    pub fn clear_modal_pause_flag(&mut self)
        requires
            MODAL_PAUSE_FLAG < old(self).ram().len(),
        ensures
            final(self).ram() == old(self).ram().update(MODAL_PAUSE_FLAG as int, 0u8),
            final(final(self).ram)@ == final(old(self).ram)@,
    {
        self.ram[MODAL_PAUSE_FLAG] = 0;
    }

    pub fn set_modal_pause_flag(&mut self, value: u8)
        requires
            MODAL_PAUSE_FLAG < old(self).ram().len(),
        ensures
            final(self).ram() == old(self).ram().update(MODAL_PAUSE_FLAG as int, value),
            final(final(self).ram)@ == final(old(self).ram)@,
    {
        self.ram[MODAL_PAUSE_FLAG] = value;
    }

    pub fn increment_modal_pause_flag(&mut self) -> (result: u8)
        requires
            MODAL_PAUSE_FLAG < old(self).ram().len(),
        ensures
            result == old(self).ram()[MODAL_PAUSE_FLAG as int].wrapping_add(1),
            final(self).ram() == old(self).ram().update(
                MODAL_PAUSE_FLAG as int,
                old(self).ram()[MODAL_PAUSE_FLAG as int].wrapping_add(1),
            ),
            final(final(self).ram)@ == final(old(self).ram)@,
    {
        self.ram[MODAL_PAUSE_FLAG] = self.ram[MODAL_PAUSE_FLAG].wrapping_add(1);
        self.ram[MODAL_PAUSE_FLAG]
    }
}

} // verus!

//! The I/O bank of the processor's address space: the sound registers, which
//! are stubs, and the first controller port.

use vstd::prelude::*;
use crate::addressable::{Address, Addressable, Result};
use crate::bits::lemma_shift_is_arithmetic;

verus! {

pub const STATUS: Address = 0x15;

pub const JOY1: Address = 0x16;

pub const FRAME_COUNTER: Address = 0x17;

pub const BUTTON_A: u8 = 0x01;

pub const BUTTON_B: u8 = 0x02;

pub const BUTTON_SELECT: u8 = 0x04;

pub const BUTTON_START: u8 = 0x08;

pub const BUTTON_UP: u8 = 0x10;

pub const BUTTON_DOWN: u8 = 0x20;

pub const BUTTON_LEFT: u8 = 0x40;

pub const BUTTON_RIGHT: u8 = 0x80;

struct IoRegisters {
    joy1: u8,
}

impl IoRegisters {
    fn new() -> (r: Self)
        ensures
            r.joy1 == 0,
    {
        IoRegisters { joy1: 0 }
    }
}

/// The I/O bank.
pub struct Io {
    registers: IoRegisters,
    joy1: u8,
}

/// What the I/O bank holds: the buttons pressed since the last capture, and
/// the captured buttons that software has not read yet.
pub struct IoState {
    /// The buttons pressed since the last capture, one bit each.
    pub shadow: u8,
    /// The captured buttons, next to be read in bit 0.
    pub latch: u8,
}

impl View for Io {
    type V = IoState;

    closed spec fn view(&self) -> IoState {
        IoState { shadow: self.joy1, latch: self.registers.joy1 }
    }
}

impl Io {
    pub fn new() -> (r: Self)
        ensures
            r@ == (IoState { shadow: 0, latch: 0 }),
    {
        Io { registers: IoRegisters::new(), joy1: 0 }
    }

    /// Reports buttons of the first controller as pressed: their bits are
    /// added to the shadow register.
    pub fn joy1_press(&mut self, button: u8)
        ensures
            final(self)@ == (IoState { shadow: old(self)@.shadow | button, ..old(self)@ }),
    {
        self.joy1 |= button;
    }
}

impl Addressable for Io {
    /// A read of the first controller port answers the lowest bit of the
    /// latch and shifts the latch right by one; every other read answers zero.
    open spec fn spec_read8(s: IoState, address: Address) -> (Result<u8>, IoState) {
        if address == JOY1 {
            (Ok(s.latch % 2), IoState { latch: s.latch / 2, ..s })
        } else {
            (Ok(0), s)
        }
    }

    /// Writing zero to the first controller port moves the shadow register to
    /// the latch and clears the shadow; every other write is ignored.
    open spec fn spec_write8(s: IoState, address: Address, data: u8) -> (Result<()>, IoState) {
        if address == JOY1 && data == 0 {
            (Ok(()), IoState { shadow: 0, latch: s.shadow })
        } else {
            (Ok(()), s)
        }
    }

    fn write8(&mut self, address: Address, data: u8) -> (r: Result<()>) {
        match address {
            0x16 => {
                if data == 0 {
                    self.registers.joy1 = self.joy1;
                    self.joy1 = 0;
                }
            },
            _ => {},
        }
        Ok(())
    }

    fn read8(&mut self, address: Address) -> (r: Result<u8>) {
        match address {
            0x16 => {
                let latch = self.registers.joy1;
                proof {
                    lemma_shift_is_arithmetic(latch);
                    assert(latch & 0x01 == latch % 2) by (bit_vector);
                }
                let data = latch & 0x01;
                self.registers.joy1 = latch >> 1;
                Ok(data)
            },
            _ => Ok(0),
        }
    }
}

} // verus!

//! The register file as a plain value, and the layout of the status byte.

use vstd::prelude::*;
use crate::bitfield::{bit_of, with_bit};

verus! {

/// The flags of the status register that this core models.
#[derive(Debug, Clone, Copy, PartialEq, Eq, Structural)]
pub enum StatusFlag {
    Carry,
    Zero,
    InterruptDisable,
    DecimalMode,
    Overflow,
    Negative,
}

impl StatusFlag {
    /// Bit position of the flag within the status byte.
    pub open spec fn bit(self) -> u8 {
        match self {
            StatusFlag::Carry => 0,
            StatusFlag::Zero => 1,
            StatusFlag::InterruptDisable => 2,
            StatusFlag::DecimalMode => 3,
            StatusFlag::Overflow => 6,
            StatusFlag::Negative => 7,
        }
    }

    /// Bit position of the flag within the status byte.
    pub fn index(self) -> (r: u8)
        ensures
            r == self.bit(),
            r < 8,
    {
        match self {
            StatusFlag::Carry => 0,
            StatusFlag::Zero => 1,
            StatusFlag::InterruptDisable => 2,
            StatusFlag::DecimalMode => 3,
            StatusFlag::Overflow => 6,
            StatusFlag::Negative => 7,
        }
    }
}

/// The 8-bit registers an instruction can name as source or destination.
#[derive(Debug, Clone, Copy, PartialEq, Eq, Structural)]
pub enum Register {
    A,
    X,
    Y,
    S,
}

/// Status byte after reset: interrupts disabled, bit 5 set.
pub const RESET_STATUS: u8 = 0x24;

/// Stack pointer after reset.
pub const RESET_STACK_POINTER: u8 = 0xFD;

/// Address of the low byte of the reset vector.
pub const RESET_VECTOR: u16 = 0xFFFC;

/// A snapshot of the register file.
#[derive(Debug, Clone, Copy, PartialEq, Eq, Structural)]
pub struct Registers {
    /// Accumulator.
    pub a: u8,
    /// Index register X.
    pub x: u8,
    /// Index register Y.
    pub y: u8,
    /// Program counter: the address of the next byte to fetch.
    pub pc: u16,
    /// Stack pointer.
    pub s: u8,
    /// Status byte.
    pub p: u8,
}

impl Registers {
    /// Whether `flag` is set.
    pub open spec fn flag(self, flag: StatusFlag) -> bool {
        bit_of(self.p, flag.bit())
    }

    /// The value held by `register`.
    pub open spec fn get(self, register: Register) -> u8 {
        match register {
            Register::A => self.a,
            Register::X => self.x,
            Register::Y => self.y,
            Register::S => self.s,
        }
    }

    /// These registers with `register` replaced by `value`.
    pub open spec fn set(self, register: Register, value: u8) -> Registers {
        match register {
            Register::A => Registers { a: value, ..self },
            Register::X => Registers { x: value, ..self },
            Register::Y => Registers { y: value, ..self },
            Register::S => Registers { s: value, ..self },
        }
    }

    /// These registers with `flag` forced to `on`.
    pub open spec fn with_flag(self, flag: StatusFlag, on: bool) -> Registers {
        Registers { p: with_bit(self.p, flag.bit(), on), ..self }
    }

    /// These registers with Zero and Negative describing `result`: Zero is
    /// set exactly when `result` is zero, Negative exactly when its bit 7 is.
    pub open spec fn with_zero_negative(self, result: u8) -> Registers {
        self.with_flag(StatusFlag::Zero, result == 0).with_flag(
            StatusFlag::Negative,
            bit_of(result, 7),
        )
    }

    /// The registers as reset leaves them, about to fetch from `entry`.
    pub open spec fn reset(entry: u16) -> Registers {
        Registers { a: 0, x: 0, y: 0, pc: entry, s: RESET_STACK_POINTER, p: RESET_STATUS }
    }
}

} // verus!

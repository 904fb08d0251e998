//! The thirteen addressing modes and what each resolves to.

use vstd::prelude::*;
use crate::fault::Fault;
use crate::ram::read_at;
use crate::registers::Registers;

verus! {

/// How an instruction finds its operand.
#[derive(Debug, Clone, Copy, PartialEq, Eq, Structural)]
pub enum AddressingMode {
    Accumulator,
    Absolute,
    AbsoluteX,
    AbsoluteY,
    Immediate,
    Implied,
    Indirect,
    /// `(zp,X)`
    IndexedIndirect,
    /// `(zp),Y`
    IndirectIndexed,
    Relative,
    ZeroPage,
    ZeroPageX,
    ZeroPageY,
}

/// A resolved operand.
#[derive(Debug, Clone, Copy, PartialEq, Eq, Structural)]
pub struct Operand {
    /// The operand's value.
    pub value: u16,
    /// The memory cell the operand names, for the modes that name one.
    pub address: Option<u16>,
    /// Whether indexing or branching left the 256-byte page it started on.
    pub page_crossed: bool,
}

/// Registers and operand after resolution. When resolution faults, `regs`
/// still shows how far the program counter got.
pub struct Resolved {
    pub regs: Registers,
    pub operand: Result<Operand, Fault>,
}

/// Whether two addresses lie on different 256-byte pages.
pub open spec fn crosses_page(from: u16, to: u16) -> bool {
    from / 256 != to / 256
}

/// `base + index`, wrapped to the 16 bits of the address bus.
pub open spec fn offset_address(base: u16, index: u8) -> u16 {
    ((base + index) % 0x10000) as u16
}

/// `base + index`, wrapped to stay inside the zero page.
pub open spec fn offset_zero_page(base: u8, index: u8) -> u16 {
    ((base + index) % 0x100) as u16
}

/// The little-endian word made of `low` and `high`.
pub open spec fn word(low: u8, high: u8) -> u16 {
    (low + 256 * high) as u16
}

/// The little-endian word stored at `addr` and the address after it.
pub open spec fn read_word_at(mem: Seq<u8>, addr: u16) -> u16 {
    word(read_at(mem, addr), read_at(mem, offset_address(addr, 1)))
}

/// A branch offset byte read as a two's-complement number.
pub open spec fn signed_offset(byte: u8) -> int {
    if byte < 0x80 {
        byte as int
    } else {
        byte - 0x100
    }
}

impl AddressingMode {
    /// Whether the operand names a memory cell.
    pub open spec fn names_cell(self) -> bool {
        !(self is Accumulator || self is Immediate || self is Implied || self is Relative)
    }

    /// Number of operand bytes that follow the opcode.
    pub open spec fn operand_len(self) -> int {
        match self {
            AddressingMode::Accumulator | AddressingMode::Implied => 0,
            AddressingMode::Absolute
            | AddressingMode::AbsoluteX
            | AddressingMode::AbsoluteY
            | AddressingMode::Indirect => 2,
            _ => 1,
        }
    }
}

impl Operand {
    /// The operand held by memory cell `address`.
    pub open spec fn in_memory(mem: Seq<u8>, address: u16, page_crossed: bool) -> Operand {
        Operand { value: read_at(mem, address) as u16, address: Some(address), page_crossed }
    }

    /// An operand that is itself an address: a branch target, or the word
    /// that a pointer leads to.
    pub open spec fn target(address: u16, page_crossed: bool) -> Operand {
        Operand { value: address, address: Some(address), page_crossed }
    }

    /// An operand that names no memory cell.
    pub open spec fn literal(value: u8) -> Operand {
        Operand { value: value as u16, address: None, page_crossed: false }
    }
}

/// Resolves the operand of an instruction whose opcode has just been
/// fetched, so that `regs.pc` addresses the first operand byte.
///
/// The program counter moves past the operand bytes. If it cannot, because
/// they reach the end of the address space, resolution faults and the
/// program counter stays. A branch target outside the address space faults
/// after the offset byte has been consumed.
///
/// Indexed absolute addresses do not include the carry flag. Effective
/// addresses wrap at 16 bits, zero-page indexing wraps at 8. Indirect and
/// indexed indirect resolve to the word that the pointer leads to, as address
/// and as value alike; the other memory modes have the byte at the address
/// as their value.
pub open spec fn resolve(regs: Registers, mem: Seq<u8>, mode: AddressingMode) -> Resolved {
    if regs.pc + mode.operand_len() > 0xFFFF {
        Resolved { regs, operand: Err(Fault::ArithmeticOverflow) }
    } else {
        let after = Registers { pc: (regs.pc + mode.operand_len()) as u16, ..regs };
        let byte = read_at(mem, regs.pc);
        let base = read_word_at(mem, regs.pc);
        let operand = match mode {
            AddressingMode::Accumulator => Ok(Operand::literal(regs.a)),
            AddressingMode::Implied => Ok(Operand::literal(0)),
            AddressingMode::Immediate => Ok(Operand::literal(byte)),
            AddressingMode::Absolute => Ok(Operand::in_memory(mem, base, false)),
            AddressingMode::AbsoluteX => {
                let address = offset_address(base, regs.x);
                Ok(Operand::in_memory(mem, address, crosses_page(base, address)))
            },
            AddressingMode::AbsoluteY => {
                let address = offset_address(base, regs.y);
                Ok(Operand::in_memory(mem, address, crosses_page(base, address)))
            },
            AddressingMode::Indirect => Ok(Operand::target(read_word_at(mem, base), false)),
            AddressingMode::IndexedIndirect => {
                let pointer = offset_zero_page(byte, regs.x);
                Ok(Operand::target(read_word_at(mem, pointer), false))
            },
            AddressingMode::IndirectIndexed => {
                let pointed = read_word_at(mem, byte as u16);
                let address = offset_address(pointed, regs.y);
                Ok(Operand::in_memory(mem, address, crosses_page(pointed, address)))
            },
            AddressingMode::Relative => {
                let target = after.pc + signed_offset(byte);
                if 0 <= target <= 0xFFFF {
                    Ok(Operand::target(target as u16, crosses_page(after.pc, target as u16)))
                } else {
                    Err(Fault::ArithmeticOverflow)
                }
            },
            AddressingMode::ZeroPage => Ok(Operand::in_memory(mem, byte as u16, false)),
            AddressingMode::ZeroPageX => Ok(
                Operand::in_memory(mem, offset_zero_page(byte, regs.x), false),
            ),
            AddressingMode::ZeroPageY => Ok(
                Operand::in_memory(mem, offset_zero_page(byte, regs.y), false),
            ),
        };
        Resolved { regs: after, operand }
    }
}

} // verus!

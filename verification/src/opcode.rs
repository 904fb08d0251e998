//! The dispatch table: which operation, addressing mode and base cycle
//! count each opcode byte selects.

use vstd::prelude::*;
use crate::addressing::AddressingMode;

verus! {

/// The operations this core executes, by mnemonic.
#[derive(Debug, Clone, Copy, PartialEq, Eq, Structural)]
pub enum Operation {
    Bcc,
    Bcs,
    Beq,
    Bit,
    Bmi,
    Bne,
    Bpl,
    Brk,
    Cld,
    Dec,
    Dex,
    Dey,
    Inc,
    Inx,
    Iny,
    Jmp,
    Lda,
    Ldx,
    Ldy,
    Nop,
    Sei,
    Sta,
    Stx,
    Sty,
    Tax,
    Tay,
    Tsx,
    Txa,
    Txs,
    Tya,
}

/// One row of the dispatch table.
#[derive(Debug, Clone, Copy, PartialEq, Eq, Structural)]
pub struct Instruction {
    pub operation: Operation,
    pub mode: AddressingMode,
    /// Cycles the instruction takes before any page-crossing or
    /// branch-taken penalty.
    pub cycles: u8,
}

impl Instruction {
    /// The row binding `operation` to `mode` at `cycles` base cycles.
    pub open spec fn of(operation: Operation, mode: AddressingMode, cycles: u8) -> Instruction {
        Instruction { operation, mode, cycles }
    }

    /// Number of bytes the instruction occupies, opcode included.
    pub open spec fn len(self) -> int {
        1 + self.mode.operand_len()
    }
}

/// The dispatch table. An opcode without a row is not executable.
pub open spec fn decode(opcode: u8) -> Option<Instruction> {
    match opcode {
        0x00 => Some(Instruction::of(Operation::Brk, AddressingMode::Implied, 7)),
        0x10 => Some(Instruction::of(Operation::Bpl, AddressingMode::Relative, 2)),
        0x24 => Some(Instruction::of(Operation::Bit, AddressingMode::ZeroPage, 3)),
        0x2C => Some(Instruction::of(Operation::Bit, AddressingMode::Absolute, 4)),
        0x30 => Some(Instruction::of(Operation::Bmi, AddressingMode::Relative, 2)),
        0x4C => Some(Instruction::of(Operation::Jmp, AddressingMode::Absolute, 3)),
        0x6C => Some(Instruction::of(Operation::Jmp, AddressingMode::Indirect, 5)),
        0x78 => Some(Instruction::of(Operation::Sei, AddressingMode::Implied, 2)),
        0x81 => Some(Instruction::of(Operation::Sta, AddressingMode::IndexedIndirect, 6)),
        0x84 => Some(Instruction::of(Operation::Sty, AddressingMode::ZeroPage, 3)),
        0x85 => Some(Instruction::of(Operation::Sta, AddressingMode::ZeroPage, 3)),
        0x86 => Some(Instruction::of(Operation::Stx, AddressingMode::ZeroPage, 3)),
        0x88 => Some(Instruction::of(Operation::Dey, AddressingMode::Implied, 2)),
        0x8A => Some(Instruction::of(Operation::Txa, AddressingMode::Implied, 2)),
        0x8C => Some(Instruction::of(Operation::Sty, AddressingMode::Absolute, 4)),
        0x8D => Some(Instruction::of(Operation::Sta, AddressingMode::Absolute, 4)),
        0x8E => Some(Instruction::of(Operation::Stx, AddressingMode::Absolute, 4)),
        0x90 => Some(Instruction::of(Operation::Bcc, AddressingMode::Relative, 2)),
        0x91 => Some(Instruction::of(Operation::Sta, AddressingMode::IndirectIndexed, 6)),
        0x94 => Some(Instruction::of(Operation::Sty, AddressingMode::ZeroPageX, 4)),
        0x95 => Some(Instruction::of(Operation::Sta, AddressingMode::ZeroPageX, 4)),
        0x96 => Some(Instruction::of(Operation::Stx, AddressingMode::ZeroPageY, 4)),
        0x98 => Some(Instruction::of(Operation::Tya, AddressingMode::Implied, 2)),
        0x99 => Some(Instruction::of(Operation::Sta, AddressingMode::AbsoluteY, 5)),
        0x9A => Some(Instruction::of(Operation::Txs, AddressingMode::Implied, 2)),
        0x9D => Some(Instruction::of(Operation::Sta, AddressingMode::AbsoluteX, 5)),
        0xA0 => Some(Instruction::of(Operation::Ldy, AddressingMode::Immediate, 2)),
        0xA1 => Some(Instruction::of(Operation::Lda, AddressingMode::IndexedIndirect, 6)),
        0xA2 => Some(Instruction::of(Operation::Ldx, AddressingMode::Immediate, 2)),
        0xA4 => Some(Instruction::of(Operation::Ldy, AddressingMode::ZeroPage, 3)),
        0xA5 => Some(Instruction::of(Operation::Lda, AddressingMode::ZeroPage, 3)),
        0xA6 => Some(Instruction::of(Operation::Ldx, AddressingMode::ZeroPage, 3)),
        0xA8 => Some(Instruction::of(Operation::Tay, AddressingMode::Implied, 2)),
        0xA9 => Some(Instruction::of(Operation::Lda, AddressingMode::Immediate, 2)),
        0xAA => Some(Instruction::of(Operation::Tax, AddressingMode::Implied, 2)),
        0xAC => Some(Instruction::of(Operation::Ldy, AddressingMode::Absolute, 4)),
        0xAD => Some(Instruction::of(Operation::Lda, AddressingMode::Absolute, 4)),
        0xAE => Some(Instruction::of(Operation::Ldx, AddressingMode::Absolute, 4)),
        0xB0 => Some(Instruction::of(Operation::Bcs, AddressingMode::Relative, 2)),
        0xB1 => Some(Instruction::of(Operation::Lda, AddressingMode::IndirectIndexed, 5)),
        0xB4 => Some(Instruction::of(Operation::Ldy, AddressingMode::ZeroPageX, 4)),
        0xB5 => Some(Instruction::of(Operation::Lda, AddressingMode::ZeroPageX, 4)),
        0xB6 => Some(Instruction::of(Operation::Ldx, AddressingMode::ZeroPageY, 4)),
        0xB9 => Some(Instruction::of(Operation::Lda, AddressingMode::AbsoluteY, 4)),
        0xBA => Some(Instruction::of(Operation::Tsx, AddressingMode::Implied, 2)),
        0xBC => Some(Instruction::of(Operation::Ldy, AddressingMode::AbsoluteX, 4)),
        0xBD => Some(Instruction::of(Operation::Lda, AddressingMode::AbsoluteX, 4)),
        0xBE => Some(Instruction::of(Operation::Ldx, AddressingMode::AbsoluteY, 4)),
        0xC6 => Some(Instruction::of(Operation::Dec, AddressingMode::ZeroPage, 5)),
        0xC8 => Some(Instruction::of(Operation::Iny, AddressingMode::Implied, 2)),
        0xCA => Some(Instruction::of(Operation::Dex, AddressingMode::Implied, 2)),
        0xCE => Some(Instruction::of(Operation::Dec, AddressingMode::Absolute, 6)),
        0xD0 => Some(Instruction::of(Operation::Bne, AddressingMode::Relative, 2)),
        0xD6 => Some(Instruction::of(Operation::Dec, AddressingMode::ZeroPageX, 6)),
        0xD8 => Some(Instruction::of(Operation::Cld, AddressingMode::Implied, 2)),
        0xDE => Some(Instruction::of(Operation::Dec, AddressingMode::AbsoluteX, 7)),
        0xE6 => Some(Instruction::of(Operation::Inc, AddressingMode::ZeroPage, 5)),
        0xE8 => Some(Instruction::of(Operation::Inx, AddressingMode::Implied, 2)),
        0xEA => Some(Instruction::of(Operation::Nop, AddressingMode::Implied, 2)),
        0xEE => Some(Instruction::of(Operation::Inc, AddressingMode::Absolute, 6)),
        0xF0 => Some(Instruction::of(Operation::Beq, AddressingMode::Relative, 2)),
        0xF6 => Some(Instruction::of(Operation::Inc, AddressingMode::ZeroPageX, 6)),
        0xFE => Some(Instruction::of(Operation::Inc, AddressingMode::AbsoluteX, 7)),
        _ => None,
    }
}

/// Looks `opcode` up in the dispatch table.
pub fn lookup(opcode: u8) -> (r: Option<Instruction>)
    ensures
        r == decode(opcode),
{
    match opcode {
        0x00 => Some(Instruction { operation: Operation::Brk, mode: AddressingMode::Implied, cycles: 7 }),
        0x10 => Some(Instruction { operation: Operation::Bpl, mode: AddressingMode::Relative, cycles: 2 }),
        0x24 => Some(Instruction { operation: Operation::Bit, mode: AddressingMode::ZeroPage, cycles: 3 }),
        0x2C => Some(Instruction { operation: Operation::Bit, mode: AddressingMode::Absolute, cycles: 4 }),
        0x30 => Some(Instruction { operation: Operation::Bmi, mode: AddressingMode::Relative, cycles: 2 }),
        0x4C => Some(Instruction { operation: Operation::Jmp, mode: AddressingMode::Absolute, cycles: 3 }),
        0x6C => Some(Instruction { operation: Operation::Jmp, mode: AddressingMode::Indirect, cycles: 5 }),
        0x78 => Some(Instruction { operation: Operation::Sei, mode: AddressingMode::Implied, cycles: 2 }),
        0x81 => Some(Instruction { operation: Operation::Sta, mode: AddressingMode::IndexedIndirect, cycles: 6 }),
        0x84 => Some(Instruction { operation: Operation::Sty, mode: AddressingMode::ZeroPage, cycles: 3 }),
        0x85 => Some(Instruction { operation: Operation::Sta, mode: AddressingMode::ZeroPage, cycles: 3 }),
        0x86 => Some(Instruction { operation: Operation::Stx, mode: AddressingMode::ZeroPage, cycles: 3 }),
        0x88 => Some(Instruction { operation: Operation::Dey, mode: AddressingMode::Implied, cycles: 2 }),
        0x8A => Some(Instruction { operation: Operation::Txa, mode: AddressingMode::Implied, cycles: 2 }),
        0x8C => Some(Instruction { operation: Operation::Sty, mode: AddressingMode::Absolute, cycles: 4 }),
        0x8D => Some(Instruction { operation: Operation::Sta, mode: AddressingMode::Absolute, cycles: 4 }),
        0x8E => Some(Instruction { operation: Operation::Stx, mode: AddressingMode::Absolute, cycles: 4 }),
        0x90 => Some(Instruction { operation: Operation::Bcc, mode: AddressingMode::Relative, cycles: 2 }),
        0x91 => Some(Instruction { operation: Operation::Sta, mode: AddressingMode::IndirectIndexed, cycles: 6 }),
        0x94 => Some(Instruction { operation: Operation::Sty, mode: AddressingMode::ZeroPageX, cycles: 4 }),
        0x95 => Some(Instruction { operation: Operation::Sta, mode: AddressingMode::ZeroPageX, cycles: 4 }),
        0x96 => Some(Instruction { operation: Operation::Stx, mode: AddressingMode::ZeroPageY, cycles: 4 }),
        0x98 => Some(Instruction { operation: Operation::Tya, mode: AddressingMode::Implied, cycles: 2 }),
        0x99 => Some(Instruction { operation: Operation::Sta, mode: AddressingMode::AbsoluteY, cycles: 5 }),
        0x9A => Some(Instruction { operation: Operation::Txs, mode: AddressingMode::Implied, cycles: 2 }),
        0x9D => Some(Instruction { operation: Operation::Sta, mode: AddressingMode::AbsoluteX, cycles: 5 }),
        0xA0 => Some(Instruction { operation: Operation::Ldy, mode: AddressingMode::Immediate, cycles: 2 }),
        0xA1 => Some(Instruction { operation: Operation::Lda, mode: AddressingMode::IndexedIndirect, cycles: 6 }),
        0xA2 => Some(Instruction { operation: Operation::Ldx, mode: AddressingMode::Immediate, cycles: 2 }),
        0xA4 => Some(Instruction { operation: Operation::Ldy, mode: AddressingMode::ZeroPage, cycles: 3 }),
        0xA5 => Some(Instruction { operation: Operation::Lda, mode: AddressingMode::ZeroPage, cycles: 3 }),
        0xA6 => Some(Instruction { operation: Operation::Ldx, mode: AddressingMode::ZeroPage, cycles: 3 }),
        0xA8 => Some(Instruction { operation: Operation::Tay, mode: AddressingMode::Implied, cycles: 2 }),
        0xA9 => Some(Instruction { operation: Operation::Lda, mode: AddressingMode::Immediate, cycles: 2 }),
        0xAA => Some(Instruction { operation: Operation::Tax, mode: AddressingMode::Implied, cycles: 2 }),
        0xAC => Some(Instruction { operation: Operation::Ldy, mode: AddressingMode::Absolute, cycles: 4 }),
        0xAD => Some(Instruction { operation: Operation::Lda, mode: AddressingMode::Absolute, cycles: 4 }),
        0xAE => Some(Instruction { operation: Operation::Ldx, mode: AddressingMode::Absolute, cycles: 4 }),
        0xB0 => Some(Instruction { operation: Operation::Bcs, mode: AddressingMode::Relative, cycles: 2 }),
        0xB1 => Some(Instruction { operation: Operation::Lda, mode: AddressingMode::IndirectIndexed, cycles: 5 }),
        0xB4 => Some(Instruction { operation: Operation::Ldy, mode: AddressingMode::ZeroPageX, cycles: 4 }),
        0xB5 => Some(Instruction { operation: Operation::Lda, mode: AddressingMode::ZeroPageX, cycles: 4 }),
        0xB6 => Some(Instruction { operation: Operation::Ldx, mode: AddressingMode::ZeroPageY, cycles: 4 }),
        0xB9 => Some(Instruction { operation: Operation::Lda, mode: AddressingMode::AbsoluteY, cycles: 4 }),
        0xBA => Some(Instruction { operation: Operation::Tsx, mode: AddressingMode::Implied, cycles: 2 }),
        0xBC => Some(Instruction { operation: Operation::Ldy, mode: AddressingMode::AbsoluteX, cycles: 4 }),
        0xBD => Some(Instruction { operation: Operation::Lda, mode: AddressingMode::AbsoluteX, cycles: 4 }),
        0xBE => Some(Instruction { operation: Operation::Ldx, mode: AddressingMode::AbsoluteY, cycles: 4 }),
        0xC6 => Some(Instruction { operation: Operation::Dec, mode: AddressingMode::ZeroPage, cycles: 5 }),
        0xC8 => Some(Instruction { operation: Operation::Iny, mode: AddressingMode::Implied, cycles: 2 }),
        0xCA => Some(Instruction { operation: Operation::Dex, mode: AddressingMode::Implied, cycles: 2 }),
        0xCE => Some(Instruction { operation: Operation::Dec, mode: AddressingMode::Absolute, cycles: 6 }),
        0xD0 => Some(Instruction { operation: Operation::Bne, mode: AddressingMode::Relative, cycles: 2 }),
        0xD6 => Some(Instruction { operation: Operation::Dec, mode: AddressingMode::ZeroPageX, cycles: 6 }),
        0xD8 => Some(Instruction { operation: Operation::Cld, mode: AddressingMode::Implied, cycles: 2 }),
        0xDE => Some(Instruction { operation: Operation::Dec, mode: AddressingMode::AbsoluteX, cycles: 7 }),
        0xE6 => Some(Instruction { operation: Operation::Inc, mode: AddressingMode::ZeroPage, cycles: 5 }),
        0xE8 => Some(Instruction { operation: Operation::Inx, mode: AddressingMode::Implied, cycles: 2 }),
        0xEA => Some(Instruction { operation: Operation::Nop, mode: AddressingMode::Implied, cycles: 2 }),
        0xEE => Some(Instruction { operation: Operation::Inc, mode: AddressingMode::Absolute, cycles: 6 }),
        0xF0 => Some(Instruction { operation: Operation::Beq, mode: AddressingMode::Relative, cycles: 2 }),
        0xF6 => Some(Instruction { operation: Operation::Inc, mode: AddressingMode::ZeroPageX, cycles: 6 }),
        0xFE => Some(Instruction { operation: Operation::Inc, mode: AddressingMode::AbsoluteX, cycles: 7 }),
        _ => None,
    }
}

} // verus!

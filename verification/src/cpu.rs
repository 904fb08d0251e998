//! The instruction engine: registers, operand resolution and the
//! fetch-decode-execute step.

use vstd::prelude::*;
use crate::addressing::{
    crosses_page, offset_address, offset_zero_page, read_word_at, resolve, signed_offset,
    AddressingMode, Operand,
};
use crate::bitfield::Bitfield;
use crate::fault::Fault;
use crate::opcode::{lookup, Operation};
use crate::ram::{read_at, write_at, RAM};
use crate::registers::{
    Register, Registers, StatusFlag, RESET_STACK_POINTER, RESET_STATUS, RESET_VECTOR,
};
use crate::semantics::{
    cycles_left, decremented, incremented, lemma_step_cycles, low_byte, run_until, step,
    Machine, MAX_STEP_CYCLES,
};

verus! {

/// The processor's registers.
#[derive(Debug)]
pub struct CPU {
    a: u8,
    x: u8,
    y: u8,
    pc: u16,
    s: u8,
    p: Bitfield,
}

impl View for CPU {
    type V = Registers;

    closed spec fn view(&self) -> Registers {
        Registers { a: self.a, x: self.x, y: self.y, pc: self.pc, s: self.s, p: self.p@ }
    }
}

impl CPU {
    /// A processor in its reset state, about to run from the address held
    /// in the reset vector of `ram`.
    pub fn from_ram(ram: &RAM) -> (r: CPU)
        ensures
            r@ == Registers::reset(read_word_at(ram@, RESET_VECTOR)),
    {
        CPU {
            a: 0,
            x: 0,
            y: 0,
            pc: Self::read_word_number(ram, RESET_VECTOR),
            s: RESET_STACK_POINTER,
            p: Bitfield::new(RESET_STATUS),
        }
    }

    /// A processor holding exactly `registers`.
    pub fn from_registers(registers: Registers) -> (r: CPU)
        ensures
            r@ == registers,
    {
        CPU {
            a: registers.a,
            x: registers.x,
            y: registers.y,
            pc: registers.pc,
            s: registers.s,
            p: Bitfield::new(registers.p),
        }
    }

    /// The current register values.
    pub fn registers(&self) -> (r: Registers)
        ensures
            r == self@,
    {
        Registers {
            a: self.a,
            x: self.x,
            y: self.y,
            pc: self.pc,
            s: self.s,
            p: self.p.value(),
        }
    }

    /// Whether `flag` is set.
    pub fn flag(&self, flag: StatusFlag) -> (r: bool)
        ensures
            r == self@.flag(flag),
    {
        self.p.get_bit(flag.index())
    }

    fn read(ram: &RAM, addr: u16) -> (r: u8)
        ensures
            r == read_at(ram@, addr),
    {
        ram.read(addr)
    }

    fn write(ram: &mut RAM, addr: u16, data: u8)
        ensures
            final(ram)@ == write_at(old(ram)@, addr, data),
    {
        ram.write(addr, data);
    }

    /// Fetches the byte at the program counter and moves past it.
    fn read_next_byte(&mut self, ram: &RAM) -> (r: Result<u8, Fault>)
        ensures
            match r {
                Ok(byte) => old(self)@.pc < 0xFFFF && byte == read_at(ram@, old(self)@.pc)
                    && final(self)@ == (Registers {
                    pc: (old(self)@.pc + 1) as u16,
                    ..old(self)@
                }),
                Err(fault) => old(self)@.pc == 0xFFFF && fault == Fault::ArithmeticOverflow
                    && final(self)@ == old(self)@,
            },
    {
        match self.pc.checked_add(1) {
            Some(next) => {
                let value: u8 = Self::read(ram, self.pc);
                self.pc = next;
                Ok(value)
            },
            None => Err(Fault::ArithmeticOverflow),
        }
    }

    fn read_word_number(ram: &RAM, addr: u16) -> (r: u16)
        ensures
            r == read_word_at(ram@, addr),
    {
        let low: u8 = Self::read(ram, addr);
        let high: u8 = Self::read(ram, addr.wrapping_add(1));
        high as u16 * 256 + low as u16
    }

    /// Fetches the word at the program counter and moves past it.
    fn read_next_word_number(&mut self, ram: &RAM) -> (r: Result<u16, Fault>)
        ensures
            match r {
                Ok(value) => old(self)@.pc < 0xFFFE && value == read_word_at(ram@, old(self)@.pc)
                    && final(self)@ == (Registers {
                    pc: (old(self)@.pc + 2) as u16,
                    ..old(self)@
                }),
                Err(fault) => old(self)@.pc >= 0xFFFE && fault == Fault::ArithmeticOverflow
                    && final(self)@ == old(self)@,
            },
    {
        match self.pc.checked_add(2) {
            Some(next) => {
                let value: u16 = Self::read_word_number(ram, self.pc);
                self.pc = next;
                Ok(value)
            },
            None => Err(Fault::ArithmeticOverflow),
        }
    }

    fn is_crossing_page_boundary(addr1: u16, addr2: u16) -> (r: bool)
        ensures
            r == crosses_page(addr1, addr2),
    {
        assert((addr1 & 0xFF00 != addr2 & 0xFF00) == (addr1 / 256 != addr2 / 256))
            by (bit_vector);
        addr1 & 0xFF00 != addr2 & 0xFF00
    }

    /// `base + index` on the 16-bit address bus.
    fn index_address(base: u16, index: u8) -> (r: u16)
        ensures
            r == offset_address(base, index),
    {
        base.wrapping_add(index as u16)
    }

    /// `base + index` inside the zero page.
    fn index_zero_page(base: u8, index: u8) -> (r: u16)
        ensures
            r == offset_zero_page(base, index),
    {
        base.wrapping_add(index) as u16
    }

    /// The address `offset` bytes from `pc`, with `offset` read as a signed
    /// byte, if it is a 16-bit address.
    fn branch_target(pc: u16, offset: u8) -> (r: Option<u16>)
        ensures
            match r {
                Some(target) => target == pc + signed_offset(offset),
                None => !(0 <= pc + signed_offset(offset) <= 0xFFFF),
            },
    {
        if offset < 0x80 {
            pc.checked_add(offset as u16)
        } else {
            pc.checked_sub(0x100 - offset as u16)
        }
    }

    /// The operand held by memory cell `address`.
    fn value_at(ram: &RAM, address: u16, page_crossed: bool) -> (r: Operand)
        ensures
            r == Operand::in_memory(ram@, address, page_crossed),
    {
        Operand { value: Self::read(ram, address) as u16, address: Some(address), page_crossed }
    }

    /// Resolves a two-byte operand to the cell it spells, `index` cells on.
    /// The index is zero, X or Y by `mode`.
    fn get_absolute(&mut self, ram: &RAM, mode: AddressingMode) -> (r: Result<Operand, Fault>)
        requires
            mode is Absolute || mode is AbsoluteX || mode is AbsoluteY,
        ensures
            final(self)@ == resolve(old(self)@, ram@, mode).regs,
            r == resolve(old(self)@, ram@, mode).operand,
    {
        let base: u16 = self.read_next_word_number(ram)?;
        match mode {
            AddressingMode::AbsoluteX => {
                let addr: u16 = Self::index_address(base, self.x);
                Ok(Self::value_at(ram, addr, Self::is_crossing_page_boundary(base, addr)))
            },
            AddressingMode::AbsoluteY => {
                let addr: u16 = Self::index_address(base, self.y);
                Ok(Self::value_at(ram, addr, Self::is_crossing_page_boundary(base, addr)))
            },
            _ => Ok(Self::value_at(ram, base, false)),
        }
    }

    /// Resolves a one-byte operand to the zero-page cell it spells, `index`
    /// cells on. The index is zero, X or Y by `mode`.
    fn get_zero_page(&mut self, ram: &RAM, mode: AddressingMode) -> (r: Result<Operand, Fault>)
        requires
            mode is ZeroPage || mode is ZeroPageX || mode is ZeroPageY,
        ensures
            final(self)@ == resolve(old(self)@, ram@, mode).regs,
            r == resolve(old(self)@, ram@, mode).operand,
    {
        let addr: u8 = self.read_next_byte(ram)?;
        match mode {
            AddressingMode::ZeroPageX => Ok(
                Self::value_at(ram, Self::index_zero_page(addr, self.x), false),
            ),
            AddressingMode::ZeroPageY => Ok(
                Self::value_at(ram, Self::index_zero_page(addr, self.y), false),
            ),
            _ => Ok(Self::value_at(ram, addr as u16, false)),
        }
    }

    /// Resolves a one-byte operand to itself.
    fn get_immediate(&mut self, ram: &RAM) -> (r: Result<Operand, Fault>)
        ensures
            final(self)@ == resolve(old(self)@, ram@, AddressingMode::Immediate).regs,
            r == resolve(old(self)@, ram@, AddressingMode::Immediate).operand,
    {
        let value: u8 = self.read_next_byte(ram)?;
        Ok(Operand { value: value as u16, address: None, page_crossed: false })
    }

    /// Resolves a two-byte operand to the word stored where it points.
    fn get_indirect(&mut self, ram: &RAM) -> (r: Result<Operand, Fault>)
        ensures
            final(self)@ == resolve(old(self)@, ram@, AddressingMode::Indirect).regs,
            r == resolve(old(self)@, ram@, AddressingMode::Indirect).operand,
    {
        let pointer: u16 = self.read_next_word_number(ram)?;
        let target: u16 = Self::read_word_number(ram, pointer);
        Ok(Operand { value: target, address: Some(target), page_crossed: false })
    }

    /// Resolves a one-byte operand, indexed by X inside the zero page, to
    /// the word stored where it points.
    fn get_indexed_indirect(&mut self, ram: &RAM) -> (r: Result<Operand, Fault>)
        ensures
            final(self)@ == resolve(old(self)@, ram@, AddressingMode::IndexedIndirect).regs,
            r == resolve(old(self)@, ram@, AddressingMode::IndexedIndirect).operand,
    {
        let addr: u8 = self.read_next_byte(ram)?;
        let pointer: u16 = Self::index_zero_page(addr, self.x);
        let target: u16 = Self::read_word_number(ram, pointer);
        Ok(Operand { value: target, address: Some(target), page_crossed: false })
    }

    /// Resolves a one-byte operand to the cell Y past the word stored where
    /// it points.
    fn get_indirect_indexed(&mut self, ram: &RAM) -> (r: Result<Operand, Fault>)
        ensures
            final(self)@ == resolve(old(self)@, ram@, AddressingMode::IndirectIndexed).regs,
            r == resolve(old(self)@, ram@, AddressingMode::IndirectIndexed).operand,
    {
        let addr: u8 = self.read_next_byte(ram)?;
        let indirect_addr: u16 = Self::read_word_number(ram, addr as u16);
        let new_location: u16 = Self::index_address(indirect_addr, self.y);
        Ok(
            Self::value_at(
                ram,
                new_location,
                Self::is_crossing_page_boundary(indirect_addr, new_location),
            ),
        )
    }

    /// Resolves a one-byte signed offset to the address that far from the
    /// instruction after it.
    fn get_relative(&mut self, ram: &RAM) -> (r: Result<Operand, Fault>)
        ensures
            final(self)@ == resolve(old(self)@, ram@, AddressingMode::Relative).regs,
            r == resolve(old(self)@, ram@, AddressingMode::Relative).operand,
    {
        let offset: u8 = self.read_next_byte(ram)?;
        match Self::branch_target(self.pc, offset) {
            Some(new_location) => Ok(
                Operand {
                    value: new_location,
                    address: Some(new_location),
                    page_crossed: Self::is_crossing_page_boundary(self.pc, new_location),
                },
            ),
            None => Err(Fault::ArithmeticOverflow),
        }
    }

    /// Resolves the operand for `mode`, consuming the operand bytes at the
    /// program counter.
    pub fn get_value(&mut self, ram: &RAM, mode: AddressingMode) -> (r: Result<Operand, Fault>)
        ensures
            final(self)@ == resolve(old(self)@, ram@, mode).regs,
            r == resolve(old(self)@, ram@, mode).operand,
    {
        match mode {
            AddressingMode::Accumulator => Ok(
                Operand { value: self.a as u16, address: None, page_crossed: false },
            ),
            AddressingMode::Implied => Ok(Operand { value: 0, address: None, page_crossed: false }),
            AddressingMode::Immediate => self.get_immediate(ram),
            AddressingMode::Absolute
            | AddressingMode::AbsoluteX
            | AddressingMode::AbsoluteY => self.get_absolute(ram, mode),
            AddressingMode::Indirect => self.get_indirect(ram),
            AddressingMode::IndexedIndirect => self.get_indexed_indirect(ram),
            AddressingMode::IndirectIndexed => self.get_indirect_indexed(ram),
            AddressingMode::Relative => self.get_relative(ram),
            AddressingMode::ZeroPage
            | AddressingMode::ZeroPageX
            | AddressingMode::ZeroPageY => self.get_zero_page(ram, mode),
        }
    }

    fn get_register(&self, register: Register) -> (r: u8)
        ensures
            r == self@.get(register),
    {
        match register {
            Register::A => self.a,
            Register::X => self.x,
            Register::Y => self.y,
            Register::S => self.s,
        }
    }

    fn set_register(&mut self, register: Register, value: u8)
        ensures
            final(self)@ == old(self)@.set(register, value),
    {
        match register {
            Register::A => self.a = value,
            Register::X => self.x = value,
            Register::Y => self.y = value,
            Register::S => self.s = value,
        }
    }

    fn set_flag(&mut self, flag: StatusFlag, on: bool)
        ensures
            final(self)@ == old(self)@.with_flag(flag, on),
    {
        self.p.set_bit(flag.index(), on);
    }

    fn set_zero_negative(&mut self, value: u8)
        ensures
            final(self)@ == old(self)@.with_zero_negative(value),
    {
        self.set_flag(StatusFlag::Zero, value == 0);
        self.set_flag(StatusFlag::Negative, Bitfield::new(value).get_bit(7));
    }

    /// Replaces `register` by `value` and sets Zero and Negative from it.
    fn assign_register(&mut self, register: Register, value: u8)
        ensures
            final(self)@ == old(self)@.assign(register, value),
    {
        self.set_register(register, value);
        self.set_zero_negative(value);
    }

    fn operand_byte(operand: Operand) -> (r: u8)
        ensures
            r == low_byte(operand.value),
    {
        (operand.value % 256) as u8
    }

    fn bcc(&mut self, operand: Operand) -> (extra: u64)
        ensures
            final(self)@ == old(self)@.branch(operand, !old(self)@.flag(StatusFlag::Carry)),
            extra == Operation::Bcc.penalty(old(self)@, operand),
    {
        let taken: bool = !self.flag(StatusFlag::Carry);
        self.branch_if_comparison(operand, taken)
    }

    fn bcs(&mut self, operand: Operand) -> (extra: u64)
        ensures
            final(self)@ == old(self)@.branch(operand, old(self)@.flag(StatusFlag::Carry)),
            extra == Operation::Bcs.penalty(old(self)@, operand),
    {
        let taken: bool = self.flag(StatusFlag::Carry);
        self.branch_if_comparison(operand, taken)
    }

    fn beq(&mut self, operand: Operand) -> (extra: u64)
        ensures
            final(self)@ == old(self)@.branch(operand, old(self)@.flag(StatusFlag::Zero)),
            extra == Operation::Beq.penalty(old(self)@, operand),
    {
        let taken: bool = self.flag(StatusFlag::Zero);
        self.branch_if_comparison(operand, taken)
    }

    fn bit(&mut self, operand: Operand)
        ensures
            final(self)@ == old(self)@.bit_test(operand),
    {
        let value: u8 = Self::operand_byte(operand);
        let result: u8 = self.a & value;
        let tested: Bitfield = Bitfield::new(value);
        self.set_flag(StatusFlag::Zero, result == 0);
        self.set_flag(StatusFlag::Overflow, tested.get_bit(6));
        self.set_flag(StatusFlag::Negative, tested.get_bit(7));
    }

    fn bmi(&mut self, operand: Operand) -> (extra: u64)
        ensures
            final(self)@ == old(self)@.branch(operand, old(self)@.flag(StatusFlag::Negative)),
            extra == Operation::Bmi.penalty(old(self)@, operand),
    {
        let taken: bool = self.flag(StatusFlag::Negative);
        self.branch_if_comparison(operand, taken)
    }

    fn bne(&mut self, operand: Operand) -> (extra: u64)
        ensures
            final(self)@ == old(self)@.branch(operand, !old(self)@.flag(StatusFlag::Zero)),
            extra == Operation::Bne.penalty(old(self)@, operand),
    {
        let taken: bool = !self.flag(StatusFlag::Zero);
        self.branch_if_comparison(operand, taken)
    }

    fn bpl(&mut self, operand: Operand) -> (extra: u64)
        ensures
            final(self)@ == old(self)@.branch(operand, !old(self)@.flag(StatusFlag::Negative)),
            extra == Operation::Bpl.penalty(old(self)@, operand),
    {
        let taken: bool = !self.flag(StatusFlag::Negative);
        self.branch_if_comparison(operand, taken)
    }

    /// Branches to the operand's address if `condition` holds. Returns the
    /// cycles the branch adds to its base count.
    fn branch_if_comparison(&mut self, operand: Operand, condition: bool) -> (extra: u64)
        ensures
            final(self)@ == old(self)@.branch(operand, condition),
            extra == (if !condition {
                0int
            } else if operand.page_crossed {
                2
            } else {
                1
            }),
    {
        if condition {
            self.jmp(operand);
            if operand.page_crossed {
                2
            } else {
                1
            }
        } else {
            0
        }
    }

    fn dec(&mut self, ram: &mut RAM, operand: Operand)
        ensures
            (Machine { regs: final(self)@, mem: final(ram)@ }) == (Machine {
                regs: old(self)@,
                mem: old(ram)@,
            }).modify(operand, decremented(low_byte(operand.value))),
    {
        let value: u8 = Self::operand_byte(operand).wrapping_sub(1);
        Self::store(ram, operand, value);
        self.set_zero_negative(value);
    }

    /// Counts `register` down by one. Takes no cycles beyond the base count.
    fn decrement_register(&mut self, register: Register) -> (extra: u64)
        ensures
            final(self)@ == old(self)@.assign(
                register,
                decremented(old(self)@.get(register)),
            ),
            extra == 0,
    {
        let value: u8 = self.get_register(register).wrapping_sub(1);
        self.assign_register(register, value);
        0
    }

    fn jmp(&mut self, operand: Operand)
        ensures
            final(self)@ == old(self)@.jump(operand),
    {
        match operand.address {
            Some(addr) => self.pc = addr,
            None => {},
        }
    }

    fn inc(&mut self, ram: &mut RAM, operand: Operand)
        ensures
            (Machine { regs: final(self)@, mem: final(ram)@ }) == (Machine {
                regs: old(self)@,
                mem: old(ram)@,
            }).modify(operand, incremented(low_byte(operand.value))),
    {
        let value: u8 = Self::operand_byte(operand).wrapping_add(1);
        Self::store(ram, operand, value);
        self.set_zero_negative(value);
    }

    /// Counts `register` up by one. Takes no cycles beyond the base count.
    fn increment_register(&mut self, register: Register) -> (extra: u64)
        ensures
            final(self)@ == old(self)@.assign(
                register,
                incremented(old(self)@.get(register)),
            ),
            extra == 0,
    {
        let value: u8 = self.get_register(register).wrapping_add(1);
        self.assign_register(register, value);
        0
    }

    fn lda(&mut self, operand: Operand) -> (extra: u64)
        ensures
            final(self)@ == old(self)@.load(Register::A, operand),
            extra == Operation::Lda.penalty(old(self)@, operand),
    {
        self.load_into_register(operand, Register::A)
    }

    fn ldx(&mut self, operand: Operand) -> (extra: u64)
        ensures
            final(self)@ == old(self)@.load(Register::X, operand),
            extra == Operation::Ldx.penalty(old(self)@, operand),
    {
        self.load_into_register(operand, Register::X)
    }

    fn ldy(&mut self, operand: Operand) -> (extra: u64)
        ensures
            final(self)@ == old(self)@.load(Register::Y, operand),
            extra == Operation::Ldy.penalty(old(self)@, operand),
    {
        self.load_into_register(operand, Register::Y)
    }

    /// Loads the operand into `register`. Returns the cycle the load adds
    /// to its base count when resolving the operand crossed a page.
    fn load_into_register(&mut self, operand: Operand, register: Register) -> (extra: u64)
        ensures
            final(self)@ == old(self)@.load(register, operand),
            extra == (if operand.page_crossed {
                1int
            } else {
                0
            }),
    {
        self.assign_register(register, Self::operand_byte(operand));
        if operand.page_crossed {
            1
        } else {
            0
        }
    }

    /// Stores `value` in the cell the operand names.
    fn store(ram: &mut RAM, operand: Operand, value: u8)
        ensures
            final(ram)@ == (match operand.address {
                Some(address) => write_at(old(ram)@, address, value),
                None => old(ram)@,
            }),
    {
        match operand.address {
            Some(addr) => Self::write(ram, addr, value),
            None => {},
        }
    }

    fn sta(&self, ram: &mut RAM, operand: Operand)
        ensures
            (Machine { regs: self@, mem: final(ram)@ }) == (Machine {
                regs: self@,
                mem: old(ram)@,
            }).store(operand, self@.a),
    {
        Self::store(ram, operand, self.a);
    }

    fn stx(&self, ram: &mut RAM, operand: Operand)
        ensures
            (Machine { regs: self@, mem: final(ram)@ }) == (Machine {
                regs: self@,
                mem: old(ram)@,
            }).store(operand, self@.x),
    {
        Self::store(ram, operand, self.x);
    }

    fn sty(&self, ram: &mut RAM, operand: Operand)
        ensures
            (Machine { regs: self@, mem: final(ram)@ }) == (Machine {
                regs: self@,
                mem: old(ram)@,
            }).store(operand, self@.y),
    {
        Self::store(ram, operand, self.y);
    }

    /// Copies register `from` into register `to` and sets Zero and Negative
    /// from the value copied. Takes no cycles beyond the base count.
    fn transfer(&mut self, from: Register, to: Register) -> (extra: u64)
        ensures
            final(self)@ == old(self)@.assign(to, old(self)@.get(from)),
            extra == 0,
    {
        let value: u8 = self.get_register(from);
        self.assign_register(to, value);
        0
    }

    /// Performs `operation` on an operand that has been resolved. Returns
    /// the cycles to add to the base count.
    fn perform(&mut self, ram: &mut RAM, operation: Operation, operand: Operand) -> (extra: u64)
        ensures
            (Machine { regs: final(self)@, mem: final(ram)@ }) == operation.effect(
                Machine { regs: old(self)@, mem: old(ram)@ },
                operand,
            ),
            extra == operation.penalty(old(self)@, operand),
    {
        match operation {
            Operation::Bcc => self.bcc(operand),
            Operation::Bcs => self.bcs(operand),
            Operation::Beq => self.beq(operand),
            Operation::Bit => {
                self.bit(operand);
                0
            },
            Operation::Bmi => self.bmi(operand),
            Operation::Bne => self.bne(operand),
            Operation::Bpl => self.bpl(operand),
            Operation::Brk | Operation::Nop => 0,
            Operation::Cld => {
                self.set_flag(StatusFlag::DecimalMode, false);
                0
            },
            Operation::Dec => {
                self.dec(ram, operand);
                0
            },
            Operation::Dex => self.decrement_register(Register::X),
            Operation::Dey => self.decrement_register(Register::Y),
            Operation::Inc => {
                self.inc(ram, operand);
                0
            },
            Operation::Inx => self.increment_register(Register::X),
            Operation::Iny => self.increment_register(Register::Y),
            Operation::Jmp => {
                self.jmp(operand);
                0
            },
            Operation::Lda => self.lda(operand),
            Operation::Ldx => self.ldx(operand),
            Operation::Ldy => self.ldy(operand),
            Operation::Sei => {
                self.set_flag(StatusFlag::InterruptDisable, true);
                0
            },
            Operation::Sta => {
                self.sta(ram, operand);
                0
            },
            Operation::Stx => {
                self.stx(ram, operand);
                0
            },
            Operation::Sty => {
                self.sty(ram, operand);
                0
            },
            Operation::Tax => self.transfer(Register::A, Register::X),
            Operation::Tay => self.transfer(Register::A, Register::Y),
            Operation::Tsx => self.transfer(Register::S, Register::X),
            Operation::Txa => self.transfer(Register::X, Register::A),
            Operation::Txs => self.transfer(Register::X, Register::S),
            Operation::Tya => self.transfer(Register::Y, Register::A),
        }
    }

    /// Runs one instruction: fetches the opcode at the program counter,
    /// resolves its operand, performs it, and returns the cycles it took.
    ///
    /// A fault stops the step where it arose: the program counter keeps what
    /// it had consumed, and nothing else has changed.
    pub fn execute_next_instruction(&mut self, ram: &mut RAM) -> (r: Result<u64, Fault>)
        ensures
            ({
                let after = step(Machine { regs: old(self)@, mem: old(ram)@ });
                &&& final(self)@ == after.machine.regs
                &&& final(ram)@ == after.machine.mem
                &&& r == after.outcome
            }),
    {
        reveal(step);
        let opcode: u8 = self.read_next_byte(ram)?;
        match lookup(opcode) {
            None => Err(Fault::UnknownOpcode(opcode)),
            Some(instruction) => {
                let operand: Operand = self.get_value(ram, instruction.mode)?;
                match instruction.operation {
                    Operation::Brk => Err(Fault::Break),
                    operation => {
                        let extra: u64 = self.perform(ram, operation, operand);
                        Ok(instruction.cycles as u64 + extra)
                    },
                }
            },
        }
    }

    /// Runs instructions until they have taken at least `n_cycles` cycles
    /// or one of them faults, and returns the cycles taken. The count can
    /// pass `n_cycles` by what the last instruction cost beyond it.
    pub fn execute_instructions(&mut self, ram: &mut RAM, n_cycles: u64) -> (r: Result<u64, Fault>)
        requires
            n_cycles <= u64::MAX - MAX_STEP_CYCLES,
        ensures
            ({
                let run = run_until(Machine { regs: old(self)@, mem: old(ram)@ }, 0, n_cycles as int);
                &&& final(self)@ == run.machine.regs
                &&& final(ram)@ == run.machine.mem
                &&& match r {
                    Ok(total) => run.outcome == Ok::<int, Fault>(total as int) && n_cycles <= total
                        < n_cycles + MAX_STEP_CYCLES,
                    Err(fault) => run.outcome == Err::<int, Fault>(fault),
                }
            }),
    {
        let ghost start = Machine { regs: self@, mem: ram@ };
        let mut done: u64 = 0;
        while done < n_cycles
            invariant
                start == (Machine { regs: old(self)@, mem: old(ram)@ }),
                n_cycles <= u64::MAX - MAX_STEP_CYCLES,
                done < n_cycles + MAX_STEP_CYCLES,
                run_until(start, 0, n_cycles as int) == run_until(
                    Machine { regs: self@, mem: ram@ },
                    done as int,
                    n_cycles as int,
                ),
            decreases cycles_left(done as int, n_cycles as int),
        {
            proof {
                lemma_step_cycles(Machine { regs: self@, mem: ram@ });
            }
            match self.execute_next_instruction(ram) {
                Ok(cycles) => {
                    done = done + cycles;
                },
                Err(fault) => {
                    return Err(fault);
                },
            }
        }
        Ok(done)
    }
}

} // verus!

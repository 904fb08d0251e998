//! Laws of the machine: what holds of every state, proved from the
//! definitions that the engine is verified against.

use vstd::prelude::*;
use crate::addressing::{
    crosses_page, offset_address, read_word_at, resolve, signed_offset, AddressingMode, Operand,
};
use crate::bitfield::{bit_of, lemma_with_bit_reads};
use crate::cartridge::{header_of, image_of, is_loadable, CPU_ROM_START_ADDRESS, PRG_PAGE_SIZE};
use crate::fault::Fault;
use crate::nes::Console;
use crate::opcode::{decode, Operation};
use crate::ram::{read_at, translate, write_at, ADDRESS_SPACE};
use crate::registers::{Register, Registers, StatusFlag};
use crate::semantics::{low_byte, run_until, step, Machine, Step};

verus! {

/// Every address of `$0800`-`$1FFF` reads what the address reduced modulo
/// `$0800` reads.
pub proof fn lemma_internal_mirror_reads(mem: Seq<u8>, addr: u16)
    requires
        0x0800 <= addr <= 0x1FFF,
    ensures
        read_at(mem, addr) == read_at(mem, (addr % 0x0800) as u16),
{
    reveal(translate);
}

/// Every address of `$2008`-`$3FFF` reads what the register at `$2000`
/// plus the address modulo 8 reads.
pub proof fn lemma_register_mirror_reads(mem: Seq<u8>, addr: u16)
    requires
        0x2008 <= addr <= 0x3FFF,
    ensures
        read_at(mem, addr) == read_at(mem, (0x2000 + addr % 8) as u16),
{
    reveal(translate);
}

/// Translation lands inside the address space, and translating twice
/// changes nothing: a backing cell is its own alias.
pub proof fn lemma_translate_idempotent(addr: u16)
    ensures
        0 <= translate(addr) < ADDRESS_SPACE,
        translate(translate(addr) as u16) == translate(addr),
{
    reveal(translate);
}

/// A write is read back through every alias of the written address, and
/// leaves what every other address reads as it was.
pub proof fn lemma_write_reaches_aliases(mem: Seq<u8>, written: u16, value: u8, addr: u16)
    requires
        mem.len() == ADDRESS_SPACE,
    ensures
        read_at(write_at(mem, written, value), addr) == (if translate(addr) == translate(
            written,
        ) {
            value
        } else {
            read_at(mem, addr)
        }),
{
    lemma_translate_idempotent(written);
    lemma_translate_idempotent(addr);
}

/// Two addresses of the internal memory and its mirrors share a cell
/// exactly when they agree modulo `$0800`.
pub proof fn lemma_internal_aliases(a: u16, b: u16)
    requires
        a <= 0x1FFF,
        b <= 0x1FFF,
    ensures
        translate(a) == translate(b) <==> a % 0x0800 == b % 0x0800,
{
    reveal(translate);
}

/// Two addresses of the register window and its mirrors share a cell
/// exactly when they agree modulo 8.
pub proof fn lemma_register_aliases(a: u16, b: u16)
    requires
        0x2000 <= a <= 0x3FFF,
        0x2000 <= b <= 0x3FFF,
    ensures
        translate(a) == translate(b) <==> a % 8 == b % 8,
{
    reveal(translate);
}

/// Outside the two mirrored regions every address backs itself, and no
/// mirror reaches it.
pub proof fn lemma_unmirrored(addr: u16, other: u16)
    requires
        addr >= 0x4000,
    ensures
        translate(addr) == addr,
        translate(other) == translate(addr) <==> other == addr,
{
    reveal(translate);
}

/// Forcing one flag is seen when that flag is read, and by no other flag.
pub proof fn lemma_with_flag_reads(regs: Registers, flag: StatusFlag, on: bool, other: StatusFlag)
    ensures
        regs.with_flag(flag, on).flag(other) == (if other == flag {
            on
        } else {
            regs.flag(other)
        }),
{
    lemma_with_bit_reads(regs.p, flag.bit(), on, other.bit());
}

/// Setting Zero and Negative from a result sets Zero exactly when the
/// result is zero and Negative exactly when it is `$80` or more, and moves
/// no other flag.
pub proof fn lemma_zero_negative_reads(regs: Registers, result: u8, flag: StatusFlag)
    ensures
        regs.with_zero_negative(result).flag(flag) == (match flag {
            StatusFlag::Zero => result == 0,
            StatusFlag::Negative => result >= 0x80,
            _ => regs.flag(flag),
        }),
{
    let zeroed = regs.with_flag(StatusFlag::Zero, result == 0);
    lemma_with_flag_reads(regs, StatusFlag::Zero, result == 0, flag);
    lemma_with_flag_reads(zeroed, StatusFlag::Negative, bit_of(result, 7), flag);
    assert(bit_of(result, 7) == (result >= 0x80)) by (bit_vector);
}

/// Whatever replaces a register through a transfer, an increment or a
/// decrement is then held by that register and by no other, sets Zero
/// exactly when it is zero and Negative exactly when its bit 7 is set, and
/// moves no other flag.
pub proof fn lemma_assign_flags(regs: Registers, register: Register, value: u8)
    ensures
        regs.assign(register, value).get(register) == value,
        regs.assign(register, value).pc == regs.pc,
        forall|other: Register|
            other != register ==> regs.assign(register, value).get(other) == regs.get(other),
        forall|flag: StatusFlag|
            regs.assign(register, value).flag(flag) == (match flag {
                StatusFlag::Zero => value == 0,
                StatusFlag::Negative => value >= 0x80,
                _ => regs.flag(flag),
            }),
{
    let stored = regs.set(register, value);
    assert forall|flag: StatusFlag|
        regs.assign(register, value).flag(flag) == (match flag {
            StatusFlag::Zero => value == 0,
            StatusFlag::Negative => value >= 0x80,
            _ => regs.flag(flag),
        }) by {
        lemma_zero_negative_reads(stored, value, flag);
    }
}

/// `BIT` sets Zero exactly when the accumulator and the operand have no bit
/// in common, copies bits 6 and 7 of the operand into Overflow and
/// Negative, and changes no register.
pub proof fn lemma_bit_flags(regs: Registers, operand: Operand)
    ensures
        regs.bit_test(operand).flag(StatusFlag::Zero) == ((regs.a & low_byte(operand.value))
            == 0),
        regs.bit_test(operand).flag(StatusFlag::Overflow) == bit_of(low_byte(operand.value), 6),
        regs.bit_test(operand).flag(StatusFlag::Negative) == bit_of(low_byte(operand.value), 7),
        regs.bit_test(operand) == (Registers { p: regs.bit_test(operand).p, ..regs }),
{
    let value = low_byte(operand.value);
    let first = regs.with_flag(StatusFlag::Zero, (regs.a & value) == 0);
    let second = first.with_flag(StatusFlag::Overflow, bit_of(value, 6));
    lemma_with_flag_reads(regs, StatusFlag::Zero, (regs.a & value) == 0, StatusFlag::Zero);
    lemma_with_flag_reads(first, StatusFlag::Overflow, bit_of(value, 6), StatusFlag::Zero);
    lemma_with_flag_reads(first, StatusFlag::Overflow, bit_of(value, 6), StatusFlag::Overflow);
    lemma_with_flag_reads(second, StatusFlag::Negative, bit_of(value, 7), StatusFlag::Zero);
    lemma_with_flag_reads(second, StatusFlag::Negative, bit_of(value, 7), StatusFlag::Overflow);
    lemma_with_flag_reads(second, StatusFlag::Negative, bit_of(value, 7), StatusFlag::Negative);
}

/// `SEI` leaves Interrupt-Disable set and `CLD` leaves Decimal-Mode clear,
/// whatever they were.
pub proof fn lemma_flag_instructions(m: Machine, operand: Operand)
    ensures
        Operation::Sei.effect(m, operand).regs.flag(StatusFlag::InterruptDisable),
        !Operation::Cld.effect(m, operand).regs.flag(StatusFlag::DecimalMode),
{
    lemma_with_flag_reads(
        m.regs,
        StatusFlag::InterruptDisable,
        true,
        StatusFlag::InterruptDisable,
    );
    lemma_with_flag_reads(m.regs, StatusFlag::DecimalMode, false, StatusFlag::DecimalMode);
}

/// A load leaves the operand's low byte in the register, sets Zero
/// exactly when that byte is zero and Negative exactly when its bit 7 is
/// set, and moves no other flag: `$00` sets Zero and clears Negative, `$80`
/// sets Negative and clears Zero, `$7F` clears both.
pub proof fn lemma_load_flags(regs: Registers, register: Register, operand: Operand)
    ensures
        regs.load(register, operand).get(register) == low_byte(operand.value),
        regs.load(register, operand).flag(StatusFlag::Zero) == (low_byte(operand.value) == 0),
        regs.load(register, operand).flag(StatusFlag::Negative) == (low_byte(operand.value)
            >= 0x80),
        forall|flag: StatusFlag|
            flag != StatusFlag::Zero && flag != StatusFlag::Negative ==> regs.load(
                register,
                operand,
            ).flag(flag) == regs.flag(flag),
{
    let value = low_byte(operand.value);
    let stored = regs.set(register, value);
    lemma_zero_negative_reads(stored, value, StatusFlag::Zero);
    lemma_zero_negative_reads(stored, value, StatusFlag::Negative);
    assert forall|flag: StatusFlag|
        flag != StatusFlag::Zero && flag != StatusFlag::Negative implies regs.load(
        register,
        operand,
    ).flag(flag) == regs.flag(flag) by {
        lemma_zero_negative_reads(stored, value, flag);
    }
}

/// A load costs its base count, and one cycle more when resolving its
/// operand crossed a page.
pub proof fn lemma_load_cycles(m: Machine)
    requires
        m.instruction() matches Some(instruction) && instruction.operation.is_load()
            && m.operand(instruction.mode) is Ok,
    ensures
        ({
            let instruction = m.instruction()->0;
            let operand = m.operand(instruction.mode)->Ok_0;
            step(m).outcome == Ok::<u64, Fault>(
                if operand.page_crossed {
                    (instruction.cycles + 1) as u64
                } else {
                    instruction.cycles as u64
                },
            )
        }),
{
    reveal(step);
}

/// A load through indexed absolute addressing crosses a page, and pays
/// for it, exactly when base plus index lies on another page than the base.
pub proof fn lemma_indexed_load_cycles(m: Machine)
    requires
        m.regs.pc + 3 <= 0xFFFF,
        m.instruction() matches Some(instruction) && instruction.operation.is_load() && (
        instruction.mode is AbsoluteX || instruction.mode is AbsoluteY),
    ensures
        ({
            let instruction = m.instruction()->0;
            let base = read_word_at(m.mem, (m.regs.pc + 1) as u16);
            let index = if instruction.mode is AbsoluteX {
                m.regs.x
            } else {
                m.regs.y
            };
            step(m).outcome == Ok::<u64, Fault>(
                if crosses_page(base, offset_address(base, index)) {
                    (instruction.cycles + 1) as u64
                } else {
                    instruction.cycles as u64
                },
            )
        }),
{
    reveal(step);
}

/// Of two runs of one load opcode, the one that crosses a page on the way
/// to its operand takes exactly one cycle more than the one that does not.
pub proof fn lemma_page_crossing_costs_one_cycle(crossing: Machine, staying: Machine)
    requires
        crossing.instruction() == staying.instruction(),
        crossing.instruction() matches Some(instruction) && instruction.operation.is_load(),
        crossing.operand(crossing.instruction()->0.mode) matches Ok(operand)
            && operand.page_crossed,
        staying.operand(staying.instruction()->0.mode) matches Ok(operand)
            && !operand.page_crossed,
    ensures
        step(crossing).outcome is Ok,
        step(staying).outcome is Ok,
        step(crossing).outcome->Ok_0 == step(staying).outcome->Ok_0 + 1,
{
    lemma_load_cycles(crossing);
    lemma_load_cycles(staying);
}

/// A store, `INC` or `DEC` costs its base count whether or not indexing
/// crossed a page.
pub proof fn lemma_write_cycles(m: Machine)
    requires
        m.instruction() matches Some(instruction) && instruction.operation.writes_memory()
            && m.operand(instruction.mode) is Ok,
    ensures
        step(m).outcome == Ok::<u64, Fault>(m.instruction()->0.cycles as u64),
{
    reveal(step);
}

/// A conditional branch whose target is an address costs two cycles when
/// it is not taken, three when it is taken to the page of the instruction
/// after it, and four when it is taken to another page. It moves the
/// program counter to the target or past the branch, and changes no flag,
/// no other register and no memory.
pub proof fn lemma_branch_cycles(m: Machine)
    requires
        m.regs.pc + 2 <= 0xFFFF,
        m.instruction() matches Some(instruction) && instruction.operation.is_branch(),
        0 <= m.regs.pc + 2 + signed_offset(read_at(m.mem, (m.regs.pc + 1) as u16)) <= 0xFFFF,
    ensures
        ({
            let taken = m.instruction()->0.operation.branches(m.regs);
            let next = (m.regs.pc + 2) as u16;
            let target = (next + signed_offset(read_at(m.mem, (m.regs.pc + 1) as u16))) as u16;
            &&& step(m).outcome == Ok::<u64, Fault>(
                if !taken {
                    2
                } else if crosses_page(next, target) {
                    4
                } else {
                    3
                },
            )
            &&& step(m).machine.regs == (Registers {
                pc: if taken {
                    target
                } else {
                    next
                },
                ..m.regs
            })
            &&& step(m).machine.mem == m.mem
        }),
{
    reveal(step);
}

/// An opcode outside the dispatch table stops the machine with
/// `UnknownOpcode`. The program counter has moved past the opcode; no other
/// register and no memory cell has changed.
pub proof fn lemma_unknown_opcode_faults(m: Machine)
    requires
        m.regs.pc < 0xFFFF,
        decode(read_at(m.mem, m.regs.pc)) is None,
    ensures
        step(m) == (Step {
            machine: Machine {
                regs: Registers { pc: (m.regs.pc + 1) as u16, ..m.regs },
                mem: m.mem,
            },
            outcome: Err(Fault::UnknownOpcode(read_at(m.mem, m.regs.pc))),
        }),
{
    reveal(step);
}

/// Opcode `$FF` is outside the dispatch table: wherever it is fetched, it
/// stops the machine with `UnknownOpcode`, the program counter past it and
/// nothing else changed.
pub proof fn lemma_opcode_ff_faults(m: Machine)
    requires
        m.regs.pc < 0xFFFF,
        read_at(m.mem, m.regs.pc) == 0xFF,
    ensures
        step(m) == (Step { machine: m.after_fetch(), outcome: Err(Fault::UnknownOpcode(0xFF)) }),
{
    lemma_unknown_opcode_faults(m);
}

/// The dispatch table binds each operation to a mode it can work with:
/// branches, and only they, are relative; what writes to memory or jumps
/// has a mode that names a memory cell; what works on registers alone is
/// implied.
pub proof fn lemma_table_modes(opcode: u8)
    ensures
        decode(opcode) matches Some(instruction) ==> {
            &&& instruction.operation.is_branch() <==> instruction.mode is Relative
            &&& instruction.operation.writes_memory() || instruction.operation is Jmp
                ==> instruction.mode.names_cell()
            &&& instruction.operation.is_load() || instruction.operation is Bit
                ==> instruction.mode.names_cell() || instruction.mode is Immediate
            &&& !instruction.operation.is_branch() && !instruction.operation.writes_memory()
                && !instruction.operation.is_load() && !(instruction.operation is Jmp) && !(
            instruction.operation is Bit) <==> instruction.mode is Implied
        },
{
}

/// Every mode that names a memory cell resolves to an operand with an
/// address, and no other mode does.
pub proof fn lemma_resolved_address(regs: Registers, mem: Seq<u8>, mode: AddressingMode)
    ensures
        resolve(regs, mem, mode).operand matches Ok(operand) ==> (operand.address is Some
            <==> mode.names_cell() || mode is Relative),
{
}

/// `BRK` halts the machine with the program counter past its opcode and
/// nothing else changed.
pub proof fn lemma_break_halts(m: Machine)
    requires
        m.regs.pc < 0xFFFF,
        read_at(m.mem, m.regs.pc) == 0x00,
    ensures
        step(m) == (Step { machine: m.after_fetch(), outcome: Err(Fault::Break) }),
{
    reveal(step);
}

/// An operation moves only the flags it is documented to affect. Branches,
/// jumps, stores and `NOP` move none.
pub proof fn lemma_other_flags_kept(
    operation: Operation,
    m: Machine,
    operand: Operand,
    flag: StatusFlag,
)
    requires
        !operation.affects(flag),
    ensures
        operation.effect(m, operand).regs.flag(flag) == m.regs.flag(flag),
{
    let regs = m.regs;
    match operation {
        Operation::Bit => {
            let value = low_byte(operand.value);
            let first = regs.with_flag(StatusFlag::Zero, (regs.a & value) == 0);
            let second = first.with_flag(StatusFlag::Overflow, bit_of(value, 6));
            lemma_with_flag_reads(regs, StatusFlag::Zero, (regs.a & value) == 0, flag);
            lemma_with_flag_reads(first, StatusFlag::Overflow, bit_of(value, 6), flag);
            lemma_with_flag_reads(second, StatusFlag::Negative, bit_of(value, 7), flag);
        },
        Operation::Cld => lemma_with_flag_reads(regs, StatusFlag::DecimalMode, false, flag),
        Operation::Sei => lemma_with_flag_reads(regs, StatusFlag::InterruptDisable, true, flag),
        _ => {
            if operation.affects(StatusFlag::Zero) {
                assert forall|stored: Registers, result: u8|
                    stored.p == regs.p implies #[trigger] stored.with_zero_negative(result).flag(
                    flag,
                ) == regs.flag(flag) by {
                    lemma_zero_negative_reads(stored, result, flag);
                }
            }
        },
    }
}

/// Only stores, `INC` and `DEC` write to memory, and they write no cell
/// but the one their operand names.
pub proof fn lemma_memory_written(operation: Operation, m: Machine, operand: Operand)
    requires
        m.mem.len() == ADDRESS_SPACE,
    ensures
        !operation.writes_memory() || operand.address is None ==> operation.effect(
            m,
            operand,
        ).mem == m.mem,
        forall|addr: u16|
            operand.address matches Some(target) && translate(addr) != translate(target)
                ==> read_at(operation.effect(m, operand).mem, addr) == read_at(m.mem, addr),
{
    assert forall|addr: u16|
        operand.address matches Some(target) && translate(addr) != translate(
            target,
        ) implies read_at(operation.effect(m, operand).mem, addr) == read_at(m.mem, addr) by {
        lemma_translate_idempotent(addr);
        lemma_translate_idempotent(operand.address->0);
    }
}

/// After a step that completes, the program counter holds the target of
/// the jump or taken branch that the step performed, and after any other
/// instruction the address one past the instruction's last byte.
pub proof fn lemma_program_counter_after_step(m: Machine)
    requires
        step(m).outcome is Ok,
    ensures
        m.instruction() matches Some(instruction) && m.operand(instruction.mode) matches Ok(
            operand,
        ) && step(m).machine.regs.pc == (if instruction.operation is Jmp
            || instruction.operation.branches(m.regs) {
            operand.address->0 as int
        } else {
            m.regs.pc + instruction.len()
        }) && (instruction.operation is Jmp || instruction.operation.is_branch()
            ==> operand.address is Some),
{
    reveal(step);
}

/// Below `$8000` a freshly loaded memory is zero.
pub proof fn lemma_image_below_rom(bytes: Seq<u8>, addr: u16)
    requires
        addr < CPU_ROM_START_ADDRESS,
    ensures
        read_at(image_of(bytes), addr) == 0,
{
    lemma_translate_idempotent(addr);
    reveal(translate);
}

/// From `$8000` on a freshly loaded memory holds the program ROM, byte for
/// byte, as far as the ROM reaches.
pub proof fn lemma_image_holds_rom(bytes: Seq<u8>, offset: int)
    requires
        is_loadable(bytes),
        0 <= offset < header_of(bytes).prg_len(),
    ensures
        read_at(image_of(bytes), (CPU_ROM_START_ADDRESS + offset) as u16) == bytes[header_of(
            bytes,
        ).prg_start() + offset],
{
    reveal(translate);
}

/// A cartridge with a single page of program ROM shows that page twice:
/// each address of `$8000`-`$BFFF` reads the same byte as the address
/// `$4000` above it.
pub proof fn lemma_single_bank_mirrored(bytes: Seq<u8>, addr: u16)
    requires
        is_loadable(bytes),
        header_of(bytes).prg_pages == 1,
        CPU_ROM_START_ADDRESS <= addr < CPU_ROM_START_ADDRESS + PRG_PAGE_SIZE,
    ensures
        read_at(image_of(bytes), addr) == read_at(
            image_of(bytes),
            (addr + PRG_PAGE_SIZE) as u16,
        ),
        read_at(image_of(bytes), addr) == bytes[header_of(bytes).prg_start() + addr
            - CPU_ROM_START_ADDRESS],
{
    reveal(translate);
}

/// The machine is deterministic: two machines that agree on every register
/// and on every memory cell take the same step, and the same run of steps,
/// with the same outcome.
pub proof fn lemma_deterministic(a: Machine, b: Machine, done: int, budget: int)
    requires
        a.regs == b.regs,
        a.mem.len() == b.mem.len(),
        forall|cell: int| 0 <= cell < a.mem.len() ==> a.mem[cell] == b.mem[cell],
    ensures
        step(a) == step(b),
        run_until(a, done, budget) == run_until(b, done, budget),
{
    assert(a.mem =~= b.mem);
}

/// The same cartridge, powered on twice, runs through the same states: the
/// consoles agree after any number of frames, and fault alike.
pub proof fn lemma_same_cartridge_same_frames(first: Seq<u8>, second: Seq<u8>, frames: nat)
    requires
        first.len() == second.len(),
        forall|i: int| 0 <= i < first.len() ==> first[i] == second[i],
    ensures
        Console::power_on(image_of(first)).frames(frames) == Console::power_on(
            image_of(second),
        ).frames(frames),
{
    assert(first =~= second);
}

} // verus!

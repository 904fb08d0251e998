use nes_core::cpu::CPU;
use nes_core::fault::Fault;
use nes_core::ram::RAM;
use nes_core::registers::{Registers, StatusFlag};

const CARRY: u8 = 0x01;
const ZERO: u8 = 0x02;
const INTERRUPT: u8 = 0x04;
const DECIMAL: u8 = 0x08;
const OVERFLOW: u8 = 0x40;
const NEGATIVE: u8 = 0x80;

fn registers(pc: u16) -> Registers {
    Registers { a: 0, x: 0, y: 0, pc, s: 0xFD, p: 0x24 }
}

fn memory(cells: &[(u16, u8)]) -> RAM {
    let mut ram = RAM::new();
    for (addr, value) in cells {
        ram.write(*addr, *value);
    }
    ram
}

fn program(code: &[u8]) -> RAM {
    let mut ram = RAM::new();
    for (i, byte) in code.iter().enumerate() {
        ram.write(0x8000 + i as u16, *byte);
    }
    ram
}

fn step(start: Registers, ram: &mut RAM) -> (Result<u64, Fault>, Registers) {
    let mut cpu = CPU::from_registers(start);
    let outcome = cpu.execute_next_instruction(ram);
    (outcome, cpu.registers())
}

fn cell(addr: u16) -> u16 {
    match addr {
        0x0800..=0x1FFF => addr % 0x0800,
        0x2008..=0x3FFF => 0x2000 + addr % 8,
        _ => addr,
    }
}

fn unchanged_but(ram: &RAM, reference: &RAM, touched: &[u16]) -> bool {
    let mut addr: u32 = 0;
    while addr <= 0xFFFF {
        let a = addr as u16;
        let written = touched.iter().any(|t| cell(*t) == cell(a));
        if !written && ram.read(a) != reference.read(a) {
            return false;
        }
        addr += 1;
    }
    true
}

#[test]
fn lda_immediate_loads_the_accumulator() {
    let mut ram = program(&[0xA9, 0x37]);
    let (outcome, after) = step(registers(0x8000), &mut ram);
    assert_eq!(outcome, Ok(2));
    assert_eq!(after, Registers { a: 0x37, pc: 0x8002, ..registers(0x8000) });
}

#[test]
fn loading_zero_sets_zero_and_clears_negative() {
    for (opcode, register) in [(0xA9u8, 'a'), (0xA2, 'x'), (0xA0, 'y')] {
        let mut ram = program(&[opcode, 0x00]);
        let start = Registers { a: 9, x: 9, y: 9, p: 0x24 | NEGATIVE, ..registers(0x8000) };
        let (outcome, after) = step(start, &mut ram);
        assert_eq!(outcome, Ok(2));
        assert_eq!(after.p, 0x24 | ZERO);
        let loaded = match register {
            'a' => after.a,
            'x' => after.x,
            _ => after.y,
        };
        assert_eq!(loaded, 0x00);
        assert_eq!(after.a as u32 + after.x as u32 + after.y as u32, 18);
    }
}

#[test]
fn loading_0x80_sets_negative_and_clears_zero() {
    for (opcode, register) in [(0xA9u8, 'a'), (0xA2, 'x'), (0xA0, 'y')] {
        let mut ram = program(&[opcode, 0x80]);
        let start = Registers { p: 0x24 | ZERO, ..registers(0x8000) };
        let (outcome, after) = step(start, &mut ram);
        assert_eq!(outcome, Ok(2));
        assert_eq!(after.p, 0x24 | NEGATIVE);
        let loaded = match register {
            'a' => after.a,
            'x' => after.x,
            _ => after.y,
        };
        assert_eq!(loaded, 0x80);
    }
}

#[test]
fn loading_0x7f_clears_zero_and_negative() {
    for (opcode, register) in [(0xA9u8, 'a'), (0xA2, 'x'), (0xA0, 'y')] {
        let mut ram = program(&[opcode, 0x7F]);
        let start = Registers { p: 0xFF, ..registers(0x8000) };
        let (outcome, after) = step(start, &mut ram);
        assert_eq!(outcome, Ok(2));
        assert_eq!(after.p, 0xFF & !ZERO & !NEGATIVE);
        let loaded = match register {
            'a' => after.a,
            'x' => after.x,
            _ => after.y,
        };
        assert_eq!(loaded, 0x7F);
    }
}

#[test]
fn flags_read_the_documented_bits_of_the_status_byte() {
    let flags = [
        (StatusFlag::Carry, CARRY),
        (StatusFlag::Zero, ZERO),
        (StatusFlag::InterruptDisable, INTERRUPT),
        (StatusFlag::DecimalMode, DECIMAL),
        (StatusFlag::Overflow, OVERFLOW),
        (StatusFlag::Negative, NEGATIVE),
    ];
    for (flag, mask) in flags {
        let set = CPU::from_registers(Registers { p: mask, ..registers(0) });
        let clear = CPU::from_registers(Registers { p: !mask, ..registers(0) });
        assert!(set.flag(flag));
        assert!(!clear.flag(flag));
    }
    assert_eq!(StatusFlag::Carry.index(), 0);
    assert_eq!(StatusFlag::Zero.index(), 1);
    assert_eq!(StatusFlag::InterruptDisable.index(), 2);
    assert_eq!(StatusFlag::DecimalMode.index(), 3);
    assert_eq!(StatusFlag::Overflow.index(), 6);
    assert_eq!(StatusFlag::Negative.index(), 7);
}

#[test]
fn lda_reads_through_every_memory_mode() {
    let cells = [
        (0x0010u16, 0x21u8),
        (0x0015, 0x22),
        (0x9000, 0x23),
        (0x9005, 0x24),
        (0x9006, 0x25),
        (0x0040, 0x00),
        (0x0041, 0x91),
        (0x9106, 0x26),
    ];
    let start = Registers { x: 0x05, y: 0x06, ..registers(0x8000) };
    let cases: [(&[u8], u8, u64, u16); 6] = [
        (&[0xA5, 0x10], 0x21, 3, 0x8002),
        (&[0xB5, 0x10], 0x22, 4, 0x8002),
        (&[0xAD, 0x00, 0x90], 0x23, 4, 0x8003),
        (&[0xBD, 0x00, 0x90], 0x24, 4, 0x8003),
        (&[0xB9, 0x00, 0x90], 0x25, 4, 0x8003),
        (&[0xB1, 0x40], 0x26, 5, 0x8002),
    ];
    for (code, value, cycles, next) in cases {
        let mut ram = program(code);
        for (addr, byte) in cells {
            ram.write(addr, byte);
        }
        let (outcome, after) = step(start, &mut ram);
        assert_eq!(outcome, Ok(cycles));
        assert_eq!(after, Registers { a: value, pc: next, ..start });
    }
}

#[test]
fn lda_indexed_indirect_loads_the_low_byte_of_the_pointed_word() {
    let mut ram = program(&[0xA1, 0x20]);
    ram.write(0x0024, 0x74);
    ram.write(0x0025, 0x20);
    ram.write(0x2074, 0x99);
    let start = Registers { x: 0x04, ..registers(0x8000) };
    let (outcome, after) = step(start, &mut ram);
    assert_eq!(outcome, Ok(6));
    assert_eq!(after, Registers { a: 0x74, pc: 0x8002, ..start });
}

#[test]
fn ldx_and_ldy_read_through_their_modes() {
    let cells = [(0x0010u16, 0x31u8), (0x0016, 0x32), (0x0015, 0x33), (0x9000, 0x34),
        (0x9006, 0x35), (0x9005, 0x36)];
    let start = Registers { x: 0x05, y: 0x06, ..registers(0x8000) };
    let cases: [(&[u8], char, u8, u64, u16); 8] = [
        (&[0xA6, 0x10], 'x', 0x31, 3, 0x8002),
        (&[0xB6, 0x10], 'x', 0x32, 4, 0x8002),
        (&[0xAE, 0x00, 0x90], 'x', 0x34, 4, 0x8003),
        (&[0xBE, 0x00, 0x90], 'x', 0x35, 4, 0x8003),
        (&[0xA4, 0x10], 'y', 0x31, 3, 0x8002),
        (&[0xB4, 0x10], 'y', 0x33, 4, 0x8002),
        (&[0xAC, 0x00, 0x90], 'y', 0x34, 4, 0x8003),
        (&[0xBC, 0x00, 0x90], 'y', 0x36, 4, 0x8003),
    ];
    for (code, register, value, cycles, next) in cases {
        let mut ram = program(code);
        for (addr, byte) in cells {
            ram.write(addr, byte);
        }
        let (outcome, after) = step(start, &mut ram);
        assert_eq!(outcome, Ok(cycles));
        let expected = if register == 'x' {
            Registers { x: value, pc: next, ..start }
        } else {
            Registers { y: value, pc: next, ..start }
        };
        assert_eq!(after, expected);
    }
}

#[test]
fn stores_write_the_register_to_the_operand_address() {
    let start = Registers { a: 0xA1, x: 0x05, y: 0x06, ..registers(0x8000) };
    let cells = [(0x0040u16, 0x00u8), (0x0041, 0x03), (0x0015, 0x00), (0x0016, 0x04)];
    let cases: [(&[u8], u16, u8, u64, u16); 13] = [
        (&[0x85, 0x10], 0x0010, 0xA1, 3, 0x8002),
        (&[0x95, 0x10], 0x0015, 0xA1, 4, 0x8002),
        (&[0x8D, 0x00, 0x03], 0x0300, 0xA1, 4, 0x8003),
        (&[0x9D, 0x00, 0x03], 0x0305, 0xA1, 5, 0x8003),
        (&[0x99, 0x00, 0x03], 0x0306, 0xA1, 5, 0x8003),
        (&[0x81, 0x10], 0x0400, 0xA1, 6, 0x8002),
        (&[0x91, 0x40], 0x0306, 0xA1, 6, 0x8002),
        (&[0x86, 0x10], 0x0010, 0x05, 3, 0x8002),
        (&[0x96, 0x10], 0x0016, 0x05, 4, 0x8002),
        (&[0x8E, 0x00, 0x03], 0x0300, 0x05, 4, 0x8003),
        (&[0x84, 0x10], 0x0010, 0x06, 3, 0x8002),
        (&[0x94, 0x10], 0x0015, 0x06, 4, 0x8002),
        (&[0x8C, 0x00, 0x03], 0x0300, 0x06, 4, 0x8003),
    ];
    for (code, address, value, cycles, next) in cases {
        let mut ram = program(code);
        for (addr, byte) in cells {
            ram.write(addr, byte);
        }
        let mut reference = program(code);
        for (addr, byte) in cells {
            reference.write(addr, byte);
        }
        let (outcome, after) = step(start, &mut ram);
        assert_eq!(outcome, Ok(cycles));
        assert_eq!(after, Registers { pc: next, ..start });
        assert_eq!(ram.read(address), value);
        assert!(unchanged_but(&ram, &reference, &[address]));
    }
}

#[test]
fn indexed_stores_cost_the_same_across_a_page() {
    let start = Registers { a: 0x5A, x: 0xFF, y: 0xFF, ..registers(0x8000) };
    for (code, address, cycles) in [
        ([0x9Du8, 0x80, 0x03], 0x047Fu16, 5u64),
        ([0x99, 0x80, 0x03], 0x047F, 5),
    ] {
        let mut ram = program(&code);
        let (outcome, _) = step(start, &mut ram);
        assert_eq!(outcome, Ok(cycles));
        assert_eq!(ram.read(address), 0x5A);
    }
    let mut ram = program(&[0x91, 0x40]);
    ram.write(0x0040, 0x80);
    ram.write(0x0041, 0x03);
    let (outcome, _) = step(start, &mut ram);
    assert_eq!(outcome, Ok(6));
    assert_eq!(ram.read(0x047F), 0x5A);
}

#[test]
fn a_store_into_a_mirror_is_seen_at_the_base_address() {
    let mut ram = program(&[0x8D, 0x02, 0x18]);
    let start = Registers { a: 0x6B, ..registers(0x8000) };
    let (outcome, _) = step(start, &mut ram);
    assert_eq!(outcome, Ok(4));
    assert_eq!(ram.read(0x0002), 0x6B);
    assert_eq!(ram.read(0x1802), 0x6B);
}

#[test]
fn transfers_copy_between_registers_and_set_flags() {
    let start = Registers { a: 0x01, x: 0x82, y: 0x00, s: 0x7F, ..registers(0x8000) };
    let cases = [
        (0xAAu8, Registers { x: 0x01, p: 0x24, pc: 0x8001, ..start }),
        (0xA8, Registers { y: 0x01, p: 0x24, pc: 0x8001, ..start }),
        (0x8A, Registers { a: 0x82, p: 0x24 | NEGATIVE, pc: 0x8001, ..start }),
        (0x98, Registers { a: 0x00, p: 0x24 | ZERO, pc: 0x8001, ..start }),
        (0xBA, Registers { x: 0x7F, p: 0x24, pc: 0x8001, ..start }),
        (0x9A, Registers { s: 0x82, p: 0x24 | NEGATIVE, pc: 0x8001, ..start }),
    ];
    for (opcode, expected) in cases {
        let mut ram = program(&[opcode]);
        let (outcome, after) = step(start, &mut ram);
        assert_eq!(outcome, Ok(2));
        assert_eq!(after, expected);
    }
}

#[test]
fn register_increments_and_decrements_wrap() {
    let start = Registers { a: 0x55, x: 0xFF, y: 0x00, ..registers(0x8000) };
    let cases = [
        (0xE8u8, Registers { x: 0x00, p: 0x24 | ZERO, pc: 0x8001, ..start }),
        (0xCA, Registers { x: 0xFE, p: 0x24 | NEGATIVE, pc: 0x8001, ..start }),
        (0xC8, Registers { y: 0x01, p: 0x24, pc: 0x8001, ..start }),
        (0x88, Registers { y: 0xFF, p: 0x24 | NEGATIVE, pc: 0x8001, ..start }),
    ];
    for (opcode, expected) in cases {
        let mut ram = program(&[opcode]);
        let (outcome, after) = step(start, &mut ram);
        assert_eq!(outcome, Ok(2));
        assert_eq!(after, expected);
    }
    let start = Registers { x: 0x7F, y: 0x01, ..registers(0x8000) };
    let mut ram = program(&[0xE8]);
    let (_, after) = step(start, &mut ram);
    assert_eq!(after, Registers { x: 0x80, p: 0x24 | NEGATIVE, pc: 0x8001, ..start });
    let mut ram = program(&[0x88]);
    let (_, after) = step(start, &mut ram);
    assert_eq!(after, Registers { y: 0x00, p: 0x24 | ZERO, pc: 0x8001, ..start });
}

#[test]
fn inc_and_dec_replace_the_byte_in_memory() {
    let start = Registers { x: 0x05, ..registers(0x8000) };
    let cells = [(0x0010u16, 0xFFu8), (0x0015, 0x00), (0x0300, 0x7F), (0x0305, 0x01)];
    let cases: [(&[u8], u16, u8, u8, u64, u16); 8] = [
        (&[0xE6, 0x10], 0x0010, 0x00, ZERO, 5, 0x8002),
        (&[0xF6, 0x10], 0x0015, 0x01, 0, 6, 0x8002),
        (&[0xEE, 0x00, 0x03], 0x0300, 0x80, NEGATIVE, 6, 0x8003),
        (&[0xFE, 0x00, 0x03], 0x0305, 0x02, 0, 7, 0x8003),
        (&[0xC6, 0x10], 0x0010, 0xFE, NEGATIVE, 5, 0x8002),
        (&[0xD6, 0x10], 0x0015, 0xFF, NEGATIVE, 6, 0x8002),
        (&[0xCE, 0x00, 0x03], 0x0300, 0x7E, 0, 6, 0x8003),
        (&[0xDE, 0x00, 0x03], 0x0305, 0x00, ZERO, 7, 0x8003),
    ];
    for (code, address, value, flags, cycles, next) in cases {
        let mut ram = program(code);
        for (addr, byte) in cells {
            ram.write(addr, byte);
        }
        let mut reference = program(code);
        for (addr, byte) in cells {
            reference.write(addr, byte);
        }
        let (outcome, after) = step(start, &mut ram);
        assert_eq!(outcome, Ok(cycles));
        assert_eq!(after, Registers { p: 0x24 | flags, pc: next, ..start });
        assert_eq!(ram.read(address), value);
        assert!(unchanged_but(&ram, &reference, &[address]));
    }
}

#[test]
fn inc_across_a_page_still_costs_seven() {
    let mut ram = program(&[0xFE, 0xFF, 0x03]);
    ram.write(0x0400, 0x10);
    let start = Registers { x: 0x01, ..registers(0x8000) };
    let (outcome, _) = step(start, &mut ram);
    assert_eq!(outcome, Ok(7));
    assert_eq!(ram.read(0x0400), 0x11);
}

#[test]
fn bit_sets_zero_from_the_and_and_the_top_bits_from_the_operand() {
    let cases = [
        (0x0Fu8, 0xF0u8, 0x24 | ZERO | OVERFLOW | NEGATIVE),
        (0x0F, 0x4F, 0x24 | OVERFLOW),
        (0xFF, 0x80, 0x24 | NEGATIVE),
        (0xFF, 0x01, 0x24),
        (0x00, 0x00, 0x24 | ZERO),
        (0xC0, 0x3F, 0x24 | ZERO),
    ];
    for (a, operand, flags) in cases {
        for code in [[0x24u8, 0x10, 0x00], [0x2C, 0x10, 0x00]] {
            let mut ram = program(&code);
            ram.write(0x0010, operand);
            let start = Registers {
                a,
                p: 0x24 | ZERO | OVERFLOW | NEGATIVE,
                ..registers(0x8000)
            };
            let (outcome, after) = step(start, &mut ram);
            let (cycles, next) = if code[0] == 0x24 { (3, 0x8002) } else { (4, 0x8003) };
            assert_eq!(outcome, Ok(cycles));
            assert_eq!(after, Registers { p: flags, pc: next, ..start });
            assert_eq!(ram.read(0x0010), operand);
        }
    }
}

#[test]
fn bit_keeps_carry_decimal_and_interrupt() {
    let mut ram = program(&[0x24, 0x10]);
    ram.write(0x0010, 0xFF);
    let start = Registers { a: 0xFF, p: CARRY | DECIMAL, ..registers(0x8000) };
    let (_, after) = step(start, &mut ram);
    assert_eq!(after.p, CARRY | DECIMAL | OVERFLOW | NEGATIVE);
}

#[test]
fn jmp_absolute_continues_at_the_operand() {
    let mut ram = program(&[0x4C, 0x34, 0x92]);
    ram.write(0x9234, 0x78);
    let (outcome, after) = step(registers(0x8000), &mut ram);
    assert_eq!(outcome, Ok(3));
    assert_eq!(after, registers(0x9234));
}

#[test]
fn jmp_indirect_continues_at_the_pointed_word() {
    let mut ram = program(&[0x6C, 0x20, 0x01]);
    ram.write(0x0120, 0xFC);
    ram.write(0x0121, 0xBA);
    let (outcome, after) = step(registers(0x8000), &mut ram);
    assert_eq!(outcome, Ok(5));
    assert_eq!(after, registers(0xBAFC));
}

#[test]
fn sei_sets_interrupt_disable() {
    let mut ram = program(&[0x78]);
    let start = Registers { p: 0x00, ..registers(0x8000) };
    let (outcome, after) = step(start, &mut ram);
    assert_eq!(outcome, Ok(2));
    assert_eq!(after, Registers { p: INTERRUPT, pc: 0x8001, ..start });
    let start = Registers { p: 0xFF, ..registers(0x8000) };
    let (_, after) = step(start, &mut ram);
    assert_eq!(after.p, 0xFF);
}

#[test]
fn cld_clears_decimal_mode() {
    let mut ram = program(&[0xD8]);
    let start = Registers { p: 0xFF, ..registers(0x8000) };
    let (outcome, after) = step(start, &mut ram);
    assert_eq!(outcome, Ok(2));
    assert_eq!(after, Registers { p: 0xFF & !DECIMAL, pc: 0x8001, ..start });
    let start = Registers { p: 0x00, ..registers(0x8000) };
    let (_, after) = step(start, &mut ram);
    assert_eq!(after.p, 0x00);
}

#[test]
fn nop_only_moves_the_program_counter() {
    let mut ram = program(&[0xEA]);
    let reference = program(&[0xEA]);
    let start = Registers { a: 1, x: 2, y: 3, s: 4, p: 0xA5, pc: 0x8000 };
    let (outcome, after) = step(start, &mut ram);
    assert_eq!(outcome, Ok(2));
    assert_eq!(after, Registers { pc: 0x8001, ..start });
    assert!(unchanged_but(&ram, &reference, &[]));
}

#[test]
fn loads_and_branches_leave_memory_alone() {
    for code in [[0xADu8, 0x00, 0x03], [0xD0, 0x05, 0x00], [0x4C, 0x00, 0x90], [0x2C, 0x00, 0x03]]
    {
        let mut ram = program(&code);
        ram.write(0x0300, 0x44);
        let mut reference = program(&code);
        reference.write(0x0300, 0x44);
        let (outcome, _) = step(registers(0x8000), &mut ram);
        assert!(outcome.is_ok());
        assert!(unchanged_but(&ram, &reference, &[]));
    }
}

#[test]
fn self_modifying_code_runs_what_was_written() {
    let mut ram = memory(&[
        (0x0200, 0xA9),
        (0x0201, 0xE8),
        (0x0202, 0x8D),
        (0x0203, 0x05),
        (0x0204, 0x02),
        (0x0205, 0xEA),
    ]);
    let mut cpu = CPU::from_registers(registers(0x0200));
    assert_eq!(cpu.execute_next_instruction(&mut ram), Ok(2));
    assert_eq!(cpu.execute_next_instruction(&mut ram), Ok(4));
    assert_eq!(ram.read(0x0205), 0xE8);
    assert_eq!(cpu.execute_next_instruction(&mut ram), Ok(2));
    assert_eq!(cpu.registers().x, 0x01);
    assert_eq!(cpu.registers().pc, 0x0206);
}

#[test]
fn the_program_counter_ends_one_past_the_instruction() {
    let cases: [(&[u8], u16); 6] = [
        (&[0xEA], 1),
        (&[0xA9, 0x01], 2),
        (&[0xA5, 0x01], 2),
        (&[0xAD, 0x01, 0x02], 3),
        (&[0x8D, 0x01, 0x02], 3),
        (&[0xB1, 0x01], 2),
    ];
    for (code, length) in cases {
        let mut ram = program(code);
        let (outcome, after) = step(registers(0x8000), &mut ram);
        assert!(outcome.is_ok());
        assert_eq!(after.pc, 0x8000 + length);
    }
}

use nes_core::cpu::CPU;
use nes_core::fault::Fault;
use nes_core::opcode::lookup;
use nes_core::ram::RAM;
use nes_core::registers::Registers;

fn program_at(origin: u16, code: &[u8]) -> RAM {
    let mut ram = RAM::new();
    for (i, byte) in code.iter().enumerate() {
        ram.write(origin.wrapping_add(i as u16), *byte);
    }
    ram
}

fn same_memory(left: &RAM, right: &RAM) -> bool {
    let mut addr: u32 = 0;
    while addr <= 0xFFFF {
        if left.read(addr as u16) != right.read(addr as u16) {
            return false;
        }
        addr += 1;
    }
    true
}

#[test]
fn opcode_ff_faults_and_only_moves_the_program_counter() {
    let start = Registers { a: 0x12, x: 0x34, y: 0x56, pc: 0x8000, s: 0x78, p: 0x9A };
    let mut ram = program_at(0x8000, &[0xFF, 0xA9, 0x01]);
    let reference = program_at(0x8000, &[0xFF, 0xA9, 0x01]);
    let mut cpu = CPU::from_registers(start);
    assert_eq!(cpu.execute_next_instruction(&mut ram), Err(Fault::UnknownOpcode(0xFF)));
    assert_eq!(cpu.registers(), Registers { pc: 0x8001, ..start });
    assert!(same_memory(&ram, &reference));
}

#[test]
fn opcode_ff_faults_every_time() {
    for pc in [0x0000u16, 0x07FF, 0x8000, 0xC123, 0xFFFE] {
        for p in [0x00u8, 0x24, 0xFF] {
            let start = Registers { a: 1, x: 2, y: 3, pc, s: 4, p };
            let mut ram = program_at(pc, &[0xFF]);
            let mut cpu = CPU::from_registers(start);
            assert_eq!(cpu.execute_next_instruction(&mut ram), Err(Fault::UnknownOpcode(0xFF)));
            assert_eq!(cpu.registers(), Registers { pc: pc + 1, ..start });
        }
    }
}

#[test]
fn every_opcode_outside_the_table_faults_with_its_own_value() {
    let mut opcode: u32 = 0;
    let mut unknown: u32 = 0;
    while opcode <= 0xFF {
        if lookup(opcode as u8).is_none() {
            unknown += 1;
            let start = Registers { a: 1, x: 2, y: 3, pc: 0x0200, s: 4, p: 5 };
            let mut ram = program_at(0x0200, &[opcode as u8, 0x10, 0x02]);
            let reference = program_at(0x0200, &[opcode as u8, 0x10, 0x02]);
            let mut cpu = CPU::from_registers(start);
            assert_eq!(
                cpu.execute_next_instruction(&mut ram),
                Err(Fault::UnknownOpcode(opcode as u8))
            );
            assert_eq!(cpu.registers(), Registers { pc: 0x0201, ..start });
            assert!(same_memory(&ram, &reference));
        }
        opcode += 1;
    }
    assert_eq!(unknown, 193);
}

#[test]
fn brk_halts_the_machine() {
    let start = Registers { a: 0x12, x: 0x34, y: 0x56, pc: 0x8000, s: 0x78, p: 0x9A };
    let mut ram = program_at(0x8000, &[0x00, 0xA9, 0x01]);
    let reference = program_at(0x8000, &[0x00, 0xA9, 0x01]);
    let mut cpu = CPU::from_registers(start);
    assert_eq!(cpu.execute_next_instruction(&mut ram), Err(Fault::Break));
    assert_eq!(cpu.registers(), Registers { pc: 0x8001, ..start });
    assert!(same_memory(&ram, &reference));
}

#[test]
fn an_opcode_at_the_last_address_overflows_the_program_counter() {
    for opcode in [0xEAu8, 0xFF, 0x00, 0xA9] {
        let start = Registers { a: 1, x: 2, y: 3, pc: 0xFFFF, s: 4, p: 5 };
        let mut ram = program_at(0xFFFF, &[opcode]);
        let mut cpu = CPU::from_registers(start);
        assert_eq!(cpu.execute_next_instruction(&mut ram), Err(Fault::ArithmeticOverflow));
        assert_eq!(cpu.registers(), start);
    }
}

#[test]
fn an_operand_past_the_last_address_overflows_after_the_opcode() {
    let start = Registers { a: 1, x: 2, y: 3, pc: 0xFFFE, s: 4, p: 5 };
    let mut ram = program_at(0xFFFE, &[0xA9, 0x77]);
    let mut cpu = CPU::from_registers(start);
    assert_eq!(cpu.execute_next_instruction(&mut ram), Err(Fault::ArithmeticOverflow));
    assert_eq!(cpu.registers(), Registers { pc: 0xFFFF, ..start });
    let start = Registers { pc: 0xFFFD, ..start };
    let mut ram = program_at(0xFFFD, &[0xAD, 0x00, 0x02]);
    let mut cpu = CPU::from_registers(start);
    assert_eq!(cpu.execute_next_instruction(&mut ram), Err(Fault::ArithmeticOverflow));
    assert_eq!(cpu.registers(), Registers { pc: 0xFFFE, ..start });
}

#[test]
fn an_instruction_ending_at_the_last_but_one_address_runs() {
    let start = Registers { a: 1, x: 2, y: 3, pc: 0xFFFD, s: 4, p: 0x24 };
    let mut ram = program_at(0xFFFD, &[0xA9, 0x77]);
    let mut cpu = CPU::from_registers(start);
    assert_eq!(cpu.execute_next_instruction(&mut ram), Ok(2));
    assert_eq!(cpu.registers(), Registers { a: 0x77, pc: 0xFFFF, ..start });
}

#[test]
fn a_branch_out_of_memory_overflows_whether_or_not_it_is_taken() {
    for p in [0x00u8, 0x02] {
        let start = Registers { a: 1, x: 2, y: 3, pc: 0xFFF0, s: 4, p };
        let mut ram = program_at(0xFFF0, &[0xF0, 0x7F]);
        let mut cpu = CPU::from_registers(start);
        assert_eq!(cpu.execute_next_instruction(&mut ram), Err(Fault::ArithmeticOverflow));
        assert_eq!(cpu.registers(), Registers { pc: 0xFFF2, ..start });
        let start = Registers { pc: 0x0010, ..start };
        let mut ram = program_at(0x0010, &[0xF0, 0x80]);
        let mut cpu = CPU::from_registers(start);
        assert_eq!(cpu.execute_next_instruction(&mut ram), Err(Fault::ArithmeticOverflow));
        assert_eq!(cpu.registers(), Registers { pc: 0x0012, ..start });
    }
}

#[test]
fn a_fault_leaves_memory_as_it_was() {
    let mut ram = program_at(0xFFFD, &[0x8D, 0x00, 0x02]);
    let reference = program_at(0xFFFD, &[0x8D, 0x00, 0x02]);
    let mut cpu = CPU::from_registers(Registers { a: 9, x: 0, y: 0, pc: 0xFFFD, s: 0, p: 0 });
    assert_eq!(cpu.execute_next_instruction(&mut ram), Err(Fault::ArithmeticOverflow));
    assert!(same_memory(&ram, &reference));
}

use nes_core::addressing::{AddressingMode, Operand};
use nes_core::cpu::CPU;
use nes_core::opcode::{Instruction, Operation};
use nes_core::ram::RAM;
use nes_core::registers::Registers;
use nes_core::trace::{format_instruction, Trace};

fn registers(pc: u16) -> Registers {
    Registers { a: 0x11, x: 0x02, y: 0x03, pc, s: 0xFD, p: 0x24 }
}

fn program(code: &[u8]) -> RAM {
    let mut ram = RAM::new();
    for (i, byte) in code.iter().enumerate() {
        ram.write(0x8000 + i as u16, *byte);
    }
    ram
}

#[test]
fn operands_are_written_as_in_assembler_listings() {
    assert_eq!(format_instruction("LSR", AddressingMode::Accumulator, 0x1234), "LSR A");
    assert_eq!(format_instruction("LDA", AddressingMode::Absolute, 0x12AB), "LDA $12AB");
    assert_eq!(format_instruction("LDA", AddressingMode::AbsoluteX, 0x00AB), "LDA $00AB,X");
    assert_eq!(format_instruction("LDA", AddressingMode::AbsoluteY, 0xFFFF), "LDA $FFFF,Y");
    assert_eq!(format_instruction("LDX", AddressingMode::Immediate, 0x07), "LDX #$07");
    assert_eq!(format_instruction("NOP", AddressingMode::Implied, 0x07), "NOP");
    assert_eq!(format_instruction("JMP", AddressingMode::Indirect, 0x0120), "JMP ($120)");
    assert_eq!(format_instruction("STA", AddressingMode::IndexedIndirect, 0x20), "STA ($20,X)");
    assert_eq!(format_instruction("LDA", AddressingMode::IndirectIndexed, 0x0F), "LDA ($0F),Y");
    assert_eq!(format_instruction("BNE", AddressingMode::Relative, 0xFB), "BNE $FB");
    assert_eq!(format_instruction("BIT", AddressingMode::ZeroPage, 0x00), "BIT $00");
    assert_eq!(format_instruction("STY", AddressingMode::ZeroPageX, 0x10), "STY $10,X");
    assert_eq!(format_instruction("STX", AddressingMode::ZeroPageY, 0xC0DE), "STX $C0DE,Y");
}

#[test]
fn numbers_are_padded_like_the_standard_formatter() {
    for value in [0x0000u16, 0x0001, 0x000F, 0x0010, 0x00FF, 0x0100, 0x0ABC, 0x1000, 0xFFFF] {
        assert_eq!(
            format_instruction("LDA", AddressingMode::Absolute, value),
            format!("LDA ${:04X}", value)
        );
        assert_eq!(
            format_instruction("LDA", AddressingMode::ZeroPage, value),
            format!("LDA ${:02X}", value)
        );
    }
    let mut value: u32 = 0;
    while value <= 0xFFFF {
        assert_eq!(
            format_instruction("", AddressingMode::IndirectIndexed, value as u16),
            format!(" (${:02X}),Y", value)
        );
        value += 0x11;
    }
}

#[test]
fn every_operation_has_its_mnemonic() {
    let names = [
        (Operation::Bcc, "BCC"),
        (Operation::Bcs, "BCS"),
        (Operation::Beq, "BEQ"),
        (Operation::Bit, "BIT"),
        (Operation::Bmi, "BMI"),
        (Operation::Bne, "BNE"),
        (Operation::Bpl, "BPL"),
        (Operation::Brk, "BRK"),
        (Operation::Cld, "CLD"),
        (Operation::Dec, "DEC"),
        (Operation::Dex, "DEX"),
        (Operation::Dey, "DEY"),
        (Operation::Inc, "INC"),
        (Operation::Inx, "INX"),
        (Operation::Iny, "INY"),
        (Operation::Jmp, "JMP"),
        (Operation::Lda, "LDA"),
        (Operation::Ldx, "LDX"),
        (Operation::Ldy, "LDY"),
        (Operation::Nop, "NOP"),
        (Operation::Sei, "SEI"),
        (Operation::Sta, "STA"),
        (Operation::Stx, "STX"),
        (Operation::Sty, "STY"),
        (Operation::Tax, "TAX"),
        (Operation::Tay, "TAY"),
        (Operation::Tsx, "TSX"),
        (Operation::Txa, "TXA"),
        (Operation::Txs, "TXS"),
        (Operation::Tya, "TYA"),
    ];
    for (operation, name) in names {
        assert_eq!(operation.mnemonic(), name);
    }
}

#[test]
fn tracing_describes_the_next_instruction_without_running_it() {
    let mut ram = program(&[0xBD, 0xFF, 0x03]);
    ram.write(0x0401, 0x5A);
    let cpu = CPU::from_registers(registers(0x8000));
    let trace = cpu.trace_next_instruction(&ram).unwrap();
    assert_eq!(
        trace,
        Trace {
            instruction: Instruction {
                operation: Operation::Lda,
                mode: AddressingMode::AbsoluteX,
                cycles: 4,
            },
            operand: Operand { value: 0x5A, address: Some(0x0401), page_crossed: true },
            length: 3,
        }
    );
    assert_eq!(trace.text(), "LDA $0401,X");
    assert_eq!(cpu.registers(), registers(0x8000));
}

#[test]
fn tracing_reports_the_length_of_each_instruction() {
    let cases: [(&[u8], u8, &str); 5] = [
        (&[0xEA], 1, "NOP"),
        (&[0xA9, 0x07], 2, "LDA #$07"),
        (&[0xD0, 0xFE], 2, "BNE $8000"),
        (&[0x6C, 0x00, 0x90], 3, "JMP ($00)"),
        (&[0x85, 0x10], 2, "STA $10"),
    ];
    for (code, length, text) in cases {
        let ram = program(code);
        let cpu = CPU::from_registers(registers(0x8000));
        let trace = cpu.trace_next_instruction(&ram).unwrap();
        assert_eq!(trace.length, length);
        assert_eq!(trace.text(), text);
    }
}

#[test]
fn tracing_tells_nothing_of_a_step_that_faults_first() {
    let ram = program(&[0xFF]);
    assert_eq!(CPU::from_registers(registers(0x8000)).trace_next_instruction(&ram), None);
    let mut ram = RAM::new();
    ram.write(0xFFFF, 0xEA);
    ram.write(0xFFFE, 0xA9);
    assert_eq!(CPU::from_registers(registers(0xFFFF)).trace_next_instruction(&ram), None);
    assert_eq!(CPU::from_registers(registers(0xFFFE)).trace_next_instruction(&ram), None);
}

#[test]
fn tracing_shows_brk() {
    let ram = program(&[0x00]);
    let trace = CPU::from_registers(registers(0x8000)).trace_next_instruction(&ram).unwrap();
    assert_eq!(trace.instruction.operation, Operation::Brk);
    assert_eq!(trace.text(), "BRK");
    assert_eq!(trace.length, 1);
}

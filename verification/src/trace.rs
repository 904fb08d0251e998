//! A description of the instruction about to run, for diagnostics. Nothing
//! here changes the machine, and the engine never reads it.

use vstd::prelude::*;
use vstd::string::StringExecFns;
use crate::addressing::{AddressingMode, Operand};
use crate::cpu::CPU;
use crate::opcode::{lookup, Instruction, Operation};
use crate::ram::RAM;
use crate::registers::Registers;
use crate::semantics::Machine;

verus! {

/// What an observer is told of one instruction.
#[derive(Debug, Clone, Copy, PartialEq, Eq, Structural)]
pub struct Trace {
    /// The operation, its addressing mode and its base cycle count.
    pub instruction: Instruction,
    /// What the operand resolved to.
    pub operand: Operand,
    /// Bytes the instruction occupies, opcode included.
    pub length: u8,
}

impl Operation {
    /// The three letters of the mnemonic.
    pub open spec fn name(self) -> Seq<char> {
        match self {
            Operation::Bcc => seq!['B', 'C', 'C'],
            Operation::Bcs => seq!['B', 'C', 'S'],
            Operation::Beq => seq!['B', 'E', 'Q'],
            Operation::Bit => seq!['B', 'I', 'T'],
            Operation::Bmi => seq!['B', 'M', 'I'],
            Operation::Bne => seq!['B', 'N', 'E'],
            Operation::Bpl => seq!['B', 'P', 'L'],
            Operation::Brk => seq!['B', 'R', 'K'],
            Operation::Cld => seq!['C', 'L', 'D'],
            Operation::Dec => seq!['D', 'E', 'C'],
            Operation::Dex => seq!['D', 'E', 'X'],
            Operation::Dey => seq!['D', 'E', 'Y'],
            Operation::Inc => seq!['I', 'N', 'C'],
            Operation::Inx => seq!['I', 'N', 'X'],
            Operation::Iny => seq!['I', 'N', 'Y'],
            Operation::Jmp => seq!['J', 'M', 'P'],
            Operation::Lda => seq!['L', 'D', 'A'],
            Operation::Ldx => seq!['L', 'D', 'X'],
            Operation::Ldy => seq!['L', 'D', 'Y'],
            Operation::Nop => seq!['N', 'O', 'P'],
            Operation::Sei => seq!['S', 'E', 'I'],
            Operation::Sta => seq!['S', 'T', 'A'],
            Operation::Stx => seq!['S', 'T', 'X'],
            Operation::Sty => seq!['S', 'T', 'Y'],
            Operation::Tax => seq!['T', 'A', 'X'],
            Operation::Tay => seq!['T', 'A', 'Y'],
            Operation::Tsx => seq!['T', 'S', 'X'],
            Operation::Txa => seq!['T', 'X', 'A'],
            Operation::Txs => seq!['T', 'X', 'S'],
            Operation::Tya => seq!['T', 'Y', 'A'],
        }
    }

    /// The mnemonic.
    pub fn mnemonic(self) -> (r: &'static str)
        ensures
            r@ == self.name(),
    {
        match self {
            Operation::Bcc => {
                proof {
                    reveal_strlit("BCC");
                }
                "BCC"
            },
            Operation::Bcs => {
                proof {
                    reveal_strlit("BCS");
                }
                "BCS"
            },
            Operation::Beq => {
                proof {
                    reveal_strlit("BEQ");
                }
                "BEQ"
            },
            Operation::Bit => {
                proof {
                    reveal_strlit("BIT");
                }
                "BIT"
            },
            Operation::Bmi => {
                proof {
                    reveal_strlit("BMI");
                }
                "BMI"
            },
            Operation::Bne => {
                proof {
                    reveal_strlit("BNE");
                }
                "BNE"
            },
            Operation::Bpl => {
                proof {
                    reveal_strlit("BPL");
                }
                "BPL"
            },
            Operation::Brk => {
                proof {
                    reveal_strlit("BRK");
                }
                "BRK"
            },
            Operation::Cld => {
                proof {
                    reveal_strlit("CLD");
                }
                "CLD"
            },
            Operation::Dec => {
                proof {
                    reveal_strlit("DEC");
                }
                "DEC"
            },
            Operation::Dex => {
                proof {
                    reveal_strlit("DEX");
                }
                "DEX"
            },
            Operation::Dey => {
                proof {
                    reveal_strlit("DEY");
                }
                "DEY"
            },
            Operation::Inc => {
                proof {
                    reveal_strlit("INC");
                }
                "INC"
            },
            Operation::Inx => {
                proof {
                    reveal_strlit("INX");
                }
                "INX"
            },
            Operation::Iny => {
                proof {
                    reveal_strlit("INY");
                }
                "INY"
            },
            Operation::Jmp => {
                proof {
                    reveal_strlit("JMP");
                }
                "JMP"
            },
            Operation::Lda => {
                proof {
                    reveal_strlit("LDA");
                }
                "LDA"
            },
            Operation::Ldx => {
                proof {
                    reveal_strlit("LDX");
                }
                "LDX"
            },
            Operation::Ldy => {
                proof {
                    reveal_strlit("LDY");
                }
                "LDY"
            },
            Operation::Nop => {
                proof {
                    reveal_strlit("NOP");
                }
                "NOP"
            },
            Operation::Sei => {
                proof {
                    reveal_strlit("SEI");
                }
                "SEI"
            },
            Operation::Sta => {
                proof {
                    reveal_strlit("STA");
                }
                "STA"
            },
            Operation::Stx => {
                proof {
                    reveal_strlit("STX");
                }
                "STX"
            },
            Operation::Sty => {
                proof {
                    reveal_strlit("STY");
                }
                "STY"
            },
            Operation::Tax => {
                proof {
                    reveal_strlit("TAX");
                }
                "TAX"
            },
            Operation::Tay => {
                proof {
                    reveal_strlit("TAY");
                }
                "TAY"
            },
            Operation::Tsx => {
                proof {
                    reveal_strlit("TSX");
                }
                "TSX"
            },
            Operation::Txa => {
                proof {
                    reveal_strlit("TXA");
                }
                "TXA"
            },
            Operation::Txs => {
                proof {
                    reveal_strlit("TXS");
                }
                "TXS"
            },
            Operation::Tya => {
                proof {
                    reveal_strlit("TYA");
                }
                "TYA"
            },
        }
    }
}

/// The upper-case hexadecimal digit for `digit`, which is below 16.
pub open spec fn hex_digit(digit: u16) -> char {
    seq!['0', '1', '2', '3', '4', '5', '6', '7', '8', '9', 'A', 'B', 'C', 'D', 'E', 'F'][digit as int]
}

/// How many hexadecimal digits `value` needs.
pub open spec fn hex_len(value: u16) -> int {
    if value >= 0x1000 {
        4
    } else if value >= 0x100 {
        3
    } else if value >= 0x10 {
        2
    } else {
        1
    }
}

/// `value` in upper-case hexadecimal, padded with zeros on the left to at
/// least `width` digits.
pub open spec fn hex_text(value: u16, width: int) -> Seq<char> {
    let all = seq![
        hex_digit(value / 0x1000),
        hex_digit(value / 0x100 % 16),
        hex_digit(value / 0x10 % 16),
        hex_digit(value % 16),
    ];
    if hex_len(value) >= width {
        all.subrange(4 - hex_len(value), 4)
    } else {
        all.subrange(4 - width, 4)
    }
}

/// The operand as an assembler would write it for `mode`, with `value` as
/// the number, and with the blank that parts it from the mnemonic.
pub open spec fn operand_text(mode: AddressingMode, value: u16) -> Seq<char> {
    match mode {
        AddressingMode::Accumulator => seq![' ', 'A'],
        AddressingMode::Absolute => seq![' ', '$'] + hex_text(value, 4),
        AddressingMode::AbsoluteX => seq![' ', '$'] + hex_text(value, 4) + seq![',', 'X'],
        AddressingMode::AbsoluteY => seq![' ', '$'] + hex_text(value, 4) + seq![',', 'Y'],
        AddressingMode::Immediate => seq![' ', '#', '$'] + hex_text(value, 2),
        AddressingMode::Implied => seq![],
        AddressingMode::Indirect => seq![' ', '(', '$'] + hex_text(value, 2) + seq![')'],
        AddressingMode::IndexedIndirect => seq![' ', '(', '$'] + hex_text(value, 2) + seq![
            ',',
            'X',
            ')',
        ],
        AddressingMode::IndirectIndexed => seq![' ', '(', '$'] + hex_text(value, 2) + seq![
            ')',
            ',',
            'Y',
        ],
        AddressingMode::Relative | AddressingMode::ZeroPage => seq![' ', '$'] + hex_text(
            value,
            2,
        ),
        AddressingMode::ZeroPageX => seq![' ', '$'] + hex_text(value, 2) + seq![',', 'X'],
        AddressingMode::ZeroPageY => seq![' ', '$'] + hex_text(value, 2) + seq![',', 'Y'],
    }
}

/// One hexadecimal digit as text.
fn hex_digit_text(digit: u16) -> (r: &'static str)
    requires
        digit < 16,
    ensures
        r@ == seq![hex_digit(digit)],
{
    match digit {
        0 => {
            proof {
                reveal_strlit("0");
            }
            "0"
        },
        1 => {
            proof {
                reveal_strlit("1");
            }
            "1"
        },
        2 => {
            proof {
                reveal_strlit("2");
            }
            "2"
        },
        3 => {
            proof {
                reveal_strlit("3");
            }
            "3"
        },
        4 => {
            proof {
                reveal_strlit("4");
            }
            "4"
        },
        5 => {
            proof {
                reveal_strlit("5");
            }
            "5"
        },
        6 => {
            proof {
                reveal_strlit("6");
            }
            "6"
        },
        7 => {
            proof {
                reveal_strlit("7");
            }
            "7"
        },
        8 => {
            proof {
                reveal_strlit("8");
            }
            "8"
        },
        9 => {
            proof {
                reveal_strlit("9");
            }
            "9"
        },
        10 => {
            proof {
                reveal_strlit("A");
            }
            "A"
        },
        11 => {
            proof {
                reveal_strlit("B");
            }
            "B"
        },
        12 => {
            proof {
                reveal_strlit("C");
            }
            "C"
        },
        13 => {
            proof {
                reveal_strlit("D");
            }
            "D"
        },
        14 => {
            proof {
                reveal_strlit("E");
            }
            "E"
        },
        _ => {
            proof {
                reveal_strlit("F");
            }
            "F"
        },
    }
}

/// Appends `value` in hexadecimal, at least `width` digits wide.
fn append_hex(text: &mut String, value: u16, width: u8)
    requires
        1 <= width <= 4,
    ensures
        final(text)@ == old(text)@ + hex_text(value, width as int),
{
    let ghost before = text@;
    if value >= 0x1000 || width >= 4 {
        text.append(hex_digit_text(value / 0x1000));
    }
    if value >= 0x100 || width >= 3 {
        text.append(hex_digit_text(value / 0x100 % 16));
    }
    if value >= 0x10 || width >= 2 {
        text.append(hex_digit_text(value / 0x10 % 16));
    }
    text.append(hex_digit_text(value % 16));
    assert(text@ =~= before + hex_text(value, width as int));
}

/// The line an assembler listing would show for an instruction: the
/// mnemonic `op_name`, then the operand written for `mode` with `value` as
/// its number.
pub fn format_instruction(op_name: &str, mode: AddressingMode, value: u16) -> (r: String)
    ensures
        r@ == op_name@ + operand_text(mode, value),
{
    let mut text: String = String::from_str(op_name);
    proof {
        reveal_strlit(" A");
        reveal_strlit(" $");
        reveal_strlit(" #$");
        reveal_strlit(" ($");
        reveal_strlit(",X");
        reveal_strlit(",Y");
        reveal_strlit(")");
        reveal_strlit(",X)");
        reveal_strlit("),Y");
    }
    match mode {
        AddressingMode::Accumulator => {
            text.append(" A");
        },
        AddressingMode::Absolute => {
            text.append(" $");
            append_hex(&mut text, value, 4);
        },
        AddressingMode::AbsoluteX => {
            text.append(" $");
            append_hex(&mut text, value, 4);
            text.append(",X");
        },
        AddressingMode::AbsoluteY => {
            text.append(" $");
            append_hex(&mut text, value, 4);
            text.append(",Y");
        },
        AddressingMode::Immediate => {
            text.append(" #$");
            append_hex(&mut text, value, 2);
        },
        AddressingMode::Implied => {},
        AddressingMode::Indirect => {
            text.append(" ($");
            append_hex(&mut text, value, 2);
            text.append(")");
        },
        AddressingMode::IndexedIndirect => {
            text.append(" ($");
            append_hex(&mut text, value, 2);
            text.append(",X)");
        },
        AddressingMode::IndirectIndexed => {
            text.append(" ($");
            append_hex(&mut text, value, 2);
            text.append("),Y");
        },
        AddressingMode::Relative | AddressingMode::ZeroPage => {
            text.append(" $");
            append_hex(&mut text, value, 2);
        },
        AddressingMode::ZeroPageX => {
            text.append(" $");
            append_hex(&mut text, value, 2);
            text.append(",X");
        },
        AddressingMode::ZeroPageY => {
            text.append(" $");
            append_hex(&mut text, value, 2);
            text.append(",Y");
        },
    }
    assert(text@ =~= op_name@ + operand_text(mode, value));
    text
}

impl Trace {
    /// The number shown for the operand: the address it names, or, where it
    /// names none, its value.
    pub open spec fn shown(self) -> u16 {
        match self.operand.address {
            Some(address) => address,
            None => self.operand.value,
        }
    }

    /// What an observer is told before `m` takes its next step: nothing, if
    /// the step would fault before the operation acts.
    pub open spec fn of(m: Machine) -> Option<Trace> {
        match m.instruction() {
            Some(instruction) => match m.operand(instruction.mode) {
                Ok(operand) => Some(
                    Trace { instruction, operand, length: instruction.len() as u8 },
                ),
                Err(_) => None,
            },
            None => None,
        }
    }

    /// The instruction as a line of assembler text.
    pub fn text(&self) -> (r: String)
        ensures
            r@ == self.instruction.operation.name() + operand_text(
                self.instruction.mode,
                self.shown(),
            ),
    {
        let value: u16 = match self.operand.address {
            Some(address) => address,
            None => self.operand.value,
        };
        format_instruction(self.instruction.operation.mnemonic(), self.instruction.mode, value)
    }
}

impl CPU {
    /// Describes the instruction that the next step will run, without
    /// running it.
    pub fn trace_next_instruction(&self, ram: &RAM) -> (r: Option<Trace>)
        ensures
            r == Trace::of(Machine { regs: self@, mem: ram@ }),
    {
        let now: Registers = self.registers();
        if now.pc == 0xFFFF {
            return None;
        }
        match lookup(ram.read(now.pc)) {
            None => None,
            Some(instruction) => {
                let mut probe: CPU = CPU::from_registers(Registers { pc: now.pc + 1, ..now });
                match probe.get_value(ram, instruction.mode) {
                    Ok(operand) => {
                        let length: u16 = probe.registers().pc - now.pc;
                        Some(Trace { instruction, operand, length: length as u8 })
                    },
                    Err(_) => None,
                }
            },
        }
    }
}

} // verus!

//! What one instruction does, as a function from machine state to machine
//! state. The engine in `cpu` is proved to compute exactly this.

use vstd::prelude::*;
use crate::addressing::{resolve, AddressingMode, Operand};
use crate::bitfield::bit_of;
use crate::fault::Fault;
use crate::opcode::{decode, Instruction, Operation};
use crate::ram::{read_at, write_at};
use crate::registers::{Register, Registers, StatusFlag};

verus! {

/// Everything an instruction can read or change.
pub struct Machine {
    pub regs: Registers,
    /// One byte per memory cell, `0x10000` of them.
    pub mem: Seq<u8>,
}

/// The machine after a step, and how the step ended: the cycles it took, or
/// the fault that stopped it.
pub struct Step {
    pub machine: Machine,
    pub outcome: Result<u64, Fault>,
}

/// The low byte of `value`.
pub open spec fn low_byte(value: u16) -> u8 {
    (value % 256) as u8
}

/// `value + 1`, wrapped to a byte.
pub open spec fn incremented(value: u8) -> u8 {
    if value == 0xFF {
        0
    } else {
        (value + 1) as u8
    }
}

/// `value - 1`, wrapped to a byte.
pub open spec fn decremented(value: u8) -> u8 {
    if value == 0 {
        0xFF
    } else {
        (value - 1) as u8
    }
}

impl Registers {
    /// Loads the operand's low byte into `register` and sets Zero and
    /// Negative from it.
    pub open spec fn load(self, register: Register, operand: Operand) -> Registers {
        self.assign(register, low_byte(operand.value))
    }

    /// Replaces `register` by `value` and sets Zero and Negative from it.
    pub open spec fn assign(self, register: Register, value: u8) -> Registers {
        self.set(register, value).with_zero_negative(value)
    }

    /// Continues at the operand's address.
    pub open spec fn jump(self, operand: Operand) -> Registers {
        match operand.address {
            Some(target) => Registers { pc: target, ..self },
            None => self,
        }
    }

    /// Continues at the operand's address if `taken`.
    pub open spec fn branch(self, operand: Operand, taken: bool) -> Registers {
        if taken {
            self.jump(operand)
        } else {
            self
        }
    }

    /// `BIT`: Zero from `A & operand`, Overflow and Negative from bits 6 and
    /// 7 of the operand itself.
    pub open spec fn bit_test(self, operand: Operand) -> Registers {
        let value = low_byte(operand.value);
        self.with_flag(StatusFlag::Zero, (self.a & value) == 0).with_flag(
            StatusFlag::Overflow,
            bit_of(value, 6),
        ).with_flag(StatusFlag::Negative, bit_of(value, 7))
    }
}

impl Machine {
    /// The machine once the opcode at the program counter has been fetched.
    pub open spec fn after_fetch(self) -> Machine {
        self.with_regs(Registers { pc: (self.regs.pc + 1) as u16, ..self.regs })
    }

    /// The instruction at the program counter, if the opcode there is in
    /// the dispatch table and the program counter can move past it.
    pub open spec fn instruction(self) -> Option<Instruction> {
        if self.regs.pc == 0xFFFF {
            None
        } else {
            decode(read_at(self.mem, self.regs.pc))
        }
    }

    /// What the operand of the instruction at the program counter resolves
    /// to, if that instruction uses `mode`.
    pub open spec fn operand(self, mode: AddressingMode) -> Result<Operand, Fault> {
        resolve(self.after_fetch().regs, self.mem, mode).operand
    }

    /// The machine with its registers replaced.
    pub open spec fn with_regs(self, regs: Registers) -> Machine {
        Machine { regs, ..self }
    }

    /// Stores `value` in the cell the operand names.
    pub open spec fn store(self, operand: Operand, value: u8) -> Machine {
        match operand.address {
            Some(address) => Machine { mem: write_at(self.mem, address, value), ..self },
            None => self,
        }
    }

    /// Replaces the byte in the cell the operand names by `value` and sets
    /// Zero and Negative from it.
    pub open spec fn modify(self, operand: Operand, value: u8) -> Machine {
        self.store(operand, value).with_regs(self.regs.with_zero_negative(value))
    }
}

impl Operation {
    /// Whether the operation is a conditional branch.
    pub open spec fn is_branch(self) -> bool {
        self is Bcc || self is Bcs || self is Beq || self is Bmi || self is Bne || self is Bpl
    }

    /// Whether the operation is a conditional branch whose condition holds
    /// of `regs`.
    pub open spec fn branches(self, regs: Registers) -> bool {
        match self {
            Operation::Bcc => !regs.flag(StatusFlag::Carry),
            Operation::Bcs => regs.flag(StatusFlag::Carry),
            Operation::Beq => regs.flag(StatusFlag::Zero),
            Operation::Bmi => regs.flag(StatusFlag::Negative),
            Operation::Bne => !regs.flag(StatusFlag::Zero),
            Operation::Bpl => !regs.flag(StatusFlag::Negative),
            _ => false,
        }
    }

    /// Whether the operation can change `flag`.
    pub open spec fn affects(self, flag: StatusFlag) -> bool {
        match self {
            Operation::Bit => flag is Zero || flag is Overflow || flag is Negative,
            Operation::Cld => flag is DecimalMode,
            Operation::Sei => flag is InterruptDisable,
            Operation::Dec
            | Operation::Dex
            | Operation::Dey
            | Operation::Inc
            | Operation::Inx
            | Operation::Iny
            | Operation::Lda
            | Operation::Ldx
            | Operation::Ldy
            | Operation::Tax
            | Operation::Tay
            | Operation::Tsx
            | Operation::Txa
            | Operation::Txs
            | Operation::Tya => flag is Zero || flag is Negative,
            _ => false,
        }
    }

    /// Whether the operation writes to memory.
    pub open spec fn writes_memory(self) -> bool {
        self is Dec || self is Inc || self is Sta || self is Stx || self is Sty
    }

    /// Whether the operation reads its operand and pays for a page crossed
    /// on the way to it.
    pub open spec fn is_load(self) -> bool {
        self is Lda || self is Ldx || self is Ldy
    }

    /// The machine after the operation has acted on `operand`.
    pub open spec fn effect(self, m: Machine, operand: Operand) -> Machine {
        let regs = m.regs;
        match self {
            Operation::Bcc
            | Operation::Bcs
            | Operation::Beq
            | Operation::Bmi
            | Operation::Bne
            | Operation::Bpl => m.with_regs(regs.branch(operand, self.branches(regs))),
            Operation::Bit => m.with_regs(regs.bit_test(operand)),
            Operation::Brk | Operation::Nop => m,
            Operation::Cld => m.with_regs(regs.with_flag(StatusFlag::DecimalMode, false)),
            Operation::Sei => m.with_regs(regs.with_flag(StatusFlag::InterruptDisable, true)),
            Operation::Dec => m.modify(operand, decremented(low_byte(operand.value))),
            Operation::Inc => m.modify(operand, incremented(low_byte(operand.value))),
            Operation::Dex => m.with_regs(regs.assign(Register::X, decremented(regs.x))),
            Operation::Dey => m.with_regs(regs.assign(Register::Y, decremented(regs.y))),
            Operation::Inx => m.with_regs(regs.assign(Register::X, incremented(regs.x))),
            Operation::Iny => m.with_regs(regs.assign(Register::Y, incremented(regs.y))),
            Operation::Jmp => m.with_regs(regs.jump(operand)),
            Operation::Lda => m.with_regs(regs.load(Register::A, operand)),
            Operation::Ldx => m.with_regs(regs.load(Register::X, operand)),
            Operation::Ldy => m.with_regs(regs.load(Register::Y, operand)),
            Operation::Sta => m.store(operand, regs.a),
            Operation::Stx => m.store(operand, regs.x),
            Operation::Sty => m.store(operand, regs.y),
            Operation::Tax => m.with_regs(regs.assign(Register::X, regs.a)),
            Operation::Tay => m.with_regs(regs.assign(Register::Y, regs.a)),
            Operation::Tsx => m.with_regs(regs.assign(Register::X, regs.s)),
            Operation::Txa => m.with_regs(regs.assign(Register::A, regs.x)),
            Operation::Txs => m.with_regs(regs.assign(Register::S, regs.x)),
            Operation::Tya => m.with_regs(regs.assign(Register::A, regs.y)),
        }
    }

    /// Cycles on top of the base count: one for a load that crossed a page;
    /// for a branch that is taken one, and one more if its target lies on
    /// another page than the instruction after the branch.
    pub open spec fn penalty(self, regs: Registers, operand: Operand) -> int {
        if self.is_load() {
            if operand.page_crossed {
                1
            } else {
                0
            }
        } else if self.branches(regs) {
            if operand.page_crossed {
                2
            } else {
                1
            }
        } else {
            0
        }
    }
}

impl Instruction {
    /// Executes the instruction once its opcode has been fetched.
    pub open spec fn execute(self, m: Machine) -> Step {
        let resolved = resolve(m.regs, m.mem, self.mode);
        let fetched = Machine { regs: resolved.regs, ..m };
        match resolved.operand {
            Err(fault) => Step { machine: fetched, outcome: Err(fault) },
            Ok(operand) => if self.operation is Brk {
                Step { machine: fetched, outcome: Err(Fault::Break) }
            } else {
                Step {
                    machine: self.operation.effect(fetched, operand),
                    outcome: Ok(
                        (self.cycles + self.operation.penalty(fetched.regs, operand)) as u64,
                    ),
                }
            },
        }
    }
}

/// One fetch-decode-execute step.
///
/// The opcode is fetched from the program counter, which moves past it; the
/// operand is resolved, which moves the program counter past the operand
/// bytes; then the operation acts. A step that faults keeps whatever the
/// program counter had consumed by then and changes nothing else.
#[verifier::opaque]
pub open spec fn step(m: Machine) -> Step {
    if m.regs.pc == 0xFFFF {
        Step { machine: m, outcome: Err(Fault::ArithmeticOverflow) }
    } else {
        let opcode = read_at(m.mem, m.regs.pc);
        match decode(opcode) {
            None => Step { machine: m.after_fetch(), outcome: Err(Fault::UnknownOpcode(opcode)) },
            Some(instruction) => instruction.execute(m.after_fetch()),
        }
    }
}

/// Most cycles a single instruction can take, penalties included.
pub const MAX_STEP_CYCLES: u64 = 7;

/// The machine after a run of steps, and how the run ended: the cycles it
/// took in all, or the fault that stopped it.
pub struct Run {
    pub machine: Machine,
    pub outcome: Result<int, Fault>,
}

/// Every row of the dispatch table costs two to seven cycles; the rows that
/// can earn a penalty leave room for it.
pub proof fn lemma_table_cycles(opcode: u8)
    ensures
        match decode(opcode) {
            Some(instruction) => {
                &&& 2 <= instruction.cycles <= 7
                &&& instruction.operation.is_branch() ==> {
                    &&& instruction.cycles == 2
                    &&& instruction.mode is Relative
                }
                &&& instruction.operation.is_load() ==> instruction.cycles <= 5
                    || instruction.mode is IndexedIndirect
            },
            None => true,
        },
{
}

/// A step that completes takes between two and seven cycles.
pub proof fn lemma_step_cycles(m: Machine)
    ensures
        step(m).outcome matches Ok(cycles) ==> 2 <= cycles <= MAX_STEP_CYCLES,
{
    reveal(step);
    if m.regs.pc != 0xFFFF {
        lemma_table_cycles(read_at(m.mem, m.regs.pc));
    }
}

/// Cycles still to run once `done` of `budget` have been taken.
pub open spec fn cycles_left(done: int, budget: int) -> nat {
    if done < budget {
        (budget - done) as nat
    } else {
        0
    }
}

/// Steps the machine until the cycles taken, counted on from `done`, reach
/// `budget`, or until a step faults. The last step may overshoot the budget.
pub open spec fn run_until(m: Machine, done: int, budget: int) -> Run
    decreases cycles_left(done, budget),
{
    if done >= budget {
        Run { machine: m, outcome: Ok(done) }
    } else {
        let next = step(m);
        match next.outcome {
            Err(fault) => Run { machine: next.machine, outcome: Err(fault) },
            Ok(cycles) => {
                proof {
                    lemma_step_cycles(m);
                }
                run_until(next.machine, done + cycles, budget)
            },
        }
    }
}

} // verus!

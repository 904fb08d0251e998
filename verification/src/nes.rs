//! The console: a processor, its memory, and the scheduler that runs the
//! processor one video frame's worth of cycles at a time.

use vstd::prelude::*;
use crate::addressing::read_word_at;
use crate::cartridge::{image_of, is_loadable};
use crate::cpu::CPU;
use crate::fault::Fault;
use crate::ram::RAM;
use crate::registers::{Registers, RESET_VECTOR};
use crate::semantics::{cycles_left, lemma_step_cycles, run_until, step, Machine};
use crate::trace::Trace;

verus! {

/// Processor cycles in one NTSC video frame.
pub const CYCLES_PER_FRAME: u64 = 29781;

/// The console as a plain value.
pub struct Console {
    pub machine: Machine,
    /// Cycles counted in the frame under way. A frame starts with what the
    /// frame before it ran past its budget.
    pub count: u16,
}

/// The console after one instruction, and how it went: whether it
/// completed the frame, or the fault that stopped it.
pub struct Tick {
    pub console: Console,
    pub outcome: Result<bool, Fault>,
}

/// The console after some frames, and the fault that ended them early, if
/// one did.
pub struct Frames {
    pub console: Console,
    pub fault: Option<Fault>,
}

impl Console {
    /// The console just after the cartridge image `mem` has been mapped:
    /// the processor is reset and no cycle is counted.
    pub open spec fn power_on(mem: Seq<u8>) -> Console {
        Console {
            machine: Machine { regs: Registers::reset(read_word_at(mem, RESET_VECTOR)), mem },
            count: 0,
        }
    }

    /// The console once the frame under way has counted `total` cycles: at
    /// `CYCLES_PER_FRAME` and above the frame is complete, and the next one
    /// starts with the cycles beyond.
    pub open spec fn counted(machine: Machine, total: int) -> Console {
        Console {
            machine,
            count: if total >= CYCLES_PER_FRAME {
                (total - CYCLES_PER_FRAME) as u16
            } else {
                total as u16
            },
        }
    }

    /// One instruction. Its cycles are added to the count of the frame
    /// under way. An instruction that faults takes no cycles.
    pub open spec fn tick(self) -> Tick {
        let next = step(self.machine);
        match next.outcome {
            Ok(cycles) => Tick {
                console: Console::counted(next.machine, self.count + cycles),
                outcome: Ok(self.count + cycles >= CYCLES_PER_FRAME),
            },
            Err(fault) => Tick {
                console: Console { machine: next.machine, count: self.count },
                outcome: Err(fault),
            },
        }
    }

    /// The rest of the frame under way: instructions run until the count
    /// reaches `CYCLES_PER_FRAME` or one of them faults.
    pub open spec fn frame(self) -> Frames
        decreases cycles_left(self.count as int, CYCLES_PER_FRAME as int),
    {
        let next = self.tick();
        match next.outcome {
            Err(fault) => Frames { console: next.console, fault: Some(fault) },
            Ok(true) => Frames { console: next.console, fault: None },
            Ok(false) => {
                proof {
                    lemma_step_cycles(self.machine);
                }
                next.console.frame()
            },
        }
    }

    /// `count` frames in a row, or as many as run before one faults.
    pub open spec fn frames(self, count: nat) -> Frames
        decreases count,
    {
        if count == 0 {
            Frames { console: self, fault: None }
        } else {
            let first = self.frame();
            if first.fault is Some {
                first
            } else {
                first.console.frames((count - 1) as nat)
            }
        }
    }
}

/// A frame runs the instructions that the processor runs when given what
/// is left of the frame's budget, and starts the next frame with the
/// cycles by which they overshoot it.
pub proof fn lemma_frame_runs_the_budget(console: Console)
    requires
        console.count < CYCLES_PER_FRAME,
    ensures
        ({
            let run = run_until(console.machine, console.count as int, CYCLES_PER_FRAME as int);
            &&& console.frame().console.machine == run.machine
            &&& match run.outcome {
                Ok(total) => {
                    &&& console.frame().fault is None
                    &&& console.frame().console.count == total - CYCLES_PER_FRAME
                    &&& total < CYCLES_PER_FRAME + 7
                },
                Err(fault) => console.frame().fault == Some(fault),
            }
        }),
    decreases cycles_left(console.count as int, CYCLES_PER_FRAME as int),
{
    lemma_step_cycles(console.machine);
    let next = step(console.machine);
    let tick = console.tick();
    match next.outcome {
        Ok(cycles) => {
            let total = console.count + cycles;
            assert(run_until(console.machine, console.count as int, CYCLES_PER_FRAME as int)
                == run_until(next.machine, total, CYCLES_PER_FRAME as int));
            if total < CYCLES_PER_FRAME {
                assert(tick.outcome == Ok::<bool, Fault>(false));
                assert(tick.console.count == total);
                lemma_frame_runs_the_budget(tick.console);
            } else {
                assert(tick.outcome == Ok::<bool, Fault>(true));
            }
        },
        Err(fault) => {
            assert(tick.outcome == Err::<bool, Fault>(fault));
        },
    }
}

/// A console with a cartridge in it.
#[derive(Debug)]
pub struct NES {
    cpu: CPU,
    ram: RAM,
    count: u16,
}

impl View for NES {
    type V = Console;

    closed spec fn view(&self) -> Console {
        Console { machine: Machine { regs: self.cpu@, mem: self.ram@ }, count: self.count }
    }
}

impl NES {
    /// A console powered on with the cartridge image `rom` mapped.
    ///
    /// Fails exactly when the image is not loadable.
    pub fn new(rom: &[u8]) -> (r: Result<NES, Fault>)
        ensures
            match r {
                Ok(nes) => is_loadable(rom@) && nes@ == Console::power_on(image_of(rom@)),
                Err(fault) => !is_loadable(rom@) && fault == Fault::MalformedCartridge,
            },
    {
        let ram: RAM = RAM::load_cartridge(rom)?;
        Ok(NES { cpu: CPU::from_ram(&ram), ram, count: 0 })
    }

    /// The processor.
    pub fn cpu(&self) -> (r: &CPU)
        ensures
            r@ == self@.machine.regs,
    {
        &self.cpu
    }

    /// The memory.
    pub fn ram(&self) -> (r: &RAM)
        ensures
            r@ == self@.machine.mem,
    {
        &self.ram
    }

    /// Cycles counted so far in the frame under way.
    pub fn cycles_into_frame(&self) -> (r: u16)
        ensures
            r == self@.count,
    {
        self.count
    }

    /// Describes the instruction that the next step will run, without
    /// running it.
    pub fn trace_next_instruction(&self) -> (r: Option<Trace>)
        ensures
            r == Trace::of(self@.machine),
    {
        self.cpu.trace_next_instruction(&self.ram)
    }

    /// Runs one instruction and says whether it completed the frame.
    pub fn step(&mut self) -> (r: Result<bool, Fault>)
        ensures
            final(self)@ == old(self)@.tick().console,
            r == old(self)@.tick().outcome,
    {
        proof {
            lemma_step_cycles(self@.machine);
        }
        match self.cpu.execute_next_instruction(&mut self.ram) {
            Ok(cycles) => {
                let total: u64 = self.count as u64 + cycles;
                if total >= CYCLES_PER_FRAME {
                    self.count = (total - CYCLES_PER_FRAME) as u16;
                    Ok(true)
                } else {
                    self.count = total as u16;
                    Ok(false)
                }
            },
            Err(fault) => Err(fault),
        }
    }

    /// Runs the processor to the end of the frame under way.
    pub fn run_frame(&mut self) -> (r: Result<(), Fault>)
        ensures
            final(self)@ == old(self)@.frame().console,
            r == (match old(self)@.frame().fault {
                Some(fault) => Err::<(), Fault>(fault),
                None => Ok(()),
            }),
    {
        loop
            invariant
                old(self)@.frame() == self@.frame(),
            decreases cycles_left(self@.count as int, CYCLES_PER_FRAME as int),
        {
            proof {
                lemma_step_cycles(self@.machine);
            }
            match self.step() {
                Ok(true) => {
                    return Ok(());
                },
                Ok(false) => {},
                Err(fault) => {
                    return Err(fault);
                },
            }
        }
    }

    /// Runs the processor for `frames` frames, or until it faults.
    pub fn run(&mut self, frames: u64) -> (r: Result<(), Fault>)
        ensures
            final(self)@ == old(self)@.frames(frames as nat).console,
            r == (match old(self)@.frames(frames as nat).fault {
                Some(fault) => Err::<(), Fault>(fault),
                None => Ok(()),
            }),
    {
        let mut left: u64 = frames;
        while left > 0
            invariant
                old(self)@.frames(frames as nat) == self@.frames(left as nat),
            decreases left,
        {
            match self.run_frame() {
                Ok(()) => {
                    left = left - 1;
                },
                Err(fault) => {
                    return Err(fault);
                },
            }
        }
        Ok(())
    }
}

} // verus!

//! The ways in which the machine stops.

use vstd::prelude::*;

verus! {

/// Why loading or execution stopped. None of these can be recovered from
/// inside the machine; the host decides what to report and how to exit.
#[derive(Debug, Clone, Copy, PartialEq, Eq, Structural)]
pub enum Fault {
    /// The cartridge image has the wrong magic number, announces a program
    /// size this core cannot map, or ends before its announced contents.
    MalformedCartridge,
    /// The fetched opcode is not in the dispatch table.
    UnknownOpcode(u8),
    /// The program counter, or a target computed relative to it, left the
    /// 16-bit address range.
    ArithmeticOverflow,
    /// A `BRK` instruction was fetched. Interrupt sequencing is not modelled,
    /// so the machine halts in place.
    Break,
}

} // verus!

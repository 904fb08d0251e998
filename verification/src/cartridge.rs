//! The iNES cartridge container: its header, and the memory image that a
//! cartridge leaves in the address space.

use vstd::prelude::*;
use crate::bitfield::{bit_of, Bitfield};
use crate::fault::Fault;

verus! {

/// Length of the header at the start of every image.
pub const HEADER_SIZE: usize = 16;

/// Length of the trainer block that may follow the header.
pub const TRAINER_SIZE: usize = 512;

/// Length of one page of program ROM.
pub const PRG_PAGE_SIZE: usize = 0x4000;

/// Length of one page of character ROM.
pub const CHR_PAGE_SIZE: usize = 0x2000;

/// Address at which program ROM is mapped.
pub const CPU_ROM_START_ADDRESS: usize = 0x8000;

/// Most pages of program ROM that fit the fixed mapping.
pub const MAX_PRG_PAGES: u16 = 2;

/// What the header says of the image that follows it.
#[derive(Debug, Clone, Copy, PartialEq, Eq, Structural)]
pub struct Header {
    /// Pages of program ROM, 16 KiB each.
    pub prg_pages: u16,
    /// Pages of character ROM, 8 KiB each.
    pub chr_pages: u16,
    /// Whether a 512-byte trainer precedes the program ROM.
    pub has_trainer: bool,
    /// Whether the sizes use the extended NES 2.0 encoding.
    pub is_nes_2_0: bool,
}

/// Whether `bytes` starts with a whole header carrying the magic number
/// `4E 45 53 1A`.
pub open spec fn has_magic(bytes: Seq<u8>) -> bool {
    &&& bytes.len() >= HEADER_SIZE
    &&& bytes[0] == 0x4E
    &&& bytes[1] == 0x45
    &&& bytes[2] == 0x53
    &&& bytes[3] == 0x1A
}

/// The header fields spelled by the first sixteen bytes.
///
/// Bits 2-3 of byte 7 equal to `0b10` select the NES 2.0 encoding, in which
/// the low and high nibble of byte 9 extend the program and character page
/// counts of bytes 4 and 5 by four bits each. Bit 2 of byte 6 announces a
/// trainer.
pub open spec fn header_of(bytes: Seq<u8>) -> Header {
    let is_nes_2_0 = bit_of(bytes[7], 3) && !bit_of(bytes[7], 2);
    Header {
        prg_pages: if is_nes_2_0 {
            ((bytes[9] % 16) * 256 + bytes[4]) as u16
        } else {
            bytes[4] as u16
        },
        chr_pages: if is_nes_2_0 {
            ((bytes[9] / 16) * 256 + bytes[5]) as u16
        } else {
            bytes[5] as u16
        },
        has_trainer: bit_of(bytes[6], 2),
        is_nes_2_0,
    }
}

impl Header {
    /// Offset of the first byte of program ROM within the image.
    pub open spec fn prg_start(self) -> int {
        if self.has_trainer {
            HEADER_SIZE + TRAINER_SIZE
        } else {
            HEADER_SIZE as int
        }
    }

    /// Length of the program ROM in bytes.
    pub open spec fn prg_len(self) -> int {
        self.prg_pages * PRG_PAGE_SIZE
    }

    /// Length of the character ROM in bytes.
    pub open spec fn chr_len(self) -> int {
        self.chr_pages * CHR_PAGE_SIZE
    }

    /// Offset of the first byte of program ROM within the image.
    pub fn prg_offset(&self) -> (r: usize)
        ensures
            r == self.prg_start(),
    {
        if self.has_trainer {
            HEADER_SIZE + TRAINER_SIZE
        } else {
            HEADER_SIZE
        }
    }

    /// Length of the program ROM in bytes.
    pub fn prg_rom_size(&self) -> (r: usize)
        ensures
            r == self.prg_len(),
    {
        self.prg_pages as usize * PRG_PAGE_SIZE
    }

    /// Length of the character ROM in bytes.
    pub fn chr_rom_size(&self) -> (r: usize)
        ensures
            r == self.chr_len(),
    {
        self.chr_pages as usize * CHR_PAGE_SIZE
    }
}

/// Whether `bytes` is an image this core can map: the magic number
/// matches, there are at most two pages of program ROM, and the image is
/// long enough to hold them after the header and the trainer.
pub open spec fn is_loadable(bytes: Seq<u8>) -> bool {
    &&& has_magic(bytes)
    &&& header_of(bytes).prg_pages <= MAX_PRG_PAGES
    &&& bytes.len() >= header_of(bytes).prg_start() + header_of(bytes).prg_len()
}

/// The byte that the cartridge `bytes` leaves in memory cell `cell`.
///
/// Program ROM starts at `$8000`. A single page appears twice, at `$8000`
/// and again at `$C000`. Cells below `$8000`, and cells that no ROM byte
/// reaches, are zero.
pub open spec fn image_cell(bytes: Seq<u8>, cell: int) -> u8 {
    let header = header_of(bytes);
    let rom = cell - CPU_ROM_START_ADDRESS;
    if rom < 0 {
        0
    } else if header.prg_pages == 1 {
        bytes[header.prg_start() + rom % (PRG_PAGE_SIZE as int)]
    } else if rom < header.prg_len() {
        bytes[header.prg_start() + rom]
    } else {
        0
    }
}

/// The memory that loading the cartridge `bytes` produces.
pub open spec fn image_of(bytes: Seq<u8>) -> Seq<u8> {
    Seq::new(0x10000, |cell: int| image_cell(bytes, cell))
}

/// Reads the header of a cartridge image.
///
/// Fails exactly when the image is shorter than a header or does not start
/// with the magic number.
pub fn parse_header(bytes: &[u8]) -> (r: Result<Header, Fault>)
    ensures
        match r {
            Ok(header) => has_magic(bytes@) && header == header_of(bytes@),
            Err(fault) => !has_magic(bytes@) && fault == Fault::MalformedCartridge,
        },
{
    if bytes.len() < HEADER_SIZE {
        return Err(Fault::MalformedCartridge);
    }
    if bytes[0] != 0x4E || bytes[1] != 0x45 || bytes[2] != 0x53 || bytes[3] != 0x1A {
        return Err(Fault::MalformedCartridge);
    }
    let flags_7: Bitfield = Bitfield::new(bytes[7]);
    let is_nes_2_0: bool = flags_7.get_bit(3) && !flags_7.get_bit(2);
    let has_trainer: bool = Bitfield::new(bytes[6]).get_bit(2);
    let sizes: u8 = bytes[9];
    let prg_low: u8 = bytes[4];
    let chr_low: u8 = bytes[5];
    let prg_pages: u16 = if is_nes_2_0 {
        assert((((sizes & 0xF) as u16) << 8 | prg_low as u16) == (sizes % 16) * 256 + prg_low)
            by (bit_vector);
        ((sizes & 0xF) as u16) << 8 | prg_low as u16
    } else {
        prg_low as u16
    };
    let chr_pages: u16 = if is_nes_2_0 {
        assert((((sizes & 0xF0) as u16) << 4 | chr_low as u16) == (sizes / 16) * 256 + chr_low)
            by (bit_vector);
        ((sizes & 0xF0) as u16) << 4 | chr_low as u16
    } else {
        chr_low as u16
    };
    Ok(Header { prg_pages, chr_pages, has_trainer, is_nes_2_0 })
}

} // verus!

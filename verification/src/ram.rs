//! The 64 KiB address space, with its mirrored regions.

use vstd::prelude::*;
use crate::cartridge::{
    image_of, is_loadable, parse_header, Header, CPU_ROM_START_ADDRESS, MAX_PRG_PAGES,
    PRG_PAGE_SIZE,
};
use crate::fault::Fault;

verus! {

/// Number of cells in the address space.
pub const ADDRESS_SPACE: usize = 0x10000;

/// The cell that backs logical address `addr`.
///
/// `$0800`-`$1FFF` folds onto the 2 KiB of internal memory at `$0000`,
/// `$2008`-`$3FFF` folds onto the eight registers at `$2000`, and every other
/// address backs itself.
#[verifier::opaque]
pub open spec fn translate(addr: u16) -> int {
    if 0x0800 <= addr <= 0x1FFF {
        addr as int % 0x0800
    } else if 0x2008 <= addr <= 0x3FFF {
        0x2000 + addr as int % 8
    } else {
        addr as int
    }
}

/// What a read of `addr` returns from the cells `mem`.
pub open spec fn read_at(mem: Seq<u8>, addr: u16) -> u8 {
    mem[translate(addr)]
}

/// The cells after `value` has been written to `addr`.
pub open spec fn write_at(mem: Seq<u8>, addr: u16, value: u8) -> Seq<u8> {
    mem.update(translate(addr), value)
}

/// The machine's memory: one byte per cell.
#[derive(Debug)]
pub struct RAM {
    ram: [u8; 0x10000],
}

impl View for RAM {
    type V = Seq<u8>;

    closed spec fn view(&self) -> Seq<u8> {
        self.ram@
    }
}

impl RAM {
    /// Memory with every cell zero.
    pub fn new() -> (r: RAM)
        ensures
            r@ == Seq::new(ADDRESS_SPACE as nat, |i: int| 0u8),
    {
        RAM { ram: [0; 0x10000] }
    }

    /// Every memory has one cell per 16-bit address.
    pub proof fn lemma_len(&self)
        ensures
            self@.len() == ADDRESS_SPACE,
    {
    }

    fn get_ram_address(addr: u16) -> (r: usize)
        ensures
            r == translate(addr),
            r < ADDRESS_SPACE,
    {
        reveal(translate);
        if 0x0800 <= addr && addr <= 0x1FFF {
            (addr % 0x0800) as usize
        } else if 0x2008 <= addr && addr <= 0x3FFF {
            0x2000 + (addr % 0x0008) as usize
        } else {
            addr as usize
        }
    }

    /// The byte at `addr`, through the mirroring translation.
    pub fn read(&self, addr: u16) -> (r: u8)
        ensures
            r == read_at(self@, addr),
    {
        self.ram[RAM::get_ram_address(addr)]
    }

    /// Stores `data` at `addr`, through the mirroring translation.
    pub fn write(&mut self, addr: u16, data: u8)
        ensures
            final(self)@ == write_at(old(self)@, addr, data),
    {
        let i: usize = RAM::get_ram_address(addr);
        self.ram[i] = data;
    }

    /// Memory as a cartridge leaves it: program ROM mapped from `$8000`,
    /// a single page mirrored at `$C000`, everything else zero.
    ///
    /// Fails exactly when the image is not loadable: on a wrong magic
    /// number, on more than two pages of program ROM, and on an image that
    /// ends before its program ROM does.
    pub fn load_cartridge(bytes: &[u8]) -> (r: Result<RAM, Fault>)
        ensures
            match r {
                Ok(ram) => is_loadable(bytes@) && ram@ == image_of(bytes@),
                Err(fault) => !is_loadable(bytes@) && fault == Fault::MalformedCartridge,
            },
    {
        let header: Header = parse_header(bytes)?;
        if header.prg_pages > MAX_PRG_PAGES {
            return Err(Fault::MalformedCartridge);
        }
        let start: usize = header.prg_offset();
        let size: usize = header.prg_rom_size();
        if bytes.len() < start + size {
            return Err(Fault::MalformedCartridge);
        }
        let mut ram: RAM = RAM::new();
        ram.copy_rom(bytes, start, size);
        if header.prg_pages == 1 {
            ram.mirror_bank();
        }
        assert(ram@ =~= image_of(bytes@));
        Ok(ram)
    }

    /// Copies `size` bytes of `bytes`, from offset `start`, to `$8000` on.
    fn copy_rom(&mut self, bytes: &[u8], start: usize, size: usize)
        requires
            size <= 2 * PRG_PAGE_SIZE,
            start + size <= bytes.len(),
        ensures
            forall|cell: int|
                0 <= cell < ADDRESS_SPACE ==> #[trigger] final(self)@[cell] == (if 0 <= cell
                    - CPU_ROM_START_ADDRESS < size {
                    bytes@[start + cell - CPU_ROM_START_ADDRESS]
                } else {
                    old(self)@[cell]
                }),
    {
        let mut i: usize = 0;
        while i < size
            invariant
                i <= size <= 2 * PRG_PAGE_SIZE,
                start + size <= bytes.len(),
                forall|cell: int|
                    0 <= cell < ADDRESS_SPACE ==> #[trigger] self@[cell] == (if 0 <= cell
                        - CPU_ROM_START_ADDRESS < i {
                        bytes@[start + cell - CPU_ROM_START_ADDRESS]
                    } else {
                        old(self)@[cell]
                    }),
            decreases size - i,
        {
            let ghost before = self@;
            self.ram[CPU_ROM_START_ADDRESS + i] = bytes[start + i];
            assert(self@ == before.update(CPU_ROM_START_ADDRESS + i, bytes@[start + i]));
            i = i + 1;
        }
    }

    /// Repeats the page at `$8000` at `$C000`.
    fn mirror_bank(&mut self)
        ensures
            forall|cell: int|
                0 <= cell < ADDRESS_SPACE ==> #[trigger] final(self)@[cell] == (if cell
                    >= CPU_ROM_START_ADDRESS + PRG_PAGE_SIZE {
                    old(self)@[cell - PRG_PAGE_SIZE]
                } else {
                    old(self)@[cell]
                }),
    {
        let mut i: usize = 0;
        while i < PRG_PAGE_SIZE
            invariant
                i <= PRG_PAGE_SIZE,
                forall|cell: int|
                    0 <= cell < ADDRESS_SPACE ==> #[trigger] self@[cell] == (if
                        CPU_ROM_START_ADDRESS + PRG_PAGE_SIZE <= cell < CPU_ROM_START_ADDRESS
                        + PRG_PAGE_SIZE + i {
                        old(self)@[cell - PRG_PAGE_SIZE]
                    } else {
                        old(self)@[cell]
                    }),
            decreases PRG_PAGE_SIZE - i,
        {
            let ghost before = self@;
            let byte: u8 = self.ram[CPU_ROM_START_ADDRESS + i];
            self.ram[CPU_ROM_START_ADDRESS + PRG_PAGE_SIZE + i] = byte;
            assert(self@ == before.update(CPU_ROM_START_ADDRESS + PRG_PAGE_SIZE + i, byte));
            i = i + 1;
        }
    }
}

} // verus!

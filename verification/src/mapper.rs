//! The address decoder of a cartridge without bank switching.

use vstd::prelude::*;
use crate::bits::lemma_mask_bounds;

verus! {

/// First cartridge address that reaches the program image.
pub const PRG_WINDOW_START: u16 = 0x8000;

/// Size of the window through which the character image is read.
pub const CHR_WINDOW_SIZE: u16 = 0x2000;

/// Size of one program bank in bytes.
pub const PRG_BANK_SIZE: usize = 0x4000;

/// Cartridge address decoder without bank switching (NROM).
#[derive(Debug)]
pub struct Mapper0 {
    prg_rom: Vec<u8>,
    chr_rom: Vec<u8>,
}

/// What a `Mapper0` holds: the program image and the character image.
pub struct Mapper0View {
    pub prg: Seq<u8>,
    pub chr: Seq<u8>,
}

impl Mapper0View {
    /// Offset into the program image that an address of the upper half selects.
    /// An image of one bank is mirrored into both halves of the window; a larger
    /// image fills the window.
    pub open spec fn prg_offset(self, address: u16) -> int {
        if self.prg.len() > PRG_BANK_SIZE {
            (address & 0x7FFF) as int
        } else {
            (address & 0x3FFF) as int
        }
    }

    /// Whether a read at `address` reaches a byte of one of the two images.
    pub open spec fn maps(self, address: u16) -> bool {
        if address >= PRG_WINDOW_START {
            self.prg_offset(address) < self.prg.len()
        } else {
            address < CHR_WINDOW_SIZE && address < self.chr.len()
        }
    }

    /// The byte that a mapped address selects.
    pub open spec fn read(self, address: u16) -> u8
        recommends
            self.maps(address),
    {
        if address >= PRG_WINDOW_START {
            self.prg[self.prg_offset(address)]
        } else {
            self.chr[address as int]
        }
    }
}

impl View for Mapper0 {
    type V = Mapper0View;

    closed spec fn view(&self) -> Mapper0View {
        Mapper0View { prg: self.prg_rom@, chr: self.chr_rom@ }
    }
}

impl Mapper0 {
    pub fn new(prg_rom: Vec<u8>, chr_rom: Vec<u8>) -> (mapper: Self)
        ensures
            mapper@.prg == prg_rom@,
            mapper@.chr == chr_rom@,
    {
        Self { prg_rom, chr_rom }
    }

    /// Tells whether `address` selects a byte of the program or character image.
    pub fn maps(&self, address: u16) -> (mapped: bool)
        ensures
            mapped == self@.maps(address),
    {
        if address >= PRG_WINDOW_START {
            self.prg_offset(address) < self.prg_rom.len()
        } else {
            address < CHR_WINDOW_SIZE && (address as usize) < self.chr_rom.len()
        }
    }

    /// Reads the byte that `address` selects.
    pub fn read(&self, address: u16) -> (data: u8)
        requires
            self@.maps(address),
        ensures
            data == self@.read(address),
    {
        if address >= PRG_WINDOW_START {
            self.prg_rom[self.prg_offset(address)]
        } else {
            self.chr_rom[address as usize]
        }
    }

    fn prg_offset(&self, address: u16) -> (offset: usize)
        ensures
            offset == self@.prg_offset(address),
    {
        proof {
            lemma_mask_bounds(address);
        }
        if self.prg_rom.len() > PRG_BANK_SIZE {
            (address & 0x7FFF) as usize
        } else {
            (address & 0x3FFF) as usize
        }
    }
}

} // verus!

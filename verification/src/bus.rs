//! The memory bus of the processor: 2 KiB of RAM shown four times, register
//! windows that read as zero, and the cartridge.

use vstd::prelude::*;
use crate::bits::lemma_mask_bounds;
use crate::rom::Cartridge;
use crate::rom::CartridgeView;

verus! {

/// Size of the internal RAM in bytes.
pub const RAM_SIZE: usize = 2048;

/// First address above the four mirrors of the RAM.
pub const RAM_WINDOW_END: u16 = 0x2000;

/// First address that is handed to the cartridge.
pub const CARTRIDGE_START: u16 = 0x4020;

/// The memory that the processor sees: its RAM, the register windows, and the
/// cartridge.
#[derive(Debug)]
pub struct CpuBus {
    ram: [u8; 2048],
    cartridge: Cartridge,
}

/// The contents of a `CpuBus` as plain values.
pub struct BusState {
    pub ram: Seq<u8>,
    pub cartridge: CartridgeView,
}

impl BusState {
    pub open spec fn wf(self) -> bool {
        self.ram.len() == RAM_SIZE
    }

    /// The bus of a machine that was just switched on: the RAM is all zero.
    pub open spec fn initial(cartridge: CartridgeView) -> BusState {
        BusState { ram: Seq::new(RAM_SIZE as nat, |i: int| 0u8), cartridge }
    }

    /// Place in the RAM that an address of the RAM window selects.
    pub open spec fn ram_index(address: u16) -> int {
        (address & 0x07FF) as int
    }

    /// The byte that a read at `address` gives.
    pub open spec fn read(self, address: u16) -> u8 {
        if address < RAM_WINDOW_END {
            self.ram[Self::ram_index(address)]
        } else if address < CARTRIDGE_START {
            0
        } else {
            self.cartridge.read(address)
        }
    }

    /// The bus after a write of `data` at `address`: the RAM takes it, every
    /// other range drops it.
    pub open spec fn write(self, address: u16, data: u8) -> BusState {
        if address < RAM_WINDOW_END {
            BusState { ram: self.ram.update(Self::ram_index(address), data), ..self }
        } else {
            self
        }
    }
}

impl View for CpuBus {
    type V = BusState;

    closed spec fn view(&self) -> BusState {
        BusState { ram: self.ram@, cartridge: self.cartridge@ }
    }
}

impl CpuBus {
    pub fn new(cartridge: Cartridge) -> (bus: Self)
        ensures
            bus@ == BusState::initial(cartridge@),
    {
        let bus = Self { ram: [0;2048], cartridge };
        assert(bus.ram@ =~= Seq::new(RAM_SIZE as nat, |i: int| 0u8));
        bus
    }

    pub fn read(&self, address: u16) -> (data: u8)
        ensures
            data == self@.read(address),
    {
        if address < RAM_WINDOW_END {
            proof {
                lemma_mask_bounds(address);
            }
            self.ram[(address & 0x07FF) as usize]
        } else if address < CARTRIDGE_START {
            0
        } else {
            self.cartridge.read(address)
        }
    }

    pub fn write(&mut self, address: u16, data: u8)
        ensures
            final(self)@ == old(self)@.write(address, data),
    {
        if address < RAM_WINDOW_END {
            proof {
                lemma_mask_bounds(address);
            }
            self.ram[(address & 0x07FF) as usize] = data;
        }
    }

    /// The RAM of every bus has its full size.
    pub proof fn lemma_wf(&self)
        ensures
            self@.wf(),
    {
    }
}

} // verus!

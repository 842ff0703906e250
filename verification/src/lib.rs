//! The core of an emulator for the 8-bit processor of the Nintendo Entertainment
//! System: a cartridge loader for iNES images, the memory bus of the processor,
//! and an interpreter of the documented 6502 instructions that counts cycles.
//! Every function carries a contract over a model of the machine, and the
//! contracts are proved.

pub mod bits;
pub mod bus;
pub mod cpu;
pub mod emulator;
pub mod machine;
pub mod mapper;
pub mod opcode;
pub mod reference;
pub mod rom;
pub mod status;
pub mod theorems;
pub mod trace;

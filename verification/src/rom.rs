//! The loader for iNES cartridge images.

use vstd::prelude::*;
use vstd::slice::slice_subrange;
use vstd::slice::slice_to_vec;
use crate::mapper::Mapper0;
use crate::mapper::Mapper0View;

verus! {

pub const HEADER_SIZE: usize = 16;

pub const TRAINER_SIZE: usize = 512;

pub const PRG_UNIT: usize = 16384;

pub const CHR_UNIT: usize = 8192;

pub const FLAG6_MIRRORING: u8 = 0x01;

pub const FLAG6_BATTERY: u8 = 0x02;

pub const FLAG6_TRAINER: u8 = 0x04;

pub const FLAG6_ALTER_NT_LAYOUT: u8 = 0x08;

pub const FLAG6_MAPPER_LOWER_BITS: u8 = 0xF0;

pub const FLAG7_VS_UNISYSTEM: u8 = 0x01;

pub const FLAG7_PLAYCHOICE_10: u8 = 0x02;

pub const FLAG7_ROM_FORMAT_BITS: u8 = 0x0C;

pub const FLAG7_NES20: u8 = 0x08;

pub const FLAG7_MAPPER_UPPER_BITS: u8 = 0xF0;

pub const FLAG9_TV_SYSTEM: u8 = 0x01;

pub const FLAG9_RESERVED_BITS: u8 = 0xFE;

#[derive(Debug, Clone, Copy, PartialEq, Eq, Structural)]
pub enum RomFormat {
    Unknown,
    Ines,
    Nes20,
}

#[derive(Debug, Clone, Copy, PartialEq, Eq, Structural)]
pub enum Mirroring {
    Horizontal,
    Vertical,
}

#[derive(Debug, Clone, Copy, PartialEq, Eq, Structural)]
pub enum ConsoleType {
    Default,
    VsUnisystem,
    Playchoice10,
}

#[derive(Debug, Clone, Copy, PartialEq, Eq, Structural)]
pub enum TvSystem {
    NTSC,
    PAL,
}

/// Why an image was not accepted as a cartridge.
#[derive(Debug, Clone, Copy, PartialEq, Eq, Structural)]
pub enum RomError {
    /// Shorter than a header, or the magic bytes are wrong.
    UnknownFormat,
    /// The image is in the NES 2.0 format or asks for a mapper other than 0.
    Unsupported,
    /// One of the reserved bits of byte 9 is set.
    ReservedBitsSet,
    /// One of the bytes 10 to 15 is not zero.
    BadPadding,
    /// The sizes that the header declares do not add up to the image's length.
    SizeMismatch,
}

impl RomError {
    /// A short description for people.
    pub fn message(&self) -> (text: &'static str)
        ensures
            text@ == self.message_text(),
    {
        match self {
            RomError::UnknownFormat => "unknown rom format",
            RomError::Unsupported => "unsupported rom format or mapper",
            RomError::ReservedBitsSet => "reserved bits is not zero",
            RomError::BadPadding => "invalid padding value",
            RomError::SizeMismatch => "invalid buffer size",
        }
    }

    pub open spec fn message_text(self) -> Seq<char> {
        match self {
            RomError::UnknownFormat => "unknown rom format"@,
            RomError::Unsupported => "unsupported rom format or mapper"@,
            RomError::ReservedBitsSet => "reserved bits is not zero"@,
            RomError::BadPadding => "invalid padding value"@,
            RomError::SizeMismatch => "invalid buffer size"@,
        }
    }
}

/// A loaded iNES cartridge: what the header declares, and the two images behind
/// a mapper.
#[derive(Debug)]
pub struct Cartridge {
    format: RomFormat,
    pub size: usize,
    mirroring: Mirroring,
    console_type: ConsoleType,
    tv_system: TvSystem,
    has_battery: bool,
    has_trainer: bool,
    has_alter_nt: bool,
    prg_rom_banks: u8,
    chr_rom_banks: u8,
    prg_ram_banks: u8,
    prg_rom_size: usize,
    chr_rom_size: usize,
    mapper: Mapper0,
}

/// The contents of a `Cartridge` as plain values.
pub struct CartridgeView {
    pub format: RomFormat,
    pub size: nat,
    pub mirroring: Mirroring,
    pub console_type: ConsoleType,
    pub tv_system: TvSystem,
    pub has_battery: bool,
    pub has_trainer: bool,
    pub has_alter_nt: bool,
    pub prg_rom_banks: u8,
    pub chr_rom_banks: u8,
    pub prg_ram_banks: u8,
    pub prg_rom_size: nat,
    pub chr_rom_size: nat,
    pub mapper: Mapper0View,
}

impl CartridgeView {
    /// What a read of the cartridge at `address` gives: the byte that the mapper
    /// selects, and 0 where the mapper has nothing.
    pub open spec fn read(self, address: u16) -> u8 {
        if self.mapper.maps(address) {
            self.mapper.read(address)
        } else {
            0
        }
    }
}

impl View for Cartridge {
    type V = CartridgeView;

    closed spec fn view(&self) -> CartridgeView {
        CartridgeView {
            format: self.format,
            size: self.size as nat,
            mirroring: self.mirroring,
            console_type: self.console_type,
            tv_system: self.tv_system,
            has_battery: self.has_battery,
            has_trainer: self.has_trainer,
            has_alter_nt: self.has_alter_nt,
            prg_rom_banks: self.prg_rom_banks,
            chr_rom_banks: self.chr_rom_banks,
            prg_ram_banks: self.prg_ram_banks,
            prg_rom_size: self.prg_rom_size as nat,
            chr_rom_size: self.chr_rom_size as nat,
            mapper: self.mapper@,
        }
    }
}

/// Whether the image is long enough for a header and starts with the magic
/// bytes `N`, `E`, `S`, 0x1A.
pub open spec fn has_ines_header(bytes: Seq<u8>) -> bool {
    &&& bytes.len() >= HEADER_SIZE
    &&& bytes[0] == 0x4E
    &&& bytes[1] == 0x45
    &&& bytes[2] == 0x53
    &&& bytes[3] == 0x1A
}

/// The format that the first bytes of an image announce.
pub open spec fn rom_format_of(bytes: Seq<u8>) -> RomFormat {
    if !has_ines_header(bytes) {
        RomFormat::Unknown
    } else if bytes[7] & FLAG7_ROM_FORMAT_BITS == FLAG7_NES20 {
        RomFormat::Nes20
    } else {
        RomFormat::Ines
    }
}

/// The mapper number: low nibble from byte 6, high nibble from byte 7.
pub open spec fn mapper_id_of(flags6: u8, flags7: u8) -> u8 {
    ((flags6 & FLAG6_MAPPER_LOWER_BITS) >> 4) | (flags7 & FLAG7_MAPPER_UPPER_BITS)
}

pub open spec fn console_type_of(flags7: u8) -> ConsoleType {
    if flags7 & FLAG7_VS_UNISYSTEM != 0 {
        ConsoleType::VsUnisystem
    } else if flags7 & FLAG7_PLAYCHOICE_10 != 0 {
        ConsoleType::Playchoice10
    } else {
        ConsoleType::Default
    }
}

/// Number of trainer bytes between the header and the program image.
pub open spec fn trainer_len(bytes: Seq<u8>) -> nat {
    if bytes[6] & FLAG6_TRAINER != 0 {
        TRAINER_SIZE as nat
    } else {
        0
    }
}

pub open spec fn prg_len(bytes: Seq<u8>) -> nat {
    (PRG_UNIT * bytes[4]) as nat
}

pub open spec fn chr_len(bytes: Seq<u8>) -> nat {
    (CHR_UNIT * bytes[5]) as nat
}

/// The length that the header declares for the whole image.
pub open spec fn declared_len(bytes: Seq<u8>) -> nat {
    HEADER_SIZE as nat + trainer_len(bytes) + prg_len(bytes) + chr_len(bytes)
}

/// Whether the six padding bytes at the end of the header are all zero.
pub open spec fn padding_is_zero(bytes: Seq<u8>) -> bool {
    forall|i: int| 10 <= i < 16 ==> bytes[i] == 0
}

/// The cartridge that an image with an iNES header describes, with the checks
/// in the order in which they are made.
pub open spec fn ines_cartridge(bytes: Seq<u8>) -> Result<CartridgeView, RomError>
    recommends
        bytes.len() >= HEADER_SIZE,
{
    if bytes[9] & FLAG9_RESERVED_BITS != 0 {
        Err(RomError::ReservedBitsSet)
    } else if !padding_is_zero(bytes) {
        Err(RomError::BadPadding)
    } else if declared_len(bytes) != bytes.len() {
        Err(RomError::SizeMismatch)
    } else if mapper_id_of(bytes[6], bytes[7]) != 0 {
        Err(RomError::Unsupported)
    } else {
        let prg_start = HEADER_SIZE as int + trainer_len(bytes);
        let chr_start = prg_start + prg_len(bytes);
        Ok(
            CartridgeView {
                format: RomFormat::Ines,
                size: bytes.len(),
                mirroring: if bytes[6] & FLAG6_MIRRORING == 0 {
                    Mirroring::Horizontal
                } else {
                    Mirroring::Vertical
                },
                console_type: console_type_of(bytes[7]),
                tv_system: if bytes[9] & FLAG9_TV_SYSTEM == 0 {
                    TvSystem::NTSC
                } else {
                    TvSystem::PAL
                },
                has_battery: bytes[6] & FLAG6_BATTERY != 0,
                has_trainer: bytes[6] & FLAG6_TRAINER != 0,
                has_alter_nt: bytes[6] & FLAG6_ALTER_NT_LAYOUT != 0,
                prg_rom_banks: bytes[4],
                chr_rom_banks: bytes[5],
                prg_ram_banks: bytes[8],
                prg_rom_size: prg_len(bytes),
                chr_rom_size: chr_len(bytes),
                mapper: Mapper0View {
                    prg: bytes.subrange(prg_start, chr_start),
                    chr: bytes.subrange(chr_start, bytes.len() as int),
                },
            },
        )
    }
}

/// The outcome of loading an image: the cartridge, or the first check that it
/// fails.
pub open spec fn loaded(bytes: Seq<u8>) -> Result<CartridgeView, RomError> {
    match rom_format_of(bytes) {
        RomFormat::Unknown => Err(RomError::UnknownFormat),
        RomFormat::Nes20 => Err(RomError::Unsupported),
        RomFormat::Ines => ines_cartridge(bytes),
    }
}

/// Whether `outcome` is `expected` with the cartridge taken by its view.
pub open spec fn outcome_is(
    outcome: Result<Cartridge, RomError>,
    expected: Result<CartridgeView, RomError>,
) -> bool {
    match outcome {
        Ok(cartridge) => expected == Ok::<CartridgeView, RomError>(cartridge@),
        Err(error) => expected == Err::<CartridgeView, RomError>(error),
    }
}

impl Cartridge {
    /// The format that the image came in.
    pub fn format(&self) -> (value: RomFormat)
        ensures
            value == self@.format,
    {
        self.format
    }

    /// How the cartridge mirrors the nametables.
    pub fn mirroring(&self) -> (value: Mirroring)
        ensures
            value == self@.mirroring,
    {
        self.mirroring
    }

    /// The console that the image was made for.
    pub fn console_type(&self) -> (value: ConsoleType)
        ensures
            value == self@.console_type,
    {
        self.console_type
    }

    /// The television system that the image was made for.
    pub fn tv_system(&self) -> (value: TvSystem)
        ensures
            value == self@.tv_system,
    {
        self.tv_system
    }

    /// Whether the cartridge keeps memory on a battery.
    pub fn has_battery(&self) -> (value: bool)
        ensures
            value == self@.has_battery,
    {
        self.has_battery
    }

    /// Whether a trainer stood between the header and the program image.
    pub fn has_trainer(&self) -> (value: bool)
        ensures
            value == self@.has_trainer,
    {
        self.has_trainer
    }

    /// Whether the cartridge asks for the other nametable layout.
    pub fn has_alter_nt(&self) -> (value: bool)
        ensures
            value == self@.has_alter_nt,
    {
        self.has_alter_nt
    }

    /// Number of 16 KiB banks of the program image.
    pub fn prg_rom_banks(&self) -> (value: u8)
        ensures
            value == self@.prg_rom_banks,
    {
        self.prg_rom_banks
    }

    /// Number of 8 KiB banks of the character image.
    pub fn chr_rom_banks(&self) -> (value: u8)
        ensures
            value == self@.chr_rom_banks,
    {
        self.chr_rom_banks
    }

    /// Number of banks of program RAM.
    pub fn prg_ram_banks(&self) -> (value: u8)
        ensures
            value == self@.prg_ram_banks,
    {
        self.prg_ram_banks
    }

    /// Size of the program image in bytes.
    pub fn prg_rom_size(&self) -> (value: usize)
        ensures
            value == self@.prg_rom_size,
    {
        self.prg_rom_size
    }

    /// Size of the character image in bytes.
    pub fn chr_rom_size(&self) -> (value: usize)
        ensures
            value == self@.chr_rom_size,
    {
        self.chr_rom_size
    }

    /// Reads the byte that the cartridge shows at `address`.
    pub fn read(&self, address: u16) -> (data: u8)
        ensures
            data == self@.read(address),
    {
        if self.mapper.maps(address) {
            self.mapper.read(address)
        } else {
            0
        }
    }
}

/// Loads a cartridge from the bytes of an image file.
pub fn read(buffer: &[u8]) -> (outcome: Result<Cartridge, RomError>)
    ensures
        outcome_is(outcome, loaded(buffer@)),
{
    match get_rom_format(buffer) {
        RomFormat::Ines => parse_ines(buffer),
        RomFormat::Nes20 => Err(RomError::Unsupported),
        RomFormat::Unknown => Err(RomError::UnknownFormat),
    }
}

pub fn is_ines_header(buffer: &[u8]) -> (found: bool)
    ensures
        found == has_ines_header(buffer@),
{
    if buffer.len() < HEADER_SIZE {
        false
    } else {
        buffer[0] == 0x4E && buffer[1] == 0x45 && buffer[2] == 0x53 && buffer[3] == 0x1A
    }
}

pub fn get_rom_format(buffer: &[u8]) -> (format: RomFormat)
    ensures
        format == rom_format_of(buffer@),
{
    if !is_ines_header(buffer) {
        return RomFormat::Unknown;
    }
    if (buffer[7] & FLAG7_ROM_FORMAT_BITS) == FLAG7_NES20 {
        RomFormat::Nes20
    } else {
        RomFormat::Ines
    }
}

/// Reads the header of an iNES image and copies out its two images.
pub fn parse_ines(buffer: &[u8]) -> (outcome: Result<Cartridge, RomError>)
    requires
        buffer@.len() >= HEADER_SIZE,
    ensures
        outcome_is(outcome, ines_cartridge(buffer@)),
{
    let prg_rom_banks: u8 = buffer[4];
    let chr_rom_banks: u8 = buffer[5];
    let prg_rom_size: usize = PRG_UNIT * (prg_rom_banks as usize);
    let chr_rom_size: usize = CHR_UNIT * (chr_rom_banks as usize);
    let mut total_size: usize = HEADER_SIZE + prg_rom_size + chr_rom_size;

    let flags6: u8 = buffer[6];
    let mirroring = if flags6 & FLAG6_MIRRORING == 0 {
        Mirroring::Horizontal
    } else {
        Mirroring::Vertical
    };
    let has_battery = (flags6 & FLAG6_BATTERY) != 0;
    let has_trainer = (flags6 & FLAG6_TRAINER) != 0;
    let has_alter_nt_layout = (flags6 & FLAG6_ALTER_NT_LAYOUT) != 0;

    let flags7: u8 = buffer[7];
    let console_type = if (flags7 & FLAG7_VS_UNISYSTEM) != 0 {
        ConsoleType::VsUnisystem
    } else if (flags7 & FLAG7_PLAYCHOICE_10) != 0 {
        ConsoleType::Playchoice10
    } else {
        ConsoleType::Default
    };
    let mapper_id: u8 = ((flags6 & FLAG6_MAPPER_LOWER_BITS) >> 4) | (flags7
        & FLAG7_MAPPER_UPPER_BITS);

    let prg_ram_banks: u8 = buffer[8];

    let flags9: u8 = buffer[9];
    let tv_system = if flags9 & FLAG9_TV_SYSTEM == 0 {
        TvSystem::NTSC
    } else {
        TvSystem::PAL
    };
    if flags9 & FLAG9_RESERVED_BITS != 0 {
        return Err(RomError::ReservedBitsSet);
    }
    let mut index: usize = 10;
    while index < HEADER_SIZE
        invariant
            10 <= index <= HEADER_SIZE,
            buffer@.len() >= HEADER_SIZE,
            buffer@[9] & FLAG9_RESERVED_BITS == 0,
            forall|i: int| 10 <= i < index ==> buffer@[i] == 0,
        decreases HEADER_SIZE - index,
    {
        if buffer[index] != 0 {
            return Err(RomError::BadPadding);
        }
        index += 1;
    }
    let mut prg_start: usize = HEADER_SIZE;
    if has_trainer {
        total_size += TRAINER_SIZE;
        prg_start += TRAINER_SIZE;
    }
    if total_size != buffer.len() {
        return Err(RomError::SizeMismatch);
    }
    if mapper_id != 0 {
        return Err(RomError::Unsupported);
    }
    let chr_start: usize = prg_start + prg_rom_size;
    let prg_rom: Vec<u8> = slice_to_vec(slice_subrange(buffer, prg_start, chr_start));
    let chr_rom: Vec<u8> = slice_to_vec(slice_subrange(buffer, chr_start, total_size));
    let mapper = Mapper0::new(prg_rom, chr_rom);
    Ok(
        Cartridge {
            format: RomFormat::Ines,
            size: total_size,
            mirroring,
            console_type,
            tv_system,
            has_battery,
            has_trainer,
            has_alter_nt: has_alter_nt_layout,
            prg_rom_banks,
            chr_rom_banks,
            prg_ram_banks,
            prg_rom_size,
            chr_rom_size,
            mapper,
        },
    )
}

} // verus!

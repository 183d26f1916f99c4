//! iNES cartridge container: a 16-byte header (magic tag, PRG/CHR page counts,
//! two flag bytes), an optional 512-byte trainer block, then the PRG-ROM and
//! CHR-ROM banks.

use vstd::prelude::*;

verus! {

/// Nametable mirroring arrangement, derived from header flag bits.
#[derive(Debug, Clone, Copy, PartialEq, Eq, Structural)]
pub enum Mirroring {
    Vertical,
    Horizontal,
    FourScreen,
}

/// A loaded cartridge. Immutable once constructed.
#[derive(Debug)]
pub struct Rom {
    pub prg_rom: Vec<u8>,
    pub chr_rom: Vec<u8>,
    pub mapper: u8,
    pub mirroring: Mirroring,
}

/// Why a byte buffer was rejected by the loader.
#[derive(Debug, Clone, Copy, PartialEq, Eq, Structural)]
pub enum Error {
    UnsupportedVersion,
    InvalidHeader,
    InvalidMapper,
}

/// Mathematical image of a loaded cartridge.
pub struct RomView {
    pub prg_rom: Seq<u8>,
    pub chr_rom: Seq<u8>,
    pub mapper: u8,
    pub mirroring: Mirroring,
}

impl View for Rom {
    type V = RomView;

    open spec fn view(&self) -> RomView {
        RomView {
            prg_rom: self.prg_rom@,
            chr_rom: self.chr_rom@,
            mapper: self.mapper,
            mirroring: self.mirroring,
        }
    }
}

pub const PRG_ROM_PAGE_SIZE: usize = 16384;

pub const CHR_ROM_PAGE_SIZE: usize = 8192;

/// The header starts with the magic tag `N E S <EOF>`.
pub open spec fn spec_has_magic(raw: Seq<u8>) -> bool {
    &&& raw.len() >= 4
    &&& raw[0] == 0x4Eu8
    &&& raw[1] == 0x45u8
    &&& raw[2] == 0x53u8
    &&& raw[3] == 0x1Au8
}

/// Only the baseline iNES format is supported: the version bits of byte 7
/// must be zero.
pub open spec fn spec_version_ok(raw: Seq<u8>) -> bool {
    (raw[7] >> 2) & 0x01u8 == 0u8
}

/// Mapper id: high nibble of byte 6 is the low nibble of the id, high nibble
/// of byte 7 the high nibble.
pub open spec fn spec_mapper(raw: Seq<u8>) -> u8 {
    (raw[6] >> 4) | (raw[7] & 0xF0u8)
}

/// Four-screen bit wins; otherwise the vertical bit picks vertical over
/// horizontal.
pub open spec fn spec_mirroring(raw: Seq<u8>) -> Mirroring {
    if raw[6] & 0x08u8 != 0u8 {
        Mirroring::FourScreen
    } else if raw[6] & 0x01u8 != 0u8 {
        Mirroring::Vertical
    } else {
        Mirroring::Horizontal
    }
}

/// First byte of PRG-ROM: past the header, and past the trainer block when
/// byte 6 declares one.
pub open spec fn spec_prg_start(raw: Seq<u8>) -> int {
    16 + if raw[6] & 0x04u8 != 0u8 {
        512int
    } else {
        0int
    }
}

pub open spec fn spec_prg_size(raw: Seq<u8>) -> int {
    raw[4] as int * PRG_ROM_PAGE_SIZE as int
}

pub open spec fn spec_chr_size(raw: Seq<u8>) -> int {
    raw[5] as int * CHR_ROM_PAGE_SIZE as int
}

/// What loading a raw buffer yields: the exact cartridge on success, and which
/// error on which malformed input. A buffer too short for its declared bank
/// sizes is an invalid header.
pub open spec fn spec_load(raw: Seq<u8>) -> Result<RomView, Error> {
    if raw.len() < 16 || !spec_has_magic(raw) {
        Err(Error::InvalidHeader)
    } else if !spec_version_ok(raw) {
        Err(Error::UnsupportedVersion)
    } else if raw.len() < spec_prg_start(raw) + spec_prg_size(raw) + spec_chr_size(raw) {
        Err(Error::InvalidHeader)
    } else {
        let prg_start = spec_prg_start(raw);
        let chr_start = prg_start + spec_prg_size(raw);
        Ok(
            RomView {
                prg_rom: raw.subrange(prg_start, chr_start),
                chr_rom: raw.subrange(chr_start, chr_start + spec_chr_size(raw)),
                mapper: spec_mapper(raw),
                mirroring: spec_mirroring(raw),
            },
        )
    }
}

/// Copy `len` bytes of `raw` starting at `start` into a fresh vector.
fn copy_range(raw: &[u8], start: usize, len: usize) -> (r: Vec<u8>)
    requires
        start + len <= raw@.len(),
    ensures
        r@ == raw@.subrange(start as int, start as int + len as int),
{
    let n = raw.len();
    let mut out: Vec<u8> = Vec::new();
    let mut i: usize = 0;
    while i < len
        invariant
            start + len <= n == raw@.len(),
            i <= len,
            out@ == raw@.subrange(start as int, start as int + i as int),
        decreases len - i,
    {
        out.push(raw[start + i]);
        assert(out@ =~= raw@.subrange(start as int, start as int + (i + 1) as int));
        i = i + 1;
    }
    out
}

impl Rom {
    /// Parse an iNES byte buffer into a cartridge, per `spec_load`.
    pub fn new(raw: &[u8]) -> (r: Result<Rom, Error>)
        ensures
            (match r {
                Ok(rom) => Ok::<RomView, Error>(rom@),
                Err(e) => Err(e),
            }) == spec_load(raw@),
    {
        if raw.len() < 16 {
            return Err(Error::InvalidHeader);
        }
        if !(raw[0] == 0x4E && raw[1] == 0x45 && raw[2] == 0x53 && raw[3] == 0x1A) {
            return Err(Error::InvalidHeader);
        }
        let mapper = (raw[6] >> 4) | (raw[7] & 0xF0);
        let ines_version = (raw[7] >> 2) & 0x01;
        if ines_version != 0 {
            return Err(Error::UnsupportedVersion);
        }
        let four_screen = (raw[6] & 0x08) != 0;
        let vertical_screen = (raw[6] & 0x01) != 0;
        let mirroring = if four_screen {
            Mirroring::FourScreen
        } else if vertical_screen {
            Mirroring::Vertical
        } else {
            Mirroring::Horizontal
        };
        let prg_rom_size = (raw[4] as usize) * PRG_ROM_PAGE_SIZE;
        let chr_rom_size = (raw[5] as usize) * CHR_ROM_PAGE_SIZE;
        let skip_trainer = (raw[6] & 0x04) != 0;
        let prg_rom_start: usize = if skip_trainer {
            16 + 512
        } else {
            16
        };
        if raw.len() < prg_rom_start + prg_rom_size + chr_rom_size {
            return Err(Error::InvalidHeader);
        }
        let prg_rom = copy_range(raw, prg_rom_start, prg_rom_size);
        let chr_rom = copy_range(raw, prg_rom_start + prg_rom_size, chr_rom_size);
        Ok(Rom { prg_rom, chr_rom, mapper, mirroring })
    }
}

} // verus!

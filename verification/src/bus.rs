//! The memory-mapped bus: 2KB of internal RAM mirrored through
//! `0x0000..=0x1FFF`, a stubbed PPU register window at `0x2000..=0x3FFF`,
//! cartridge PRG-ROM at `0x8000..=0xFFFF` (a 16KB bank mirrored into both
//! halves), and unmapped space that reads as zero and swallows writes.

use vstd::prelude::*;

use crate::cpu::StepError;
use crate::rom::Rom;

verus! {

/// Size of the internal RAM region.
pub const RAM_SIZE: usize = 2048;

/// The bus owns the internal RAM and the loaded cartridge.
#[derive(Debug)]
pub struct Bus {
    ram: Vec<u8>,
    rom: Rom,
}

/// Mathematical image of the bus: the RAM cells and the PRG-ROM bytes, which
/// together determine every read.
pub struct BusView {
    pub ram: Seq<u8>,
    pub prg: Seq<u8>,
}

impl View for Bus {
    type V = BusView;

    closed spec fn view(&self) -> BusView {
        BusView { ram: self.ram@, prg: self.rom.prg_rom@ }
    }
}

impl BusView {
    /// The RAM region always holds exactly `RAM_SIZE` cells.
    pub open spec fn wf(self) -> bool {
        self.ram.len() == RAM_SIZE as int
    }
}

/// The byte the PRG-ROM window yields at offset `idx` into the 32KB window:
/// a single 16KB bank is mirrored into both halves, larger images map
/// directly, and an offset beyond the image reads as zero.
pub open spec fn spec_prg_byte(prg: Seq<u8>, idx: int) -> u8 {
    let i = if prg.len() == 0x4000 && idx >= 0x4000 {
        idx % 0x4000
    } else {
        idx
    };
    if i < prg.len() {
        prg[i]
    } else {
        0u8
    }
}

/// What a read of `addr` returns: RAM mirrored every `0x800` bytes below
/// `0x2000`, zero from the stubbed PPU window, PRG-ROM from `0x8000` up, and
/// zero from unmapped space.
pub open spec fn spec_bus_read(b: BusView, addr: u16) -> u8 {
    if addr <= 0x1FFFu16 {
        b.ram[addr as int % 0x800]
    } else if addr <= 0x3FFFu16 {
        0u8
    } else if addr >= 0x8000u16 {
        spec_prg_byte(b.prg, addr as int - 0x8000)
    } else {
        0u8
    }
}

/// Whether a write to `addr` is refused: the PRG-ROM window is read-only.
pub open spec fn spec_write_is_rom(addr: u16) -> bool {
    addr >= 0x8000u16
}

/// The bus after a write of `value` at `addr`: RAM writes land in the
/// mirrored cell, writes to the PPU window and to unmapped space are ignored,
/// and ROM writes (which the exec path refuses) leave the bus unchanged.
pub open spec fn spec_bus_write(b: BusView, addr: u16, value: u8) -> BusView {
    if addr <= 0x1FFFu16 {
        BusView { ram: b.ram.update(addr as int % 0x800, value), ..b }
    } else {
        b
    }
}

/// A 16-bit little-endian read: low byte at `addr`, high byte at the
/// successor address (wrapping at the top of the address space).
pub open spec fn spec_bus_read16(b: BusView, addr: u16) -> u16 {
    (spec_bus_read(b, addr.wrapping_add(1)) as u16) << 8 | spec_bus_read(b, addr) as u16
}

impl Bus {
    /// A fresh bus: zeroed RAM in front of the given cartridge.
    pub fn new(rom: Rom) -> (r: Bus)
        ensures
            r@.wf(),
            r@.ram == Seq::new(RAM_SIZE as nat, |i: int| 0u8),
            r@.prg == rom.prg_rom@,
    {
        let mut ram: Vec<u8> = Vec::new();
        let mut i: usize = 0;
        while i < RAM_SIZE
            invariant
                i <= RAM_SIZE,
                ram@ == Seq::new(i as nat, |j: int| 0u8),
            decreases RAM_SIZE - i,
        {
            ram.push(0);
            assert(ram@ =~= Seq::new((i + 1) as nat, |j: int| 0u8));
            i = i + 1;
        }
        Bus { ram, rom }
    }

    /// Dispatch a read on the address ranges of the memory map.
    pub fn read_byte(&self, addr: u16) -> (r: u8)
        requires
            self@.wf(),
        ensures
            r == spec_bus_read(self@, addr),
    {
        if addr <= 0x1FFF {
            let idx = (addr & 0x7FF) as usize;
            proof {
                assert(addr & 0x7FFu16 == addr % 0x800u16) by (bit_vector);
            }
            self.ram[idx]
        } else if addr <= 0x3FFF {
            // PPU registers are not modelled: the stub reads as zero.
            0
        } else if addr >= 0x8000 {
            let idx = (addr - 0x8000) as usize;
            if self.rom.prg_rom.len() == 0x4000 && idx >= 0x4000 {
                self.rom.prg_rom[idx % 0x4000]
            } else {
                if idx < self.rom.prg_rom.len() {
                    self.rom.prg_rom[idx]
                } else {
                    // Image shorter than the window: unmapped, reads as zero.
                    0
                }
            }
        } else {
            // Unmapped space reads as zero without side effects.
            0
        }
    }

    /// Dispatch a write on the address ranges of the memory map. A write into
    /// the PRG-ROM window is a cartridge-format violation, surfaced as an
    /// error; the PPU window and unmapped space swallow the write.
    pub fn write_byte(&mut self, addr: u16, value: u8) -> (r: Result<(), StepError>)
        requires
            old(self)@.wf(),
        ensures
            final(self)@.wf(),
            final(self)@ == spec_bus_write(old(self)@, addr, value),
            r == if spec_write_is_rom(addr) {
                Err::<(), StepError>(StepError::RomWrite { addr })
            } else {
                Ok::<(), StepError>(())
            },
    {
        if addr <= 0x1FFF {
            let idx = (addr & 0x7FF) as usize;
            proof {
                assert(addr & 0x7FFu16 == addr % 0x800u16) by (bit_vector);
                assert(addr % 0x800u16 < 0x800u16) by (bit_vector);
            }
            self.ram.set(idx, value);
            Ok(())
        } else if addr <= 0x3FFF {
            // PPU registers are not modelled: the write is ignored.
            Ok(())
        } else if addr >= 0x8000 {
            Err(StepError::RomWrite { addr })
        } else {
            // Unmapped space: the write is ignored.
            Ok(())
        }
    }

    /// 16-bit little-endian read, low byte first.
    pub fn read_word(&self, addr: u16) -> (r: u16)
        requires
            self@.wf(),
        ensures
            r == spec_bus_read16(self@, addr),
    {
        let lo = self.read_byte(addr);
        let hi = self.read_byte(addr.wrapping_add(1));
        (hi as u16) << 8 | lo as u16
    }

    /// 16-bit little-endian write, low byte first; fails like `write_byte`
    /// if either half lands in the PRG-ROM window.
    pub fn write_word(&mut self, addr: u16, value: u16) -> (r: Result<(), StepError>)
        requires
            old(self)@.wf(),
        ensures
            final(self)@.wf(),
            final(self)@ == spec_bus_write(
                spec_bus_write(old(self)@, addr, (value & 0xFFu16) as u8),
                addr.wrapping_add(1),
                (value >> 8) as u8,
            ),
            r is Ok <==> !spec_write_is_rom(addr) && !spec_write_is_rom(addr.wrapping_add(1)),
    {
        let lo = (value & 0xFF) as u8;
        let hi = (value >> 8) as u8;
        let r1 = self.write_byte(addr, lo);
        let r2 = self.write_byte(addr.wrapping_add(1), hi);
        match (r1, r2) {
            (Ok(()), Ok(())) => Ok(()),
            (Err(e), _) => Err(e),
            (_, Err(e)) => Err(e),
        }
    }
}

} // verus!

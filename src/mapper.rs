//! Cartridge mappers: NROM (mapper 0), MMC1 (mapper 1) and MMC3 (mapper 4).
use vstd::prelude::*;

verus! {

/// How the four logical nametables map onto the 2 KiB of nametable RAM.
#[derive(Clone, Copy, Debug, PartialEq, Eq, Structural)]
pub enum Mirroring {
    /// Tables 0 and 1 share the first KiB, tables 2 and 3 the second.
    Horizontal,
    /// Tables 0 and 2 share the first KiB, tables 1 and 3 the second.
    Vertical,
    /// All four tables use the first KiB.
    OneScreenLower,
    /// All four tables use the second KiB.
    OneScreenUpper,
}

pub const PRG_BANK_16K: usize = 0x4000;

pub const PRG_BANK_8K: usize = 0x2000;

pub const CHR_BANK_1K: usize = 0x400;

pub const PRG_RAM_SIZE: usize = 0x2000;

// ---------------------------------------------------------------------------
// NROM
// ---------------------------------------------------------------------------

/// NROM: PRG at $8000 (16 KiB mirrored at $C000, or 32 KiB), 8 KiB CHR, fixed
/// mirroring.
pub struct Mapper0 {
    pub prg_rom: Vec<u8>,
    pub chr_rom: Vec<u8>,
    /// The CHR memory is RAM (writable through the PPU).
    pub chr_ram: bool,
    pub mirroring: Mirroring,
}

/// What an NROM board holds.
pub struct Mapper0View {
    pub prg: Seq<u8>,
    pub chr: Seq<u8>,
    pub chr_ram: bool,
    pub mirroring: Mirroring,
}

impl View for Mapper0 {
    type V = Mapper0View;

    open spec fn view(&self) -> Mapper0View {
        Mapper0View {
            prg: self.prg_rom@,
            chr: self.chr_rom@,
            chr_ram: self.chr_ram,
            mirroring: self.mirroring,
        }
    }
}

impl Mapper0View {
    pub open spec fn wf(&self) -> bool {
        &&& self.prg.len() > 0
        &&& self.prg.len() <= 0x8000
        &&& self.chr.len() == 0x2000
    }

    /// The byte that a read of `addr` returns: PRG at $8000-$FFFF, wrapped to
    /// the ROM's size; CHR at $0000-$1FFF.
    pub open spec fn peek(&self, addr: u16) -> u8 {
        if addr >= 0x8000 {
            self.prg[(addr - 0x8000) % self.prg.len() as int]
        } else if addr < 0x2000 {
            self.chr[addr as int]
        } else {
            0
        }
    }

    /// Only CHR-RAM is writable.
    pub open spec fn after_write(&self, addr: u16, data: u8) -> Mapper0View {
        if addr < 0x2000 && self.chr_ram {
            Mapper0View { chr: self.chr.update(addr as int, data), ..*self }
        } else {
            *self
        }
    }
}

impl Mapper0 {
    /// Creates an NROM board from its PRG and CHR-ROM contents.
    pub fn new(prg_rom: Vec<u8>, chr_rom: Vec<u8>, mirroring: Mirroring) -> (m: Mapper0)
        ensures
            m@ == (Mapper0View { prg: prg_rom@, chr: chr_rom@, chr_ram: false, mirroring }),
    {
        Mapper0 { prg_rom, chr_rom, chr_ram: false, mirroring }
    }

    /// Creates an NROM board with 8 KiB of cleared CHR-RAM.
    pub fn with_chr_ram(prg_rom: Vec<u8>, mirroring: Mirroring) -> (m: Mapper0)
        ensures
            m@ == (Mapper0View {
                prg: prg_rom@,
                chr: Seq::new(0x2000, |i: int| 0u8),
                chr_ram: true,
                mirroring,
            }),
    {
        let m = Mapper0 { prg_rom, chr_rom: vec![0u8; 0x2000], chr_ram: true, mirroring };
        assert(m@.chr =~= Seq::new(0x2000, |i: int| 0u8));
        m
    }

    pub fn read(&self, addr: u16) -> (r: u8)
        requires
            self@.wf(),
        ensures
            r == self@.peek(addr),
    {
        if addr >= 0x8000 {
            let i = (addr - 0x8000) as usize % self.prg_rom.len();
            self.prg_rom[i]
        } else if addr < 0x2000 {
            self.chr_rom[addr as usize]
        } else {
            0
        }
    }

    pub fn write(&mut self, addr: u16, data: u8)
        requires
            old(self)@.wf(),
        ensures
            final(self)@ == old(self)@.after_write(addr, data),
    {
        if addr < 0x2000 && self.chr_ram {
            self.chr_rom.set(addr as usize, data);
        }
    }
}

// ---------------------------------------------------------------------------
// MMC1
// ---------------------------------------------------------------------------

/// MMC1: a 5-bit serial port that loads the control and PRG bank registers.
pub struct Mapper1 {
    pub prg_rom: Vec<u8>,
    /// CHR memory, in 4 KiB banks.
    pub chr: Vec<u8>,
    /// The CHR memory is RAM (writable through the PPU).
    pub chr_ram: bool,
    pub shift_reg: u8,
    pub shift_count: u8,
    pub control: u8,
    pub chr_bank0: u8,
    pub chr_bank1: u8,
    pub prg_bank: u8,
}

/// The register that a fifth serial write to `addr` loads: 0 control, 1 CHR
/// bank 0, 2 CHR bank 1, 3 PRG bank.
pub open spec fn mmc1_register(addr: u16) -> u8 {
    ((addr >> 13) & 3) as u8
}

/// What an MMC1 board holds.
pub struct Mapper1View {
    pub prg: Seq<u8>,
    pub chr: Seq<u8>,
    pub chr_ram: bool,
    pub shift_reg: u8,
    pub shift_count: u8,
    pub control: u8,
    pub chr_bank0: u8,
    pub chr_bank1: u8,
    pub prg_bank: u8,
}

impl View for Mapper1 {
    type V = Mapper1View;

    open spec fn view(&self) -> Mapper1View {
        Mapper1View {
            prg: self.prg_rom@,
            chr: self.chr@,
            chr_ram: self.chr_ram,
            shift_reg: self.shift_reg,
            shift_count: self.shift_count,
            control: self.control,
            chr_bank0: self.chr_bank0,
            chr_bank1: self.chr_bank1,
            prg_bank: self.prg_bank,
        }
    }
}

impl Mapper1View {
    pub open spec fn wf(&self) -> bool {
        &&& self.prg.len() > 0
        &&& self.prg.len() % 0x4000 == 0
        &&& self.chr.len() > 0
        &&& self.chr.len() % 0x1000 == 0
        &&& self.shift_count < 5
    }

    pub open spec fn chr_bank_count(&self) -> nat {
        (self.chr.len() / 0x1000) as nat
    }

    /// The 4 KiB CHR bank seen at `addr` ($0000-$1FFF): one 8 KiB bank (the
    /// even bank of CHR register 0 and the next) when control bit 4 is clear,
    /// else CHR register 0 at $0000 and register 1 at $1000.
    pub open spec fn chr_bank_at(&self, addr: u16) -> nat {
        let upper = addr >= 0x1000;
        if self.control & 0x10 == 0 {
            ((self.chr_bank0 & 0x1E) as nat) + if upper { 1nat } else { 0nat }
        } else if upper {
            self.chr_bank1 as nat
        } else {
            self.chr_bank0 as nat
        }
    }

    /// Index into CHR memory for PPU address `addr` ($0000-$1FFF).
    pub open spec fn chr_index(&self, addr: u16) -> int {
        (self.chr_bank_at(addr) % self.chr_bank_count()) * 0x1000 + (addr & 0x0FFF)
    }

    pub open spec fn bank_count(&self) -> nat {
        (self.prg.len() / 0x4000) as nat
    }

    /// PRG mode from control bits 2-3.
    pub open spec fn mode(&self) -> u8 {
        (self.control >> 2) & 3
    }

    /// The 16 KiB bank seen at `addr` ($8000-$FFFF), before wrapping to the
    /// ROM's size.
    pub open spec fn bank_at(&self, addr: u16) -> nat {
        let upper = addr >= 0xC000;
        if self.mode() <= 1 {
            ((self.prg_bank & 0x0E) as nat) + if upper { 1nat } else { 0nat }
        } else if self.mode() == 2 {
            if upper { self.prg_bank as nat } else { 0 }
        } else {
            if upper { (self.bank_count() - 1) as nat } else { self.prg_bank as nat }
        }
    }

    pub open spec fn peek(&self, addr: u16) -> u8 {
        if addr >= 0x8000 {
            self.prg[(self.bank_at(addr) % self.bank_count()) * 0x4000 + (addr & 0x3FFF)]
        } else if addr < 0x2000 {
            self.chr[self.chr_index(addr)]
        } else {
            0
        }
    }

    /// The mapper after a write of `data` to `addr`: CHR memory below $2000,
    /// the serial port from $8000.
    pub open spec fn after_write(&self, addr: u16, data: u8) -> Mapper1View {
        if addr < 0x2000 {
            if self.chr_ram {
                Mapper1View { chr: self.chr.update(self.chr_index(addr), data), ..*self }
            } else {
                *self
            }
        } else if addr < 0x8000 {
            *self
        } else if data & 0x80 != 0 {
            Mapper1View { shift_reg: 0, shift_count: 0, control: self.control | 0x0C, ..*self }
        } else {
            let v = (self.shift_reg >> 1) | ((data & 1) << 4);
            if self.shift_count < 4 {
                Mapper1View { shift_reg: v, shift_count: (self.shift_count + 1) as u8, ..*self }
            } else {
                let r = mmc1_register(addr);
                Mapper1View {
                    shift_reg: 0,
                    shift_count: 0,
                    control: if r == 0 { v & 0x1F } else { self.control },
                    chr_bank0: if r == 1 { v & 0x1F } else { self.chr_bank0 },
                    chr_bank1: if r == 2 { v & 0x1F } else { self.chr_bank1 },
                    prg_bank: if r == 3 { v & 0x1F } else { self.prg_bank },
                    ..*self
                }
            }
        }
    }

    pub open spec fn mirroring_spec(&self) -> Mirroring {
        let m = self.control & 3;
        if m == 0 {
            Mirroring::OneScreenLower
        } else if m == 1 {
            Mirroring::OneScreenUpper
        } else if m == 2 {
            Mirroring::Vertical
        } else {
            Mirroring::Horizontal
        }
    }

}

impl Mapper1 {
    /// Creates an MMC1 board with 8 KiB of cleared CHR-RAM, in its power-on
    /// state (control $0C).
    pub fn new(prg_rom: Vec<u8>) -> (m: Mapper1)
        ensures
            m@ == (Mapper1View {
                prg: prg_rom@,
                chr: Seq::new(0x2000, |i: int| 0u8),
                chr_ram: true,
                shift_reg: 0,
                shift_count: 0,
                control: 0x0C,
                chr_bank0: 0,
                chr_bank1: 0,
                prg_bank: 0,
            }),
    {
        let mut m = Self::with_chr(prg_rom, vec![0u8; 0x2000]);
        m.chr_ram = true;
        assert(m@.chr =~= Seq::new(0x2000, |i: int| 0u8));
        m
    }

    /// Creates an MMC1 board with the given CHR-ROM, in its power-on state.
    pub fn with_chr(prg_rom: Vec<u8>, chr: Vec<u8>) -> (m: Mapper1)
        ensures
            m@ == (Mapper1View {
                prg: prg_rom@,
                chr: chr@,
                chr_ram: false,
                shift_reg: 0,
                shift_count: 0,
                control: 0x0C,
                chr_bank0: 0,
                chr_bank1: 0,
                prg_bank: 0,
            }),
    {
        Mapper1 {
            prg_rom,
            chr,
            chr_ram: false,
            shift_reg: 0,
            shift_count: 0,
            control: 0x0C,
            chr_bank0: 0,
            chr_bank1: 0,
            prg_bank: 0,
        }
    }

    fn chr_offset(&self, addr: u16) -> (r: usize)
        requires
            self@.wf(),
            addr < 0x2000,
        ensures
            r == self@.chr_index(addr),
            r < self@.chr.len(),
    {
        let count = self.chr.len() / 0x1000;
        let bank: usize = if self.control & 0x10 == 0 {
            (self.chr_bank0 & 0x1E) as usize + if addr >= 0x1000 { 1 } else { 0 }
        } else if addr >= 0x1000 {
            self.chr_bank1 as usize
        } else {
            self.chr_bank0 as usize
        };
        let b = bank % count;
        proof {
            assert(b * 0x1000 + 0x0FFF < count * 0x1000) by (nonlinear_arith)
                requires b < count;
            let len = self.chr.len();
            assert(count * 0x1000 <= len) by (nonlinear_arith)
                requires count == len / 0x1000;
            assert(addr & 0x0FFF <= 0x0FFF) by (bit_vector);
        }
        b * 0x1000 + (addr & 0x0FFF) as usize
    }

    fn prg_bank_mode(&self) -> (r: u8)
        ensures
            r == self@.mode(),
    {
        (self.control >> 2) & 0b11
    }

    fn prg_bank_count(&self) -> (r: usize)
        requires
            self@.wf(),
        ensures
            r == self@.bank_count(),
            r > 0,
    {
        self.prg_rom.len() / PRG_BANK_16K
    }

    pub fn read(&self, addr: u16) -> (r: u8)
        requires
            self@.wf(),
        ensures
            r == self@.peek(addr),
    {
        if addr < 0x2000 {
            return self.chr[self.chr_offset(addr)];
        }
        if addr < 0x8000 {
            return 0;
        }
        let mode = self.prg_bank_mode();
        let count = self.prg_bank_count();
        let upper = addr >= 0xC000;
        let bank: usize = if mode <= 1 {
            (self.prg_bank & 0x0E) as usize + if upper { 1 } else { 0 }
        } else if mode == 2 {
            if upper { self.prg_bank as usize } else { 0 }
        } else {
            if upper { count - 1 } else { self.prg_bank as usize }
        };
        let b = bank % count;
        proof {
            assert(b < count);
            assert(b * 0x4000 + 0x3FFF < count * 0x4000) by (nonlinear_arith)
                requires b < count;
            let len = self.prg_rom.len();
            assert(count * 0x4000 <= len) by (nonlinear_arith)
                requires count == len / 0x4000;
            assert(addr & 0x3FFF <= 0x3FFF) by (bit_vector);
        }
        self.prg_rom[b * PRG_BANK_16K + (addr & 0x3FFF) as usize]
    }

    pub fn write(&mut self, addr: u16, data: u8)
        requires
            old(self)@.wf(),
        ensures
            final(self)@ == old(self)@.after_write(addr, data),
            final(self)@.wf(),
    {
        if addr < 0x2000 {
            if self.chr_ram {
                let i = self.chr_offset(addr);
                self.chr.set(i, data);
            }
            return;
        }
        if addr < 0x8000 {
            return;
        }
        if data & 0x80 != 0 {
            self.shift_reg = 0;
            self.shift_count = 0;
            self.control = self.control | 0x0C;
            return;
        }
        let v = (self.shift_reg >> 1) | ((data & 1) << 4);
        if self.shift_count < 4 {
            self.shift_reg = v;
            self.shift_count = self.shift_count + 1;
            return;
        }
        proof {
            assert((addr >> 13) & 3 < 4) by (bit_vector);
        }
        let r = ((addr >> 13) & 3) as u8;
        if r == 0 {
            self.control = v & 0x1F;
        } else if r == 1 {
            self.chr_bank0 = v & 0x1F;
        } else if r == 2 {
            self.chr_bank1 = v & 0x1F;
        } else {
            self.prg_bank = v & 0x1F;
        }
        self.shift_reg = 0;
        self.shift_count = 0;
    }

    pub fn mirroring(&self) -> (m: Mirroring)
        ensures
            m == self@.mirroring_spec(),
    {
        let c = self.control & 3;
        if c == 0 {
            Mirroring::OneScreenLower
        } else if c == 1 {
            Mirroring::OneScreenUpper
        } else if c == 2 {
            Mirroring::Vertical
        } else {
            Mirroring::Horizontal
        }
    }
}

// ---------------------------------------------------------------------------
// MMC3
// ---------------------------------------------------------------------------

/// MMC3: eight bank registers, switchable mirroring, 8 KiB PRG-RAM and a
/// scanline counter clocked by rising edges of CHR address line A12.
pub struct Mapper4 {
    pub prg_rom: Vec<u8>,
    pub chr_rom: Vec<u8>,
    /// The CHR memory is RAM (writable through the PPU).
    pub chr_ram: bool,
    pub prg_ram: Vec<u8>,
    /// Bits 0-2: register that the next odd write loads; bit 6: PRG mode;
    /// bit 7: CHR A12 inversion.
    pub bank_select: u8,
    /// R0-R1: 2 KiB CHR banks; R2-R5: 1 KiB CHR banks; R6-R7: 8 KiB PRG banks.
    pub regs: [u8; 8],
    pub mirroring: Mirroring,
    pub prg_ram_enable: bool,
    pub prg_ram_write_protect: bool,
    pub irq_latch: u8,
    pub irq_counter: u8,
    pub irq_reload_pending: bool,
    pub irq_enabled: bool,
    pub irq_pending: bool,
    /// A12 of the previous CHR access, to see rising edges.
    pub last_chr_a12: bool,
}

/// The IRQ unit of an MMC3 board.
#[derive(Clone, Copy, Debug, PartialEq, Eq, Structural)]
pub struct Mmc3Irq {
    pub latch: u8,
    pub counter: u8,
    pub reload_pending: bool,
    pub enabled: bool,
    pub pending: bool,
}

impl Mmc3Irq {
    /// One rising edge of A12: reload from the latch when the counter is 0 or
    /// a reload was asked for, else count down; reaching 0 while enabled
    /// raises the IRQ.
    pub open spec fn clocked(self) -> Mmc3Irq {
        let counter = if self.counter == 0 || self.reload_pending {
            self.latch
        } else {
            (self.counter - 1) as u8
        };
        Mmc3Irq {
            counter,
            reload_pending: false,
            pending: self.pending || (counter == 0 && self.enabled),
            ..self
        }
    }

    pub open spec fn clocked_n(self, n: nat) -> Mmc3Irq
        decreases n,
    {
        if n == 0 {
            self
        } else {
            self.clocked_n((n - 1) as nat).clocked()
        }
    }
}

/// What an MMC3 board holds.
pub struct Mapper4View {
    pub prg: Seq<u8>,
    pub chr: Seq<u8>,
    pub chr_ram: bool,
    pub prg_ram: Seq<u8>,
    pub bank_select: u8,
    pub regs: Seq<u8>,
    pub mirroring: Mirroring,
    pub prg_ram_enable: bool,
    pub prg_ram_write_protect: bool,
    pub irq: Mmc3Irq,
    pub last_chr_a12: bool,
}

impl View for Mapper4 {
    type V = Mapper4View;

    open spec fn view(&self) -> Mapper4View {
        Mapper4View {
            prg: self.prg_rom@,
            chr: self.chr_rom@,
            chr_ram: self.chr_ram,
            prg_ram: self.prg_ram@,
            bank_select: self.bank_select,
            regs: self.regs@,
            mirroring: self.mirroring,
            prg_ram_enable: self.prg_ram_enable,
            prg_ram_write_protect: self.prg_ram_write_protect,
            irq: Mmc3Irq {
                latch: self.irq_latch,
                counter: self.irq_counter,
                reload_pending: self.irq_reload_pending,
                enabled: self.irq_enabled,
                pending: self.irq_pending,
            },
            last_chr_a12: self.last_chr_a12,
        }
    }
}

impl Mapper4View {
    pub open spec fn wf(&self) -> bool {
        &&& self.prg.len() > 0
        &&& self.prg.len() % 0x2000 == 0
        &&& self.chr.len() % 0x400 == 0
        &&& self.prg_ram.len() == 0x2000
        &&& self.regs.len() == 8
    }

    pub open spec fn prg_banks(&self) -> nat {
        (self.prg.len() / 0x2000) as nat
    }

    pub open spec fn chr_banks(&self) -> nat {
        (self.chr.len() / 0x400) as nat
    }

    /// The 8 KiB PRG bank seen in window `w` (0: $8000, 1: $A000, 2: $C000,
    /// 3: $E000).
    pub open spec fn prg_window_bank(&self, w: int) -> nat {
        let n = self.prg_banks();
        let last = (n - 1) as nat;
        let second_last = if last > 0 { (last - 1) as nat } else { 0 };
        let r6 = ((self.regs[6] & 0x3F) as nat) % n;
        let r7 = ((self.regs[7] & 0x3F) as nat) % n;
        let swapped = self.bank_select & 0x40 != 0;
        if w == 0 {
            if swapped { second_last } else { r6 }
        } else if w == 1 {
            r7
        } else if w == 2 {
            if swapped { r6 } else { second_last }
        } else {
            last
        }
    }

    /// The 1 KiB CHR bank register value seen in slot `s` (0-7 for
    /// $0000-$1FFF). Without inversion R0 and R1 cover $0000-$0FFF as 2 KiB
    /// pairs and R2-R5 cover $1000-$1FFF; inversion swaps the halves.
    pub open spec fn chr_slot_bank(&self, s: u16) -> u8 {
        let t = if self.bank_select & 0x80 != 0 { s ^ 4 } else { s };
        if t == 0 {
            self.regs[0] & 0xFE
        } else if t == 1 {
            self.regs[0] | 1
        } else if t == 2 {
            self.regs[1] & 0xFE
        } else if t == 3 {
            self.regs[1] | 1
        } else {
            self.regs[t as int - 2]
        }
    }

    /// Index into CHR memory for PPU address `addr` ($0000-$1FFF).
    pub open spec fn chr_index(&self, addr: u16) -> int {
        ((self.chr_slot_bank(addr >> 10) as nat) % self.chr_banks()) * 0x400 + (addr & 0x3FF)
    }

    /// PRG-RAM reads as 0 while disabled ($A001 bit 7 clear).
    pub open spec fn peek(&self, addr: u16) -> u8 {
        if addr < 0x2000 {
            if self.chr_banks() == 0 {
                0
            } else {
                self.chr[self.chr_index(addr)]
            }
        } else if 0x6000 <= addr && addr < 0x8000 {
            if self.prg_ram_enable { self.prg_ram[addr - 0x6000] } else { 0 }
        } else if addr >= 0x8000 {
            let w = (((addr - 0x8000) as u16) >> 13) as int;
            self.prg[self.prg_window_bank(w) * 0x2000 + (addr & 0x1FFF)]
        } else {
            0
        }
    }

    /// CHR writes land only in CHR-RAM; PRG-RAM writes only while it is
    /// enabled and not write-protected ($A001 bits 7 and 6).
    pub open spec fn after_write(&self, addr: u16, data: u8) -> Mapper4View {
        let even = addr & 1 == 0;
        if addr < 0x2000 {
            if self.chr_ram && self.chr_banks() > 0 {
                Mapper4View { chr: self.chr.update(self.chr_index(addr), data), ..*self }
            } else {
                *self
            }
        } else if 0x6000 <= addr && addr < 0x8000 {
            if self.prg_ram_enable && !self.prg_ram_write_protect {
                Mapper4View { prg_ram: self.prg_ram.update(addr - 0x6000, data), ..*self }
            } else {
                *self
            }
        } else if 0x8000 <= addr && addr < 0xA000 {
            if even {
                Mapper4View { bank_select: data, ..*self }
            } else {
                Mapper4View {
                    regs: self.regs.update((self.bank_select & 7) as int, data),
                    ..*self
                }
            }
        } else if 0xA000 <= addr && addr < 0xC000 {
            if even {
                Mapper4View {
                    mirroring: if data & 1 != 0 {
                        Mirroring::Horizontal
                    } else {
                        Mirroring::Vertical
                    },
                    ..*self
                }
            } else {
                Mapper4View {
                    prg_ram_enable: data & 0x80 != 0,
                    prg_ram_write_protect: data & 0x40 != 0,
                    ..*self
                }
            }
        } else if 0xC000 <= addr && addr < 0xE000 {
            if even {
                Mapper4View { irq: Mmc3Irq { latch: data, ..self.irq }, ..*self }
            } else {
                Mapper4View {
                    irq: Mmc3Irq { reload_pending: true, counter: 0, ..self.irq },
                    ..*self
                }
            }
        } else if addr >= 0xE000 {
            if even {
                Mapper4View { irq: Mmc3Irq { enabled: false, pending: false, ..self.irq }, ..*self }
            } else {
                Mapper4View { irq: Mmc3Irq { enabled: true, ..self.irq }, ..*self }
            }
        } else {
            *self
        }
    }

    /// The board after the PPU touches CHR address `addr`: a 0-to-1 change of
    /// A12 clocks the IRQ counter.
    pub open spec fn after_chr_access(&self, addr: u16) -> Mapper4View {
        let a12 = addr & 0x1000 != 0;
        Mapper4View {
            irq: if !self.last_chr_a12 && a12 {
                self.irq.clocked()
            } else {
                self.irq
            },
            last_chr_a12: a12,
            ..*self
        }
    }
}

impl Mapper4 {
    /// Creates an MMC3 board with CHR-ROM `chr_rom`, 8 KiB of cleared
    /// PRG-RAM, all registers 0 and vertical mirroring.
    pub fn new(prg_rom: Vec<u8>, chr_rom: Vec<u8>) -> (m: Mapper4)
        ensures
            m@.prg == prg_rom@,
            m@.chr == chr_rom@,
            !m@.chr_ram,
            m@.prg_ram == Seq::new(0x2000, |i: int| 0u8),
            m@.regs == Seq::new(8, |i: int| 0u8),
            m@.bank_select == 0,
            m@.mirroring == Mirroring::Vertical,
            m@.prg_ram_enable,
            !m@.prg_ram_write_protect,
            m@.irq == (Mmc3Irq {
                latch: 0,
                counter: 0,
                reload_pending: false,
                enabled: false,
                pending: false,
            }),
            !m@.last_chr_a12,
    {
        let prg_ram = vec![0u8; PRG_RAM_SIZE];
        let m = Mapper4 {
            prg_rom,
            chr_rom,
            chr_ram: false,
            prg_ram,
            bank_select: 0,
            regs: [0u8; 8],
            mirroring: Mirroring::Vertical,
            prg_ram_enable: true,
            prg_ram_write_protect: false,
            irq_latch: 0,
            irq_counter: 0,
            irq_reload_pending: false,
            irq_enabled: false,
            irq_pending: false,
            last_chr_a12: false,
        };
        assert(m@.prg_ram =~= Seq::new(0x2000, |i: int| 0u8));
        assert(m@.regs =~= Seq::new(8, |i: int| 0u8));
        m
    }

    /// Creates an MMC3 board as `new` does, but with 8 KiB of cleared
    /// CHR-RAM.
    pub fn with_chr_ram(prg_rom: Vec<u8>) -> (m: Mapper4)
        ensures
            m@.prg == prg_rom@,
            m@.chr == Seq::new(0x2000, |i: int| 0u8),
            m@.chr_ram,
            m@.prg_ram == Seq::new(0x2000, |i: int| 0u8),
            m@.regs == Seq::new(8, |i: int| 0u8),
            m@.bank_select == 0,
            m@.mirroring == Mirroring::Vertical,
            m@.prg_ram_enable,
            !m@.prg_ram_write_protect,
            m@.irq == (Mmc3Irq {
                latch: 0,
                counter: 0,
                reload_pending: false,
                enabled: false,
                pending: false,
            }),
            !m@.last_chr_a12,
    {
        let mut m = Self::new(prg_rom, vec![0u8; 0x2000]);
        m.chr_ram = true;
        assert(m@.chr =~= Seq::new(0x2000, |i: int| 0u8));
        m
    }

    fn prg_bank_count(&self) -> (r: usize)
        requires
            self@.wf(),
        ensures
            r == self@.prg_banks(),
            r > 0,
    {
        self.prg_rom.len() / PRG_BANK_8K
    }

    fn chr_bank_count_1k(&self) -> (r: usize)
        requires
            self@.wf(),
        ensures
            r == self@.chr_banks(),
    {
        self.chr_rom.len() / CHR_BANK_1K
    }

    /// One rising edge of A12 on the IRQ counter.
    fn clock_irq(&mut self)
        ensures
            final(self)@ == (Mapper4View { irq: old(self)@.irq.clocked(), ..old(self)@ }),
    {
        if self.irq_counter == 0 || self.irq_reload_pending {
            self.irq_counter = self.irq_latch;
            self.irq_reload_pending = false;
        } else {
            self.irq_counter = self.irq_counter - 1;
        }
        if self.irq_counter == 0 && self.irq_enabled {
            self.irq_pending = true;
        }
    }

    /// The bank register value for 1 KiB CHR slot `slot`.
    fn chr_bank(&self, slot: u16) -> (r: u8)
        requires
            self@.wf(),
            slot < 8,
        ensures
            r == self@.chr_slot_bank(slot),
    {
        let t = if self.bank_select & 0x80 != 0 {
            slot ^ 4
        } else {
            slot
        };
        proof {
            assert(slot < 8 ==> (slot ^ 4) < 8) by (bit_vector);
        }
        if t == 0 {
            self.regs[0] & 0xFE
        } else if t == 1 {
            self.regs[0] | 1
        } else if t == 2 {
            self.regs[1] & 0xFE
        } else if t == 3 {
            self.regs[1] | 1
        } else {
            self.regs[(t - 2) as usize]
        }
    }

    fn chr_offset(&self, addr: u16) -> (r: usize)
        requires
            self@.wf(),
            self@.chr_banks() > 0,
            addr < 0x2000,
        ensures
            r == self@.chr_index(addr),
            r < self@.chr.len(),
    {
        let n = self.chr_bank_count_1k();
        proof {
            assert(addr < 0x2000 ==> (addr >> 10) < 8) by (bit_vector);
            assert(addr & 0x3FF <= 0x3FF) by (bit_vector);
        }
        let bank = self.chr_bank(addr >> 10) as usize % n;
        proof {
            assert(bank * 0x400 + 0x3FF < n * 0x400) by (nonlinear_arith)
                requires bank < n;
            let len = self.chr_rom.len();
            assert(n * 0x400 <= len) by (nonlinear_arith)
                requires n == len / 0x400;
        }
        bank * CHR_BANK_1K + (addr & 0x3FF) as usize
    }

    fn read_chr(&self, addr: u16) -> (r: u8)
        requires
            self@.wf(),
            addr < 0x2000,
        ensures
            r == self@.peek(addr),
    {
        if self.chr_bank_count_1k() == 0 {
            return 0;
        }
        self.chr_rom[self.chr_offset(addr)]
    }

    fn read_prg(&self, addr: u16) -> (r: u8)
        requires
            self@.wf(),
            addr >= 0x8000,
        ensures
            r == self@.peek(addr),
    {
        let n = self.prg_bank_count();
        let last = n - 1;
        let second_last = if last > 0 { last - 1 } else { 0 };
        let r6 = (self.regs[6] & 0x3F) as usize % n;
        let r7 = (self.regs[7] & 0x3F) as usize % n;
        let swapped = self.bank_select & 0x40 != 0;
        let w = (addr - 0x8000) >> 13;
        proof {
            assert((addr - 0x8000) as u16 >> 13 < 4) by (bit_vector)
                requires addr >= 0x8000;
            assert(addr & 0x1FFF <= 0x1FFF) by (bit_vector);
        }
        let bank = if w == 0 {
            if swapped { second_last } else { r6 }
        } else if w == 1 {
            r7
        } else if w == 2 {
            if swapped { r6 } else { second_last }
        } else {
            last
        };
        proof {
            assert(bank == self@.prg_window_bank(w as int));
            assert(bank * 0x2000 + 0x1FFF < n * 0x2000) by (nonlinear_arith)
                requires bank < n;
            let len = self.prg_rom.len();
            assert(n * 0x2000 <= len) by (nonlinear_arith)
                requires n == len / 0x2000;
        }
        self.prg_rom[bank * PRG_BANK_8K + (addr & 0x1FFF) as usize]
    }

    pub fn read(&self, addr: u16) -> (r: u8)
        requires
            self@.wf(),
        ensures
            r == self@.peek(addr),
    {
        if addr < 0x2000 {
            self.read_chr(addr)
        } else if 0x6000 <= addr && addr < 0x8000 {
            if self.prg_ram_enable {
                self.prg_ram[(addr - 0x6000) as usize]
            } else {
                0
            }
        } else if addr >= 0x8000 {
            self.read_prg(addr)
        } else {
            0
        }
    }

    pub fn write(&mut self, addr: u16, data: u8)
        requires
            old(self)@.wf(),
        ensures
            final(self)@ == old(self)@.after_write(addr, data),
            final(self)@.wf(),
    {
        let even = addr & 1 == 0;
        if addr < 0x2000 {
            if self.chr_ram && self.chr_bank_count_1k() > 0 {
                let i = self.chr_offset(addr);
                self.chr_rom.set(i, data);
            }
        } else if 0x6000 <= addr && addr < 0x8000 {
            if self.prg_ram_enable && !self.prg_ram_write_protect {
                self.prg_ram.set((addr - 0x6000) as usize, data);
            }
        } else if 0x8000 <= addr && addr < 0xA000 {
            if even {
                self.bank_select = data;
            } else {
                let bs = self.bank_select;
                let r = (bs & 7) as usize;
                proof {
                    assert(bs & 7 < 8) by (bit_vector);
                }
                self.regs[r] = data;
                proof {
                    assert(self.regs@ =~= old(self)@.regs.update(r as int, data));
                }
            }
        } else if 0xA000 <= addr && addr < 0xC000 {
            if even {
                self.mirroring = if data & 1 != 0 {
                    Mirroring::Horizontal
                } else {
                    Mirroring::Vertical
                };
            } else {
                self.prg_ram_enable = data & 0x80 != 0;
                self.prg_ram_write_protect = data & 0x40 != 0;
            }
        } else if 0xC000 <= addr && addr < 0xE000 {
            if even {
                self.irq_latch = data;
            } else {
                self.irq_reload_pending = true;
                self.irq_counter = 0;
            }
        } else if addr >= 0xE000 {
            if even {
                self.irq_enabled = false;
                self.irq_pending = false;
            } else {
                self.irq_enabled = true;
            }
        }
    }

    /// The PPU touched CHR address `addr`.
    pub fn on_chr_access(&mut self, addr: u16)
        ensures
            final(self)@ == old(self)@.after_chr_access(addr),
    {
        let a12 = (addr & 0x1000) != 0;
        if !self.last_chr_a12 && a12 {
            self.clock_irq();
        }
        self.last_chr_a12 = a12;
    }

    /// Whether the IRQ is pending. The line stays asserted until an even
    /// write to $E000-$FFFF clears it.
    pub fn poll_irq(&self) -> (r: bool)
        ensures
            r == self@.irq.pending,
    {
        self.irq_pending
    }
}

/// MMC3 counter: after a reload request (a write to $C001, or a counter at 0)
/// with latch `l` and the IRQ enabled, the first rising A12 edge loads `l`,
/// each later edge counts down by one, no IRQ is raised before the edge that
/// brings the counter to 0, and that edge, the (l + 1)-th, raises it.
pub proof fn lemma_mmc3_irq_after_edges(q: Mmc3Irq, k: nat)
    requires
        q.reload_pending || q.counter == 0,
        q.enabled,
        !q.pending,
        q.latch >= 1,
        1 <= k <= q.latch as nat + 1,
    ensures
        q.clocked_n(k).counter == q.latch as nat - (k - 1),
        k <= q.latch as nat ==> !q.clocked_n(k).pending,
        k == q.latch as nat + 1 ==> q.clocked_n(k).pending,
        q.clocked_n(k).latch == q.latch,
        q.clocked_n(k).enabled,
        !q.clocked_n(k).reload_pending,
    decreases k,
{
    reveal_with_fuel(Mmc3Irq::clocked_n, 2);
    if k > 1 {
        lemma_mmc3_irq_after_edges(q, (k - 1) as nat);
    }
}

/// MMC3 counter, once loaded: with the counter at `c` >= 1 and the IRQ
/// enabled, each rising A12 edge counts down by one and the IRQ is raised on
/// the `c`-th edge, not before. (So with latch L loaded, the L-th edge raises
/// it.)
pub proof fn lemma_mmc3_countdown(q: Mmc3Irq, k: nat)
    requires
        !q.reload_pending,
        q.counter >= 1,
        q.enabled,
        !q.pending,
        1 <= k <= q.counter as nat,
    ensures
        q.clocked_n(k).counter == q.counter as nat - k,
        q.clocked_n(k).pending == (k == q.counter as nat),
        q.clocked_n(k).latch == q.latch,
        q.clocked_n(k).enabled,
        !q.clocked_n(k).reload_pending,
    decreases k,
{
    reveal_with_fuel(Mmc3Irq::clocked_n, 2);
    if k > 1 {
        lemma_mmc3_countdown(q, (k - 1) as nat);
    }
}

/// The board after the PPU fetches the CHR addresses `addrs`, in order.
pub open spec fn after_accesses(m: Mapper4View, addrs: Seq<u16>) -> Mapper4View
    decreases addrs.len(),
{
    if addrs.len() == 0 {
        m
    } else {
        after_accesses(m, addrs.drop_last()).after_chr_access(addrs.last())
    }
}

/// How many of the fetches `addrs` raise A12 from 0 to 1.
pub open spec fn rising_edges(m: Mapper4View, addrs: Seq<u16>) -> nat
    decreases addrs.len(),
{
    if addrs.len() == 0 {
        0
    } else {
        let before = after_accesses(m, addrs.drop_last());
        rising_edges(m, addrs.drop_last()) + if !before.last_chr_a12 && addrs.last() & 0x1000
            != 0 {
            1nat
        } else {
            0nat
        }
    }
}

/// Over any run of CHR fetches without register writes, the IRQ counter is
/// clocked exactly once per rising edge of A12 and at no other fetch.
pub proof fn lemma_mmc3_edges(m: Mapper4View, addrs: Seq<u16>)
    ensures
        after_accesses(m, addrs).irq == m.irq.clocked_n(rising_edges(m, addrs)),
        addrs.len() > 0 ==> after_accesses(m, addrs).last_chr_a12 == (addrs.last() & 0x1000 != 0),
    decreases addrs.len(),
{
    if addrs.len() > 0 {
        lemma_mmc3_edges(m, addrs.drop_last());
    }
}

/// With latch L loaded into the counter (counter == L >= 1) and the IRQ
/// enabled, a run of CHR fetches raises the IRQ exactly when it holds L
/// rising edges of A12 (and at most L).
pub proof fn lemma_mmc3_irq_on_lth_edge(m: Mapper4View, addrs: Seq<u16>)
    requires
        m.irq.enabled,
        !m.irq.reload_pending,
        !m.irq.pending,
        m.irq.counter >= 1,
        rising_edges(m, addrs) <= m.irq.counter,
    ensures
        after_accesses(m, addrs).irq.pending == (rising_edges(m, addrs) == m.irq.counter as nat),
{
    lemma_mmc3_edges(m, addrs);
    if rising_edges(m, addrs) >= 1 {
        lemma_mmc3_countdown(m.irq, rising_edges(m, addrs));
    }
}

/// Five writes with bit 7 clear, starting from an empty shift register, load
/// the value b4b3b2b1b0 (bit 0 of each write, first write lowest) into the
/// register that the fifth write's address selects.
pub proof fn lemma_mmc1_serial_load(
    m: Mapper1View,
    a0: u16,
    a1: u16,
    a2: u16,
    a3: u16,
    a4: u16,
    d0: u8,
    d1: u8,
    d2: u8,
    d3: u8,
    d4: u8,
)
    requires
        m.shift_count == 0,
        m.shift_reg < 0x20,
        a0 >= 0x8000 && a1 >= 0x8000 && a2 >= 0x8000 && a3 >= 0x8000 && a4 >= 0x8000,
        d0 & 0x80 == 0 && d1 & 0x80 == 0 && d2 & 0x80 == 0 && d3 & 0x80 == 0 && d4 & 0x80 == 0,
    ensures
        ({
            let v = (d0 & 1) | ((d1 & 1) << 1) | ((d2 & 1) << 2) | ((d3 & 1) << 3) | ((d4 & 1)
                << 4);
            let f = m.after_write(a0, d0).after_write(a1, d1).after_write(a2, d2).after_write(
                a3,
                d3,
            ).after_write(a4, d4);
            &&& f.shift_count == 0
            &&& f.shift_reg == 0
            &&& mmc1_register(a4) == 0 ==> f.control == v
            &&& mmc1_register(a4) == 1 ==> f.chr_bank0 == v
            &&& mmc1_register(a4) == 2 ==> f.chr_bank1 == v
            &&& mmc1_register(a4) == 3 ==> f.prg_bank == v
            &&& mmc1_register(a4) != 0 ==> f.control == m.control
            &&& mmc1_register(a4) != 3 ==> f.prg_bank == m.prg_bank
        }),
{
    let s0 = m.shift_reg;
    let v1 = (s0 >> 1) | ((d0 & 1) << 4);
    let v2 = (v1 >> 1) | ((d1 & 1) << 4);
    let v3 = (v2 >> 1) | ((d2 & 1) << 4);
    let v4 = (v3 >> 1) | ((d3 & 1) << 4);
    let v5 = (v4 >> 1) | ((d4 & 1) << 4);
    let v = (d0 & 1) | ((d1 & 1) << 1) | ((d2 & 1) << 2) | ((d3 & 1) << 3) | ((d4 & 1) << 4);
    assert(v5 & 0x1F == v && v5 & 0x0F == v & 0x0F) by (bit_vector)
        requires
            s0 < 0x20,
            v1 == (s0 >> 1) | ((d0 & 1) << 4),
            v2 == (v1 >> 1) | ((d1 & 1) << 4),
            v3 == (v2 >> 1) | ((d2 & 1) << 4),
            v4 == (v3 >> 1) | ((d3 & 1) << 4),
            v5 == (v4 >> 1) | ((d4 & 1) << 4),
            v == (d0 & 1) | ((d1 & 1) << 1) | ((d2 & 1) << 2) | ((d3 & 1) << 3) | ((d4 & 1) << 4),
    ;
    assert(v & 0x1F == v) by (bit_vector)
        requires
            v == (d0 & 1) | ((d1 & 1) << 1) | ((d2 & 1) << 2) | ((d3 & 1) << 3) | ((d4 & 1) << 4);
}

} // verus!

//! iNES images and the cartridge that holds PRG, CHR and the mapper.
use vstd::prelude::*;
use crate::mapper::{
    Mapper0, Mapper0View, Mapper1, Mapper1View, Mapper4, Mapper4View, Mirroring,
};

verus! {

/// Why an iNES image was refused.
#[derive(Clone, Copy, Debug, PartialEq, Eq, Structural)]
pub enum LoadError {
    /// Shorter than a header, wrong magic, no PRG, or sizes the board cannot hold.
    BadHeader,
    /// A mapper number other than 0, 1 or 4.
    UnsupportedMapper(u8),
    /// The file ends before the PRG or CHR data that the header announces.
    Truncated,
}

/// The board's logic, one variant per supported mapper.
pub enum Mapper {
    Nrom(Mapper0),
    Mmc1(Mapper1),
    Mmc3(Mapper4),
}

/// What a board holds, per mapper.
pub enum MapperView {
    Nrom(Mapper0View),
    Mmc1(Mapper1View),
    Mmc3(Mapper4View),
}

impl View for Mapper {
    type V = MapperView;

    open spec fn view(&self) -> MapperView {
        match self {
            Mapper::Nrom(m) => MapperView::Nrom(m@),
            Mapper::Mmc1(m) => MapperView::Mmc1(m@),
            Mapper::Mmc3(m) => MapperView::Mmc3(m@),
        }
    }
}

impl MapperView {
    pub open spec fn wf(&self) -> bool {
        match self {
            MapperView::Nrom(m) => m.wf(),
            MapperView::Mmc1(m) => m.wf(),
            MapperView::Mmc3(m) => m.wf(),
        }
    }

    /// The byte that a read of `addr` returns (CPU side for $4020-$FFFF, PPU
    /// side for $0000-$1FFF).
    pub open spec fn peek(&self, addr: u16) -> u8 {
        match self {
            MapperView::Nrom(m) => m.peek(addr),
            MapperView::Mmc1(m) => m.peek(addr),
            MapperView::Mmc3(m) => m.peek(addr),
        }
    }

    pub open spec fn after_write(&self, addr: u16, data: u8) -> MapperView {
        match self {
            MapperView::Nrom(m) => MapperView::Nrom(m.after_write(addr, data)),
            MapperView::Mmc1(m) => MapperView::Mmc1(m.after_write(addr, data)),
            MapperView::Mmc3(m) => MapperView::Mmc3(m.after_write(addr, data)),
        }
    }

    pub open spec fn after_chr_access(&self, addr: u16) -> MapperView {
        match self {
            MapperView::Mmc3(m) => MapperView::Mmc3(m.after_chr_access(addr)),
            _ => *self,
        }
    }

    pub open spec fn mirroring(&self) -> Mirroring {
        match self {
            MapperView::Nrom(m) => m.mirroring,
            MapperView::Mmc1(m) => m.mirroring_spec(),
            MapperView::Mmc3(m) => m.mirroring,
        }
    }

    /// Whether PPU writes to $0000-$1FFF reach CHR memory (CHR-RAM).
    pub open spec fn chr_writable(&self) -> bool {
        match self {
            MapperView::Nrom(m) => m.chr_ram,
            MapperView::Mmc1(m) => m.chr_ram,
            MapperView::Mmc3(m) => m.chr_ram && m.chr_banks() > 0,
        }
    }

    /// Whether the board holds its IRQ line low.
    pub open spec fn irq_line(&self) -> bool {
        match self {
            MapperView::Mmc3(m) => m.irq.pending,
            _ => false,
        }
    }
}

/// A cartridge: PRG, CHR and the mapper that decodes them.
pub struct Cartridge {
    pub mapper: Mapper,
}

impl View for Cartridge {
    type V = MapperView;

    open spec fn view(&self) -> MapperView {
        self.mapper@
    }
}

// ---------------------------------------------------------------------------
// iNES header
// ---------------------------------------------------------------------------

pub const INES_HEADER_LEN: usize = 16;

pub const TRAINER_LEN: usize = 512;

pub const PRG_UNIT: usize = 0x4000;

pub const CHR_UNIT: usize = 0x2000;

pub open spec fn ines_magic_ok(d: Seq<u8>) -> bool {
    d.len() >= 16 && d[0] == 0x4E && d[1] == 0x45 && d[2] == 0x53 && d[3] == 0x1A
}

/// Mapper number: high nibble of byte 7 over high nibble of byte 6.
pub open spec fn ines_mapper_id(d: Seq<u8>) -> u8 {
    (d[6] >> 4) | (d[7] & 0xF0)
}

pub open spec fn ines_prg_len(d: Seq<u8>) -> nat {
    d[4] as nat * 0x4000
}

/// CHR size; 0 means the board has 8 KiB of CHR-RAM instead.
pub open spec fn ines_chr_len(d: Seq<u8>) -> nat {
    d[5] as nat * 0x2000
}

pub open spec fn ines_prg_start(d: Seq<u8>) -> nat {
    16 + if d[6] & 4 != 0 { 512nat } else { 0nat }
}

pub open spec fn ines_mirroring(d: Seq<u8>) -> Mirroring {
    if d[6] & 1 != 0 {
        Mirroring::Vertical
    } else {
        Mirroring::Horizontal
    }
}

/// Whether the header is well formed: magic, at least one PRG bank, and for
/// NROM at most 32 KiB PRG and 8 KiB CHR.
pub open spec fn ines_header_ok(d: Seq<u8>) -> bool {
    &&& ines_magic_ok(d)
    &&& d[4] > 0
    &&& ines_mapper_id(d) == 0 ==> d[4] <= 2 && d[5] <= 1
}

pub open spec fn ines_supported(id: u8) -> bool {
    id == 0 || id == 1 || id == 4
}

pub open spec fn ines_complete(d: Seq<u8>) -> bool {
    d.len() >= ines_prg_start(d) + ines_prg_len(d) + ines_chr_len(d)
}

pub open spec fn ines_prg(d: Seq<u8>) -> Seq<u8> {
    d.subrange(ines_prg_start(d) as int, (ines_prg_start(d) + ines_prg_len(d)) as int)
}

pub open spec fn ines_chr(d: Seq<u8>) -> Seq<u8> {
    if ines_chr_len(d) == 0 {
        Seq::new(0x2000, |i: int| 0u8)
    } else {
        let s = ines_prg_start(d) + ines_prg_len(d);
        d.subrange(s as int, (s + ines_chr_len(d)) as int)
    }
}

/// The board that a complete, supported image describes.
pub open spec fn ines_board(d: Seq<u8>) -> MapperView {
    let id = ines_mapper_id(d);
    if id == 0 {
        MapperView::Nrom(
            Mapper0View {
                prg: ines_prg(d),
                chr: ines_chr(d),
                chr_ram: ines_chr_len(d) == 0,
                mirroring: ines_mirroring(d),
            },
        )
    } else if id == 1 {
        MapperView::Mmc1(
            Mapper1View {
                prg: ines_prg(d),
                chr: ines_chr(d),
                chr_ram: ines_chr_len(d) == 0,
                shift_reg: 0,
                shift_count: 0,
                control: 0x0C,
                chr_bank0: 0,
                chr_bank1: 0,
                prg_bank: 0,
            },
        )
    } else {
        MapperView::Mmc3(
            Mapper4View {
                prg: ines_prg(d),
                chr: ines_chr(d),
                chr_ram: ines_chr_len(d) == 0,
                prg_ram: Seq::new(0x2000, |i: int| 0u8),
                bank_select: 0,
                regs: Seq::new(8, |i: int| 0u8),
                mirroring: Mirroring::Vertical,
                prg_ram_enable: true,
                prg_ram_write_protect: false,
                irq: crate::mapper::Mmc3Irq {
                    latch: 0,
                    counter: 0,
                    reload_pending: false,
                    enabled: false,
                    pending: false,
                },
                last_chr_a12: false,
            },
        )
    }
}

/// Copies `len` bytes of `data` from `start`.
fn copy_range(data: &[u8], start: usize, len: usize) -> (v: Vec<u8>)
    requires
        start + len <= data@.len(),
    ensures
        v@ == data@.subrange(start as int, start + len),
{
    let mut v: Vec<u8> = Vec::with_capacity(len);
    let n: usize = data.len();
    let mut i: usize = 0;
    while i < len
        invariant
            n == data@.len(),
            i <= len,
            start + len <= data@.len(),
            v@ == data@.subrange(start as int, start + i),
        decreases len - i,
    {
        v.push(data[start + i]);
        i = i + 1;
        assert(v@ =~= data@.subrange(start as int, start + i));
    }
    v
}

impl Cartridge {
    /// Parses an iNES image. The checks come in this order: header, mapper
    /// number, length.
    pub fn from_bytes(data: &[u8]) -> (r: Result<Cartridge, LoadError>)
        ensures
            !ines_header_ok(data@) ==> r == Err::<Cartridge, LoadError>(LoadError::BadHeader),
            ines_header_ok(data@) && !ines_supported(ines_mapper_id(data@)) ==> r == Err::<
                Cartridge,
                LoadError,
            >(LoadError::UnsupportedMapper(ines_mapper_id(data@))),
            ines_header_ok(data@) && ines_supported(ines_mapper_id(data@)) && !ines_complete(
                data@,
            ) ==> r == Err::<Cartridge, LoadError>(LoadError::Truncated),
            ines_header_ok(data@) && ines_supported(ines_mapper_id(data@)) && ines_complete(data@)
                ==> r is Ok && r->Ok_0@ == ines_board(data@) && r->Ok_0@.wf(),
    {
        if data.len() < INES_HEADER_LEN || data[0] != 0x4E || data[1] != 0x45 || data[2] != 0x53
            || data[3] != 0x1A {
            return Err(LoadError::BadHeader);
        }
        let id = (data[6] >> 4) | (data[7] & 0xF0);
        if data[4] == 0 || (id == 0 && (data[4] > 2 || data[5] > 1)) {
            return Err(LoadError::BadHeader);
        }
        if id != 0 && id != 1 && id != 4 {
            return Err(LoadError::UnsupportedMapper(id));
        }
        let prg_start: usize = if data[6] & 4 != 0 {
            INES_HEADER_LEN + TRAINER_LEN
        } else {
            INES_HEADER_LEN
        };
        let prg_len: usize = data[4] as usize * PRG_UNIT;
        let chr_len: usize = data[5] as usize * CHR_UNIT;
        if data.len() < prg_start || data.len() - prg_start < prg_len || data.len() - prg_start
            - prg_len < chr_len {
            return Err(LoadError::Truncated);
        }
        let prg = copy_range(data, prg_start, prg_len);
        let chr = if chr_len == 0 {
            vec![0u8; CHR_UNIT]
        } else {
            copy_range(data, prg_start + prg_len, chr_len)
        };
        proof {
            assert(chr@ =~= ines_chr(data@));
            assert(prg@ =~= ines_prg(data@));
        }
        let mirroring = if data[6] & 1 != 0 {
            Mirroring::Vertical
        } else {
            Mirroring::Horizontal
        };
        let mapper = if id == 0 {
            if chr_len == 0 {
                Mapper::Nrom(Mapper0::with_chr_ram(prg, mirroring))
            } else {
                Mapper::Nrom(Mapper0::new(prg, chr, mirroring))
            }
        } else if id == 1 {
            if chr_len == 0 {
                Mapper::Mmc1(Mapper1::new(prg))
            } else {
                Mapper::Mmc1(Mapper1::with_chr(prg, chr))
            }
        } else if chr_len == 0 {
            Mapper::Mmc3(Mapper4::with_chr_ram(prg))
        } else {
            Mapper::Mmc3(Mapper4::new(prg, chr))
        };
        let c = Cartridge { mapper };
        proof {
            let d4 = data@[4] as nat;
            assert(prg@.len() == d4 * 0x4000);
            assert(d4 * 0x4000 % 0x4000 == 0 && d4 * 0x4000 % 0x2000 == 0 && d4 * 0x4000 > 0)
                by (nonlinear_arith)
                requires d4 > 0;
            assert(d4 <= 2 ==> d4 * 0x4000 <= 0x8000) by (nonlinear_arith);
            let d5 = data@[5] as nat;
            assert(d5 * 0x2000 % 0x400 == 0 && d5 * 0x2000 % 0x1000 == 0) by (nonlinear_arith);
            assert(d5 <= 1 && d5 > 0 ==> d5 * 0x2000 == 0x2000) by (nonlinear_arith);
        }
        Ok(c)
    }
}

impl Cartridge {
    /// Read through the mapper: PRG for the CPU ($4020-$FFFF), CHR for the
    /// PPU ($0000-$1FFF).
    pub fn read(&self, addr: u16) -> (r: u8)
        requires
            self@.wf(),
        ensures
            r == self@.peek(addr),
    {
        match &self.mapper {
            Mapper::Nrom(m) => m.read(addr),
            Mapper::Mmc1(m) => m.read(addr),
            Mapper::Mmc3(m) => m.read(addr),
        }
    }

    /// Write through the mapper: CHR-RAM, PRG-RAM or mapper registers.
    pub fn write(&mut self, addr: u16, data: u8)
        requires
            old(self)@.wf(),
        ensures
            final(self)@ == old(self)@.after_write(addr, data),
            final(self)@.wf(),
    {
        match &mut self.mapper {
            Mapper::Nrom(m) => m.write(addr, data),
            Mapper::Mmc1(m) => m.write(addr, data),
            Mapper::Mmc3(m) => m.write(addr, data),
        }
    }

    /// Tells the mapper that the PPU fetched CHR address `addr`.
    pub fn on_chr_access(&mut self, addr: u16)
        requires
            old(self)@.wf(),
        ensures
            final(self)@ == old(self)@.after_chr_access(addr),
            final(self)@.wf(),
    {
        match &mut self.mapper {
            Mapper::Mmc3(m) => m.on_chr_access(addr),
            _ => {},
        }
    }

    /// Whether the mapper holds its IRQ line (level-triggered: polling does
    /// not acknowledge it).
    pub fn poll_irq(&self) -> (r: bool)
        ensures
            r == self@.irq_line(),
    {
        match &self.mapper {
            Mapper::Mmc3(m) => m.poll_irq(),
            _ => false,
        }
    }

    /// The current nametable mirroring.
    pub fn mirroring(&self) -> (m: Mirroring)
        ensures
            m == self@.mirroring(),
    {
        match &self.mapper {
            Mapper::Nrom(m) => m.mirroring,
            Mapper::Mmc1(m) => m.mirroring(),
            Mapper::Mmc3(m) => m.mirroring,
        }
    }
}

} // verus!

//! The picture processor: registers $2000-$2007, nametables, palette, OAM and
//! a scanline renderer.
use vstd::prelude::*;
use crate::cartridge::{Cartridge, MapperView};
use crate::mapper::Mirroring;
use vstd::wrapping::{u16_specs, u8_specs};

verus! {

pub const DOTS_PER_LINE: u16 = 341;

pub const FRAMEBUFFER_LEN: usize = 61440;

pub const NAMETABLE_RAM_LEN: usize = 0x800;

pub const PALETTE_LEN: usize = 32;

/// OAM: 64 sprites of 4 bytes (Y, tile, attributes, X).
pub const OAM_LEN: usize = 256;

/// 2C02 state. `scanline` runs from -1 (pre-render) to 260; vblank starts at
/// dot 1 of scanline 241.
pub struct PPU {
    pub cycle: u16,
    pub scanline: i16,
    /// NMI requested at the start of vblank, taken by the CPU.
    pub nmi: bool,
    pub vblank: bool,
    /// Set when vblank starts; the frame driver clears it.
    pub frame_ready: bool,
    /// PPUCTRL ($2000).
    pub ctrl: u8,
    /// PPUMASK ($2001).
    pub mask: u8,
    /// VRAM address for $2007.
    pub addr: u16,
    /// The write toggle w shared by $2005 and $2006.
    pub write_toggle: bool,
    /// The temporary VRAM address t: coarse X (bits 0-4), coarse Y (5-9),
    /// nametable (10-11), fine Y (12-14). Loaded by $2000, $2005 and $2006.
    pub t: u16,
    /// Fine X scroll (0-7), loaded by the first write of $2005.
    pub fine_x: u8,
    /// The $2007 read buffer.
    pub read_buffer: u8,
    /// 2 KiB nametable RAM.
    pub nametable: Vec<u8>,
    /// 32 bytes of palette RAM ($3F00-$3F1F).
    pub palette: Vec<u8>,
    pub oam: Vec<u8>,
    pub oam_addr: u8,
    pub sprite_0_hit: bool,
    pub sprite_overflow: bool,
    /// 256x240 pixels, 0xRRGGBB, row by row from the top.
    pub framebuffer: Vec<u32>,
}

/// The PPU's state as values.
pub struct PpuView {
    pub cycle: u16,
    pub scanline: i16,
    pub nmi: bool,
    pub vblank: bool,
    pub frame_ready: bool,
    pub ctrl: u8,
    pub mask: u8,
    pub addr: u16,
    pub write_toggle: bool,
    pub t: u16,
    pub fine_x: u8,
    pub read_buffer: u8,
    pub nametable: Seq<u8>,
    pub palette: Seq<u8>,
    pub oam: Seq<u8>,
    pub oam_addr: u8,
    pub sprite_0_hit: bool,
    pub sprite_overflow: bool,
    pub framebuffer: Seq<u32>,
}

impl View for PPU {
    type V = PpuView;

    open spec fn view(&self) -> PpuView {
        PpuView {
            cycle: self.cycle,
            scanline: self.scanline,
            nmi: self.nmi,
            vblank: self.vblank,
            frame_ready: self.frame_ready,
            ctrl: self.ctrl,
            mask: self.mask,
            addr: self.addr,
            write_toggle: self.write_toggle,
            t: self.t,
            fine_x: self.fine_x,
            read_buffer: self.read_buffer,
            nametable: self.nametable@,
            palette: self.palette@,
            oam: self.oam@,
            oam_addr: self.oam_addr,
            sprite_0_hit: self.sprite_0_hit,
            sprite_overflow: self.sprite_overflow,
            framebuffer: self.framebuffer@,
        }
    }
}

/// Index into palette RAM for PPU address `addr` ($3F00-$3FFF): the 32 bytes
/// repeat, and $3F10/$3F14/$3F18/$3F1C alias $3F00/$3F04/$3F08/$3F0C.
pub open spec fn palette_slot(addr: u16) -> int {
    let i = addr & 0x1F;
    if i == 0x10 || i == 0x14 || i == 0x18 || i == 0x1C {
        (i - 0x10) as int
    } else {
        i as int
    }
}

/// Index into nametable RAM for PPU address `addr` ($2000-$3EFF) under
/// `mirroring`.
pub open spec fn nametable_slot(addr: u16, mirroring: Mirroring) -> u16 {
    let a = ((addr - 0x2000) as u16) & 0xFFF;
    let table = a / 0x400;
    let offset = a & 0x3FF;
    match mirroring {
        Mirroring::Vertical => if table == 0 || table == 2 { offset } else { (offset + 0x400) as u16 },
        Mirroring::Horizontal => if table <= 1 { offset } else { (offset + 0x400) as u16 },
        Mirroring::OneScreenLower => offset,
        Mirroring::OneScreenUpper => (offset + 0x400) as u16,
    }
}

/// Whether the sprite whose Y byte is `y` covers scanline `line`.
pub open spec fn sprite_on_line(y: u8, line: u16, height: u16) -> bool {
    y as int <= line as int && (line as int) < y as int + height as int
}

/// How many of the first `n` OAM sprites cover scanline `line`.
pub open spec fn sprites_on_line(oam: Seq<u8>, n: int, line: u16, height: u16) -> nat
    decreases n,
{
    if n <= 0 {
        0
    } else {
        sprites_on_line(oam, n - 1, line, height) + if sprite_on_line(
            oam[(n - 1) * 4],
            line,
            height,
        ) {
            1nat
        } else {
            0nat
        }
    }
}

impl PpuView {
    pub open spec fn wf(&self) -> bool {
        &&& self.nametable.len() == 0x800
        &&& self.palette.len() == 32
        &&& self.oam.len() == 256
        &&& self.framebuffer.len() == 61440
        &&& self.cycle <= 340
        &&& -1 <= self.scanline <= 260
    }

    /// Position in the frame, in dots from dot 0 of the pre-render line.
    pub open spec fn dot(&self) -> int {
        (self.scanline + 1) * 341 + self.cycle
    }

    pub open spec fn increment(&self) -> u16 {
        if self.ctrl & 0x04 != 0 {
            32
        } else {
            1
        }
    }

    /// The value a read of $2002 returns.
    pub open spec fn status_byte(&self) -> u8 {
        (if self.vblank { 0x80u8 } else { 0u8 }) | (if self.sprite_0_hit { 0x40u8 } else { 0u8 })
            | (if self.sprite_overflow { 0x20u8 } else { 0u8 })
    }

    /// A read of $2002 clears vblank and the write toggle.
    pub open spec fn after_status_read(&self) -> PpuView {
        PpuView { vblank: false, write_toggle: false, ..*self }
    }

    /// A write of $2000 also sets the nametable bits of t.
    pub open spec fn after_ctrl_write(&self, data: u8) -> PpuView {
        PpuView { ctrl: data, t: (self.t & 0xF3FF) | (((data & 3) as u16) << 10), ..*self }
    }

    /// $2005: the first write sets coarse X in t and fine X, the second coarse
    /// and fine Y in t.
    pub open spec fn after_scroll_write(&self, data: u8) -> PpuView {
        if !self.write_toggle {
            PpuView {
                t: (self.t & 0xFFE0) | ((data >> 3) as u16),
                fine_x: data & 7,
                write_toggle: true,
                ..*self
            }
        } else {
            PpuView {
                t: (self.t & 0x8C1F) | (((data & 7) as u16) << 12) | (((data & 0xF8) as u16) << 2),
                write_toggle: false,
                ..*self
            }
        }
    }

    /// $2006: the first write sets the high six bits of t (bit 14 cleared),
    /// the second its low byte, and t is then copied to the VRAM address.
    pub open spec fn after_addr_write(&self, data: u8) -> PpuView {
        if !self.write_toggle {
            PpuView {
                t: (self.t & 0x00FF) | (((data & 0x3F) as u16) << 8),
                write_toggle: true,
                ..*self
            }
        } else {
            let t = (self.t & 0xFF00) | data as u16;
            PpuView { t, addr: t, write_toggle: false, ..*self }
        }
    }

    /// Horizontal scroll in pixels within the selected nametable.
    pub open spec fn scroll_x(&self) -> int {
        (self.t % 32) as int * 8 + (self.fine_x % 8) as int
    }

    /// Vertical scroll in pixels within the selected nametable.
    pub open spec fn scroll_y(&self) -> int {
        ((self.t / 32) % 32) as int * 8 + ((self.t / 4096) % 8) as int
    }

    /// The nametable (0-3) that t selects.
    pub open spec fn base_nametable(&self) -> int {
        ((self.t / 1024) % 4) as int
    }

    pub open spec fn after_oam_data_write(&self, data: u8) -> PpuView {
        PpuView {
            oam: self.oam.update(self.oam_addr as int, data),
            oam_addr: u8_specs::wrapping_add(self.oam_addr, 1),
            ..*self
        }
    }

    /// The byte that VRAM address `a` ($2000-$3EFF) holds in nametable RAM.
    pub open spec fn nametable_at(&self, a: u16, m: Mirroring) -> u8 {
        self.nametable[nametable_slot(a, m) as int]
    }

    /// The value a read of $2007 returns.
    pub open spec fn data_read_value(&self, cart: MapperView) -> u8 {
        let a = self.addr & 0x3FFF;
        if a >= 0x3F00 {
            self.palette[palette_slot(a)]
        } else {
            self.read_buffer
        }
    }

    /// What the read buffer holds after a read of $2007.
    pub open spec fn data_read_refill(&self, cart: MapperView) -> u8 {
        let a = self.addr & 0x3FFF;
        if a < 0x2000 {
            cart.after_chr_access(a).peek(a)
        } else if a < 0x3F00 {
            self.nametable_at(a, cart.mirroring())
        } else {
            self.nametable_at((a - 0x1000) as u16, cart.mirroring())
        }
    }

    pub open spec fn after_data_read(&self, cart: MapperView) -> PpuView {
        PpuView {
            read_buffer: self.data_read_refill(cart),
            addr: u16_specs::wrapping_add(self.addr, self.increment()),
            ..*self
        }
    }

    /// The cartridge after a read of $2007.
    pub open spec fn cart_after_data_read(&self, cart: MapperView) -> MapperView {
        let a = self.addr & 0x3FFF;
        if a < 0x2000 {
            cart.after_chr_access(a)
        } else {
            cart
        }
    }

    pub open spec fn after_data_write(&self, cart: MapperView, data: u8) -> PpuView {
        let a = self.addr & 0x3FFF;
        let next = u16_specs::wrapping_add(self.addr, self.increment());
        if a < 0x2000 {
            PpuView { addr: next, ..*self }
        } else if a < 0x3F00 {
            PpuView {
                nametable: self.nametable.update(nametable_slot(a, cart.mirroring()) as int, data),
                addr: next,
                ..*self
            }
        } else {
            PpuView {
                palette: self.palette.update(palette_slot(a), data & 0x3F),
                addr: next,
                ..*self
            }
        }
    }

    pub open spec fn cart_after_data_write(&self, cart: MapperView, data: u8) -> MapperView {
        let a = self.addr & 0x3FFF;
        if a < 0x2000 {
            cart.after_write(a, data)
        } else {
            cart
        }
    }

    /// OAM after a DMA from the 256 bytes `page`, written from `oam_addr` on.
    pub open spec fn after_dma(&self, page: Seq<u8>) -> PpuView {
        PpuView {
            oam: Seq::new(256, |i: int| page[(i - self.oam_addr as int + 256) % 256]),
            ..*self
        }
    }

    /// The position one dot later, with the vblank flags of that dot.
    pub open spec fn after_dot(&self) -> PpuView {
        let c = self.cycle + 1;
        let start_vblank = self.scanline == 241 && c == 1;
        let end_vblank = self.scanline == -1 && c == 1;
        let s = PpuView {
            vblank: if start_vblank { true } else if end_vblank { false } else { self.vblank },
            frame_ready: self.frame_ready || start_vblank,
            nmi: self.nmi || (start_vblank && self.ctrl & 0x80 != 0),
            sprite_0_hit: if end_vblank { false } else { self.sprite_0_hit },
            sprite_overflow: if end_vblank { false } else { self.sprite_overflow },
            ..*self
        };
        if c == 341 {
            PpuView {
                cycle: 0,
                scanline: if self.scanline == 260 { -1i16 } else { (self.scanline + 1) as i16 },
                ..s
            }
        } else {
            PpuView { cycle: c as u16, ..s }
        }
    }

    /// Everything but the sprite flags, the framebuffer and the position.
    pub open spec fn same_memory(&self, o: PpuView) -> bool {
        &&& self.ctrl == o.ctrl
        &&& self.mask == o.mask
        &&& self.addr == o.addr
        &&& self.write_toggle == o.write_toggle
        &&& self.t == o.t
        &&& self.fine_x == o.fine_x
        &&& self.read_buffer == o.read_buffer
        &&& self.nametable == o.nametable
        &&& self.palette == o.palette
        &&& self.oam == o.oam
        &&& self.oam_addr == o.oam_addr
    }
}

/// RGB value (0xRRGGBB) of NES colour `index` (low six bits).
pub open spec fn rgb_of(index: u8) -> u32 {
    match index & 0x3F {
        0 => 0x545454,
        1 => 0x001E74,
        2 => 0x081090,
        3 => 0x300088,
        4 => 0x440064,
        5 => 0x5C0030,
        6 => 0x540400,
        7 => 0x3C1800,
        8 => 0x202A00,
        9 => 0x083A00,
        10 => 0x004000,
        11 => 0x003C00,
        12 => 0x00302C,
        13 => 0x000000,
        14 => 0x000000,
        15 => 0x000000,
        16 => 0x989698,
        17 => 0x084CC4,
        18 => 0x3032EC,
        19 => 0x5C1EE4,
        20 => 0x8814B0,
        21 => 0xA01464,
        22 => 0x982220,
        23 => 0x783C00,
        24 => 0x545A00,
        25 => 0x287200,
        26 => 0x087C00,
        27 => 0x007628,
        28 => 0x006678,
        29 => 0x000000,
        30 => 0x000000,
        31 => 0x000000,
        32 => 0xECEEEC,
        33 => 0x3C7EEC,
        34 => 0x5C5CEC,
        35 => 0x8844EC,
        36 => 0xB02CEC,
        37 => 0xE028B0,
        38 => 0xD83C50,
        39 => 0xC45400,
        40 => 0xAC7000,
        41 => 0x808800,
        42 => 0x409C30,
        43 => 0x20A458,
        44 => 0x209A88,
        45 => 0x404040,
        46 => 0x000000,
        47 => 0x000000,
        48 => 0xECEEEC,
        49 => 0xA8BCEC,
        50 => 0xBCACEC,
        51 => 0xD4A0EC,
        52 => 0xEC94EC,
        53 => 0xEC90D4,
        54 => 0xEC9CB4,
        55 => 0xE4B090,
        56 => 0xDCC878,
        57 => 0xD4DC78,
        58 => 0xB8EC98,
        59 => 0xA8ECBC,
        60 => 0xA0E4E4,
        61 => 0xA0A0A0,
        62 => 0x000000,
        _ => 0x000000,
    }
}

/// RGB value of NES colour `index` (low six bits).
fn nes_rgb(index: u8) -> (r: u32)
    ensures
        r == rgb_of(index),
        r <= 0xFFFFFF,
{
    match index & 0x3F {
        0 => 0x545454,
        1 => 0x001E74,
        2 => 0x081090,
        3 => 0x300088,
        4 => 0x440064,
        5 => 0x5C0030,
        6 => 0x540400,
        7 => 0x3C1800,
        8 => 0x202A00,
        9 => 0x083A00,
        10 => 0x004000,
        11 => 0x003C00,
        12 => 0x00302C,
        13 => 0x000000,
        14 => 0x000000,
        15 => 0x000000,
        16 => 0x989698,
        17 => 0x084CC4,
        18 => 0x3032EC,
        19 => 0x5C1EE4,
        20 => 0x8814B0,
        21 => 0xA01464,
        22 => 0x982220,
        23 => 0x783C00,
        24 => 0x545A00,
        25 => 0x287200,
        26 => 0x087C00,
        27 => 0x007628,
        28 => 0x006678,
        29 => 0x000000,
        30 => 0x000000,
        31 => 0x000000,
        32 => 0xECEEEC,
        33 => 0x3C7EEC,
        34 => 0x5C5CEC,
        35 => 0x8844EC,
        36 => 0xB02CEC,
        37 => 0xE028B0,
        38 => 0xD83C50,
        39 => 0xC45400,
        40 => 0xAC7000,
        41 => 0x808800,
        42 => 0x409C30,
        43 => 0x20A458,
        44 => 0x209A88,
        45 => 0x404040,
        46 => 0x000000,
        47 => 0x000000,
        48 => 0xECEEEC,
        49 => 0xA8BCEC,
        50 => 0xBCACEC,
        51 => 0xD4A0EC,
        52 => 0xEC94EC,
        53 => 0xEC90D4,
        54 => 0xEC9CB4,
        55 => 0xE4B090,
        56 => 0xDCC878,
        57 => 0xD4DC78,
        58 => 0xB8EC98,
        59 => 0xA8ECBC,
        60 => 0xA0E4E4,
        61 => 0xA0A0A0,
        62 => 0x000000,
        _ => 0x000000,
    }
}

impl PPU {
    /// A PPU with cleared memories, placed just after the start of vblank so
    /// that the first frame is a whole one.
    pub fn new() -> (p: PPU)
        ensures
            p@.wf(),
            p@.cycle == 1,
            p@.scanline == 241,
            !p@.nmi && !p@.vblank && !p@.frame_ready && !p@.write_toggle,
            !p@.sprite_0_hit && !p@.sprite_overflow,
            p@.ctrl == 0 && p@.mask == 0 && p@.addr == 0 && p@.oam_addr == 0,
            p@.read_buffer == 0 && p@.t == 0 && p@.fine_x == 0,
            p@.nametable == Seq::new(0x800, |i: int| 0u8),
            p@.palette == Seq::new(32, |i: int| 0u8),
            p@.oam == Seq::new(256, |i: int| 0u8),
    {
        let p = PPU {
            cycle: 1,
            scanline: 241,
            nmi: false,
            vblank: false,
            frame_ready: false,
            ctrl: 0,
            mask: 0,
            addr: 0,
            write_toggle: false,
            t: 0,
            fine_x: 0,
            read_buffer: 0,
            nametable: vec![0u8; NAMETABLE_RAM_LEN],
            palette: vec![0u8; PALETTE_LEN],
            oam: vec![0u8; OAM_LEN],
            oam_addr: 0,
            sprite_0_hit: false,
            sprite_overflow: false,
            framebuffer: vec![0u32; FRAMEBUFFER_LEN],
        };
        assert(p@.nametable =~= Seq::new(0x800, |i: int| 0u8));
        assert(p@.palette =~= Seq::new(32, |i: int| 0u8));
        assert(p@.oam =~= Seq::new(256, |i: int| 0u8));
        p
    }

    /// Palette RAM index for PPU address `addr`.
    fn palette_index(addr: u16) -> (r: usize)
        ensures
            r == palette_slot(addr),
            r < 32,
    {
        let i = addr & 0x1F;
        proof {
            assert(addr & 0x1F < 32) by (bit_vector);
        }
        if i == 0x10 || i == 0x14 || i == 0x18 || i == 0x1C {
            (i - 0x10) as usize
        } else {
            i as usize
        }
    }

    /// Maps a nametable address ($2000-$3EFF) to an index into the 2 KiB of
    /// nametable RAM.
    pub fn map_nametable_addr(addr: u16, mirroring: Mirroring) -> (r: u16)
        requires
            addr >= 0x2000,
        ensures
            r == nametable_slot(addr, mirroring),
            r < 0x800,
    {
        let a = (addr - 0x2000) & 0xfff;
        let table = a / 0x400;
        let offset = a & 0x3ff;
        proof {
            assert(a & 0x3ff < 0x400) by (bit_vector);
        }
        match mirroring {
            Mirroring::Vertical => if table == 0 || table == 2 {
                offset
            } else {
                offset + 0x400
            },
            Mirroring::Horizontal => if table <= 1 {
                offset
            } else {
                offset + 0x400
            },
            Mirroring::OneScreenLower => offset,
            Mirroring::OneScreenUpper => offset + 0x400,
        }
    }

    /// Read of PPUSTATUS ($2002): vblank in bit 7, sprite-zero hit in bit 6,
    /// sprite overflow in bit 5. Clears vblank and the write toggle.
    pub fn read_status(&mut self) -> (r: u8)
        ensures
            r == old(self)@.status_byte(),
            final(self)@ == old(self)@.after_status_read(),
    {
        let status = (if self.vblank {
            0x80u8
        } else {
            0u8
        }) | (if self.sprite_0_hit {
            0x40u8
        } else {
            0u8
        }) | (if self.sprite_overflow {
            0x20u8
        } else {
            0u8
        });
        self.vblank = false;
        self.write_toggle = false;
        status
    }

    /// Write of OAMADDR ($2003).
    pub fn write_oam_addr(&mut self, data: u8)
        requires
            old(self)@.wf(),
        ensures
            final(self)@.wf(),
            final(self)@ == (PpuView { oam_addr: data, ..old(self)@ }),
    {
        self.oam_addr = data;
    }

    /// Read of OAMDATA ($2004): the OAM byte at OAMADDR.
    pub fn read_oam_data(&self) -> (r: u8)
        requires
            self@.wf(),
        ensures
            r == self@.oam[self.oam_addr as int],
    {
        self.oam[self.oam_addr as usize]
    }

    /// Write of OAMDATA ($2004): stores at OAMADDR, then OAMADDR advances.
    pub fn write_oam_data(&mut self, data: u8)
        requires
            old(self)@.wf(),
        ensures
            final(self)@ == old(self)@.after_oam_data_write(data),
            final(self)@.wf(),
    {
        let i = self.oam_addr as usize;
        self.oam.set(i, data);
        self.oam_addr = self.oam_addr.wrapping_add(1);
    }

    /// OAM DMA: copies the 256 bytes of `page` into OAM, starting at OAMADDR
    /// and wrapping around.
    pub fn oam_dma(&mut self, page: &Vec<u8>)
        requires
            old(self)@.wf(),
            page@.len() == 256,
        ensures
            final(self)@ == old(self)@.after_dma(page@),
            final(self)@.wf(),
    {
        let start = self.oam_addr as usize;
        let mut i: usize = 0;
        while i < OAM_LEN
            invariant
                i <= 256,
                start == old(self).oam_addr,
                page@.len() == 256,
                self.oam@.len() == 256,
                self@ == (PpuView { oam: self.oam@, ..old(self)@ }),
                forall|k: int|
                    0 <= k < i ==> #[trigger] self.oam@[(start + k) % 256] == page@[k],
            decreases 256 - i,
        {
            let j = (start + i) % OAM_LEN;
            self.oam.set(j, page[i]);
            proof {
                assert forall|k: int| 0 <= k < i + 1 implies #[trigger] self.oam@[(start + k) % 256]
                    == page@[k] by {
                    if k < i {
                        assert((start + k) % 256 != (start + i) % 256);
                    }
                }
            }
            i = i + 1;
        }
        proof {
            let want = old(self)@.after_dma(page@);
            assert forall|j: int| 0 <= j < 256 implies #[trigger] self.oam@[j] == want.oam[j] by {
                let k = (j - start + 256) % 256;
                assert(0 <= k < 256);
                assert((start + k) % 256 == j);
            }
            assert(self.oam@ =~= want.oam);
        }
    }

    /// Write of PPUCTRL ($2000).
    pub fn write_ctrl(&mut self, data: u8)
        requires
            old(self)@.wf(),
        ensures
            final(self)@.wf(),
            final(self)@ == old(self)@.after_ctrl_write(data),
    {
        self.ctrl = data;
        self.t = (self.t & 0xF3FF) | (((data & 3) as u16) << 10);
    }

    /// Write of PPUMASK ($2001).
    pub fn write_mask(&mut self, data: u8)
        requires
            old(self)@.wf(),
        ensures
            final(self)@.wf(),
            final(self)@ == (PpuView { mask: data, ..old(self)@ }),
    {
        self.mask = data;
    }

    /// Write of PPUSCROLL ($2005): X on the first write, Y on the second.
    pub fn write_scroll(&mut self, data: u8)
        requires
            old(self)@.wf(),
        ensures
            final(self)@.wf(),
            final(self)@ == old(self)@.after_scroll_write(data),
    {
        if !self.write_toggle {
            self.t = (self.t & 0xFFE0) | ((data >> 3) as u16);
            self.fine_x = data & 7;
            self.write_toggle = true;
        } else {
            self.t = (self.t & 0x8C1F) | (((data & 7) as u16) << 12) | (((data & 0xF8) as u16) << 2);
            self.write_toggle = false;
        }
    }

    /// Write of PPUADDR ($2006): high byte first, then low byte, through t.
    pub fn write_addr(&mut self, data: u8)
        requires
            old(self)@.wf(),
        ensures
            final(self)@.wf(),
            final(self)@ == old(self)@.after_addr_write(data),
    {
        if !self.write_toggle {
            self.t = (self.t & 0x00FF) | (((data & 0x3F) as u16) << 8);
            self.write_toggle = true;
        } else {
            self.t = (self.t & 0xFF00) | data as u16;
            self.addr = self.t;
            self.write_toggle = false;
        }
    }

    fn increment(&self) -> (r: u16)
        ensures
            r == self@.increment(),
    {
        if self.ctrl & 0x04 != 0 {
            32
        } else {
            1
        }
    }

    /// Read of PPUDATA ($2007). Below $3F00 the read returns the buffer and
    /// refills it from VRAM; palette reads return at once and refill the
    /// buffer from the nametable byte underneath. The address then advances
    /// by 1 or 32.
    pub fn read_data(&mut self, cart: &mut Cartridge) -> (r: u8)
        requires
            old(self)@.wf(),
            old(cart)@.wf(),
        ensures
            r == old(self)@.data_read_value(old(cart)@),
            final(self)@ == old(self)@.after_data_read(old(cart)@),
            final(self)@.wf(),
            final(cart)@ == old(self)@.cart_after_data_read(old(cart)@),
            final(cart)@.wf(),
    {
        let a = self.addr & 0x3FFF;
        let value = if a >= 0x3F00 {
            self.palette[Self::palette_index(a)]
        } else {
            self.read_buffer
        };
        if a < 0x2000 {
            cart.on_chr_access(a);
            self.read_buffer = cart.read(a);
        } else if a < 0x3F00 {
            let i = Self::map_nametable_addr(a, cart.mirroring());
            self.read_buffer = self.nametable[i as usize];
        } else {
            let i = Self::map_nametable_addr(a - 0x1000, cart.mirroring());
            self.read_buffer = self.nametable[i as usize];
        }
        self.addr = self.addr.wrapping_add(self.increment());
        value
    }

    /// Write of PPUDATA ($2007): CHR through the mapper, nametable RAM, or
    /// palette RAM (six bits); then the address advances by 1 or 32.
    pub fn write_data(&mut self, cart: &mut Cartridge, data: u8)
        requires
            old(self)@.wf(),
            old(cart)@.wf(),
        ensures
            final(self)@ == old(self)@.after_data_write(old(cart)@, data),
            final(self)@.wf(),
            final(cart)@ == old(self)@.cart_after_data_write(old(cart)@, data),
            final(cart)@.wf(),
    {
        let a = self.addr & 0x3FFF;
        if a < 0x2000 {
            cart.write(a, data);
        } else if a < 0x3F00 {
            let i = Self::map_nametable_addr(a, cart.mirroring());
            self.nametable.set(i as usize, data);
        } else {
            let i = Self::palette_index(a);
            self.palette.set(i, data & 0x3F);
        }
        self.addr = self.addr.wrapping_add(self.increment());
    }
}

/// A channel dimmed to two thirds unless its emphasis bit is set.
pub open spec fn emphasized(c: int, on: bool) -> int {
    if on {
        c
    } else {
        c * 2 / 3
    }
}

/// The colour shown for `rgb` under PPUMASK `mask`: greyscale (bit 0), then
/// the channels whose emphasis bit (5 red, 6 green, 7 blue) is clear dimmed.
pub open spec fn displayed(mask: u8, rgb: u32) -> u32 {
    let r = (rgb as int / 65536) % 256;
    let g = (rgb as int / 256) % 256;
    let b = rgb as int % 256;
    let gray = (r + g + b) / 3;
    let (r1, g1, b1) = if mask & 0x01 != 0 { (gray, gray, gray) } else { (r, g, b) };
    (emphasized(r1, mask & 0x20 != 0) * 65536 + emphasized(g1, mask & 0x40 != 0) * 256
        + emphasized(b1, mask & 0x80 != 0)) as u32
}

/// Background pixel (0-3) and palette bank (0-3) at column `x` of visible
/// line `line`, from the scroll, the base nametable of PPUCTRL, the
/// nametables (through the cartridge's mirroring), the attribute byte and the
/// pattern table.
pub open spec fn bg_pixel(p: PpuView, cart: MapperView, line: u16, x: u32) -> (u8, u8) {
    let total_x = (x + p.scroll_x()) % 512;
    let total_y = (line + p.scroll_y()) % 480;
    let tile_x = total_x / 8;
    let tile_y = total_y / 8;
    let base_nt = p.base_nametable();
    let lx: int = if base_nt % 2 == tile_x / 32 { 0 } else { 1 };
    let ly: int = if (base_nt / 2) % 2 == tile_y / 30 { 0 } else { 1 };
    let logical = lx + ly * 2;
    let nt_phys: int = match cart.mirroring() {
        Mirroring::Vertical => logical % 2,
        Mirroring::Horizontal => logical / 2,
        Mirroring::OneScreenLower => 0,
        Mirroring::OneScreenUpper => 1,
    };
    let tx = tile_x % 32;
    let ty = tile_y % 30;
    let tile_id = p.nametable[nt_phys * 0x400 + ty * 32 + tx];
    let attr = p.nametable[nt_phys * 0x400 + 0x3C0 + (ty / 4) * 8 + tx / 4];
    let shift = ((ty / 2) % 2) * 4 + ((tx / 2) % 2) * 2;
    let bank = (attr >> (shift as u8)) % 4;
    let bg_base: int = if p.ctrl & 0x10 != 0 { 0x1000 } else { 0 };
    let row = bg_base + tile_id * 16 + total_y % 8;
    let lo = cart.peek(row as u16);
    let hi = cart.peek((row + 8) as u16);
    let bit = (7 - total_x % 8) as u8;
    ((((hi >> bit) % 2) * 2 + (lo >> bit) % 2) as u8, bank)
}

/// The RGB value (before PPUMASK colour effects) of the background at `x`:
/// the palette colour of an opaque, shown pixel, else the backdrop colour.
pub open spec fn bg_rgb(p: PpuView, cart: MapperView, line: u16, x: u32) -> u32 {
    let (pixel, bank) = bg_pixel(p, cart, line, x);
    if p.mask & 0x08 != 0 && (x >= 8 || p.mask & 0x02 != 0) && pixel != 0 {
        rgb_of(p.palette[palette_slot((0x3F00 + bank as u16 * 4 + pixel as u16) as u16)])
    } else {
        rgb_of(p.palette[0])
    }
}

/// A view of the cartridge whose reads and mirroring match `o`'s.
pub open spec fn reads_alike(c: MapperView, o: MapperView) -> bool {
    &&& c.wf()
    &&& c.mirroring() == o.mirroring()
    &&& forall|a: u16| #[trigger] c.peek(a) == o.peek(a)
}

/// A CHR fetch leaves what the cartridge reads back as it was.
pub proof fn lemma_chr_access_reads_alike(c: MapperView, o: MapperView, a: u16)
    requires
        reads_alike(c, o),
    ensures
        reads_alike(c.after_chr_access(a), o),
{
    assert forall|b: u16| #[trigger] c.after_chr_access(a).peek(b) == o.peek(b) by {
        assert(c.peek(b) == o.peek(b));
    }
}

/// Sprite height: 16 when PPUCTRL bit 5 is set, else 8.
pub open spec fn sprite_height(p: PpuView) -> u16 {
    if p.ctrl & 0x20 != 0 {
        16
    } else {
        8
    }
}

/// The sprites drawn on line `line`: the first (at most) eight of OAM
/// entries 0..n that cover it, in OAM order.
pub open spec fn line_slots(oam: Seq<u8>, n: int, line: u16, height: u16) -> Seq<usize>
    decreases n,
{
    if n <= 0 {
        Seq::empty()
    } else {
        let s = line_slots(oam, n - 1, line, height);
        if sprite_on_line(oam[(n - 1) * 4], line, height) && s.len() < 8 {
            s.push((n - 1) as usize)
        } else {
            s
        }
    }
}

/// Address of the low pattern byte of sprite `i`'s row on line `line`
/// (vertical flip, 8x16 sprites' table from tile bit 0).
pub open spec fn sprite_row_addr(p: PpuView, line: u16, i: int) -> u16 {
    let h = sprite_height(p) as int;
    let tile = p.oam[i * 4 + 1] as int;
    let y_off = line as int - p.oam[i * 4] as int;
    let row = if p.oam[i * 4 + 2] & 0x80 != 0 { h - 1 - y_off } else { y_off };
    let base: int = if p.ctrl & 0x08 != 0 { 0x1000 } else { 0 };
    (if h == 8 {
        base + tile * 16 + row
    } else {
        let table = (tile % 2) * 0x1000;
        let tile8 = tile - tile % 2;
        if row < 8 {
            table + tile8 * 16 + row
        } else {
            table + (tile8 + 1) * 16 + row - 8
        }
    }) as u16
}

/// Sprite `i`'s pattern value (0-3) at screen column `x` of line `line`
/// (horizontal flip applied); 0 outside the sprite and in the left eight
/// columns when PPUMASK bit 2 hides sprites there.
pub open spec fn sprite_px(p: PpuView, cart: MapperView, line: u16, i: int, x: int) -> u8 {
    let sx = p.oam[i * 4 + 3] as int;
    if x < sx || x >= sx + 8 || x >= 256 || (x < 8 && p.mask & 0x04 == 0) {
        0
    } else {
        let a = sprite_row_addr(p, line, i);
        let lo = cart.peek(a);
        let hi = cart.peek((a + 8) as u16);
        let col = if p.oam[i * 4 + 2] & 0x40 != 0 { 7 - (x - sx) } else { x - sx };
        let bit = (7 - col) as u8;
        (((hi >> bit) % 2) * 2 + (lo >> bit) % 2) as u8
    }
}

/// The background pixel value as sprites see it: 0 where the background is
/// hidden.
pub open spec fn bg_shown(p: PpuView, cart: MapperView, line: u16, x: int) -> u8 {
    if p.mask & 0x08 != 0 && (x >= 8 || p.mask & 0x02 != 0) {
        bg_pixel(p, cart, line, x as u32).0
    } else {
        0
    }
}

/// Whether sprite `i` colours column `x`: sprites shown, an opaque sprite
/// pixel, and not behind an opaque background pixel.
pub open spec fn paints(p: PpuView, cart: MapperView, line: u16, i: int, x: int) -> bool {
    p.mask & 0x10 != 0 && sprite_px(p, cart, line, i, x) != 0 && !(p.oam[i * 4 + 2] & 0x20 != 0
        && bg_shown(p, cart, line, x) != 0)
}

/// The colour shown for pixel value `pixel` of sprite `i`.
pub open spec fn sprite_color(p: PpuView, i: int, pixel: u8) -> u32 {
    displayed(
        p.mask,
        rgb_of(p.palette[palette_slot((0x3F10 + (p.oam[i * 4 + 2] % 4) as u16 * 4 + pixel as u16) as u16)]),
    )
}

/// The colour of column `x` with the sprites `slots[k..]` over the
/// background: the first of them (lowest OAM index) that paints the column
/// wins.
pub open spec fn composed(p: PpuView, cart: MapperView, line: u16, slots: Seq<usize>, k: int, x: int) -> u32
    decreases slots.len() - k,
{
    if k >= slots.len() || k < 0 {
        displayed(p.mask, bg_rgb(p, cart, line, x as u32))
    } else if paints(p, cart, line, slots[k] as int, x) {
        sprite_color(p, slots[k] as int, sprite_px(p, cart, line, slots[k] as int, x))
    } else {
        composed(p, cart, line, slots, k + 1, x)
    }
}

/// Sprite-zero hit on this line: sprite 0 is among `slots[k..]` and one of
/// its opaque pixels lies on an opaque shown background pixel.
pub open spec fn zero_hit(p: PpuView, cart: MapperView, line: u16, slots: Seq<usize>, k: int) -> bool {
    exists|j: int, x: int|
        k <= j < slots.len() && 0 <= x < 256 && slots[j] == 0 && p.mask & 0x10 != 0
            && #[trigger] sprite_px(p, cart, line, slots[j] as int, x) != 0 && bg_shown(
            p,
            cart,
            line,
            x,
        ) != 0
}

/// Sprite-relevant parts of a scanline render: sprite overflow is set when a
/// ninth sprite covers the line, and the other rows of the picture stay.
pub open spec fn rendered_line(old: PpuView, new: PpuView, line: u16) -> bool {
    let height: u16 = if old.ctrl & 0x20 != 0 { 16 } else { 8 };
    &&& new == (PpuView {
        framebuffer: new.framebuffer,
        sprite_0_hit: new.sprite_0_hit,
        sprite_overflow: new.sprite_overflow,
        ..old
    })
    &&& new.framebuffer.len() == old.framebuffer.len()
    &&& forall|i: int|
        0 <= i < new.framebuffer.len() && i / 256 != line ==> #[trigger] new.framebuffer[i]
            == old.framebuffer[i]
    &&& new.sprite_overflow == (old.sprite_overflow || sprites_on_line(old.oam, 64, line, height)
        > 8)
    &&& old.sprite_0_hit ==> new.sprite_0_hit
}

impl PPU {
    /// Greyscale (PPUMASK bit 0) and colour emphasis (bits 5-7) on an RGB value.
    fn apply_display_mask(&self, rgb: u32) -> (r: u32)
        requires
            rgb <= 0xFFFFFF,
        ensures
            r == displayed(self.mask, rgb),
            r <= 0xFFFFFF,
    {
        let r = (rgb / 65536) % 256;
        let g = (rgb / 256) % 256;
        let b = rgb % 256;
        if self.mask & 0x01 != 0 {
            let gray = (r + g + b) / 3;
            self.apply_emphasis(gray, gray, gray)
        } else {
            self.apply_emphasis(r, g, b)
        }
    }

    /// Dims each channel whose emphasis bit (5: red, 6: green, 7: blue) is clear.
    fn apply_emphasis(&self, r: u32, g: u32, b: u32) -> (rgb: u32)
        requires
            r < 256,
            g < 256,
            b < 256,
        ensures
            rgb == (emphasized(r as int, self.mask & 0x20 != 0) * 65536 + emphasized(
                g as int,
                self.mask & 0x40 != 0,
            ) * 256 + emphasized(b as int, self.mask & 0x80 != 0)) as u32,
            rgb <= 0xFFFFFF,
    {
        let m = self.mask;
        let r = if m & 0x20 == 0 { r * 2 / 3 } else { r };
        let g = if m & 0x40 == 0 { g * 2 / 3 } else { g };
        let b = if m & 0x80 == 0 { b * 2 / 3 } else { b };
        r * 65536 + g * 256 + b
    }

    /// Advances one dot. Vblank (and the NMI, if PPUCTRL bit 7 is set) starts
    /// at dot 1 of scanline 241 and ends at dot 1 of the pre-render line, which
    /// also clears the sprite flags. Returns the visible scanline that this
    /// dot completed, if any.
    pub fn tick(&mut self) -> (r: Option<u16>)
        requires
            old(self)@.wf(),
        ensures
            final(self)@ == old(self)@.after_dot(),
            final(self)@.wf(),
            r == (if old(self).cycle == 340 && 0 <= old(self).scanline < 240 {
                Some(old(self).scanline as u16)
            } else {
                None
            }),
    {
        self.cycle = self.cycle + 1;
        if self.scanline == 241 && self.cycle == 1 {
            self.vblank = true;
            self.frame_ready = true;
            if self.ctrl & 0x80 != 0 {
                self.nmi = true;
            }
        }
        if self.scanline == -1 && self.cycle == 1 {
            self.vblank = false;
            self.sprite_0_hit = false;
            self.sprite_overflow = false;
        }
        let mut completed = None;
        if self.cycle == DOTS_PER_LINE {
            if self.scanline >= 0 && self.scanline < 240 {
                completed = Some(self.scanline as u16);
            }
            self.cycle = 0;
            if self.scanline == 260 {
                self.scanline = -1;
            } else {
                self.scanline = self.scanline + 1;
            }
        }
        completed
    }

    /// Fetches the background pixel and palette bank at column `x` of line
    /// `line`, telling the mapper about both pattern fetches.
    fn fetch_bg_pixel(&self, cart: &mut Cartridge, line: u16, x: u32, Ghost(base): Ghost<MapperView>) -> (r: (u8, u8))
        requires
            self@.wf(),
            reads_alike(old(cart)@, base),
            line < 240,
            x < 256,
        ensures
            r == bg_pixel(self@, base, line, x),
            r.0 < 4,
            reads_alike(final(cart)@, base),
    {
        let scroll_x = (self.t % 32) as u32 * 8 + (self.fine_x % 8) as u32;
        let scroll_y = ((self.t / 32) % 32) as u32 * 8 + ((self.t / 4096) % 8) as u32;
        let total_x = (x + scroll_x) % 512;
        let total_y = (line as u32 + scroll_y) % 480;
        let tile_x = total_x / 8;
        let tile_y = total_y / 8;
        let base_nt = ((self.t / 1024) % 4) as u32;
        let lx = if base_nt % 2 == tile_x / 32 { 0u32 } else { 1u32 };
        let ly = if (base_nt / 2) % 2 == tile_y / 30 { 0u32 } else { 1u32 };
        let logical = lx + ly * 2;
        let nt_phys: u32 = match cart.mirroring() {
            Mirroring::Vertical => logical % 2,
            Mirroring::Horizontal => logical / 2,
            Mirroring::OneScreenLower => 0,
            Mirroring::OneScreenUpper => 1,
        };
        let tx = tile_x % 32;
        let ty = tile_y % 30;
        let tile_id = self.nametable[(nt_phys * 0x400 + ty * 32 + tx) as usize];
        let attr = self.nametable[(nt_phys * 0x400 + 0x3C0 + (ty / 4) * 8 + tx / 4) as usize];
        let shift = ((ty / 2) % 2) * 4 + ((tx / 2) % 2) * 2;
        let bank = (attr >> shift as u8) % 4;
        let bg_base: u16 = if self.ctrl & 0x10 != 0 {
            0x1000
        } else {
            0
        };
        let row = bg_base + tile_id as u16 * 16 + (total_y % 8) as u16;
        proof {
            lemma_chr_access_reads_alike(cart@, base, row);
        }
        cart.on_chr_access(row);
        let lo = cart.read(row);
        proof {
            lemma_chr_access_reads_alike(cart@, base, (row + 8) as u16);
        }
        cart.on_chr_access(row + 8);
        let hi = cart.read(row + 8);
        let bit = (7 - total_x % 8) as u8;
        (((hi >> bit) % 2) * 2 + (lo >> bit) % 2, bank)
    }

    /// The RGB value of a background pixel at column `x`: its palette colour
    /// when shown and opaque, else the backdrop.
    fn bg_color(&self, pixel: u8, bank: u8, x: u32) -> (r: u32)
        requires
            self@.wf(),
            pixel < 4,
            bank < 4,
        ensures
            r == (if self.mask & 0x08 != 0 && (x >= 8 || self.mask & 0x02 != 0) && pixel != 0 {
                rgb_of(self@.palette[palette_slot((0x3F00 + bank as u16 * 4 + pixel as u16) as u16)])
            } else {
                rgb_of(self@.palette[0])
            }),
            r <= 0xFFFFFF,
    {
        if self.mask & 0x08 != 0 && (x >= 8 || self.mask & 0x02 != 0) && pixel != 0 {
            let i = Self::palette_index(0x3F00 + bank as u16 * 4 + pixel as u16);
            nes_rgb(self.palette[i])
        } else {
            nes_rgb(self.palette[0])
        }
    }

    /// Fetches the two pattern bytes of sprite `idx`'s row on line `line`,
    /// telling the mapper about both fetches.
    fn fetch_sprite_row(&self, cart: &mut Cartridge, line: u16, idx: usize, Ghost(base): Ghost<MapperView>) -> (r: (u8, u8))
        requires
            self@.wf(),
            reads_alike(old(cart)@, base),
            idx < 64,
            sprite_on_line(self@.oam[idx * 4], line, sprite_height(self@)),
        ensures
            r.0 == base.peek(sprite_row_addr(self@, line, idx as int)),
            r.1 == base.peek((sprite_row_addr(self@, line, idx as int) + 8) as u16),
            reads_alike(final(cart)@, base),
    {
        let height: u16 = if self.ctrl & 0x20 != 0 {
            16
        } else {
            8
        };
        let sy = self.oam[idx * 4] as u16;
        let tile = self.oam[idx * 4 + 1];
        let attr = self.oam[idx * 4 + 2];
        let y_offset = line - sy;
        let row = if attr & 0x80 != 0 {
            height - 1 - y_offset
        } else {
            y_offset
        };
        let sprite_base: u16 = if self.ctrl & 0x08 != 0 {
            0x1000
        } else {
            0
        };
        let addr = if height == 8 {
            sprite_base + tile as u16 * 16 + row
        } else {
            let table = (tile % 2) as u16 * 0x1000;
            let tile_8 = (tile - tile % 2) as u16;
            if row < 8 {
                table + tile_8 * 16 + row
            } else {
                table + (tile_8 + 1) * 16 + (row - 8)
            }
        };
        proof {
            lemma_chr_access_reads_alike(cart@, base, addr);
        }
        cart.on_chr_access(addr);
        let lo = cart.read(addr);
        proof {
            lemma_chr_access_reads_alike(cart@, base, (addr + 8) as u16);
        }
        cart.on_chr_access(addr + 8);
        let hi = cart.read(addr + 8);
        (lo, hi)
    }

    /// Renders visible scanline `scanline` into the framebuffer: the
    /// background from the nametables and scroll, then up to eight sprites,
    /// lower OAM index in front. Sets sprite-zero hit and sprite overflow.
    pub fn render_scanline(&mut self, cart: &mut Cartridge, scanline: u16)
        requires
            old(self)@.wf(),
            old(cart)@.wf(),
            scanline < 240,
        ensures
            rendered_line(old(self)@, final(self)@, scanline),
            reads_alike(final(cart)@, old(cart)@),
            old(self).mask & 0x10 == 0 ==> forall|x: u32|
                x < 256 ==> #[trigger] final(self)@.framebuffer[scanline * 256 + x] == displayed(
                    old(self).mask,
                    bg_rgb(old(self)@, old(cart)@, scanline, x),
                ),
            forall|x: int|
                0 <= x < 256 ==> #[trigger] final(self)@.framebuffer[scanline * 256 + x]
                    == composed(
                    old(self)@,
                    old(cart)@,
                    scanline,
                    line_slots(old(self)@.oam, 64, scanline, sprite_height(old(self)@)),
                    0,
                    x,
                ),
            final(self)@.sprite_0_hit == (old(self)@.sprite_0_hit || zero_hit(
                old(self)@,
                old(cart)@,
                scanline,
                line_slots(old(self)@.oam, 64, scanline, sprite_height(old(self)@)),
                0,
            )),
    {
        let ghost old_self = self@;
        let ghost old_cart = cart@;
        let y = scanline as u32;
        let show_sprites = self.mask & 0x10 != 0;
        let show_sprites_left = self.mask & 0x04 != 0;
        let mut bg_pixel: Vec<u8> = Vec::new();
        let mut x: u32 = 0;
        while x < 256
            invariant
                x <= 256,
                y < 240,
                y == scanline as u32,
                old_self.wf(),
                bg_pixel@.len() == x,
                forall|k: int| 0 <= k < x ==> #[trigger] bg_pixel@[k] < 4,
                forall|k: int|
                    0 <= k < x ==> #[trigger] bg_pixel@[k] == bg_shown(old_self, old_cart, scanline, k),
                reads_alike(cart@, old_cart),
                self@.wf(),
                self@ == (PpuView { framebuffer: self@.framebuffer, ..old_self }),
                forall|i: int|
                    0 <= i < 61440 && i / 256 != scanline ==> #[trigger] self@.framebuffer[i]
                        == old_self.framebuffer[i],
                forall|k: u32|
                    k < x ==> #[trigger] self@.framebuffer[scanline * 256 + k] == displayed(
                        old_self.mask,
                        bg_rgb(old_self, old_cart, scanline, k),
                    ),
            decreases 256 - x,
        {
            let (pixel, palette_bank) = self.fetch_bg_pixel(cart, scanline, x, Ghost(old_cart));
            // Only a shown background pixel hides sprites or counts for a hit.
            let shown = self.mask & 0x08 != 0 && (x >= 8 || self.mask & 0x02 != 0);
            bg_pixel.push(if shown {
                pixel
            } else {
                0
            });
            let rgb = self.bg_color(pixel, palette_bank, x);
            let out = self.apply_display_mask(rgb);
            let at = (y * 256 + x) as usize;
            proof {
                assert(at / 256 == scanline as int) by (nonlinear_arith)
                    requires at == y * 256 + x, x < 256, y == scanline;
                assert(rgb == bg_rgb(old_self, old_cart, scanline, x));
            }
            self.framebuffer.set(at, out);
            x = x + 1;
        }
        let ghost row_fb = self@.framebuffer;
        let height: u16 = if self.ctrl & 0x20 != 0 {
            16
        } else {
            8
        };
        let ghost all = line_slots(old_self.oam, 64, scanline, height);
        let mut slots: Vec<usize> = Vec::new();
        let mut i: usize = 0;
        while i < 64
            invariant
                i <= 64,
                height == 8 || height == 16,
                height == sprite_height(old_self),
                slots@ == line_slots(old_self.oam, i as int, scanline, height),
                slots@.len() <= 8,
                slots@.len() == (if sprites_on_line(old_self.oam, i as int, scanline, height)
                    <= 8 {
                    sprites_on_line(old_self.oam, i as int, scanline, height)
                } else {
                    8
                }),
                forall|k: int| 0 <= k < slots@.len() ==> #[trigger] slots@[k] < 64,
                forall|k: int|
                    0 <= k < slots@.len() ==> sprite_on_line(
                        old_self.oam[#[trigger] slots@[k] * 4],
                        scanline,
                        height,
                    ),
                self@.wf(),
                self@ == (PpuView {
                    framebuffer: self@.framebuffer,
                    sprite_overflow: self@.sprite_overflow,
                    ..old_self
                }),
                self@.sprite_overflow == (old_self.sprite_overflow || sprites_on_line(
                    old_self.oam,
                    i as int,
                    scanline,
                    height,
                ) > 8),
                old_self.wf(),
                self@.framebuffer == row_fb,
                forall|k: u32|
                    k < 256 ==> #[trigger] row_fb[scanline * 256 + k] == displayed(
                        old_self.mask,
                        bg_rgb(old_self, old_cart, scanline, k),
                    ),
                bg_pixel@.len() == 256,
                forall|j: int| 0 <= j < 256 ==> #[trigger] bg_pixel@[j] < 4,
                forall|j: int|
                    0 <= j < 256 ==> #[trigger] bg_pixel@[j] == bg_shown(old_self, old_cart, scanline, j),
                reads_alike(cart@, old_cart),
                forall|i: int|
                    0 <= i < 61440 && i / 256 != scanline ==> #[trigger] self@.framebuffer[i]
                        == old_self.framebuffer[i],
            decreases 64 - i,
        {
            let sy = self.oam[i * 4] as u16;
            if scanline >= sy && scanline < sy + height {
                if slots.len() < 8 {
                    slots.push(i);
                } else {
                    self.sprite_overflow = true;
                }
            }
            i = i + 1;
        }
        proof {
            assert forall|x: int| 0 <= x < 256 implies #[trigger] self@.framebuffer[scanline * 256
                + x] == composed(old_self, old_cart, scanline, all, all.len() as int, x) by {
                assert(row_fb[scanline * 256 + (x as u32)] == displayed(
                    old_self.mask,
                    bg_rgb(old_self, old_cart, scanline, x as u32),
                ));
            }
        }
        let mut k: usize = slots.len();
        while k > 0
            invariant
                old_self.wf(),
                slots@ == all,
                show_sprites == (old_self.mask & 0x10 != 0),
                show_sprites_left == (old_self.mask & 0x04 != 0),
                !show_sprites ==> self@.framebuffer == row_fb,
                forall|x: u32|
                    x < 256 ==> #[trigger] row_fb[scanline * 256 + x] == displayed(
                        old_self.mask,
                        bg_rgb(old_self, old_cart, scanline, x),
                    ),
                forall|x: int|
                    0 <= x < 256 ==> #[trigger] self@.framebuffer[scanline * 256 + x] == composed(
                        old_self,
                        old_cart,
                        scanline,
                        all,
                        k as int,
                        x,
                    ),
                self@.sprite_0_hit == (old_self.sprite_0_hit || zero_hit(
                    old_self,
                    old_cart,
                    scanline,
                    all,
                    k as int,
                )),
                self@ == (PpuView {
                    framebuffer: self@.framebuffer,
                    sprite_overflow: self@.sprite_overflow,
                    sprite_0_hit: self@.sprite_0_hit,
                    ..old_self
                }),
                self@.sprite_overflow == (old_self.sprite_overflow || sprites_on_line(
                    old_self.oam,
                    64,
                    scanline,
                    height,
                ) > 8),
                height == sprite_height(old_self),
                k <= slots@.len(),
                slots@.len() <= 8,
                forall|j: int| 0 <= j < slots@.len() ==> #[trigger] slots@[j] < 64,
                forall|j: int|
                    0 <= j < slots@.len() ==> sprite_on_line(
                        old_self.oam[#[trigger] slots@[j] * 4],
                        scanline,
                        height,
                    ),
                height == 8 || height == 16,
                scanline < 240,
                bg_pixel@.len() == 256,
                forall|j: int| 0 <= j < 256 ==> #[trigger] bg_pixel@[j] < 4,
                forall|j: int|
                    0 <= j < 256 ==> #[trigger] bg_pixel@[j] == bg_shown(old_self, old_cart, scanline, j),
                reads_alike(cart@, old_cart),
                self@.wf(),
                forall|i: int|
                    0 <= i < 61440 && i / 256 != scanline ==> #[trigger] self@.framebuffer[i]
                        == old_self.framebuffer[i],
            decreases k,
        {
            k = k - 1;
            let idx = slots[k];
            let (lo, hi) = self.fetch_sprite_row(cart, scanline, idx, Ghost(old_cart));
            let attr = self.oam[idx * 4 + 2];
            let sx = self.oam[idx * 4 + 3] as u32;
            let flip_h = attr & 0x40 != 0;
            let behind_bg = attr & 0x20 != 0;
            let palette_bank = (attr % 4) as u16;
            if !show_sprites {
                proof {
                    assert forall|x: int| 0 <= x < 256 implies #[trigger] self@.framebuffer[scanline
                        * 256 + x] == composed(old_self, old_cart, scanline, all, k as int, x) by {
                        assert(!paints(old_self, old_cart, scanline, all[k as int] as int, x));
                        assert(self@.framebuffer[scanline * 256 + x] == composed(
                            old_self,
                            old_cart,
                            scanline,
                            all,
                            k + 1,
                            x,
                        ));
                    }
                    assert(zero_hit(old_self, old_cart, scanline, all, k as int) == zero_hit(
                        old_self,
                        old_cart,
                        scanline,
                        all,
                        k + 1,
                    ));
                }
                continue;
            }
            let ghost hit_before = self@.sprite_0_hit;
            let mut px: u32 = 0;
            while px < 8
                invariant
                    px <= 8,
                    idx < 64,
                    idx == all[k as int],
                    k < all.len(),
                    all == slots@,
                    palette_bank == (old_self.oam[idx * 4 + 2] % 4) as u16,
                    flip_h == (old_self.oam[idx * 4 + 2] & 0x40 != 0),
                    behind_bg == (old_self.oam[idx * 4 + 2] & 0x20 != 0),
                    sx == old_self.oam[idx * 4 + 3] as u32,
                    lo == old_cart.peek(sprite_row_addr(old_self, scanline, idx as int)),
                    hi == old_cart.peek((sprite_row_addr(old_self, scanline, idx as int) + 8) as u16),
                    show_sprites,
                    show_sprites == (old_self.mask & 0x10 != 0),
                    show_sprites_left == (old_self.mask & 0x04 != 0),
                    old_self.wf(),
                    self@ == (PpuView {
                        framebuffer: self@.framebuffer,
                        sprite_overflow: self@.sprite_overflow,
                        sprite_0_hit: self@.sprite_0_hit,
                        ..old_self
                    }),
                    self@.sprite_overflow == (old_self.sprite_overflow || sprites_on_line(
                        old_self.oam,
                        64,
                        scanline,
                        height,
                    ) > 8),
                    scanline < 240,
                    sx < 256,
                    bg_pixel@.len() == 256,
                    forall|j: int|
                        0 <= j < 256 ==> #[trigger] bg_pixel@[j] == bg_shown(old_self, old_cart, scanline, j),
                    self@.wf(),
                    forall|x: int|
                        0 <= x < 256 ==> #[trigger] self@.framebuffer[scanline * 256 + x] == (if sx
                            <= x < sx + px {
                            composed(old_self, old_cart, scanline, all, k as int, x)
                        } else {
                            composed(old_self, old_cart, scanline, all, k + 1, x)
                        }),
                    hit_before == (old_self.sprite_0_hit || zero_hit(
                        old_self,
                        old_cart,
                        scanline,
                        all,
                        k + 1,
                    )),
                    self@.sprite_0_hit == (hit_before || (idx == 0 && exists|x: int|
                        sx <= x < sx + px && 0 <= x < 256 && #[trigger] sprite_px(
                            old_self,
                            old_cart,
                            scanline,
                            0,
                            x,
                        ) != 0 && bg_shown(old_self, old_cart, scanline, x) != 0)),
                    forall|i: int|
                        0 <= i < 61440 && i / 256 != scanline ==> #[trigger] self@.framebuffer[i]
                            == old_self.framebuffer[i],
                decreases 8 - px,
            {
                let col = if flip_h { 7 - px } else { px };
                let bit = (7 - col) as u8;
                let pixel = ((hi >> bit) % 2) * 2 + (lo >> bit) % 2;
                let screen_x = sx + px;
                let ghost xi = screen_x as int;
                proof {
                    assert(screen_x < 256 && (screen_x >= 8 || show_sprites_left) ==> sprite_px(
                        old_self,
                        old_cart,
                        scanline,
                        idx as int,
                        xi,
                    ) == pixel);
                }
                if screen_x < 256 && (screen_x >= 8 || show_sprites_left) && pixel != 0 {
                    let bg = bg_pixel[screen_x as usize];
                    if idx == 0 && bg != 0 {
                        self.sprite_0_hit = true;
                    }
                    if !(behind_bg && bg != 0) {
                        let i = Self::palette_index(0x3F10 + palette_bank * 4 + pixel as u16);
                        let out = self.apply_display_mask(nes_rgb(self.palette[i]));
                        let at = (scanline as u32 * 256 + screen_x) as usize;
                        proof {
                            assert(at / 256 == scanline as int) by (nonlinear_arith)
                                requires at == scanline * 256 + screen_x, screen_x < 256;
                            assert(paints(old_self, old_cart, scanline, idx as int, xi));
                        }
                        self.framebuffer.set(at, out);
                    } else {
                        proof {
                            assert(!paints(old_self, old_cart, scanline, idx as int, xi));
                        }
                    }
                } else {
                    proof {
                        if xi < 256 {
                            assert(!paints(old_self, old_cart, scanline, idx as int, xi));
                        }
                    }
                }
                proof {
                    assert forall|x: int| 0 <= x < 256 implies #[trigger] self@.framebuffer[scanline
                        * 256 + x] == (if sx <= x < sx + px + 1 {
                        composed(old_self, old_cart, scanline, all, k as int, x)
                    } else {
                        composed(old_self, old_cart, scanline, all, k + 1, x)
                    }) by {
                        if x == xi {
                        } else {
                        }
                    }
                }
                px = px + 1;
            }
            proof {
                assert forall|x: int| 0 <= x < 256 implies #[trigger] self@.framebuffer[scanline
                    * 256 + x] == composed(old_self, old_cart, scanline, all, k as int, x) by {
                    if !(sx <= x < sx + 8) {
                        assert(sprite_px(old_self, old_cart, scanline, idx as int, x) == 0);
                        assert(!paints(old_self, old_cart, scanline, idx as int, x));
                    }
                }
                let zk = zero_hit(old_self, old_cart, scanline, all, k as int);
                let zk1 = zero_hit(old_self, old_cart, scanline, all, k + 1);
                let here = idx == 0 && exists|x: int|
                    sx <= x < sx + 8 && 0 <= x < 256 && #[trigger] sprite_px(
                        old_self,
                        old_cart,
                        scanline,
                        0,
                        x,
                    ) != 0 && bg_shown(old_self, old_cart, scanline, x) != 0;
                if zk {
                    let (j, x) = choose|j: int, x: int|
                        k <= j < all.len() && 0 <= x < 256 && all[j] == 0 && old_self.mask & 0x10
                            != 0 && #[trigger] sprite_px(old_self, old_cart, scanline, all[j] as int, x)
                            != 0 && bg_shown(old_self, old_cart, scanline, x) != 0;
                    if j > k {
                        assert(zk1);
                    } else {
                        assert(sprite_px(old_self, old_cart, scanline, 0, x) != 0);
                        assert(here);
                    }
                }
                if zk1 {
                    let (j, x) = choose|j: int, x: int|
                        k + 1 <= j < all.len() && 0 <= x < 256 && all[j] == 0 && old_self.mask
                            & 0x10 != 0 && #[trigger] sprite_px(
                            old_self,
                            old_cart,
                            scanline,
                            all[j] as int,
                            x,
                        ) != 0 && bg_shown(old_self, old_cart, scanline, x) != 0;
                    assert(sprite_px(old_self, old_cart, scanline, all[j] as int, x) != 0);
                    assert(zk);
                }
                if here {
                    let x = choose|x: int|
                        sx <= x < sx + 8 && 0 <= x < 256 && #[trigger] sprite_px(
                            old_self,
                            old_cart,
                            scanline,
                            0,
                            x,
                        ) != 0 && bg_shown(old_self, old_cart, scanline, x) != 0;
                    assert(sprite_px(old_self, old_cart, scanline, all[k as int] as int, x) != 0);
                    assert(zk);
                }
                assert(zk == (zk1 || here));
            }
        }
    }
}

/// The sprite palette entries $3F10, $3F14, $3F18 and $3F1C are the same
/// bytes as $3F00, $3F04, $3F08 and $3F0C, for reads and writes alike.
pub proof fn lemma_palette_mirror(a: u16)
    requires
        a == 0x3F10 || a == 0x3F14 || a == 0x3F18 || a == 0x3F1C,
    ensures
        palette_slot(a) == palette_slot((a - 0x10) as u16),
        palette_slot(a) == (a - 0x3F10) as int,
{
    assert(0x3F10u16 & 0x1F == 0x10 && 0x3F14u16 & 0x1F == 0x14 && 0x3F18u16 & 0x1F == 0x18
        && 0x3F1Cu16 & 0x1F == 0x1C && 0x3F00u16 & 0x1F == 0 && 0x3F04u16 & 0x1F == 4
        && 0x3F08u16 & 0x1F == 8 && 0x3F0Cu16 & 0x1F == 0x0C) by (bit_vector);
}

/// Writes to $2005 and $2006 flip the shared write toggle; a read of $2002
/// clears it whatever it was.
pub proof fn lemma_status_read_resets_toggle(p: PpuView, data: u8)
    ensures
        p.after_scroll_write(data).write_toggle == !p.write_toggle,
        p.after_addr_write(data).write_toggle == !p.write_toggle,
        !p.after_scroll_write(data).after_status_read().write_toggle,
        !p.after_addr_write(data).after_status_read().write_toggle,
{
}

/// Setting the VRAM address with two writes of $2006 (high byte, then low).
pub open spec fn addr_set(p: PpuView, a: u16) -> PpuView {
    p.after_addr_write((a >> 8) as u8).after_addr_write((a & 0xFF) as u8)
}

/// A byte written through $2007 reads back through $2007 at the same address:
/// the first read after setting the address loads it into the read buffer,
/// and the next read returns it (while the address has not moved into the
/// palette). For nametable addresses, and for CHR on boards with CHR-RAM.
pub proof fn lemma_vram_round_trip(p: PpuView, cart: MapperView, a: u16, b: u8)
    requires
        p.wf(),
        cart.wf(),
        !p.write_toggle,
        a < 0x3F00,
        a >= 0x2000 || cart.chr_writable(),
    ensures
        ({
            let q = addr_set(p, a);
            let c1 = q.cart_after_data_write(cart, b);
            let q1 = q.after_data_write(cart, b);
            let q2 = addr_set(q1, a);
            let q3 = q2.after_data_read(c1);
            let c3 = q2.cart_after_data_read(c1);
            &&& q3.read_buffer == b
            &&& q3.addr & 0x3FFF < 0x3F00 ==> q3.data_read_value(c3) == b
        }),
{
    assert(forall|t: u16|
        a < 0x3F00 ==> #[trigger] (((t & 0x00FF) | (((((a >> 8) as u8) & 0x3F) as u16) << 8)) & 0xFF00)
            | (((a & 0xFF) as u8) as u16) == a) by (bit_vector);
    assert(a < 0x3F00 ==> a & 0x3FFF == a) by (bit_vector);
    let q = addr_set(p, a);
    assert(q.addr == a);
    assert(!q.write_toggle);
    let q1 = q.after_data_write(cart, b);
    assert(!q1.write_toggle);
    let q2 = addr_set(q1, a);
    assert(q2.addr == a);
    let c1 = q.cart_after_data_write(cart, b);
    if a >= 0x2000 {
        let m = cart.mirroring();
        let x = ((a - 0x2000) as u16) & 0xFFF;
        assert(x & 0x3FF < 0x400) by (bit_vector);
        let slot = nametable_slot(a, m);
        assert(slot < 0x800);
        assert(c1 == cart);
        assert(q1.nametable == q.nametable.update(slot as int, b));
        assert(q2.nametable == q1.nametable);
        assert(q2.data_read_refill(c1) == b);
    } else {
        assert(c1 == cart.after_write(a, b));
        match cart {
            MapperView::Nrom(m) => {
                assert(q2.data_read_refill(c1) == b);
            },
            MapperView::Mmc1(m) => {
                let n = m.chr_bank_count();
                let k = m.chr_bank_at(a) % n;
                assert(a & 0x0FFF < 0x1000) by (bit_vector);
                assert(k * 0x1000 + 0x1000 <= n * 0x1000) by (nonlinear_arith)
                    requires k < n;
                assert(n * 0x1000 <= m.chr.len()) by (nonlinear_arith)
                    requires n == m.chr.len() / 0x1000;
                assert(q2.data_read_refill(c1) == b);
            },
            MapperView::Mmc3(m) => {
                let n = m.chr_banks();
                let k = (m.chr_slot_bank(a >> 10) as nat) % n;
                assert(a & 0x3FF < 0x400) by (bit_vector);
                assert(k * 0x400 + 0x400 <= n * 0x400) by (nonlinear_arith)
                    requires k < n;
                assert(n * 0x400 <= m.chr.len()) by (nonlinear_arith)
                    requires n == m.chr.len() / 0x400;
                let m1 = m.after_write(a, b);
                assert(m1.chr_index(a) == m.chr_index(a));
                assert(m1.after_chr_access(a).chr_index(a) == m.chr_index(a));
                assert(q2.data_read_refill(c1) == b);
            },
        }
    }
}

/// After an OAM DMA of the 256 bytes `page`, reading OAM from OAMADDR
/// upwards (wrapping) gives those bytes in order.
pub proof fn lemma_dma_then_oam(p: PpuView, page: Seq<u8>, i: int)
    requires
        page.len() == 256,
        0 <= i < 256,
    ensures
        p.after_dma(page).oam[(p.oam_addr + i) % 256] == page[i],
{
    let j = (p.oam_addr + i) % 256;
    assert(0 <= j < 256);
    assert((j - p.oam_addr + 256) % 256 == i) by {
        vstd::arithmetic::div_mod::lemma_fundamental_div_mod(p.oam_addr + i, 256);
        let q = (p.oam_addr + i) / 256;
        assert(j - p.oam_addr + 256 == i + 256 * (1 - q));
        vstd::arithmetic::div_mod::lemma_mod_multiples_vanish(1 - q, i, 256);
        vstd::arithmetic::div_mod::lemma_small_mod(i as nat, 256);
    }
}

/// The PPU's frame timing: position in the frame and the vblank, NMI and
/// frame-ready flags.
pub open spec fn timing(p: PpuView) -> (u16, i16, bool, bool, bool) {
    (p.cycle, p.scanline, p.vblank, p.nmi, p.frame_ready)
}

/// The PPU after `n` dots, leaving out what rendering draws.
pub open spec fn after_dots(p: PpuView, n: nat) -> PpuView
    decreases n,
{
    if n == 0 {
        p
    } else {
        after_dots(p, (n - 1) as nat).after_dot()
    }
}

/// Timing after `n` dots depends only on the timing and PPUCTRL before.
pub proof fn lemma_timing_congruent(p: PpuView, q: PpuView, n: nat)
    requires
        timing(p) == timing(q),
        p.ctrl == q.ctrl,
    ensures
        timing(after_dots(p, n)) == timing(after_dots(q, n)),
        after_dots(p, n).ctrl == p.ctrl,
        after_dots(q, n).ctrl == q.ctrl,
    decreases n,
{
    if n > 0 {
        lemma_timing_congruent(p, q, (n - 1) as nat);
    }
}

pub proof fn lemma_after_dots_add(p: PpuView, a: nat, b: nat)
    ensures
        after_dots(p, a + b) == after_dots(after_dots(p, a), b),
    decreases b,
{
    if b > 0 {
        lemma_after_dots_add(p, a, (b - 1) as nat);
        assert(a + b - 1 == a + (b - 1) as nat);
    }
}

} // verus!

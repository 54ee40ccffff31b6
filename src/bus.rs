//! The CPU's view of memory: the `Bus` interface and the console's bus, which
//! decodes addresses to RAM, the PPU, the APU, the controller and the
//! cartridge.
use vstd::prelude::*;
use crate::apu::{ApuState, Sample, APU};
use crate::cartridge::{Cartridge, MapperView};
use crate::controller::Controller;
use crate::ppu::{after_dots, lemma_after_dots_add, lemma_timing_congruent, reads_alike, timing, PpuView, PPU};

verus! {

/// What the CPU reads, writes and clocks. `State` is the bus's state as a
/// value; reads and writes are exact functions of it, and a tick of `n` CPU
/// cycles relates the states before and after.
pub trait Bus: Sized {
    type State;

    spec fn state(&self) -> Self::State;

    spec fn wf(s: Self::State) -> bool;

    /// The value a read of `addr` returns in state `s`.
    spec fn peek(s: Self::State, addr: u16) -> u8;

    /// The state after a read of `addr` (reads of some registers have effects).
    spec fn after_read(s: Self::State, addr: u16) -> Self::State;

    spec fn after_write(s: Self::State, addr: u16, data: u8) -> Self::State;

    /// How the state may change over `n` CPU cycles.
    spec fn ticked(pre: Self::State, n: usize, post: Self::State) -> bool;

    spec fn nmi_line(s: Self::State) -> bool;

    spec fn after_nmi_poll(s: Self::State) -> Self::State;

    spec fn irq_line(s: Self::State) -> bool;

    fn read(&mut self, addr: u16) -> (r: u8)
        requires
            Self::wf(old(self).state()),
        ensures
            r == Self::peek(old(self).state(), addr),
            final(self).state() == Self::after_read(old(self).state(), addr),
            Self::wf(final(self).state()),
    ;

    fn write(&mut self, addr: u16, data: u8)
        requires
            Self::wf(old(self).state()),
        ensures
            final(self).state() == Self::after_write(old(self).state(), addr, data),
            Self::wf(final(self).state()),
    ;

    fn tick(&mut self, cycles: usize)
        requires
            Self::wf(old(self).state()),
        ensures
            Self::ticked(old(self).state(), cycles, final(self).state()),
            Self::wf(final(self).state()),
    ;

    /// Returns whether an NMI edge is waiting, and takes it.
    fn poll_nmi(&mut self) -> (r: bool)
        requires
            Self::wf(old(self).state()),
        ensures
            r == Self::nmi_line(old(self).state()),
            final(self).state() == Self::after_nmi_poll(old(self).state()),
            Self::wf(final(self).state()),
    ;

    /// Whether some device holds the IRQ line.
    fn poll_irq(&self) -> (r: bool)
        ensures
            r == Self::irq_line(self.state()),
    ;
}

/// The console's bus: 2 KiB of RAM, the PPU, the APU, controller port 1 and
/// the cartridge.
pub struct NesBus {
    /// Internal RAM, mirrored through $0000-$1FFF.
    pub ram: Vec<u8>,
    pub cart: Cartridge,
    pub ppu: PPU,
    pub apu: APU,
    pub controller: Controller,
    /// CPU cycles that an OAM DMA stole and that are still to be clocked.
    pub dma_stall: usize,
    /// Parity of the CPU cycles clocked so far.
    pub odd_cycle: bool,
}

/// The console bus as values.
pub struct NesBusState {
    pub ram: Seq<u8>,
    pub cart: MapperView,
    pub ppu: PpuView,
    pub apu: ApuState,
    pub samples: Seq<Sample>,
    pub controller: Controller,
    pub dma_stall: usize,
    pub odd_cycle: bool,
}

/// The 256 bytes that an OAM DMA from page `page` copies: RAM (through its
/// mirrors) for pages $00-$1F, the cartridge for pages $60-$FF, and the
/// open-bus value $40 from the register pages, whose reads have effects.
pub open spec fn dma_page(ram: Seq<u8>, cart: MapperView, page: u8) -> Seq<u8> {
    Seq::new(
        256,
        |i: int|
            if page < 0x20 {
                ram[(page as int * 256 + i) % 2048]
            } else if page >= 0x60 {
                cart.peek((page as int * 256 + i) as u16)
            } else {
                0x40u8
            },
    )
}

impl NesBusState {
    pub open spec fn wf(self) -> bool {
        &&& self.ram.len() == 2048
        &&& self.cart.wf()
        &&& self.ppu.wf()
        &&& self.apu.wf()
        &&& self.dma_stall <= 514
    }

    /// The value a read of `addr` returns. Write-only PPU and APU registers
    /// and unmapped I/O read as the constant open-bus value $40.
    pub open spec fn peek(self, addr: u16) -> u8 {
        if addr < 0x2000 {
            self.ram[(addr % 0x800) as int]
        } else if addr < 0x4000 {
            let r = addr % 8;
            if r == 2 {
                self.ppu.status_byte()
            } else if r == 4 {
                self.ppu.oam[self.ppu.oam_addr as int]
            } else if r == 7 {
                self.ppu.data_read_value(self.cart)
            } else {
                0x40
            }
        } else if addr == 0x4015 {
            self.apu.status_byte()
        } else if addr == 0x4016 {
            self.controller.next_bit() | 0x40
        } else if addr < 0x4020 {
            0x40
        } else {
            self.cart.peek(addr)
        }
    }

    pub open spec fn after_read(self, addr: u16) -> NesBusState {
        if 0x2000 <= addr && addr < 0x4000 {
            let r = addr % 8;
            if r == 2 {
                NesBusState { ppu: self.ppu.after_status_read(), ..self }
            } else if r == 7 {
                NesBusState {
                    ppu: self.ppu.after_data_read(self.cart),
                    cart: self.ppu.cart_after_data_read(self.cart),
                    ..self
                }
            } else {
                self
            }
        } else if addr == 0x4015 {
            NesBusState { apu: ApuState { frame_irq: false, ..self.apu }, ..self }
        } else if addr == 0x4016 {
            NesBusState { controller: self.controller.after_read(), ..self }
        } else {
            self
        }
    }

    pub open spec fn after_ppu_write(self, r: u16, data: u8) -> NesBusState {
        if r == 0 {
            NesBusState { ppu: self.ppu.after_ctrl_write(data), ..self }
        } else if r == 1 {
            NesBusState { ppu: PpuView { mask: data, ..self.ppu }, ..self }
        } else if r == 3 {
            NesBusState { ppu: PpuView { oam_addr: data, ..self.ppu }, ..self }
        } else if r == 4 {
            NesBusState { ppu: self.ppu.after_oam_data_write(data), ..self }
        } else if r == 5 {
            NesBusState { ppu: self.ppu.after_scroll_write(data), ..self }
        } else if r == 6 {
            NesBusState { ppu: self.ppu.after_addr_write(data), ..self }
        } else if r == 7 {
            NesBusState {
                ppu: self.ppu.after_data_write(self.cart, data),
                cart: self.ppu.cart_after_data_write(self.cart, data),
                ..self
            }
        } else {
            self
        }
    }

    pub open spec fn after_write(self, addr: u16, data: u8) -> NesBusState {
        if addr < 0x2000 {
            NesBusState { ram: self.ram.update((addr % 0x800) as int, data), ..self }
        } else if addr < 0x4000 {
            self.after_ppu_write(addr % 8, data)
        } else if addr == 0x4014 {
            NesBusState {
                ppu: self.ppu.after_dma(dma_page(self.ram, self.cart, data)),
                dma_stall: if self.odd_cycle { 514 } else { 513 },
                ..self
            }
        } else if addr == 0x4016 {
            NesBusState { controller: self.controller.after_write(data), ..self }
        } else if addr < 0x4018 {
            NesBusState { apu: self.apu.after_write(addr, data), ..self }
        } else if addr < 0x4020 {
            self
        } else {
            NesBusState { cart: self.cart.after_write(addr, data), ..self }
        }
    }

    /// Over `n` CPU cycles the PPU moves 3n dots on (its position and its
    /// vblank, NMI and frame-ready flags are those of `after_dots`), the APU
    /// n cycles, and RAM, the controller, the PPU's memories and what the
    /// cartridge reads back stay as they were.
    pub open spec fn ticked(self, n: nat, post: NesBusState) -> bool {
        &&& post.ram == self.ram
        &&& post.controller == self.controller
        &&& post.dma_stall == self.dma_stall
        &&& post.ppu.same_memory(self.ppu)
        &&& post.ppu.dot() == (self.ppu.dot() + 3 * n) % 89342
        &&& timing(post.ppu) == timing(after_dots(self.ppu, 3 * n))
        &&& post.apu == self.apu.after_cycles(n)
        &&& post.samples == self.samples + self.apu.samples_over(n)
        &&& reads_alike(post.cart, self.cart)
        &&& post.odd_cycle == (self.odd_cycle != (n % 2 == 1))
    }
}

impl Bus for NesBus {
    type State = NesBusState;

    open spec fn state(&self) -> NesBusState {
        NesBusState {
            ram: self.ram@,
            cart: self.cart@,
            ppu: self.ppu@,
            apu: self.apu.state,
            samples: self.apu.sample_buffer@,
            controller: self.controller,
            dma_stall: self.dma_stall,
            odd_cycle: self.odd_cycle,
        }
    }

    open spec fn wf(s: NesBusState) -> bool {
        s.wf()
    }

    open spec fn peek(s: NesBusState, addr: u16) -> u8 {
        s.peek(addr)
    }

    open spec fn after_read(s: NesBusState, addr: u16) -> NesBusState {
        s.after_read(addr)
    }

    open spec fn after_write(s: NesBusState, addr: u16, data: u8) -> NesBusState {
        s.after_write(addr, data)
    }

    open spec fn ticked(pre: NesBusState, n: usize, post: NesBusState) -> bool {
        pre.ticked(n as nat, post)
    }

    open spec fn nmi_line(s: NesBusState) -> bool {
        s.ppu.nmi
    }

    open spec fn after_nmi_poll(s: NesBusState) -> NesBusState {
        NesBusState { ppu: PpuView { nmi: false, ..s.ppu }, ..s }
    }

    open spec fn irq_line(s: NesBusState) -> bool {
        s.cart.irq_line() || s.apu.frame_irq || s.apu.dmc.irq_flag
    }

    fn read(&mut self, addr: u16) -> (r: u8) {
        if addr < 0x2000 {
            self.ram[(addr % 0x800) as usize]
        } else if addr < 0x4000 {
            let r = addr % 8;
            if r == 2 {
                self.ppu.read_status()
            } else if r == 4 {
                self.ppu.read_oam_data()
            } else if r == 7 {
                self.ppu.read_data(&mut self.cart)
            } else {
                0x40
            }
        } else if addr == 0x4015 {
            self.apu.read_status()
        } else if addr == 0x4016 {
            self.controller.read()
        } else if addr < 0x4020 {
            0x40
        } else {
            self.cart.read(addr)
        }
    }

    fn write(&mut self, addr: u16, data: u8) {
        if addr < 0x2000 {
            self.ram.set((addr % 0x800) as usize, data);
        } else if addr < 0x4000 {
            self.write_ppu(addr % 8, data);
        } else if addr == 0x4014 {
            self.dma(data);
        } else if addr == 0x4016 {
            self.controller.write(data);
        } else if addr < 0x4018 {
            self.apu.write(addr, data);
        } else if addr < 0x4020 {
        } else {
            self.cart.write(addr, data);
        }
        proof {
            crate::apu::lemma_write_wf(old(self).apu.state, addr, data);
        }
    }

    fn tick(&mut self, cycles: usize) {
        self.apu.tick(cycles);
        run_cycles(&mut self.ppu, &mut self.cart, cycles);
        if cycles % 2 == 1 {
            self.odd_cycle = !self.odd_cycle;
        }
    }

    fn poll_nmi(&mut self) -> (r: bool) {
        let r = self.ppu.nmi;
        self.ppu.nmi = false;
        r
    }

    fn poll_irq(&self) -> (r: bool) {
        self.cart.poll_irq() || self.apu.irq_line()
    }
}

/// Runs the PPU for `cycles` CPU cycles (three dots each).
fn run_cycles(ppu: &mut PPU, cart: &mut Cartridge, cycles: usize)
    requires
        old(ppu)@.wf(),
        old(cart)@.wf(),
    ensures
        final(ppu)@.wf(),
        final(ppu)@.same_memory(old(ppu)@),
        final(ppu)@.dot() == (old(ppu)@.dot() + 3 * cycles) % 89342,
        timing(final(ppu)@) == timing(after_dots(old(ppu)@, 3 * cycles as nat)),
        reads_alike(final(cart)@, old(cart)@),
{
    let mut c: usize = 0;
    while c < cycles
        invariant
            c <= cycles,
            old(ppu)@.wf(),
            ppu@.wf(),
            ppu@.same_memory(old(ppu)@),
            ppu@.dot() == (old(ppu)@.dot() + 3 * c) % 89342,
            timing(ppu@) == timing(after_dots(old(ppu)@, 3 * c as nat)),
            reads_alike(cart@, old(cart)@),
        decreases cycles - c,
    {
        let ghost cart_before = cart@;
        let ghost before = ppu@;
        run_dots(ppu, cart, 3);
        proof {
            let mid = after_dots(old(ppu)@, 3 * c as nat);
            lemma_timing_congruent(old(ppu)@, old(ppu)@, 3 * c as nat);
            lemma_timing_congruent(before, mid, 3);
            lemma_after_dots_add(old(ppu)@, 3 * c as nat, 3);
            assert(3 * c as nat + 3 == 3 * (c + 1) as nat);
            lemma_reads_alike_trans(cart@, cart_before, old(cart)@);
            vstd::arithmetic::div_mod::lemma_add_mod_noop(old(ppu)@.dot() + 3 * c, 3, 89342);
            vstd::arithmetic::div_mod::lemma_small_mod(3, 89342);
            vstd::arithmetic::div_mod::lemma_mod_twice(old(ppu)@.dot() + 3 * c, 89342);
        }
        c = c + 1;
    }
    proof {
        if cycles == 0 {
            lemma_dot_bound(old(ppu)@);
        }
    }
}

/// Runs `dots` PPU dots, rendering each visible scanline as it completes.
fn run_dots(ppu: &mut PPU, cart: &mut Cartridge, dots: usize)
    requires
        old(ppu)@.wf(),
        old(cart)@.wf(),
    ensures
        final(ppu)@.wf(),
        final(ppu)@.same_memory(old(ppu)@),
        final(ppu)@.dot() == (old(ppu)@.dot() + dots) % 89342,
        timing(final(ppu)@) == timing(after_dots(old(ppu)@, dots as nat)),
        reads_alike(final(cart)@, old(cart)@),
{
    let mut d: usize = 0;
    while d < dots
        invariant
            d <= dots,
            old(ppu)@.wf(),
            ppu@.wf(),
            ppu@.same_memory(old(ppu)@),
            ppu@.dot() == (old(ppu)@.dot() + d) % 89342,
            timing(ppu@) == timing(after_dots(old(ppu)@, d as nat)),
            reads_alike(cart@, old(cart)@),
        decreases dots - d,
    {
        let ghost before = ppu@;
        proof {
            lemma_timing_congruent(old(ppu)@, old(ppu)@, d as nat);
            lemma_timing_congruent(before, after_dots(old(ppu)@, d as nat), 1);
            reveal_with_fuel(after_dots, 2);
            assert(after_dots(before, 1) == before.after_dot());
            lemma_after_dots_add(old(ppu)@, d as nat, 1);
            assert(after_dots(after_dots(old(ppu)@, d as nat), 1) == after_dots(old(ppu)@, (d + 1) as nat));
        }
        let done = ppu.tick();
        proof {
            lemma_dot_step(before, (old(ppu)@.dot() + d) as nat);
        }
        match done {
            Some(line) => {
                let ghost cart_before = cart@;
                let ghost p_before = ppu@;
                ppu.render_scanline(cart, line);
                proof {
                    lemma_reads_alike_trans(cart@, cart_before, old(cart)@);
                }
            },
            None => {},
        }
        d = d + 1;
    }
    proof {
        if dots == 0 {
            lemma_dot_bound(old(ppu)@);
        }
    }
}

proof fn lemma_dot_bound(p: PpuView)
    requires
        p.wf(),
    ensures
        p.dot() % 89342 == p.dot(),
{
    vstd::arithmetic::div_mod::lemma_small_mod(p.dot() as nat, 89342);
}

/// One PPU dot moves the frame position on by one.
proof fn lemma_dot_step(p: PpuView, k: nat)
    requires
        p.wf(),
        p.dot() == k % 89342,
    ensures
        p.after_dot().dot() == (k + 1) % 89342,
        p.after_dot().wf(),
        p.after_dot().same_memory(p),
{
    let d = p.dot();
    assert(0 <= d < 89342);
    vstd::arithmetic::div_mod::lemma_add_mod_noop(k as int, 1, 89342);
    vstd::arithmetic::div_mod::lemma_small_mod(1, 89342);
    if d + 1 < 89342 {
        vstd::arithmetic::div_mod::lemma_small_mod((d + 1) as nat, 89342);
    }
}

proof fn lemma_reads_alike_trans(a: MapperView, b: MapperView, c: MapperView)
    requires
        reads_alike(a, b),
        reads_alike(b, c),
    ensures
        reads_alike(a, c),
{
    assert forall|x: u16| #[trigger] a.peek(x) == c.peek(x) by {
        assert(a.peek(x) == b.peek(x));
    }
}

impl NesBus {
    /// A bus around `cart`, with cleared RAM and devices at power-on.
    pub fn new(cart: Cartridge) -> (b: NesBus)
        requires
            cart@.wf(),
        ensures
            b.state().wf(),
            b.state().ram == Seq::new(2048, |i: int| 0u8),
            b.state().cart == cart@,
            b.state().controller == (Controller { state: 0, shift: 0, strobe: false }),
            b.ppu.scanline == 241 && b.ppu.cycle == 1,
            b.dma_stall == 0,
    {
        let ram = vec![0u8; 2048];
        let b = NesBus {
            ram,
            cart,
            ppu: PPU::new(),
            apu: APU::new(),
            controller: Controller::new(),
            dma_stall: 0,
            odd_cycle: false,
        };
        assert(b.ram@ =~= Seq::new(2048, |i: int| 0u8));
        b
    }

    /// True once the PPU has entered vblank since the flag was last cleared.
    pub fn frame_ready(&self) -> (r: bool)
        ensures
            r == self.ppu.frame_ready,
    {
        self.ppu.frame_ready
    }

    /// Clears the frame-ready flag after the frame has been taken.
    pub fn clear_frame_ready(&mut self)
        ensures
            final(self).state() == (NesBusState {
                ppu: PpuView { frame_ready: false, ..old(self).state().ppu },
                ..old(self).state()
            }),
    {
        self.ppu.frame_ready = false;
    }

    /// Takes the CPU cycles that an OAM DMA stole.
    pub fn take_dma_stall(&mut self) -> (r: usize)
        ensures
            r == old(self).dma_stall,
            final(self).state() == (NesBusState { dma_stall: 0, ..old(self).state() }),
    {
        let r = self.dma_stall;
        self.dma_stall = 0;
        r
    }

    fn write_ppu(&mut self, r: u16, data: u8)
        requires
            old(self).state().wf(),
        ensures
            final(self).state() == old(self).state().after_ppu_write(r, data),
            final(self).state().wf(),
    {
        if r == 0 {
            self.ppu.write_ctrl(data);
        } else if r == 1 {
            self.ppu.write_mask(data);
        } else if r == 3 {
            self.ppu.write_oam_addr(data);
        } else if r == 4 {
            self.ppu.write_oam_data(data);
        } else if r == 5 {
            self.ppu.write_scroll(data);
        } else if r == 6 {
            self.ppu.write_addr(data);
        } else if r == 7 {
            self.ppu.write_data(&mut self.cart, data);
        }
    }

    /// OAM DMA from page `page`: 256 bytes of RAM into OAM, and 513 or 514
    /// stolen cycles.
    fn dma(&mut self, page: u8)
        requires
            old(self).state().wf(),
        ensures
            final(self).state() == old(self).state().after_write(0x4014, page),
            final(self).state().wf(),
    {
        let mut bytes: Vec<u8> = Vec::with_capacity(256);
        let base = page as usize * 256;
        let mut i: usize = 0;
        while i < 256
            invariant
                i <= 256,
                base == page as int * 256,
                self.ram@.len() == 2048,
                self.cart@.wf(),
                bytes@ == dma_page(self.ram@, self.cart@, page).subrange(0, i as int),
            decreases 256 - i,
        {
            let b = if page < 0x20 {
                self.ram[(base + i) % 2048]
            } else if page >= 0x60 {
                self.cart.read((base + i) as u16)
            } else {
                0x40
            };
            bytes.push(b);
            i = i + 1;
            assert(bytes@ =~= dma_page(self.ram@, self.cart@, page).subrange(0, i as int));
        }
        assert(bytes@ =~= dma_page(self.ram@, self.cart@, page));
        self.ppu.oam_dma(&bytes);
        self.dma_stall = if self.odd_cycle {
            514
        } else {
            513
        };
    }
}

/// OAM DMA round trip: after a write of RAM page `p` to $4014, pointing
/// OAMADDR ($2003) at the i-th byte copied and reading OAMDATA ($2004) gives
/// RAM byte $pp00 + i.
pub proof fn lemma_dma_round_trip(s: NesBusState, p: u8, i: int)
    requires
        s.wf(),
        p < 0x20,
        0 <= i < 256,
    ensures
        ({
            let t = s.after_write(0x4014, p);
            let a = ((s.ppu.oam_addr + i) % 256) as u8;
            t.after_write(0x2003, a).peek(0x2004) == s.ram[(p as int * 256 + i) % 2048]
        }),
{
    crate::ppu::lemma_dma_then_oam(s.ppu, dma_page(s.ram, s.cart, p), i);
}

/// A write to PPUSCROLL or PPUADDR (at any of their mirrors) flips the write
/// toggle; the next read of PPUSTATUS clears it.
pub proof fn lemma_status_read_resets_toggle(s: NesBusState, addr: u16, data: u8)
    requires
        0x2000 <= addr < 0x4000,
        addr % 8 == 5 || addr % 8 == 6,
    ensures
        s.after_write(addr, data).ppu.write_toggle == !s.ppu.write_toggle,
        !s.after_write(addr, data).after_read(0x2002).ppu.write_toggle,
{
}

} // verus!

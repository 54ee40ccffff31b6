//! The console: a CPU on the console bus, driven a frame at a time.
use vstd::prelude::*;
use crate::apu::Sample;
use crate::bus::{Bus, NesBus};
use crate::cartridge::{Cartridge, LoadError, ines_board, ines_complete, ines_header_ok, ines_mapper_id, ines_supported};
use crate::cpu::{word, CpuState, CPU};

verus! {

/// Most instructions a frame may run before the frame is handed out anyway
/// (a frame is about 29781 CPU cycles, at least 2 per instruction).
pub const MAX_STEPS_PER_FRAME: usize = 40000;

/// Most CPU cycles one pass of the frame loop can take: a DMC fetch (4), an
/// interrupt and an instruction, and an OAM DMA (514).
pub const MAX_CYCLES_PER_STEP: usize = 650;

/// Cycle headroom that `step_frame` needs.
pub const FRAME_HEADROOM: usize = 26000000;

/// What one frame produced: 256x240 pixels (0xRRGGBB, row by row) and the
/// audio samples as mixer inputs.
pub struct FrameOutput {
    pub video: Vec<u32>,
    pub audio: Vec<Sample>,
    /// The PPU entered vblank (rather than the CPU jamming or the step limit
    /// being reached).
    pub frame_complete: bool,
    /// Instructions run for this frame.
    pub steps: usize,
}

pub struct Nes {
    pub cpu: CPU<NesBus>,
}

impl Nes {
    pub open spec fn wf(&self) -> bool {
        self.cpu.bus_ok()
    }

    /// Loads an iNES image and resets the console.
    pub fn new(rom: &[u8]) -> (r: Result<Nes, LoadError>)
        ensures
            !ines_header_ok(rom@) ==> r == Err::<Nes, LoadError>(LoadError::BadHeader),
            ines_header_ok(rom@) && !ines_supported(ines_mapper_id(rom@)) ==> r == Err::<
                Nes,
                LoadError,
            >(LoadError::UnsupportedMapper(ines_mapper_id(rom@))),
            ines_header_ok(rom@) && ines_supported(ines_mapper_id(rom@)) && !ines_complete(rom@)
                ==> r == Err::<Nes, LoadError>(LoadError::Truncated),
            ines_header_ok(rom@) && ines_supported(ines_mapper_id(rom@)) && ines_complete(rom@)
                ==> r is Ok && r->Ok_0.wf() && r->Ok_0.cpu.bus.cart@ == ines_board(rom@)
                && r->Ok_0.cpu.cycles == 7 && !r->Ok_0.cpu.halted && r->Ok_0.cpu.sp == 0xFD
                && r->Ok_0.cpu.status == 0x24 && r->Ok_0.cpu.a == 0 && r->Ok_0.cpu.x == 0
                && r->Ok_0.cpu.y == 0 && r->Ok_0.cpu.pc == word(
                ines_board(rom@).peek(0xFFFC),
                ines_board(rom@).peek(0xFFFD),
            ),
    {
        match Cartridge::from_bytes(rom) {
            Err(e) => Err(e),
            Ok(cart) => {
                let bus = NesBus::new(cart);
                let mut cpu = CPU {
                    a: 0,
                    x: 0,
                    y: 0,
                    sp: 0xFD,
                    pc: 0,
                    status: 0x24,
                    cycles: 0,
                    bus,
                    halted: false,
                };
                proof {
                    assert(0x04u8 | 0x20u8 == 0x24u8) by (bit_vector);
                }
                cpu.reset();
                Ok(Nes { cpu })
            },
        }
    }

    /// Reset: the CPU reloads PC from $FFFC/$FFFD (see `CPU::reset`).
    pub fn reset(&mut self)
        requires
            old(self).wf(),
        ensures
            final(self).wf(),
            ({
                let (lo, t) = CPU::<NesBus>::rd(old(self).cpu.model(), 0xFFFC);
                let (hi, u) = CPU::<NesBus>::rd(t, 0xFFFD);
                final(self).cpu.model() == (CpuState {
                    pc: word(lo, hi),
                    sp: 0xFD,
                    status: 0x24,
                    a: 0,
                    x: 0,
                    y: 0,
                    halted: false,
                    cycles: 7,
                    ..u
                })
            }),
    {
        proof {
            assert(0x04u8 | 0x20u8 == 0x24u8) by (bit_vector);
        }
        self.cpu.reset();
    }

    /// Sets the buttons of controller 1: bits A, B, Select, Start, Up, Down,
    /// Left, Right from bit 0.
    pub fn set_buttons(&mut self, mask: u8)
        ensures
            final(self).cpu.bus.controller.state == mask,
            final(self).cpu.bus.state() == (crate::bus::NesBusState {
                controller: crate::controller::Controller {
                    state: mask,
                    ..old(self).cpu.bus.controller
                },
                ..old(self).cpu.bus.state()
            }),
            final(self).cpu.model() == (crate::cpu::CpuState { bus: final(self).cpu.bus.state(), ..old(self).cpu.model() }),
    {
        self.cpu.bus.controller.set_buttons(mask);
    }

    /// Whether the CPU has jammed.
    pub fn halted(&self) -> (r: bool)
        ensures
            r == self.cpu.halted,
    {
        self.cpu.halted
    }

    /// Feeds the DMC the byte it is waiting for, stalling the CPU 4 cycles.
    fn service_dmc(&mut self)
        requires
            old(self).wf(),
            old(self).cpu.cycles + 4 <= usize::MAX,
        ensures
            final(self).wf(),
            old(self).cpu.cycles <= final(self).cpu.cycles <= old(self).cpu.cycles + 4,
            final(self).cpu.halted == old(self).cpu.halted,
    {
        match self.cpu.bus.apu.dmc_wants_fetch() {
            Some(addr) => {
                self.cpu.cycles = self.cpu.cycles + 4;
                self.cpu.bus.tick(4);
                let byte = self.cpu.bus.read(addr);
                self.cpu.bus.apu.dmc_feed_byte(byte);
            },
            None => {},
        }
    }

    /// Clocks the cycles that an OAM DMA stole.
    fn service_dma(&mut self)
        requires
            old(self).wf(),
            old(self).cpu.cycles + 514 <= usize::MAX,
        ensures
            final(self).wf(),
            old(self).cpu.cycles <= final(self).cpu.cycles <= old(self).cpu.cycles + 514,
            final(self).cpu.halted == old(self).cpu.halted,
    {
        let stall = self.cpu.bus.take_dma_stall();
        self.cpu.cycles = self.cpu.cycles + stall;
        self.cpu.bus.tick(stall);
    }

    /// Runs the CPU until the PPU enters vblank (or the CPU jams), then hands
    /// out the picture and the samples produced since the last frame.
    pub fn step_frame(&mut self) -> (out: FrameOutput)
        requires
            old(self).wf(),
            old(self).cpu.cycles + FRAME_HEADROOM <= usize::MAX,
        ensures
            final(self).wf(),
            out.video@ == final(self).cpu.bus.ppu.framebuffer@,
            out.video@.len() == 61440,
            !final(self).cpu.bus.ppu.frame_ready,
            final(self).cpu.bus.apu.sample_buffer@.len() == 0,
            final(self).cpu.cycles >= old(self).cpu.cycles,
            old(self).cpu.halted ==> final(self).cpu.cycles == old(self).cpu.cycles,
            out.frame_complete || final(self).cpu.halted || out.steps == MAX_STEPS_PER_FRAME,
            out.steps <= MAX_STEPS_PER_FRAME,
            !old(self).cpu.halted && !old(self).cpu.bus.ppu.frame_ready ==> out.steps >= 1 && (
            final(self).cpu.halted || final(self).cpu.cycles >= old(self).cpu.cycles + 2),
    {
        let start = self.cpu.cycles;
        let mut steps: usize = 0;
        while steps < MAX_STEPS_PER_FRAME && !self.cpu.bus.frame_ready() && !self.cpu.halted
            invariant
                self.wf(),
                steps <= MAX_STEPS_PER_FRAME,
                start + FRAME_HEADROOM <= usize::MAX,
                start <= self.cpu.cycles <= start + steps * MAX_CYCLES_PER_STEP,
                old(self).cpu.halted ==> self.cpu.halted && self.cpu.cycles == start,
                steps == 0 ==> self.cpu.bus.ppu.frame_ready == old(self).cpu.bus.ppu.frame_ready
                    && self.cpu.halted == old(self).cpu.halted,
                steps > 0 ==> self.cpu.halted || self.cpu.cycles >= start + 2,
            decreases MAX_STEPS_PER_FRAME - steps,
        {
            proof {
                assert(steps * MAX_CYCLES_PER_STEP <= 40000 * 650) by (nonlinear_arith)
                    requires steps <= 40000;
            }
            self.service_dmc();
            self.cpu.step();
            self.service_dma();
            steps = steps + 1;
        }
        let frame_complete = self.cpu.bus.frame_ready();
        self.cpu.bus.clear_frame_ready();
        let video = self.cpu.bus.ppu.framebuffer.clone();
        let audio = self.cpu.bus.apu.drain_samples();
        FrameOutput { video, audio, frame_complete, steps }
    }
}

} // verus!

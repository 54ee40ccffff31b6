//! The 6502 core of the 2A03: official and common undocumented opcodes,
//! NMI and IRQ, with exact cycle counts.
use vstd::prelude::*;
use vstd::wrapping::{u16_specs, u8_specs};
use crate::bus::Bus;
use crate::flags::{
    FLAG_BREAK, FLAG_CARRY, FLAG_DECIMAL, FLAG_INTERRUPT_DISABLE, FLAG_NEGATIVE, FLAG_OVERFLOW,
    FLAG_UNUSED, FLAG_ZERO,
};

verus! {

/// How an instruction finds its operand.
#[derive(Clone, Copy, Debug, PartialEq, Eq, Structural)]
pub enum Mode {
    Immediate,
    ZeroPage,
    ZeroPageX,
    ZeroPageY,
    Absolute,
    AbsoluteX,
    AbsoluteY,
    IndirectX,
    IndirectY,
}

/// The register that a load fills.
#[derive(Clone, Copy, Debug, PartialEq, Eq, Structural)]
pub enum Reg {
    A,
    X,
    Y,
    /// A and X together (LAX).
    AX,
}

/// Bitwise operations into A.
#[derive(Clone, Copy, Debug, PartialEq, Eq, Structural)]
pub enum Logic {
    And,
    Ora,
    Eor,
}

/// Shifts and rotates through the carry.
#[derive(Clone, Copy, Debug, PartialEq, Eq, Structural)]
pub enum Shift {
    Asl,
    Lsr,
    Rol,
    Ror,
}

/// Read-modify-write operations on memory; the last six are undocumented
/// combinations (SLO = ASL + ORA, SRE = LSR + EOR, RLA = ROL + AND,
/// RRA = ROR + ADC, DCP = DEC + CMP, ISC = INC + SBC).
#[derive(Clone, Copy, Debug, PartialEq, Eq, Structural)]
pub enum Rmw {
    Asl,
    Lsr,
    Rol,
    Ror,
    Dec,
    Inc,
    Slo,
    Sre,
    Rla,
    Rra,
    Dcp,
    Isc,
}

/// Undocumented immediate-mode opcodes.
#[derive(Clone, Copy, Debug, PartialEq, Eq, Structural)]
pub enum Imm {
    /// A AND M, C from bit 7.
    Anc,
    /// A AND M, then LSR A.
    Alr,
    /// A AND M, then ROR A, with C from bit 6 and V from bit 6 XOR bit 5.
    Arr,
    /// X = (A AND X) - M, C as in CMP.
    Axs,
    /// A = X AND M (the unstable "magic" constant taken as $FF).
    Xaa,
    /// A = X = M (the unstable "magic" constant taken as $FF).
    Lxa,
}

/// Headroom that a step needs in the cycle counter.
pub const CYCLE_HEADROOM: usize = 64;

/// The CPU with its bus. `cycles` counts CPU cycles since power-on.
pub struct CPU<B: Bus> {
    pub a: u8,
    pub x: u8,
    pub y: u8,
    pub sp: u8,
    pub pc: u16,
    pub status: u8,
    pub cycles: usize,
    pub bus: B,
    pub halted: bool,
}

/// The CPU's registers and its bus's state, as values.
pub struct CpuState<S> {
    pub a: u8,
    pub x: u8,
    pub y: u8,
    pub sp: u8,
    pub pc: u16,
    pub status: u8,
    pub cycles: int,
    pub halted: bool,
    pub bus: S,
}

/// `p` with flag bits `f` set when `on`, cleared otherwise.
pub open spec fn with_flag(p: u8, f: u8, on: bool) -> u8 {
    if on {
        p | f
    } else {
        p & !f
    }
}

/// `p` with Z and N set from `v`.
pub open spec fn with_zn(p: u8, v: u8) -> u8 {
    with_flag(with_flag(p, FLAG_ZERO, v == 0), FLAG_NEGATIVE, v & 0x80 != 0)
}

pub open spec fn carry_in(p: u8) -> u8 {
    if p & FLAG_CARRY != 0 {
        1
    } else {
        0
    }
}

/// A + M + C: the result byte and the new status (C, V, Z, N).
pub open spec fn adc_result(a: u8, m: u8, p: u8) -> (u8, u8) {
    let sum = a as int + m as int + carry_in(p) as int;
    let r = (sum % 256) as u8;
    let with_c = with_flag(p, FLAG_CARRY, sum > 255);
    let with_v = with_flag(with_c, FLAG_OVERFLOW, (!(a ^ m) & (a ^ r) & 0x80) != 0);
    (r, with_zn(with_v, r))
}

/// The flags after comparing register value `reg` with `m`.
pub open spec fn compare_result(reg: u8, m: u8, p: u8) -> u8 {
    with_zn(with_flag(p, FLAG_CARRY, reg >= m), u8_specs::wrapping_sub(reg, m))
}

/// Whether `a` and `b` lie on different 256-byte pages.
pub open spec fn page_crossed(a: u16, b: u16) -> bool {
    a & 0xFF00 != b & 0xFF00
}

pub open spec fn word(lo: u8, hi: u8) -> u16 {
    ((hi as u16) << 8) | lo as u16
}

impl<B: Bus> CPU<B> {
    pub open spec fn model(&self) -> CpuState<B::State> {
        CpuState {
            a: self.a,
            x: self.x,
            y: self.y,
            sp: self.sp,
            pc: self.pc,
            status: self.status,
            cycles: self.cycles as int,
            halted: self.halted,
            bus: self.bus.state(),
        }
    }

    pub open spec fn bus_ok(&self) -> bool {
        B::wf(self.bus.state())
    }

    /// A read of `addr`: the value and the state after it.
    pub open spec fn rd(s: CpuState<B::State>, addr: u16) -> (u8, CpuState<B::State>) {
        (B::peek(s.bus, addr), CpuState { bus: B::after_read(s.bus, addr), ..s })
    }

    pub open spec fn wr(s: CpuState<B::State>, addr: u16, v: u8) -> CpuState<B::State> {
        CpuState { bus: B::after_write(s.bus, addr, v), ..s }
    }

    /// The byte at PC, and PC moved past it.
    pub open spec fn fetched(s: CpuState<B::State>) -> (u8, CpuState<B::State>) {
        let (b, t) = Self::rd(s, s.pc);
        (b, CpuState { pc: u16_specs::wrapping_add(s.pc, 1), ..t })
    }

    /// The little-endian word at PC, and PC moved past it.
    pub open spec fn fetched_word(s: CpuState<B::State>) -> (u16, CpuState<B::State>) {
        let (lo, t) = Self::fetched(s);
        let (hi, u) = Self::fetched(t);
        (word(lo, hi), u)
    }

    /// A push onto the stack page $0100-$01FF.
    pub open spec fn pushed(s: CpuState<B::State>, v: u8) -> CpuState<B::State> {
        let t = Self::wr(s, 0x100 | s.sp as u16, v);
        CpuState { sp: u8_specs::wrapping_sub(s.sp, 1), ..t }
    }

    pub open spec fn popped(s: CpuState<B::State>) -> (u8, CpuState<B::State>) {
        let sp = u8_specs::wrapping_add(s.sp, 1);
        Self::rd(CpuState { sp, ..s }, 0x100 | sp as u16)
    }

    /// The effective address for `mode`, whether indexing crossed a page, and
    /// the state after the operand bytes (and any pointer) were read. Zero
    /// page indexing and pointers wrap within page zero.
    pub open spec fn operand(s: CpuState<B::State>, mode: Mode) -> (u16, bool, CpuState<B::State>) {
        match mode {
            Mode::Immediate => (s.pc, false, CpuState { pc: u16_specs::wrapping_add(s.pc, 1), ..s }),
            Mode::ZeroPage => {
                let (b, t) = Self::fetched(s);
                (b as u16, false, t)
            },
            Mode::ZeroPageX => {
                let (b, t) = Self::fetched(s);
                (u8_specs::wrapping_add(b, s.x) as u16, false, t)
            },
            Mode::ZeroPageY => {
                let (b, t) = Self::fetched(s);
                (u8_specs::wrapping_add(b, s.y) as u16, false, t)
            },
            Mode::Absolute => {
                let (w, t) = Self::fetched_word(s);
                (w, false, t)
            },
            Mode::AbsoluteX => {
                let (w, t) = Self::fetched_word(s);
                let e = u16_specs::wrapping_add(w, s.x as u16);
                (e, page_crossed(w, e), t)
            },
            Mode::AbsoluteY => {
                let (w, t) = Self::fetched_word(s);
                let e = u16_specs::wrapping_add(w, s.y as u16);
                (e, page_crossed(w, e), t)
            },
            Mode::IndirectX => {
                let (b, t) = Self::fetched(s);
                let p = u8_specs::wrapping_add(b, s.x);
                let (lo, u) = Self::rd(t, p as u16);
                let (hi, v) = Self::rd(u, u8_specs::wrapping_add(p, 1) as u16);
                (word(lo, hi), false, v)
            },
            Mode::IndirectY => {
                let (b, t) = Self::fetched(s);
                let (lo, u) = Self::rd(t, b as u16);
                let (hi, v) = Self::rd(u, u8_specs::wrapping_add(b, 1) as u16);
                let base = word(lo, hi);
                let e = u16_specs::wrapping_add(base, s.y as u16);
                (e, page_crossed(base, e), v)
            },
        }
    }

    /// The operand value for `mode`, whether indexing crossed a page, and the
    /// state after the read.
    pub open spec fn operand_value(s: CpuState<B::State>, mode: Mode) -> (u8, bool, CpuState<B::State>) {
        let (addr, c, t) = Self::operand(s, mode);
        let (v, u) = Self::rd(t, addr);
        (v, c, u)
    }

    /// One more cycle when a read's indexing crossed a page.
    pub open spec fn penalty(c: bool) -> int {
        if c {
            1
        } else {
            0
        }
    }

    pub open spec fn after_load(s: CpuState<B::State>, mode: Mode, base: int, reg: Reg) -> CpuState<B::State> {
        let (v, c, t) = Self::operand_value(s, mode);
        let u = CpuState { status: with_zn(t.status, v), cycles: t.cycles + base + Self::penalty(c), ..t };
        match reg {
            Reg::A => CpuState { a: v, ..u },
            Reg::X => CpuState { x: v, ..u },
            Reg::Y => CpuState { y: v, ..u },
            Reg::AX => CpuState { a: v, x: v, ..u },
        }
    }

    pub open spec fn after_store(s: CpuState<B::State>, mode: Mode, base: int, v: u8) -> CpuState<B::State> {
        let (addr, c, t) = Self::operand(s, mode);
        let u = Self::wr(t, addr, v);
        CpuState { cycles: u.cycles + base, ..u }
    }

    /// AND, ORA or EOR into A.
    pub open spec fn after_logic(s: CpuState<B::State>, mode: Mode, base: int, op: Logic) -> CpuState<B::State> {
        let (v, c, t) = Self::operand_value(s, mode);
        let r = match op {
            Logic::And => t.a & v,
            Logic::Ora => t.a | v,
            Logic::Eor => t.a ^ v,
        };
        CpuState { a: r, status: with_zn(t.status, r), cycles: t.cycles + base + Self::penalty(c), ..t }
    }

    /// ADC, or SBC when `invert` (the operand complemented).
    pub open spec fn after_add(s: CpuState<B::State>, mode: Mode, base: int, invert: bool) -> CpuState<B::State> {
        let (v, c, t) = Self::operand_value(s, mode);
        let m = if invert { v ^ 0xFF } else { v };
        let (r, p) = adc_result(t.a, m, t.status);
        CpuState { a: r, status: p, cycles: t.cycles + base + Self::penalty(c), ..t }
    }

    /// CMP, CPX or CPY of `reg` against the operand.
    pub open spec fn after_compare(s: CpuState<B::State>, mode: Mode, base: int, reg: u8) -> CpuState<B::State> {
        let (v, c, t) = Self::operand_value(s, mode);
        CpuState { status: compare_result(reg, v, t.status), cycles: t.cycles + base + Self::penalty(c), ..t }
    }

    pub open spec fn after_bit(s: CpuState<B::State>, mode: Mode, base: int) -> CpuState<B::State> {
        let (v, c, t) = Self::operand_value(s, mode);
        let with_z = with_flag(t.status, FLAG_ZERO, t.a & v == 0);
        let with_n = with_flag(with_z, FLAG_NEGATIVE, v & 0x80 != 0);
        let with_v = with_flag(with_n, FLAG_OVERFLOW, v & 0x40 != 0);
        CpuState { status: with_v, cycles: t.cycles + base, ..t }
    }

    pub open spec fn after_nop_read(s: CpuState<B::State>, mode: Mode, base: int) -> CpuState<B::State> {
        let (v, c, t) = Self::operand_value(s, mode);
        CpuState { cycles: t.cycles + base + Self::penalty(c), ..t }
    }
}

/// A shift or rotate of `v` through the carry: the result, and the status
/// with C, Z and N set from it.
pub open spec fn shift_result(op: Shift, v: u8, p: u8) -> (u8, u8) {
    let c = carry_in(p);
    let (r, out) = match op {
        Shift::Asl => (v << 1, v & 0x80 != 0),
        Shift::Lsr => (v >> 1, v & 1 != 0),
        Shift::Rol => ((v << 1) | c, v & 0x80 != 0),
        Shift::Ror => ((v >> 1) | (c << 7), v & 1 != 0),
    };
    (r, with_zn(with_flag(p, FLAG_CARRY, out), r))
}

/// A read-modify-write of memory value `v`: the value written back, and A
/// and P after.
pub open spec fn rmw_result(op: Rmw, v: u8, a: u8, p: u8) -> (u8, u8, u8) {
    match op {
        Rmw::Asl => { let (r, q) = shift_result(Shift::Asl, v, p); (r, a, q) },
        Rmw::Lsr => { let (r, q) = shift_result(Shift::Lsr, v, p); (r, a, q) },
        Rmw::Rol => { let (r, q) = shift_result(Shift::Rol, v, p); (r, a, q) },
        Rmw::Ror => { let (r, q) = shift_result(Shift::Ror, v, p); (r, a, q) },
        Rmw::Dec => {
            let r = u8_specs::wrapping_sub(v, 1);
            (r, a, with_zn(p, r))
        },
        Rmw::Inc => {
            let r = u8_specs::wrapping_add(v, 1);
            (r, a, with_zn(p, r))
        },
        Rmw::Slo => {
            let (r, q) = shift_result(Shift::Asl, v, p);
            (r, a | r, with_zn(q, a | r))
        },
        Rmw::Sre => {
            let (r, q) = shift_result(Shift::Lsr, v, p);
            (r, a ^ r, with_zn(q, a ^ r))
        },
        Rmw::Rla => {
            let (r, q) = shift_result(Shift::Rol, v, p);
            (r, a & r, with_zn(q, a & r))
        },
        Rmw::Rra => {
            let (r, q) = shift_result(Shift::Ror, v, p);
            let (sum, q2) = adc_result(a, r, q);
            (r, sum, q2)
        },
        Rmw::Dcp => {
            let r = u8_specs::wrapping_sub(v, 1);
            (r, a, compare_result(a, r, p))
        },
        Rmw::Isc => {
            let r = u8_specs::wrapping_add(v, 1);
            let (sum, q) = adc_result(a, r ^ 0xFF, p);
            (r, sum, q)
        },
    }
}

impl<B: Bus> CPU<B> {
    pub open spec fn after_rmw(s: CpuState<B::State>, mode: Mode, base: int, op: Rmw) -> CpuState<B::State> {
        let (addr, c, t) = Self::operand(s, mode);
        let (v, u) = Self::rd(t, addr);
        let (r, a, p) = rmw_result(op, v, u.a, u.status);
        let w = Self::wr(u, addr, r);
        CpuState { a, status: p, cycles: w.cycles + base, ..w }
    }

    pub open spec fn after_shift_a(s: CpuState<B::State>, op: Shift) -> CpuState<B::State> {
        let (r, p) = shift_result(op, s.a, s.status);
        CpuState { a: r, status: p, cycles: s.cycles + 2, ..s }
    }

    /// A relative branch, taken when `cond`: two cycles, one more when taken,
    /// and one more again when the target is on another page.
    pub open spec fn after_branch(s: CpuState<B::State>, cond: bool) -> CpuState<B::State> {
        let (off, t) = Self::fetched(s);
        let target = if off < 128 {
            u16_specs::wrapping_add(t.pc, off as u16)
        } else {
            u16_specs::wrapping_sub(t.pc, (256 - off) as u16)
        };
        if cond {
            CpuState {
                pc: target,
                cycles: t.cycles + 3 + Self::penalty(page_crossed(t.pc, target)),
                ..t
            }
        } else {
            CpuState { cycles: t.cycles + 2, ..t }
        }
    }

    /// Pushes PC and `p`, sets I, and loads PC from the vector at `vector`.
    pub open spec fn after_interrupt(s: CpuState<B::State>, vector: u16, p: u8) -> CpuState<B::State> {
        let t1 = Self::pushed(s, (s.pc / 256) as u8);
        let t2 = Self::pushed(t1, (s.pc % 256) as u8);
        let t3 = Self::pushed(t2, p);
        let t4 = CpuState { status: t3.status | FLAG_INTERRUPT_DISABLE, ..t3 };
        let (lo, t5) = Self::rd(t4, vector);
        let (hi, t6) = Self::rd(t5, (vector + 1) as u16);
        CpuState { pc: word(lo, hi), cycles: t6.cycles + 7, ..t6 }
    }

    pub open spec fn after_nmi(s: CpuState<B::State>) -> CpuState<B::State> {
        Self::after_interrupt(s, 0xFFFA, (s.status & !FLAG_BREAK) | FLAG_UNUSED)
    }

    pub open spec fn after_irq(s: CpuState<B::State>) -> CpuState<B::State> {
        Self::after_interrupt(s, 0xFFFE, (s.status & !FLAG_BREAK) | FLAG_UNUSED)
    }

    /// BRK skips its padding byte and pushes P with B set.
    pub open spec fn after_brk(s: CpuState<B::State>) -> CpuState<B::State> {
        let t = CpuState { pc: u16_specs::wrapping_add(s.pc, 1), ..s };
        Self::after_interrupt(t, 0xFFFE, s.status | FLAG_BREAK | FLAG_UNUSED)
    }

    pub open spec fn after_jsr(s: CpuState<B::State>) -> CpuState<B::State> {
        let (w, t) = Self::fetched_word(s);
        let ret = u16_specs::wrapping_sub(t.pc, 1);
        let u = Self::pushed(t, (ret / 256) as u8);
        let v = Self::pushed(u, (ret % 256) as u8);
        CpuState { pc: w, cycles: v.cycles + 6, ..v }
    }

    pub open spec fn after_rts(s: CpuState<B::State>) -> CpuState<B::State> {
        let (lo, t) = Self::popped(s);
        let (hi, u) = Self::popped(t);
        CpuState { pc: u16_specs::wrapping_add(word(lo, hi), 1), cycles: u.cycles + 6, ..u }
    }

    pub open spec fn after_rti(s: CpuState<B::State>) -> CpuState<B::State> {
        let (p, t) = Self::popped(s);
        let (lo, u) = Self::popped(t);
        let (hi, v) = Self::popped(u);
        CpuState {
            status: (p & !FLAG_BREAK) | FLAG_UNUSED,
            pc: word(lo, hi),
            cycles: v.cycles + 6,
            ..v
        }
    }

    pub open spec fn after_jmp_absolute(s: CpuState<B::State>) -> CpuState<B::State> {
        let (w, t) = Self::fetched_word(s);
        CpuState { pc: w, cycles: t.cycles + 3, ..t }
    }

    /// JMP ($xxyy): the high byte comes from $xx(yy+1), wrapping within the
    /// page.
    pub open spec fn after_jmp_indirect(s: CpuState<B::State>) -> CpuState<B::State> {
        let (w, t) = Self::fetched_word(s);
        let (lo, u) = Self::rd(t, w);
        let (hi, v) = Self::rd(u, (w & 0xFF00) | (u16_specs::wrapping_add(w, 1) & 0x00FF));
        CpuState { pc: word(lo, hi), cycles: v.cycles + 5, ..v }
    }

    /// The undocumented immediate-mode opcodes.
    pub open spec fn after_unofficial_imm(s: CpuState<B::State>, op: Imm) -> CpuState<B::State> {
        let (v, t) = Self::fetched(s);
        let c = t.cycles + 2;
        match op {
            Imm::Anc => {
                let r = t.a & v;
                CpuState { a: r, status: with_flag(with_zn(t.status, r), FLAG_CARRY, r & 0x80 != 0), cycles: c, ..t }
            },
            Imm::Alr => {
                let m = t.a & v;
                let r = m >> 1;
                CpuState { a: r, status: with_zn(with_flag(t.status, FLAG_CARRY, m & 1 != 0), r), cycles: c, ..t }
            },
            Imm::Arr => {
                let r = ((t.a & v) >> 1) | (carry_in(t.status) << 7);
                let st1 = with_flag(with_zn(t.status, r), FLAG_CARRY, r & 0x40 != 0);
                let st2 = with_flag(st1, FLAG_OVERFLOW, ((r >> 6) ^ (r >> 5)) & 1 != 0);
                CpuState { a: r, status: st2, cycles: c, ..t }
            },
            Imm::Axs => {
                let m = t.a & t.x;
                let r = u8_specs::wrapping_sub(m, v);
                CpuState { x: r, status: with_zn(with_flag(t.status, FLAG_CARRY, m >= v), r), cycles: c, ..t }
            },
            Imm::Xaa => {
                let r = t.x & v;
                CpuState { a: r, status: with_zn(t.status, r), cycles: c, ..t }
            },
            Imm::Lxa => CpuState { a: v, x: v, status: with_zn(t.status, v), cycles: c, ..t },
        }
    }
}

impl<B: Bus> CPU<B> {
    /// The effect of executing opcode `op` (already fetched) on state `s`.
    /// Opcodes that halt the 6502, and the unstable undocumented stores and
    /// LAS, jam it.
    pub open spec fn executed(s: CpuState<B::State>, op: u8) -> CpuState<B::State> {
        let row = op / 16;
        if row == 0 {
            Self::executed_row_0(s, op)
        } else if row == 1 {
            Self::executed_row_1(s, op)
        } else if row == 2 {
            Self::executed_row_2(s, op)
        } else if row == 3 {
            Self::executed_row_3(s, op)
        } else if row == 4 {
            Self::executed_row_4(s, op)
        } else if row == 5 {
            Self::executed_row_5(s, op)
        } else if row == 6 {
            Self::executed_row_6(s, op)
        } else if row == 7 {
            Self::executed_row_7(s, op)
        } else if row == 8 {
            Self::executed_row_8(s, op)
        } else if row == 9 {
            Self::executed_row_9(s, op)
        } else if row == 10 {
            Self::executed_row_a(s, op)
        } else if row == 11 {
            Self::executed_row_b(s, op)
        } else if row == 12 {
            Self::executed_row_c(s, op)
        } else if row == 13 {
            Self::executed_row_d(s, op)
        } else if row == 14 {
            Self::executed_row_e(s, op)
        } else {
            Self::executed_row_f(s, op)
        }
    }

    pub open spec fn executed_row_0(s: CpuState<B::State>, op: u8) -> CpuState<B::State> {
        match op {
            0x00 => Self::after_brk(s),
            0x01 => Self::after_logic(s, Mode::IndirectX, 6, Logic::Ora),
            0x03 => Self::after_rmw(s, Mode::IndirectX, 8, Rmw::Slo),
            0x04 => Self::after_nop_read(s, Mode::ZeroPage, 3),
            0x05 => Self::after_logic(s, Mode::ZeroPage, 3, Logic::Ora),
            0x06 => Self::after_rmw(s, Mode::ZeroPage, 5, Rmw::Asl),
            0x07 => Self::after_rmw(s, Mode::ZeroPage, 5, Rmw::Slo),
            0x08 => { let t = Self::pushed(s, s.status | FLAG_BREAK | FLAG_UNUSED); CpuState { cycles: t.cycles + 3, ..t } },
            0x09 => Self::after_logic(s, Mode::Immediate, 2, Logic::Ora),
            0x0A => Self::after_shift_a(s, Shift::Asl),
            0x0B => Self::after_unofficial_imm(s, Imm::Anc),
            0x0C => Self::after_nop_read(s, Mode::Absolute, 4),
            0x0D => Self::after_logic(s, Mode::Absolute, 4, Logic::Ora),
            0x0E => Self::after_rmw(s, Mode::Absolute, 6, Rmw::Asl),
            0x0F => Self::after_rmw(s, Mode::Absolute, 6, Rmw::Slo),
            _ => CpuState { halted: true, ..s },
        }
    }

    pub open spec fn executed_row_1(s: CpuState<B::State>, op: u8) -> CpuState<B::State> {
        match op {
            0x10 => Self::after_branch(s, s.status & FLAG_NEGATIVE == 0),
            0x11 => Self::after_logic(s, Mode::IndirectY, 5, Logic::Ora),
            0x13 => Self::after_rmw(s, Mode::IndirectY, 8, Rmw::Slo),
            0x14 => Self::after_nop_read(s, Mode::ZeroPageX, 4),
            0x15 => Self::after_logic(s, Mode::ZeroPageX, 4, Logic::Ora),
            0x16 => Self::after_rmw(s, Mode::ZeroPageX, 6, Rmw::Asl),
            0x17 => Self::after_rmw(s, Mode::ZeroPageX, 6, Rmw::Slo),
            0x18 => CpuState { status: with_flag(s.status, FLAG_CARRY, false), cycles: s.cycles + 2, ..s },
            0x19 => Self::after_logic(s, Mode::AbsoluteY, 4, Logic::Ora),
            0x1A => CpuState { cycles: s.cycles + 2, ..s },
            0x1B => Self::after_rmw(s, Mode::AbsoluteY, 7, Rmw::Slo),
            0x1C => Self::after_nop_read(s, Mode::AbsoluteX, 4),
            0x1D => Self::after_logic(s, Mode::AbsoluteX, 4, Logic::Ora),
            0x1E => Self::after_rmw(s, Mode::AbsoluteX, 7, Rmw::Asl),
            0x1F => Self::after_rmw(s, Mode::AbsoluteX, 7, Rmw::Slo),
            _ => CpuState { halted: true, ..s },
        }
    }

    pub open spec fn executed_row_2(s: CpuState<B::State>, op: u8) -> CpuState<B::State> {
        match op {
            0x20 => Self::after_jsr(s),
            0x21 => Self::after_logic(s, Mode::IndirectX, 6, Logic::And),
            0x23 => Self::after_rmw(s, Mode::IndirectX, 8, Rmw::Rla),
            0x24 => Self::after_bit(s, Mode::ZeroPage, 3),
            0x25 => Self::after_logic(s, Mode::ZeroPage, 3, Logic::And),
            0x26 => Self::after_rmw(s, Mode::ZeroPage, 5, Rmw::Rol),
            0x27 => Self::after_rmw(s, Mode::ZeroPage, 5, Rmw::Rla),
            0x28 => { let (v, t) = Self::popped(s); CpuState { status: (v & !FLAG_BREAK) | FLAG_UNUSED, cycles: t.cycles + 4, ..t } },
            0x29 => Self::after_logic(s, Mode::Immediate, 2, Logic::And),
            0x2A => Self::after_shift_a(s, Shift::Rol),
            0x2B => Self::after_unofficial_imm(s, Imm::Anc),
            0x2C => Self::after_bit(s, Mode::Absolute, 4),
            0x2D => Self::after_logic(s, Mode::Absolute, 4, Logic::And),
            0x2E => Self::after_rmw(s, Mode::Absolute, 6, Rmw::Rol),
            0x2F => Self::after_rmw(s, Mode::Absolute, 6, Rmw::Rla),
            _ => CpuState { halted: true, ..s },
        }
    }

    pub open spec fn executed_row_3(s: CpuState<B::State>, op: u8) -> CpuState<B::State> {
        match op {
            0x30 => Self::after_branch(s, s.status & FLAG_NEGATIVE != 0),
            0x31 => Self::after_logic(s, Mode::IndirectY, 5, Logic::And),
            0x33 => Self::after_rmw(s, Mode::IndirectY, 8, Rmw::Rla),
            0x34 => Self::after_nop_read(s, Mode::ZeroPageX, 4),
            0x35 => Self::after_logic(s, Mode::ZeroPageX, 4, Logic::And),
            0x36 => Self::after_rmw(s, Mode::ZeroPageX, 6, Rmw::Rol),
            0x37 => Self::after_rmw(s, Mode::ZeroPageX, 6, Rmw::Rla),
            0x38 => CpuState { status: with_flag(s.status, FLAG_CARRY, true), cycles: s.cycles + 2, ..s },
            0x39 => Self::after_logic(s, Mode::AbsoluteY, 4, Logic::And),
            0x3A => CpuState { cycles: s.cycles + 2, ..s },
            0x3B => Self::after_rmw(s, Mode::AbsoluteY, 7, Rmw::Rla),
            0x3C => Self::after_nop_read(s, Mode::AbsoluteX, 4),
            0x3D => Self::after_logic(s, Mode::AbsoluteX, 4, Logic::And),
            0x3E => Self::after_rmw(s, Mode::AbsoluteX, 7, Rmw::Rol),
            0x3F => Self::after_rmw(s, Mode::AbsoluteX, 7, Rmw::Rla),
            _ => CpuState { halted: true, ..s },
        }
    }

    pub open spec fn executed_row_4(s: CpuState<B::State>, op: u8) -> CpuState<B::State> {
        match op {
            0x40 => Self::after_rti(s),
            0x41 => Self::after_logic(s, Mode::IndirectX, 6, Logic::Eor),
            0x43 => Self::after_rmw(s, Mode::IndirectX, 8, Rmw::Sre),
            0x44 => Self::after_nop_read(s, Mode::ZeroPage, 3),
            0x45 => Self::after_logic(s, Mode::ZeroPage, 3, Logic::Eor),
            0x46 => Self::after_rmw(s, Mode::ZeroPage, 5, Rmw::Lsr),
            0x47 => Self::after_rmw(s, Mode::ZeroPage, 5, Rmw::Sre),
            0x48 => { let t = Self::pushed(s, s.a); CpuState { cycles: t.cycles + 3, ..t } },
            0x49 => Self::after_logic(s, Mode::Immediate, 2, Logic::Eor),
            0x4A => Self::after_shift_a(s, Shift::Lsr),
            0x4B => Self::after_unofficial_imm(s, Imm::Alr),
            0x4C => Self::after_jmp_absolute(s),
            0x4D => Self::after_logic(s, Mode::Absolute, 4, Logic::Eor),
            0x4E => Self::after_rmw(s, Mode::Absolute, 6, Rmw::Lsr),
            0x4F => Self::after_rmw(s, Mode::Absolute, 6, Rmw::Sre),
            _ => CpuState { halted: true, ..s },
        }
    }

    pub open spec fn executed_row_5(s: CpuState<B::State>, op: u8) -> CpuState<B::State> {
        match op {
            0x50 => Self::after_branch(s, s.status & FLAG_OVERFLOW == 0),
            0x51 => Self::after_logic(s, Mode::IndirectY, 5, Logic::Eor),
            0x53 => Self::after_rmw(s, Mode::IndirectY, 8, Rmw::Sre),
            0x54 => Self::after_nop_read(s, Mode::ZeroPageX, 4),
            0x55 => Self::after_logic(s, Mode::ZeroPageX, 4, Logic::Eor),
            0x56 => Self::after_rmw(s, Mode::ZeroPageX, 6, Rmw::Lsr),
            0x57 => Self::after_rmw(s, Mode::ZeroPageX, 6, Rmw::Sre),
            0x58 => CpuState { status: with_flag(s.status, FLAG_INTERRUPT_DISABLE, false), cycles: s.cycles + 2, ..s },
            0x59 => Self::after_logic(s, Mode::AbsoluteY, 4, Logic::Eor),
            0x5A => CpuState { cycles: s.cycles + 2, ..s },
            0x5B => Self::after_rmw(s, Mode::AbsoluteY, 7, Rmw::Sre),
            0x5C => Self::after_nop_read(s, Mode::AbsoluteX, 4),
            0x5D => Self::after_logic(s, Mode::AbsoluteX, 4, Logic::Eor),
            0x5E => Self::after_rmw(s, Mode::AbsoluteX, 7, Rmw::Lsr),
            0x5F => Self::after_rmw(s, Mode::AbsoluteX, 7, Rmw::Sre),
            _ => CpuState { halted: true, ..s },
        }
    }

    pub open spec fn executed_row_6(s: CpuState<B::State>, op: u8) -> CpuState<B::State> {
        match op {
            0x60 => Self::after_rts(s),
            0x61 => Self::after_add(s, Mode::IndirectX, 6, false),
            0x63 => Self::after_rmw(s, Mode::IndirectX, 8, Rmw::Rra),
            0x64 => Self::after_nop_read(s, Mode::ZeroPage, 3),
            0x65 => Self::after_add(s, Mode::ZeroPage, 3, false),
            0x66 => Self::after_rmw(s, Mode::ZeroPage, 5, Rmw::Ror),
            0x67 => Self::after_rmw(s, Mode::ZeroPage, 5, Rmw::Rra),
            0x68 => { let (v, t) = Self::popped(s); CpuState { a: v, status: with_zn(t.status, v), cycles: t.cycles + 4, ..t } },
            0x69 => Self::after_add(s, Mode::Immediate, 2, false),
            0x6A => Self::after_shift_a(s, Shift::Ror),
            0x6B => Self::after_unofficial_imm(s, Imm::Arr),
            0x6C => Self::after_jmp_indirect(s),
            0x6D => Self::after_add(s, Mode::Absolute, 4, false),
            0x6E => Self::after_rmw(s, Mode::Absolute, 6, Rmw::Ror),
            0x6F => Self::after_rmw(s, Mode::Absolute, 6, Rmw::Rra),
            _ => CpuState { halted: true, ..s },
        }
    }

    pub open spec fn executed_row_7(s: CpuState<B::State>, op: u8) -> CpuState<B::State> {
        match op {
            0x70 => Self::after_branch(s, s.status & FLAG_OVERFLOW != 0),
            0x71 => Self::after_add(s, Mode::IndirectY, 5, false),
            0x73 => Self::after_rmw(s, Mode::IndirectY, 8, Rmw::Rra),
            0x74 => Self::after_nop_read(s, Mode::ZeroPageX, 4),
            0x75 => Self::after_add(s, Mode::ZeroPageX, 4, false),
            0x76 => Self::after_rmw(s, Mode::ZeroPageX, 6, Rmw::Ror),
            0x77 => Self::after_rmw(s, Mode::ZeroPageX, 6, Rmw::Rra),
            0x78 => CpuState { status: with_flag(s.status, FLAG_INTERRUPT_DISABLE, true), cycles: s.cycles + 2, ..s },
            0x79 => Self::after_add(s, Mode::AbsoluteY, 4, false),
            0x7A => CpuState { cycles: s.cycles + 2, ..s },
            0x7B => Self::after_rmw(s, Mode::AbsoluteY, 7, Rmw::Rra),
            0x7C => Self::after_nop_read(s, Mode::AbsoluteX, 4),
            0x7D => Self::after_add(s, Mode::AbsoluteX, 4, false),
            0x7E => Self::after_rmw(s, Mode::AbsoluteX, 7, Rmw::Ror),
            0x7F => Self::after_rmw(s, Mode::AbsoluteX, 7, Rmw::Rra),
            _ => CpuState { halted: true, ..s },
        }
    }

    pub open spec fn executed_row_8(s: CpuState<B::State>, op: u8) -> CpuState<B::State> {
        match op {
            0x80 => Self::after_nop_read(s, Mode::Immediate, 2),
            0x81 => Self::after_store(s, Mode::IndirectX, 6, s.a),
            0x82 => Self::after_nop_read(s, Mode::Immediate, 2),
            0x83 => Self::after_store(s, Mode::IndirectX, 6, s.a & s.x),
            0x84 => Self::after_store(s, Mode::ZeroPage, 3, s.y),
            0x85 => Self::after_store(s, Mode::ZeroPage, 3, s.a),
            0x86 => Self::after_store(s, Mode::ZeroPage, 3, s.x),
            0x87 => Self::after_store(s, Mode::ZeroPage, 3, s.a & s.x),
            0x88 => CpuState { y: u8_specs::wrapping_sub(s.y, 1), status: with_zn(s.status, u8_specs::wrapping_sub(s.y, 1)), cycles: s.cycles + 2, ..s },
            0x89 => Self::after_nop_read(s, Mode::Immediate, 2),
            0x8A => CpuState { a: s.x, status: with_zn(s.status, s.x), cycles: s.cycles + 2, ..s },
            0x8B => Self::after_unofficial_imm(s, Imm::Xaa),
            0x8C => Self::after_store(s, Mode::Absolute, 4, s.y),
            0x8D => Self::after_store(s, Mode::Absolute, 4, s.a),
            0x8E => Self::after_store(s, Mode::Absolute, 4, s.x),
            0x8F => Self::after_store(s, Mode::Absolute, 4, s.a & s.x),
            _ => CpuState { halted: true, ..s },
        }
    }

    pub open spec fn executed_row_9(s: CpuState<B::State>, op: u8) -> CpuState<B::State> {
        match op {
            0x90 => Self::after_branch(s, s.status & FLAG_CARRY == 0),
            0x91 => Self::after_store(s, Mode::IndirectY, 6, s.a),
            0x94 => Self::after_store(s, Mode::ZeroPageX, 4, s.y),
            0x95 => Self::after_store(s, Mode::ZeroPageX, 4, s.a),
            0x96 => Self::after_store(s, Mode::ZeroPageY, 4, s.x),
            0x97 => Self::after_store(s, Mode::ZeroPageY, 4, s.a & s.x),
            0x98 => CpuState { a: s.y, status: with_zn(s.status, s.y), cycles: s.cycles + 2, ..s },
            0x99 => Self::after_store(s, Mode::AbsoluteY, 5, s.a),
            0x9A => CpuState { sp: s.x, cycles: s.cycles + 2, ..s },
            0x9D => Self::after_store(s, Mode::AbsoluteX, 5, s.a),
            _ => CpuState { halted: true, ..s },
        }
    }

    pub open spec fn executed_row_a(s: CpuState<B::State>, op: u8) -> CpuState<B::State> {
        match op {
            0xA0 => Self::after_load(s, Mode::Immediate, 2, Reg::Y),
            0xA1 => Self::after_load(s, Mode::IndirectX, 6, Reg::A),
            0xA2 => Self::after_load(s, Mode::Immediate, 2, Reg::X),
            0xA3 => Self::after_load(s, Mode::IndirectX, 6, Reg::AX),
            0xA4 => Self::after_load(s, Mode::ZeroPage, 3, Reg::Y),
            0xA5 => Self::after_load(s, Mode::ZeroPage, 3, Reg::A),
            0xA6 => Self::after_load(s, Mode::ZeroPage, 3, Reg::X),
            0xA7 => Self::after_load(s, Mode::ZeroPage, 3, Reg::AX),
            0xA8 => CpuState { y: s.a, status: with_zn(s.status, s.a), cycles: s.cycles + 2, ..s },
            0xA9 => Self::after_load(s, Mode::Immediate, 2, Reg::A),
            0xAA => CpuState { x: s.a, status: with_zn(s.status, s.a), cycles: s.cycles + 2, ..s },
            0xAB => Self::after_unofficial_imm(s, Imm::Lxa),
            0xAC => Self::after_load(s, Mode::Absolute, 4, Reg::Y),
            0xAD => Self::after_load(s, Mode::Absolute, 4, Reg::A),
            0xAE => Self::after_load(s, Mode::Absolute, 4, Reg::X),
            0xAF => Self::after_load(s, Mode::Absolute, 4, Reg::AX),
            _ => CpuState { halted: true, ..s },
        }
    }

    pub open spec fn executed_row_b(s: CpuState<B::State>, op: u8) -> CpuState<B::State> {
        match op {
            0xB0 => Self::after_branch(s, s.status & FLAG_CARRY != 0),
            0xB1 => Self::after_load(s, Mode::IndirectY, 5, Reg::A),
            0xB3 => Self::after_load(s, Mode::IndirectY, 5, Reg::AX),
            0xB4 => Self::after_load(s, Mode::ZeroPageX, 4, Reg::Y),
            0xB5 => Self::after_load(s, Mode::ZeroPageX, 4, Reg::A),
            0xB6 => Self::after_load(s, Mode::ZeroPageY, 4, Reg::X),
            0xB7 => Self::after_load(s, Mode::ZeroPageY, 4, Reg::AX),
            0xB8 => CpuState { status: with_flag(s.status, FLAG_OVERFLOW, false), cycles: s.cycles + 2, ..s },
            0xB9 => Self::after_load(s, Mode::AbsoluteY, 4, Reg::A),
            0xBA => CpuState { x: s.sp, status: with_zn(s.status, s.sp), cycles: s.cycles + 2, ..s },
            0xBC => Self::after_load(s, Mode::AbsoluteX, 4, Reg::Y),
            0xBD => Self::after_load(s, Mode::AbsoluteX, 4, Reg::A),
            0xBE => Self::after_load(s, Mode::AbsoluteY, 4, Reg::X),
            0xBF => Self::after_load(s, Mode::AbsoluteY, 4, Reg::AX),
            _ => CpuState { halted: true, ..s },
        }
    }

    pub open spec fn executed_row_c(s: CpuState<B::State>, op: u8) -> CpuState<B::State> {
        match op {
            0xC0 => Self::after_compare(s, Mode::Immediate, 2, s.y),
            0xC1 => Self::after_compare(s, Mode::IndirectX, 6, s.a),
            0xC2 => Self::after_nop_read(s, Mode::Immediate, 2),
            0xC3 => Self::after_rmw(s, Mode::IndirectX, 8, Rmw::Dcp),
            0xC4 => Self::after_compare(s, Mode::ZeroPage, 3, s.y),
            0xC5 => Self::after_compare(s, Mode::ZeroPage, 3, s.a),
            0xC6 => Self::after_rmw(s, Mode::ZeroPage, 5, Rmw::Dec),
            0xC7 => Self::after_rmw(s, Mode::ZeroPage, 5, Rmw::Dcp),
            0xC8 => CpuState { y: u8_specs::wrapping_add(s.y, 1), status: with_zn(s.status, u8_specs::wrapping_add(s.y, 1)), cycles: s.cycles + 2, ..s },
            0xC9 => Self::after_compare(s, Mode::Immediate, 2, s.a),
            0xCA => CpuState { x: u8_specs::wrapping_sub(s.x, 1), status: with_zn(s.status, u8_specs::wrapping_sub(s.x, 1)), cycles: s.cycles + 2, ..s },
            0xCB => Self::after_unofficial_imm(s, Imm::Axs),
            0xCC => Self::after_compare(s, Mode::Absolute, 4, s.y),
            0xCD => Self::after_compare(s, Mode::Absolute, 4, s.a),
            0xCE => Self::after_rmw(s, Mode::Absolute, 6, Rmw::Dec),
            0xCF => Self::after_rmw(s, Mode::Absolute, 6, Rmw::Dcp),
            _ => CpuState { halted: true, ..s },
        }
    }

    pub open spec fn executed_row_d(s: CpuState<B::State>, op: u8) -> CpuState<B::State> {
        match op {
            0xD0 => Self::after_branch(s, s.status & FLAG_ZERO == 0),
            0xD1 => Self::after_compare(s, Mode::IndirectY, 5, s.a),
            0xD3 => Self::after_rmw(s, Mode::IndirectY, 8, Rmw::Dcp),
            0xD4 => Self::after_nop_read(s, Mode::ZeroPageX, 4),
            0xD5 => Self::after_compare(s, Mode::ZeroPageX, 4, s.a),
            0xD6 => Self::after_rmw(s, Mode::ZeroPageX, 6, Rmw::Dec),
            0xD7 => Self::after_rmw(s, Mode::ZeroPageX, 6, Rmw::Dcp),
            0xD8 => CpuState { status: with_flag(s.status, FLAG_DECIMAL, false), cycles: s.cycles + 2, ..s },
            0xD9 => Self::after_compare(s, Mode::AbsoluteY, 4, s.a),
            0xDA => CpuState { cycles: s.cycles + 2, ..s },
            0xDB => Self::after_rmw(s, Mode::AbsoluteY, 7, Rmw::Dcp),
            0xDC => Self::after_nop_read(s, Mode::AbsoluteX, 4),
            0xDD => Self::after_compare(s, Mode::AbsoluteX, 4, s.a),
            0xDE => Self::after_rmw(s, Mode::AbsoluteX, 7, Rmw::Dec),
            0xDF => Self::after_rmw(s, Mode::AbsoluteX, 7, Rmw::Dcp),
            _ => CpuState { halted: true, ..s },
        }
    }

    pub open spec fn executed_row_e(s: CpuState<B::State>, op: u8) -> CpuState<B::State> {
        match op {
            0xE0 => Self::after_compare(s, Mode::Immediate, 2, s.x),
            0xE1 => Self::after_add(s, Mode::IndirectX, 6, true),
            0xE2 => Self::after_nop_read(s, Mode::Immediate, 2),
            0xE3 => Self::after_rmw(s, Mode::IndirectX, 8, Rmw::Isc),
            0xE4 => Self::after_compare(s, Mode::ZeroPage, 3, s.x),
            0xE5 => Self::after_add(s, Mode::ZeroPage, 3, true),
            0xE6 => Self::after_rmw(s, Mode::ZeroPage, 5, Rmw::Inc),
            0xE7 => Self::after_rmw(s, Mode::ZeroPage, 5, Rmw::Isc),
            0xE8 => CpuState { x: u8_specs::wrapping_add(s.x, 1), status: with_zn(s.status, u8_specs::wrapping_add(s.x, 1)), cycles: s.cycles + 2, ..s },
            0xE9 => Self::after_add(s, Mode::Immediate, 2, true),
            0xEA => CpuState { cycles: s.cycles + 2, ..s },
            0xEB => Self::after_add(s, Mode::Immediate, 2, true),
            0xEC => Self::after_compare(s, Mode::Absolute, 4, s.x),
            0xED => Self::after_add(s, Mode::Absolute, 4, true),
            0xEE => Self::after_rmw(s, Mode::Absolute, 6, Rmw::Inc),
            0xEF => Self::after_rmw(s, Mode::Absolute, 6, Rmw::Isc),
            _ => CpuState { halted: true, ..s },
        }
    }

    pub open spec fn executed_row_f(s: CpuState<B::State>, op: u8) -> CpuState<B::State> {
        match op {
            0xF0 => Self::after_branch(s, s.status & FLAG_ZERO != 0),
            0xF1 => Self::after_add(s, Mode::IndirectY, 5, true),
            0xF3 => Self::after_rmw(s, Mode::IndirectY, 8, Rmw::Isc),
            0xF4 => Self::after_nop_read(s, Mode::ZeroPageX, 4),
            0xF5 => Self::after_add(s, Mode::ZeroPageX, 4, true),
            0xF6 => Self::after_rmw(s, Mode::ZeroPageX, 6, Rmw::Inc),
            0xF7 => Self::after_rmw(s, Mode::ZeroPageX, 6, Rmw::Isc),
            0xF8 => CpuState { status: with_flag(s.status, FLAG_DECIMAL, true), cycles: s.cycles + 2, ..s },
            0xF9 => Self::after_add(s, Mode::AbsoluteY, 4, true),
            0xFA => CpuState { cycles: s.cycles + 2, ..s },
            0xFB => Self::after_rmw(s, Mode::AbsoluteY, 7, Rmw::Isc),
            0xFC => Self::after_nop_read(s, Mode::AbsoluteX, 4),
            0xFD => Self::after_add(s, Mode::AbsoluteX, 4, true),
            0xFE => Self::after_rmw(s, Mode::AbsoluteX, 7, Rmw::Inc),
            0xFF => Self::after_rmw(s, Mode::AbsoluteX, 7, Rmw::Isc),
            _ => CpuState { halted: true, ..s },
        }
    }

}

impl<B: Bus> CPU<B> {
    fn read(&mut self, addr: u16) -> (r: u8)
        requires
            old(self).bus_ok(),
        ensures
            (r, final(self).model()) == Self::rd(old(self).model(), addr),
            final(self).bus_ok(),
    {
        self.bus.read(addr)
    }

    fn write(&mut self, addr: u16, v: u8)
        requires
            old(self).bus_ok(),
        ensures
            final(self).model() == Self::wr(old(self).model(), addr, v),
            final(self).bus_ok(),
    {
        self.bus.write(addr, v);
    }

    fn fetch_byte(&mut self) -> (r: u8)
        requires
            old(self).bus_ok(),
        ensures
            (r, final(self).model()) == Self::fetched(old(self).model()),
            final(self).bus_ok(),
    {
        let b = self.read(self.pc);
        self.pc = self.pc.wrapping_add(1);
        b
    }

    fn fetch_word(&mut self) -> (r: u16)
        requires
            old(self).bus_ok(),
        ensures
            (r, final(self).model()) == Self::fetched_word(old(self).model()),
            final(self).bus_ok(),
    {
        let lo = self.fetch_byte();
        let hi = self.fetch_byte();
        ((hi as u16) << 8) | lo as u16
    }

    fn push(&mut self, v: u8)
        requires
            old(self).bus_ok(),
        ensures
            final(self).model() == Self::pushed(old(self).model(), v),
            final(self).bus_ok(),
    {
        self.write(0x100 | self.sp as u16, v);
        self.sp = self.sp.wrapping_sub(1);
    }

    fn pop(&mut self) -> (r: u8)
        requires
            old(self).bus_ok(),
        ensures
            (r, final(self).model()) == Self::popped(old(self).model()),
            final(self).bus_ok(),
    {
        self.sp = self.sp.wrapping_add(1);
        self.read(0x100 | self.sp as u16)
    }

    fn operand_addr(&mut self, mode: Mode) -> (r: (u16, bool))
        requires
            old(self).bus_ok(),
        ensures
            (r.0, r.1, final(self).model()) == Self::operand(old(self).model(), mode),
            final(self).bus_ok(),
    {
        match mode {
            Mode::Immediate => {
                let a = self.pc;
                self.pc = self.pc.wrapping_add(1);
                (a, false)
            },
            Mode::ZeroPage => {
                let b = self.fetch_byte();
                (b as u16, false)
            },
            Mode::ZeroPageX => {
                let x = self.x;
                let b = self.fetch_byte();
                (b.wrapping_add(x) as u16, false)
            },
            Mode::ZeroPageY => {
                let y = self.y;
                let b = self.fetch_byte();
                (b.wrapping_add(y) as u16, false)
            },
            Mode::Absolute => {
                let w = self.fetch_word();
                (w, false)
            },
            Mode::AbsoluteX => {
                let x = self.x;
                let w = self.fetch_word();
                let e = w.wrapping_add(x as u16);
                (e, w & 0xFF00 != e & 0xFF00)
            },
            Mode::AbsoluteY => {
                let y = self.y;
                let w = self.fetch_word();
                let e = w.wrapping_add(y as u16);
                (e, w & 0xFF00 != e & 0xFF00)
            },
            Mode::IndirectX => {
                let x = self.x;
                let b = self.fetch_byte();
                let p = b.wrapping_add(x);
                let lo = self.read(p as u16);
                let hi = self.read(p.wrapping_add(1) as u16);
                (((hi as u16) << 8) | lo as u16, false)
            },
            Mode::IndirectY => {
                let y = self.y;
                let b = self.fetch_byte();
                let lo = self.read(b as u16);
                let hi = self.read(b.wrapping_add(1) as u16);
                let base = ((hi as u16) << 8) | lo as u16;
                let e = base.wrapping_add(y as u16);
                (e, base & 0xFF00 != e & 0xFF00)
            },
        }
    }

    fn read_operand(&mut self, mode: Mode) -> (r: (u8, bool))
        requires
            old(self).bus_ok(),
        ensures
            (r.0, r.1, final(self).model()) == Self::operand_value(old(self).model(), mode),
            final(self).bus_ok(),
    {
        let (addr, crossed) = self.operand_addr(mode);
        let v = self.read(addr);
        (v, crossed)
    }

    fn set_zn(&mut self, v: u8)
        ensures
            final(self).model() == (CpuState { status: with_zn(old(self).status, v), ..old(self).model() }),
    {
        let p = if v == 0 {
            self.status | FLAG_ZERO
        } else {
            self.status & !FLAG_ZERO
        };
        self.status = if v & 0x80 != 0 {
            p | FLAG_NEGATIVE
        } else {
            p & !FLAG_NEGATIVE
        };
    }

    /// LDA, LDX, LDY or LAX.
    fn load(&mut self, mode: Mode, base: usize, reg: Reg)
        requires
            old(self).bus_ok(),
            base <= 8,
            old(self).cycles + CYCLE_HEADROOM <= usize::MAX,
        ensures
            final(self).model() == Self::after_load(old(self).model(), mode, base as int, reg),
            final(self).bus_ok(),
    {
        let (v, crossed) = self.read_operand(mode);
        match reg {
            Reg::A => {
                self.a = v;
            },
            Reg::X => {
                self.x = v;
            },
            Reg::Y => {
                self.y = v;
            },
            Reg::AX => {
                self.a = v;
                self.x = v;
            },
        }
        self.set_zn(v);
        self.cycles = self.cycles + base + if crossed { 1 } else { 0 };
    }

    /// STA, STX, STY or SAX: writes `v` to the operand address.
    fn store(&mut self, mode: Mode, base: usize, v: u8)
        requires
            old(self).bus_ok(),
            base <= 8,
            old(self).cycles + CYCLE_HEADROOM <= usize::MAX,
        ensures
            final(self).model() == Self::after_store(old(self).model(), mode, base as int, v),
            final(self).bus_ok(),
    {
        let (addr, _crossed) = self.operand_addr(mode);
        self.write(addr, v);
        self.cycles = self.cycles + base;
    }

    /// AND, ORA or EOR.
    fn logic(&mut self, mode: Mode, base: usize, op: Logic)
        requires
            old(self).bus_ok(),
            base <= 8,
            old(self).cycles + CYCLE_HEADROOM <= usize::MAX,
        ensures
            final(self).model() == Self::after_logic(old(self).model(), mode, base as int, op),
            final(self).bus_ok(),
    {
        let (v, crossed) = self.read_operand(mode);
        let r = match op {
            Logic::And => self.a & v,
            Logic::Ora => self.a | v,
            Logic::Eor => self.a ^ v,
        };
        self.a = r;
        self.set_zn(r);
        self.cycles = self.cycles + base + if crossed { 1 } else { 0 };
    }

    /// A + M + C into A, with C, V, Z and N.
    fn add_with_carry(&mut self, m: u8)
        ensures
            ({
                let (r, p) = adc_result(old(self).a, m, old(self).status);
                final(self).model() == (CpuState { a: r, status: p, ..old(self).model() })
            }),
    {
        let c: u16 = if self.status & FLAG_CARRY != 0 {
            1
        } else {
            0
        };
        let sum: u16 = self.a as u16 + m as u16 + c;
        let r = (sum % 256) as u8;
        let a = self.a;
        let with_c = if sum > 255 {
            self.status | FLAG_CARRY
        } else {
            self.status & !FLAG_CARRY
        };
        self.status = if (!(a ^ m) & (a ^ r) & 0x80) != 0 {
            with_c | FLAG_OVERFLOW
        } else {
            with_c & !FLAG_OVERFLOW
        };
        self.a = r;
        self.set_zn(r);
    }

    /// ADC, or SBC (`invert`: the operand complemented).
    fn add_operand(&mut self, mode: Mode, base: usize, invert: bool)
        requires
            old(self).bus_ok(),
            base <= 8,
            old(self).cycles + CYCLE_HEADROOM <= usize::MAX,
        ensures
            final(self).model() == Self::after_add(old(self).model(), mode, base as int, invert),
            final(self).bus_ok(),
    {
        let (v, crossed) = self.read_operand(mode);
        let m = if invert {
            v ^ 0xFF
        } else {
            v
        };
        self.add_with_carry(m);
        self.cycles = self.cycles + base + if crossed { 1 } else { 0 };
    }

    fn compare_flags(&mut self, reg: u8, m: u8)
        ensures
            final(self).model() == (CpuState {
                status: compare_result(reg, m, old(self).status),
                ..old(self).model()
            }),
    {
        self.status = if reg >= m {
            self.status | FLAG_CARRY
        } else {
            self.status & !FLAG_CARRY
        };
        self.set_zn(reg.wrapping_sub(m));
    }

    /// CMP, CPX or CPY: compares `reg` with the operand.
    fn compare(&mut self, mode: Mode, base: usize, reg: u8)
        requires
            old(self).bus_ok(),
            base <= 8,
            old(self).cycles + CYCLE_HEADROOM <= usize::MAX,
        ensures
            final(self).model() == Self::after_compare(old(self).model(), mode, base as int, reg),
            final(self).bus_ok(),
    {
        let (v, crossed) = self.read_operand(mode);
        self.compare_flags(reg, v);
        self.cycles = self.cycles + base + if crossed { 1 } else { 0 };
    }

    /// BIT: Z from A AND M, N and V from bits 7 and 6 of M.
    fn bit(&mut self, mode: Mode, base: usize)
        requires
            old(self).bus_ok(),
            base <= 8,
            old(self).cycles + CYCLE_HEADROOM <= usize::MAX,
        ensures
            final(self).model() == Self::after_bit(old(self).model(), mode, base as int),
            final(self).bus_ok(),
    {
        let (v, _crossed) = self.read_operand(mode);
        let with_z = if self.a & v == 0 {
            self.status | FLAG_ZERO
        } else {
            self.status & !FLAG_ZERO
        };
        let with_n = if v & 0x80 != 0 {
            with_z | FLAG_NEGATIVE
        } else {
            with_z & !FLAG_NEGATIVE
        };
        self.status = if v & 0x40 != 0 {
            with_n | FLAG_OVERFLOW
        } else {
            with_n & !FLAG_OVERFLOW
        };
        self.cycles = self.cycles + base;
    }

    /// Multi-byte NOPs: read the operand and discard it.
    fn nop_read(&mut self, mode: Mode, base: usize)
        requires
            old(self).bus_ok(),
            base <= 8,
            old(self).cycles + CYCLE_HEADROOM <= usize::MAX,
        ensures
            final(self).model() == Self::after_nop_read(old(self).model(), mode, base as int),
            final(self).bus_ok(),
    {
        let (_v, crossed) = self.read_operand(mode);
        self.cycles = self.cycles + base + if crossed { 1 } else { 0 };
    }

    fn nop(&mut self)
        requires
            old(self).cycles + CYCLE_HEADROOM <= usize::MAX,
        ensures
            final(self).model() == (CpuState { cycles: old(self).cycles + 2, ..old(self).model() }),
    {
        self.cycles = self.cycles + 2;
    }

    /// Shifts or rotates `v` through the carry; sets C, Z and N and returns
    /// the result.
    fn shift_value(&mut self, op: Shift, v: u8) -> (r: u8)
        ensures
            (r, final(self).status) == shift_result(op, v, old(self).status),
            final(self).model() == (CpuState { status: final(self).status, ..old(self).model() }),
    {
        let c: u8 = if self.status & FLAG_CARRY != 0 {
            1
        } else {
            0
        };
        let (r, out) = match op {
            Shift::Asl => (v << 1, v & 0x80 != 0),
            Shift::Lsr => (v >> 1, v & 1 != 0),
            Shift::Rol => ((v << 1) | c, v & 0x80 != 0),
            Shift::Ror => ((v >> 1) | (c << 7), v & 1 != 0),
        };
        self.status = if out {
            self.status | FLAG_CARRY
        } else {
            self.status & !FLAG_CARRY
        };
        self.set_zn(r);
        r
    }

    /// ASL A, LSR A, ROL A or ROR A.
    fn shift_a(&mut self, op: Shift)
        requires
            old(self).cycles + CYCLE_HEADROOM <= usize::MAX,
        ensures
            final(self).model() == Self::after_shift_a(old(self).model(), op),
    {
        let a = self.a;
        let r = self.shift_value(op, a);
        self.a = r;
        self.cycles = self.cycles + 2;
    }

    /// The value written back, and A and P, for a read-modify-write of `v`.
    fn rmw_value(&mut self, op: Rmw, v: u8) -> (r: u8)
        ensures
            (r, final(self).a, final(self).status) == rmw_result(op, v, old(self).a, old(self).status),
            final(self).model() == (CpuState {
                a: final(self).a,
                status: final(self).status,
                ..old(self).model()
            }),
    {
        match op {
            Rmw::Asl => self.shift_value(Shift::Asl, v),
            Rmw::Lsr => self.shift_value(Shift::Lsr, v),
            Rmw::Rol => self.shift_value(Shift::Rol, v),
            Rmw::Ror => self.shift_value(Shift::Ror, v),
            Rmw::Dec => {
                let r = v.wrapping_sub(1);
                self.set_zn(r);
                r
            },
            Rmw::Inc => {
                let r = v.wrapping_add(1);
                self.set_zn(r);
                r
            },
            Rmw::Slo => {
                let r = self.shift_value(Shift::Asl, v);
                self.a = self.a | r;
                let a = self.a;
                self.set_zn(a);
                r
            },
            Rmw::Sre => {
                let r = self.shift_value(Shift::Lsr, v);
                self.a = self.a ^ r;
                let a = self.a;
                self.set_zn(a);
                r
            },
            Rmw::Rla => {
                let r = self.shift_value(Shift::Rol, v);
                self.a = self.a & r;
                let a = self.a;
                self.set_zn(a);
                r
            },
            Rmw::Rra => {
                let r = self.shift_value(Shift::Ror, v);
                self.add_with_carry(r);
                r
            },
            Rmw::Dcp => {
                let r = v.wrapping_sub(1);
                let a = self.a;
                self.compare_flags(a, r);
                r
            },
            Rmw::Isc => {
                let r = v.wrapping_add(1);
                self.add_with_carry(r ^ 0xFF);
                r
            },
        }
    }

    /// Read-modify-write instructions on memory.
    fn rmw(&mut self, mode: Mode, base: usize, op: Rmw)
        requires
            old(self).bus_ok(),
            base <= 8,
            old(self).cycles + CYCLE_HEADROOM <= usize::MAX,
        ensures
            final(self).model() == Self::after_rmw(old(self).model(), mode, base as int, op),
            final(self).bus_ok(),
    {
        let (addr, _crossed) = self.operand_addr(mode);
        let v = self.read(addr);
        let r = self.rmw_value(op, v);
        self.write(addr, r);
        self.cycles = self.cycles + base;
    }

    fn branch(&mut self, cond: bool)
        requires
            old(self).bus_ok(),
            old(self).cycles + CYCLE_HEADROOM <= usize::MAX,
        ensures
            final(self).model() == Self::after_branch(old(self).model(), cond),
            final(self).bus_ok(),
    {
        let off = self.fetch_byte();
        let pc = self.pc;
        let target = if off < 128 {
            pc.wrapping_add(off as u16)
        } else {
            pc.wrapping_sub((256 - off as u16) as u16)
        };
        if cond {
            self.pc = target;
            self.cycles = self.cycles + 3 + if pc & 0xFF00 != target & 0xFF00 { 1 } else { 0 };
        } else {
            self.cycles = self.cycles + 2;
        }
    }

    /// CLC, SEC, CLI, SEI, CLV, CLD, SED.
    fn flag_op(&mut self, f: u8, on: bool)
        requires
            old(self).cycles + CYCLE_HEADROOM <= usize::MAX,
        ensures
            final(self).model() == (CpuState {
                status: with_flag(old(self).status, f, on),
                cycles: old(self).cycles + 2,
                ..old(self).model()
            }),
    {
        self.status = if on {
            self.status | f
        } else {
            self.status & !f
        };
        self.cycles = self.cycles + 2;
    }

    fn tax(&mut self)
        requires
            old(self).cycles + CYCLE_HEADROOM <= usize::MAX,
        ensures
            final(self).model() == (CpuState {
                x: old(self).a,
                status: with_zn(old(self).status, old(self).a),
                cycles: old(self).cycles + 2,
                ..old(self).model()
            }),
    {
        let v = self.a;
        self.x = v;
        self.set_zn(v);
        self.cycles = self.cycles + 2;
    }

    fn tay(&mut self)
        requires
            old(self).cycles + CYCLE_HEADROOM <= usize::MAX,
        ensures
            final(self).model() == (CpuState {
                y: old(self).a,
                status: with_zn(old(self).status, old(self).a),
                cycles: old(self).cycles + 2,
                ..old(self).model()
            }),
    {
        let v = self.a;
        self.y = v;
        self.set_zn(v);
        self.cycles = self.cycles + 2;
    }

    fn tsx(&mut self)
        requires
            old(self).cycles + CYCLE_HEADROOM <= usize::MAX,
        ensures
            final(self).model() == (CpuState {
                x: old(self).sp,
                status: with_zn(old(self).status, old(self).sp),
                cycles: old(self).cycles + 2,
                ..old(self).model()
            }),
    {
        let v = self.sp;
        self.x = v;
        self.set_zn(v);
        self.cycles = self.cycles + 2;
    }

    fn txa(&mut self)
        requires
            old(self).cycles + CYCLE_HEADROOM <= usize::MAX,
        ensures
            final(self).model() == (CpuState {
                a: old(self).x,
                status: with_zn(old(self).status, old(self).x),
                cycles: old(self).cycles + 2,
                ..old(self).model()
            }),
    {
        let v = self.x;
        self.a = v;
        self.set_zn(v);
        self.cycles = self.cycles + 2;
    }

    fn txs(&mut self)
        requires
            old(self).cycles + CYCLE_HEADROOM <= usize::MAX,
        ensures
            final(self).model() == (CpuState {
                sp: old(self).x,
                cycles: old(self).cycles + 2,
                ..old(self).model()
            }),
    {
        let v = self.x;
        self.sp = v;
        self.cycles = self.cycles + 2;
    }

    fn tya(&mut self)
        requires
            old(self).cycles + CYCLE_HEADROOM <= usize::MAX,
        ensures
            final(self).model() == (CpuState {
                a: old(self).y,
                status: with_zn(old(self).status, old(self).y),
                cycles: old(self).cycles + 2,
                ..old(self).model()
            }),
    {
        let v = self.y;
        self.a = v;
        self.set_zn(v);
        self.cycles = self.cycles + 2;
    }

    fn inx(&mut self)
        requires
            old(self).cycles + CYCLE_HEADROOM <= usize::MAX,
        ensures
            final(self).model() == (CpuState {
                x: u8_specs::wrapping_add(old(self).x, 1),
                status: with_zn(old(self).status, u8_specs::wrapping_add(old(self).x, 1)),
                cycles: old(self).cycles + 2,
                ..old(self).model()
            }),
    {
        let v = self.x.wrapping_add(1);
        self.x = v;
        self.set_zn(v);
        self.cycles = self.cycles + 2;
    }

    fn iny(&mut self)
        requires
            old(self).cycles + CYCLE_HEADROOM <= usize::MAX,
        ensures
            final(self).model() == (CpuState {
                y: u8_specs::wrapping_add(old(self).y, 1),
                status: with_zn(old(self).status, u8_specs::wrapping_add(old(self).y, 1)),
                cycles: old(self).cycles + 2,
                ..old(self).model()
            }),
    {
        let v = self.y.wrapping_add(1);
        self.y = v;
        self.set_zn(v);
        self.cycles = self.cycles + 2;
    }

    fn dex(&mut self)
        requires
            old(self).cycles + CYCLE_HEADROOM <= usize::MAX,
        ensures
            final(self).model() == (CpuState {
                x: u8_specs::wrapping_sub(old(self).x, 1),
                status: with_zn(old(self).status, u8_specs::wrapping_sub(old(self).x, 1)),
                cycles: old(self).cycles + 2,
                ..old(self).model()
            }),
    {
        let v = self.x.wrapping_sub(1);
        self.x = v;
        self.set_zn(v);
        self.cycles = self.cycles + 2;
    }

    fn dey(&mut self)
        requires
            old(self).cycles + CYCLE_HEADROOM <= usize::MAX,
        ensures
            final(self).model() == (CpuState {
                y: u8_specs::wrapping_sub(old(self).y, 1),
                status: with_zn(old(self).status, u8_specs::wrapping_sub(old(self).y, 1)),
                cycles: old(self).cycles + 2,
                ..old(self).model()
            }),
    {
        let v = self.y.wrapping_sub(1);
        self.y = v;
        self.set_zn(v);
        self.cycles = self.cycles + 2;
    }

    fn pha(&mut self)
        requires
            old(self).bus_ok(),
            old(self).cycles + CYCLE_HEADROOM <= usize::MAX,
        ensures
            ({
                let t = Self::pushed(old(self).model(), old(self).a);
                final(self).model() == (CpuState { cycles: t.cycles + 3, ..t })
            }),
            final(self).bus_ok(),
    {
        let a = self.a;
        self.push(a);
        self.cycles = self.cycles + 3;
    }

    /// PHP pushes P with B and U set.
    fn php(&mut self)
        requires
            old(self).bus_ok(),
            old(self).cycles + CYCLE_HEADROOM <= usize::MAX,
        ensures
            ({
                let t = Self::pushed(old(self).model(), old(self).status | FLAG_BREAK | FLAG_UNUSED);
                final(self).model() == (CpuState { cycles: t.cycles + 3, ..t })
            }),
            final(self).bus_ok(),
    {
        let p = self.status | FLAG_BREAK | FLAG_UNUSED;
        self.push(p);
        self.cycles = self.cycles + 3;
    }

    fn pla(&mut self)
        requires
            old(self).bus_ok(),
            old(self).cycles + CYCLE_HEADROOM <= usize::MAX,
        ensures
            ({
                let (v, t) = Self::popped(old(self).model());
                final(self).model() == (CpuState {
                    a: v,
                    status: with_zn(t.status, v),
                    cycles: t.cycles + 4,
                    ..t
                })
            }),
            final(self).bus_ok(),
    {
        let v = self.pop();
        self.a = v;
        self.set_zn(v);
        self.cycles = self.cycles + 4;
    }

    /// PLP ignores the pulled B bit and keeps U set.
    fn plp(&mut self)
        requires
            old(self).bus_ok(),
            old(self).cycles + CYCLE_HEADROOM <= usize::MAX,
        ensures
            ({
                let (v, t) = Self::popped(old(self).model());
                final(self).model() == (CpuState {
                    status: (v & !FLAG_BREAK) | FLAG_UNUSED,
                    cycles: t.cycles + 4,
                    ..t
                })
            }),
            final(self).bus_ok(),
    {
        let v = self.pop();
        self.status = (v & !FLAG_BREAK) | FLAG_UNUSED;
        self.cycles = self.cycles + 4;
    }

    fn jmp_absolute(&mut self)
        requires
            old(self).bus_ok(),
            old(self).cycles + CYCLE_HEADROOM <= usize::MAX,
        ensures
            final(self).model() == Self::after_jmp_absolute(old(self).model()),
            final(self).bus_ok(),
    {
        let w = self.fetch_word();
        self.pc = w;
        self.cycles = self.cycles + 3;
    }

    /// JMP indirect, with the 6502's page-wrap of the pointer's high byte.
    fn jmp_indirect(&mut self)
        requires
            old(self).bus_ok(),
            old(self).cycles + CYCLE_HEADROOM <= usize::MAX,
        ensures
            final(self).model() == Self::after_jmp_indirect(old(self).model()),
            final(self).bus_ok(),
    {
        let w = self.fetch_word();
        let lo = self.read(w);
        let hi = self.read((w & 0xFF00) | (w.wrapping_add(1) & 0x00FF));
        self.pc = ((hi as u16) << 8) | lo as u16;
        self.cycles = self.cycles + 5;
    }

    fn jsr(&mut self)
        requires
            old(self).bus_ok(),
            old(self).cycles + CYCLE_HEADROOM <= usize::MAX,
        ensures
            final(self).model() == Self::after_jsr(old(self).model()),
            final(self).bus_ok(),
    {
        let w = self.fetch_word();
        let ret = self.pc.wrapping_sub(1);
        self.push((ret / 256) as u8);
        self.push((ret % 256) as u8);
        self.pc = w;
        self.cycles = self.cycles + 6;
    }

    fn rts(&mut self)
        requires
            old(self).bus_ok(),
            old(self).cycles + CYCLE_HEADROOM <= usize::MAX,
        ensures
            final(self).model() == Self::after_rts(old(self).model()),
            final(self).bus_ok(),
    {
        let lo = self.pop();
        let hi = self.pop();
        self.pc = (((hi as u16) << 8) | lo as u16).wrapping_add(1);
        self.cycles = self.cycles + 6;
    }

    fn rti(&mut self)
        requires
            old(self).bus_ok(),
            old(self).cycles + CYCLE_HEADROOM <= usize::MAX,
        ensures
            final(self).model() == Self::after_rti(old(self).model()),
            final(self).bus_ok(),
    {
        let p = self.pop();
        let lo = self.pop();
        let hi = self.pop();
        self.status = (p & !FLAG_BREAK) | FLAG_UNUSED;
        self.pc = ((hi as u16) << 8) | lo as u16;
        self.cycles = self.cycles + 6;
    }

    fn interrupt(&mut self, vector: u16, p: u8)
        requires
            old(self).bus_ok(),
            old(self).cycles + CYCLE_HEADROOM <= usize::MAX,
            vector < 0xFFFF,
        ensures
            final(self).model() == Self::after_interrupt(old(self).model(), vector, p),
            final(self).bus_ok(),
    {
        let pc = self.pc;
        self.push((pc / 256) as u8);
        self.push((pc % 256) as u8);
        self.push(p);
        self.status = self.status | FLAG_INTERRUPT_DISABLE;
        let lo = self.read(vector);
        let hi = self.read(vector + 1);
        self.pc = ((hi as u16) << 8) | lo as u16;
        self.cycles = self.cycles + 7;
    }

    /// BRK: skips the padding byte, pushes PC and P (with B), and jumps
    /// through the IRQ vector.
    fn brk(&mut self)
        requires
            old(self).bus_ok(),
            old(self).cycles + CYCLE_HEADROOM <= usize::MAX,
        ensures
            final(self).model() == Self::after_brk(old(self).model()),
            final(self).bus_ok(),
    {
        let p = self.status | FLAG_BREAK | FLAG_UNUSED;
        self.pc = self.pc.wrapping_add(1);
        self.interrupt(0xFFFE, p);
    }

    /// Services an NMI: pushes PC and P (B clear), jumps through $FFFA.
    fn nmi(&mut self)
        requires
            old(self).bus_ok(),
            old(self).cycles + CYCLE_HEADROOM <= usize::MAX,
        ensures
            final(self).model() == Self::after_nmi(old(self).model()),
            final(self).bus_ok(),
    {
        let p = (self.status & !FLAG_BREAK) | FLAG_UNUSED;
        self.interrupt(0xFFFA, p);
    }

    /// Services an IRQ: pushes PC and P (B clear), jumps through $FFFE.
    fn irq(&mut self)
        requires
            old(self).bus_ok(),
            old(self).cycles + CYCLE_HEADROOM <= usize::MAX,
        ensures
            final(self).model() == Self::after_irq(old(self).model()),
            final(self).bus_ok(),
    {
        let p = (self.status & !FLAG_BREAK) | FLAG_UNUSED;
        self.interrupt(0xFFFE, p);
    }

    /// ANC, ALR, ARR, AXS, XAA and LXA, all immediate.
    fn unofficial_imm(&mut self, op: Imm)
        requires
            old(self).bus_ok(),
            old(self).cycles + CYCLE_HEADROOM <= usize::MAX,
        ensures
            final(self).model() == Self::after_unofficial_imm(old(self).model(), op),
            final(self).bus_ok(),
    {
        let v = self.fetch_byte();
        match op {
            Imm::Anc => {
                let r = self.a & v;
                self.a = r;
                self.set_zn(r);
                self.status = if r & 0x80 != 0 {
                    self.status | FLAG_CARRY
                } else {
                    self.status & !FLAG_CARRY
                };
            },
            Imm::Alr => {
                let m = self.a & v;
                let r = m >> 1;
                self.status = if m & 1 != 0 {
                    self.status | FLAG_CARRY
                } else {
                    self.status & !FLAG_CARRY
                };
                self.a = r;
                self.set_zn(r);
            },
            Imm::Arr => {
                let c: u8 = if self.status & FLAG_CARRY != 0 {
                    1
                } else {
                    0
                };
                let r = ((self.a & v) >> 1) | (c << 7);
                self.a = r;
                self.set_zn(r);
                self.status = if r & 0x40 != 0 {
                    self.status | FLAG_CARRY
                } else {
                    self.status & !FLAG_CARRY
                };
                self.status = if ((r >> 6) ^ (r >> 5)) & 1 != 0 {
                    self.status | FLAG_OVERFLOW
                } else {
                    self.status & !FLAG_OVERFLOW
                };
            },
            Imm::Axs => {
                let m = self.a & self.x;
                let r = m.wrapping_sub(v);
                self.status = if m >= v {
                    self.status | FLAG_CARRY
                } else {
                    self.status & !FLAG_CARRY
                };
                self.x = r;
                self.set_zn(r);
            },
            Imm::Xaa => {
                let r = self.x & v;
                self.a = r;
                self.set_zn(r);
            },
            Imm::Lxa => {
                self.a = v;
                self.x = v;
                self.set_zn(v);
            },
        }
        self.cycles = self.cycles + 2;
    }

    /// A halting opcode: the CPU stops until reset.
    fn jam(&mut self)
        ensures
            final(self).model() == (CpuState { halted: true, ..old(self).model() }),
    {
        self.halted = true;
    }

    fn execute_row_0(&mut self, op: u8)
        requires
            old(self).bus_ok(),
            old(self).cycles + CYCLE_HEADROOM <= usize::MAX,
        ensures
            final(self).model() == Self::executed_row_0(old(self).model(), op),
            final(self).bus_ok(),
    {
        match op {
            0x00 => self.brk(),
            0x01 => self.logic(Mode::IndirectX, 6, Logic::Ora),
            0x03 => self.rmw(Mode::IndirectX, 8, Rmw::Slo),
            0x04 => self.nop_read(Mode::ZeroPage, 3),
            0x05 => self.logic(Mode::ZeroPage, 3, Logic::Ora),
            0x06 => self.rmw(Mode::ZeroPage, 5, Rmw::Asl),
            0x07 => self.rmw(Mode::ZeroPage, 5, Rmw::Slo),
            0x08 => self.php(),
            0x09 => self.logic(Mode::Immediate, 2, Logic::Ora),
            0x0A => self.shift_a(Shift::Asl),
            0x0B => self.unofficial_imm(Imm::Anc),
            0x0C => self.nop_read(Mode::Absolute, 4),
            0x0D => self.logic(Mode::Absolute, 4, Logic::Ora),
            0x0E => self.rmw(Mode::Absolute, 6, Rmw::Asl),
            0x0F => self.rmw(Mode::Absolute, 6, Rmw::Slo),
            _ => self.jam(),
        }
    }

    fn execute_row_1(&mut self, op: u8)
        requires
            old(self).bus_ok(),
            old(self).cycles + CYCLE_HEADROOM <= usize::MAX,
        ensures
            final(self).model() == Self::executed_row_1(old(self).model(), op),
            final(self).bus_ok(),
    {
        match op {
            0x10 => { let c = self.status & FLAG_NEGATIVE == 0; self.branch(c) },
            0x11 => self.logic(Mode::IndirectY, 5, Logic::Ora),
            0x13 => self.rmw(Mode::IndirectY, 8, Rmw::Slo),
            0x14 => self.nop_read(Mode::ZeroPageX, 4),
            0x15 => self.logic(Mode::ZeroPageX, 4, Logic::Ora),
            0x16 => self.rmw(Mode::ZeroPageX, 6, Rmw::Asl),
            0x17 => self.rmw(Mode::ZeroPageX, 6, Rmw::Slo),
            0x18 => self.flag_op(FLAG_CARRY, false),
            0x19 => self.logic(Mode::AbsoluteY, 4, Logic::Ora),
            0x1A => self.nop(),
            0x1B => self.rmw(Mode::AbsoluteY, 7, Rmw::Slo),
            0x1C => self.nop_read(Mode::AbsoluteX, 4),
            0x1D => self.logic(Mode::AbsoluteX, 4, Logic::Ora),
            0x1E => self.rmw(Mode::AbsoluteX, 7, Rmw::Asl),
            0x1F => self.rmw(Mode::AbsoluteX, 7, Rmw::Slo),
            _ => self.jam(),
        }
    }

    fn execute_row_2(&mut self, op: u8)
        requires
            old(self).bus_ok(),
            old(self).cycles + CYCLE_HEADROOM <= usize::MAX,
        ensures
            final(self).model() == Self::executed_row_2(old(self).model(), op),
            final(self).bus_ok(),
    {
        match op {
            0x20 => self.jsr(),
            0x21 => self.logic(Mode::IndirectX, 6, Logic::And),
            0x23 => self.rmw(Mode::IndirectX, 8, Rmw::Rla),
            0x24 => self.bit(Mode::ZeroPage, 3),
            0x25 => self.logic(Mode::ZeroPage, 3, Logic::And),
            0x26 => self.rmw(Mode::ZeroPage, 5, Rmw::Rol),
            0x27 => self.rmw(Mode::ZeroPage, 5, Rmw::Rla),
            0x28 => self.plp(),
            0x29 => self.logic(Mode::Immediate, 2, Logic::And),
            0x2A => self.shift_a(Shift::Rol),
            0x2B => self.unofficial_imm(Imm::Anc),
            0x2C => self.bit(Mode::Absolute, 4),
            0x2D => self.logic(Mode::Absolute, 4, Logic::And),
            0x2E => self.rmw(Mode::Absolute, 6, Rmw::Rol),
            0x2F => self.rmw(Mode::Absolute, 6, Rmw::Rla),
            _ => self.jam(),
        }
    }

    fn execute_row_3(&mut self, op: u8)
        requires
            old(self).bus_ok(),
            old(self).cycles + CYCLE_HEADROOM <= usize::MAX,
        ensures
            final(self).model() == Self::executed_row_3(old(self).model(), op),
            final(self).bus_ok(),
    {
        match op {
            0x30 => { let c = self.status & FLAG_NEGATIVE != 0; self.branch(c) },
            0x31 => self.logic(Mode::IndirectY, 5, Logic::And),
            0x33 => self.rmw(Mode::IndirectY, 8, Rmw::Rla),
            0x34 => self.nop_read(Mode::ZeroPageX, 4),
            0x35 => self.logic(Mode::ZeroPageX, 4, Logic::And),
            0x36 => self.rmw(Mode::ZeroPageX, 6, Rmw::Rol),
            0x37 => self.rmw(Mode::ZeroPageX, 6, Rmw::Rla),
            0x38 => self.flag_op(FLAG_CARRY, true),
            0x39 => self.logic(Mode::AbsoluteY, 4, Logic::And),
            0x3A => self.nop(),
            0x3B => self.rmw(Mode::AbsoluteY, 7, Rmw::Rla),
            0x3C => self.nop_read(Mode::AbsoluteX, 4),
            0x3D => self.logic(Mode::AbsoluteX, 4, Logic::And),
            0x3E => self.rmw(Mode::AbsoluteX, 7, Rmw::Rol),
            0x3F => self.rmw(Mode::AbsoluteX, 7, Rmw::Rla),
            _ => self.jam(),
        }
    }

    fn execute_row_4(&mut self, op: u8)
        requires
            old(self).bus_ok(),
            old(self).cycles + CYCLE_HEADROOM <= usize::MAX,
        ensures
            final(self).model() == Self::executed_row_4(old(self).model(), op),
            final(self).bus_ok(),
    {
        match op {
            0x40 => self.rti(),
            0x41 => self.logic(Mode::IndirectX, 6, Logic::Eor),
            0x43 => self.rmw(Mode::IndirectX, 8, Rmw::Sre),
            0x44 => self.nop_read(Mode::ZeroPage, 3),
            0x45 => self.logic(Mode::ZeroPage, 3, Logic::Eor),
            0x46 => self.rmw(Mode::ZeroPage, 5, Rmw::Lsr),
            0x47 => self.rmw(Mode::ZeroPage, 5, Rmw::Sre),
            0x48 => self.pha(),
            0x49 => self.logic(Mode::Immediate, 2, Logic::Eor),
            0x4A => self.shift_a(Shift::Lsr),
            0x4B => self.unofficial_imm(Imm::Alr),
            0x4C => self.jmp_absolute(),
            0x4D => self.logic(Mode::Absolute, 4, Logic::Eor),
            0x4E => self.rmw(Mode::Absolute, 6, Rmw::Lsr),
            0x4F => self.rmw(Mode::Absolute, 6, Rmw::Sre),
            _ => self.jam(),
        }
    }

    fn execute_row_5(&mut self, op: u8)
        requires
            old(self).bus_ok(),
            old(self).cycles + CYCLE_HEADROOM <= usize::MAX,
        ensures
            final(self).model() == Self::executed_row_5(old(self).model(), op),
            final(self).bus_ok(),
    {
        match op {
            0x50 => { let c = self.status & FLAG_OVERFLOW == 0; self.branch(c) },
            0x51 => self.logic(Mode::IndirectY, 5, Logic::Eor),
            0x53 => self.rmw(Mode::IndirectY, 8, Rmw::Sre),
            0x54 => self.nop_read(Mode::ZeroPageX, 4),
            0x55 => self.logic(Mode::ZeroPageX, 4, Logic::Eor),
            0x56 => self.rmw(Mode::ZeroPageX, 6, Rmw::Lsr),
            0x57 => self.rmw(Mode::ZeroPageX, 6, Rmw::Sre),
            0x58 => self.flag_op(FLAG_INTERRUPT_DISABLE, false),
            0x59 => self.logic(Mode::AbsoluteY, 4, Logic::Eor),
            0x5A => self.nop(),
            0x5B => self.rmw(Mode::AbsoluteY, 7, Rmw::Sre),
            0x5C => self.nop_read(Mode::AbsoluteX, 4),
            0x5D => self.logic(Mode::AbsoluteX, 4, Logic::Eor),
            0x5E => self.rmw(Mode::AbsoluteX, 7, Rmw::Lsr),
            0x5F => self.rmw(Mode::AbsoluteX, 7, Rmw::Sre),
            _ => self.jam(),
        }
    }

    fn execute_row_6(&mut self, op: u8)
        requires
            old(self).bus_ok(),
            old(self).cycles + CYCLE_HEADROOM <= usize::MAX,
        ensures
            final(self).model() == Self::executed_row_6(old(self).model(), op),
            final(self).bus_ok(),
    {
        match op {
            0x60 => self.rts(),
            0x61 => self.add_operand(Mode::IndirectX, 6, false),
            0x63 => self.rmw(Mode::IndirectX, 8, Rmw::Rra),
            0x64 => self.nop_read(Mode::ZeroPage, 3),
            0x65 => self.add_operand(Mode::ZeroPage, 3, false),
            0x66 => self.rmw(Mode::ZeroPage, 5, Rmw::Ror),
            0x67 => self.rmw(Mode::ZeroPage, 5, Rmw::Rra),
            0x68 => self.pla(),
            0x69 => self.add_operand(Mode::Immediate, 2, false),
            0x6A => self.shift_a(Shift::Ror),
            0x6B => self.unofficial_imm(Imm::Arr),
            0x6C => self.jmp_indirect(),
            0x6D => self.add_operand(Mode::Absolute, 4, false),
            0x6E => self.rmw(Mode::Absolute, 6, Rmw::Ror),
            0x6F => self.rmw(Mode::Absolute, 6, Rmw::Rra),
            _ => self.jam(),
        }
    }

    fn execute_row_7(&mut self, op: u8)
        requires
            old(self).bus_ok(),
            old(self).cycles + CYCLE_HEADROOM <= usize::MAX,
        ensures
            final(self).model() == Self::executed_row_7(old(self).model(), op),
            final(self).bus_ok(),
    {
        match op {
            0x70 => { let c = self.status & FLAG_OVERFLOW != 0; self.branch(c) },
            0x71 => self.add_operand(Mode::IndirectY, 5, false),
            0x73 => self.rmw(Mode::IndirectY, 8, Rmw::Rra),
            0x74 => self.nop_read(Mode::ZeroPageX, 4),
            0x75 => self.add_operand(Mode::ZeroPageX, 4, false),
            0x76 => self.rmw(Mode::ZeroPageX, 6, Rmw::Ror),
            0x77 => self.rmw(Mode::ZeroPageX, 6, Rmw::Rra),
            0x78 => self.flag_op(FLAG_INTERRUPT_DISABLE, true),
            0x79 => self.add_operand(Mode::AbsoluteY, 4, false),
            0x7A => self.nop(),
            0x7B => self.rmw(Mode::AbsoluteY, 7, Rmw::Rra),
            0x7C => self.nop_read(Mode::AbsoluteX, 4),
            0x7D => self.add_operand(Mode::AbsoluteX, 4, false),
            0x7E => self.rmw(Mode::AbsoluteX, 7, Rmw::Ror),
            0x7F => self.rmw(Mode::AbsoluteX, 7, Rmw::Rra),
            _ => self.jam(),
        }
    }

    fn execute_row_8(&mut self, op: u8)
        requires
            old(self).bus_ok(),
            old(self).cycles + CYCLE_HEADROOM <= usize::MAX,
        ensures
            final(self).model() == Self::executed_row_8(old(self).model(), op),
            final(self).bus_ok(),
    {
        match op {
            0x80 => self.nop_read(Mode::Immediate, 2),
            0x81 => { let v = self.a; self.store(Mode::IndirectX, 6, v) },
            0x82 => self.nop_read(Mode::Immediate, 2),
            0x83 => { let v = self.a & self.x; self.store(Mode::IndirectX, 6, v) },
            0x84 => { let v = self.y; self.store(Mode::ZeroPage, 3, v) },
            0x85 => { let v = self.a; self.store(Mode::ZeroPage, 3, v) },
            0x86 => { let v = self.x; self.store(Mode::ZeroPage, 3, v) },
            0x87 => { let v = self.a & self.x; self.store(Mode::ZeroPage, 3, v) },
            0x88 => self.dey(),
            0x89 => self.nop_read(Mode::Immediate, 2),
            0x8A => self.txa(),
            0x8B => self.unofficial_imm(Imm::Xaa),
            0x8C => { let v = self.y; self.store(Mode::Absolute, 4, v) },
            0x8D => { let v = self.a; self.store(Mode::Absolute, 4, v) },
            0x8E => { let v = self.x; self.store(Mode::Absolute, 4, v) },
            0x8F => { let v = self.a & self.x; self.store(Mode::Absolute, 4, v) },
            _ => self.jam(),
        }
    }

    fn execute_row_9(&mut self, op: u8)
        requires
            old(self).bus_ok(),
            old(self).cycles + CYCLE_HEADROOM <= usize::MAX,
        ensures
            final(self).model() == Self::executed_row_9(old(self).model(), op),
            final(self).bus_ok(),
    {
        match op {
            0x90 => { let c = self.status & FLAG_CARRY == 0; self.branch(c) },
            0x91 => { let v = self.a; self.store(Mode::IndirectY, 6, v) },
            0x94 => { let v = self.y; self.store(Mode::ZeroPageX, 4, v) },
            0x95 => { let v = self.a; self.store(Mode::ZeroPageX, 4, v) },
            0x96 => { let v = self.x; self.store(Mode::ZeroPageY, 4, v) },
            0x97 => { let v = self.a & self.x; self.store(Mode::ZeroPageY, 4, v) },
            0x98 => self.tya(),
            0x99 => { let v = self.a; self.store(Mode::AbsoluteY, 5, v) },
            0x9A => self.txs(),
            0x9D => { let v = self.a; self.store(Mode::AbsoluteX, 5, v) },
            _ => self.jam(),
        }
    }

    fn execute_row_a(&mut self, op: u8)
        requires
            old(self).bus_ok(),
            old(self).cycles + CYCLE_HEADROOM <= usize::MAX,
        ensures
            final(self).model() == Self::executed_row_a(old(self).model(), op),
            final(self).bus_ok(),
    {
        match op {
            0xA0 => self.load(Mode::Immediate, 2, Reg::Y),
            0xA1 => self.load(Mode::IndirectX, 6, Reg::A),
            0xA2 => self.load(Mode::Immediate, 2, Reg::X),
            0xA3 => self.load(Mode::IndirectX, 6, Reg::AX),
            0xA4 => self.load(Mode::ZeroPage, 3, Reg::Y),
            0xA5 => self.load(Mode::ZeroPage, 3, Reg::A),
            0xA6 => self.load(Mode::ZeroPage, 3, Reg::X),
            0xA7 => self.load(Mode::ZeroPage, 3, Reg::AX),
            0xA8 => self.tay(),
            0xA9 => self.load(Mode::Immediate, 2, Reg::A),
            0xAA => self.tax(),
            0xAB => self.unofficial_imm(Imm::Lxa),
            0xAC => self.load(Mode::Absolute, 4, Reg::Y),
            0xAD => self.load(Mode::Absolute, 4, Reg::A),
            0xAE => self.load(Mode::Absolute, 4, Reg::X),
            0xAF => self.load(Mode::Absolute, 4, Reg::AX),
            _ => self.jam(),
        }
    }

    fn execute_row_b(&mut self, op: u8)
        requires
            old(self).bus_ok(),
            old(self).cycles + CYCLE_HEADROOM <= usize::MAX,
        ensures
            final(self).model() == Self::executed_row_b(old(self).model(), op),
            final(self).bus_ok(),
    {
        match op {
            0xB0 => { let c = self.status & FLAG_CARRY != 0; self.branch(c) },
            0xB1 => self.load(Mode::IndirectY, 5, Reg::A),
            0xB3 => self.load(Mode::IndirectY, 5, Reg::AX),
            0xB4 => self.load(Mode::ZeroPageX, 4, Reg::Y),
            0xB5 => self.load(Mode::ZeroPageX, 4, Reg::A),
            0xB6 => self.load(Mode::ZeroPageY, 4, Reg::X),
            0xB7 => self.load(Mode::ZeroPageY, 4, Reg::AX),
            0xB8 => self.flag_op(FLAG_OVERFLOW, false),
            0xB9 => self.load(Mode::AbsoluteY, 4, Reg::A),
            0xBA => self.tsx(),
            0xBC => self.load(Mode::AbsoluteX, 4, Reg::Y),
            0xBD => self.load(Mode::AbsoluteX, 4, Reg::A),
            0xBE => self.load(Mode::AbsoluteY, 4, Reg::X),
            0xBF => self.load(Mode::AbsoluteY, 4, Reg::AX),
            _ => self.jam(),
        }
    }

    fn execute_row_c(&mut self, op: u8)
        requires
            old(self).bus_ok(),
            old(self).cycles + CYCLE_HEADROOM <= usize::MAX,
        ensures
            final(self).model() == Self::executed_row_c(old(self).model(), op),
            final(self).bus_ok(),
    {
        match op {
            0xC0 => { let r = self.y; self.compare(Mode::Immediate, 2, r) },
            0xC1 => { let r = self.a; self.compare(Mode::IndirectX, 6, r) },
            0xC2 => self.nop_read(Mode::Immediate, 2),
            0xC3 => self.rmw(Mode::IndirectX, 8, Rmw::Dcp),
            0xC4 => { let r = self.y; self.compare(Mode::ZeroPage, 3, r) },
            0xC5 => { let r = self.a; self.compare(Mode::ZeroPage, 3, r) },
            0xC6 => self.rmw(Mode::ZeroPage, 5, Rmw::Dec),
            0xC7 => self.rmw(Mode::ZeroPage, 5, Rmw::Dcp),
            0xC8 => self.iny(),
            0xC9 => { let r = self.a; self.compare(Mode::Immediate, 2, r) },
            0xCA => self.dex(),
            0xCB => self.unofficial_imm(Imm::Axs),
            0xCC => { let r = self.y; self.compare(Mode::Absolute, 4, r) },
            0xCD => { let r = self.a; self.compare(Mode::Absolute, 4, r) },
            0xCE => self.rmw(Mode::Absolute, 6, Rmw::Dec),
            0xCF => self.rmw(Mode::Absolute, 6, Rmw::Dcp),
            _ => self.jam(),
        }
    }

    fn execute_row_d(&mut self, op: u8)
        requires
            old(self).bus_ok(),
            old(self).cycles + CYCLE_HEADROOM <= usize::MAX,
        ensures
            final(self).model() == Self::executed_row_d(old(self).model(), op),
            final(self).bus_ok(),
    {
        match op {
            0xD0 => { let c = self.status & FLAG_ZERO == 0; self.branch(c) },
            0xD1 => { let r = self.a; self.compare(Mode::IndirectY, 5, r) },
            0xD3 => self.rmw(Mode::IndirectY, 8, Rmw::Dcp),
            0xD4 => self.nop_read(Mode::ZeroPageX, 4),
            0xD5 => { let r = self.a; self.compare(Mode::ZeroPageX, 4, r) },
            0xD6 => self.rmw(Mode::ZeroPageX, 6, Rmw::Dec),
            0xD7 => self.rmw(Mode::ZeroPageX, 6, Rmw::Dcp),
            0xD8 => self.flag_op(FLAG_DECIMAL, false),
            0xD9 => { let r = self.a; self.compare(Mode::AbsoluteY, 4, r) },
            0xDA => self.nop(),
            0xDB => self.rmw(Mode::AbsoluteY, 7, Rmw::Dcp),
            0xDC => self.nop_read(Mode::AbsoluteX, 4),
            0xDD => { let r = self.a; self.compare(Mode::AbsoluteX, 4, r) },
            0xDE => self.rmw(Mode::AbsoluteX, 7, Rmw::Dec),
            0xDF => self.rmw(Mode::AbsoluteX, 7, Rmw::Dcp),
            _ => self.jam(),
        }
    }

    fn execute_row_e(&mut self, op: u8)
        requires
            old(self).bus_ok(),
            old(self).cycles + CYCLE_HEADROOM <= usize::MAX,
        ensures
            final(self).model() == Self::executed_row_e(old(self).model(), op),
            final(self).bus_ok(),
    {
        match op {
            0xE0 => { let r = self.x; self.compare(Mode::Immediate, 2, r) },
            0xE1 => self.add_operand(Mode::IndirectX, 6, true),
            0xE2 => self.nop_read(Mode::Immediate, 2),
            0xE3 => self.rmw(Mode::IndirectX, 8, Rmw::Isc),
            0xE4 => { let r = self.x; self.compare(Mode::ZeroPage, 3, r) },
            0xE5 => self.add_operand(Mode::ZeroPage, 3, true),
            0xE6 => self.rmw(Mode::ZeroPage, 5, Rmw::Inc),
            0xE7 => self.rmw(Mode::ZeroPage, 5, Rmw::Isc),
            0xE8 => self.inx(),
            0xE9 => self.add_operand(Mode::Immediate, 2, true),
            0xEA => self.nop(),
            0xEB => self.add_operand(Mode::Immediate, 2, true),
            0xEC => { let r = self.x; self.compare(Mode::Absolute, 4, r) },
            0xED => self.add_operand(Mode::Absolute, 4, true),
            0xEE => self.rmw(Mode::Absolute, 6, Rmw::Inc),
            0xEF => self.rmw(Mode::Absolute, 6, Rmw::Isc),
            _ => self.jam(),
        }
    }

    fn execute_row_f(&mut self, op: u8)
        requires
            old(self).bus_ok(),
            old(self).cycles + CYCLE_HEADROOM <= usize::MAX,
        ensures
            final(self).model() == Self::executed_row_f(old(self).model(), op),
            final(self).bus_ok(),
    {
        match op {
            0xF0 => { let c = self.status & FLAG_ZERO != 0; self.branch(c) },
            0xF1 => self.add_operand(Mode::IndirectY, 5, true),
            0xF3 => self.rmw(Mode::IndirectY, 8, Rmw::Isc),
            0xF4 => self.nop_read(Mode::ZeroPageX, 4),
            0xF5 => self.add_operand(Mode::ZeroPageX, 4, true),
            0xF6 => self.rmw(Mode::ZeroPageX, 6, Rmw::Inc),
            0xF7 => self.rmw(Mode::ZeroPageX, 6, Rmw::Isc),
            0xF8 => self.flag_op(FLAG_DECIMAL, true),
            0xF9 => self.add_operand(Mode::AbsoluteY, 4, true),
            0xFA => self.nop(),
            0xFB => self.rmw(Mode::AbsoluteY, 7, Rmw::Isc),
            0xFC => self.nop_read(Mode::AbsoluteX, 4),
            0xFD => self.add_operand(Mode::AbsoluteX, 4, true),
            0xFE => self.rmw(Mode::AbsoluteX, 7, Rmw::Inc),
            0xFF => self.rmw(Mode::AbsoluteX, 7, Rmw::Isc),
            _ => self.jam(),
        }
    }

    /// Executes the already fetched opcode `op`.
    fn execute_opcode(&mut self, op: u8)
        requires
            old(self).bus_ok(),
            old(self).cycles + CYCLE_HEADROOM <= usize::MAX,
        ensures
            final(self).model() == Self::executed(old(self).model(), op),
            final(self).bus_ok(),
    {
        let row = op / 16;
        if row == 0 {
            self.execute_row_0(op);
        } else if row == 1 {
            self.execute_row_1(op);
        } else if row == 2 {
            self.execute_row_2(op);
        } else if row == 3 {
            self.execute_row_3(op);
        } else if row == 4 {
            self.execute_row_4(op);
        } else if row == 5 {
            self.execute_row_5(op);
        } else if row == 6 {
            self.execute_row_6(op);
        } else if row == 7 {
            self.execute_row_7(op);
        } else if row == 8 {
            self.execute_row_8(op);
        } else if row == 9 {
            self.execute_row_9(op);
        } else if row == 10 {
            self.execute_row_a(op);
        } else if row == 11 {
            self.execute_row_b(op);
        } else if row == 12 {
            self.execute_row_c(op);
        } else if row == 13 {
            self.execute_row_d(op);
        } else if row == 14 {
            self.execute_row_e(op);
        } else {
            self.execute_row_f(op);
        }
    }

}

impl<B: Bus> CPU<B> {
    /// Interrupt service at an instruction boundary: a pending NMI is taken
    /// (the poll acknowledges it); otherwise a held IRQ line is taken when I
    /// is clear.
    pub open spec fn serviced(s: CpuState<B::State>) -> CpuState<B::State> {
        let s0 = CpuState { bus: B::after_nmi_poll(s.bus), ..s };
        if B::nmi_line(s.bus) {
            Self::after_nmi(s0)
        } else if s.status & FLAG_INTERRUPT_DISABLE == 0 && B::irq_line(s0.bus) {
            Self::after_irq(s0)
        } else {
            s0
        }
    }

    /// The state after the instruction of one step, before the bus is clocked.
    pub open spec fn stepped(s: CpuState<B::State>) -> CpuState<B::State> {
        let s1 = Self::serviced(s);
        let (op, s2) = Self::fetched(s1);
        Self::executed(s2, op)
    }

    /// Reset: PC from the vector at $FFFC/$FFFD, SP = $FD, P = $24 (I and U),
    /// A = X = Y = 0, and the 7 cycles of the reset sequence.
    pub fn reset(&mut self)
        requires
            old(self).bus_ok(),
        ensures
            ({
                let (lo, t) = Self::rd(old(self).model(), 0xFFFC);
                let (hi, u) = Self::rd(t, 0xFFFD);
                final(self).model() == (CpuState {
                    pc: word(lo, hi),
                    sp: 0xFD,
                    status: FLAG_INTERRUPT_DISABLE | FLAG_UNUSED,
                    a: 0,
                    x: 0,
                    y: 0,
                    halted: false,
                    cycles: 7,
                    ..u
                })
            }),
            final(self).bus_ok(),
    {
        let lo = self.read(0xFFFC);
        let hi = self.read(0xFFFD);
        self.pc = ((hi as u16) << 8) | lo as u16;
        self.sp = 0xFD;
        self.status = FLAG_INTERRUPT_DISABLE | FLAG_UNUSED;
        self.a = 0;
        self.x = 0;
        self.y = 0;
        self.halted = false;
        self.cycles = 7;
    }

    /// One step: services a pending interrupt, fetches and executes one
    /// instruction, and clocks the bus by exactly the cycles that this step
    /// took. A halted CPU does nothing.
    pub fn step(&mut self)
        requires
            old(self).bus_ok(),
            old(self).cycles + 2 * CYCLE_HEADROOM <= usize::MAX,
        ensures
            old(self).halted ==> final(self).model() == old(self).model(),
            !old(self).halted ==> ({
                let s3 = Self::stepped(old(self).model());
                &&& final(self).model() == (CpuState { bus: final(self).bus.state(), ..s3 })
                &&& B::ticked(s3.bus, (s3.cycles - old(self).cycles) as usize, final(self).bus.state())
            }),
            final(self).cycles >= old(self).cycles,
            !old(self).halted ==> final(self).halted || final(self).cycles >= old(self).cycles + 2,
            final(self).cycles <= old(self).cycles + 2 * CYCLE_HEADROOM,
            final(self).bus_ok(),
    {
        if self.halted {
            return;
        }
        let start = self.cycles;
        let nmi = self.bus.poll_nmi();
        if nmi {
            self.nmi();
        } else if self.status & FLAG_INTERRUPT_DISABLE == 0 && self.bus.poll_irq() {
            self.irq();
        }
        let op = self.fetch_byte();
        proof {
            lemma_executed_cycles::<B>(self.model(), op);
            lemma_executed_progress::<B>(self.model(), op);
        }
        self.execute_opcode(op);
        let diff = self.cycles - start;
        self.bus.tick(diff);
    }
}

/// Reading operands and the stack takes no cycles of its own: cycle counts
/// are charged by each instruction.
proof fn lemma_operand_cycles<B: Bus>(s: CpuState<B::State>)
    ensures
        forall|m: Mode| (#[trigger] CPU::<B>::operand(s, m)).2.cycles == s.cycles,
        forall|m: Mode| (#[trigger] CPU::<B>::operand_value(s, m)).2.cycles == s.cycles,
{
}

/// Every opcode takes between 0 and 8 cycles (0 only when it jams).
pub proof fn lemma_executed_cycles<B: Bus>(s: CpuState<B::State>, op: u8)
    ensures
        s.cycles <= CPU::<B>::executed(s, op).cycles <= s.cycles + 8,
{
    lemma_operand_cycles::<B>(s);
    if op / 16 == 0 {
        assert(s.cycles <= CPU::<B>::executed_row_0(s, op).cycles <= s.cycles + 8);
    } else if op / 16 == 1 {
        assert(s.cycles <= CPU::<B>::executed_row_1(s, op).cycles <= s.cycles + 8);
    } else if op / 16 == 2 {
        assert(s.cycles <= CPU::<B>::executed_row_2(s, op).cycles <= s.cycles + 8);
    } else if op / 16 == 3 {
        assert(s.cycles <= CPU::<B>::executed_row_3(s, op).cycles <= s.cycles + 8);
    } else if op / 16 == 4 {
        assert(s.cycles <= CPU::<B>::executed_row_4(s, op).cycles <= s.cycles + 8);
    } else if op / 16 == 5 {
        assert(s.cycles <= CPU::<B>::executed_row_5(s, op).cycles <= s.cycles + 8);
    } else if op / 16 == 6 {
        assert(s.cycles <= CPU::<B>::executed_row_6(s, op).cycles <= s.cycles + 8);
    } else if op / 16 == 7 {
        assert(s.cycles <= CPU::<B>::executed_row_7(s, op).cycles <= s.cycles + 8);
    } else if op / 16 == 8 {
        assert(s.cycles <= CPU::<B>::executed_row_8(s, op).cycles <= s.cycles + 8);
    } else if op / 16 == 9 {
        assert(s.cycles <= CPU::<B>::executed_row_9(s, op).cycles <= s.cycles + 8);
    } else if op / 16 == 10 {
        assert(s.cycles <= CPU::<B>::executed_row_a(s, op).cycles <= s.cycles + 8);
    } else if op / 16 == 11 {
        assert(s.cycles <= CPU::<B>::executed_row_b(s, op).cycles <= s.cycles + 8);
    } else if op / 16 == 12 {
        assert(s.cycles <= CPU::<B>::executed_row_c(s, op).cycles <= s.cycles + 8);
    } else if op / 16 == 13 {
        assert(s.cycles <= CPU::<B>::executed_row_d(s, op).cycles <= s.cycles + 8);
    } else if op / 16 == 14 {
        assert(s.cycles <= CPU::<B>::executed_row_e(s, op).cycles <= s.cycles + 8);
    } else if op / 16 == 15 {
        assert(s.cycles <= CPU::<B>::executed_row_f(s, op).cycles <= s.cycles + 8);
    }
}

/// JMP ($xxFF) takes the low byte of its target from $xxFF and the high byte
/// from $xx00 of the same page: `after_jmp_indirect` reads the high byte from
/// this address.
pub proof fn lemma_jmp_indirect_page_wrap(w: u16)
    requires
        w & 0xFF == 0xFF,
    ensures
        (w & 0xFF00) | (u16_specs::wrapping_add(w, 1) & 0x00FF) == w & 0xFF00,
{
    let n = u16_specs::wrapping_add(w, 1);
    assert(n == (if w == 0xFFFF { 0u16 } else { (w + 1) as u16 }));
    assert(w & 0xFF == 0xFF ==> (w & 0xFF00) | ((if w == 0xFFFF { 0u16 } else { (w + 1) as u16 })
        & 0x00FF) == w & 0xFF00) by (bit_vector);
}

/// The documented cycle count of each opcode before page-crossing and
/// branch adjustments; 0 for the opcodes that jam.
pub open spec fn base_cycles(op: u8) -> int {
    match op {
        0x00 => 7,
        0x01 => 6,
        0x03 => 8,
        0x04 => 3,
        0x05 => 3,
        0x06 => 5,
        0x07 => 5,
        0x08 => 3,
        0x09 => 2,
        0x0A => 2,
        0x0B => 2,
        0x0C => 4,
        0x0D => 4,
        0x0E => 6,
        0x0F => 6,
        0x10 => 2,
        0x11 => 5,
        0x13 => 8,
        0x14 => 4,
        0x15 => 4,
        0x16 => 6,
        0x17 => 6,
        0x18 => 2,
        0x19 => 4,
        0x1A => 2,
        0x1B => 7,
        0x1C => 4,
        0x1D => 4,
        0x1E => 7,
        0x1F => 7,
        0x20 => 6,
        0x21 => 6,
        0x23 => 8,
        0x24 => 3,
        0x25 => 3,
        0x26 => 5,
        0x27 => 5,
        0x28 => 4,
        0x29 => 2,
        0x2A => 2,
        0x2B => 2,
        0x2C => 4,
        0x2D => 4,
        0x2E => 6,
        0x2F => 6,
        0x30 => 2,
        0x31 => 5,
        0x33 => 8,
        0x34 => 4,
        0x35 => 4,
        0x36 => 6,
        0x37 => 6,
        0x38 => 2,
        0x39 => 4,
        0x3A => 2,
        0x3B => 7,
        0x3C => 4,
        0x3D => 4,
        0x3E => 7,
        0x3F => 7,
        0x40 => 6,
        0x41 => 6,
        0x43 => 8,
        0x44 => 3,
        0x45 => 3,
        0x46 => 5,
        0x47 => 5,
        0x48 => 3,
        0x49 => 2,
        0x4A => 2,
        0x4B => 2,
        0x4C => 3,
        0x4D => 4,
        0x4E => 6,
        0x4F => 6,
        0x50 => 2,
        0x51 => 5,
        0x53 => 8,
        0x54 => 4,
        0x55 => 4,
        0x56 => 6,
        0x57 => 6,
        0x58 => 2,
        0x59 => 4,
        0x5A => 2,
        0x5B => 7,
        0x5C => 4,
        0x5D => 4,
        0x5E => 7,
        0x5F => 7,
        0x60 => 6,
        0x61 => 6,
        0x63 => 8,
        0x64 => 3,
        0x65 => 3,
        0x66 => 5,
        0x67 => 5,
        0x68 => 4,
        0x69 => 2,
        0x6A => 2,
        0x6B => 2,
        0x6C => 5,
        0x6D => 4,
        0x6E => 6,
        0x6F => 6,
        0x70 => 2,
        0x71 => 5,
        0x73 => 8,
        0x74 => 4,
        0x75 => 4,
        0x76 => 6,
        0x77 => 6,
        0x78 => 2,
        0x79 => 4,
        0x7A => 2,
        0x7B => 7,
        0x7C => 4,
        0x7D => 4,
        0x7E => 7,
        0x7F => 7,
        0x80 => 2,
        0x81 => 6,
        0x82 => 2,
        0x83 => 6,
        0x84 => 3,
        0x85 => 3,
        0x86 => 3,
        0x87 => 3,
        0x88 => 2,
        0x89 => 2,
        0x8A => 2,
        0x8B => 2,
        0x8C => 4,
        0x8D => 4,
        0x8E => 4,
        0x8F => 4,
        0x90 => 2,
        0x91 => 6,
        0x94 => 4,
        0x95 => 4,
        0x96 => 4,
        0x97 => 4,
        0x98 => 2,
        0x99 => 5,
        0x9A => 2,
        0x9D => 5,
        0xA0 => 2,
        0xA1 => 6,
        0xA2 => 2,
        0xA3 => 6,
        0xA4 => 3,
        0xA5 => 3,
        0xA6 => 3,
        0xA7 => 3,
        0xA8 => 2,
        0xA9 => 2,
        0xAA => 2,
        0xAB => 2,
        0xAC => 4,
        0xAD => 4,
        0xAE => 4,
        0xAF => 4,
        0xB0 => 2,
        0xB1 => 5,
        0xB3 => 5,
        0xB4 => 4,
        0xB5 => 4,
        0xB6 => 4,
        0xB7 => 4,
        0xB8 => 2,
        0xB9 => 4,
        0xBA => 2,
        0xBC => 4,
        0xBD => 4,
        0xBE => 4,
        0xBF => 4,
        0xC0 => 2,
        0xC1 => 6,
        0xC2 => 2,
        0xC3 => 8,
        0xC4 => 3,
        0xC5 => 3,
        0xC6 => 5,
        0xC7 => 5,
        0xC8 => 2,
        0xC9 => 2,
        0xCA => 2,
        0xCB => 2,
        0xCC => 4,
        0xCD => 4,
        0xCE => 6,
        0xCF => 6,
        0xD0 => 2,
        0xD1 => 5,
        0xD3 => 8,
        0xD4 => 4,
        0xD5 => 4,
        0xD6 => 6,
        0xD7 => 6,
        0xD8 => 2,
        0xD9 => 4,
        0xDA => 2,
        0xDB => 7,
        0xDC => 4,
        0xDD => 4,
        0xDE => 7,
        0xDF => 7,
        0xE0 => 2,
        0xE1 => 6,
        0xE2 => 2,
        0xE3 => 8,
        0xE4 => 3,
        0xE5 => 3,
        0xE6 => 5,
        0xE7 => 5,
        0xE8 => 2,
        0xE9 => 2,
        0xEA => 2,
        0xEB => 2,
        0xEC => 4,
        0xED => 4,
        0xEE => 6,
        0xEF => 6,
        0xF0 => 2,
        0xF1 => 5,
        0xF3 => 8,
        0xF4 => 4,
        0xF5 => 4,
        0xF6 => 6,
        0xF7 => 6,
        0xF8 => 2,
        0xF9 => 4,
        0xFA => 2,
        0xFB => 7,
        0xFC => 4,
        0xFD => 4,
        0xFE => 7,
        0xFF => 7,
        _ => 0,
    }
}

/// The opcodes whose indexed read costs one more cycle when it crosses a
/// page, with their addressing mode.
pub open spec fn page_cross_mode(op: u8) -> Option<Mode> {
    match op {
        0x11 => Some(Mode::IndirectY),
        0x19 => Some(Mode::AbsoluteY),
        0x1C => Some(Mode::AbsoluteX),
        0x1D => Some(Mode::AbsoluteX),
        0x31 => Some(Mode::IndirectY),
        0x39 => Some(Mode::AbsoluteY),
        0x3C => Some(Mode::AbsoluteX),
        0x3D => Some(Mode::AbsoluteX),
        0x51 => Some(Mode::IndirectY),
        0x59 => Some(Mode::AbsoluteY),
        0x5C => Some(Mode::AbsoluteX),
        0x5D => Some(Mode::AbsoluteX),
        0x71 => Some(Mode::IndirectY),
        0x79 => Some(Mode::AbsoluteY),
        0x7C => Some(Mode::AbsoluteX),
        0x7D => Some(Mode::AbsoluteX),
        0xB1 => Some(Mode::IndirectY),
        0xB3 => Some(Mode::IndirectY),
        0xB9 => Some(Mode::AbsoluteY),
        0xBC => Some(Mode::AbsoluteX),
        0xBD => Some(Mode::AbsoluteX),
        0xBE => Some(Mode::AbsoluteY),
        0xBF => Some(Mode::AbsoluteY),
        0xD1 => Some(Mode::IndirectY),
        0xD9 => Some(Mode::AbsoluteY),
        0xDC => Some(Mode::AbsoluteX),
        0xDD => Some(Mode::AbsoluteX),
        0xF1 => Some(Mode::IndirectY),
        0xF9 => Some(Mode::AbsoluteY),
        0xFC => Some(Mode::AbsoluteX),
        0xFD => Some(Mode::AbsoluteX),
        _ => None,
    }
}

/// Branches: opcodes $10, $30, ..., $F0.
pub open spec fn is_branch(op: u8) -> bool {
    op % 32 == 16
}

/// Whether branch `op` is taken with status `p`: BPL/BMI test N, BVC/BVS V,
/// BCC/BCS C, BNE/BEQ Z.
pub open spec fn branch_taken(op: u8, p: u8) -> bool {
    let f = if op < 0x40 {
        FLAG_NEGATIVE
    } else if op < 0x80 {
        FLAG_OVERFLOW
    } else if op < 0xC0 {
        FLAG_CARRY
    } else {
        FLAG_ZERO
    };
    (p & f != 0) == ((op / 32) % 2 == 1)
}

/// Cycles beyond `base_cycles`: one for an indexed read that crosses a page;
/// for a taken branch one, and one more when the target is on another page.
/// `s` is the state after the opcode byte was fetched.
pub open spec fn extra_cycles<B: Bus>(s: CpuState<B::State>, op: u8) -> int {
    match page_cross_mode(op) {
        Some(m) => CPU::<B>::penalty(CPU::<B>::operand(s, m).1),
        None => if is_branch(op) && branch_taken(op, s.status) {
            let (off, t) = CPU::<B>::fetched(s);
            let target = if off < 128 {
                u16_specs::wrapping_add(t.pc, off as u16)
            } else {
                u16_specs::wrapping_sub(t.pc, (256 - off) as u16)
            };
            1 + CPU::<B>::penalty(page_crossed(t.pc, target))
        } else {
            0
        },
    }
}

/// Every instruction takes exactly its documented cycle count, plus one for
/// a page-crossing indexed read, plus one for a taken branch and one more if
/// the branch crosses a page.
#[verifier::rlimit(60)]
pub proof fn lemma_cycle_cost<B: Bus>(s: CpuState<B::State>, op: u8)
    ensures
        CPU::<B>::executed(s, op).cycles == s.cycles + base_cycles(op) + extra_cycles::<B>(s, op),
{
    lemma_operand_cycles::<B>(s);
    assert(CPU::<B>::fetched(s).1.cycles == s.cycles);
    if op / 16 == 0 {
        assert(CPU::<B>::executed_row_0(s, op).cycles == s.cycles + base_cycles(op) + extra_cycles::<B>(s, op));
    } else if op / 16 == 1 {
        assert(CPU::<B>::executed_row_1(s, op).cycles == s.cycles + base_cycles(op) + extra_cycles::<B>(s, op));
    } else if op / 16 == 2 {
        assert(CPU::<B>::executed_row_2(s, op).cycles == s.cycles + base_cycles(op) + extra_cycles::<B>(s, op));
    } else if op / 16 == 3 {
        assert(CPU::<B>::executed_row_3(s, op).cycles == s.cycles + base_cycles(op) + extra_cycles::<B>(s, op));
    } else if op / 16 == 4 {
        assert(CPU::<B>::executed_row_4(s, op).cycles == s.cycles + base_cycles(op) + extra_cycles::<B>(s, op));
    } else if op / 16 == 5 {
        assert(CPU::<B>::executed_row_5(s, op).cycles == s.cycles + base_cycles(op) + extra_cycles::<B>(s, op));
    } else if op / 16 == 6 {
        assert(CPU::<B>::executed_row_6(s, op).cycles == s.cycles + base_cycles(op) + extra_cycles::<B>(s, op));
    } else if op / 16 == 7 {
        assert(CPU::<B>::executed_row_7(s, op).cycles == s.cycles + base_cycles(op) + extra_cycles::<B>(s, op));
    } else if op / 16 == 8 {
        assert(CPU::<B>::executed_row_8(s, op).cycles == s.cycles + base_cycles(op) + extra_cycles::<B>(s, op));
    } else if op / 16 == 9 {
        assert(CPU::<B>::executed_row_9(s, op).cycles == s.cycles + base_cycles(op) + extra_cycles::<B>(s, op));
    } else if op / 16 == 10 {
        assert(CPU::<B>::executed_row_a(s, op).cycles == s.cycles + base_cycles(op) + extra_cycles::<B>(s, op));
    } else if op / 16 == 11 {
        assert(CPU::<B>::executed_row_b(s, op).cycles == s.cycles + base_cycles(op) + extra_cycles::<B>(s, op));
    } else if op / 16 == 12 {
        assert(CPU::<B>::executed_row_c(s, op).cycles == s.cycles + base_cycles(op) + extra_cycles::<B>(s, op));
    } else if op / 16 == 13 {
        assert(CPU::<B>::executed_row_d(s, op).cycles == s.cycles + base_cycles(op) + extra_cycles::<B>(s, op));
    } else if op / 16 == 14 {
        assert(CPU::<B>::executed_row_e(s, op).cycles == s.cycles + base_cycles(op) + extra_cycles::<B>(s, op));
    } else if op / 16 == 15 {
        assert(CPU::<B>::executed_row_f(s, op).cycles == s.cycles + base_cycles(op) + extra_cycles::<B>(s, op));
    }
}

/// An instruction that does not jam takes at least two cycles.
pub proof fn lemma_executed_progress<B: Bus>(s: CpuState<B::State>, op: u8)
    requires
        !s.halted,
    ensures
        CPU::<B>::executed(s, op).halted || CPU::<B>::executed(s, op).cycles >= s.cycles + 2,
{
    lemma_operand_cycles::<B>(s);
    if op / 16 == 0 {
        assert(CPU::<B>::executed_row_0(s, op).halted || CPU::<B>::executed_row_0(s, op).cycles >= s.cycles + 2);
    } else if op / 16 == 1 {
        assert(CPU::<B>::executed_row_1(s, op).halted || CPU::<B>::executed_row_1(s, op).cycles >= s.cycles + 2);
    } else if op / 16 == 2 {
        assert(CPU::<B>::executed_row_2(s, op).halted || CPU::<B>::executed_row_2(s, op).cycles >= s.cycles + 2);
    } else if op / 16 == 3 {
        assert(CPU::<B>::executed_row_3(s, op).halted || CPU::<B>::executed_row_3(s, op).cycles >= s.cycles + 2);
    } else if op / 16 == 4 {
        assert(CPU::<B>::executed_row_4(s, op).halted || CPU::<B>::executed_row_4(s, op).cycles >= s.cycles + 2);
    } else if op / 16 == 5 {
        assert(CPU::<B>::executed_row_5(s, op).halted || CPU::<B>::executed_row_5(s, op).cycles >= s.cycles + 2);
    } else if op / 16 == 6 {
        assert(CPU::<B>::executed_row_6(s, op).halted || CPU::<B>::executed_row_6(s, op).cycles >= s.cycles + 2);
    } else if op / 16 == 7 {
        assert(CPU::<B>::executed_row_7(s, op).halted || CPU::<B>::executed_row_7(s, op).cycles >= s.cycles + 2);
    } else if op / 16 == 8 {
        assert(CPU::<B>::executed_row_8(s, op).halted || CPU::<B>::executed_row_8(s, op).cycles >= s.cycles + 2);
    } else if op / 16 == 9 {
        assert(CPU::<B>::executed_row_9(s, op).halted || CPU::<B>::executed_row_9(s, op).cycles >= s.cycles + 2);
    } else if op / 16 == 10 {
        assert(CPU::<B>::executed_row_a(s, op).halted || CPU::<B>::executed_row_a(s, op).cycles >= s.cycles + 2);
    } else if op / 16 == 11 {
        assert(CPU::<B>::executed_row_b(s, op).halted || CPU::<B>::executed_row_b(s, op).cycles >= s.cycles + 2);
    } else if op / 16 == 12 {
        assert(CPU::<B>::executed_row_c(s, op).halted || CPU::<B>::executed_row_c(s, op).cycles >= s.cycles + 2);
    } else if op / 16 == 13 {
        assert(CPU::<B>::executed_row_d(s, op).halted || CPU::<B>::executed_row_d(s, op).cycles >= s.cycles + 2);
    } else if op / 16 == 14 {
        assert(CPU::<B>::executed_row_e(s, op).halted || CPU::<B>::executed_row_e(s, op).cycles >= s.cycles + 2);
    } else if op / 16 == 15 {
        assert(CPU::<B>::executed_row_f(s, op).halted || CPU::<B>::executed_row_f(s, op).cycles >= s.cycles + 2);
    }
}

} // verus!

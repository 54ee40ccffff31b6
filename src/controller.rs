//! The standard controller on port $4016: an 8-bit latch and shift register.
use vstd::prelude::*;

verus! {

/// Controller on port 1. Bit order of `state`: A, B, Select, Start, Up, Down,
/// Left, Right (bit 0 is A). A set bit means the button is held.
pub struct Controller {
    /// Buttons held now.
    pub state: u8,
    /// Shift register: the next read returns its low bit.
    pub shift: u8,
    /// While set, the shift register keeps reloading from `state`.
    pub strobe: bool,
}

impl Controller {
    /// Bit 0 of the next read of $4016.
    pub open spec fn next_bit(&self) -> u8 {
        if self.strobe {
            self.state & 1
        } else {
            self.shift & 1
        }
    }

    /// The controller after one read of $4016. Once shifted out, the
    /// register fills with ones, so reads past the eighth return 1.
    pub open spec fn after_read(&self) -> Controller {
        if self.strobe {
            *self
        } else {
            Controller { shift: (self.shift >> 1) | 0x80, ..*self }
        }
    }

    /// The controller after a write of `data` to $4016.
    pub open spec fn after_write(&self, data: u8) -> Controller {
        Controller {
            strobe: data & 1 == 1,
            shift: if self.strobe || data & 1 == 1 {
                self.state
            } else {
                self.shift
            },
            ..*self
        }
    }

    /// The controller after `n` reads.
    pub open spec fn after_reads(&self, n: nat) -> Controller
        decreases n,
    {
        if n == 0 {
            *self
        } else {
            self.after_reads((n - 1) as nat).after_read()
        }
    }

    /// A controller with no button held.
    pub fn new() -> (c: Controller)
        ensures
            c.state == 0,
            c.shift == 0,
            !c.strobe,
    {
        Controller { state: 0, shift: 0, strobe: false }
    }

    /// Sets the buttons held; `mask` uses the bit order of `state`.
    pub fn set_buttons(&mut self, mask: u8)
        ensures
            *final(self) == (Controller { state: mask, ..*old(self) }),
    {
        self.state = mask;
    }

    /// Read of $4016: one button bit in bit 0, with the open-bus value $40
    /// in the upper bits.
    pub fn read(&mut self) -> (r: u8)
        ensures
            r == old(self).next_bit() | 0x40,
            *final(self) == old(self).after_read(),
    {
        let bit = if self.strobe {
            self.state & 1
        } else {
            self.shift & 1
        };
        if !self.strobe {
            self.shift = (self.shift >> 1) | 0x80;
        }
        bit | 0x40
    }

    /// Write of $4016: bit 0 set enters strobe, clear leaves it; the shift
    /// register holds the buttons latched at the moment strobe ends.
    pub fn write(&mut self, data: u8)
        ensures
            *final(self) == old(self).after_write(data),
    {
        if self.strobe || data & 1 == 1 {
            self.shift = self.state;
        }
        self.strobe = data & 1 == 1;
    }
}

/// After a write of 1 and a write of 0 to $4016, the first eight reads return
/// the buttons in the order A, B, Select, Start, Up, Down, Left, Right, and
/// every later read returns 1.
pub proof fn lemma_strobe_then_read_buttons(c: Controller)
    ensures
        forall|i: nat|
            i < 8 ==> #[trigger] c.after_write(1).after_write(0).after_reads(i).next_bit() == (
            c.state >> i as u8) & 1,
        forall|i: nat|
            i >= 8 ==> #[trigger] c.after_write(1).after_write(0).after_reads(i).next_bit() == 1,
{
    let s = c.after_write(1).after_write(0);
    let m = c.state;
    assert((1u8 & 1u8) == 1u8 && (0u8 & 1u8) == 0u8) by (bit_vector);
    assert(!s.strobe && s.shift == m);
    assert forall|i: nat| #[trigger] s.after_reads(i).shift == shifted_in_ones(m, i) by {
        lemma_reads_shift(s, i);
    }
    assert forall|i: nat| i < 8 implies #[trigger] s.after_reads(i).next_bit() == (m >> i as u8) & 1 by {
        lemma_reads_shift(s, i);
        lemma_shifted_low_bit(m, i);
    }
    assert forall|i: nat| i >= 8 implies #[trigger] s.after_reads(i).next_bit() == 1 by {
        lemma_reads_shift(s, i);
        lemma_shifted_low_bit(m, i);
    }
}

/// The shift register after `n` shifts that feed ones in at the top.
pub open spec fn shifted_in_ones(m: u8, n: nat) -> u8
    decreases n,
{
    if n == 0 {
        m
    } else {
        (shifted_in_ones(m, (n - 1) as nat) >> 1) | 0x80
    }
}

proof fn lemma_reads_shift(s: Controller, n: nat)
    requires
        !s.strobe,
    ensures
        s.after_reads(n).shift == shifted_in_ones(s.shift, n),
        !s.after_reads(n).strobe,
        s.after_reads(n).state == s.state,
    decreases n,
{
    if n > 0 {
        lemma_reads_shift(s, (n - 1) as nat);
    }
}

proof fn lemma_shifted_low_bit(m: u8, n: nat)
    ensures
        n < 8 ==> shifted_in_ones(m, n) & 1 == (m >> n as u8) & 1,
        n >= 8 ==> shifted_in_ones(m, n) & 1 == 1,
{
    if n < 8 {
        lemma_shifted_prefix(m, n);
    } else {
        lemma_shifted_saturates(m, n);
        assert((0xFFu8 & 1u8) == 1u8) by (bit_vector);
    }
}

proof fn lemma_shifted_prefix(m: u8, n: nat)
    requires
        n <= 8,
    ensures
        n < 8 ==> shifted_in_ones(m, n) & 1 == (m >> n as u8) & 1,
        n == 8 ==> shifted_in_ones(m, n) == 0xFF,
{
    reveal_with_fuel(shifted_in_ones, 9);
    let a1 = (m >> 1) | 0x80;
    let a2 = (a1 >> 1) | 0x80;
    let a3 = (a2 >> 1) | 0x80;
    let a4 = (a3 >> 1) | 0x80;
    let a5 = (a4 >> 1) | 0x80;
    let a6 = (a5 >> 1) | 0x80;
    let a7 = (a6 >> 1) | 0x80;
    let a8 = (a7 >> 1) | 0x80;
    assert(m & 1 == (m >> 0u8) & 1) by (bit_vector);
    assert(a1 & 1 == (m >> 1u8) & 1) by (bit_vector)
        requires a1 == (m >> 1) | 0x80;
    assert(a2 & 1 == (m >> 2u8) & 1) by (bit_vector)
        requires a1 == (m >> 1) | 0x80, a2 == (a1 >> 1) | 0x80;
    assert(a3 & 1 == (m >> 3u8) & 1) by (bit_vector)
        requires a1 == (m >> 1) | 0x80, a2 == (a1 >> 1) | 0x80, a3 == (a2 >> 1) | 0x80;
    assert(a4 & 1 == (m >> 4u8) & 1 && a5 & 1 == (m >> 5u8) & 1 && a6 & 1 == (m >> 6u8) & 1
        && a7 & 1 == (m >> 7u8) & 1 && a8 == 0xFF) by (bit_vector)
        requires
            a1 == (m >> 1) | 0x80, a2 == (a1 >> 1) | 0x80, a3 == (a2 >> 1) | 0x80,
            a4 == (a3 >> 1) | 0x80, a5 == (a4 >> 1) | 0x80, a6 == (a5 >> 1) | 0x80,
            a7 == (a6 >> 1) | 0x80, a8 == (a7 >> 1) | 0x80;
}

proof fn lemma_shifted_saturates(m: u8, n: nat)
    requires
        n >= 8,
    ensures
        shifted_in_ones(m, n) == 0xFF,
    decreases n,
{
    if n == 8 {
        lemma_shifted_prefix(m, 8);
    } else {
        lemma_shifted_saturates(m, (n - 1) as nat);
        assert(((0xFFu8 >> 1u8) | 0x80u8) == 0xFFu8) by (bit_vector);
    }
}

} // verus!

use elaris::bus::Bus;
use elaris::cpu::CPU;
use elaris::flags::{FLAG_NEGATIVE, FLAG_ZERO};

struct TestBus {
    mem: Vec<u8>,
}

impl TestBus {
    fn new() -> Self {
        Self { mem: vec![0; 65536] }
    }
}

// A flat 64 KiB memory with no devices; its state is not modelled.
impl Bus for TestBus {
    type State = ();

    fn state(&self) {}

    fn wf(_s: ()) -> bool {
        true
    }

    fn peek(_s: (), _addr: u16) -> u8 {
        0
    }

    fn after_read(_s: (), _addr: u16) {}

    fn after_write(_s: (), _addr: u16, _data: u8) {}

    fn ticked(_pre: (), _n: usize, _post: ()) -> bool {
        true
    }

    fn nmi_line(_s: ()) -> bool {
        false
    }

    fn after_nmi_poll(_s: ()) {}

    fn irq_line(_s: ()) -> bool {
        false
    }

    fn read(&mut self, addr: u16) -> u8 {
        self.mem[addr as usize]
    }

    fn write(&mut self, addr: u16, data: u8) {
        self.mem[addr as usize] = data;
    }

    fn tick(&mut self, _cycles: usize) {}

    fn poll_nmi(&mut self) -> bool {
        false
    }

    fn poll_irq(&self) -> bool {
        false
    }
}

fn new_cpu(bus: TestBus) -> CPU<TestBus> {
    CPU {
        a: 0,
        x: 0,
        y: 0,
        sp: 0,
        pc: 0,
        status: 0,
        cycles: 0,
        bus,
        halted: false,
    }
}

#[test]
fn lda_immediate_loads_value() {
    let mut bus = TestBus::new();
    bus.mem[0x8000] = 0xA9; // LDA #$42
    bus.mem[0x8001] = 0x42;
    bus.mem[0xFFFC] = 0x00;
    bus.mem[0xFFFD] = 0x80;
    let mut cpu = new_cpu(bus);
    cpu.reset();
    cpu.step();
    assert_eq!(cpu.a, 0x42)
}

#[test]
fn lda_sets_zero_flag() {
    let mut bus = TestBus::new();
    bus.mem[0x8000] = 0xA9; // LDA #$00
    bus.mem[0x8001] = 0x00;
    bus.mem[0xFFFC] = 0x00;
    bus.mem[0xFFFD] = 0x80;
    let mut cpu = new_cpu(bus);
    cpu.reset();
    cpu.step();
    assert!(cpu.status & FLAG_ZERO != 0)
}

#[test]
fn lda_sets_negative_flag() {
    let mut bus = TestBus::new();
    bus.mem[0x8000] = 0xA9; // LDA #$80
    bus.mem[0x8001] = 0x80;
    bus.mem[0xFFFC] = 0x00;
    bus.mem[0xFFFD] = 0x80;
    let mut cpu = new_cpu(bus);
    cpu.reset();
    cpu.step();
    assert!(cpu.status & FLAG_NEGATIVE != 0)
}

#[test]
fn tax_transfers_a_to_x() {
    let mut bus = TestBus::new();
    bus.mem[0x8000] = 0xA9; // LDA #$10
    bus.mem[0x8001] = 0x10;
    bus.mem[0x8002] = 0xAA; // TAX
    bus.mem[0xFFFC] = 0x00;
    bus.mem[0xFFFD] = 0x80;
    let mut cpu = new_cpu(bus);
    cpu.reset();
    cpu.step();
    cpu.step();
    assert_eq!(cpu.x, 0x10)
}

#[test]
fn sta_writes_to_memory() {
    let mut bus = TestBus::new();
    bus.mem[0x8000] = 0xA9; // LDA #$33
    bus.mem[0x8001] = 0x33;
    bus.mem[0x8002] = 0x8D; // STA $0200
    bus.mem[0x8003] = 0x00;
    bus.mem[0x8004] = 0x02;
    bus.mem[0xFFFC] = 0x00;
    bus.mem[0xFFFD] = 0x80;
    let mut cpu = new_cpu(bus);
    cpu.reset();
    cpu.step();
    cpu.step();
    assert_eq!(cpu.bus.mem[0x0200], 0x33);
}

#[test]
fn jmp_changes_program_counter() {
    let mut bus = TestBus::new();
    bus.mem[0x8000] = 0x4C; // JMP $9000
    bus.mem[0x8001] = 0x00;
    bus.mem[0x8002] = 0x90;
    bus.mem[0x9000] = 0xA9; // LDA #$55
    bus.mem[0x9001] = 0x55;
    bus.mem[0xFFFC] = 0x00;
    bus.mem[0xFFFD] = 0x80;
    let mut cpu = new_cpu(bus);
    cpu.reset();
    cpu.step();
    cpu.step();
    assert_eq!(cpu.a, 0x55);
}

#[test]
fn inx_increments_x() {
    let mut bus = TestBus::new();
    bus.mem[0x8000] = 0xA2; // LDX #$01
    bus.mem[0x8001] = 0x01;
    bus.mem[0x8002] = 0xE8; // INX
    bus.mem[0xFFFC] = 0x00;
    bus.mem[0xFFFD] = 0x80;
    let mut cpu = new_cpu(bus);
    cpu.reset();
    cpu.step();
    cpu.step();
    assert_eq!(cpu.x, 0x02);
}

#[test]
fn dex_sets_zero_flag() {
    let mut bus = TestBus::new();
    bus.mem[0x8000] = 0xA2; // LDX #$01
    bus.mem[0x8001] = 0x01;
    bus.mem[0x8002] = 0xCA; // DEX
    bus.mem[0xFFFC] = 0x00;
    bus.mem[0xFFFD] = 0x80;
    let mut cpu = new_cpu(bus);
    cpu.reset();
    cpu.step();
    cpu.step();
    assert!(cpu.status & FLAG_ZERO != 0);
}

#[test]
fn bne_loops_until_zero() {
    let mut bus = TestBus::new();
    bus.mem[0x8000] = 0xA2; // LDX #3
    bus.mem[0x8001] = 0x03;
    bus.mem[0x8002] = 0xCA; // DEX
    bus.mem[0x8003] = 0xD0; // BNE -3
    bus.mem[0x8004] = 0xFD;
    bus.mem[0xFFFC] = 0x00;
    bus.mem[0xFFFD] = 0x80;
    let mut cpu = new_cpu(bus);
    cpu.reset();
    for _ in 0..6 {
        cpu.step();
    }
    assert_eq!(cpu.x, 0x00);
}

#[test]
fn jsr_and_rts_work() {
    let mut bus = TestBus::new();
    bus.mem[0x8000] = 0x20; // JSR $9000
    bus.mem[0x8001] = 0x00;
    bus.mem[0x8002] = 0x90;
    bus.mem[0x8003] = 0xA9; // LDA #$11
    bus.mem[0x8004] = 0x11;
    bus.mem[0x9000] = 0xA9; // LDA #$22
    bus.mem[0x9001] = 0x22;
    bus.mem[0x9002] = 0x60; // RTS
    bus.mem[0xFFFC] = 0x00;
    bus.mem[0xFFFD] = 0x80;
    let mut cpu = new_cpu(bus);
    cpu.reset();
    cpu.step();
    cpu.step();
    cpu.step();
    cpu.step();
    assert_eq!(cpu.a, 0x11);
}

#[test]
fn brk_jumps_to_irq_vector() {
    let mut bus = TestBus::new();
    bus.mem[0x8000] = 0x00; // BRK
    bus.mem[0xFFFC] = 0x00;
    bus.mem[0xFFFD] = 0x80;
    bus.mem[0xFFFE] = 0x00;
    bus.mem[0xFFFF] = 0x90;
    let mut cpu = new_cpu(bus);
    cpu.reset();
    cpu.step();
    assert_eq!(cpu.pc, 0x9000);
}

fn cpu_at_8000(program: &[u8]) -> CPU<TestBus> {
    let mut bus = TestBus::new();
    for (i, b) in program.iter().enumerate() {
        bus.mem[0x8000 + i] = *b;
    }
    bus.mem[0xFFFC] = 0x00;
    bus.mem[0xFFFD] = 0x80;
    let mut cpu = new_cpu(bus);
    cpu.reset();
    cpu
}

#[test]
fn lda_absolute_x_page_cross_costs_one_more_cycle() {
    // LDX #$01; LDA $80FF,X; LDA $8000,X
    let mut cpu = cpu_at_8000(&[0xA2, 0x01, 0xBD, 0xFF, 0x80, 0xBD, 0x00, 0x80]);
    cpu.step();
    let before = cpu.cycles;
    cpu.step();
    assert_eq!(cpu.cycles - before, 5);
    let before = cpu.cycles;
    cpu.step();
    assert_eq!(cpu.cycles - before, 4);
}

#[test]
fn jmp_indirect_wraps_within_page() {
    // JMP ($10FF): low byte from $10FF, high byte from $1000 (not $1100)
    let mut cpu = cpu_at_8000(&[0x6C, 0xFF, 0x10]);
    cpu.bus.mem[0x10FF] = 0x34;
    cpu.bus.mem[0x1000] = 0x12;
    cpu.bus.mem[0x1100] = 0x56;
    cpu.step();
    assert_eq!(cpu.pc, 0x1234);
    assert_eq!(cpu.cycles, 7 + 5);
}

#[test]
fn branch_taken_across_page_costs_four_cycles() {
    // at $80FD: BNE +1 (taken, target $8100 crosses from $80FF)
    let mut cpu = cpu_at_8000(&[]);
    cpu.pc = 0x80FD;
    cpu.bus.mem[0x80FD] = 0xD0;
    cpu.bus.mem[0x80FE] = 0x01;
    cpu.step();
    assert_eq!(cpu.pc, 0x8100);
    assert_eq!(cpu.cycles, 7 + 4);
}

#[test]
fn adc_sets_carry_and_overflow() {
    // LDA #$7F; ADC #$01 -> $80, V set, C clear; ADC #$80 -> $00 with C
    let mut cpu = cpu_at_8000(&[0xA9, 0x7F, 0x69, 0x01, 0x69, 0x80]);
    cpu.step();
    cpu.step();
    assert_eq!(cpu.a, 0x80);
    assert!(cpu.status & 0x40 != 0);
    assert!(cpu.status & 0x01 == 0);
    cpu.step();
    assert_eq!(cpu.a, 0x00);
    assert!(cpu.status & 0x01 != 0);
    assert!(cpu.status & FLAG_ZERO != 0);
}

#[test]
fn sbc_with_borrow() {
    // SEC; LDA #$05; SBC #$06 -> $FF, C clear, N set
    let mut cpu = cpu_at_8000(&[0x38, 0xA9, 0x05, 0xE9, 0x06]);
    cpu.step();
    cpu.step();
    cpu.step();
    assert_eq!(cpu.a, 0xFF);
    assert!(cpu.status & 0x01 == 0);
    assert!(cpu.status & FLAG_NEGATIVE != 0);
}

#[test]
fn cmp_sets_carry_when_greater_or_equal() {
    let mut cpu = cpu_at_8000(&[0xA9, 0x10, 0xC9, 0x10, 0xC9, 0x11]);
    cpu.step();
    cpu.step();
    assert!(cpu.status & 0x01 != 0);
    assert!(cpu.status & FLAG_ZERO != 0);
    cpu.step();
    assert!(cpu.status & 0x01 == 0);
}

#[test]
fn jam_halts_the_cpu() {
    let mut cpu = cpu_at_8000(&[0x02, 0xA9, 0x01]);
    cpu.step();
    assert!(cpu.halted);
    cpu.step();
    assert_eq!(cpu.a, 0);
}

#[test]
fn undocumented_lax_and_dcp() {
    // LAX $10 ; DCP $11
    let mut cpu = cpu_at_8000(&[0xA7, 0x10, 0xC7, 0x11]);
    cpu.bus.mem[0x10] = 0x42;
    cpu.bus.mem[0x11] = 0x43;
    cpu.step();
    assert_eq!(cpu.a, 0x42);
    assert_eq!(cpu.x, 0x42);
    cpu.step();
    assert_eq!(cpu.bus.mem[0x11], 0x42);
    assert!(cpu.status & FLAG_ZERO != 0);
}

#[test]
fn php_plp_and_rti_keep_unused_set() {
    // PHP ; PLP
    let mut cpu = cpu_at_8000(&[0x08, 0x28]);
    cpu.sp = 0xFD;
    cpu.step();
    assert_eq!(cpu.bus.mem[0x01FD], 0x24 | 0x10);
    cpu.step();
    assert_eq!(cpu.status, 0x24);
}

#[test]
fn undocumented_xaa_and_lxa() {
    // LDX #$F0; XAA #$3C; LXA #$55
    let mut cpu = cpu_at_8000(&[0xA2, 0xF0, 0x8B, 0x3C, 0xAB, 0x55]);
    cpu.step();
    cpu.step();
    assert_eq!(cpu.a, 0x30);
    cpu.step();
    assert_eq!(cpu.a, 0x55);
    assert_eq!(cpu.x, 0x55);
    assert!(!cpu.halted);
}

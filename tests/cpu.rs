use mos6502::cpu::{Cpu, CpuError};
use mos6502::memory::Memory;
use mos6502::registers::Registers;
use mos6502::utils::get_bit_at;

const C: u8 = 0x01;
const Z: u8 = 0x02;
const I: u8 = 0x04;
const D: u8 = 0x08;
const V: u8 = 0x40;
const N: u8 = 0x80;

fn machine(regs: Registers, chunks: &[(u16, &[u8])]) -> Cpu {
    let mut mem = Memory::new();
    for (start, bytes) in chunks {
        for (i, b) in bytes.iter().enumerate() {
            mem.write(start.wrapping_add(i as u16), *b);
        }
    }
    Cpu::with_state(regs, mem)
}

fn regs_at(pc: u16, p: u8) -> Registers {
    let mut r = Registers::new();
    r.pc = pc;
    r.p = p;
    r
}

fn run(cpu: &mut Cpu, steps: usize) {
    for _ in 0..steps {
        assert_eq!(cpu.next_instruction(), Ok(()));
    }
}

fn flag(cpu: &Cpu, mask: u8) -> bool {
    cpu.registers().p & mask != 0
}

#[test]
fn power_on_registers() {
    let r = Registers::new();
    assert_eq!((r.a, r.x, r.y, r.pc, r.sp, r.p), (0, 0, 0, 0x8000, 0xfd, 0x34));
    let cpu = Cpu::new();
    assert_eq!(cpu.registers(), r);
    assert_eq!(cpu.memory().read(0xffff), 0);
}

#[test]
fn memory_read_write() {
    let mut m = Memory::new();
    assert_eq!(m.read(0x1234), 0);
    m.write(0x1234, 0xab);
    m.write(0xffff, 0x01);
    assert_eq!(m.read(0x1234), 0xab);
    assert_eq!(m.read(0xffff), 0x01);
    assert_eq!(m.read(0x1235), 0);
}

#[test]
fn bit_at() {
    assert_eq!(get_bit_at(0x80, 7), 1);
    assert_eq!(get_bit_at(0x80, 6), 0);
    assert_eq!(get_bit_at(0x05, 0), 1);
    assert_eq!(get_bit_at(0x05, 2), 1);
}

#[test]
fn registers_flag_helpers() {
    let mut r = Registers::new();
    r.p = 0;
    r.set_flag(6, true);
    assert_eq!(r.p, 0x40);
    assert!(r.get_flag(6));
    r.set_flag(6, false);
    assert_eq!(r.p, 0);
    r.set_nz(0);
    assert_eq!(r.p, Z);
    r.set_nz(0x90);
    assert_eq!(r.p, N);
}

#[test]
fn immediate_adc() {
    let mut cpu = machine(regs_at(0, 0x24), &[(0, &[0xa9, 0x10, 0x69, 0x20, 0x00])]);
    run(&mut cpu, 2);
    let r = cpu.registers();
    assert_eq!(r.a, 0x30);
    assert_eq!(r.pc, 4);
    assert!(!flag(&cpu, C) && !flag(&cpu, V) && !flag(&cpu, N) && !flag(&cpu, Z));
}

#[test]
fn adc_carry_out() {
    let mut cpu = machine(regs_at(0, 0x24), &[(0, &[0xa9, 0xff, 0x69, 0x01])]);
    run(&mut cpu, 2);
    assert_eq!(cpu.registers().a, 0x00);
    assert!(flag(&cpu, C) && flag(&cpu, Z) && !flag(&cpu, N) && !flag(&cpu, V));
}

#[test]
fn adc_signed_overflow() {
    let mut cpu = machine(regs_at(0, 0x24), &[(0, &[0xa9, 0x50, 0x69, 0x50])]);
    run(&mut cpu, 2);
    assert_eq!(cpu.registers().a, 0xa0);
    assert!(flag(&cpu, N) && flag(&cpu, V) && !flag(&cpu, C) && !flag(&cpu, Z));
}

#[test]
fn adc_7f_plus_1() {
    let mut cpu = machine(regs_at(0, 0x24), &[(0, &[0xa9, 0x7f, 0x69, 0x01])]);
    run(&mut cpu, 2);
    assert_eq!(cpu.registers().a, 0x80);
    assert!(flag(&cpu, V) && flag(&cpu, N) && !flag(&cpu, C) && !flag(&cpu, Z));
}

#[test]
fn adc_ff_with_carry_in_sets_carry() {
    // SEC; LDA #$00; ADC #$FF: 0 + 0xFF + 1 = 0x100.
    let mut cpu = machine(regs_at(0, 0x24), &[(0, &[0x38, 0xa9, 0x00, 0x69, 0xff])]);
    run(&mut cpu, 3);
    assert_eq!(cpu.registers().a, 0x00);
    assert!(flag(&cpu, C) && flag(&cpu, Z) && !flag(&cpu, V));
}

#[test]
fn sbc_with_borrow() {
    // SEC; LDA #$50; SBC #$F0 -> 0x60, borrow (C=0), V=0.
    let mut cpu = machine(regs_at(0, 0x24), &[(0, &[0x38, 0xa9, 0x50, 0xe9, 0xf0])]);
    run(&mut cpu, 3);
    assert_eq!(cpu.registers().a, 0x60);
    assert!(!flag(&cpu, C) && !flag(&cpu, V) && !flag(&cpu, N));
    // SEC; LDA #$50; SBC #$B0 -> 0xA0, V=1.
    let mut cpu = machine(regs_at(0, 0x24), &[(0, &[0x38, 0xa9, 0x50, 0xe9, 0xb0])]);
    run(&mut cpu, 3);
    assert_eq!(cpu.registers().a, 0xa0);
    assert!(!flag(&cpu, C) && flag(&cpu, V) && flag(&cpu, N));
}

#[test]
fn adc_then_sbc_restores_a() {
    // CLC; LDA #$37; ADC #$C9; SEC; SBC #$C9.
    let mut cpu =
        machine(regs_at(0, 0x24), &[(0, &[0x18, 0xa9, 0x37, 0x69, 0xc9, 0x38, 0xe9, 0xc9])]);
    run(&mut cpu, 3);
    assert_eq!(cpu.registers().a, 0x00);
    run(&mut cpu, 2);
    assert_eq!(cpu.registers().a, 0x37);
}

#[test]
fn branch_taken_backwards() {
    let mut cpu = machine(regs_at(0, 0x24), &[(0, &[0xa2, 0x03, 0xca, 0xd0, 0xfd, 0x00])]);
    run(&mut cpu, 1);
    assert_eq!(cpu.registers().x, 3);
    run(&mut cpu, 2);
    assert_eq!(cpu.registers().x, 2);
    assert_eq!(cpu.registers().pc, 2);
    run(&mut cpu, 4);
    let r = cpu.registers();
    assert_eq!(r.x, 0);
    assert_eq!(r.pc, 5);
    assert!(flag(&cpu, Z) && !flag(&cpu, N));
}

#[test]
fn beq_fe_loops_on_itself() {
    let mut cpu = machine(regs_at(0x0200, 0x24 | Z), &[(0x0200, &[0xf0, 0xfe])]);
    run(&mut cpu, 3);
    assert_eq!(cpu.registers().pc, 0x0200);
}

#[test]
fn branch_not_taken_and_forward() {
    // BCS +5 with C=0 falls through; BCC +5 jumps forward.
    let mut cpu = machine(regs_at(0x0300, 0x24), &[(0x0300, &[0xb0, 0x05, 0x90, 0x05])]);
    run(&mut cpu, 1);
    assert_eq!(cpu.registers().pc, 0x0302);
    run(&mut cpu, 1);
    assert_eq!(cpu.registers().pc, 0x0309);
}

#[test]
fn jsr_rts() {
    let mut cpu = machine(regs_at(0, 0x24), &[(0, &[0x20, 0x06, 0x00, 0xa9, 0x42, 0x00, 0x60])]);
    run(&mut cpu, 1);
    let r = cpu.registers();
    assert_eq!(r.sp, 0xfb);
    assert_eq!(r.pc, 0x0006);
    assert_eq!(cpu.memory().read(0x01fd), 0x00);
    assert_eq!(cpu.memory().read(0x01fc), 0x02);
    run(&mut cpu, 1);
    let r = cpu.registers();
    assert_eq!(r.pc, 0x0003);
    assert_eq!(r.sp, 0xfd);
    run(&mut cpu, 1);
    assert_eq!(cpu.registers().a, 0x42);
}

#[test]
fn indirect_jmp_page_bug() {
    let mut cpu = machine(
        regs_at(0, 0x24),
        &[(0x10ff, &[0x34, 0x00]), (0x1000, &[0x12]), (0, &[0x6c, 0xff, 0x10])],
    );
    run(&mut cpu, 1);
    assert_eq!(cpu.registers().pc, 0x1234);
}

#[test]
fn indirect_jmp_inside_page() {
    let mut cpu =
        machine(regs_at(0, 0x24), &[(0x1080, &[0x78, 0x56]), (0, &[0x6c, 0x80, 0x10])]);
    run(&mut cpu, 1);
    assert_eq!(cpu.registers().pc, 0x5678);
}

#[test]
fn inx_wraps_to_zero() {
    let mut r = regs_at(0, 0x24);
    r.x = 0xff;
    let mut cpu = machine(r, &[(0, &[0xe8])]);
    run(&mut cpu, 1);
    assert_eq!(cpu.registers().x, 0);
    assert!(flag(&cpu, Z) && !flag(&cpu, N));
}

#[test]
fn asl_accumulator_0x80() {
    let mut r = regs_at(0, 0x24);
    r.a = 0x80;
    let mut cpu = machine(r, &[(0, &[0x0a])]);
    run(&mut cpu, 1);
    assert_eq!(cpu.registers().a, 0);
    assert!(flag(&cpu, C) && flag(&cpu, Z) && !flag(&cpu, N));
}

#[test]
fn cmp_less_sets_negative() {
    let mut cpu = machine(regs_at(0, 0x24), &[(0, &[0xa9, 0x10, 0xc9, 0x20])]);
    run(&mut cpu, 2);
    assert!(!flag(&cpu, C) && !flag(&cpu, Z) && flag(&cpu, N));
    assert_eq!(cpu.registers().a, 0x10);
}

#[test]
fn cpx_cpy_equal_and_greater() {
    let mut r = regs_at(0, 0x24);
    r.x = 0x40;
    r.y = 0x41;
    let mut cpu = machine(r, &[(0, &[0xe0, 0x40, 0xc0, 0x40])]);
    run(&mut cpu, 1);
    assert!(flag(&cpu, C) && flag(&cpu, Z) && !flag(&cpu, N));
    run(&mut cpu, 1);
    assert!(flag(&cpu, C) && !flag(&cpu, Z) && !flag(&cpu, N));
}

#[test]
fn pha_pla_round_trip() {
    // LDA #$80; PHA; LDA #$00; PLA.
    let mut cpu = machine(regs_at(0, 0x24), &[(0, &[0xa9, 0x80, 0x48, 0xa9, 0x00, 0x68])]);
    run(&mut cpu, 2);
    assert_eq!(cpu.registers().sp, 0xfc);
    assert_eq!(cpu.memory().read(0x01fd), 0x80);
    run(&mut cpu, 1);
    assert!(flag(&cpu, Z));
    run(&mut cpu, 1);
    let r = cpu.registers();
    assert_eq!(r.a, 0x80);
    assert_eq!(r.sp, 0xfd);
    assert!(flag(&cpu, N) && !flag(&cpu, Z));
}

#[test]
fn stack_pointer_wraps() {
    let mut r = regs_at(0, 0x24);
    r.sp = 0x00;
    r.a = 0x5a;
    let mut cpu = machine(r, &[(0, &[0x48, 0x68])]);
    run(&mut cpu, 1);
    assert_eq!(cpu.registers().sp, 0xff);
    assert_eq!(cpu.memory().read(0x0100), 0x5a);
    run(&mut cpu, 1);
    assert_eq!(cpu.registers().sp, 0x00);
    assert_eq!(cpu.registers().a, 0x5a);
}

#[test]
fn php_plp_flag_bits() {
    // PHP pushes P with B and bit 5 set; PLP forces bit 5 and keeps B as pulled.
    let mut cpu = machine(regs_at(0, 0x01), &[(0, &[0x08, 0x28])]);
    run(&mut cpu, 1);
    assert_eq!(cpu.memory().read(0x01fd), 0x31);
    run(&mut cpu, 1);
    assert_eq!(cpu.registers().p, 0x31);
    let mut cpu = machine(regs_at(0, 0x24), &[(0, &[0x28]), (0x01fe, &[0x00])]);
    run(&mut cpu, 1);
    assert_eq!(cpu.registers().p, 0x20);
}

#[test]
fn brk_and_rti() {
    let mut cpu = machine(
        regs_at(0x0400, 0x20 | C),
        &[(0x0400, &[0x00, 0xea, 0xea]), (0xfffe, &[0x00, 0x90]), (0x9000, &[0x40])],
    );
    run(&mut cpu, 1);
    let r = cpu.registers();
    assert_eq!(r.pc, 0x9000);
    assert_eq!(r.sp, 0xfa);
    assert!(flag(&cpu, I));
    assert_eq!(cpu.memory().read(0x01fd), 0x04);
    assert_eq!(cpu.memory().read(0x01fc), 0x02);
    assert_eq!(cpu.memory().read(0x01fb), 0x31);
    run(&mut cpu, 1);
    let r = cpu.registers();
    assert_eq!(r.pc, 0x0402);
    assert_eq!(r.sp, 0xfd);
    assert_eq!(r.p & !0x30, C);
}

#[test]
fn illegal_opcode_reported() {
    let mut cpu = machine(regs_at(0x0010, 0x24), &[(0x0010, &[0x02])]);
    assert_eq!(cpu.next_instruction(), Err(CpuError::IllegalOpcode(0x02)));
    let r = cpu.registers();
    assert_eq!(r.pc, 0x0011);
    assert_eq!((r.a, r.x, r.y, r.sp, r.p), (0, 0, 0, 0xfd, 0x24));
}

#[test]
fn zero_page_x_wraps() {
    // LDA $F0,X with X=$20 reads $0010, not $0110.
    let mut r = regs_at(0x0200, 0x24);
    r.x = 0x20;
    let mut cpu = machine(r, &[(0x0200, &[0xb5, 0xf0]), (0x0010, &[0x11]), (0x0110, &[0x99])]);
    run(&mut cpu, 1);
    assert_eq!(cpu.registers().a, 0x11);
}

#[test]
fn ldx_zero_page_y_and_stx() {
    let mut r = regs_at(0x0200, 0x24);
    r.y = 0x05;
    let mut cpu =
        machine(r, &[(0x0200, &[0xb6, 0xfe, 0x96, 0x10]), (0x0003, &[0xf7])]);
    run(&mut cpu, 2);
    assert_eq!(cpu.registers().x, 0xf7);
    assert!(flag(&cpu, N));
    assert_eq!(cpu.memory().read(0x0015), 0xf7);
}

#[test]
fn indexed_indirect_and_indirect_indexed() {
    // LDA ($FF,X) with X=0: pointer low at $FF, high at $00.
    let mut cpu = machine(
        regs_at(0x0200, 0x24),
        &[(0x0200, &[0xa1, 0xff]), (0x00ff, &[0x34]), (0x0000, &[0x12]), (0x1234, &[0x77])],
    );
    run(&mut cpu, 1);
    assert_eq!(cpu.registers().a, 0x77);
    // STA ($40),Y with Y=$10 and pointer $FFF8: wraps to $0008.
    let mut r = regs_at(0x0200, 0x24);
    r.a = 0x5c;
    r.y = 0x10;
    let mut cpu = machine(r, &[(0x0200, &[0x91, 0x40]), (0x0040, &[0xf8, 0xff])]);
    run(&mut cpu, 1);
    assert_eq!(cpu.memory().read(0x0008), 0x5c);
}

#[test]
fn absolute_indexed_wraps() {
    let mut r = regs_at(0x0200, 0x24);
    r.x = 0x02;
    r.y = 0x01;
    let mut cpu = machine(
        r,
        &[(0x0200, &[0xbd, 0xff, 0xff, 0xb9, 0x00, 0x30]), (0x0001, &[0x21]), (0x3001, &[0x22])],
    );
    run(&mut cpu, 1);
    assert_eq!(cpu.registers().a, 0x21);
    run(&mut cpu, 1);
    assert_eq!(cpu.registers().a, 0x22);
}

#[test]
fn read_modify_write_memory() {
    // INC $10 wraps $FF to $00; DEC $11 turns $00 into $FF.
    let mut cpu = machine(
        regs_at(0x0200, 0x24),
        &[(0x0200, &[0xe6, 0x10, 0xc6, 0x11]), (0x0010, &[0xff, 0x00])],
    );
    run(&mut cpu, 1);
    assert_eq!(cpu.memory().read(0x0010), 0x00);
    assert!(flag(&cpu, Z));
    run(&mut cpu, 1);
    assert_eq!(cpu.memory().read(0x0011), 0xff);
    assert!(flag(&cpu, N) && !flag(&cpu, Z));
}

#[test]
fn shifts_and_rotates() {
    // LSR A on $01: A=0, C=1, Z=1.
    let mut r = regs_at(0, 0x24);
    r.a = 0x01;
    let mut cpu = machine(r, &[(0, &[0x4a])]);
    run(&mut cpu, 1);
    assert_eq!(cpu.registers().a, 0);
    assert!(flag(&cpu, C) && flag(&cpu, Z) && !flag(&cpu, N));
    // ROL A with C=1 on $80: A=$01, C=1.
    let mut r = regs_at(0, 0x24 | C);
    r.a = 0x80;
    let mut cpu = machine(r, &[(0, &[0x2a])]);
    run(&mut cpu, 1);
    assert_eq!(cpu.registers().a, 0x01);
    assert!(flag(&cpu, C) && !flag(&cpu, Z) && !flag(&cpu, N));
    // ROR $20 with C=1 on $02: $81, C=0, N=1.
    let mut cpu = machine(regs_at(0, 0x24 | C), &[(0, &[0x66, 0x20]), (0x0020, &[0x02])]);
    run(&mut cpu, 1);
    assert_eq!(cpu.memory().read(0x0020), 0x81);
    assert!(!flag(&cpu, C) && flag(&cpu, N));
    // ASL $0300 on $41: $82.
    let mut cpu = machine(regs_at(0, 0x24), &[(0, &[0x0e, 0x00, 0x03]), (0x0300, &[0x41])]);
    run(&mut cpu, 1);
    assert_eq!(cpu.memory().read(0x0300), 0x82);
    assert!(!flag(&cpu, C) && flag(&cpu, N));
}

#[test]
fn logical_operations() {
    // LDA #$F0; AND #$3C; ORA #$01; EOR #$31.
    let mut cpu =
        machine(regs_at(0, 0x24), &[(0, &[0xa9, 0xf0, 0x29, 0x3c, 0x09, 0x01, 0x49, 0x31])]);
    run(&mut cpu, 2);
    assert_eq!(cpu.registers().a, 0x30);
    run(&mut cpu, 1);
    assert_eq!(cpu.registers().a, 0x31);
    run(&mut cpu, 1);
    assert_eq!(cpu.registers().a, 0x00);
    assert!(flag(&cpu, Z));
}

#[test]
fn bit_test() {
    let mut r = regs_at(0, 0x24);
    r.a = 0x01;
    let mut cpu = machine(r, &[(0, &[0x24, 0x10]), (0x0010, &[0xc0])]);
    run(&mut cpu, 1);
    assert!(flag(&cpu, Z) && flag(&cpu, V) && flag(&cpu, N));
    assert_eq!(cpu.registers().a, 0x01);
}

#[test]
fn transfers() {
    let mut r = regs_at(0, 0x24);
    r.a = 0x80;
    r.sp = 0x00;
    // TAX; TAY; TSX; LDX #$44; TXS; TXA; TYA.
    let mut cpu = machine(r, &[(0, &[0xaa, 0xa8, 0xba, 0xa2, 0x44, 0x9a, 0x8a, 0x98])]);
    run(&mut cpu, 2);
    assert_eq!((cpu.registers().x, cpu.registers().y), (0x80, 0x80));
    run(&mut cpu, 1);
    assert_eq!(cpu.registers().x, 0);
    assert!(flag(&cpu, Z));
    run(&mut cpu, 2);
    assert_eq!(cpu.registers().sp, 0x44);
    run(&mut cpu, 1);
    assert_eq!(cpu.registers().a, 0x44);
    run(&mut cpu, 1);
    assert_eq!(cpu.registers().a, 0x80);
    assert!(flag(&cpu, N));
}

#[test]
fn flag_instructions_and_nop() {
    // SEC; SED; SEI; CLV; NOP; CLC; CLD; CLI.
    let mut cpu = machine(regs_at(0, 0x40), &[(0, &[0x38, 0xf8, 0x78, 0xb8, 0xea, 0x18, 0xd8, 0x58])]);
    run(&mut cpu, 3);
    assert_eq!(cpu.registers().p, 0x40 | C | D | I);
    run(&mut cpu, 2);
    assert_eq!(cpu.registers().p, C | D | I);
    assert_eq!(cpu.registers().pc, 5);
    run(&mut cpu, 3);
    assert_eq!(cpu.registers().p, 0);
}

#[test]
fn stores_and_loads() {
    let mut r = regs_at(0, 0x24);
    r.a = 0x11;
    r.x = 0x22;
    r.y = 0x33;
    // STA $0400; STX $41; STY $0401; LDY #$00; LDY $41.
    let mut cpu = machine(
        r,
        &[(0, &[0x8d, 0x00, 0x04, 0x86, 0x41, 0x8c, 0x01, 0x04, 0xa0, 0x00, 0xa4, 0x41])],
    );
    run(&mut cpu, 3);
    assert_eq!(cpu.memory().read(0x0400), 0x11);
    assert_eq!(cpu.memory().read(0x0041), 0x22);
    assert_eq!(cpu.memory().read(0x0401), 0x33);
    assert_eq!(cpu.registers().p, 0x24);
    run(&mut cpu, 1);
    assert!(flag(&cpu, Z));
    run(&mut cpu, 1);
    assert_eq!(cpu.registers().y, 0x22);
}

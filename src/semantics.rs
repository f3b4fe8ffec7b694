use vstd::prelude::*;

use crate::memory::MEMORY_SIZE;
use crate::opcode::{decoded, AddressMode, Operation};
use crate::registers::Registers;
use crate::utils::{bit_set, CARRY, DECIMAL, INTERRUPT, OVERFLOW, ZERO};

verus! {

/// One access that the processor makes on the bus.
#[derive(Clone, Copy, Debug, PartialEq, Eq, Structural)]
pub enum BusAccess {
    /// A read of the given address.
    Read(u16),
    /// A write of a byte to the given address.
    Write(u16, u8),
}

/// The processor as a mathematical value: its registers, the contents of memory, and every
/// bus access it has made, oldest first.
pub struct CpuState {
    pub regs: Registers,
    pub mem: Seq<u8>,
    pub bus: Seq<BusAccess>,
}

/// Interrupt vector read by BRK (low byte; the high byte follows).
pub const IRQ_VECTOR: u16 = 0xfffe;

/// Bits that a pushed copy of P always carries: B and the unused bit.
pub const PUSHED_BITS: u8 = 0x30;

/// Bit that P always holds after PLP.
pub const UNUSED_BIT: u8 = 0x20;

/// `x` reduced to 16 bits.
pub open spec fn wrap16(x: int) -> u16 {
    (x % 0x10000) as u16
}

/// `x` reduced to 8 bits.
pub open spec fn wrap8(x: int) -> u8 {
    (x % 0x100) as u8
}

/// The 16-bit value with the given low and high bytes.
pub open spec fn word(lo: u8, hi: u8) -> u16 {
    (hi as int * 0x100 + lo as int) as u16
}

/// Low byte of a 16-bit value.
pub open spec fn lo_byte(w: u16) -> u8 {
    (w % 0x100) as u8
}

/// High byte of a 16-bit value.
pub open spec fn hi_byte(w: u16) -> u8 {
    (w / 0x100) as u8
}

/// A byte read as a two's-complement number.
pub open spec fn sext(d: u8) -> int {
    if d < 0x80 {
        d as int
    } else {
        d as int - 0x100
    }
}

/// Address of stack slot `sp` in page one.
pub open spec fn stack_addr(sp: u8) -> u16 {
    (0x100 + sp as int) as u16
}

/// The address after `ptr` without leaving its page, as the indirect jump fetches it.
pub open spec fn same_page_next(ptr: u16) -> u16 {
    if ptr % 0x100 == 0xff {
        (ptr - 0xff) as u16
    } else {
        (ptr + 1) as u16
    }
}

impl CpuState {
    /// Memory covers the whole 16-bit address space.
    pub open spec fn wf(self) -> bool {
        self.mem.len() == MEMORY_SIZE
    }

    pub open spec fn with_regs(self, regs: Registers) -> CpuState {
        CpuState { regs, ..self }
    }

    /// A bus read: the byte at `addr`, and the access logged.
    pub open spec fn read(self, addr: u16) -> (CpuState, u8) {
        (CpuState { bus: self.bus.push(BusAccess::Read(addr)), ..self }, self.mem[addr as int])
    }

    /// A bus write: memory updated, and the access logged.
    pub open spec fn write(self, addr: u16, value: u8) -> CpuState {
        CpuState {
            mem: self.mem.update(addr as int, value),
            bus: self.bus.push(BusAccess::Write(addr, value)),
            ..self
        }
    }

    /// Reads the byte at PC and moves PC past it.
    pub open spec fn next_byte(self) -> (CpuState, u8) {
        let (s, b) = self.read(self.regs.pc);
        (s.with_regs(s.regs.with_pc(wrap16(s.regs.pc + 1))), b)
    }

    /// Writes `value` at the stack slot, then moves SP down.
    pub open spec fn push(self, value: u8) -> CpuState {
        let s = self.write(stack_addr(self.regs.sp), value);
        s.with_regs(Registers { sp: wrap8(s.regs.sp - 1), ..s.regs })
    }

    /// Moves SP up, then reads the stack slot.
    pub open spec fn pull(self) -> (CpuState, u8) {
        let sp = wrap8(self.regs.sp + 1);
        self.with_regs(Registers { sp, ..self.regs }).read(stack_addr(sp))
    }
}

// Address modes: each takes the state with PC on the first operand byte and gives the
// state after the operand bytes (and any pointer bytes) have been read, with the
// effective address.

pub open spec fn immediate(s: CpuState) -> (CpuState, u16) {
    (s.with_regs(s.regs.with_pc(wrap16(s.regs.pc + 1))), s.regs.pc)
}

pub open spec fn zero_page(s: CpuState) -> (CpuState, u16) {
    let (s1, b) = s.next_byte();
    (s1, b as u16)
}

pub open spec fn zero_page_indexed(s: CpuState, index: u8) -> (CpuState, u16) {
    let (s1, b) = s.next_byte();
    (s1, wrap8(b + index) as u16)
}

pub open spec fn absolute(s: CpuState) -> (CpuState, u16) {
    let (s1, lo) = s.next_byte();
    let (s2, hi) = s1.next_byte();
    (s2, word(lo, hi))
}

pub open spec fn absolute_indexed(s: CpuState, index: u8) -> (CpuState, u16) {
    let (s1, base) = absolute(s);
    (s1, wrap16(base + index))
}

pub open spec fn indirect(s: CpuState) -> (CpuState, u16) {
    let (s1, ptr) = absolute(s);
    let (s2, lo) = s1.read(ptr);
    let (s3, hi) = s2.read(same_page_next(ptr));
    (s3, word(lo, hi))
}

pub open spec fn indirect_x(s: CpuState) -> (CpuState, u16) {
    let (s1, b) = s.next_byte();
    let ptr = wrap8(b + s.regs.x);
    let (s2, lo) = s1.read(ptr as u16);
    let (s3, hi) = s2.read(wrap8(ptr + 1) as u16);
    (s3, word(lo, hi))
}

pub open spec fn indirect_y(s: CpuState) -> (CpuState, u16) {
    let (s1, b) = s.next_byte();
    let (s2, lo) = s1.read(b as u16);
    let (s3, hi) = s2.read(wrap8(b + 1) as u16);
    (s3, wrap16(word(lo, hi) + s.regs.y))
}

pub open spec fn relative(s: CpuState) -> (CpuState, u16) {
    let (s1, d) = s.next_byte();
    (s1, wrap16(s1.regs.pc + sext(d)))
}

/// The effective address of `mode`; modes without an operand give 0 and read nothing.
pub open spec fn resolve(s: CpuState, mode: AddressMode) -> (CpuState, u16) {
    match mode {
        AddressMode::Implied | AddressMode::Accumulator => (s, 0),
        AddressMode::Immediate => immediate(s),
        AddressMode::ZeroPage => zero_page(s),
        AddressMode::ZeroPageX => zero_page_indexed(s, s.regs.x),
        AddressMode::ZeroPageY => zero_page_indexed(s, s.regs.y),
        AddressMode::Absolute => absolute(s),
        AddressMode::AbsoluteX => absolute_indexed(s, s.regs.x),
        AddressMode::AbsoluteY => absolute_indexed(s, s.regs.y),
        AddressMode::Indirect => indirect(s),
        AddressMode::IndirectX => indirect_x(s),
        AddressMode::IndirectY => indirect_y(s),
        AddressMode::Relative => relative(s),
    }
}

// The arithmetic and logic unit, on registers.

pub open spec fn carry_in(r: Registers) -> int {
    if r.flag(CARRY) {
        1
    } else {
        0
    }
}

/// Whether `a + v + c` leaves the signed 8-bit range.
pub open spec fn signed_overflow(a: u8, v: u8, c: int) -> bool {
    let t = sext(a) + sext(v) + c;
    t < -0x80 || t > 0x7f
}

pub open spec fn adc_regs(r: Registers, v: u8) -> Registers {
    let t = r.a + v + carry_in(r);
    let res = wrap8(t);
    Registers { a: res, ..r }.with_flag(CARRY, t > 0xff).with_flag(
        OVERFLOW,
        signed_overflow(r.a, v, carry_in(r)),
    ).with_nz(res)
}

/// Subtraction with borrow is addition of the operand's complement.
pub open spec fn sbc_regs(r: Registers, v: u8) -> Registers {
    adc_regs(r, (0xff - v) as u8)
}

/// Compares `reg` with `v`: C is `reg >= v`, N and Z describe `reg - v`.
pub open spec fn compare_regs(r: Registers, reg: u8, v: u8) -> Registers {
    r.with_flag(CARRY, reg >= v).with_nz(wrap8(reg - v))
}

pub open spec fn load_a(r: Registers, v: u8) -> Registers {
    Registers { a: v, ..r }.with_nz(v)
}

pub open spec fn load_x(r: Registers, v: u8) -> Registers {
    Registers { x: v, ..r }.with_nz(v)
}

pub open spec fn load_y(r: Registers, v: u8) -> Registers {
    Registers { y: v, ..r }.with_nz(v)
}

pub open spec fn bit_regs(r: Registers, m: u8) -> Registers {
    r.with_flag(ZERO, r.a & m == 0).with_flag(OVERFLOW, bit_set(m, 6)).with_flag(
        crate::utils::NEGATIVE,
        bit_set(m, 7),
    )
}

/// Instructions that read one operand byte from the effective address.
pub open spec fn reads_operand(op: Operation) -> bool {
    match op {
        Operation::Adc | Operation::Sbc | Operation::And | Operation::Ora | Operation::Eor
        | Operation::Cmp | Operation::Cpx | Operation::Cpy | Operation::Lda | Operation::Ldx
        | Operation::Ldy | Operation::Bit => true,
        _ => false,
    }
}

/// What an operand-reading instruction does to the registers, given the operand.
pub open spec fn alu(op: Operation, r: Registers, v: u8) -> Registers {
    match op {
        Operation::Adc => adc_regs(r, v),
        Operation::Sbc => sbc_regs(r, v),
        Operation::And => load_a(r, r.a & v),
        Operation::Ora => load_a(r, r.a | v),
        Operation::Eor => load_a(r, r.a ^ v),
        Operation::Cmp => compare_regs(r, r.a, v),
        Operation::Cpx => compare_regs(r, r.x, v),
        Operation::Cpy => compare_regs(r, r.y, v),
        Operation::Lda => load_a(r, v),
        Operation::Ldx => load_x(r, v),
        Operation::Ldy => load_y(r, v),
        Operation::Bit => bit_regs(r, v),
        _ => r,
    }
}

/// Read-modify-write instructions.
pub open spec fn modifies(op: Operation) -> bool {
    match op {
        Operation::Asl | Operation::Lsr | Operation::Rol | Operation::Ror | Operation::Inc
        | Operation::Dec => true,
        _ => false,
    }
}

/// Shifts and rotates, which also have an accumulator form.
pub open spec fn is_shift(op: Operation) -> bool {
    match op {
        Operation::Asl | Operation::Lsr | Operation::Rol | Operation::Ror => true,
        _ => false,
    }
}

/// The new value of a read-modify-write instruction, with the carry out.
pub open spec fn modified(op: Operation, v: u8, carry: bool) -> (u8, bool) {
    match op {
        Operation::Asl => (wrap8(2 * v), v >= 0x80),
        Operation::Lsr => ((v / 2) as u8, v % 2 == 1),
        Operation::Rol => (
            (wrap8(2 * v) + if carry {
                1int
            } else {
                0int
            }) as u8,
            v >= 0x80,
        ),
        Operation::Ror => (
            (v / 2 + if carry {
                0x80int
            } else {
                0int
            }) as u8,
            v % 2 == 1,
        ),
        Operation::Inc => (wrap8(v + 1), carry),
        Operation::Dec => (wrap8(v - 1), carry),
        _ => (v, carry),
    }
}

/// The flags after a read-modify-write instruction on `v`, with its new value.
pub open spec fn modify_regs(op: Operation, r: Registers, v: u8) -> (Registers, u8) {
    let (res, c) = modified(op, v, r.flag(CARRY));
    if op == Operation::Inc || op == Operation::Dec {
        (r.with_nz(res), res)
    } else {
        (r.with_flag(CARRY, c).with_nz(res), res)
    }
}

/// Whether a branch instruction is taken.
pub open spec fn branch_taken(op: Operation, r: Registers) -> bool {
    match op {
        Operation::Bcc => !r.flag(CARRY),
        Operation::Bcs => r.flag(CARRY),
        Operation::Bne => !r.flag(ZERO),
        Operation::Beq => r.flag(ZERO),
        Operation::Bpl => !r.flag(crate::utils::NEGATIVE),
        Operation::Bmi => r.flag(crate::utils::NEGATIVE),
        Operation::Bvc => !r.flag(OVERFLOW),
        Operation::Bvs => r.flag(OVERFLOW),
        _ => false,
    }
}

pub open spec fn is_branch(op: Operation) -> bool {
    match op {
        Operation::Bcc | Operation::Bcs | Operation::Bne | Operation::Beq | Operation::Bpl
        | Operation::Bmi | Operation::Bvc | Operation::Bvs => true,
        _ => false,
    }
}

pub open spec fn jsr_state(s: CpuState, target: u16) -> CpuState {
    let ret = wrap16(s.regs.pc - 1);
    let s1 = s.push(hi_byte(ret)).push(lo_byte(ret));
    s1.with_regs(s1.regs.with_pc(target))
}

pub open spec fn brk_state(s: CpuState) -> CpuState {
    let ret = wrap16(s.regs.pc + 1);
    let s1 = s.push(hi_byte(ret)).push(lo_byte(ret)).push(s.regs.p | PUSHED_BITS);
    let s2 = s1.with_regs(s1.regs.with_flag(INTERRUPT, true));
    let (s3, lo) = s2.read(IRQ_VECTOR);
    let (s4, hi) = s3.read((IRQ_VECTOR + 1) as u16);
    s4.with_regs(s4.regs.with_pc(word(lo, hi)))
}

pub open spec fn rti_state(s: CpuState) -> CpuState {
    let (s1, p) = s.pull();
    let s2 = s1.with_regs(Registers { p: (p & !PUSHED_BITS) | (s1.regs.p & PUSHED_BITS), ..s1.regs });
    let (s3, lo) = s2.pull();
    let (s4, hi) = s3.pull();
    s4.with_regs(s4.regs.with_pc(word(lo, hi)))
}

pub open spec fn rts_state(s: CpuState) -> CpuState {
    let (s1, lo) = s.pull();
    let (s2, hi) = s1.pull();
    s2.with_regs(s2.regs.with_pc(wrap16(word(lo, hi) + 1)))
}

/// Instructions that neither read an operand nor modify one.
pub open spec fn execute_other(s: CpuState, op: Operation, ea: u16) -> CpuState {
    let r = s.regs;
    match op {
        Operation::Sta => s.write(ea, r.a),
        Operation::Stx => s.write(ea, r.x),
        Operation::Sty => s.write(ea, r.y),
        Operation::Inx => s.with_regs(load_x(r, wrap8(r.x + 1))),
        Operation::Iny => s.with_regs(load_y(r, wrap8(r.y + 1))),
        Operation::Dex => s.with_regs(load_x(r, wrap8(r.x - 1))),
        Operation::Dey => s.with_regs(load_y(r, wrap8(r.y - 1))),
        Operation::Tax => s.with_regs(load_x(r, r.a)),
        Operation::Tay => s.with_regs(load_y(r, r.a)),
        Operation::Txa => s.with_regs(load_a(r, r.x)),
        Operation::Tya => s.with_regs(load_a(r, r.y)),
        Operation::Tsx => s.with_regs(load_x(r, r.sp)),
        Operation::Txs => s.with_regs(Registers { sp: r.x, ..r }),
        Operation::Clc => s.with_regs(r.with_flag(CARRY, false)),
        Operation::Sec => s.with_regs(r.with_flag(CARRY, true)),
        Operation::Cld => s.with_regs(r.with_flag(DECIMAL, false)),
        Operation::Sed => s.with_regs(r.with_flag(DECIMAL, true)),
        Operation::Cli => s.with_regs(r.with_flag(INTERRUPT, false)),
        Operation::Sei => s.with_regs(r.with_flag(INTERRUPT, true)),
        Operation::Clv => s.with_regs(r.with_flag(OVERFLOW, false)),
        Operation::Pha => s.push(r.a),
        Operation::Php => s.push(r.p | PUSHED_BITS),
        Operation::Pla => {
            let (s1, v) = s.pull();
            s1.with_regs(load_a(s1.regs, v))
        },
        Operation::Plp => {
            let (s1, v) = s.pull();
            s1.with_regs(Registers { p: v | UNUSED_BIT, ..s1.regs })
        },
        Operation::Jmp => s.with_regs(r.with_pc(ea)),
        Operation::Jsr => jsr_state(s, ea),
        Operation::Brk => brk_state(s),
        Operation::Rti => rti_state(s),
        Operation::Rts => rts_state(s),
        _ => {
            if is_branch(op) && branch_taken(op, r) {
                s.with_regs(r.with_pc(ea))
            } else {
                s
            }
        },
    }
}

/// A read-modify-write instruction on the accumulator.
pub open spec fn modify_accumulator(s: CpuState, op: Operation) -> CpuState {
    let (r, res) = modify_regs(op, s.regs, s.regs.a);
    s.with_regs(Registers { a: res, ..r })
}

/// A read-modify-write instruction on memory: read, write back the old value, write the
/// new one.
pub open spec fn modify_memory(s: CpuState, op: Operation, ea: u16) -> CpuState {
    let (s1, v) = s.read(ea);
    let s2 = s1.write(ea, v);
    let (r, res) = modify_regs(op, s2.regs, v);
    s2.write(ea, res).with_regs(r)
}

/// An instruction that reads one operand byte.
pub open spec fn read_operand(s: CpuState, op: Operation, ea: u16) -> CpuState {
    let (s1, v) = s.read(ea);
    s1.with_regs(alu(op, s1.regs, v))
}

/// What an instruction does once its effective address `ea` is known.
pub open spec fn execute(s: CpuState, op: Operation, mode: AddressMode, ea: u16) -> CpuState {
    if reads_operand(op) {
        read_operand(s, op, ea)
    } else if is_shift(op) && mode == AddressMode::Accumulator {
        modify_accumulator(s, op)
    } else if modifies(op) {
        modify_memory(s, op, ea)
    } else {
        execute_other(s, op, ea)
    }
}

/// The byte at PC: the opcode of the next instruction.
pub open spec fn opcode_at(s: CpuState) -> u8 {
    s.mem[s.regs.pc as int]
}

/// The state after fetching the opcode at PC.
pub open spec fn fetched(s: CpuState) -> (CpuState, u8) {
    s.next_byte()
}

/// One instruction: fetch, decode, resolve the operand, execute. On an undefined opcode
/// only the fetch happens: PC stays past the opcode byte.
pub open spec fn step(s: CpuState) -> CpuState {
    let (s1, opcode) = fetched(s);
    match decoded(opcode) {
        None => s1,
        Some((op, mode)) => {
            let (s2, ea) = resolve(s1, mode);
            execute(s2, op, mode, ea)
        },
    }
}

} // verus!

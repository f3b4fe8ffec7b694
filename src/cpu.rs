use vstd::prelude::*;

use crate::memory::Memory;
use crate::opcode::{decode, decoded, AddressMode, Operation};
use crate::registers::Registers;
use crate::semantics::{
    absolute, absolute_indexed, adc_regs, bit_regs, brk_state, compare_regs, execute,
    execute_other, immediate, indirect, indirect_x, indirect_y, jsr_state, load_a,
    load_x, load_y, modify_accumulator, modify_memory, opcode_at, relative, resolve,
    rti_state, rts_state, sbc_regs, sext, step, wrap8, zero_page, zero_page_indexed,
    BusAccess, CpuState, IRQ_VECTOR, PUSHED_BITS, UNUSED_BIT,
};
use crate::utils::{get_bit_at, CARRY, CLEAR, DECIMAL, INTERRUPT, NEGATIVE, OVERFLOW, SET, ZERO};

verus! {

/// Why an instruction could not be executed.
#[derive(Clone, Copy, Debug, PartialEq, Eq, Structural)]
pub enum CpuError {
    /// The opcode byte is not in the official instruction set.
    IllegalOpcode(u8),
}

/// A 6502 processor attached to its memory.
pub struct Cpu {
    mem: Memory,
    regs: Registers,
    bus: Ghost<Seq<BusAccess>>,
}

impl View for Cpu {
    type V = CpuState;

    closed spec fn view(&self) -> CpuState {
        CpuState { regs: self.regs, mem: self.mem@, bus: self.bus@ }
    }
}

impl Cpu {
    /// Memory covers the whole address space.
    pub open spec fn wf(&self) -> bool {
        self@.wf()
    }

    /// Power-on registers over zeroed memory.
    pub fn new() -> (r: Cpu)
        ensures
            r.wf(),
            r@.regs == Registers::new_spec(),
            r@.mem == Seq::new(0x10000, |i: int| 0u8),
            r@.bus == Seq::<BusAccess>::empty(),
    {
        Cpu { mem: Memory::new(), regs: Registers::new(), bus: Ghost(Seq::empty()) }
    }

    /// A processor with the given registers and memory, before any bus access.
    pub fn with_state(regs: Registers, mem: Memory) -> (r: Cpu)
        requires
            mem.wf(),
        ensures
            r.wf(),
            r@.regs == regs,
            r@.mem == mem@,
            r@.bus == Seq::<BusAccess>::empty(),
    {
        Cpu { mem, regs, bus: Ghost(Seq::empty()) }
    }

    /// The current register file.
    pub fn registers(&self) -> (r: Registers)
        ensures
            r == self@.regs,
    {
        self.regs
    }

    /// The memory the processor is attached to.
    pub fn memory(&self) -> (r: &Memory)
        ensures
            r@ == self@.mem,
    {
        &self.mem
    }

    fn read_bus(&mut self, addr: u16) -> (r: u8)
        requires
            old(self).wf(),
        ensures
            final(self).wf(),
            (final(self)@, r) == old(self)@.read(addr),
    {
        let v = self.mem.read(addr);
        self.bus = Ghost(self.bus@.push(BusAccess::Read(addr)));
        v
    }

    fn write_bus(&mut self, addr: u16, value: u8)
        requires
            old(self).wf(),
        ensures
            final(self).wf(),
            final(self)@ == old(self)@.write(addr, value),
    {
        self.mem.write(addr, value);
        self.bus = Ghost(self.bus@.push(BusAccess::Write(addr, value)));
    }

    fn fetch_byte(&mut self) -> (r: u8)
        requires
            old(self).wf(),
        ensures
            final(self).wf(),
            (final(self)@, r) == old(self)@.next_byte(),
    {
        let b = self.read_bus(self.regs.pc);
        self.regs.pc = self.regs.pc.wrapping_add(1);
        b
    }

    fn set_zero_flag(&mut self, status: bool)
        ensures
            final(self)@ == old(self)@.with_regs(old(self)@.regs.with_flag(ZERO, status)),
    {
        self.regs.set_flag(ZERO, status);
    }

    fn set_negative_flag(&mut self, status: bool)
        ensures
            final(self)@ == old(self)@.with_regs(old(self)@.regs.with_flag(NEGATIVE, status)),
    {
        self.regs.set_flag(NEGATIVE, status);
    }

    fn set_overflow_flag(&mut self, status: bool)
        ensures
            final(self)@ == old(self)@.with_regs(old(self)@.regs.with_flag(OVERFLOW, status)),
    {
        self.regs.set_flag(OVERFLOW, status);
    }

    fn set_carry_flag(&mut self, status: bool)
        ensures
            final(self)@ == old(self)@.with_regs(old(self)@.regs.with_flag(CARRY, status)),
    {
        self.regs.set_flag(CARRY, status);
    }

    fn set_decimal_flag(&mut self, status: bool)
        ensures
            final(self)@ == old(self)@.with_regs(old(self)@.regs.with_flag(DECIMAL, status)),
    {
        self.regs.set_flag(DECIMAL, status);
    }

    fn set_interrupt_flag(&mut self, status: bool)
        ensures
            final(self)@ == old(self)@.with_regs(old(self)@.regs.with_flag(INTERRUPT, status)),
    {
        self.regs.set_flag(INTERRUPT, status);
    }

    fn push(&mut self, value: u8)
        requires
            old(self).wf(),
        ensures
            final(self).wf(),
            final(self)@ == old(self)@.push(value),
    {
        self.write_bus(0x100u16 + self.regs.sp as u16, value);
        self.regs.sp = self.regs.sp.wrapping_sub(1);
    }

    fn pop(&mut self) -> (r: u8)
        requires
            old(self).wf(),
        ensures
            final(self).wf(),
            (final(self)@, r) == old(self)@.pull(),
    {
        self.regs.sp = self.regs.sp.wrapping_add(1);
        self.read_bus(0x100u16 + self.regs.sp as u16)
    }

    fn adc(&mut self, value: u8)
        ensures
            final(self)@ == old(self)@.with_regs(adc_regs(old(self)@.regs, value)),
    {
        let carry: u8 = if self.regs.get_flag(CARRY) { 1 } else { 0 };
        let a = self.regs.a;
        let sum: u16 = a as u16 + value as u16 + carry as u16;
        let result: u8 = (sum % 0x100) as u8;
        let signed_sum: i16 = signed_value(a) + signed_value(value) + carry as i16;
        self.regs.a = result;
        self.set_carry_flag(sum > 0xff);
        self.set_overflow_flag(signed_sum < -0x80 || signed_sum > 0x7f);
        self.regs.set_nz(result);
    }

    fn sbc(&mut self, value: u8)
        ensures
            final(self)@ == old(self)@.with_regs(sbc_regs(old(self)@.regs, value)),
    {
        self.adc(0xff - value);
    }

    fn and(&mut self, value: u8)
        ensures
            final(self)@ == old(self)@.with_regs(load_a(old(self)@.regs, old(self)@.regs.a & value)),
    {
        self.regs.a = self.regs.a & value;
        self.regs.set_nz(self.regs.a);
    }

    fn ora(&mut self, value: u8)
        ensures
            final(self)@ == old(self)@.with_regs(load_a(old(self)@.regs, old(self)@.regs.a | value)),
    {
        self.regs.a = self.regs.a | value;
        self.regs.set_nz(self.regs.a);
    }

    fn eor(&mut self, value: u8)
        ensures
            final(self)@ == old(self)@.with_regs(load_a(old(self)@.regs, old(self)@.regs.a ^ value)),
    {
        self.regs.a = self.regs.a ^ value;
        self.regs.set_nz(self.regs.a);
    }

    fn cmp(&mut self, value: u8)
        ensures
            final(self)@ == old(self)@.with_regs(
                compare_regs(old(self)@.regs, old(self)@.regs.a, value),
            ),
    {
        let reg = self.regs.a;
        self.set_carry_flag(reg >= value);
        self.regs.set_nz(reg.wrapping_sub(value));
    }

    fn cpx(&mut self, value: u8)
        ensures
            final(self)@ == old(self)@.with_regs(
                compare_regs(old(self)@.regs, old(self)@.regs.x, value),
            ),
    {
        let reg = self.regs.x;
        self.set_carry_flag(reg >= value);
        self.regs.set_nz(reg.wrapping_sub(value));
    }

    fn cpy(&mut self, value: u8)
        ensures
            final(self)@ == old(self)@.with_regs(
                compare_regs(old(self)@.regs, old(self)@.regs.y, value),
            ),
    {
        let reg = self.regs.y;
        self.set_carry_flag(reg >= value);
        self.regs.set_nz(reg.wrapping_sub(value));
    }

    fn lda(&mut self, value: u8)
        ensures
            final(self)@ == old(self)@.with_regs(load_a(old(self)@.regs, value)),
    {
        self.regs.a = value;
        self.regs.set_nz(value);
    }

    fn ldx(&mut self, value: u8)
        ensures
            final(self)@ == old(self)@.with_regs(load_x(old(self)@.regs, value)),
    {
        self.regs.x = value;
        self.regs.set_nz(value);
    }

    fn ldy(&mut self, value: u8)
        ensures
            final(self)@ == old(self)@.with_regs(load_y(old(self)@.regs, value)),
    {
        self.regs.y = value;
        self.regs.set_nz(value);
    }

    fn bit(&mut self, value: u8)
        ensures
            final(self)@ == old(self)@.with_regs(bit_regs(old(self)@.regs, value)),
    {
        let masked = self.regs.a & value;
        self.set_zero_flag(masked == 0);
        self.set_overflow_flag(get_bit_at(value, OVERFLOW) == SET);
        self.set_negative_flag(get_bit_at(value, NEGATIVE) == SET);
    }

    fn get_immediate(&mut self) -> (r: u16)
        ensures
            (final(self)@, r) == immediate(old(self)@),
    {
        let ret = self.regs.pc;
        self.regs.pc = self.regs.pc.wrapping_add(1);
        ret
    }

    fn get_zero(&mut self) -> (r: u16)
        requires
            old(self).wf(),
        ensures
            final(self).wf(),
            (final(self)@, r) == zero_page(old(self)@),
    {
        let b = self.fetch_byte();
        b as u16
    }

    fn get_zero_x(&mut self) -> (r: u16)
        requires
            old(self).wf(),
        ensures
            final(self).wf(),
            (final(self)@, r) == zero_page_indexed(old(self)@, old(self)@.regs.x),
    {
        let b = self.fetch_byte();
        b.wrapping_add(self.regs.x) as u16
    }

    fn get_zero_y(&mut self) -> (r: u16)
        requires
            old(self).wf(),
        ensures
            final(self).wf(),
            (final(self)@, r) == zero_page_indexed(old(self)@, old(self)@.regs.y),
    {
        let b = self.fetch_byte();
        b.wrapping_add(self.regs.y) as u16
    }

    fn get_absolute(&mut self) -> (r: u16)
        requires
            old(self).wf(),
        ensures
            final(self).wf(),
            (final(self)@, r) == absolute(old(self)@),
    {
        let lo = self.fetch_byte();
        let hi = self.fetch_byte();
        hi as u16 * 0x100 + lo as u16
    }

    fn get_absolute_x(&mut self) -> (r: u16)
        requires
            old(self).wf(),
        ensures
            final(self).wf(),
            (final(self)@, r) == absolute_indexed(old(self)@, old(self)@.regs.x),
    {
        let base = self.get_absolute();
        base.wrapping_add(self.regs.x as u16)
    }

    fn get_absolute_y(&mut self) -> (r: u16)
        requires
            old(self).wf(),
        ensures
            final(self).wf(),
            (final(self)@, r) == absolute_indexed(old(self)@, old(self)@.regs.y),
    {
        let base = self.get_absolute();
        base.wrapping_add(self.regs.y as u16)
    }

    fn get_indirect(&mut self) -> (r: u16)
        requires
            old(self).wf(),
        ensures
            final(self).wf(),
            (final(self)@, r) == indirect(old(self)@),
    {
        let ptr = self.get_absolute();
        let lo = self.read_bus(ptr);
        let hi_addr = if ptr % 0x100 == 0xff { ptr - 0xff } else { ptr + 1 };
        let hi = self.read_bus(hi_addr);
        hi as u16 * 0x100 + lo as u16
    }

    fn get_indirect_x(&mut self) -> (r: u16)
        requires
            old(self).wf(),
        ensures
            final(self).wf(),
            (final(self)@, r) == indirect_x(old(self)@),
    {
        let b = self.fetch_byte();
        let ptr = b.wrapping_add(self.regs.x);
        let lo = self.read_bus(ptr as u16);
        let hi = self.read_bus(ptr.wrapping_add(1) as u16);
        hi as u16 * 0x100 + lo as u16
    }

    fn get_indirect_y(&mut self) -> (r: u16)
        requires
            old(self).wf(),
        ensures
            final(self).wf(),
            (final(self)@, r) == indirect_y(old(self)@),
    {
        let b = self.fetch_byte();
        let lo = self.read_bus(b as u16);
        let hi = self.read_bus(b.wrapping_add(1) as u16);
        let base = hi as u16 * 0x100 + lo as u16;
        base.wrapping_add(self.regs.y as u16)
    }

    fn get_relative(&mut self) -> (r: u16)
        requires
            old(self).wf(),
        ensures
            final(self).wf(),
            (final(self)@, r) == relative(old(self)@),
    {
        let d = self.fetch_byte();
        let pc = self.regs.pc;
        if d < 0x80 {
            pc.wrapping_add(d as u16)
        } else {
            pc.wrapping_sub(0x100 - d as u16)
        }
    }

    fn asl_acc(&mut self)
        ensures
            final(self)@ == modify_accumulator(old(self)@, Operation::Asl),
    {
        let v = self.regs.a;
        let res = v.wrapping_add(v);
        self.set_carry_flag(v >= 0x80);
        self.regs.a = res;
        self.regs.set_nz(res);
    }

    fn asl_mem(&mut self, addr: u16)
        requires
            old(self).wf(),
        ensures
            final(self).wf(),
            final(self)@ == modify_memory(old(self)@, Operation::Asl, addr),
    {
        let v = self.read_bus(addr);
        self.write_bus(addr, v);
        let res = v.wrapping_add(v);
        self.set_carry_flag(v >= 0x80);
        self.regs.set_nz(res);
        self.write_bus(addr, res);
    }

    fn lsr_acc(&mut self)
        ensures
            final(self)@ == modify_accumulator(old(self)@, Operation::Lsr),
    {
        let v = self.regs.a;
        let res = v / 2;
        self.set_carry_flag(v % 2 == 1);
        self.regs.a = res;
        self.regs.set_nz(res);
    }

    fn lsr_mem(&mut self, addr: u16)
        requires
            old(self).wf(),
        ensures
            final(self).wf(),
            final(self)@ == modify_memory(old(self)@, Operation::Lsr, addr),
    {
        let v = self.read_bus(addr);
        self.write_bus(addr, v);
        let res = v / 2;
        self.set_carry_flag(v % 2 == 1);
        self.regs.set_nz(res);
        self.write_bus(addr, res);
    }

    fn rol_acc(&mut self)
        ensures
            final(self)@ == modify_accumulator(old(self)@, Operation::Rol),
    {
        let v = self.regs.a;
        let carry: u8 = if self.regs.get_flag(CARRY) { 1 } else { 0 };
        let res = v.wrapping_add(v) + carry;
        self.set_carry_flag(v >= 0x80);
        self.regs.a = res;
        self.regs.set_nz(res);
    }

    fn rol_mem(&mut self, addr: u16)
        requires
            old(self).wf(),
        ensures
            final(self).wf(),
            final(self)@ == modify_memory(old(self)@, Operation::Rol, addr),
    {
        let v = self.read_bus(addr);
        self.write_bus(addr, v);
        let carry: u8 = if self.regs.get_flag(CARRY) { 1 } else { 0 };
        let res = v.wrapping_add(v) + carry;
        self.set_carry_flag(v >= 0x80);
        self.regs.set_nz(res);
        self.write_bus(addr, res);
    }

    fn ror_acc(&mut self)
        ensures
            final(self)@ == modify_accumulator(old(self)@, Operation::Ror),
    {
        let v = self.regs.a;
        let carry: u8 = if self.regs.get_flag(CARRY) { 0x80 } else { 0 };
        let res = v / 2 + carry;
        self.set_carry_flag(v % 2 == 1);
        self.regs.a = res;
        self.regs.set_nz(res);
    }

    fn ror_mem(&mut self, addr: u16)
        requires
            old(self).wf(),
        ensures
            final(self).wf(),
            final(self)@ == modify_memory(old(self)@, Operation::Ror, addr),
    {
        let v = self.read_bus(addr);
        self.write_bus(addr, v);
        let carry: u8 = if self.regs.get_flag(CARRY) { 0x80 } else { 0 };
        let res = v / 2 + carry;
        self.set_carry_flag(v % 2 == 1);
        self.regs.set_nz(res);
        self.write_bus(addr, res);
    }

    fn inc(&mut self, addr: u16)
        requires
            old(self).wf(),
        ensures
            final(self).wf(),
            final(self)@ == modify_memory(old(self)@, Operation::Inc, addr),
    {
        let v = self.read_bus(addr);
        self.write_bus(addr, v);
        let res = v.wrapping_add(1);
        self.regs.set_nz(res);
        self.write_bus(addr, res);
    }

    fn dec(&mut self, addr: u16)
        requires
            old(self).wf(),
        ensures
            final(self).wf(),
            final(self)@ == modify_memory(old(self)@, Operation::Dec, addr),
    {
        let v = self.read_bus(addr);
        self.write_bus(addr, v);
        let res = v.wrapping_sub(1);
        self.regs.set_nz(res);
        self.write_bus(addr, res);
    }

    fn inx(&mut self)
        ensures
            final(self)@ == old(self)@.with_regs(load_x(old(self)@.regs, wrap8(old(self)@.regs.x + 1))),
    {
        self.regs.x = self.regs.x.wrapping_add(1);
        self.regs.set_nz(self.regs.x);
    }

    fn iny(&mut self)
        ensures
            final(self)@ == old(self)@.with_regs(load_y(old(self)@.regs, wrap8(old(self)@.regs.y + 1))),
    {
        self.regs.y = self.regs.y.wrapping_add(1);
        self.regs.set_nz(self.regs.y);
    }

    fn dex(&mut self)
        ensures
            final(self)@ == old(self)@.with_regs(load_x(old(self)@.regs, wrap8(old(self)@.regs.x - 1))),
    {
        self.regs.x = self.regs.x.wrapping_sub(1);
        self.regs.set_nz(self.regs.x);
    }

    fn dey(&mut self)
        ensures
            final(self)@ == old(self)@.with_regs(load_y(old(self)@.regs, wrap8(old(self)@.regs.y - 1))),
    {
        self.regs.y = self.regs.y.wrapping_sub(1);
        self.regs.set_nz(self.regs.y);
    }

    fn tax(&mut self)
        ensures
            final(self)@ == old(self)@.with_regs(load_x(old(self)@.regs, old(self)@.regs.a)),
    {
        self.regs.x = self.regs.a;
        self.regs.set_nz(self.regs.x);
    }

    fn tay(&mut self)
        ensures
            final(self)@ == old(self)@.with_regs(load_y(old(self)@.regs, old(self)@.regs.a)),
    {
        self.regs.y = self.regs.a;
        self.regs.set_nz(self.regs.y);
    }

    fn txa(&mut self)
        ensures
            final(self)@ == old(self)@.with_regs(load_a(old(self)@.regs, old(self)@.regs.x)),
    {
        self.regs.a = self.regs.x;
        self.regs.set_nz(self.regs.a);
    }

    fn tya(&mut self)
        ensures
            final(self)@ == old(self)@.with_regs(load_a(old(self)@.regs, old(self)@.regs.y)),
    {
        self.regs.a = self.regs.y;
        self.regs.set_nz(self.regs.a);
    }

    fn tsx(&mut self)
        ensures
            final(self)@ == old(self)@.with_regs(load_x(old(self)@.regs, old(self)@.regs.sp)),
    {
        self.regs.x = self.regs.sp;
        self.regs.set_nz(self.regs.x);
    }

    fn pla(&mut self)
        requires
            old(self).wf(),
        ensures
            final(self).wf(),
            final(self)@ == execute_other(old(self)@, Operation::Pla, 0),
    {
        let v = self.pop();
        self.regs.a = v;
        self.regs.set_nz(v);
    }

    fn plp(&mut self)
        requires
            old(self).wf(),
        ensures
            final(self).wf(),
            final(self)@ == execute_other(old(self)@, Operation::Plp, 0),
    {
        let v = self.pop();
        self.regs.p = v | UNUSED_BIT;
    }

    fn jmp(&mut self, addr: u16)
        ensures
            final(self)@ == old(self)@.with_regs(old(self)@.regs.with_pc(addr)),
    {
        self.regs.pc = addr;
    }

    fn jsr(&mut self, addr: u16)
        requires
            old(self).wf(),
        ensures
            final(self).wf(),
            final(self)@ == jsr_state(old(self)@, addr),
    {
        let ret = self.regs.pc.wrapping_sub(1);
        self.push((ret / 0x100) as u8);
        self.push((ret % 0x100) as u8);
        self.jmp(addr);
    }

    fn brk(&mut self)
        requires
            old(self).wf(),
        ensures
            final(self).wf(),
            final(self)@ == brk_state(old(self)@),
    {
        let ret = self.regs.pc.wrapping_add(1);
        self.push((ret / 0x100) as u8);
        self.push((ret % 0x100) as u8);
        self.push(self.regs.p | PUSHED_BITS);
        self.set_interrupt_flag(true);
        let lo = self.read_bus(IRQ_VECTOR);
        let hi = self.read_bus(IRQ_VECTOR + 1);
        self.regs.pc = hi as u16 * 0x100 + lo as u16;
    }

    fn rti(&mut self)
        requires
            old(self).wf(),
        ensures
            final(self).wf(),
            final(self)@ == rti_state(old(self)@),
    {
        let p = self.pop();
        self.regs.p = (p & !PUSHED_BITS) | (self.regs.p & PUSHED_BITS);
        let lo = self.pop();
        let hi = self.pop();
        self.regs.pc = hi as u16 * 0x100 + lo as u16;
    }

    fn rts(&mut self)
        requires
            old(self).wf(),
        ensures
            final(self).wf(),
            final(self)@ == rts_state(old(self)@),
    {
        let lo = self.pop();
        let hi = self.pop();
        let ret = hi as u16 * 0x100 + lo as u16;
        self.regs.pc = ret.wrapping_add(1);
    }

    fn branch_if(&mut self, target: u16, bit: u8, set: u8)
        requires
            bit < 8,
            set == SET || set == CLEAR,
        ensures
            final(self)@ == if old(self)@.regs.flag(bit) == (set == SET) {
                old(self)@.with_regs(old(self)@.regs.with_pc(target))
            } else {
                old(self)@
            },
    {
        if get_bit_at(self.regs.p, bit) == set {
            self.regs.pc = target;
        }
    }

    fn effective_address(&mut self, mode: AddressMode) -> (r: u16)
        requires
            old(self).wf(),
        ensures
            final(self).wf(),
            (final(self)@, r) == resolve(old(self)@, mode),
    {
        match mode {
            AddressMode::Implied | AddressMode::Accumulator => 0,
            AddressMode::Immediate => self.get_immediate(),
            AddressMode::ZeroPage => self.get_zero(),
            AddressMode::ZeroPageX => self.get_zero_x(),
            AddressMode::ZeroPageY => self.get_zero_y(),
            AddressMode::Absolute => self.get_absolute(),
            AddressMode::AbsoluteX => self.get_absolute_x(),
            AddressMode::AbsoluteY => self.get_absolute_y(),
            AddressMode::Indirect => self.get_indirect(),
            AddressMode::IndirectX => self.get_indirect_x(),
            AddressMode::IndirectY => self.get_indirect_y(),
            AddressMode::Relative => self.get_relative(),
        }
    }

    fn execute_instruction(&mut self, op: Operation, mode: AddressMode, ea: u16)
        requires
            old(self).wf(),
        ensures
            final(self).wf(),
            final(self)@ == execute(old(self)@, op, mode, ea),
    {
        match op {
            Operation::Adc => {
                let v = self.read_bus(ea);
                self.adc(v);
            },
            Operation::Sbc => {
                let v = self.read_bus(ea);
                self.sbc(v);
            },
            Operation::And => {
                let v = self.read_bus(ea);
                self.and(v);
            },
            Operation::Ora => {
                let v = self.read_bus(ea);
                self.ora(v);
            },
            Operation::Eor => {
                let v = self.read_bus(ea);
                self.eor(v);
            },
            Operation::Cmp => {
                let v = self.read_bus(ea);
                self.cmp(v);
            },
            Operation::Cpx => {
                let v = self.read_bus(ea);
                self.cpx(v);
            },
            Operation::Cpy => {
                let v = self.read_bus(ea);
                self.cpy(v);
            },
            Operation::Lda => {
                let v = self.read_bus(ea);
                self.lda(v);
            },
            Operation::Ldx => {
                let v = self.read_bus(ea);
                self.ldx(v);
            },
            Operation::Ldy => {
                let v = self.read_bus(ea);
                self.ldy(v);
            },
            Operation::Bit => {
                let v = self.read_bus(ea);
                self.bit(v);
            },
            Operation::Asl => match mode {
                AddressMode::Accumulator => self.asl_acc(),
                _ => self.asl_mem(ea),
            },
            Operation::Lsr => match mode {
                AddressMode::Accumulator => self.lsr_acc(),
                _ => self.lsr_mem(ea),
            },
            Operation::Rol => match mode {
                AddressMode::Accumulator => self.rol_acc(),
                _ => self.rol_mem(ea),
            },
            Operation::Ror => match mode {
                AddressMode::Accumulator => self.ror_acc(),
                _ => self.ror_mem(ea),
            },
            Operation::Inc => self.inc(ea),
            Operation::Dec => self.dec(ea),
            Operation::Sta => {
                let a = self.regs.a;
                self.write_bus(ea, a);
            },
            Operation::Stx => {
                let x = self.regs.x;
                self.write_bus(ea, x);
            },
            Operation::Sty => {
                let y = self.regs.y;
                self.write_bus(ea, y);
            },
            Operation::Inx => self.inx(),
            Operation::Iny => self.iny(),
            Operation::Dex => self.dex(),
            Operation::Dey => self.dey(),
            Operation::Tax => self.tax(),
            Operation::Tay => self.tay(),
            Operation::Txa => self.txa(),
            Operation::Tya => self.tya(),
            Operation::Tsx => self.tsx(),
            Operation::Txs => self.regs.sp = self.regs.x,
            Operation::Clc => self.set_carry_flag(false),
            Operation::Sec => self.set_carry_flag(true),
            Operation::Cld => self.set_decimal_flag(false),
            Operation::Sed => self.set_decimal_flag(true),
            Operation::Cli => self.set_interrupt_flag(false),
            Operation::Sei => self.set_interrupt_flag(true),
            Operation::Clv => self.set_overflow_flag(false),
            Operation::Pha => {
                let a = self.regs.a;
                self.push(a);
            },
            Operation::Php => {
                let p = self.regs.p | PUSHED_BITS;
                self.push(p);
            },
            Operation::Pla => self.pla(),
            Operation::Plp => self.plp(),
            Operation::Jmp => self.jmp(ea),
            Operation::Jsr => self.jsr(ea),
            Operation::Brk => self.brk(),
            Operation::Rti => self.rti(),
            Operation::Rts => self.rts(),
            Operation::Bcc => self.branch_if(ea, CARRY, CLEAR),
            Operation::Bcs => self.branch_if(ea, CARRY, SET),
            Operation::Bne => self.branch_if(ea, ZERO, CLEAR),
            Operation::Beq => self.branch_if(ea, ZERO, SET),
            Operation::Bpl => self.branch_if(ea, NEGATIVE, CLEAR),
            Operation::Bmi => self.branch_if(ea, NEGATIVE, SET),
            Operation::Bvc => self.branch_if(ea, OVERFLOW, CLEAR),
            Operation::Bvs => self.branch_if(ea, OVERFLOW, SET),
            Operation::Nop => {},
        }
    }

    /// Fetches, decodes and executes one instruction.
    ///
    /// An undefined opcode is reported as `IllegalOpcode`; the opcode byte has then been
    /// fetched and PC left just past it, with no other change.
    pub fn next_instruction(&mut self) -> (r: Result<(), CpuError>)
        requires
            old(self).wf(),
        ensures
            final(self).wf(),
            final(self)@ == step(old(self)@),
            r == (if decoded(opcode_at(old(self)@)) is Some {
                Ok(())
            } else {
                Err(CpuError::IllegalOpcode(opcode_at(old(self)@)))
            }),
    {
        let opcode = self.fetch_byte();
        match decode(opcode) {
            Some((op, mode)) => {
                let ea = self.effective_address(mode);
                self.execute_instruction(op, mode, ea);
                Ok(())
            },
            None => Err(CpuError::IllegalOpcode(opcode)),
        }
    }
}

/// A byte read as a two's-complement number.
fn signed_value(v: u8) -> (r: i16)
    ensures
        r == sext(v),
{
    if v < 0x80 {
        v as i16
    } else {
        v as i16 - 0x100
    }
}

} // verus!

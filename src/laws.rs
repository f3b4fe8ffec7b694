use vstd::prelude::*;

use crate::opcode::{decoded, operand_len, AddressMode, Operation};
use crate::registers::{lemma_with_nz, Registers};
use crate::semantics::{
    adc_regs, branch_taken, execute, execute_other, fetched, hi_byte, is_branch, jsr_state,
    lo_byte, opcode_at, reads_operand, resolve, rts_state, same_page_next, sbc_regs, sext,
    stack_addr, step, word, wrap16, wrap8, BusAccess, CpuState,
};
use crate::utils::{bit_set, lemma_with_bit, CARRY, NEGATIVE, ZERO};

verus! {

/// A pull after a push gives back the pushed byte and restores SP; the push wrote the byte
/// at 0x0100 + SP and moved SP down by one modulo 256.
pub proof fn lemma_push_pull(s: CpuState, value: u8)
    requires
        s.wf(),
    ensures
        s.push(value).pull().1 == value,
        s.push(value).pull().0.regs.sp == s.regs.sp,
        s.push(value).regs.sp == wrap8(s.regs.sp - 1),
        s.push(value).mem == s.mem.update(stack_addr(s.regs.sp) as int, value),
        s.push(value).bus == s.bus.push(BusAccess::Write(stack_addr(s.regs.sp), value)),
        0x100 <= stack_addr(s.regs.sp) <= 0x1ff,
{
}

/// Zero-page indexed addressing stays within page zero.
pub proof fn lemma_zero_page_indexed_in_page(s: CpuState)
    ensures
        resolve(s, AddressMode::ZeroPageX).1 <= 0xff,
        resolve(s, AddressMode::ZeroPageY).1 <= 0xff,
{
}

/// `JMP ($xxFF)` takes the high byte of its target from the start of the same page.
pub proof fn lemma_indirect_jmp_same_page(s: CpuState)
    requires
        s.wf(),
        opcode_at(s) == 0x6c,
        s.mem[wrap16(s.regs.pc + 1) as int] == 0xff,
    ensures
        ({
            let page = s.mem[wrap16(s.regs.pc + 2) as int];
            step(s).regs.pc == word(
                s.mem[word(0xff, page) as int],
                s.mem[word(0x00, page) as int],
            )
        }),
{
    let page = s.mem[wrap16(s.regs.pc + 2) as int];
    assert(same_page_next(word(0xff, page)) == word(0x00, page));
}

/// A branch moves PC past its operand, then adds the operand read as a signed byte if
/// the condition holds; nothing else changes but the bus log.
pub proof fn lemma_branch_displacement(s: CpuState, op: Operation)
    requires
        s.wf(),
        decoded(opcode_at(s)) == Some((op, AddressMode::Relative)),
    ensures
        ({
            let d = s.mem[wrap16(s.regs.pc + 1) as int];
            let next = wrap16(s.regs.pc + 2);
            &&& step(s).regs.pc == (if branch_taken(op, s.regs) {
                wrap16(next + sext(d))
            } else {
                next
            })
            &&& step(s).regs.with_pc(s.regs.pc) == s.regs
            &&& step(s).mem == s.mem
        }),
{
    let (s1, opcode) = fetched(s);
    lemma_relative_is_branch(opcode);
    let (s2, target) = resolve(s1, AddressMode::Relative);
    assert(step(s) == execute(s2, op, AddressMode::Relative, target));
}

/// Every immediate-mode instruction reads its operand.
proof fn lemma_immediate_reads_operand(opcode: u8)
    ensures
        decoded(opcode) matches Some((op, AddressMode::Immediate)) ==> reads_operand(op),
{
}

/// Only branches use relative addressing.
proof fn lemma_relative_is_branch(opcode: u8)
    ensures
        decoded(opcode) matches Some((op, AddressMode::Relative)) ==> is_branch(op),
{
}

/// `BEQ $FE` with Z set branches to itself: the registers come back unchanged.
pub proof fn lemma_beq_self_loop(s: CpuState)
    requires
        s.wf(),
        opcode_at(s) == 0xf0,
        s.mem[wrap16(s.regs.pc + 1) as int] == 0xfe,
        s.regs.flag(ZERO),
    ensures
        step(s).regs == s.regs,
        step(s).mem == s.mem,
{
    lemma_branch_displacement(s, Operation::Beq);
}

/// Adding `v` with carry `c`, then subtracting `v` with carry `!c`, restores A.
pub proof fn lemma_adc_sbc_round_trip(r: Registers, v: u8)
    ensures
        sbc_regs(adc_regs(r, v).with_flag(CARRY, !r.flag(CARRY)), v).a == r.a,
{
    let r1 = adc_regs(r, v);
    lemma_with_bit(r1.p, CARRY, !r.flag(CARRY), CARRY);
}

/// The value that an instruction stores in A, X, Y or memory and from which it sets N and
/// Z, read from the state `t` after it; `None` for instructions that set N and Z otherwise
/// (BIT, compares) or not at all.
pub open spec fn nz_source(op: Operation, mode: AddressMode, ea: u16, t: CpuState) -> Option<u8> {
    match op {
        Operation::Adc | Operation::Sbc | Operation::And | Operation::Ora | Operation::Eor
        | Operation::Lda | Operation::Txa | Operation::Tya | Operation::Pla => Some(t.regs.a),
        Operation::Ldx | Operation::Inx | Operation::Dex | Operation::Tax | Operation::Tsx => Some(
            t.regs.x,
        ),
        Operation::Ldy | Operation::Iny | Operation::Dey | Operation::Tay => Some(t.regs.y),
        Operation::Asl | Operation::Lsr | Operation::Rol | Operation::Ror => {
            if mode == AddressMode::Accumulator {
                Some(t.regs.a)
            } else {
                Some(t.mem[ea as int])
            }
        },
        Operation::Inc | Operation::Dec => Some(t.mem[ea as int]),
        _ => None,
    }
}

/// Z and N describe any byte after `with_nz` of it.
proof fn lemma_nz_auto()
    ensures
        forall|r: Registers, v: u8|
            #![trigger r.with_nz(v)]
            r.with_nz(v).flag(NEGATIVE) == bit_set(v, 7) && r.with_nz(v).flag(ZERO) == (v == 0),
{
    assert forall|r: Registers, v: u8|
        #![trigger r.with_nz(v)]
        r.with_nz(v).flag(NEGATIVE) == bit_set(v, 7) && r.with_nz(v).flag(ZERO) == (v == 0) by {
        lemma_with_nz(r, v, NEGATIVE);
        lemma_with_nz(r, v, ZERO);
        crate::utils::lemma_sign_bit(v);
    }
}

/// After an instruction that stores a result in A, X, Y or memory, N is bit 7 of the
/// stored value and Z says whether it is zero.
pub proof fn lemma_nz_follow_result(s: CpuState, op: Operation, mode: AddressMode)
    requires
        s.wf(),
        decoded(opcode_at(s)) == Some((op, mode)),
    ensures
        ({
            let ea = resolve(fetched(s).0, mode).1;
            nz_source(op, mode, ea, step(s)) matches Some(v) ==> {
                &&& step(s).regs.flag(NEGATIVE) == bit_set(v, 7)
                &&& step(s).regs.flag(ZERO) == (v == 0)
            }
        }),
{
    let (s1, opcode) = fetched(s);
    let (s2, ea) = resolve(s1, mode);
    assert(step(s) == execute(s2, op, mode, ea));
    lemma_nz_auto();
}

/// `PHA; PLA` leaves A and SP as they were, with N and Z describing A, provided the push
/// does not overwrite the PLA opcode.
pub proof fn lemma_pha_pla(s: CpuState)
    requires
        s.wf(),
        opcode_at(s) == 0x48,
        s.mem[wrap16(s.regs.pc + 1) as int] == 0x68,
        stack_addr(s.regs.sp) != wrap16(s.regs.pc + 1),
    ensures
        step(step(s)).regs.a == s.regs.a,
        step(step(s)).regs.sp == s.regs.sp,
        step(step(s)).regs.pc == wrap16(s.regs.pc + 2),
        step(step(s)).regs.flag(NEGATIVE) == bit_set(s.regs.a, 7),
        step(step(s)).regs.flag(ZERO) == (s.regs.a == 0),
{
    let (s1, opcode) = fetched(s);
    let t1 = step(s);
    assert(t1 == execute_other(s1, Operation::Pha, 0));
    lemma_push_pull(s1, s.regs.a);
    assert(opcode_at(t1) == 0x68);
    let (u1, opcode2) = fetched(t1);
    assert(step(t1) == execute_other(u1, Operation::Pla, 0));
    lemma_nz_auto();
}

/// `JSR` then, once the callee has brought SP back and left the two return-address bytes
/// alone, `RTS` resumes at the instruction after the `JSR` with SP as before the call.
pub proof fn lemma_jsr_rts(s: CpuState, callee: CpuState)
    requires
        s.wf(),
        callee.wf(),
        opcode_at(s) == 0x20,
        opcode_at(callee) == 0x60,
        callee.regs.sp == step(s).regs.sp,
        callee.mem[stack_addr(s.regs.sp) as int] == step(s).mem[stack_addr(s.regs.sp) as int],
        callee.mem[stack_addr(wrap8(s.regs.sp - 1)) as int] == step(s).mem[stack_addr(
            wrap8(s.regs.sp - 1),
        ) as int],
    ensures
        step(callee).regs.pc == wrap16(s.regs.pc + 3),
        step(callee).regs.sp == s.regs.sp,
{
    let (s1, opcode) = fetched(s);
    let (s2, target) = resolve(s1, AddressMode::Absolute);
    assert(step(s) == jsr_state(s2, target));
    let ret = wrap16(s2.regs.pc - 1);
    lemma_push_pull(s2, hi_byte(ret));
    lemma_push_pull(s2.push(hi_byte(ret)), lo_byte(ret));
    let (c1, opcode2) = fetched(callee);
    assert(step(callee) == rts_state(c1));
    assert(word(lo_byte(ret), hi_byte(ret)) == ret);
}

/// `t`'s bus log continues `s`'s.
pub open spec fn log_extends(s: CpuState, t: CpuState) -> bool {
    &&& s.bus.len() <= t.bus.len()
    &&& forall|k: int| 0 <= k < s.bus.len() ==> #[trigger] t.bus[k] == s.bus[k]
}

/// Executing an instruction only appends to the bus log.
proof fn lemma_execute_extends(s: CpuState, op: Operation, mode: AddressMode, ea: u16)
    ensures
        log_extends(s, execute(s, op, mode, ea)),
{
}

/// One step first reads the opcode at PC, then the operand bytes that follow it in order,
/// and appends every access it makes to the bus log.
pub proof fn lemma_step_fetches_operands(s: CpuState, op: Operation, mode: AddressMode)
    requires
        s.wf(),
        decoded(opcode_at(s)) == Some((op, mode)),
    ensures
        log_extends(s, step(s)),
        s.bus.len() + 1 + operand_len(mode) <= step(s).bus.len(),
        forall|k: int|
            s.bus.len() <= k <= s.bus.len() + operand_len(mode) ==> #[trigger] step(s).bus[k]
                == BusAccess::Read(wrap16(s.regs.pc + (k - s.bus.len()))),
{
    let (s1, opcode) = fetched(s);
    let (s2, ea) = resolve(s1, mode);
    assert(step(s) == execute(s2, op, mode, ea));
    lemma_execute_extends(s2, op, mode, ea);
    assert(log_extends(s, s2));
    if mode == AddressMode::Immediate {
        // The immediate byte is read by the instruction itself, at the operand's address.
        lemma_immediate_reads_operand(opcode);
        assert(step(s).bus == s2.bus.push(BusAccess::Read(ea)));
    } else {
        assert(s.bus.len() + 1 + operand_len(mode) <= s2.bus.len());
        assert forall|k: int| s.bus.len() <= k <= s.bus.len() + operand_len(mode) implies #[trigger] s2.bus[k]
            == BusAccess::Read(wrap16(s.regs.pc + (k - s.bus.len()))) by {
        }
    }
}

} // verus!

//! The load-bearing laws of the core, each proved once and for all inputs:
//! the flag algebra, the arithmetic of ADC and SBC, the stack round trip,
//! branch program-counter accounting, and cartridge mirroring.

use vstd::prelude::*;

use crate::bus::{spec_bus_read, spec_bus_write, BusView};
use crate::cpu::{
    spec_add_to_a, spec_branch_condition_of, spec_condition_met, spec_instruction_is_branch,
    spec_branch, spec_exec_instruction, spec_ok, spec_operand, spec_operand_address,
    spec_pop_word, spec_push_word, spec_sbc, spec_step,
    spec_zn, BranchCondition, CpuView, Status,
};
use crate::instruction::spec_instruction;

verus! {

/// For every result byte, the zero flag is set exactly on zero and the
/// negative flag exactly when the top bit is set; the other six flags are
/// untouched.
pub proof fn lemma_zero_and_negative_flags(s: Status, value: u8)
    ensures
        spec_zn(s, value).zero <==> value == 0,
        spec_zn(s, value).negative <==> value >= 0x80,
        spec_zn(s, value).carry == s.carry,
        spec_zn(s, value).disable_interrupts == s.disable_interrupts,
        spec_zn(s, value).decimal == s.decimal,
        spec_zn(s, value).b1 == s.b1,
        spec_zn(s, value).b2 == s.b2,
        spec_zn(s, value).overflow == s.overflow,
{
    assert((value >> 7 == 1u8) <==> value >= 0x80u8) by (bit_vector);
}

/// For every accumulator, operand and carry-in: the ADC result is the sum
/// modulo 256, carry-out says whether the unwrapped sum exceeds 255, and the
/// overflow flag is exactly the two's-complement overflow predicate — the
/// operands' sign bits agree with each other and disagree with the result's.
pub proof fn lemma_adc_correctness(v: CpuView, value: u8)
    ensures
        ({
            let carry_in: int = if v.status.carry {
                1int
            } else {
                0int
            };
            let r = spec_add_to_a(v, value);
            &&& r.a == (v.a + value + carry_in) % 256
            &&& (r.status.carry <==> v.a + value + carry_in > 255)
            &&& (r.status.overflow <==> ((v.a >= 0x80 <==> value >= 0x80) && !(v.a >= 0x80 <==> r.a
                >= 0x80)))
        }),
{
    let a = v.a;
    let c: u16 = if v.status.carry {
        1u16
    } else {
        0u16
    };
    let sum = (a as u16 + value as u16 + c) as u16;
    let r = sum as u8;
    assert(sum as u8 == (a as u16 + value as u16 + c) % 256) by (bit_vector)
        requires
            sum == (a as u16 + value as u16 + c) as u16 && c <= 1,
    ;
    assert((((value ^ r) & (r ^ a) & 0x80u8) != 0u8) <==> ((a >= 0x80u8 <==> value >= 0x80u8) && !(
    a >= 0x80u8 <==> r >= 0x80u8))) by (bit_vector);
}

/// SBC is literally ADC of the bitwise-inverted operand (the operand's
/// two's complement minus one), for every state and operand.
pub proof fn lemma_sbc_is_adc_of_complement(v: CpuView, mode: crate::cpu::AddressingMode)
    ensures
        spec_sbc(v, mode) == spec_add_to_a(v, !spec_operand(v, mode)),
        !spec_operand(v, mode) == 255 - spec_operand(v, mode),
{
    let x = spec_operand(v, mode);
    assert(!x == 255 - x) by (bit_vector);
}

/// Pushing a 16-bit word stores the high byte first, so the low byte ends up
/// on top of the stack; popping it back yields the original word, and the
/// stack pointer returns to its pre-push value, having moved down by exactly
/// two in between, wrapping within the stack page rather than leaving it.
/// Registers, flags and the program counter are untouched throughout.
pub proof fn lemma_stack_round_trip(v: CpuView, w: u16)
    requires
        v.wf(),
    ensures
        ({
            let pushed = spec_push_word(v, w);
            let (popped, r) = spec_pop_word(pushed);
            &&& pushed.sp == v.sp.wrapping_sub(2)
            &&& spec_bus_read(pushed.bus, (0x100 + v.sp) as u16) == (w >> 8) as u8
            &&& spec_bus_read(pushed.bus, (0x100 + v.sp.wrapping_sub(1)) as u16) == (w
                & 0xFFu16) as u8
            &&& r == w
            &&& popped.sp == v.sp
            &&& popped == (CpuView { bus: popped.bus, ..v })
        }),
{
    let hi = (w >> 8) as u8;
    let lo = (w & 0xFFu16) as u8;
    let sp = v.sp;
    let a_hi = (0x100 + sp) as u16;
    let a_lo = (0x100 + sp.wrapping_sub(1)) as u16;
    assert(sp.wrapping_sub(1) != sp) by (bit_vector);
    assert(sp.wrapping_sub(2).wrapping_add(1) == sp.wrapping_sub(1)) by (bit_vector);
    assert(sp.wrapping_sub(1).wrapping_add(1) == sp) by (bit_vector);
    let pushed = spec_push_word(v, w);
    let (popped, r) = spec_pop_word(pushed);
    assert(a_hi as int % 0x800 == 0x100 + v.sp);
    assert(a_lo as int % 0x800 == 0x100 + v.sp.wrapping_sub(1));
    assert(spec_bus_read(pushed.bus, a_lo) == lo);
    assert(spec_bus_read(pushed.bus, a_hi) == hi);
    assert(r == (hi as u16) << 8 | lo as u16);
    assert((((w >> 8) as u8) as u16) << 8 | (((w & 0xFFu16) as u8) as u16) == w) by (bit_vector);
}

/// Every branch instruction is two bytes long: when its condition is false
/// the program counter advances by exactly two; when it is true the program
/// counter becomes the resolved relative target plus one (the offset byte it
/// already consumed). The registers, flags and memory are untouched. A taken
/// branch whose offset is `0xFF` lands back on its own operand byte and is
/// re-advanced by the step accounting, so that offset is excluded here.
#[verifier::rlimit(100)]
#[verifier::spinoff_prover]
pub proof fn lemma_branch_pc_accounting(v: CpuView)
    requires
        spec_instruction_is_branch(spec_bus_read(v.bus, v.pc)),
        ({
            let op = spec_bus_read(v.bus, v.pc);
            let cond = spec_branch_condition_of(spec_instruction(op).mnemonic);
            spec_condition_met(v.status, cond) ==> spec_bus_read(v.bus, v.pc.wrapping_add(1))
                != 0xFF
        }),
    ensures
        ({
            let op = spec_bus_read(v.bus, v.pc);
            let cond = spec_branch_condition_of(spec_instruction(op).mnemonic);
            let (v2, r) = spec_step(v);
            &&& r is Ok
            &&& (!spec_condition_met(v.status, cond) ==> v2.pc == v.pc.wrapping_add(2))
            &&& (spec_condition_met(v.status, cond) ==> v2.pc == spec_operand_address(
                v,
                crate::cpu::AddressingMode::Relative,
                v.pc.wrapping_add(1),
            ).wrapping_add(1))
            &&& v2.a == v.a && v2.x == v.x && v2.y == v.y && v2.sp == v.sp
            &&& v2.status == v.status
            &&& v2.bus == v.bus
        }),
{
    let op = spec_bus_read(v.bus, v.pc);
    let ins = spec_instruction(op);
    let cond = spec_branch_condition_of(ins.mnemonic);
    let pc0 = v.pc;
    let pc1 = pc0.wrapping_add(1);
    let v1 = CpuView { pc: pc1, cycles: v.cycles.wrapping_add(ins.cycles as usize), ..v };
    if op == 0x10 {
        assert(spec_exec_instruction(v1, ins) == spec_ok(
            spec_branch(v1, BranchCondition::MinusClear, ins.mode),
        ));
    } else if op == 0x30 {
        assert(spec_exec_instruction(v1, ins) == spec_ok(
            spec_branch(v1, BranchCondition::MinusSet, ins.mode),
        ));
    } else if op == 0x50 {
        assert(spec_exec_instruction(v1, ins) == spec_ok(
            spec_branch(v1, BranchCondition::OverflowClear, ins.mode),
        ));
    } else if op == 0x70 {
        assert(spec_exec_instruction(v1, ins) == spec_ok(
            spec_branch(v1, BranchCondition::OverflowSet, ins.mode),
        ));
    } else if op == 0x90 {
        assert(spec_exec_instruction(v1, ins) == spec_ok(
            spec_branch(v1, BranchCondition::CarryClear, ins.mode),
        ));
    } else if op == 0xB0 {
        assert(spec_exec_instruction(v1, ins) == spec_ok(
            spec_branch(v1, BranchCondition::CarrySet, ins.mode),
        ));
    } else if op == 0xD0 {
        assert(spec_exec_instruction(v1, ins) == spec_ok(
            spec_branch(v1, BranchCondition::ZeroClear, ins.mode),
        ));
    } else {
        assert(spec_exec_instruction(v1, ins) == spec_ok(
            spec_branch(v1, BranchCondition::ZeroSet, ins.mode),
        ));
    }
    assert(ins.mode is Relative && ins.bytes == 2 && ins.implemented && spec_exec_instruction(
        v1,
        ins,
    ) == spec_ok(spec_branch(v1, cond, ins.mode)));
    assert(pc0.wrapping_add(2) != pc0.wrapping_add(1)) by (bit_vector);
    assert(pc0.wrapping_add(1).wrapping_add(1) == pc0.wrapping_add(2)) by (bit_vector);
    let offset = spec_bus_read(v.bus, pc1);
    assert(offset != 0xFF ==> pc0.wrapping_add(1).wrapping_add(offset as u16).wrapping_sub(
        0x100,
    ).wrapping_add(1) != pc0.wrapping_add(1) && pc0.wrapping_add(1).wrapping_add(
        offset as u16,
    ).wrapping_add(1) != pc0.wrapping_add(1)) by (bit_vector);
}

/// Internal RAM is mirrored every `0x800` bytes below `0x2000`: a write
/// through any alias of a cell is read back through every other alias.
pub proof fn lemma_ram_mirroring(b: BusView, a1: u16, a2: u16, value: u8)
    requires
        b.wf(),
        a1 <= 0x1FFF,
        a2 <= 0x1FFF,
        a1 as int % 0x800 == a2 as int % 0x800,
    ensures
        spec_bus_read(spec_bus_write(b, a1, value), a2) == value,
{
}

/// A 16KB PRG-ROM bank is mirrored into both halves of the 32KB window: for
/// every address in the lower half, the byte at `addr` equals the byte at
/// `addr + 0x4000`, and both come from the bank itself.
pub proof fn lemma_prg_mirroring_16k(b: BusView, addr: u16)
    requires
        b.prg.len() == 0x4000,
        0x8000 <= addr < 0xC000,
    ensures
        spec_bus_read(b, addr) == spec_bus_read(b, (addr + 0x4000) as u16),
        spec_bus_read(b, addr) == b.prg[addr - 0x8000],
{
    let i = addr as int - 0x8000;
    assert((i + 0x4000) % 0x4000 == i) by (nonlinear_arith)
        requires
            0 <= i < 0x4000,
    ;
}

/// A 32KB PRG-ROM image maps directly: the two halves of the window read
/// distinct bytes of the image.
pub proof fn lemma_prg_direct_32k(b: BusView, addr: u16)
    requires
        b.prg.len() == 0x8000,
        0x8000 <= addr < 0xC000,
    ensures
        spec_bus_read(b, addr) == b.prg[addr - 0x8000],
        spec_bus_read(b, (addr + 0x4000) as u16) == b.prg[addr - 0x8000 + 0x4000],
{
}

} // verus!

//! The 6502 core: register file, status-flag algebra, addressing-mode
//! resolver, stack, and the fetch/decode/execute step.

use vstd::prelude::*;

use crate::bus::{Bus, BusView, spec_bus_read, spec_bus_read16, spec_bus_write, spec_write_is_rom};
use crate::instruction::{Instruction, Mnemonic, instruction, spec_instruction};

verus! {

/// Base of the fixed stack page: the 8-bit stack pointer is an offset into
/// the page `0x0100..=0x01FF`.
pub const STACK: u16 = 0x0100;

/// The status word, decomposed into its eight named flags. The packed byte
/// layout is fixed: bit 0 = carry, bit 1 = zero, bit 2 = interrupt disable,
/// bit 3 = decimal, bits 4 and 5 = the two "B" flags used only in the pushed
/// representation, bit 6 = overflow, bit 7 = negative.
#[derive(Debug, Clone, Copy, PartialEq, Eq, Structural)]
pub struct Status {
    pub carry: bool,
    pub zero: bool,
    pub disable_interrupts: bool,
    pub decimal: bool,
    pub b1: bool,
    pub b2: bool,
    pub overflow: bool,
    pub negative: bool,
}

/// Unpacking a byte into the eight flags, in the fixed bit order.
pub open spec fn spec_status_from_byte(v: u8) -> Status {
    Status {
        carry: v & 0x01u8 != 0u8,
        zero: v & 0x02u8 != 0u8,
        disable_interrupts: v & 0x04u8 != 0u8,
        decimal: v & 0x08u8 != 0u8,
        b1: v & 0x10u8 != 0u8,
        b2: v & 0x20u8 != 0u8,
        overflow: v & 0x40u8 != 0u8,
        negative: v & 0x80u8 != 0u8,
    }
}

/// Packing the eight flags into a byte, in the fixed bit order.
pub open spec fn spec_status_to_byte(s: Status) -> u8 {
    (if s.carry { 0x01u8 } else { 0u8 }) | (if s.zero { 0x02u8 } else { 0u8 }) | (if s.disable_interrupts { 0x04u8 } else { 0u8 }) | (if s.decimal { 0x08u8 } else { 0u8 }) | (if s.b1 { 0x10u8 } else { 0u8 }) | (if s.b2 { 0x20u8 } else { 0u8 }) | (if s.overflow { 0x40u8 } else { 0u8 }) | (if s.negative { 0x80u8 } else { 0u8 })
}

impl Status {
    /// Unpack a status byte, bit 0 = carry through bit 7 = negative.
    pub fn from_byte(v: u8) -> (s: Status)
        ensures
            s == spec_status_from_byte(v),
    {
        Status {
            carry: v & 0x01 != 0,
            zero: v & 0x02 != 0,
            disable_interrupts: v & 0x04 != 0,
            decimal: v & 0x08 != 0,
            b1: v & 0x10 != 0,
            b2: v & 0x20 != 0,
            overflow: v & 0x40 != 0,
            negative: v & 0x80 != 0,
        }
    }

    /// Pack the flags into a byte, bit 0 = carry through bit 7 = negative.
    pub fn to_byte(&self) -> (v: u8)
        ensures
            v == spec_status_to_byte(*self),
    {
        (if self.carry { 0x01u8 } else { 0u8 }) | (if self.zero { 0x02u8 } else { 0u8 }) | (if self.disable_interrupts { 0x04u8 } else { 0u8 }) | (if self.decimal { 0x08u8 } else { 0u8 }) | (if self.b1 { 0x10u8 } else { 0u8 }) | (if self.b2 { 0x20u8 } else { 0u8 }) | (if self.overflow { 0x40u8 } else { 0u8 }) | (if self.negative { 0x80u8 } else { 0u8 })
    }
}

impl Default for Status {
    /// All eight flags clear.
    fn default() -> (s: Status)
        ensures
            !s.carry && !s.zero && !s.disable_interrupts && !s.decimal,
            !s.b1 && !s.b2 && !s.overflow && !s.negative,
    {
        Status {
            carry: false,
            zero: false,
            disable_interrupts: false,
            decimal: false,
            b1: false,
            b2: false,
            overflow: false,
            negative: false,
        }
    }
}

/// Packing is the left inverse of unpacking: every status byte survives a
/// round trip through the eight named flags.
pub proof fn lemma_status_byte_round_trip(v: u8)
    ensures
        spec_status_to_byte(spec_status_from_byte(v)) == v,
{
    assert((if v & 0x01u8 != 0u8 { 0x01u8 } else { 0u8 }) | (if v & 0x02u8 != 0u8 { 0x02u8 } else { 0u8 }) | (if v & 0x04u8 != 0u8 { 0x04u8 } else { 0u8 }) | (if v & 0x08u8 != 0u8 { 0x08u8 } else { 0u8 }) | (if v & 0x10u8 != 0u8 { 0x10u8 } else { 0u8 }) | (if v & 0x20u8 != 0u8 { 0x20u8 } else { 0u8 }) | (if v & 0x40u8 != 0u8 { 0x40u8 } else { 0u8 }) | (if v & 0x80u8 != 0u8 { 0x80u8 } else { 0u8 }) == v) by (bit_vector);
}

/// Unpacking is the left inverse of packing: the eight flags survive a round
/// trip through the packed byte.
pub proof fn lemma_status_flags_round_trip(s: Status)
    ensures
        spec_status_from_byte(spec_status_to_byte(s)) == s,
{
    let a = if s.carry { 0x01u8 } else { 0u8 };
    let b = if s.zero { 0x02u8 } else { 0u8 };
    let c = if s.disable_interrupts { 0x04u8 } else { 0u8 };
    let d = if s.decimal { 0x08u8 } else { 0u8 };
    let e = if s.b1 { 0x10u8 } else { 0u8 };
    let f = if s.b2 { 0x20u8 } else { 0u8 };
    let g = if s.overflow { 0x40u8 } else { 0u8 };
    let h = if s.negative { 0x80u8 } else { 0u8 };
    let p = a | b | c | d | e | f | g | h;
    assert((p & 0x01u8 != 0u8 <==> a == 0x01u8) && (p & 0x02u8 != 0u8 <==> b == 0x02u8) && (p
        & 0x04u8 != 0u8 <==> c == 0x04u8) && (p & 0x08u8 != 0u8 <==> d == 0x08u8) && (p & 0x10u8
        != 0u8 <==> e == 0x10u8) && (p & 0x20u8 != 0u8 <==> f == 0x20u8) && (p & 0x40u8 != 0u8 <==>
    g == 0x40u8) && (p & 0x80u8 != 0u8 <==> h == 0x80u8)) by (bit_vector)
        requires
            (a == 0x01u8 || a == 0u8) && (b == 0x02u8 || b == 0u8) && (c == 0x04u8 || c == 0u8) && (
            d == 0x08u8 || d == 0u8) && (e == 0x10u8 || e == 0u8) && (f == 0x20u8 || f == 0u8) && (
            g == 0x40u8 || g == 0u8) && (h == 0x80u8 || h == 0u8) && p == (a | b | c | d | e | f
                | g | h),
    ;
}

/// How an instruction's operand bytes are turned into an effective address.
#[derive(Debug, Clone, Copy, PartialEq, Eq, Structural)]
pub enum AddressingMode {
    Immediate,
    ZeroPage,
    ZeroPageX,
    ZeroPageY,
    Absolute,
    AbsoluteX,
    AbsoluteY,
    Indirect,
    IndirectX,
    IndirectY,
    Relative,
    /// No operand bytes: implied and accumulator instructions.
    Implied,
}

/// The registers an instruction can name as source or destination.
#[derive(Debug, Clone, Copy, PartialEq, Eq, Structural)]
pub enum Register {
    A,
    X,
    Y,
    S,
}

/// The eight conditions a conditional branch can test: one flag, set or clear.
#[derive(Debug, Clone, Copy, PartialEq, Eq, Structural)]
pub enum BranchCondition {
    CarrySet,
    CarryClear,
    ZeroSet,
    ZeroClear,
    MinusSet,
    MinusClear,
    OverflowSet,
    OverflowClear,
}

/// A run-time condition that stops the step: both are surfaced to the host as
/// recoverable errors rather than aborting the process.
#[derive(Debug, Clone, Copy, PartialEq, Eq, Structural)]
pub enum StepError {
    /// The opcode byte at `pc` has no implemented handler.
    UnimplementedOpcode { opcode: u8, pc: u16 },
    /// An instruction attempted to write into the cartridge ROM window.
    RomWrite { addr: u16 },
}

/// The CPU: register file, status flags, cycle counter, running flag, and
/// the bus it owns.
#[derive(Debug)]
pub struct Cpu {
    pub a: u8,
    pub x: u8,
    pub y: u8,
    pub sp: u8,
    pub status: Status,
    pub pc: u16,
    pub running: bool,
    pub cycles: usize,
    pub bus: Bus,
}

/// Mathematical image of the whole machine: registers, flags, counters, and
/// the bus contents. Every contract of the core is stated over this view.
pub struct CpuView {
    pub a: u8,
    pub x: u8,
    pub y: u8,
    pub sp: u8,
    pub status: Status,
    pub pc: u16,
    pub running: bool,
    pub cycles: usize,
    pub bus: BusView,
}

impl View for Cpu {
    type V = CpuView;

    open spec fn view(&self) -> CpuView {
        CpuView {
            a: self.a,
            x: self.x,
            y: self.y,
            sp: self.sp,
            status: self.status,
            pc: self.pc,
            running: self.running,
            cycles: self.cycles,
            bus: self.bus@,
        }
    }
}

impl CpuView {
    /// The machine is well formed when its bus is.
    pub open spec fn wf(self) -> bool {
        self.bus.wf()
    }
}

/// Zero and negative, recomputed from a result byte; the other six flags keep
/// their values.
pub open spec fn spec_zn(s: Status, value: u8) -> Status {
    Status { zero: value == 0u8, negative: value >> 7 == 1u8, ..s }
}

/// Negative alone, recomputed from a result byte (the unofficial rotate paths
/// leave zero untouched).
pub open spec fn spec_negative(s: Status, value: u8) -> Status {
    Status { negative: value >> 7 == 1u8, ..s }
}

pub open spec fn spec_get_register(v: CpuView, register: Register) -> u8 {
    match register {
        Register::A => v.a,
        Register::X => v.x,
        Register::Y => v.y,
        Register::S => v.sp,
    }
}

pub open spec fn spec_set_register(v: CpuView, register: Register, value: u8) -> CpuView {
    match register {
        Register::A => CpuView { a: value, ..v },
        Register::X => CpuView { x: value, ..v },
        Register::Y => CpuView { y: value, ..v },
        Register::S => CpuView { sp: value, ..v },
    }
}

/// The effective address an addressing mode resolves to, with `pc` the
/// address of the first operand byte. `Indirect` reproduces the hardware
/// page-wrap quirk: a pointer whose low byte is `0xFF` fetches its high byte
/// from the start of the same page. `Implied` resolves to zero and is never
/// dereferenced by the executor.
pub open spec fn spec_operand_address(v: CpuView, mode: AddressingMode, pc: u16) -> u16 {
    match mode {
        AddressingMode::Immediate => pc,
        AddressingMode::ZeroPage => spec_bus_read(v.bus, pc) as u16,
        AddressingMode::ZeroPageX => spec_bus_read(v.bus, pc).wrapping_add(v.x) as u16,
        AddressingMode::ZeroPageY => spec_bus_read(v.bus, pc).wrapping_add(v.y) as u16,
        AddressingMode::Absolute => spec_bus_read16(v.bus, pc),
        AddressingMode::AbsoluteX => spec_bus_read16(v.bus, pc).wrapping_add(v.x as u16),
        AddressingMode::AbsoluteY => spec_bus_read16(v.bus, pc).wrapping_add(v.y as u16),
        AddressingMode::Indirect => {
            let mem_address = spec_bus_read16(v.bus, pc);
            if mem_address & 0x00FFu16 == 0x00FFu16 {
                (spec_bus_read(v.bus, mem_address & 0xFF00u16) as u16) << 8 | spec_bus_read(
                    v.bus,
                    mem_address,
                ) as u16
            } else {
                spec_bus_read16(v.bus, mem_address)
            }
        },
        AddressingMode::IndirectX => {
            let ptr = spec_bus_read(v.bus, pc).wrapping_add(v.x);
            (spec_bus_read(v.bus, ptr.wrapping_add(1) as u16) as u16) << 8 | spec_bus_read(
                v.bus,
                ptr as u16,
            ) as u16
        },
        AddressingMode::IndirectY => {
            let base = spec_bus_read(v.bus, pc);
            let lo = spec_bus_read(v.bus, base as u16);
            let hi = spec_bus_read(v.bus, base.wrapping_add(1) as u16);
            ((hi as u16) << 8 | lo as u16).wrapping_add(v.y as u16)
        },
        AddressingMode::Relative => {
            let offset = spec_bus_read(v.bus, pc);
            if offset >= 0x80u8 {
                pc.wrapping_add(offset as u16).wrapping_sub(0x100)
            } else {
                pc.wrapping_add(offset as u16)
            }
        },
        AddressingMode::Implied => 0u16,
    }
}

/// The operand byte an addressing mode reads, with the operand bytes starting
/// at `v.pc`.
pub open spec fn spec_operand(v: CpuView, mode: AddressingMode) -> u8 {
    spec_bus_read(v.bus, spec_operand_address(v, mode, v.pc))
}

/// Push: write at the stack address, then decrement the stack pointer,
/// wrapping within the stack page.
pub open spec fn spec_push_byte(v: CpuView, value: u8) -> CpuView {
    CpuView {
        bus: spec_bus_write(v.bus, (STACK + v.sp) as u16, value),
        sp: v.sp.wrapping_sub(1),
        ..v
    }
}

/// Pop: increment the stack pointer (wrapping), then read at the stack
/// address.
pub open spec fn spec_pop_byte(v: CpuView) -> (CpuView, u8) {
    let sp = v.sp.wrapping_add(1);
    (CpuView { sp, ..v }, spec_bus_read(v.bus, (STACK + sp) as u16))
}

/// A 16-bit push stores the high byte first, so the low byte ends up on top.
pub open spec fn spec_push_word(v: CpuView, value: u16) -> CpuView {
    spec_push_byte(spec_push_byte(v, (value >> 8) as u8), (value & 0xFFu16) as u8)
}

/// A 16-bit pop reads the low byte first and reassembles little-endian.
pub open spec fn spec_pop_word(v: CpuView) -> (CpuView, u16) {
    let (v1, lo) = spec_pop_byte(v);
    let (v2, hi) = spec_pop_byte(v1);
    (v2, (hi as u16) << 8 | lo as u16)
}

/// The shared ADC/SBC core: sum in a widened accumulator; carry is the ninth
/// bit; overflow is the two's-complement test on the sign bits; zero and
/// negative follow the 8-bit result.
pub open spec fn spec_add_to_a(v: CpuView, value: u8) -> CpuView {
    let carry: u16 = if v.status.carry {
        1u16
    } else {
        0u16
    };
    let sum = (v.a as u16 + value as u16 + carry) as u16;
    let result = sum as u8;
    CpuView {
        a: result,
        status: Status {
            carry: sum > 0xFFu16,
            overflow: ((value ^ result) & (result ^ v.a) & 0x80u8) != 0u8,
            zero: result == 0u8,
            negative: result >> 7 == 1u8,
            ..v.status
        },
        ..v
    }
}

pub open spec fn spec_adc(v: CpuView, mode: AddressingMode) -> CpuView {
    spec_add_to_a(v, spec_operand(v, mode))
}

/// SBC goes through the ADC path with the bitwise-inverted operand.
pub open spec fn spec_sbc(v: CpuView, mode: AddressingMode) -> CpuView {
    spec_add_to_a(v, !spec_operand(v, mode))
}

/// A load sets the register and recomputes zero and negative.
pub open spec fn spec_load_op(v: CpuView, register: Register, mode: AddressingMode) -> CpuView {
    let value = spec_operand(v, mode);
    CpuView { status: spec_zn(v.status, value), ..spec_set_register(v, register, value) }
}

/// A store writes the register; into the ROM window it fails and changes
/// nothing.
pub open spec fn spec_store(v: CpuView, register: Register, mode: AddressingMode) -> (
    CpuView,
    Result<(), StepError>,
) {
    let addr = spec_operand_address(v, mode, v.pc);
    if spec_write_is_rom(addr) {
        (v, Err(StepError::RomWrite { addr }))
    } else {
        (CpuView { bus: spec_bus_write(v.bus, addr, spec_get_register(v, register)), ..v }, Ok(()))
    }
}

/// A transfer copies between registers; zero and negative follow unless the
/// destination is the stack pointer.
pub open spec fn spec_transfer(v: CpuView, src: Register, dst: Register) -> CpuView {
    let value = spec_get_register(v, src);
    let v1 = spec_set_register(v, dst, value);
    if dst is S {
        v1
    } else {
        CpuView { status: spec_zn(v.status, value), ..v1 }
    }
}

pub open spec fn spec_increment_register(v: CpuView, register: Register) -> CpuView {
    let value = spec_get_register(v, register).wrapping_add(1);
    CpuView { status: spec_zn(v.status, value), ..spec_set_register(v, register, value) }
}

pub open spec fn spec_decrement_register(v: CpuView, register: Register) -> CpuView {
    let value = spec_get_register(v, register).wrapping_sub(1);
    CpuView { status: spec_zn(v.status, value), ..spec_set_register(v, register, value) }
}

/// Read-modify-write increment; on a ROM address it fails and changes
/// nothing, otherwise it also yields the written value.
pub open spec fn spec_increment_memory(v: CpuView, mode: AddressingMode) -> (
    CpuView,
    Result<u8, StepError>,
) {
    let addr = spec_operand_address(v, mode, v.pc);
    let value = spec_bus_read(v.bus, addr).wrapping_add(1);
    if spec_write_is_rom(addr) {
        (v, Err(StepError::RomWrite { addr }))
    } else {
        (
            CpuView { bus: spec_bus_write(v.bus, addr, value), status: spec_zn(v.status, value), ..v },
            Ok(value),
        )
    }
}

pub open spec fn spec_decrement_memory(v: CpuView, mode: AddressingMode) -> (
    CpuView,
    Result<(), StepError>,
) {
    let addr = spec_operand_address(v, mode, v.pc);
    let value = spec_bus_read(v.bus, addr).wrapping_sub(1);
    if spec_write_is_rom(addr) {
        (v, Err(StepError::RomWrite { addr }))
    } else {
        (
            CpuView { bus: spec_bus_write(v.bus, addr, value), status: spec_zn(v.status, value), ..v },
            Ok(()),
        )
    }
}

pub open spec fn spec_and(v: CpuView, mode: AddressingMode) -> CpuView {
    let a = v.a & spec_operand(v, mode);
    CpuView { a, status: spec_zn(v.status, a), ..v }
}

pub open spec fn spec_ora(v: CpuView, mode: AddressingMode) -> CpuView {
    let a = v.a | spec_operand(v, mode);
    CpuView { a, status: spec_zn(v.status, a), ..v }
}

pub open spec fn spec_eor(v: CpuView, mode: AddressingMode) -> CpuView {
    let a = v.a ^ spec_operand(v, mode);
    CpuView { a, status: spec_zn(v.status, a), ..v }
}

/// A compare sets carry when the register is greater or equal, and zero and
/// negative from the difference; the register itself is unmodified.
pub open spec fn spec_compare(v: CpuView, register: Register, mode: AddressingMode) -> CpuView {
    let value = spec_operand(v, mode);
    let register_value = spec_get_register(v, register);
    CpuView {
        status: spec_zn(
            Status { carry: value <= register_value, ..v.status },
            register_value.wrapping_sub(value),
        ),
        ..v
    }
}

/// BIT: zero from the masked accumulator, negative and overflow copied from
/// bits 7 and 6 of the operand; the accumulator is unmodified.
pub open spec fn spec_bit(v: CpuView, mode: AddressingMode) -> CpuView {
    let value = spec_operand(v, mode);
    CpuView {
        status: Status {
            zero: value & v.a == 0u8,
            negative: value & 0x80u8 != 0u8,
            overflow: value & 0x40u8 != 0u8,
            ..v.status
        },
        ..v
    }
}

pub open spec fn spec_condition_met(s: Status, condition: BranchCondition) -> bool {
    match condition {
        BranchCondition::CarrySet => s.carry,
        BranchCondition::CarryClear => !s.carry,
        BranchCondition::ZeroSet => s.zero,
        BranchCondition::ZeroClear => !s.zero,
        BranchCondition::MinusSet => s.negative,
        BranchCondition::MinusClear => !s.negative,
        BranchCondition::OverflowSet => s.overflow,
        BranchCondition::OverflowClear => !s.overflow,
    }
}

/// A branch jumps to the relative target when its condition holds, then
/// unconditionally advances one byte to consume the offset it read — whether
/// or not it was taken.
pub open spec fn spec_branch(v: CpuView, condition: BranchCondition, mode: AddressingMode) -> CpuView {
    let target = if spec_condition_met(v.status, condition) {
        spec_operand_address(v, mode, v.pc)
    } else {
        v.pc
    };
    CpuView { pc: target.wrapping_add(1), ..v }
}

/// Whether the opcode byte is one of the eight conditional branches.
pub open spec fn spec_instruction_is_branch(opcode: u8) -> bool {
    opcode == 0x10u8 || opcode == 0x30u8 || opcode == 0x50u8 || opcode == 0x70u8 || opcode
        == 0x90u8 || opcode == 0xB0u8 || opcode == 0xD0u8 || opcode == 0xF0u8
}

/// The condition a branch mnemonic tests.
pub open spec fn spec_branch_condition_of(m: Mnemonic) -> BranchCondition {
    match m {
        Mnemonic::Bcs => BranchCondition::CarrySet,
        Mnemonic::Bcc => BranchCondition::CarryClear,
        Mnemonic::Beq => BranchCondition::ZeroSet,
        Mnemonic::Bne => BranchCondition::ZeroClear,
        Mnemonic::Bmi => BranchCondition::MinusSet,
        Mnemonic::Bpl => BranchCondition::MinusClear,
        Mnemonic::Bvs => BranchCondition::OverflowSet,
        _ => BranchCondition::OverflowClear,
    }
}

/// JSR pushes the address of its last operand byte (so RTS, which adds one,
/// resumes after the instruction) and jumps.
pub open spec fn spec_jsr(v: CpuView, mode: AddressingMode) -> CpuView {
    let addr = spec_operand_address(v, mode, v.pc);
    CpuView { pc: addr, ..spec_push_word(v, v.pc.wrapping_add(1)) }
}

pub open spec fn spec_rts(v: CpuView) -> CpuView {
    let (v1, w) = spec_pop_word(v);
    CpuView { pc: w.wrapping_add(1), ..v1 }
}

pub open spec fn spec_jmp(v: CpuView, mode: AddressingMode) -> CpuView {
    CpuView { pc: spec_operand_address(v, mode, v.pc), ..v }
}

/// PHP pushes the status with both "B" flags set in the pushed copy.
pub open spec fn spec_php(v: CpuView) -> CpuView {
    spec_push_byte(v, spec_status_to_byte(Status { b1: true, b2: true, ..v.status }))
}

/// PLP pulls the status; the live word keeps `b1` clear and `b2` set.
pub open spec fn spec_plp(v: CpuView) -> CpuView {
    let (v1, b) = spec_pop_byte(v);
    CpuView { status: Status { b1: false, b2: true, ..spec_status_from_byte(b) }, ..v1 }
}

pub open spec fn spec_pha(v: CpuView) -> CpuView {
    spec_push_byte(v, v.a)
}

pub open spec fn spec_pla(v: CpuView) -> CpuView {
    let (v1, b) = spec_pop_byte(v);
    CpuView { a: b, status: spec_zn(v1.status, b), ..v1 }
}

/// RTI pulls the status (with the same "B" fixups as PLP), then the program
/// counter.
pub open spec fn spec_rti(v: CpuView) -> CpuView {
    let (v1, b) = spec_pop_byte(v);
    let (v2, w) = spec_pop_word(v1);
    CpuView { status: Status { b1: false, b2: true, ..spec_status_from_byte(b) }, pc: w, ..v2 }
}

pub open spec fn spec_asl_a(v: CpuView) -> CpuView {
    let value = v.a;
    let result = value << 1;
    CpuView {
        a: result,
        status: spec_zn(Status { carry: value >> 7 == 1u8, ..v.status }, result),
        ..v
    }
}

pub open spec fn spec_lsr_a(v: CpuView) -> CpuView {
    let value = v.a;
    let result = value >> 1;
    CpuView {
        a: result,
        status: spec_zn(Status { carry: value & 1u8 == 1u8, ..v.status }, result),
        ..v
    }
}

pub open spec fn spec_ror_a(v: CpuView) -> CpuView {
    let value = v.a;
    let carry_in: u8 = if v.status.carry {
        1u8
    } else {
        0u8
    };
    let result = (carry_in << 7) | (value >> 1);
    CpuView {
        a: result,
        status: spec_zn(Status { carry: value & 0x01u8 == 1u8, ..v.status }, result),
        ..v
    }
}

pub open spec fn spec_rol_a(v: CpuView) -> CpuView {
    let value = v.a;
    let carry_in: u8 = if v.status.carry {
        1u8
    } else {
        0u8
    };
    let result = (value << 1) | carry_in;
    CpuView {
        a: result,
        status: spec_zn(Status { carry: value >> 7 == 1u8, ..v.status }, result),
        ..v
    }
}

/// Read-modify-write arithmetic shift left; zero and negative follow the
/// written value.
pub open spec fn spec_asl_mem(v: CpuView, mode: AddressingMode) -> (CpuView, Result<u8, StepError>) {
    let addr = spec_operand_address(v, mode, v.pc);
    let value = spec_bus_read(v.bus, addr);
    let result = value << 1;
    if spec_write_is_rom(addr) {
        (v, Err(StepError::RomWrite { addr }))
    } else {
        (
            CpuView {
                bus: spec_bus_write(v.bus, addr, result),
                status: spec_zn(Status { carry: value >> 7 == 1u8, ..v.status }, result),
                ..v
            },
            Ok(result),
        )
    }
}

/// Read-modify-write logical shift right; zero and negative follow the
/// written value.
pub open spec fn spec_lsr_mem(v: CpuView, mode: AddressingMode) -> (CpuView, Result<u8, StepError>) {
    let addr = spec_operand_address(v, mode, v.pc);
    let value = spec_bus_read(v.bus, addr);
    let result = value >> 1;
    if spec_write_is_rom(addr) {
        (v, Err(StepError::RomWrite { addr }))
    } else {
        (
            CpuView {
                bus: spec_bus_write(v.bus, addr, result),
                status: spec_zn(Status { carry: value & 1u8 == 1u8, ..v.status }, result),
                ..v
            },
            Ok(result),
        )
    }
}

/// Read-modify-write rotate right; this path updates negative only, matching
/// the observed hardware quirk.
pub open spec fn spec_ror_mem(v: CpuView, mode: AddressingMode) -> (CpuView, Result<u8, StepError>) {
    let addr = spec_operand_address(v, mode, v.pc);
    let value = spec_bus_read(v.bus, addr);
    let carry_in: u8 = if v.status.carry {
        1u8
    } else {
        0u8
    };
    let result = (carry_in << 7) | (value >> 1);
    if spec_write_is_rom(addr) {
        (v, Err(StepError::RomWrite { addr }))
    } else {
        (
            CpuView {
                bus: spec_bus_write(v.bus, addr, result),
                status: spec_negative(Status { carry: value & 0x01u8 == 1u8, ..v.status }, result),
                ..v
            },
            Ok(result),
        )
    }
}

/// Read-modify-write rotate left; this path updates negative only, matching
/// the observed hardware quirk.
pub open spec fn spec_rol_mem(v: CpuView, mode: AddressingMode) -> (CpuView, Result<u8, StepError>) {
    let addr = spec_operand_address(v, mode, v.pc);
    let value = spec_bus_read(v.bus, addr);
    let carry_in: u8 = if v.status.carry {
        1u8
    } else {
        0u8
    };
    let result = (value << 1) | carry_in;
    if spec_write_is_rom(addr) {
        (v, Err(StepError::RomWrite { addr }))
    } else {
        (
            CpuView {
                bus: spec_bus_write(v.bus, addr, result),
                status: spec_negative(Status { carry: value >> 7 == 1u8, ..v.status }, result),
                ..v
            },
            Ok(result),
        )
    }
}

/// LAX loads the accumulator and X together.
pub open spec fn spec_lax(v: CpuView, mode: AddressingMode) -> CpuView {
    let value = spec_operand(v, mode);
    CpuView { a: value, x: value, status: spec_zn(v.status, value), ..v }
}

/// SAX stores the AND of accumulator and X, with no flag effects.
pub open spec fn spec_sax(v: CpuView, mode: AddressingMode) -> (CpuView, Result<(), StepError>) {
    let addr = spec_operand_address(v, mode, v.pc);
    if spec_write_is_rom(addr) {
        (v, Err(StepError::RomWrite { addr }))
    } else {
        (CpuView { bus: spec_bus_write(v.bus, addr, v.a & v.x), ..v }, Ok(()))
    }
}

/// DCP decrements memory, then compares the accumulator against the written
/// value.
pub open spec fn spec_dcp(v: CpuView, mode: AddressingMode) -> (CpuView, Result<(), StepError>) {
    let addr = spec_operand_address(v, mode, v.pc);
    let value = spec_bus_read(v.bus, addr).wrapping_sub(1);
    if spec_write_is_rom(addr) {
        (v, Err(StepError::RomWrite { addr }))
    } else {
        (
            CpuView {
                bus: spec_bus_write(v.bus, addr, value),
                status: spec_zn(
                    Status { carry: value <= v.a, ..v.status },
                    v.a.wrapping_sub(value),
                ),
                ..v
            },
            Ok(()),
        )
    }
}

/// ISB increments memory, then subtracts the written value from the
/// accumulator through the ADC path.
pub open spec fn spec_isb(v: CpuView, mode: AddressingMode) -> (CpuView, Result<(), StepError>) {
    let (v1, r) = spec_increment_memory(v, mode);
    match r {
        Ok(value) => (spec_add_to_a(v1, !value), Ok(())),
        Err(e) => (v1, Err(e)),
    }
}

/// SLO shifts memory left, then ORs the written value into the accumulator.
pub open spec fn spec_slo(v: CpuView, mode: AddressingMode) -> (CpuView, Result<(), StepError>) {
    let (v1, r) = spec_asl_mem(v, mode);
    match r {
        Ok(value) => {
            let a = v1.a | value;
            (CpuView { a, status: spec_zn(v1.status, a), ..v1 }, Ok(()))
        },
        Err(e) => (v1, Err(e)),
    }
}

/// RLA rotates memory left, then ANDs the written value into the accumulator.
pub open spec fn spec_rla(v: CpuView, mode: AddressingMode) -> (CpuView, Result<(), StepError>) {
    let (v1, r) = spec_rol_mem(v, mode);
    match r {
        Ok(value) => {
            let a = v1.a & value;
            (CpuView { a, status: spec_zn(v1.status, a), ..v1 }, Ok(()))
        },
        Err(e) => (v1, Err(e)),
    }
}

/// SRE shifts memory right, then XORs the written value into the accumulator.
pub open spec fn spec_sre(v: CpuView, mode: AddressingMode) -> (CpuView, Result<(), StepError>) {
    let (v1, r) = spec_lsr_mem(v, mode);
    match r {
        Ok(value) => {
            let a = v1.a ^ value;
            (CpuView { a, status: spec_zn(v1.status, a), ..v1 }, Ok(()))
        },
        Err(e) => (v1, Err(e)),
    }
}

/// RRA rotates memory right, then adds the written value to the accumulator
/// through the ADC path.
pub open spec fn spec_rra(v: CpuView, mode: AddressingMode) -> (CpuView, Result<(), StepError>) {
    let (v1, r) = spec_ror_mem(v, mode);
    match r {
        Ok(value) => (spec_add_to_a(v1, value), Ok(())),
        Err(e) => (v1, Err(e)),
    }
}

/// BRK marks the break flag and stops the run loop.
pub open spec fn spec_brk(v: CpuView) -> CpuView {
    CpuView { status: Status { b1: true, ..v.status }, running: false, ..v }
}

pub open spec fn spec_ok(v: CpuView) -> (CpuView, Result<(), StepError>) {
    (v, Ok(()))
}

/// Forget the byte a read-modify-write handler yields, keeping its error.
pub open spec fn spec_drop_value(r: (CpuView, Result<u8, StepError>)) -> (
    CpuView,
    Result<(), StepError>,
) {
    match r.1 {
        Ok(_) => (r.0, Ok(())),
        Err(e) => (r.0, Err(e)),
    }
}

/// Dispatch one table entry against the machine state `v`, whose program
/// counter already points at the first operand byte.
pub open spec fn spec_exec_instruction(v: CpuView, ins: Instruction) -> (
    CpuView,
    Result<(), StepError>,
) {
    match ins.mnemonic {
        Mnemonic::Brk => spec_ok(spec_brk(v)),
        Mnemonic::Nop => spec_ok(v),
        Mnemonic::Adc => spec_ok(spec_adc(v, ins.mode)),
        Mnemonic::And => spec_ok(spec_and(v, ins.mode)),
        Mnemonic::Bit => spec_ok(spec_bit(v, ins.mode)),
        Mnemonic::Eor => spec_ok(spec_eor(v, ins.mode)),
        Mnemonic::Jmp => spec_ok(spec_jmp(v, ins.mode)),
        Mnemonic::Jsr => spec_ok(spec_jsr(v, ins.mode)),
        Mnemonic::Lax => spec_ok(spec_lax(v, ins.mode)),
        Mnemonic::Ora => spec_ok(spec_ora(v, ins.mode)),
        Mnemonic::Sbc => spec_ok(spec_sbc(v, ins.mode)),
        Mnemonic::Asl => if ins.mode is Implied {
            spec_ok(spec_asl_a(v))
        } else {
            spec_drop_value(spec_asl_mem(v, ins.mode))
        },
        Mnemonic::Lsr => if ins.mode is Implied {
            spec_ok(spec_lsr_a(v))
        } else {
            spec_drop_value(spec_lsr_mem(v, ins.mode))
        },
        Mnemonic::Rol => if ins.mode is Implied {
            spec_ok(spec_rol_a(v))
        } else {
            spec_drop_value(spec_rol_mem(v, ins.mode))
        },
        Mnemonic::Ror => if ins.mode is Implied {
            spec_ok(spec_ror_a(v))
        } else {
            spec_drop_value(spec_ror_mem(v, ins.mode))
        },
        _ => spec_exec_branch_load_store(v, ins),
    }
}

/// Branches, flag changes, loads, stores and compares.
pub open spec fn spec_exec_branch_load_store(v: CpuView, ins: Instruction) -> (
    CpuView,
    Result<(), StepError>,
) {
    match ins.mnemonic {
        Mnemonic::Bcc => spec_ok(spec_branch(v, BranchCondition::CarryClear, ins.mode)),
        Mnemonic::Bcs => spec_ok(spec_branch(v, BranchCondition::CarrySet, ins.mode)),
        Mnemonic::Beq => spec_ok(spec_branch(v, BranchCondition::ZeroSet, ins.mode)),
        Mnemonic::Bmi => spec_ok(spec_branch(v, BranchCondition::MinusSet, ins.mode)),
        Mnemonic::Bne => spec_ok(spec_branch(v, BranchCondition::ZeroClear, ins.mode)),
        Mnemonic::Bpl => spec_ok(spec_branch(v, BranchCondition::MinusClear, ins.mode)),
        Mnemonic::Bvc => spec_ok(spec_branch(v, BranchCondition::OverflowClear, ins.mode)),
        Mnemonic::Bvs => spec_ok(spec_branch(v, BranchCondition::OverflowSet, ins.mode)),
        Mnemonic::Clc => spec_ok(CpuView { status: Status { carry: false, ..v.status }, ..v }),
        Mnemonic::Cld => spec_ok(CpuView { status: Status { decimal: false, ..v.status }, ..v }),
        Mnemonic::Cli => spec_ok(CpuView { status: Status { disable_interrupts: false, ..v.status }, ..v }),
        Mnemonic::Clv => spec_ok(CpuView { status: Status { overflow: false, ..v.status }, ..v }),
        Mnemonic::Sec => spec_ok(CpuView { status: Status { carry: true, ..v.status }, ..v }),
        Mnemonic::Sed => spec_ok(CpuView { status: Status { decimal: true, ..v.status }, ..v }),
        Mnemonic::Sei => spec_ok(CpuView { status: Status { disable_interrupts: true, ..v.status }, ..v }),
        Mnemonic::Lda => spec_ok(spec_load_op(v, Register::A, ins.mode)),
        Mnemonic::Ldx => spec_ok(spec_load_op(v, Register::X, ins.mode)),
        Mnemonic::Ldy => spec_ok(spec_load_op(v, Register::Y, ins.mode)),
        Mnemonic::Sta => spec_store(v, Register::A, ins.mode),
        Mnemonic::Stx => spec_store(v, Register::X, ins.mode),
        Mnemonic::Sty => spec_store(v, Register::Y, ins.mode),
        Mnemonic::Cmp => spec_ok(spec_compare(v, Register::A, ins.mode)),
        Mnemonic::Cpx => spec_ok(spec_compare(v, Register::X, ins.mode)),
        Mnemonic::Cpy => spec_ok(spec_compare(v, Register::Y, ins.mode)),
        _ => spec_exec_transfer_stack_fused(v, ins),
    }
}

/// Transfers, increments, stack instructions and the fused
/// read-modify-write family; a mnemonic with no handler (which `spec_step`
/// reports before dispatching) leaves the machine unchanged.
pub open spec fn spec_exec_transfer_stack_fused(v: CpuView, ins: Instruction) -> (
    CpuView,
    Result<(), StepError>,
) {
    match ins.mnemonic {
        Mnemonic::Tax => spec_ok(spec_transfer(v, Register::A, Register::X)),
        Mnemonic::Tay => spec_ok(spec_transfer(v, Register::A, Register::Y)),
        Mnemonic::Tsx => spec_ok(spec_transfer(v, Register::S, Register::X)),
        Mnemonic::Txa => spec_ok(spec_transfer(v, Register::X, Register::A)),
        Mnemonic::Txs => spec_ok(spec_transfer(v, Register::X, Register::S)),
        Mnemonic::Tya => spec_ok(spec_transfer(v, Register::Y, Register::A)),
        Mnemonic::Inx => spec_ok(spec_increment_register(v, Register::X)),
        Mnemonic::Iny => spec_ok(spec_increment_register(v, Register::Y)),
        Mnemonic::Dex => spec_ok(spec_decrement_register(v, Register::X)),
        Mnemonic::Dey => spec_ok(spec_decrement_register(v, Register::Y)),
        Mnemonic::Inc => spec_drop_value(spec_increment_memory(v, ins.mode)),
        Mnemonic::Dec => spec_decrement_memory(v, ins.mode),
        Mnemonic::Pha => spec_ok(spec_pha(v)),
        Mnemonic::Php => spec_ok(spec_php(v)),
        Mnemonic::Pla => spec_ok(spec_pla(v)),
        Mnemonic::Plp => spec_ok(spec_plp(v)),
        Mnemonic::Rti => spec_ok(spec_rti(v)),
        Mnemonic::Rts => spec_ok(spec_rts(v)),
        Mnemonic::Dcp => spec_dcp(v, ins.mode),
        Mnemonic::Isb => spec_isb(v, ins.mode),
        Mnemonic::Rla => spec_rla(v, ins.mode),
        Mnemonic::Rra => spec_rra(v, ins.mode),
        Mnemonic::Sax => spec_sax(v, ins.mode),
        Mnemonic::Slo => spec_slo(v, ins.mode),
        Mnemonic::Sre => spec_sre(v, ins.mode),
        _ => spec_ok(v),
    }
}

/// One whole instruction step. An opcode without a handler is reported
/// without touching the machine. Otherwise the program counter moves past the
/// opcode byte, the cycle counter grows by the opcode's base cost, the
/// handler runs, and — unless the handler itself moved the program counter —
/// the operand bytes are skipped.
pub open spec fn spec_step(v: CpuView) -> (CpuView, Result<(), StepError>) {
    let opcode = spec_bus_read(v.bus, v.pc);
    let ins = spec_instruction(opcode);
    if !ins.implemented {
        (v, Err(StepError::UnimplementedOpcode { opcode, pc: v.pc }))
    } else {
        let pc1 = v.pc.wrapping_add(1);
        let v1 = CpuView { pc: pc1, cycles: v.cycles.wrapping_add(ins.cycles as usize), ..v };
        let (v2, r) = spec_exec_instruction(v1, ins);
        if r is Err {
            (v2, r)
        } else if v2.pc == pc1 {
            (CpuView { pc: v2.pc.wrapping_add((ins.bytes as u16).wrapping_sub(1)), ..v2 }, r)
        } else {
            (v2, r)
        }
    }
}

/// Stepping repeatedly: stop with `Ok(true)` as soon as the running flag is
/// clear, with `Ok(false)` when the step budget runs out first, and with the
/// first step error otherwise.
pub open spec fn spec_run(v: CpuView, fuel: nat) -> (CpuView, Result<bool, StepError>)
    decreases fuel,
{
    if !v.running {
        (v, Ok(true))
    } else if fuel == 0 {
        (v, Ok(false))
    } else {
        let (v2, r) = spec_step(v);
        match r {
            Ok(()) => spec_run(v2, (fuel - 1) as nat),
            Err(e) => (v2, Err(e)),
        }
    }
}

/// Reset: registers cleared, stack pointer at `0xFD`, interrupt-disable and
/// the reserved "B" bit set, cycle counter cleared, and the program counter
/// loaded from the little-endian reset vector at `0xFFFC`.
pub open spec fn spec_reset(v: CpuView) -> CpuView {
    CpuView {
        a: 0u8,
        x: 0u8,
        y: 0u8,
        sp: 0xFDu8,
        status: spec_status_from_byte(0x24u8),
        pc: spec_bus_read16(v.bus, 0xFFFCu16),
        cycles: 0usize,
        ..v
    }
}

impl Cpu {
    /// Read a byte through the bus.
    pub fn read_byte(&self, addr: u16) -> (r: u8)
        requires
            self@.wf(),
        ensures
            r == spec_bus_read(self@.bus, addr),
    {
        self.bus.read_byte(addr)
    }

    /// Write a byte through the bus; a write into the PRG-ROM window is
    /// refused and leaves the machine unchanged.
    pub fn write_byte(&mut self, addr: u16, value: u8) -> (r: Result<(), StepError>)
        requires
            old(self)@.wf(),
        ensures
            final(self)@.wf(),
            final(self)@ == (CpuView { bus: spec_bus_write(old(self)@.bus, addr, value), ..old(self)@ }),
            r == if spec_write_is_rom(addr) {
                Err::<(), StepError>(StepError::RomWrite { addr })
            } else {
                Ok::<(), StepError>(())
            },
    {
        self.bus.write_byte(addr, value)
    }

    /// Read a 16-bit little-endian word through the bus.
    pub fn read_word(&self, addr: u16) -> (r: u16)
        requires
            self@.wf(),
        ensures
            r == spec_bus_read16(self@.bus, addr),
    {
        self.bus.read_word(addr)
    }

    /// Write a 16-bit little-endian word through the bus, low byte first.
    pub fn write_word(&mut self, addr: u16, value: u16) -> (r: Result<(), StepError>)
        requires
            old(self)@.wf(),
        ensures
            final(self)@.wf(),
            final(self)@ == (CpuView {
                bus: spec_bus_write(
                    spec_bus_write(old(self)@.bus, addr, (value & 0xFFu16) as u8),
                    addr.wrapping_add(1),
                    (value >> 8) as u8,
                ),
                ..old(self)@
            }),
            r is Ok <==> !spec_write_is_rom(addr) && !spec_write_is_rom(addr.wrapping_add(1)),
    {
        self.bus.write_word(addr, value)
    }

    /// Recompute zero and negative from a result byte.
    fn update_zero_and_negative(&mut self, value: u8)
        ensures
            final(self)@ == (CpuView { status: spec_zn(old(self)@.status, value), ..old(self)@ }),
    {
        self.status.zero = value == 0;
        self.status.negative = value >> 7 == 1;
    }

    /// Recompute negative alone from a result byte.
    fn update_negative(&mut self, value: u8)
        ensures
            final(self)@ == (CpuView {
                status: spec_negative(old(self)@.status, value),
                ..old(self)@
            }),
    {
        self.status.negative = value >> 7 == 1;
    }

    fn get_register(&self, register: Register) -> (r: u8)
        ensures
            r == spec_get_register(self@, register),
    {
        match register {
            Register::A => self.a,
            Register::X => self.x,
            Register::Y => self.y,
            Register::S => self.sp,
        }
    }

    fn set_register(&mut self, register: Register, value: u8)
        ensures
            final(self)@ == spec_set_register(old(self)@, register, value),
    {
        match register {
            Register::A => self.a = value,
            Register::X => self.x = value,
            Register::Y => self.y = value,
            Register::S => self.sp = value,
        }
    }

    /// Resolve an addressing mode to an effective address, with `pc` the
    /// address of the first operand byte.
    pub fn get_operand_address(&self, mode: AddressingMode, pc: u16) -> (r: u16)
        requires
            self@.wf(),
        ensures
            r == spec_operand_address(self@, mode, pc),
    {
        match mode {
            AddressingMode::Immediate => pc,
            AddressingMode::ZeroPage => self.read_byte(pc) as u16,
            AddressingMode::ZeroPageX => {
                let addr = self.read_byte(pc);
                addr.wrapping_add(self.x) as u16
            },
            AddressingMode::ZeroPageY => {
                let addr = self.read_byte(pc);
                addr.wrapping_add(self.y) as u16
            },
            AddressingMode::Absolute => self.read_word(pc),
            AddressingMode::AbsoluteX => {
                let addr = self.read_word(pc);
                addr.wrapping_add(self.x as u16)
            },
            AddressingMode::AbsoluteY => {
                let addr = self.read_word(pc);
                addr.wrapping_add(self.y as u16)
            },
            AddressingMode::Indirect => {
                let mem_address = self.read_word(pc);
                // Hardware page-wrap quirk: a pointer sitting at the end of a
                // page takes its high byte from the start of that same page.
                if mem_address & 0x00FF == 0x00FF {
                    let lo = self.read_byte(mem_address);
                    let hi = self.read_byte(mem_address & 0xFF00);
                    (hi as u16) << 8 | lo as u16
                } else {
                    self.read_word(mem_address)
                }
            },
            AddressingMode::IndirectX => {
                let base = self.read_byte(pc);
                let ptr = base.wrapping_add(self.x);
                let lo = self.read_byte(ptr as u16);
                let hi = self.read_byte(ptr.wrapping_add(1) as u16);
                (hi as u16) << 8 | lo as u16
            },
            AddressingMode::IndirectY => {
                let base = self.read_byte(pc);
                let lo = self.read_byte(base as u16);
                let hi = self.read_byte(base.wrapping_add(1) as u16);
                let ptr = (hi as u16) << 8 | lo as u16;
                ptr.wrapping_add(self.y as u16)
            },
            AddressingMode::Relative => {
                // A signed 8-bit offset relative to the byte after it.
                let offset = self.read_byte(pc);
                if offset >= 0x80 {
                    pc.wrapping_add(offset as u16).wrapping_sub(0x100)
                } else {
                    pc.wrapping_add(offset as u16)
                }
            },
            AddressingMode::Implied => 0,
        }
    }

    fn push_byte(&mut self, value: u8)
        requires
            old(self)@.wf(),
        ensures
            final(self)@.wf(),
            final(self)@ == spec_push_byte(old(self)@, value),
    {
        let _ = self.write_byte(STACK + self.sp as u16, value);
        self.sp = self.sp.wrapping_sub(1);
    }

    fn pop_byte(&mut self) -> (r: u8)
        requires
            old(self)@.wf(),
        ensures
            final(self)@.wf(),
            (final(self)@, r) == spec_pop_byte(old(self)@),
    {
        self.sp = self.sp.wrapping_add(1);
        self.read_byte(STACK + self.sp as u16)
    }

    fn push_word(&mut self, value: u16)
        requires
            old(self)@.wf(),
        ensures
            final(self)@.wf(),
            final(self)@ == spec_push_word(old(self)@, value),
    {
        let hi = (value >> 8) as u8;
        let lo = (value & 0xFF) as u8;
        self.push_byte(hi);
        self.push_byte(lo);
    }

    fn pop_word(&mut self) -> (r: u16)
        requires
            old(self)@.wf(),
        ensures
            final(self)@.wf(),
            (final(self)@, r) == spec_pop_word(old(self)@),
    {
        let lo = self.pop_byte() as u16;
        let hi = self.pop_byte() as u16;
        hi << 8 | lo
    }

    fn add_to_a(&mut self, value: u8)
        ensures
            final(self)@ == spec_add_to_a(old(self)@, value),
    {
        let carry: u16 = if self.status.carry {
            1
        } else {
            0
        };
        let sum: u16 = self.a as u16 + value as u16 + carry;
        self.status.carry = sum > 0xFF;
        let result = #[verifier::truncate] (sum as u8);
        self.status.overflow = (value ^ result) & (result ^ self.a) & 0x80 != 0;
        self.a = result;
        self.update_zero_and_negative(result);
    }

    fn adc(&mut self, mode: AddressingMode)
        requires
            old(self)@.wf(),
        ensures
            final(self)@.wf(),
            final(self)@ == spec_adc(old(self)@, mode),
    {
        let addr = self.get_operand_address(mode, self.pc);
        let value = self.read_byte(addr);
        self.add_to_a(value);
    }

    fn sbc(&mut self, mode: AddressingMode)
        requires
            old(self)@.wf(),
        ensures
            final(self)@.wf(),
            final(self)@ == spec_sbc(old(self)@, mode),
    {
        let addr = self.get_operand_address(mode, self.pc);
        let value = self.read_byte(addr);
        self.add_to_a(!value);
    }

    fn load(&mut self, register: Register, mode: AddressingMode)
        requires
            old(self)@.wf(),
        ensures
            final(self)@.wf(),
            final(self)@ == spec_load_op(old(self)@, register, mode),
    {
        let addr = self.get_operand_address(mode, self.pc);
        let value = self.read_byte(addr);
        self.set_register(register, value);
        self.update_zero_and_negative(value);
    }

    fn store(&mut self, register: Register, mode: AddressingMode) -> (r: Result<(), StepError>)
        requires
            old(self)@.wf(),
        ensures
            final(self)@.wf(),
            (final(self)@, r) == spec_store(old(self)@, register, mode),
    {
        let addr = self.get_operand_address(mode, self.pc);
        let value = self.get_register(register);
        self.write_byte(addr, value)
    }

    fn transfer(&mut self, src: Register, dst: Register)
        ensures
            final(self)@ == spec_transfer(old(self)@, src, dst),
    {
        let value = self.get_register(src);
        self.set_register(dst, value);
        if !matches!(dst, Register::S) {
            self.update_zero_and_negative(value);
        }
    }

    fn increment_register(&mut self, register: Register)
        ensures
            final(self)@ == spec_increment_register(old(self)@, register),
    {
        let value = self.get_register(register).wrapping_add(1);
        self.set_register(register, value);
        self.update_zero_and_negative(value);
    }

    fn decrement_register(&mut self, register: Register)
        ensures
            final(self)@ == spec_decrement_register(old(self)@, register),
    {
        let value = self.get_register(register).wrapping_sub(1);
        self.set_register(register, value);
        self.update_zero_and_negative(value);
    }

    fn increment_memory(&mut self, mode: AddressingMode) -> (r: Result<u8, StepError>)
        requires
            old(self)@.wf(),
        ensures
            final(self)@.wf(),
            (final(self)@, r) == spec_increment_memory(old(self)@, mode),
    {
        let addr = self.get_operand_address(mode, self.pc);
        let value = self.read_byte(addr).wrapping_add(1);
        self.write_byte(addr, value)?;
        self.update_zero_and_negative(value);
        Ok(value)
    }

    fn decrement_memory(&mut self, mode: AddressingMode) -> (r: Result<(), StepError>)
        requires
            old(self)@.wf(),
        ensures
            final(self)@.wf(),
            (final(self)@, r) == spec_decrement_memory(old(self)@, mode),
    {
        let addr = self.get_operand_address(mode, self.pc);
        let value = self.read_byte(addr).wrapping_sub(1);
        self.write_byte(addr, value)?;
        self.update_zero_and_negative(value);
        Ok(())
    }

    fn and(&mut self, mode: AddressingMode)
        requires
            old(self)@.wf(),
        ensures
            final(self)@.wf(),
            final(self)@ == spec_and(old(self)@, mode),
    {
        let addr = self.get_operand_address(mode, self.pc);
        let value = self.read_byte(addr);
        self.a &= value;
        let a = self.a;
        self.update_zero_and_negative(a);
    }

    fn ora(&mut self, mode: AddressingMode)
        requires
            old(self)@.wf(),
        ensures
            final(self)@.wf(),
            final(self)@ == spec_ora(old(self)@, mode),
    {
        let addr = self.get_operand_address(mode, self.pc);
        let value = self.read_byte(addr);
        self.a |= value;
        let a = self.a;
        self.update_zero_and_negative(a);
    }

    fn eor(&mut self, mode: AddressingMode)
        requires
            old(self)@.wf(),
        ensures
            final(self)@.wf(),
            final(self)@ == spec_eor(old(self)@, mode),
    {
        let addr = self.get_operand_address(mode, self.pc);
        let value = self.read_byte(addr);
        self.a ^= value;
        let a = self.a;
        self.update_zero_and_negative(a);
    }

    fn compare(&mut self, register: Register, mode: AddressingMode)
        requires
            old(self)@.wf(),
        ensures
            final(self)@.wf(),
            final(self)@ == spec_compare(old(self)@, register, mode),
    {
        let addr = self.get_operand_address(mode, self.pc);
        let value = self.read_byte(addr);
        let register_value = self.get_register(register);
        self.status.carry = value <= register_value;
        self.update_zero_and_negative(register_value.wrapping_sub(value));
    }

    fn bit(&mut self, mode: AddressingMode)
        requires
            old(self)@.wf(),
        ensures
            final(self)@.wf(),
            final(self)@ == spec_bit(old(self)@, mode),
    {
        let addr = self.get_operand_address(mode, self.pc);
        let value = self.read_byte(addr);
        self.status.zero = value & self.a == 0;
        self.status.negative = value & 0x80 != 0;
        self.status.overflow = value & 0x40 != 0;
    }

    fn branch(&mut self, condition: BranchCondition, mode: AddressingMode)
        requires
            old(self)@.wf(),
        ensures
            final(self)@.wf(),
            final(self)@ == spec_branch(old(self)@, condition, mode),
    {
        let condition_met = match condition {
            BranchCondition::CarrySet => self.status.carry,
            BranchCondition::CarryClear => !self.status.carry,
            BranchCondition::ZeroSet => self.status.zero,
            BranchCondition::ZeroClear => !self.status.zero,
            BranchCondition::MinusSet => self.status.negative,
            BranchCondition::MinusClear => !self.status.negative,
            BranchCondition::OverflowSet => self.status.overflow,
            BranchCondition::OverflowClear => !self.status.overflow,
        };
        if condition_met {
            self.pc = self.get_operand_address(mode, self.pc);
        }
        // Consume the offset byte that was already read, taken or not.
        self.pc = self.pc.wrapping_add(1);
    }

    fn jsr(&mut self, mode: AddressingMode)
        requires
            old(self)@.wf(),
        ensures
            final(self)@.wf(),
            final(self)@ == spec_jsr(old(self)@, mode),
    {
        let addr = self.get_operand_address(mode, self.pc);
        let ret = self.pc.wrapping_add(1);
        self.push_word(ret);
        self.pc = addr;
    }

    fn rts(&mut self)
        requires
            old(self)@.wf(),
        ensures
            final(self)@.wf(),
            final(self)@ == spec_rts(old(self)@),
    {
        self.pc = self.pop_word().wrapping_add(1);
    }

    fn jmp(&mut self, mode: AddressingMode)
        requires
            old(self)@.wf(),
        ensures
            final(self)@.wf(),
            final(self)@ == spec_jmp(old(self)@, mode),
    {
        self.pc = self.get_operand_address(mode, self.pc);
    }

    fn php(&mut self)
        requires
            old(self)@.wf(),
        ensures
            final(self)@.wf(),
            final(self)@ == spec_php(old(self)@),
    {
        let mut pushed = self.status;
        pushed.b1 = true;
        pushed.b2 = true;
        self.push_byte(pushed.to_byte());
    }

    fn plp(&mut self)
        requires
            old(self)@.wf(),
        ensures
            final(self)@.wf(),
            final(self)@ == spec_plp(old(self)@),
    {
        let b = self.pop_byte();
        self.status = Status::from_byte(b);
        self.status.b1 = false;
        self.status.b2 = true;
    }

    fn pha(&mut self)
        requires
            old(self)@.wf(),
        ensures
            final(self)@.wf(),
            final(self)@ == spec_pha(old(self)@),
    {
        let a = self.a;
        self.push_byte(a);
    }

    fn pla(&mut self)
        requires
            old(self)@.wf(),
        ensures
            final(self)@.wf(),
            final(self)@ == spec_pla(old(self)@),
    {
        let b = self.pop_byte();
        self.a = b;
        self.update_zero_and_negative(b);
    }

    fn rti(&mut self)
        requires
            old(self)@.wf(),
        ensures
            final(self)@.wf(),
            final(self)@ == spec_rti(old(self)@),
    {
        let b = self.pop_byte();
        self.status = Status::from_byte(b);
        self.status.b1 = false;
        self.status.b2 = true;
        self.pc = self.pop_word();
    }

    fn asl_a(&mut self)
        ensures
            final(self)@ == spec_asl_a(old(self)@),
    {
        let value = self.a;
        self.status.carry = value >> 7 == 1;
        self.a = value << 1;
        let a = self.a;
        self.update_zero_and_negative(a);
    }

    fn lsr_a(&mut self)
        ensures
            final(self)@ == spec_lsr_a(old(self)@),
    {
        let value = self.a;
        self.status.carry = value & 1 == 1;
        self.a = value >> 1;
        let a = self.a;
        self.update_zero_and_negative(a);
    }

    fn ror_a(&mut self)
        ensures
            final(self)@ == spec_ror_a(old(self)@),
    {
        let value = self.a;
        let carry_in: u8 = if self.status.carry {
            1
        } else {
            0
        };
        self.status.carry = value & 0x01 == 1;
        self.a = (carry_in << 7) | (value >> 1);
        let a = self.a;
        self.update_zero_and_negative(a);
    }

    fn rol_a(&mut self)
        ensures
            final(self)@ == spec_rol_a(old(self)@),
    {
        let value = self.a;
        let carry_in: u8 = if self.status.carry {
            1
        } else {
            0
        };
        self.status.carry = value >> 7 == 1;
        self.a = (value << 1) | carry_in;
        let a = self.a;
        self.update_zero_and_negative(a);
    }

    fn asl(&mut self, mode: AddressingMode) -> (r: Result<u8, StepError>)
        requires
            old(self)@.wf(),
        ensures
            final(self)@.wf(),
            (final(self)@, r) == spec_asl_mem(old(self)@, mode),
    {
        let addr = self.get_operand_address(mode, self.pc);
        let value = self.read_byte(addr);
        let result = value << 1;
        self.write_byte(addr, result)?;
        self.status.carry = value >> 7 == 1;
        self.update_zero_and_negative(result);
        Ok(result)
    }

    fn lsr(&mut self, mode: AddressingMode) -> (r: Result<u8, StepError>)
        requires
            old(self)@.wf(),
        ensures
            final(self)@.wf(),
            (final(self)@, r) == spec_lsr_mem(old(self)@, mode),
    {
        let addr = self.get_operand_address(mode, self.pc);
        let value = self.read_byte(addr);
        let result = value >> 1;
        self.write_byte(addr, result)?;
        self.status.carry = value & 1 == 1;
        self.update_zero_and_negative(result);
        Ok(result)
    }

    fn ror(&mut self, mode: AddressingMode) -> (r: Result<u8, StepError>)
        requires
            old(self)@.wf(),
        ensures
            final(self)@.wf(),
            (final(self)@, r) == spec_ror_mem(old(self)@, mode),
    {
        let addr = self.get_operand_address(mode, self.pc);
        let value = self.read_byte(addr);
        let carry_in: u8 = if self.status.carry {
            1
        } else {
            0
        };
        let result = (carry_in << 7) | (value >> 1);
        self.write_byte(addr, result)?;
        self.status.carry = value & 0x01 == 1;
        self.update_negative(result);
        Ok(result)
    }

    fn rol(&mut self, mode: AddressingMode) -> (r: Result<u8, StepError>)
        requires
            old(self)@.wf(),
        ensures
            final(self)@.wf(),
            (final(self)@, r) == spec_rol_mem(old(self)@, mode),
    {
        let addr = self.get_operand_address(mode, self.pc);
        let value = self.read_byte(addr);
        let carry_in: u8 = if self.status.carry {
            1
        } else {
            0
        };
        let result = (value << 1) | carry_in;
        self.write_byte(addr, result)?;
        self.status.carry = value >> 7 == 1;
        self.update_negative(result);
        Ok(result)
    }

    fn lax(&mut self, mode: AddressingMode)
        requires
            old(self)@.wf(),
        ensures
            final(self)@.wf(),
            final(self)@ == spec_lax(old(self)@, mode),
    {
        let addr = self.get_operand_address(mode, self.pc);
        let value = self.read_byte(addr);
        self.a = value;
        self.x = value;
        self.update_zero_and_negative(value);
    }

    fn sax(&mut self, mode: AddressingMode) -> (r: Result<(), StepError>)
        requires
            old(self)@.wf(),
        ensures
            final(self)@.wf(),
            (final(self)@, r) == spec_sax(old(self)@, mode),
    {
        let value = self.a & self.x;
        let addr = self.get_operand_address(mode, self.pc);
        self.write_byte(addr, value)
    }

    fn dcp(&mut self, mode: AddressingMode) -> (r: Result<(), StepError>)
        requires
            old(self)@.wf(),
        ensures
            final(self)@.wf(),
            (final(self)@, r) == spec_dcp(old(self)@, mode),
    {
        let addr = self.get_operand_address(mode, self.pc);
        let value = self.read_byte(addr).wrapping_sub(1);
        self.write_byte(addr, value)?;
        self.status.carry = value <= self.a;
        let diff = self.a.wrapping_sub(value);
        self.update_zero_and_negative(diff);
        Ok(())
    }

    fn isb(&mut self, mode: AddressingMode) -> (r: Result<(), StepError>)
        requires
            old(self)@.wf(),
        ensures
            final(self)@.wf(),
            (final(self)@, r) == spec_isb(old(self)@, mode),
    {
        let value = self.increment_memory(mode)?;
        self.add_to_a(!value);
        Ok(())
    }

    fn slo(&mut self, mode: AddressingMode) -> (r: Result<(), StepError>)
        requires
            old(self)@.wf(),
        ensures
            final(self)@.wf(),
            (final(self)@, r) == spec_slo(old(self)@, mode),
    {
        let value = self.asl(mode)?;
        self.a |= value;
        let a = self.a;
        self.update_zero_and_negative(a);
        Ok(())
    }

    fn rla(&mut self, mode: AddressingMode) -> (r: Result<(), StepError>)
        requires
            old(self)@.wf(),
        ensures
            final(self)@.wf(),
            (final(self)@, r) == spec_rla(old(self)@, mode),
    {
        let value = self.rol(mode)?;
        self.a &= value;
        let a = self.a;
        self.update_zero_and_negative(a);
        Ok(())
    }

    fn sre(&mut self, mode: AddressingMode) -> (r: Result<(), StepError>)
        requires
            old(self)@.wf(),
        ensures
            final(self)@.wf(),
            (final(self)@, r) == spec_sre(old(self)@, mode),
    {
        let value = self.lsr(mode)?;
        self.a ^= value;
        let a = self.a;
        self.update_zero_and_negative(a);
        Ok(())
    }

    fn rra(&mut self, mode: AddressingMode) -> (r: Result<(), StepError>)
        requires
            old(self)@.wf(),
        ensures
            final(self)@.wf(),
            (final(self)@, r) == spec_rra(old(self)@, mode),
    {
        let value = self.ror(mode)?;
        self.add_to_a(value);
        Ok(())
    }

    /// Put the machine in its power-on state: registers cleared, stack
    /// pointer at `0xFD`, status `0b0010_0100`, cycle counter cleared, and
    /// the program counter loaded from the reset vector at `0xFFFC`.
    pub fn reset(&mut self)
        requires
            old(self)@.wf(),
        ensures
            final(self)@.wf(),
            final(self)@ == spec_reset(old(self)@),
    {
        self.a = 0;
        self.x = 0;
        self.y = 0;
        self.sp = 0xFD;
        self.status = Status::from_byte(0b0010_0100);
        self.pc = self.read_word(0xFFFC);
        self.cycles = 0;
    }

    /// A fresh machine on the given bus, already reset and running.
    pub fn new(bus: Bus) -> (r: Cpu)
        requires
            bus@.wf(),
        ensures
            r@.wf(),
            r@ == spec_reset(
                CpuView {
                    a: 0u8,
                    x: 0u8,
                    y: 0u8,
                    sp: 0u8,
                    status: spec_status_from_byte(0u8),
                    pc: 0u16,
                    running: true,
                    cycles: 0usize,
                    bus: bus@,
                },
            ),
    {
        let mut cpu = Cpu {
            a: 0,
            x: 0,
            y: 0,
            sp: 0,
            status: Status::from_byte(0),
            pc: 0,
            running: true,
            cycles: 0,
            bus,
        };
        cpu.reset();
        cpu
    }


    /// Dispatch one table entry to its handler.
    #[verifier::rlimit(100)]
    #[verifier::spinoff_prover]
    fn exec_instruction(&mut self, ins: Instruction) -> (r: Result<(), StepError>)
        requires
            old(self)@.wf(),
        ensures
            final(self)@.wf(),
            (final(self)@, r) == spec_exec_instruction(old(self)@, ins),
    {
        match ins.mnemonic {
            Mnemonic::Brk => {
                self.status.b1 = true;
                self.running = false;
                Ok(())
            },
            Mnemonic::Nop => Ok(()),
            Mnemonic::Adc => {
                self.adc(ins.mode);
                Ok(())
            },
            Mnemonic::And => {
                self.and(ins.mode);
                Ok(())
            },
            Mnemonic::Bit => {
                self.bit(ins.mode);
                Ok(())
            },
            Mnemonic::Eor => {
                self.eor(ins.mode);
                Ok(())
            },
            Mnemonic::Jmp => {
                self.jmp(ins.mode);
                Ok(())
            },
            Mnemonic::Jsr => {
                self.jsr(ins.mode);
                Ok(())
            },
            Mnemonic::Lax => {
                self.lax(ins.mode);
                Ok(())
            },
            Mnemonic::Ora => {
                self.ora(ins.mode);
                Ok(())
            },
            Mnemonic::Sbc => {
                self.sbc(ins.mode);
                Ok(())
            },
            Mnemonic::Asl => if matches!(ins.mode, AddressingMode::Implied) {
                self.asl_a();
                Ok(())
            } else {
                match self.asl(ins.mode) {
                    Ok(_) => Ok(()),
                    Err(e) => Err(e),
                }
            },
            Mnemonic::Lsr => if matches!(ins.mode, AddressingMode::Implied) {
                self.lsr_a();
                Ok(())
            } else {
                match self.lsr(ins.mode) {
                    Ok(_) => Ok(()),
                    Err(e) => Err(e),
                }
            },
            Mnemonic::Rol => if matches!(ins.mode, AddressingMode::Implied) {
                self.rol_a();
                Ok(())
            } else {
                match self.rol(ins.mode) {
                    Ok(_) => Ok(()),
                    Err(e) => Err(e),
                }
            },
            Mnemonic::Ror => if matches!(ins.mode, AddressingMode::Implied) {
                self.ror_a();
                Ok(())
            } else {
                match self.ror(ins.mode) {
                    Ok(_) => Ok(()),
                    Err(e) => Err(e),
                }
            },
            _ => self.exec_branch_load_store(ins),
        }
    }

    /// Branches, flag changes, loads, stores and compares.
    #[verifier::rlimit(100)]
    #[verifier::spinoff_prover]
    fn exec_branch_load_store(&mut self, ins: Instruction) -> (r: Result<(), StepError>)
        requires
            old(self)@.wf(),
        ensures
            final(self)@.wf(),
            (final(self)@, r) == spec_exec_branch_load_store(old(self)@, ins),
    {
        match ins.mnemonic {
            Mnemonic::Bcc => {
                self.branch(BranchCondition::CarryClear, ins.mode);
                Ok(())
            },
            Mnemonic::Bcs => {
                self.branch(BranchCondition::CarrySet, ins.mode);
                Ok(())
            },
            Mnemonic::Beq => {
                self.branch(BranchCondition::ZeroSet, ins.mode);
                Ok(())
            },
            Mnemonic::Bmi => {
                self.branch(BranchCondition::MinusSet, ins.mode);
                Ok(())
            },
            Mnemonic::Bne => {
                self.branch(BranchCondition::ZeroClear, ins.mode);
                Ok(())
            },
            Mnemonic::Bpl => {
                self.branch(BranchCondition::MinusClear, ins.mode);
                Ok(())
            },
            Mnemonic::Bvc => {
                self.branch(BranchCondition::OverflowClear, ins.mode);
                Ok(())
            },
            Mnemonic::Bvs => {
                self.branch(BranchCondition::OverflowSet, ins.mode);
                Ok(())
            },
            Mnemonic::Clc => {
                self.status.carry = false;
                Ok(())
            },
            Mnemonic::Cld => {
                self.status.decimal = false;
                Ok(())
            },
            Mnemonic::Cli => {
                self.status.disable_interrupts = false;
                Ok(())
            },
            Mnemonic::Clv => {
                self.status.overflow = false;
                Ok(())
            },
            Mnemonic::Sec => {
                self.status.carry = true;
                Ok(())
            },
            Mnemonic::Sed => {
                self.status.decimal = true;
                Ok(())
            },
            Mnemonic::Sei => {
                self.status.disable_interrupts = true;
                Ok(())
            },
            Mnemonic::Lda => {
                self.load(Register::A, ins.mode);
                Ok(())
            },
            Mnemonic::Ldx => {
                self.load(Register::X, ins.mode);
                Ok(())
            },
            Mnemonic::Ldy => {
                self.load(Register::Y, ins.mode);
                Ok(())
            },
            Mnemonic::Sta => self.store(Register::A, ins.mode),
            Mnemonic::Stx => self.store(Register::X, ins.mode),
            Mnemonic::Sty => self.store(Register::Y, ins.mode),
            Mnemonic::Cmp => {
                self.compare(Register::A, ins.mode);
                Ok(())
            },
            Mnemonic::Cpx => {
                self.compare(Register::X, ins.mode);
                Ok(())
            },
            Mnemonic::Cpy => {
                self.compare(Register::Y, ins.mode);
                Ok(())
            },
            _ => self.exec_transfer_stack_fused(ins),
        }
    }

    /// Transfers, increments, stack instructions and the fused
    /// read-modify-write family; a mnemonic with no handler (which `step`
    /// reports before dispatching) leaves the machine unchanged.
    #[verifier::rlimit(100)]
    #[verifier::spinoff_prover]
    fn exec_transfer_stack_fused(&mut self, ins: Instruction) -> (r: Result<(), StepError>)
        requires
            old(self)@.wf(),
        ensures
            final(self)@.wf(),
            (final(self)@, r) == spec_exec_transfer_stack_fused(old(self)@, ins),
    {
        match ins.mnemonic {
            Mnemonic::Tax => {
                self.transfer(Register::A, Register::X);
                Ok(())
            },
            Mnemonic::Tay => {
                self.transfer(Register::A, Register::Y);
                Ok(())
            },
            Mnemonic::Tsx => {
                self.transfer(Register::S, Register::X);
                Ok(())
            },
            Mnemonic::Txa => {
                self.transfer(Register::X, Register::A);
                Ok(())
            },
            Mnemonic::Txs => {
                self.transfer(Register::X, Register::S);
                Ok(())
            },
            Mnemonic::Tya => {
                self.transfer(Register::Y, Register::A);
                Ok(())
            },
            Mnemonic::Inx => {
                self.increment_register(Register::X);
                Ok(())
            },
            Mnemonic::Iny => {
                self.increment_register(Register::Y);
                Ok(())
            },
            Mnemonic::Dex => {
                self.decrement_register(Register::X);
                Ok(())
            },
            Mnemonic::Dey => {
                self.decrement_register(Register::Y);
                Ok(())
            },
            Mnemonic::Inc => match self.increment_memory(ins.mode) {
                Ok(_) => Ok(()),
                Err(e) => Err(e),
            },
            Mnemonic::Dec => self.decrement_memory(ins.mode),
            Mnemonic::Pha => {
                self.pha();
                Ok(())
            },
            Mnemonic::Php => {
                self.php();
                Ok(())
            },
            Mnemonic::Pla => {
                self.pla();
                Ok(())
            },
            Mnemonic::Plp => {
                self.plp();
                Ok(())
            },
            Mnemonic::Rti => {
                self.rti();
                Ok(())
            },
            Mnemonic::Rts => {
                self.rts();
                Ok(())
            },
            Mnemonic::Dcp => self.dcp(ins.mode),
            Mnemonic::Isb => self.isb(ins.mode),
            Mnemonic::Rla => self.rla(ins.mode),
            Mnemonic::Rra => self.rra(ins.mode),
            Mnemonic::Sax => self.sax(ins.mode),
            Mnemonic::Slo => self.slo(ins.mode),
            Mnemonic::Sre => self.sre(ins.mode),
            _ => Ok(()),
        }
    }

    /// Execute exactly one instruction, per `spec_step`: fetch the opcode at
    /// the program counter, dispatch its handler, account for cycles, and
    /// advance past the operand bytes unless the handler moved the program
    /// counter itself. An opcode without a handler, or a write into the ROM
    /// window, is reported as an error.
    #[verifier::rlimit(100)]
    #[verifier::spinoff_prover]
    pub fn step(&mut self) -> (r: Result<(), StepError>)
        requires
            old(self)@.wf(),
        ensures
            final(self)@.wf(),
            (final(self)@, r) == spec_step(old(self)@),
    {
        let opcode = self.read_byte(self.pc);
        let ins = instruction(opcode);
        if !ins.implemented {
            return Err(StepError::UnimplementedOpcode { opcode, pc: self.pc });
        }
        let pc = self.pc.wrapping_add(1);
        self.pc = pc;
        self.cycles = self.cycles.wrapping_add(ins.cycles as usize);
        let result = self.exec_instruction(ins);
        if result.is_err() {
            return result;
        }
        if pc == self.pc {
            self.pc = self.pc.wrapping_add((ins.bytes as u16).wrapping_sub(1));
        }
        Ok(())
    }

    /// Step repeatedly while the running flag is set, up to `max_steps`
    /// times, with no observer. `Ok(true)` means the machine halted itself;
    /// `Ok(false)` means the budget ran out first and the machine can be
    /// resumed.
    pub fn run(&mut self, max_steps: usize) -> (r: Result<bool, StepError>)
        requires
            old(self)@.wf(),
        ensures
            final(self)@.wf(),
            (final(self)@, r) == spec_run(old(self)@, max_steps as nat),
            r matches Ok(halted) ==> halted == !final(self)@.running,
    {
        self.run_with_callback(max_steps, |_cpu: &Cpu| {})
    }

    /// Step repeatedly while the running flag is set, up to `max_steps`
    /// times, invoking the observer on the machine before each step. The
    /// first step error stops the loop and is handed to the caller.
    /// `Ok(true)` means the machine halted itself; `Ok(false)` means the
    /// budget ran out first and the machine can be resumed.
    pub fn run_with_callback<F: Fn(&Cpu)>(&mut self, max_steps: usize, callback: F) -> (r: Result<
        bool,
        StepError,
    >)
        requires
            old(self)@.wf(),
            forall|c: &Cpu| #[trigger] callback.requires((c,)),
        ensures
            final(self)@.wf(),
            (final(self)@, r) == spec_run(old(self)@, max_steps as nat),
            r matches Ok(halted) ==> halted == !final(self)@.running,
    {
        let mut steps: usize = 0;
        while self.running && steps < max_steps
            invariant
                self@.wf(),
                steps <= max_steps,
                forall|c: &Cpu| #[trigger] callback.requires((c,)),
                spec_run(old(self)@, max_steps as nat) == spec_run(
                    self@,
                    (max_steps - steps) as nat,
                ),
            decreases max_steps - steps,
        {
            callback(&*self);
            let r = self.step();
            if let Err(e) = r {
                return Err(e);
            }
            steps = steps + 1;
        }
        Ok(!self.running)
    }
}

} // verus!


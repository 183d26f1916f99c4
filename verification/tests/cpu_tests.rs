use std::cell::Cell;

use cozynes::bus::Bus;
use cozynes::cpu::{Cpu, StepError, Status};
use cozynes::rom::Rom;

/// A machine whose 16KB cartridge holds `program` at CPU address 0x8000, with
/// the reset vector pointing there.
fn cpu_with_program(program: &[u8]) -> Cpu {
    let mut raw = vec![0x4E, 0x45, 0x53, 0x1A, 1, 0, 0, 0];
    raw.resize(16, 0);
    let mut prg = vec![0u8; 16384];
    prg[..program.len()].copy_from_slice(program);
    prg[0x3FFC] = 0x00;
    prg[0x3FFD] = 0x80;
    raw.extend_from_slice(&prg);
    Cpu::new(Bus::new(Rom::new(&raw).unwrap()))
}

#[test]
fn reset_loads_the_vector_and_the_power_on_state() {
    let cpu = cpu_with_program(&[0xEA]);
    assert_eq!(cpu.pc, 0x8000);
    assert_eq!(cpu.a, 0);
    assert_eq!(cpu.x, 0);
    assert_eq!(cpu.y, 0);
    assert_eq!(cpu.sp, 0xFD);
    assert_eq!(cpu.status.to_byte(), 0b0010_0100);
    assert_eq!(cpu.cycles, 0);
}

#[test]
fn status_byte_round_trip_all_values() {
    for v in 0..=255u8 {
        assert_eq!(Status::from_byte(v).to_byte(), v);
    }
}

#[test]
fn status_bit_layout_is_fixed() {
    let s = Status::from_byte(0b1000_0011);
    assert!(s.carry && s.zero && s.negative);
    assert!(!s.disable_interrupts && !s.decimal && !s.b1 && !s.b2 && !s.overflow);
}

#[test]
fn lda_sets_zero_and_negative() {
    let mut cpu = cpu_with_program(&[0xA9, 0x00, 0xA9, 0x80, 0xA9, 0x01]);
    cpu.step().unwrap();
    assert!(cpu.status.zero && !cpu.status.negative);
    cpu.step().unwrap();
    assert!(!cpu.status.zero && cpu.status.negative);
    cpu.step().unwrap();
    assert!(!cpu.status.zero && !cpu.status.negative);
    assert_eq!(cpu.a, 1);
}

#[test]
fn adc_sums_with_carry_and_overflow() {
    // 0x50 + 0x50 = 0xA0: signed overflow, no carry out.
    let mut cpu = cpu_with_program(&[0xA9, 0x50, 0x69, 0x50]);
    cpu.step().unwrap();
    cpu.step().unwrap();
    assert_eq!(cpu.a, 0xA0);
    assert!(!cpu.status.carry && cpu.status.overflow && cpu.status.negative);

    // 0xFF + 0x01 = 0x100: carry out, zero, no signed overflow.
    let mut cpu = cpu_with_program(&[0xA9, 0xFF, 0x69, 0x01]);
    cpu.step().unwrap();
    cpu.step().unwrap();
    assert_eq!(cpu.a, 0x00);
    assert!(cpu.status.carry && cpu.status.zero && !cpu.status.overflow);
}

#[test]
fn adc_adds_the_carry_in() {
    // SEC; LDA #$01; ADC #$01 == 3.
    let mut cpu = cpu_with_program(&[0x38, 0xA9, 0x01, 0x69, 0x01]);
    for _ in 0..3 {
        cpu.step().unwrap();
    }
    assert_eq!(cpu.a, 3);
}

#[test]
fn sbc_subtracts_via_the_complement() {
    // SEC; LDA #$50; SBC #$30 == 0x20 with carry (no borrow).
    let mut cpu = cpu_with_program(&[0x38, 0xA9, 0x50, 0xE9, 0x30]);
    for _ in 0..3 {
        cpu.step().unwrap();
    }
    assert_eq!(cpu.a, 0x20);
    assert!(cpu.status.carry);

    // CLC; LDA #$50; SBC #$30 == 0x1F (borrow consumed).
    let mut cpu = cpu_with_program(&[0x18, 0xA9, 0x50, 0xE9, 0x30]);
    for _ in 0..3 {
        cpu.step().unwrap();
    }
    assert_eq!(cpu.a, 0x1F);
}

#[test]
fn unofficial_sbc_alias_matches_official() {
    let mut a = cpu_with_program(&[0x38, 0xA9, 0x50, 0xE9, 0x30]);
    let mut b = cpu_with_program(&[0x38, 0xA9, 0x50, 0xEB, 0x30]);
    for _ in 0..3 {
        a.step().unwrap();
        b.step().unwrap();
    }
    assert_eq!(a.a, b.a);
    assert_eq!(a.status.to_byte(), b.status.to_byte());
}

#[test]
fn stack_push_pull_round_trip() {
    // LDA #$7E; PHA; LDA #$00; PLA.
    let mut cpu = cpu_with_program(&[0xA9, 0x7E, 0x48, 0xA9, 0x00, 0x68]);
    cpu.step().unwrap();
    cpu.step().unwrap();
    assert_eq!(cpu.sp, 0xFC);
    cpu.step().unwrap();
    cpu.step().unwrap();
    assert_eq!(cpu.a, 0x7E);
    assert_eq!(cpu.sp, 0xFD);
}

#[test]
fn jsr_and_rts_balance_the_stack() {
    // 8000: JSR $8004; BRK; 8004: LDA #$21; RTS.
    let mut cpu = cpu_with_program(&[0x20, 0x04, 0x80, 0x00, 0xA9, 0x21, 0x60]);
    cpu.step().unwrap();
    assert_eq!(cpu.pc, 0x8004);
    assert_eq!(cpu.sp, 0xFB);
    cpu.step().unwrap();
    cpu.step().unwrap();
    assert_eq!(cpu.pc, 0x8003);
    assert_eq!(cpu.sp, 0xFD);
    assert_eq!(cpu.a, 0x21);
}

#[test]
fn php_plp_round_trip_with_b_flag_convention() {
    // SEC; PHP; CLC; PLP.
    let mut cpu = cpu_with_program(&[0x38, 0x08, 0x18, 0x28]);
    for _ in 0..4 {
        cpu.step().unwrap();
    }
    assert!(cpu.status.carry);
    assert!(!cpu.status.b1 && cpu.status.b2);
}

#[test]
fn branch_not_taken_advances_two_bytes() {
    // SEC; BCC +5 (not taken): pc advances by exactly 2 from the branch.
    let mut cpu = cpu_with_program(&[0x38, 0x90, 0x05]);
    cpu.step().unwrap();
    assert_eq!(cpu.pc, 0x8001);
    cpu.step().unwrap();
    assert_eq!(cpu.pc, 0x8003);
}

#[test]
fn branch_taken_lands_on_target_plus_offset_accounting() {
    // SEC; BCS +3: branch at 0x8001, target = 0x8003 + 3 = 0x8006.
    let mut cpu = cpu_with_program(&[0x38, 0xB0, 0x03]);
    cpu.step().unwrap();
    cpu.step().unwrap();
    assert_eq!(cpu.pc, 0x8006);
}

#[test]
fn branch_taken_backwards_wraps_the_offset() {
    // LDX #$02: 8000; DEX: 8002; BNE -3 jumps back to DEX until X == 0.
    let mut cpu = cpu_with_program(&[0xA2, 0x02, 0xCA, 0xD0, 0xFD]);
    cpu.step().unwrap();
    cpu.step().unwrap();
    cpu.step().unwrap();
    assert_eq!(cpu.pc, 0x8002);
    cpu.step().unwrap();
    cpu.step().unwrap();
    assert_eq!(cpu.x, 0);
    assert_eq!(cpu.pc, 0x8005);
}

#[test]
fn indirect_jmp_reproduces_the_page_wrap_quirk() {
    // Pointer 0x10FF: low byte from 0x10FF, high byte from 0x1000 — not 0x1100.
    let mut cpu = cpu_with_program(&[0x6C, 0xFF, 0x10]);
    cpu.write_byte(0x1000, 0x40).unwrap();
    cpu.write_byte(0x10FF, 0x80).unwrap();
    cpu.write_byte(0x1100, 0x50).unwrap();
    cpu.step().unwrap();
    assert_eq!(cpu.pc, 0x4080);
}

#[test]
fn indirect_jmp_without_page_cross_reads_the_next_byte() {
    let mut cpu = cpu_with_program(&[0x6C, 0xFE, 0x10]);
    cpu.write_byte(0x10FE, 0x34).unwrap();
    cpu.write_byte(0x10FF, 0x12).unwrap();
    cpu.step().unwrap();
    assert_eq!(cpu.pc, 0x1234);
}

#[test]
fn indirect_x_addressing_wraps_in_zero_page() {
    // LDX #$04; LDA ($FE,X): pointer at 0x02/0x03.
    let mut cpu = cpu_with_program(&[0xA2, 0x04, 0xA1, 0xFE]);
    cpu.write_byte(0x0002, 0x10).unwrap();
    cpu.write_byte(0x0003, 0x07).unwrap();
    cpu.write_byte(0x0710, 0x5A).unwrap();
    cpu.step().unwrap();
    cpu.step().unwrap();
    assert_eq!(cpu.a, 0x5A);
}

#[test]
fn indirect_y_addressing_adds_y_after_the_dereference() {
    // LDY #$10; LDA ($33),Y: base at 0x33/0x34 plus Y.
    let mut cpu = cpu_with_program(&[0xA0, 0x10, 0xB1, 0x33]);
    cpu.write_byte(0x0033, 0x00).unwrap();
    cpu.write_byte(0x0034, 0x04).unwrap();
    cpu.write_byte(0x0410, 0x77).unwrap();
    cpu.step().unwrap();
    cpu.step().unwrap();
    assert_eq!(cpu.a, 0x77);
}

#[test]
fn zero_page_x_wraps_at_eight_bits() {
    // LDX #$10; LDA $F8,X reads 0x08, not 0x108.
    let mut cpu = cpu_with_program(&[0xA2, 0x10, 0xB5, 0xF8]);
    cpu.write_byte(0x0008, 0x2B).unwrap();
    cpu.step().unwrap();
    cpu.step().unwrap();
    assert_eq!(cpu.a, 0x2B);
}

#[test]
fn compare_sets_carry_zero_negative() {
    // LDA #$40; CMP #$30: carry (A >= operand), not zero.
    let mut cpu = cpu_with_program(&[0xA9, 0x40, 0xC9, 0x30, 0xC9, 0x40, 0xC9, 0x50]);
    cpu.step().unwrap();
    cpu.step().unwrap();
    assert!(cpu.status.carry && !cpu.status.zero);
    cpu.step().unwrap();
    assert!(cpu.status.carry && cpu.status.zero);
    cpu.step().unwrap();
    assert!(!cpu.status.carry && !cpu.status.zero && cpu.status.negative);
}

#[test]
fn bit_copies_operand_bits_into_flags() {
    // LDA #$01; BIT $10 where mem = 0xC0: zero (no common bits), N and V set.
    let mut cpu = cpu_with_program(&[0xA9, 0x01, 0x24, 0x10]);
    cpu.write_byte(0x0010, 0xC0).unwrap();
    cpu.step().unwrap();
    cpu.step().unwrap();
    assert!(cpu.status.zero && cpu.status.negative && cpu.status.overflow);
    assert_eq!(cpu.a, 0x01);
}

#[test]
fn inx_wraps_and_sets_zero() {
    let mut cpu = cpu_with_program(&[0xA2, 0xFF, 0xE8]);
    cpu.step().unwrap();
    cpu.step().unwrap();
    assert_eq!(cpu.x, 0);
    assert!(cpu.status.zero);
}

#[test]
fn shifts_and_rotates_on_the_accumulator() {
    // SEC; LDA #$81; ROR A -> 0xC0 with carry out set.
    let mut cpu = cpu_with_program(&[0x38, 0xA9, 0x81, 0x6A]);
    for _ in 0..3 {
        cpu.step().unwrap();
    }
    assert_eq!(cpu.a, 0xC0);
    assert!(cpu.status.carry && cpu.status.negative);

    // LDA #$81; ASL A -> 0x02 with carry out.
    let mut cpu = cpu_with_program(&[0xA9, 0x81, 0x0A]);
    cpu.step().unwrap();
    cpu.step().unwrap();
    assert_eq!(cpu.a, 0x02);
    assert!(cpu.status.carry);
}

#[test]
fn memory_rotate_updates_negative_only() {
    // LDA #$01 clears zero; ROR $10 rotates 0x01 to 0x00 but, on the memory
    // path, leaves the zero flag untouched.
    let mut cpu = cpu_with_program(&[0xA9, 0x01, 0x66, 0x10]);
    cpu.write_byte(0x0010, 0x01).unwrap();
    cpu.step().unwrap();
    cpu.step().unwrap();
    assert_eq!(cpu.read_byte(0x0010), 0x00);
    assert!(!cpu.status.zero);
    assert!(cpu.status.carry);

    // LSR $10 on the same value does update zero.
    let mut cpu = cpu_with_program(&[0xA9, 0x01, 0x46, 0x10]);
    cpu.write_byte(0x0010, 0x01).unwrap();
    cpu.step().unwrap();
    cpu.step().unwrap();
    assert!(cpu.status.zero);
}

#[test]
fn unofficial_lax_loads_a_and_x() {
    let mut cpu = cpu_with_program(&[0xA7, 0x10]);
    cpu.write_byte(0x0010, 0x8F).unwrap();
    cpu.step().unwrap();
    assert_eq!(cpu.a, 0x8F);
    assert_eq!(cpu.x, 0x8F);
    assert!(cpu.status.negative);
}

#[test]
fn unofficial_sax_stores_a_and_x() {
    let mut cpu = cpu_with_program(&[0xA9, 0xF0, 0xA2, 0x3C, 0x87, 0x10]);
    for _ in 0..3 {
        cpu.step().unwrap();
    }
    assert_eq!(cpu.read_byte(0x0010), 0x30);
}

#[test]
fn unofficial_dcp_decrements_then_compares() {
    let mut cpu = cpu_with_program(&[0xA9, 0x40, 0xC7, 0x10]);
    cpu.write_byte(0x0010, 0x41).unwrap();
    cpu.step().unwrap();
    cpu.step().unwrap();
    assert_eq!(cpu.read_byte(0x0010), 0x40);
    assert!(cpu.status.carry && cpu.status.zero);
}

#[test]
fn unofficial_isb_increments_then_subtracts() {
    // SEC; LDA #$50; ISB $10 with mem 0x2F: mem -> 0x30, A -> 0x20.
    let mut cpu = cpu_with_program(&[0x38, 0xA9, 0x50, 0xE7, 0x10]);
    cpu.write_byte(0x0010, 0x2F).unwrap();
    for _ in 0..3 {
        cpu.step().unwrap();
    }
    assert_eq!(cpu.read_byte(0x0010), 0x30);
    assert_eq!(cpu.a, 0x20);
}

#[test]
fn unofficial_slo_shifts_then_ors() {
    let mut cpu = cpu_with_program(&[0xA9, 0x01, 0x07, 0x10]);
    cpu.write_byte(0x0010, 0x40).unwrap();
    cpu.step().unwrap();
    cpu.step().unwrap();
    assert_eq!(cpu.read_byte(0x0010), 0x80);
    assert_eq!(cpu.a, 0x81);
}

#[test]
fn unofficial_rla_rotates_then_ands() {
    // SEC; LDA #$83; RLA $10 with mem 0x40: mem -> 0x81, A -> 0x81.
    let mut cpu = cpu_with_program(&[0x38, 0xA9, 0x83, 0x27, 0x10]);
    cpu.write_byte(0x0010, 0x40).unwrap();
    for _ in 0..3 {
        cpu.step().unwrap();
    }
    assert_eq!(cpu.read_byte(0x0010), 0x81);
    assert_eq!(cpu.a, 0x81);
}

#[test]
fn unofficial_sre_shifts_then_xors() {
    let mut cpu = cpu_with_program(&[0xA9, 0x0F, 0x47, 0x10]);
    cpu.write_byte(0x0010, 0x02).unwrap();
    cpu.step().unwrap();
    cpu.step().unwrap();
    assert_eq!(cpu.read_byte(0x0010), 0x01);
    assert_eq!(cpu.a, 0x0E);
}

#[test]
fn unofficial_rra_rotates_then_adds() {
    // CLC; LDA #$10; RRA $10 with mem 0x04: mem -> 0x02, A -> 0x12.
    let mut cpu = cpu_with_program(&[0x18, 0xA9, 0x10, 0x67, 0x10]);
    cpu.write_byte(0x0010, 0x04).unwrap();
    for _ in 0..3 {
        cpu.step().unwrap();
    }
    assert_eq!(cpu.read_byte(0x0010), 0x02);
    assert_eq!(cpu.a, 0x12);
}

#[test]
fn multi_byte_nops_advance_by_their_length() {
    // NOP $1C (3-byte absolute,X variant 0x1C) then NOP #$xx (2-byte 0x80).
    let mut cpu = cpu_with_program(&[0x1C, 0x00, 0x10, 0x80, 0x55, 0xEA]);
    cpu.step().unwrap();
    assert_eq!(cpu.pc, 0x8003);
    cpu.step().unwrap();
    assert_eq!(cpu.pc, 0x8005);
    cpu.step().unwrap();
    assert_eq!(cpu.pc, 0x8006);
}

#[test]
fn cycles_accumulate_by_the_table_cost() {
    // LDA # (2 cycles), STA zp (3 cycles), BRK (7 cycles).
    let mut cpu = cpu_with_program(&[0xA9, 0x01, 0x85, 0x10, 0x00]);
    cpu.step().unwrap();
    assert_eq!(cpu.cycles, 2);
    cpu.step().unwrap();
    assert_eq!(cpu.cycles, 5);
    cpu.step().unwrap();
    assert_eq!(cpu.cycles, 12);
}

#[test]
fn brk_stops_the_machine() {
    let mut cpu = cpu_with_program(&[0x00]);
    assert!(cpu.running);
    cpu.step().unwrap();
    assert!(!cpu.running);
    assert!(cpu.status.b1);
}

#[test]
fn unimplemented_opcode_is_a_recoverable_error() {
    let mut cpu = cpu_with_program(&[0x02]);
    let before_pc = cpu.pc;
    let before_cycles = cpu.cycles;
    let err = cpu.step().unwrap_err();
    assert_eq!(err, StepError::UnimplementedOpcode { opcode: 0x02, pc: 0x8000 });
    assert_eq!(cpu.pc, before_pc);
    assert_eq!(cpu.cycles, before_cycles);
}

#[test]
fn store_into_rom_is_a_recoverable_error() {
    // LDA #$01; STA $8000.
    let mut cpu = cpu_with_program(&[0xA9, 0x01, 0x8D, 0x00, 0x80]);
    cpu.step().unwrap();
    let err = cpu.step().unwrap_err();
    assert_eq!(err, StepError::RomWrite { addr: 0x8000 });
}

#[test]
fn run_halts_on_brk() {
    // LDA #$01; STA $0200; BRK.
    let mut cpu = cpu_with_program(&[0xA9, 0x01, 0x8D, 0x00, 0x02, 0x00]);
    let halted = cpu.run(100).unwrap();
    assert!(halted);
    assert!(!cpu.running);
    assert_eq!(cpu.read_byte(0x0200), 0x01);
}

#[test]
fn run_returns_when_the_budget_is_exhausted() {
    // JMP $8000 loops forever; the budget stops it.
    let mut cpu = cpu_with_program(&[0x4C, 0x00, 0x80]);
    let halted = cpu.run(10).unwrap();
    assert!(!halted);
    assert!(cpu.running);
}

#[test]
fn run_with_callback_observes_every_step() {
    let count = Cell::new(0u32);
    let mut cpu = cpu_with_program(&[0xEA, 0xEA, 0x00]);
    cpu.run_with_callback(100, |_c: &Cpu| count.set(count.get() + 1)).unwrap();
    assert_eq!(count.get(), 3);
}

#[test]
fn end_to_end_reset_and_first_step() {
    // A minimal image whose reset vector points at the program start; the
    // first step fetches and executes the opcode stored there.
    let mut cpu = cpu_with_program(&[0xA9, 0x42]);
    assert_eq!(cpu.pc, 0x8000);
    cpu.step().unwrap();
    assert_eq!(cpu.a, 0x42);
    assert_eq!(cpu.pc, 0x8002);
}

#[test]
fn stack_pointer_wraps_at_the_page_boundary() {
    let mut cpu = cpu_with_program(&[0xA9, 0x66, 0x48]);
    cpu.sp = 0x00;
    cpu.step().unwrap();
    cpu.step().unwrap();
    assert_eq!(cpu.sp, 0xFF);
    assert_eq!(cpu.read_byte(0x0100), 0x66);
}

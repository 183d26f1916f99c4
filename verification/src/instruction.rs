//! The 256-entry opcode table: for every opcode byte, its mnemonic,
//! addressing mode, instruction length, base cycle cost, and whether the
//! executor implements it. The table is shared by the executor and the
//! trace formatter.

use vstd::prelude::*;

use crate::cpu::AddressingMode;

verus! {

/// The mnemonics of the full opcode set, official and unofficial.
#[derive(Debug, Clone, Copy, PartialEq, Eq, Structural)]
pub enum Mnemonic {
    Adc,
    Ahx,
    Alr,
    Anc,
    And,
    Arr,
    Asl,
    Axs,
    Bcc,
    Bcs,
    Beq,
    Bit,
    Bmi,
    Bne,
    Bpl,
    Brk,
    Bvc,
    Bvs,
    Clc,
    Cld,
    Cli,
    Clv,
    Cmp,
    Cpx,
    Cpy,
    Dcp,
    Dec,
    Dex,
    Dey,
    Eor,
    Inc,
    Inx,
    Iny,
    Isb,
    Jmp,
    Jsr,
    Kil,
    Las,
    Lax,
    Lda,
    Ldx,
    Ldy,
    Lsr,
    Lxa,
    Nop,
    Ora,
    Pha,
    Php,
    Pla,
    Plp,
    Rla,
    Rol,
    Ror,
    Rra,
    Rti,
    Rts,
    Sax,
    Sbc,
    Sec,
    Sed,
    Sei,
    Shx,
    Shy,
    Slo,
    Sre,
    Sta,
    Stx,
    Sty,
    Tas,
    Tax,
    Tay,
    Tsx,
    Txa,
    Txs,
    Tya,
    Xaa,
}

/// One slot of the 256-entry opcode table.
#[derive(Debug, Clone, Copy, PartialEq, Eq, Structural)]
pub struct Instruction {
    pub mnemonic: Mnemonic,
    /// Rendered with a `*` marker in trace lines.
    pub unofficial: bool,
    pub mode: AddressingMode,
    /// Instruction length in bytes, operand included: 1, 2 or 3.
    pub bytes: u8,
    /// Base cycle cost added to the cycle counter by `step`.
    pub cycles: u8,
    /// Whether `step` has a handler for it; executing an opcode
    /// without one is reported as an error.
    pub implemented: bool,
}

/// The opcode table as a function of the opcode byte.
pub open spec fn spec_instruction(opcode: u8) -> Instruction {
    match opcode {
        0 => Instruction { mnemonic: Mnemonic::Brk, unofficial: false, mode: AddressingMode::Implied, bytes: 1, cycles: 7, implemented: true },
        1 => Instruction { mnemonic: Mnemonic::Ora, unofficial: false, mode: AddressingMode::IndirectX, bytes: 2, cycles: 6, implemented: true },
        2 => Instruction { mnemonic: Mnemonic::Kil, unofficial: true, mode: AddressingMode::Implied, bytes: 1, cycles: 2, implemented: false },
        3 => Instruction { mnemonic: Mnemonic::Slo, unofficial: true, mode: AddressingMode::IndirectX, bytes: 2, cycles: 8, implemented: true },
        4 => Instruction { mnemonic: Mnemonic::Nop, unofficial: true, mode: AddressingMode::ZeroPage, bytes: 2, cycles: 3, implemented: true },
        5 => Instruction { mnemonic: Mnemonic::Ora, unofficial: false, mode: AddressingMode::ZeroPage, bytes: 2, cycles: 3, implemented: true },
        6 => Instruction { mnemonic: Mnemonic::Asl, unofficial: false, mode: AddressingMode::ZeroPage, bytes: 2, cycles: 5, implemented: true },
        7 => Instruction { mnemonic: Mnemonic::Slo, unofficial: true, mode: AddressingMode::ZeroPage, bytes: 2, cycles: 5, implemented: true },
        8 => Instruction { mnemonic: Mnemonic::Php, unofficial: false, mode: AddressingMode::Implied, bytes: 1, cycles: 3, implemented: true },
        9 => Instruction { mnemonic: Mnemonic::Ora, unofficial: false, mode: AddressingMode::Immediate, bytes: 2, cycles: 2, implemented: true },
        10 => Instruction { mnemonic: Mnemonic::Asl, unofficial: false, mode: AddressingMode::Implied, bytes: 1, cycles: 2, implemented: true },
        11 => Instruction { mnemonic: Mnemonic::Anc, unofficial: true, mode: AddressingMode::Immediate, bytes: 2, cycles: 2, implemented: false },
        12 => Instruction { mnemonic: Mnemonic::Nop, unofficial: true, mode: AddressingMode::Absolute, bytes: 3, cycles: 4, implemented: true },
        13 => Instruction { mnemonic: Mnemonic::Ora, unofficial: false, mode: AddressingMode::Absolute, bytes: 3, cycles: 4, implemented: true },
        14 => Instruction { mnemonic: Mnemonic::Asl, unofficial: false, mode: AddressingMode::Absolute, bytes: 3, cycles: 6, implemented: true },
        15 => Instruction { mnemonic: Mnemonic::Slo, unofficial: true, mode: AddressingMode::Absolute, bytes: 3, cycles: 6, implemented: true },
        16 => Instruction { mnemonic: Mnemonic::Bpl, unofficial: false, mode: AddressingMode::Relative, bytes: 2, cycles: 2, implemented: true },
        17 => Instruction { mnemonic: Mnemonic::Ora, unofficial: false, mode: AddressingMode::IndirectY, bytes: 2, cycles: 5, implemented: true },
        18 => Instruction { mnemonic: Mnemonic::Kil, unofficial: true, mode: AddressingMode::Implied, bytes: 1, cycles: 2, implemented: false },
        19 => Instruction { mnemonic: Mnemonic::Slo, unofficial: true, mode: AddressingMode::IndirectY, bytes: 2, cycles: 8, implemented: true },
        20 => Instruction { mnemonic: Mnemonic::Nop, unofficial: true, mode: AddressingMode::ZeroPageX, bytes: 2, cycles: 4, implemented: true },
        21 => Instruction { mnemonic: Mnemonic::Ora, unofficial: false, mode: AddressingMode::ZeroPageX, bytes: 2, cycles: 4, implemented: true },
        22 => Instruction { mnemonic: Mnemonic::Asl, unofficial: false, mode: AddressingMode::ZeroPageX, bytes: 2, cycles: 6, implemented: true },
        23 => Instruction { mnemonic: Mnemonic::Slo, unofficial: true, mode: AddressingMode::ZeroPageX, bytes: 2, cycles: 6, implemented: true },
        24 => Instruction { mnemonic: Mnemonic::Clc, unofficial: false, mode: AddressingMode::Implied, bytes: 1, cycles: 2, implemented: true },
        25 => Instruction { mnemonic: Mnemonic::Ora, unofficial: false, mode: AddressingMode::AbsoluteY, bytes: 3, cycles: 4, implemented: true },
        26 => Instruction { mnemonic: Mnemonic::Nop, unofficial: true, mode: AddressingMode::Implied, bytes: 1, cycles: 2, implemented: true },
        27 => Instruction { mnemonic: Mnemonic::Slo, unofficial: true, mode: AddressingMode::AbsoluteY, bytes: 3, cycles: 7, implemented: true },
        28 => Instruction { mnemonic: Mnemonic::Nop, unofficial: true, mode: AddressingMode::AbsoluteX, bytes: 3, cycles: 4, implemented: true },
        29 => Instruction { mnemonic: Mnemonic::Ora, unofficial: false, mode: AddressingMode::AbsoluteX, bytes: 3, cycles: 4, implemented: true },
        30 => Instruction { mnemonic: Mnemonic::Asl, unofficial: false, mode: AddressingMode::AbsoluteX, bytes: 3, cycles: 7, implemented: true },
        31 => Instruction { mnemonic: Mnemonic::Slo, unofficial: true, mode: AddressingMode::AbsoluteX, bytes: 3, cycles: 7, implemented: true },
        32 => Instruction { mnemonic: Mnemonic::Jsr, unofficial: false, mode: AddressingMode::Absolute, bytes: 3, cycles: 6, implemented: true },
        33 => Instruction { mnemonic: Mnemonic::And, unofficial: false, mode: AddressingMode::IndirectX, bytes: 2, cycles: 6, implemented: true },
        34 => Instruction { mnemonic: Mnemonic::Kil, unofficial: true, mode: AddressingMode::Implied, bytes: 1, cycles: 2, implemented: false },
        35 => Instruction { mnemonic: Mnemonic::Rla, unofficial: true, mode: AddressingMode::IndirectX, bytes: 2, cycles: 8, implemented: true },
        36 => Instruction { mnemonic: Mnemonic::Bit, unofficial: false, mode: AddressingMode::ZeroPage, bytes: 2, cycles: 3, implemented: true },
        37 => Instruction { mnemonic: Mnemonic::And, unofficial: false, mode: AddressingMode::ZeroPage, bytes: 2, cycles: 3, implemented: true },
        38 => Instruction { mnemonic: Mnemonic::Rol, unofficial: false, mode: AddressingMode::ZeroPage, bytes: 2, cycles: 5, implemented: true },
        39 => Instruction { mnemonic: Mnemonic::Rla, unofficial: true, mode: AddressingMode::ZeroPage, bytes: 2, cycles: 5, implemented: true },
        40 => Instruction { mnemonic: Mnemonic::Plp, unofficial: false, mode: AddressingMode::Implied, bytes: 1, cycles: 4, implemented: true },
        41 => Instruction { mnemonic: Mnemonic::And, unofficial: false, mode: AddressingMode::Immediate, bytes: 2, cycles: 2, implemented: true },
        42 => Instruction { mnemonic: Mnemonic::Rol, unofficial: false, mode: AddressingMode::Implied, bytes: 1, cycles: 2, implemented: true },
        43 => Instruction { mnemonic: Mnemonic::Anc, unofficial: true, mode: AddressingMode::Immediate, bytes: 2, cycles: 2, implemented: false },
        44 => Instruction { mnemonic: Mnemonic::Bit, unofficial: false, mode: AddressingMode::Absolute, bytes: 3, cycles: 4, implemented: true },
        45 => Instruction { mnemonic: Mnemonic::And, unofficial: false, mode: AddressingMode::Absolute, bytes: 3, cycles: 4, implemented: true },
        46 => Instruction { mnemonic: Mnemonic::Rol, unofficial: false, mode: AddressingMode::Absolute, bytes: 3, cycles: 6, implemented: true },
        47 => Instruction { mnemonic: Mnemonic::Rla, unofficial: true, mode: AddressingMode::Absolute, bytes: 3, cycles: 6, implemented: true },
        48 => Instruction { mnemonic: Mnemonic::Bmi, unofficial: false, mode: AddressingMode::Relative, bytes: 2, cycles: 2, implemented: true },
        49 => Instruction { mnemonic: Mnemonic::And, unofficial: false, mode: AddressingMode::IndirectY, bytes: 2, cycles: 5, implemented: true },
        50 => Instruction { mnemonic: Mnemonic::Kil, unofficial: true, mode: AddressingMode::Implied, bytes: 1, cycles: 2, implemented: false },
        51 => Instruction { mnemonic: Mnemonic::Rla, unofficial: true, mode: AddressingMode::IndirectY, bytes: 2, cycles: 8, implemented: true },
        52 => Instruction { mnemonic: Mnemonic::Nop, unofficial: true, mode: AddressingMode::ZeroPageX, bytes: 2, cycles: 4, implemented: true },
        53 => Instruction { mnemonic: Mnemonic::And, unofficial: false, mode: AddressingMode::ZeroPageX, bytes: 2, cycles: 4, implemented: true },
        54 => Instruction { mnemonic: Mnemonic::Rol, unofficial: false, mode: AddressingMode::ZeroPageX, bytes: 2, cycles: 6, implemented: true },
        55 => Instruction { mnemonic: Mnemonic::Rla, unofficial: true, mode: AddressingMode::ZeroPageX, bytes: 2, cycles: 6, implemented: true },
        56 => Instruction { mnemonic: Mnemonic::Sec, unofficial: false, mode: AddressingMode::Implied, bytes: 1, cycles: 2, implemented: true },
        57 => Instruction { mnemonic: Mnemonic::And, unofficial: false, mode: AddressingMode::AbsoluteY, bytes: 3, cycles: 4, implemented: true },
        58 => Instruction { mnemonic: Mnemonic::Nop, unofficial: true, mode: AddressingMode::Implied, bytes: 1, cycles: 2, implemented: true },
        59 => Instruction { mnemonic: Mnemonic::Rla, unofficial: true, mode: AddressingMode::AbsoluteY, bytes: 3, cycles: 7, implemented: true },
        60 => Instruction { mnemonic: Mnemonic::Nop, unofficial: true, mode: AddressingMode::AbsoluteX, bytes: 3, cycles: 4, implemented: true },
        61 => Instruction { mnemonic: Mnemonic::And, unofficial: false, mode: AddressingMode::AbsoluteX, bytes: 3, cycles: 4, implemented: true },
        62 => Instruction { mnemonic: Mnemonic::Rol, unofficial: false, mode: AddressingMode::AbsoluteX, bytes: 3, cycles: 7, implemented: true },
        63 => Instruction { mnemonic: Mnemonic::Rla, unofficial: true, mode: AddressingMode::AbsoluteX, bytes: 3, cycles: 7, implemented: true },
        64 => Instruction { mnemonic: Mnemonic::Rti, unofficial: false, mode: AddressingMode::Implied, bytes: 1, cycles: 6, implemented: true },
        65 => Instruction { mnemonic: Mnemonic::Eor, unofficial: false, mode: AddressingMode::IndirectX, bytes: 2, cycles: 6, implemented: true },
        66 => Instruction { mnemonic: Mnemonic::Kil, unofficial: true, mode: AddressingMode::Implied, bytes: 1, cycles: 2, implemented: false },
        67 => Instruction { mnemonic: Mnemonic::Sre, unofficial: true, mode: AddressingMode::IndirectX, bytes: 2, cycles: 8, implemented: true },
        68 => Instruction { mnemonic: Mnemonic::Nop, unofficial: true, mode: AddressingMode::ZeroPage, bytes: 2, cycles: 3, implemented: true },
        69 => Instruction { mnemonic: Mnemonic::Eor, unofficial: false, mode: AddressingMode::ZeroPage, bytes: 2, cycles: 3, implemented: true },
        70 => Instruction { mnemonic: Mnemonic::Lsr, unofficial: false, mode: AddressingMode::ZeroPage, bytes: 2, cycles: 5, implemented: true },
        71 => Instruction { mnemonic: Mnemonic::Sre, unofficial: true, mode: AddressingMode::ZeroPage, bytes: 2, cycles: 5, implemented: true },
        72 => Instruction { mnemonic: Mnemonic::Pha, unofficial: false, mode: AddressingMode::Implied, bytes: 1, cycles: 3, implemented: true },
        73 => Instruction { mnemonic: Mnemonic::Eor, unofficial: false, mode: AddressingMode::Immediate, bytes: 2, cycles: 2, implemented: true },
        74 => Instruction { mnemonic: Mnemonic::Lsr, unofficial: false, mode: AddressingMode::Implied, bytes: 1, cycles: 2, implemented: true },
        75 => Instruction { mnemonic: Mnemonic::Alr, unofficial: true, mode: AddressingMode::Immediate, bytes: 2, cycles: 2, implemented: false },
        76 => Instruction { mnemonic: Mnemonic::Jmp, unofficial: false, mode: AddressingMode::Absolute, bytes: 3, cycles: 3, implemented: true },
        77 => Instruction { mnemonic: Mnemonic::Eor, unofficial: false, mode: AddressingMode::Absolute, bytes: 3, cycles: 4, implemented: true },
        78 => Instruction { mnemonic: Mnemonic::Lsr, unofficial: false, mode: AddressingMode::Absolute, bytes: 3, cycles: 6, implemented: true },
        79 => Instruction { mnemonic: Mnemonic::Sre, unofficial: true, mode: AddressingMode::Absolute, bytes: 3, cycles: 6, implemented: true },
        80 => Instruction { mnemonic: Mnemonic::Bvc, unofficial: false, mode: AddressingMode::Relative, bytes: 2, cycles: 2, implemented: true },
        81 => Instruction { mnemonic: Mnemonic::Eor, unofficial: false, mode: AddressingMode::IndirectY, bytes: 2, cycles: 5, implemented: true },
        82 => Instruction { mnemonic: Mnemonic::Kil, unofficial: true, mode: AddressingMode::Implied, bytes: 1, cycles: 2, implemented: false },
        83 => Instruction { mnemonic: Mnemonic::Sre, unofficial: true, mode: AddressingMode::IndirectY, bytes: 2, cycles: 8, implemented: true },
        84 => Instruction { mnemonic: Mnemonic::Nop, unofficial: true, mode: AddressingMode::ZeroPageX, bytes: 2, cycles: 4, implemented: true },
        85 => Instruction { mnemonic: Mnemonic::Eor, unofficial: false, mode: AddressingMode::ZeroPageX, bytes: 2, cycles: 4, implemented: true },
        86 => Instruction { mnemonic: Mnemonic::Lsr, unofficial: false, mode: AddressingMode::ZeroPageX, bytes: 2, cycles: 6, implemented: true },
        87 => Instruction { mnemonic: Mnemonic::Sre, unofficial: true, mode: AddressingMode::ZeroPageX, bytes: 2, cycles: 6, implemented: true },
        88 => Instruction { mnemonic: Mnemonic::Cli, unofficial: false, mode: AddressingMode::Implied, bytes: 1, cycles: 2, implemented: true },
        89 => Instruction { mnemonic: Mnemonic::Eor, unofficial: false, mode: AddressingMode::AbsoluteY, bytes: 3, cycles: 4, implemented: true },
        90 => Instruction { mnemonic: Mnemonic::Nop, unofficial: true, mode: AddressingMode::Implied, bytes: 1, cycles: 2, implemented: true },
        91 => Instruction { mnemonic: Mnemonic::Sre, unofficial: true, mode: AddressingMode::AbsoluteY, bytes: 3, cycles: 7, implemented: true },
        92 => Instruction { mnemonic: Mnemonic::Nop, unofficial: true, mode: AddressingMode::AbsoluteX, bytes: 3, cycles: 4, implemented: true },
        93 => Instruction { mnemonic: Mnemonic::Eor, unofficial: false, mode: AddressingMode::AbsoluteX, bytes: 3, cycles: 4, implemented: true },
        94 => Instruction { mnemonic: Mnemonic::Lsr, unofficial: false, mode: AddressingMode::AbsoluteX, bytes: 3, cycles: 7, implemented: true },
        95 => Instruction { mnemonic: Mnemonic::Sre, unofficial: true, mode: AddressingMode::AbsoluteX, bytes: 3, cycles: 7, implemented: true },
        96 => Instruction { mnemonic: Mnemonic::Rts, unofficial: false, mode: AddressingMode::Implied, bytes: 1, cycles: 6, implemented: true },
        97 => Instruction { mnemonic: Mnemonic::Adc, unofficial: false, mode: AddressingMode::IndirectX, bytes: 2, cycles: 6, implemented: true },
        98 => Instruction { mnemonic: Mnemonic::Kil, unofficial: true, mode: AddressingMode::Implied, bytes: 1, cycles: 2, implemented: false },
        99 => Instruction { mnemonic: Mnemonic::Rra, unofficial: true, mode: AddressingMode::IndirectX, bytes: 2, cycles: 8, implemented: true },
        100 => Instruction { mnemonic: Mnemonic::Nop, unofficial: true, mode: AddressingMode::ZeroPage, bytes: 2, cycles: 3, implemented: true },
        101 => Instruction { mnemonic: Mnemonic::Adc, unofficial: false, mode: AddressingMode::ZeroPage, bytes: 2, cycles: 3, implemented: true },
        102 => Instruction { mnemonic: Mnemonic::Ror, unofficial: false, mode: AddressingMode::ZeroPage, bytes: 2, cycles: 5, implemented: true },
        103 => Instruction { mnemonic: Mnemonic::Rra, unofficial: true, mode: AddressingMode::ZeroPage, bytes: 2, cycles: 5, implemented: true },
        104 => Instruction { mnemonic: Mnemonic::Pla, unofficial: false, mode: AddressingMode::Implied, bytes: 1, cycles: 4, implemented: true },
        105 => Instruction { mnemonic: Mnemonic::Adc, unofficial: false, mode: AddressingMode::Immediate, bytes: 2, cycles: 2, implemented: true },
        106 => Instruction { mnemonic: Mnemonic::Ror, unofficial: false, mode: AddressingMode::Implied, bytes: 1, cycles: 2, implemented: true },
        107 => Instruction { mnemonic: Mnemonic::Arr, unofficial: true, mode: AddressingMode::Immediate, bytes: 2, cycles: 2, implemented: false },
        108 => Instruction { mnemonic: Mnemonic::Jmp, unofficial: false, mode: AddressingMode::Indirect, bytes: 3, cycles: 5, implemented: true },
        109 => Instruction { mnemonic: Mnemonic::Adc, unofficial: false, mode: AddressingMode::Absolute, bytes: 3, cycles: 4, implemented: true },
        110 => Instruction { mnemonic: Mnemonic::Ror, unofficial: false, mode: AddressingMode::Absolute, bytes: 3, cycles: 6, implemented: true },
        111 => Instruction { mnemonic: Mnemonic::Rra, unofficial: true, mode: AddressingMode::Absolute, bytes: 3, cycles: 6, implemented: true },
        112 => Instruction { mnemonic: Mnemonic::Bvs, unofficial: false, mode: AddressingMode::Relative, bytes: 2, cycles: 2, implemented: true },
        113 => Instruction { mnemonic: Mnemonic::Adc, unofficial: false, mode: AddressingMode::IndirectY, bytes: 2, cycles: 5, implemented: true },
        114 => Instruction { mnemonic: Mnemonic::Kil, unofficial: true, mode: AddressingMode::Implied, bytes: 1, cycles: 2, implemented: false },
        115 => Instruction { mnemonic: Mnemonic::Rra, unofficial: true, mode: AddressingMode::IndirectY, bytes: 2, cycles: 8, implemented: true },
        116 => Instruction { mnemonic: Mnemonic::Nop, unofficial: true, mode: AddressingMode::ZeroPageX, bytes: 2, cycles: 4, implemented: true },
        117 => Instruction { mnemonic: Mnemonic::Adc, unofficial: false, mode: AddressingMode::ZeroPageX, bytes: 2, cycles: 4, implemented: true },
        118 => Instruction { mnemonic: Mnemonic::Ror, unofficial: false, mode: AddressingMode::ZeroPageX, bytes: 2, cycles: 6, implemented: true },
        119 => Instruction { mnemonic: Mnemonic::Rra, unofficial: true, mode: AddressingMode::ZeroPageX, bytes: 2, cycles: 6, implemented: true },
        120 => Instruction { mnemonic: Mnemonic::Sei, unofficial: false, mode: AddressingMode::Implied, bytes: 1, cycles: 2, implemented: true },
        121 => Instruction { mnemonic: Mnemonic::Adc, unofficial: false, mode: AddressingMode::AbsoluteY, bytes: 3, cycles: 4, implemented: true },
        122 => Instruction { mnemonic: Mnemonic::Nop, unofficial: true, mode: AddressingMode::Implied, bytes: 1, cycles: 2, implemented: true },
        123 => Instruction { mnemonic: Mnemonic::Rra, unofficial: true, mode: AddressingMode::AbsoluteY, bytes: 3, cycles: 7, implemented: true },
        124 => Instruction { mnemonic: Mnemonic::Nop, unofficial: true, mode: AddressingMode::AbsoluteX, bytes: 3, cycles: 4, implemented: true },
        125 => Instruction { mnemonic: Mnemonic::Adc, unofficial: false, mode: AddressingMode::AbsoluteX, bytes: 3, cycles: 4, implemented: true },
        126 => Instruction { mnemonic: Mnemonic::Ror, unofficial: false, mode: AddressingMode::AbsoluteX, bytes: 3, cycles: 7, implemented: true },
        127 => Instruction { mnemonic: Mnemonic::Rra, unofficial: true, mode: AddressingMode::AbsoluteX, bytes: 3, cycles: 7, implemented: true },
        128 => Instruction { mnemonic: Mnemonic::Nop, unofficial: true, mode: AddressingMode::Immediate, bytes: 2, cycles: 2, implemented: true },
        129 => Instruction { mnemonic: Mnemonic::Sta, unofficial: false, mode: AddressingMode::IndirectX, bytes: 2, cycles: 6, implemented: true },
        130 => Instruction { mnemonic: Mnemonic::Nop, unofficial: true, mode: AddressingMode::Immediate, bytes: 2, cycles: 2, implemented: true },
        131 => Instruction { mnemonic: Mnemonic::Sax, unofficial: true, mode: AddressingMode::IndirectX, bytes: 2, cycles: 6, implemented: true },
        132 => Instruction { mnemonic: Mnemonic::Sty, unofficial: false, mode: AddressingMode::ZeroPage, bytes: 2, cycles: 3, implemented: true },
        133 => Instruction { mnemonic: Mnemonic::Sta, unofficial: false, mode: AddressingMode::ZeroPage, bytes: 2, cycles: 3, implemented: true },
        134 => Instruction { mnemonic: Mnemonic::Stx, unofficial: false, mode: AddressingMode::ZeroPage, bytes: 2, cycles: 3, implemented: true },
        135 => Instruction { mnemonic: Mnemonic::Sax, unofficial: true, mode: AddressingMode::ZeroPage, bytes: 2, cycles: 3, implemented: true },
        136 => Instruction { mnemonic: Mnemonic::Dey, unofficial: false, mode: AddressingMode::Implied, bytes: 1, cycles: 2, implemented: true },
        137 => Instruction { mnemonic: Mnemonic::Nop, unofficial: true, mode: AddressingMode::Immediate, bytes: 2, cycles: 2, implemented: true },
        138 => Instruction { mnemonic: Mnemonic::Txa, unofficial: false, mode: AddressingMode::Implied, bytes: 1, cycles: 2, implemented: true },
        139 => Instruction { mnemonic: Mnemonic::Xaa, unofficial: true, mode: AddressingMode::Immediate, bytes: 2, cycles: 2, implemented: false },
        140 => Instruction { mnemonic: Mnemonic::Sty, unofficial: false, mode: AddressingMode::Absolute, bytes: 3, cycles: 4, implemented: true },
        141 => Instruction { mnemonic: Mnemonic::Sta, unofficial: false, mode: AddressingMode::Absolute, bytes: 3, cycles: 4, implemented: true },
        142 => Instruction { mnemonic: Mnemonic::Stx, unofficial: false, mode: AddressingMode::Absolute, bytes: 3, cycles: 4, implemented: true },
        143 => Instruction { mnemonic: Mnemonic::Sax, unofficial: true, mode: AddressingMode::Absolute, bytes: 3, cycles: 4, implemented: true },
        144 => Instruction { mnemonic: Mnemonic::Bcc, unofficial: false, mode: AddressingMode::Relative, bytes: 2, cycles: 2, implemented: true },
        145 => Instruction { mnemonic: Mnemonic::Sta, unofficial: false, mode: AddressingMode::IndirectY, bytes: 2, cycles: 6, implemented: true },
        146 => Instruction { mnemonic: Mnemonic::Kil, unofficial: true, mode: AddressingMode::Implied, bytes: 1, cycles: 2, implemented: false },
        147 => Instruction { mnemonic: Mnemonic::Ahx, unofficial: true, mode: AddressingMode::IndirectY, bytes: 2, cycles: 6, implemented: false },
        148 => Instruction { mnemonic: Mnemonic::Sty, unofficial: false, mode: AddressingMode::ZeroPageX, bytes: 2, cycles: 4, implemented: true },
        149 => Instruction { mnemonic: Mnemonic::Sta, unofficial: false, mode: AddressingMode::ZeroPageX, bytes: 2, cycles: 4, implemented: true },
        150 => Instruction { mnemonic: Mnemonic::Stx, unofficial: false, mode: AddressingMode::ZeroPageY, bytes: 2, cycles: 4, implemented: true },
        151 => Instruction { mnemonic: Mnemonic::Sax, unofficial: true, mode: AddressingMode::ZeroPageY, bytes: 2, cycles: 4, implemented: true },
        152 => Instruction { mnemonic: Mnemonic::Tya, unofficial: false, mode: AddressingMode::Implied, bytes: 1, cycles: 2, implemented: true },
        153 => Instruction { mnemonic: Mnemonic::Sta, unofficial: false, mode: AddressingMode::AbsoluteY, bytes: 3, cycles: 5, implemented: true },
        154 => Instruction { mnemonic: Mnemonic::Txs, unofficial: false, mode: AddressingMode::Implied, bytes: 1, cycles: 2, implemented: true },
        155 => Instruction { mnemonic: Mnemonic::Tas, unofficial: true, mode: AddressingMode::AbsoluteY, bytes: 3, cycles: 5, implemented: false },
        156 => Instruction { mnemonic: Mnemonic::Shy, unofficial: true, mode: AddressingMode::AbsoluteX, bytes: 3, cycles: 5, implemented: false },
        157 => Instruction { mnemonic: Mnemonic::Sta, unofficial: false, mode: AddressingMode::AbsoluteX, bytes: 3, cycles: 5, implemented: true },
        158 => Instruction { mnemonic: Mnemonic::Shx, unofficial: true, mode: AddressingMode::AbsoluteY, bytes: 3, cycles: 5, implemented: false },
        159 => Instruction { mnemonic: Mnemonic::Ahx, unofficial: true, mode: AddressingMode::AbsoluteY, bytes: 3, cycles: 5, implemented: false },
        160 => Instruction { mnemonic: Mnemonic::Ldy, unofficial: false, mode: AddressingMode::Immediate, bytes: 2, cycles: 2, implemented: true },
        161 => Instruction { mnemonic: Mnemonic::Lda, unofficial: false, mode: AddressingMode::IndirectX, bytes: 2, cycles: 6, implemented: true },
        162 => Instruction { mnemonic: Mnemonic::Ldx, unofficial: false, mode: AddressingMode::Immediate, bytes: 2, cycles: 2, implemented: true },
        163 => Instruction { mnemonic: Mnemonic::Lax, unofficial: true, mode: AddressingMode::IndirectX, bytes: 2, cycles: 6, implemented: true },
        164 => Instruction { mnemonic: Mnemonic::Ldy, unofficial: false, mode: AddressingMode::ZeroPage, bytes: 2, cycles: 3, implemented: true },
        165 => Instruction { mnemonic: Mnemonic::Lda, unofficial: false, mode: AddressingMode::ZeroPage, bytes: 2, cycles: 3, implemented: true },
        166 => Instruction { mnemonic: Mnemonic::Ldx, unofficial: false, mode: AddressingMode::ZeroPage, bytes: 2, cycles: 3, implemented: true },
        167 => Instruction { mnemonic: Mnemonic::Lax, unofficial: true, mode: AddressingMode::ZeroPage, bytes: 2, cycles: 3, implemented: true },
        168 => Instruction { mnemonic: Mnemonic::Tay, unofficial: false, mode: AddressingMode::Implied, bytes: 1, cycles: 2, implemented: true },
        169 => Instruction { mnemonic: Mnemonic::Lda, unofficial: false, mode: AddressingMode::Immediate, bytes: 2, cycles: 2, implemented: true },
        170 => Instruction { mnemonic: Mnemonic::Tax, unofficial: false, mode: AddressingMode::Implied, bytes: 1, cycles: 2, implemented: true },
        171 => Instruction { mnemonic: Mnemonic::Lxa, unofficial: true, mode: AddressingMode::Immediate, bytes: 2, cycles: 2, implemented: false },
        172 => Instruction { mnemonic: Mnemonic::Ldy, unofficial: false, mode: AddressingMode::Absolute, bytes: 3, cycles: 4, implemented: true },
        173 => Instruction { mnemonic: Mnemonic::Lda, unofficial: false, mode: AddressingMode::Absolute, bytes: 3, cycles: 4, implemented: true },
        174 => Instruction { mnemonic: Mnemonic::Ldx, unofficial: false, mode: AddressingMode::Absolute, bytes: 3, cycles: 4, implemented: true },
        175 => Instruction { mnemonic: Mnemonic::Lax, unofficial: true, mode: AddressingMode::Absolute, bytes: 3, cycles: 4, implemented: true },
        176 => Instruction { mnemonic: Mnemonic::Bcs, unofficial: false, mode: AddressingMode::Relative, bytes: 2, cycles: 2, implemented: true },
        177 => Instruction { mnemonic: Mnemonic::Lda, unofficial: false, mode: AddressingMode::IndirectY, bytes: 2, cycles: 5, implemented: true },
        178 => Instruction { mnemonic: Mnemonic::Kil, unofficial: true, mode: AddressingMode::Implied, bytes: 1, cycles: 2, implemented: false },
        179 => Instruction { mnemonic: Mnemonic::Lax, unofficial: true, mode: AddressingMode::IndirectY, bytes: 2, cycles: 5, implemented: true },
        180 => Instruction { mnemonic: Mnemonic::Ldy, unofficial: false, mode: AddressingMode::ZeroPageX, bytes: 2, cycles: 4, implemented: true },
        181 => Instruction { mnemonic: Mnemonic::Lda, unofficial: false, mode: AddressingMode::ZeroPageX, bytes: 2, cycles: 4, implemented: true },
        182 => Instruction { mnemonic: Mnemonic::Ldx, unofficial: false, mode: AddressingMode::ZeroPageY, bytes: 2, cycles: 4, implemented: true },
        183 => Instruction { mnemonic: Mnemonic::Lax, unofficial: true, mode: AddressingMode::ZeroPageY, bytes: 2, cycles: 4, implemented: true },
        184 => Instruction { mnemonic: Mnemonic::Clv, unofficial: false, mode: AddressingMode::Implied, bytes: 1, cycles: 2, implemented: true },
        185 => Instruction { mnemonic: Mnemonic::Lda, unofficial: false, mode: AddressingMode::AbsoluteY, bytes: 3, cycles: 4, implemented: true },
        186 => Instruction { mnemonic: Mnemonic::Tsx, unofficial: false, mode: AddressingMode::Implied, bytes: 1, cycles: 2, implemented: true },
        187 => Instruction { mnemonic: Mnemonic::Las, unofficial: true, mode: AddressingMode::AbsoluteY, bytes: 3, cycles: 4, implemented: false },
        188 => Instruction { mnemonic: Mnemonic::Ldy, unofficial: false, mode: AddressingMode::AbsoluteX, bytes: 3, cycles: 4, implemented: true },
        189 => Instruction { mnemonic: Mnemonic::Lda, unofficial: false, mode: AddressingMode::AbsoluteX, bytes: 3, cycles: 4, implemented: true },
        190 => Instruction { mnemonic: Mnemonic::Ldx, unofficial: false, mode: AddressingMode::AbsoluteY, bytes: 3, cycles: 4, implemented: true },
        191 => Instruction { mnemonic: Mnemonic::Lax, unofficial: true, mode: AddressingMode::AbsoluteY, bytes: 3, cycles: 4, implemented: true },
        192 => Instruction { mnemonic: Mnemonic::Cpy, unofficial: false, mode: AddressingMode::Immediate, bytes: 2, cycles: 2, implemented: true },
        193 => Instruction { mnemonic: Mnemonic::Cmp, unofficial: false, mode: AddressingMode::IndirectX, bytes: 2, cycles: 6, implemented: true },
        194 => Instruction { mnemonic: Mnemonic::Nop, unofficial: true, mode: AddressingMode::Immediate, bytes: 2, cycles: 2, implemented: true },
        195 => Instruction { mnemonic: Mnemonic::Dcp, unofficial: true, mode: AddressingMode::IndirectX, bytes: 2, cycles: 8, implemented: true },
        196 => Instruction { mnemonic: Mnemonic::Cpy, unofficial: false, mode: AddressingMode::ZeroPage, bytes: 2, cycles: 3, implemented: true },
        197 => Instruction { mnemonic: Mnemonic::Cmp, unofficial: false, mode: AddressingMode::ZeroPage, bytes: 2, cycles: 3, implemented: true },
        198 => Instruction { mnemonic: Mnemonic::Dec, unofficial: false, mode: AddressingMode::ZeroPage, bytes: 2, cycles: 5, implemented: true },
        199 => Instruction { mnemonic: Mnemonic::Dcp, unofficial: true, mode: AddressingMode::ZeroPage, bytes: 2, cycles: 5, implemented: true },
        200 => Instruction { mnemonic: Mnemonic::Iny, unofficial: false, mode: AddressingMode::Implied, bytes: 1, cycles: 2, implemented: true },
        201 => Instruction { mnemonic: Mnemonic::Cmp, unofficial: false, mode: AddressingMode::Immediate, bytes: 2, cycles: 2, implemented: true },
        202 => Instruction { mnemonic: Mnemonic::Dex, unofficial: false, mode: AddressingMode::Implied, bytes: 1, cycles: 2, implemented: true },
        203 => Instruction { mnemonic: Mnemonic::Axs, unofficial: true, mode: AddressingMode::Immediate, bytes: 2, cycles: 2, implemented: false },
        204 => Instruction { mnemonic: Mnemonic::Cpy, unofficial: false, mode: AddressingMode::Absolute, bytes: 3, cycles: 4, implemented: true },
        205 => Instruction { mnemonic: Mnemonic::Cmp, unofficial: false, mode: AddressingMode::Absolute, bytes: 3, cycles: 4, implemented: true },
        206 => Instruction { mnemonic: Mnemonic::Dec, unofficial: false, mode: AddressingMode::Absolute, bytes: 3, cycles: 6, implemented: true },
        207 => Instruction { mnemonic: Mnemonic::Dcp, unofficial: true, mode: AddressingMode::Absolute, bytes: 3, cycles: 6, implemented: true },
        208 => Instruction { mnemonic: Mnemonic::Bne, unofficial: false, mode: AddressingMode::Relative, bytes: 2, cycles: 2, implemented: true },
        209 => Instruction { mnemonic: Mnemonic::Cmp, unofficial: false, mode: AddressingMode::IndirectY, bytes: 2, cycles: 5, implemented: true },
        210 => Instruction { mnemonic: Mnemonic::Kil, unofficial: true, mode: AddressingMode::Implied, bytes: 1, cycles: 2, implemented: false },
        211 => Instruction { mnemonic: Mnemonic::Dcp, unofficial: true, mode: AddressingMode::IndirectY, bytes: 2, cycles: 8, implemented: true },
        212 => Instruction { mnemonic: Mnemonic::Nop, unofficial: true, mode: AddressingMode::ZeroPageX, bytes: 2, cycles: 4, implemented: true },
        213 => Instruction { mnemonic: Mnemonic::Cmp, unofficial: false, mode: AddressingMode::ZeroPageX, bytes: 2, cycles: 4, implemented: true },
        214 => Instruction { mnemonic: Mnemonic::Dec, unofficial: false, mode: AddressingMode::ZeroPageX, bytes: 2, cycles: 6, implemented: true },
        215 => Instruction { mnemonic: Mnemonic::Dcp, unofficial: true, mode: AddressingMode::ZeroPageX, bytes: 2, cycles: 6, implemented: true },
        216 => Instruction { mnemonic: Mnemonic::Cld, unofficial: false, mode: AddressingMode::Implied, bytes: 1, cycles: 2, implemented: true },
        217 => Instruction { mnemonic: Mnemonic::Cmp, unofficial: false, mode: AddressingMode::AbsoluteY, bytes: 3, cycles: 4, implemented: true },
        218 => Instruction { mnemonic: Mnemonic::Nop, unofficial: true, mode: AddressingMode::Implied, bytes: 1, cycles: 2, implemented: true },
        219 => Instruction { mnemonic: Mnemonic::Dcp, unofficial: true, mode: AddressingMode::AbsoluteY, bytes: 3, cycles: 7, implemented: true },
        220 => Instruction { mnemonic: Mnemonic::Nop, unofficial: true, mode: AddressingMode::AbsoluteX, bytes: 3, cycles: 4, implemented: true },
        221 => Instruction { mnemonic: Mnemonic::Cmp, unofficial: false, mode: AddressingMode::AbsoluteX, bytes: 3, cycles: 4, implemented: true },
        222 => Instruction { mnemonic: Mnemonic::Dec, unofficial: false, mode: AddressingMode::AbsoluteX, bytes: 3, cycles: 7, implemented: true },
        223 => Instruction { mnemonic: Mnemonic::Dcp, unofficial: true, mode: AddressingMode::AbsoluteX, bytes: 3, cycles: 7, implemented: true },
        224 => Instruction { mnemonic: Mnemonic::Cpx, unofficial: false, mode: AddressingMode::Immediate, bytes: 2, cycles: 2, implemented: true },
        225 => Instruction { mnemonic: Mnemonic::Sbc, unofficial: false, mode: AddressingMode::IndirectX, bytes: 2, cycles: 6, implemented: true },
        226 => Instruction { mnemonic: Mnemonic::Nop, unofficial: true, mode: AddressingMode::Immediate, bytes: 2, cycles: 2, implemented: true },
        227 => Instruction { mnemonic: Mnemonic::Isb, unofficial: true, mode: AddressingMode::IndirectX, bytes: 2, cycles: 8, implemented: true },
        228 => Instruction { mnemonic: Mnemonic::Cpx, unofficial: false, mode: AddressingMode::ZeroPage, bytes: 2, cycles: 3, implemented: true },
        229 => Instruction { mnemonic: Mnemonic::Sbc, unofficial: false, mode: AddressingMode::ZeroPage, bytes: 2, cycles: 3, implemented: true },
        230 => Instruction { mnemonic: Mnemonic::Inc, unofficial: false, mode: AddressingMode::ZeroPage, bytes: 2, cycles: 5, implemented: true },
        231 => Instruction { mnemonic: Mnemonic::Isb, unofficial: true, mode: AddressingMode::ZeroPage, bytes: 2, cycles: 5, implemented: true },
        232 => Instruction { mnemonic: Mnemonic::Inx, unofficial: false, mode: AddressingMode::Implied, bytes: 1, cycles: 2, implemented: true },
        233 => Instruction { mnemonic: Mnemonic::Sbc, unofficial: false, mode: AddressingMode::Immediate, bytes: 2, cycles: 2, implemented: true },
        234 => Instruction { mnemonic: Mnemonic::Nop, unofficial: false, mode: AddressingMode::Implied, bytes: 1, cycles: 2, implemented: true },
        235 => Instruction { mnemonic: Mnemonic::Sbc, unofficial: true, mode: AddressingMode::Immediate, bytes: 2, cycles: 2, implemented: true },
        236 => Instruction { mnemonic: Mnemonic::Cpx, unofficial: false, mode: AddressingMode::Absolute, bytes: 3, cycles: 4, implemented: true },
        237 => Instruction { mnemonic: Mnemonic::Sbc, unofficial: false, mode: AddressingMode::Absolute, bytes: 3, cycles: 4, implemented: true },
        238 => Instruction { mnemonic: Mnemonic::Inc, unofficial: false, mode: AddressingMode::Absolute, bytes: 3, cycles: 6, implemented: true },
        239 => Instruction { mnemonic: Mnemonic::Isb, unofficial: true, mode: AddressingMode::Absolute, bytes: 3, cycles: 6, implemented: true },
        240 => Instruction { mnemonic: Mnemonic::Beq, unofficial: false, mode: AddressingMode::Relative, bytes: 2, cycles: 2, implemented: true },
        241 => Instruction { mnemonic: Mnemonic::Sbc, unofficial: false, mode: AddressingMode::IndirectY, bytes: 2, cycles: 5, implemented: true },
        242 => Instruction { mnemonic: Mnemonic::Kil, unofficial: true, mode: AddressingMode::Implied, bytes: 1, cycles: 2, implemented: false },
        243 => Instruction { mnemonic: Mnemonic::Isb, unofficial: true, mode: AddressingMode::IndirectY, bytes: 2, cycles: 8, implemented: true },
        244 => Instruction { mnemonic: Mnemonic::Nop, unofficial: true, mode: AddressingMode::ZeroPageX, bytes: 2, cycles: 4, implemented: true },
        245 => Instruction { mnemonic: Mnemonic::Sbc, unofficial: false, mode: AddressingMode::ZeroPageX, bytes: 2, cycles: 4, implemented: true },
        246 => Instruction { mnemonic: Mnemonic::Inc, unofficial: false, mode: AddressingMode::ZeroPageX, bytes: 2, cycles: 6, implemented: true },
        247 => Instruction { mnemonic: Mnemonic::Isb, unofficial: true, mode: AddressingMode::ZeroPageX, bytes: 2, cycles: 6, implemented: true },
        248 => Instruction { mnemonic: Mnemonic::Sed, unofficial: false, mode: AddressingMode::Implied, bytes: 1, cycles: 2, implemented: true },
        249 => Instruction { mnemonic: Mnemonic::Sbc, unofficial: false, mode: AddressingMode::AbsoluteY, bytes: 3, cycles: 4, implemented: true },
        250 => Instruction { mnemonic: Mnemonic::Nop, unofficial: true, mode: AddressingMode::Implied, bytes: 1, cycles: 2, implemented: true },
        251 => Instruction { mnemonic: Mnemonic::Isb, unofficial: true, mode: AddressingMode::AbsoluteY, bytes: 3, cycles: 7, implemented: true },
        252 => Instruction { mnemonic: Mnemonic::Nop, unofficial: true, mode: AddressingMode::AbsoluteX, bytes: 3, cycles: 4, implemented: true },
        253 => Instruction { mnemonic: Mnemonic::Sbc, unofficial: false, mode: AddressingMode::AbsoluteX, bytes: 3, cycles: 4, implemented: true },
        254 => Instruction { mnemonic: Mnemonic::Inc, unofficial: false, mode: AddressingMode::AbsoluteX, bytes: 3, cycles: 7, implemented: true },
        _ => Instruction { mnemonic: Mnemonic::Isb, unofficial: true, mode: AddressingMode::AbsoluteX, bytes: 3, cycles: 7, implemented: true },
    }
}

/// Look an opcode byte up in the table.
pub fn instruction(opcode: u8) -> (r: Instruction)
    ensures
        r == spec_instruction(opcode),
{
    match opcode {
        0 => Instruction { mnemonic: Mnemonic::Brk, unofficial: false, mode: AddressingMode::Implied, bytes: 1, cycles: 7, implemented: true },
        1 => Instruction { mnemonic: Mnemonic::Ora, unofficial: false, mode: AddressingMode::IndirectX, bytes: 2, cycles: 6, implemented: true },
        2 => Instruction { mnemonic: Mnemonic::Kil, unofficial: true, mode: AddressingMode::Implied, bytes: 1, cycles: 2, implemented: false },
        3 => Instruction { mnemonic: Mnemonic::Slo, unofficial: true, mode: AddressingMode::IndirectX, bytes: 2, cycles: 8, implemented: true },
        4 => Instruction { mnemonic: Mnemonic::Nop, unofficial: true, mode: AddressingMode::ZeroPage, bytes: 2, cycles: 3, implemented: true },
        5 => Instruction { mnemonic: Mnemonic::Ora, unofficial: false, mode: AddressingMode::ZeroPage, bytes: 2, cycles: 3, implemented: true },
        6 => Instruction { mnemonic: Mnemonic::Asl, unofficial: false, mode: AddressingMode::ZeroPage, bytes: 2, cycles: 5, implemented: true },
        7 => Instruction { mnemonic: Mnemonic::Slo, unofficial: true, mode: AddressingMode::ZeroPage, bytes: 2, cycles: 5, implemented: true },
        8 => Instruction { mnemonic: Mnemonic::Php, unofficial: false, mode: AddressingMode::Implied, bytes: 1, cycles: 3, implemented: true },
        9 => Instruction { mnemonic: Mnemonic::Ora, unofficial: false, mode: AddressingMode::Immediate, bytes: 2, cycles: 2, implemented: true },
        10 => Instruction { mnemonic: Mnemonic::Asl, unofficial: false, mode: AddressingMode::Implied, bytes: 1, cycles: 2, implemented: true },
        11 => Instruction { mnemonic: Mnemonic::Anc, unofficial: true, mode: AddressingMode::Immediate, bytes: 2, cycles: 2, implemented: false },
        12 => Instruction { mnemonic: Mnemonic::Nop, unofficial: true, mode: AddressingMode::Absolute, bytes: 3, cycles: 4, implemented: true },
        13 => Instruction { mnemonic: Mnemonic::Ora, unofficial: false, mode: AddressingMode::Absolute, bytes: 3, cycles: 4, implemented: true },
        14 => Instruction { mnemonic: Mnemonic::Asl, unofficial: false, mode: AddressingMode::Absolute, bytes: 3, cycles: 6, implemented: true },
        15 => Instruction { mnemonic: Mnemonic::Slo, unofficial: true, mode: AddressingMode::Absolute, bytes: 3, cycles: 6, implemented: true },
        16 => Instruction { mnemonic: Mnemonic::Bpl, unofficial: false, mode: AddressingMode::Relative, bytes: 2, cycles: 2, implemented: true },
        17 => Instruction { mnemonic: Mnemonic::Ora, unofficial: false, mode: AddressingMode::IndirectY, bytes: 2, cycles: 5, implemented: true },
        18 => Instruction { mnemonic: Mnemonic::Kil, unofficial: true, mode: AddressingMode::Implied, bytes: 1, cycles: 2, implemented: false },
        19 => Instruction { mnemonic: Mnemonic::Slo, unofficial: true, mode: AddressingMode::IndirectY, bytes: 2, cycles: 8, implemented: true },
        20 => Instruction { mnemonic: Mnemonic::Nop, unofficial: true, mode: AddressingMode::ZeroPageX, bytes: 2, cycles: 4, implemented: true },
        21 => Instruction { mnemonic: Mnemonic::Ora, unofficial: false, mode: AddressingMode::ZeroPageX, bytes: 2, cycles: 4, implemented: true },
        22 => Instruction { mnemonic: Mnemonic::Asl, unofficial: false, mode: AddressingMode::ZeroPageX, bytes: 2, cycles: 6, implemented: true },
        23 => Instruction { mnemonic: Mnemonic::Slo, unofficial: true, mode: AddressingMode::ZeroPageX, bytes: 2, cycles: 6, implemented: true },
        24 => Instruction { mnemonic: Mnemonic::Clc, unofficial: false, mode: AddressingMode::Implied, bytes: 1, cycles: 2, implemented: true },
        25 => Instruction { mnemonic: Mnemonic::Ora, unofficial: false, mode: AddressingMode::AbsoluteY, bytes: 3, cycles: 4, implemented: true },
        26 => Instruction { mnemonic: Mnemonic::Nop, unofficial: true, mode: AddressingMode::Implied, bytes: 1, cycles: 2, implemented: true },
        27 => Instruction { mnemonic: Mnemonic::Slo, unofficial: true, mode: AddressingMode::AbsoluteY, bytes: 3, cycles: 7, implemented: true },
        28 => Instruction { mnemonic: Mnemonic::Nop, unofficial: true, mode: AddressingMode::AbsoluteX, bytes: 3, cycles: 4, implemented: true },
        29 => Instruction { mnemonic: Mnemonic::Ora, unofficial: false, mode: AddressingMode::AbsoluteX, bytes: 3, cycles: 4, implemented: true },
        30 => Instruction { mnemonic: Mnemonic::Asl, unofficial: false, mode: AddressingMode::AbsoluteX, bytes: 3, cycles: 7, implemented: true },
        31 => Instruction { mnemonic: Mnemonic::Slo, unofficial: true, mode: AddressingMode::AbsoluteX, bytes: 3, cycles: 7, implemented: true },
        32 => Instruction { mnemonic: Mnemonic::Jsr, unofficial: false, mode: AddressingMode::Absolute, bytes: 3, cycles: 6, implemented: true },
        33 => Instruction { mnemonic: Mnemonic::And, unofficial: false, mode: AddressingMode::IndirectX, bytes: 2, cycles: 6, implemented: true },
        34 => Instruction { mnemonic: Mnemonic::Kil, unofficial: true, mode: AddressingMode::Implied, bytes: 1, cycles: 2, implemented: false },
        35 => Instruction { mnemonic: Mnemonic::Rla, unofficial: true, mode: AddressingMode::IndirectX, bytes: 2, cycles: 8, implemented: true },
        36 => Instruction { mnemonic: Mnemonic::Bit, unofficial: false, mode: AddressingMode::ZeroPage, bytes: 2, cycles: 3, implemented: true },
        37 => Instruction { mnemonic: Mnemonic::And, unofficial: false, mode: AddressingMode::ZeroPage, bytes: 2, cycles: 3, implemented: true },
        38 => Instruction { mnemonic: Mnemonic::Rol, unofficial: false, mode: AddressingMode::ZeroPage, bytes: 2, cycles: 5, implemented: true },
        39 => Instruction { mnemonic: Mnemonic::Rla, unofficial: true, mode: AddressingMode::ZeroPage, bytes: 2, cycles: 5, implemented: true },
        40 => Instruction { mnemonic: Mnemonic::Plp, unofficial: false, mode: AddressingMode::Implied, bytes: 1, cycles: 4, implemented: true },
        41 => Instruction { mnemonic: Mnemonic::And, unofficial: false, mode: AddressingMode::Immediate, bytes: 2, cycles: 2, implemented: true },
        42 => Instruction { mnemonic: Mnemonic::Rol, unofficial: false, mode: AddressingMode::Implied, bytes: 1, cycles: 2, implemented: true },
        43 => Instruction { mnemonic: Mnemonic::Anc, unofficial: true, mode: AddressingMode::Immediate, bytes: 2, cycles: 2, implemented: false },
        44 => Instruction { mnemonic: Mnemonic::Bit, unofficial: false, mode: AddressingMode::Absolute, bytes: 3, cycles: 4, implemented: true },
        45 => Instruction { mnemonic: Mnemonic::And, unofficial: false, mode: AddressingMode::Absolute, bytes: 3, cycles: 4, implemented: true },
        46 => Instruction { mnemonic: Mnemonic::Rol, unofficial: false, mode: AddressingMode::Absolute, bytes: 3, cycles: 6, implemented: true },
        47 => Instruction { mnemonic: Mnemonic::Rla, unofficial: true, mode: AddressingMode::Absolute, bytes: 3, cycles: 6, implemented: true },
        48 => Instruction { mnemonic: Mnemonic::Bmi, unofficial: false, mode: AddressingMode::Relative, bytes: 2, cycles: 2, implemented: true },
        49 => Instruction { mnemonic: Mnemonic::And, unofficial: false, mode: AddressingMode::IndirectY, bytes: 2, cycles: 5, implemented: true },
        50 => Instruction { mnemonic: Mnemonic::Kil, unofficial: true, mode: AddressingMode::Implied, bytes: 1, cycles: 2, implemented: false },
        51 => Instruction { mnemonic: Mnemonic::Rla, unofficial: true, mode: AddressingMode::IndirectY, bytes: 2, cycles: 8, implemented: true },
        52 => Instruction { mnemonic: Mnemonic::Nop, unofficial: true, mode: AddressingMode::ZeroPageX, bytes: 2, cycles: 4, implemented: true },
        53 => Instruction { mnemonic: Mnemonic::And, unofficial: false, mode: AddressingMode::ZeroPageX, bytes: 2, cycles: 4, implemented: true },
        54 => Instruction { mnemonic: Mnemonic::Rol, unofficial: false, mode: AddressingMode::ZeroPageX, bytes: 2, cycles: 6, implemented: true },
        55 => Instruction { mnemonic: Mnemonic::Rla, unofficial: true, mode: AddressingMode::ZeroPageX, bytes: 2, cycles: 6, implemented: true },
        56 => Instruction { mnemonic: Mnemonic::Sec, unofficial: false, mode: AddressingMode::Implied, bytes: 1, cycles: 2, implemented: true },
        57 => Instruction { mnemonic: Mnemonic::And, unofficial: false, mode: AddressingMode::AbsoluteY, bytes: 3, cycles: 4, implemented: true },
        58 => Instruction { mnemonic: Mnemonic::Nop, unofficial: true, mode: AddressingMode::Implied, bytes: 1, cycles: 2, implemented: true },
        59 => Instruction { mnemonic: Mnemonic::Rla, unofficial: true, mode: AddressingMode::AbsoluteY, bytes: 3, cycles: 7, implemented: true },
        60 => Instruction { mnemonic: Mnemonic::Nop, unofficial: true, mode: AddressingMode::AbsoluteX, bytes: 3, cycles: 4, implemented: true },
        61 => Instruction { mnemonic: Mnemonic::And, unofficial: false, mode: AddressingMode::AbsoluteX, bytes: 3, cycles: 4, implemented: true },
        62 => Instruction { mnemonic: Mnemonic::Rol, unofficial: false, mode: AddressingMode::AbsoluteX, bytes: 3, cycles: 7, implemented: true },
        63 => Instruction { mnemonic: Mnemonic::Rla, unofficial: true, mode: AddressingMode::AbsoluteX, bytes: 3, cycles: 7, implemented: true },
        64 => Instruction { mnemonic: Mnemonic::Rti, unofficial: false, mode: AddressingMode::Implied, bytes: 1, cycles: 6, implemented: true },
        65 => Instruction { mnemonic: Mnemonic::Eor, unofficial: false, mode: AddressingMode::IndirectX, bytes: 2, cycles: 6, implemented: true },
        66 => Instruction { mnemonic: Mnemonic::Kil, unofficial: true, mode: AddressingMode::Implied, bytes: 1, cycles: 2, implemented: false },
        67 => Instruction { mnemonic: Mnemonic::Sre, unofficial: true, mode: AddressingMode::IndirectX, bytes: 2, cycles: 8, implemented: true },
        68 => Instruction { mnemonic: Mnemonic::Nop, unofficial: true, mode: AddressingMode::ZeroPage, bytes: 2, cycles: 3, implemented: true },
        69 => Instruction { mnemonic: Mnemonic::Eor, unofficial: false, mode: AddressingMode::ZeroPage, bytes: 2, cycles: 3, implemented: true },
        70 => Instruction { mnemonic: Mnemonic::Lsr, unofficial: false, mode: AddressingMode::ZeroPage, bytes: 2, cycles: 5, implemented: true },
        71 => Instruction { mnemonic: Mnemonic::Sre, unofficial: true, mode: AddressingMode::ZeroPage, bytes: 2, cycles: 5, implemented: true },
        72 => Instruction { mnemonic: Mnemonic::Pha, unofficial: false, mode: AddressingMode::Implied, bytes: 1, cycles: 3, implemented: true },
        73 => Instruction { mnemonic: Mnemonic::Eor, unofficial: false, mode: AddressingMode::Immediate, bytes: 2, cycles: 2, implemented: true },
        74 => Instruction { mnemonic: Mnemonic::Lsr, unofficial: false, mode: AddressingMode::Implied, bytes: 1, cycles: 2, implemented: true },
        75 => Instruction { mnemonic: Mnemonic::Alr, unofficial: true, mode: AddressingMode::Immediate, bytes: 2, cycles: 2, implemented: false },
        76 => Instruction { mnemonic: Mnemonic::Jmp, unofficial: false, mode: AddressingMode::Absolute, bytes: 3, cycles: 3, implemented: true },
        77 => Instruction { mnemonic: Mnemonic::Eor, unofficial: false, mode: AddressingMode::Absolute, bytes: 3, cycles: 4, implemented: true },
        78 => Instruction { mnemonic: Mnemonic::Lsr, unofficial: false, mode: AddressingMode::Absolute, bytes: 3, cycles: 6, implemented: true },
        79 => Instruction { mnemonic: Mnemonic::Sre, unofficial: true, mode: AddressingMode::Absolute, bytes: 3, cycles: 6, implemented: true },
        80 => Instruction { mnemonic: Mnemonic::Bvc, unofficial: false, mode: AddressingMode::Relative, bytes: 2, cycles: 2, implemented: true },
        81 => Instruction { mnemonic: Mnemonic::Eor, unofficial: false, mode: AddressingMode::IndirectY, bytes: 2, cycles: 5, implemented: true },
        82 => Instruction { mnemonic: Mnemonic::Kil, unofficial: true, mode: AddressingMode::Implied, bytes: 1, cycles: 2, implemented: false },
        83 => Instruction { mnemonic: Mnemonic::Sre, unofficial: true, mode: AddressingMode::IndirectY, bytes: 2, cycles: 8, implemented: true },
        84 => Instruction { mnemonic: Mnemonic::Nop, unofficial: true, mode: AddressingMode::ZeroPageX, bytes: 2, cycles: 4, implemented: true },
        85 => Instruction { mnemonic: Mnemonic::Eor, unofficial: false, mode: AddressingMode::ZeroPageX, bytes: 2, cycles: 4, implemented: true },
        86 => Instruction { mnemonic: Mnemonic::Lsr, unofficial: false, mode: AddressingMode::ZeroPageX, bytes: 2, cycles: 6, implemented: true },
        87 => Instruction { mnemonic: Mnemonic::Sre, unofficial: true, mode: AddressingMode::ZeroPageX, bytes: 2, cycles: 6, implemented: true },
        88 => Instruction { mnemonic: Mnemonic::Cli, unofficial: false, mode: AddressingMode::Implied, bytes: 1, cycles: 2, implemented: true },
        89 => Instruction { mnemonic: Mnemonic::Eor, unofficial: false, mode: AddressingMode::AbsoluteY, bytes: 3, cycles: 4, implemented: true },
        90 => Instruction { mnemonic: Mnemonic::Nop, unofficial: true, mode: AddressingMode::Implied, bytes: 1, cycles: 2, implemented: true },
        91 => Instruction { mnemonic: Mnemonic::Sre, unofficial: true, mode: AddressingMode::AbsoluteY, bytes: 3, cycles: 7, implemented: true },
        92 => Instruction { mnemonic: Mnemonic::Nop, unofficial: true, mode: AddressingMode::AbsoluteX, bytes: 3, cycles: 4, implemented: true },
        93 => Instruction { mnemonic: Mnemonic::Eor, unofficial: false, mode: AddressingMode::AbsoluteX, bytes: 3, cycles: 4, implemented: true },
        94 => Instruction { mnemonic: Mnemonic::Lsr, unofficial: false, mode: AddressingMode::AbsoluteX, bytes: 3, cycles: 7, implemented: true },
        95 => Instruction { mnemonic: Mnemonic::Sre, unofficial: true, mode: AddressingMode::AbsoluteX, bytes: 3, cycles: 7, implemented: true },
        96 => Instruction { mnemonic: Mnemonic::Rts, unofficial: false, mode: AddressingMode::Implied, bytes: 1, cycles: 6, implemented: true },
        97 => Instruction { mnemonic: Mnemonic::Adc, unofficial: false, mode: AddressingMode::IndirectX, bytes: 2, cycles: 6, implemented: true },
        98 => Instruction { mnemonic: Mnemonic::Kil, unofficial: true, mode: AddressingMode::Implied, bytes: 1, cycles: 2, implemented: false },
        99 => Instruction { mnemonic: Mnemonic::Rra, unofficial: true, mode: AddressingMode::IndirectX, bytes: 2, cycles: 8, implemented: true },
        100 => Instruction { mnemonic: Mnemonic::Nop, unofficial: true, mode: AddressingMode::ZeroPage, bytes: 2, cycles: 3, implemented: true },
        101 => Instruction { mnemonic: Mnemonic::Adc, unofficial: false, mode: AddressingMode::ZeroPage, bytes: 2, cycles: 3, implemented: true },
        102 => Instruction { mnemonic: Mnemonic::Ror, unofficial: false, mode: AddressingMode::ZeroPage, bytes: 2, cycles: 5, implemented: true },
        103 => Instruction { mnemonic: Mnemonic::Rra, unofficial: true, mode: AddressingMode::ZeroPage, bytes: 2, cycles: 5, implemented: true },
        104 => Instruction { mnemonic: Mnemonic::Pla, unofficial: false, mode: AddressingMode::Implied, bytes: 1, cycles: 4, implemented: true },
        105 => Instruction { mnemonic: Mnemonic::Adc, unofficial: false, mode: AddressingMode::Immediate, bytes: 2, cycles: 2, implemented: true },
        106 => Instruction { mnemonic: Mnemonic::Ror, unofficial: false, mode: AddressingMode::Implied, bytes: 1, cycles: 2, implemented: true },
        107 => Instruction { mnemonic: Mnemonic::Arr, unofficial: true, mode: AddressingMode::Immediate, bytes: 2, cycles: 2, implemented: false },
        108 => Instruction { mnemonic: Mnemonic::Jmp, unofficial: false, mode: AddressingMode::Indirect, bytes: 3, cycles: 5, implemented: true },
        109 => Instruction { mnemonic: Mnemonic::Adc, unofficial: false, mode: AddressingMode::Absolute, bytes: 3, cycles: 4, implemented: true },
        110 => Instruction { mnemonic: Mnemonic::Ror, unofficial: false, mode: AddressingMode::Absolute, bytes: 3, cycles: 6, implemented: true },
        111 => Instruction { mnemonic: Mnemonic::Rra, unofficial: true, mode: AddressingMode::Absolute, bytes: 3, cycles: 6, implemented: true },
        112 => Instruction { mnemonic: Mnemonic::Bvs, unofficial: false, mode: AddressingMode::Relative, bytes: 2, cycles: 2, implemented: true },
        113 => Instruction { mnemonic: Mnemonic::Adc, unofficial: false, mode: AddressingMode::IndirectY, bytes: 2, cycles: 5, implemented: true },
        114 => Instruction { mnemonic: Mnemonic::Kil, unofficial: true, mode: AddressingMode::Implied, bytes: 1, cycles: 2, implemented: false },
        115 => Instruction { mnemonic: Mnemonic::Rra, unofficial: true, mode: AddressingMode::IndirectY, bytes: 2, cycles: 8, implemented: true },
        116 => Instruction { mnemonic: Mnemonic::Nop, unofficial: true, mode: AddressingMode::ZeroPageX, bytes: 2, cycles: 4, implemented: true },
        117 => Instruction { mnemonic: Mnemonic::Adc, unofficial: false, mode: AddressingMode::ZeroPageX, bytes: 2, cycles: 4, implemented: true },
        118 => Instruction { mnemonic: Mnemonic::Ror, unofficial: false, mode: AddressingMode::ZeroPageX, bytes: 2, cycles: 6, implemented: true },
        119 => Instruction { mnemonic: Mnemonic::Rra, unofficial: true, mode: AddressingMode::ZeroPageX, bytes: 2, cycles: 6, implemented: true },
        120 => Instruction { mnemonic: Mnemonic::Sei, unofficial: false, mode: AddressingMode::Implied, bytes: 1, cycles: 2, implemented: true },
        121 => Instruction { mnemonic: Mnemonic::Adc, unofficial: false, mode: AddressingMode::AbsoluteY, bytes: 3, cycles: 4, implemented: true },
        122 => Instruction { mnemonic: Mnemonic::Nop, unofficial: true, mode: AddressingMode::Implied, bytes: 1, cycles: 2, implemented: true },
        123 => Instruction { mnemonic: Mnemonic::Rra, unofficial: true, mode: AddressingMode::AbsoluteY, bytes: 3, cycles: 7, implemented: true },
        124 => Instruction { mnemonic: Mnemonic::Nop, unofficial: true, mode: AddressingMode::AbsoluteX, bytes: 3, cycles: 4, implemented: true },
        125 => Instruction { mnemonic: Mnemonic::Adc, unofficial: false, mode: AddressingMode::AbsoluteX, bytes: 3, cycles: 4, implemented: true },
        126 => Instruction { mnemonic: Mnemonic::Ror, unofficial: false, mode: AddressingMode::AbsoluteX, bytes: 3, cycles: 7, implemented: true },
        127 => Instruction { mnemonic: Mnemonic::Rra, unofficial: true, mode: AddressingMode::AbsoluteX, bytes: 3, cycles: 7, implemented: true },
        128 => Instruction { mnemonic: Mnemonic::Nop, unofficial: true, mode: AddressingMode::Immediate, bytes: 2, cycles: 2, implemented: true },
        129 => Instruction { mnemonic: Mnemonic::Sta, unofficial: false, mode: AddressingMode::IndirectX, bytes: 2, cycles: 6, implemented: true },
        130 => Instruction { mnemonic: Mnemonic::Nop, unofficial: true, mode: AddressingMode::Immediate, bytes: 2, cycles: 2, implemented: true },
        131 => Instruction { mnemonic: Mnemonic::Sax, unofficial: true, mode: AddressingMode::IndirectX, bytes: 2, cycles: 6, implemented: true },
        132 => Instruction { mnemonic: Mnemonic::Sty, unofficial: false, mode: AddressingMode::ZeroPage, bytes: 2, cycles: 3, implemented: true },
        133 => Instruction { mnemonic: Mnemonic::Sta, unofficial: false, mode: AddressingMode::ZeroPage, bytes: 2, cycles: 3, implemented: true },
        134 => Instruction { mnemonic: Mnemonic::Stx, unofficial: false, mode: AddressingMode::ZeroPage, bytes: 2, cycles: 3, implemented: true },
        135 => Instruction { mnemonic: Mnemonic::Sax, unofficial: true, mode: AddressingMode::ZeroPage, bytes: 2, cycles: 3, implemented: true },
        136 => Instruction { mnemonic: Mnemonic::Dey, unofficial: false, mode: AddressingMode::Implied, bytes: 1, cycles: 2, implemented: true },
        137 => Instruction { mnemonic: Mnemonic::Nop, unofficial: true, mode: AddressingMode::Immediate, bytes: 2, cycles: 2, implemented: true },
        138 => Instruction { mnemonic: Mnemonic::Txa, unofficial: false, mode: AddressingMode::Implied, bytes: 1, cycles: 2, implemented: true },
        139 => Instruction { mnemonic: Mnemonic::Xaa, unofficial: true, mode: AddressingMode::Immediate, bytes: 2, cycles: 2, implemented: false },
        140 => Instruction { mnemonic: Mnemonic::Sty, unofficial: false, mode: AddressingMode::Absolute, bytes: 3, cycles: 4, implemented: true },
        141 => Instruction { mnemonic: Mnemonic::Sta, unofficial: false, mode: AddressingMode::Absolute, bytes: 3, cycles: 4, implemented: true },
        142 => Instruction { mnemonic: Mnemonic::Stx, unofficial: false, mode: AddressingMode::Absolute, bytes: 3, cycles: 4, implemented: true },
        143 => Instruction { mnemonic: Mnemonic::Sax, unofficial: true, mode: AddressingMode::Absolute, bytes: 3, cycles: 4, implemented: true },
        144 => Instruction { mnemonic: Mnemonic::Bcc, unofficial: false, mode: AddressingMode::Relative, bytes: 2, cycles: 2, implemented: true },
        145 => Instruction { mnemonic: Mnemonic::Sta, unofficial: false, mode: AddressingMode::IndirectY, bytes: 2, cycles: 6, implemented: true },
        146 => Instruction { mnemonic: Mnemonic::Kil, unofficial: true, mode: AddressingMode::Implied, bytes: 1, cycles: 2, implemented: false },
        147 => Instruction { mnemonic: Mnemonic::Ahx, unofficial: true, mode: AddressingMode::IndirectY, bytes: 2, cycles: 6, implemented: false },
        148 => Instruction { mnemonic: Mnemonic::Sty, unofficial: false, mode: AddressingMode::ZeroPageX, bytes: 2, cycles: 4, implemented: true },
        149 => Instruction { mnemonic: Mnemonic::Sta, unofficial: false, mode: AddressingMode::ZeroPageX, bytes: 2, cycles: 4, implemented: true },
        150 => Instruction { mnemonic: Mnemonic::Stx, unofficial: false, mode: AddressingMode::ZeroPageY, bytes: 2, cycles: 4, implemented: true },
        151 => Instruction { mnemonic: Mnemonic::Sax, unofficial: true, mode: AddressingMode::ZeroPageY, bytes: 2, cycles: 4, implemented: true },
        152 => Instruction { mnemonic: Mnemonic::Tya, unofficial: false, mode: AddressingMode::Implied, bytes: 1, cycles: 2, implemented: true },
        153 => Instruction { mnemonic: Mnemonic::Sta, unofficial: false, mode: AddressingMode::AbsoluteY, bytes: 3, cycles: 5, implemented: true },
        154 => Instruction { mnemonic: Mnemonic::Txs, unofficial: false, mode: AddressingMode::Implied, bytes: 1, cycles: 2, implemented: true },
        155 => Instruction { mnemonic: Mnemonic::Tas, unofficial: true, mode: AddressingMode::AbsoluteY, bytes: 3, cycles: 5, implemented: false },
        156 => Instruction { mnemonic: Mnemonic::Shy, unofficial: true, mode: AddressingMode::AbsoluteX, bytes: 3, cycles: 5, implemented: false },
        157 => Instruction { mnemonic: Mnemonic::Sta, unofficial: false, mode: AddressingMode::AbsoluteX, bytes: 3, cycles: 5, implemented: true },
        158 => Instruction { mnemonic: Mnemonic::Shx, unofficial: true, mode: AddressingMode::AbsoluteY, bytes: 3, cycles: 5, implemented: false },
        159 => Instruction { mnemonic: Mnemonic::Ahx, unofficial: true, mode: AddressingMode::AbsoluteY, bytes: 3, cycles: 5, implemented: false },
        160 => Instruction { mnemonic: Mnemonic::Ldy, unofficial: false, mode: AddressingMode::Immediate, bytes: 2, cycles: 2, implemented: true },
        161 => Instruction { mnemonic: Mnemonic::Lda, unofficial: false, mode: AddressingMode::IndirectX, bytes: 2, cycles: 6, implemented: true },
        162 => Instruction { mnemonic: Mnemonic::Ldx, unofficial: false, mode: AddressingMode::Immediate, bytes: 2, cycles: 2, implemented: true },
        163 => Instruction { mnemonic: Mnemonic::Lax, unofficial: true, mode: AddressingMode::IndirectX, bytes: 2, cycles: 6, implemented: true },
        164 => Instruction { mnemonic: Mnemonic::Ldy, unofficial: false, mode: AddressingMode::ZeroPage, bytes: 2, cycles: 3, implemented: true },
        165 => Instruction { mnemonic: Mnemonic::Lda, unofficial: false, mode: AddressingMode::ZeroPage, bytes: 2, cycles: 3, implemented: true },
        166 => Instruction { mnemonic: Mnemonic::Ldx, unofficial: false, mode: AddressingMode::ZeroPage, bytes: 2, cycles: 3, implemented: true },
        167 => Instruction { mnemonic: Mnemonic::Lax, unofficial: true, mode: AddressingMode::ZeroPage, bytes: 2, cycles: 3, implemented: true },
        168 => Instruction { mnemonic: Mnemonic::Tay, unofficial: false, mode: AddressingMode::Implied, bytes: 1, cycles: 2, implemented: true },
        169 => Instruction { mnemonic: Mnemonic::Lda, unofficial: false, mode: AddressingMode::Immediate, bytes: 2, cycles: 2, implemented: true },
        170 => Instruction { mnemonic: Mnemonic::Tax, unofficial: false, mode: AddressingMode::Implied, bytes: 1, cycles: 2, implemented: true },
        171 => Instruction { mnemonic: Mnemonic::Lxa, unofficial: true, mode: AddressingMode::Immediate, bytes: 2, cycles: 2, implemented: false },
        172 => Instruction { mnemonic: Mnemonic::Ldy, unofficial: false, mode: AddressingMode::Absolute, bytes: 3, cycles: 4, implemented: true },
        173 => Instruction { mnemonic: Mnemonic::Lda, unofficial: false, mode: AddressingMode::Absolute, bytes: 3, cycles: 4, implemented: true },
        174 => Instruction { mnemonic: Mnemonic::Ldx, unofficial: false, mode: AddressingMode::Absolute, bytes: 3, cycles: 4, implemented: true },
        175 => Instruction { mnemonic: Mnemonic::Lax, unofficial: true, mode: AddressingMode::Absolute, bytes: 3, cycles: 4, implemented: true },
        176 => Instruction { mnemonic: Mnemonic::Bcs, unofficial: false, mode: AddressingMode::Relative, bytes: 2, cycles: 2, implemented: true },
        177 => Instruction { mnemonic: Mnemonic::Lda, unofficial: false, mode: AddressingMode::IndirectY, bytes: 2, cycles: 5, implemented: true },
        178 => Instruction { mnemonic: Mnemonic::Kil, unofficial: true, mode: AddressingMode::Implied, bytes: 1, cycles: 2, implemented: false },
        179 => Instruction { mnemonic: Mnemonic::Lax, unofficial: true, mode: AddressingMode::IndirectY, bytes: 2, cycles: 5, implemented: true },
        180 => Instruction { mnemonic: Mnemonic::Ldy, unofficial: false, mode: AddressingMode::ZeroPageX, bytes: 2, cycles: 4, implemented: true },
        181 => Instruction { mnemonic: Mnemonic::Lda, unofficial: false, mode: AddressingMode::ZeroPageX, bytes: 2, cycles: 4, implemented: true },
        182 => Instruction { mnemonic: Mnemonic::Ldx, unofficial: false, mode: AddressingMode::ZeroPageY, bytes: 2, cycles: 4, implemented: true },
        183 => Instruction { mnemonic: Mnemonic::Lax, unofficial: true, mode: AddressingMode::ZeroPageY, bytes: 2, cycles: 4, implemented: true },
        184 => Instruction { mnemonic: Mnemonic::Clv, unofficial: false, mode: AddressingMode::Implied, bytes: 1, cycles: 2, implemented: true },
        185 => Instruction { mnemonic: Mnemonic::Lda, unofficial: false, mode: AddressingMode::AbsoluteY, bytes: 3, cycles: 4, implemented: true },
        186 => Instruction { mnemonic: Mnemonic::Tsx, unofficial: false, mode: AddressingMode::Implied, bytes: 1, cycles: 2, implemented: true },
        187 => Instruction { mnemonic: Mnemonic::Las, unofficial: true, mode: AddressingMode::AbsoluteY, bytes: 3, cycles: 4, implemented: false },
        188 => Instruction { mnemonic: Mnemonic::Ldy, unofficial: false, mode: AddressingMode::AbsoluteX, bytes: 3, cycles: 4, implemented: true },
        189 => Instruction { mnemonic: Mnemonic::Lda, unofficial: false, mode: AddressingMode::AbsoluteX, bytes: 3, cycles: 4, implemented: true },
        190 => Instruction { mnemonic: Mnemonic::Ldx, unofficial: false, mode: AddressingMode::AbsoluteY, bytes: 3, cycles: 4, implemented: true },
        191 => Instruction { mnemonic: Mnemonic::Lax, unofficial: true, mode: AddressingMode::AbsoluteY, bytes: 3, cycles: 4, implemented: true },
        192 => Instruction { mnemonic: Mnemonic::Cpy, unofficial: false, mode: AddressingMode::Immediate, bytes: 2, cycles: 2, implemented: true },
        193 => Instruction { mnemonic: Mnemonic::Cmp, unofficial: false, mode: AddressingMode::IndirectX, bytes: 2, cycles: 6, implemented: true },
        194 => Instruction { mnemonic: Mnemonic::Nop, unofficial: true, mode: AddressingMode::Immediate, bytes: 2, cycles: 2, implemented: true },
        195 => Instruction { mnemonic: Mnemonic::Dcp, unofficial: true, mode: AddressingMode::IndirectX, bytes: 2, cycles: 8, implemented: true },
        196 => Instruction { mnemonic: Mnemonic::Cpy, unofficial: false, mode: AddressingMode::ZeroPage, bytes: 2, cycles: 3, implemented: true },
        197 => Instruction { mnemonic: Mnemonic::Cmp, unofficial: false, mode: AddressingMode::ZeroPage, bytes: 2, cycles: 3, implemented: true },
        198 => Instruction { mnemonic: Mnemonic::Dec, unofficial: false, mode: AddressingMode::ZeroPage, bytes: 2, cycles: 5, implemented: true },
        199 => Instruction { mnemonic: Mnemonic::Dcp, unofficial: true, mode: AddressingMode::ZeroPage, bytes: 2, cycles: 5, implemented: true },
        200 => Instruction { mnemonic: Mnemonic::Iny, unofficial: false, mode: AddressingMode::Implied, bytes: 1, cycles: 2, implemented: true },
        201 => Instruction { mnemonic: Mnemonic::Cmp, unofficial: false, mode: AddressingMode::Immediate, bytes: 2, cycles: 2, implemented: true },
        202 => Instruction { mnemonic: Mnemonic::Dex, unofficial: false, mode: AddressingMode::Implied, bytes: 1, cycles: 2, implemented: true },
        203 => Instruction { mnemonic: Mnemonic::Axs, unofficial: true, mode: AddressingMode::Immediate, bytes: 2, cycles: 2, implemented: false },
        204 => Instruction { mnemonic: Mnemonic::Cpy, unofficial: false, mode: AddressingMode::Absolute, bytes: 3, cycles: 4, implemented: true },
        205 => Instruction { mnemonic: Mnemonic::Cmp, unofficial: false, mode: AddressingMode::Absolute, bytes: 3, cycles: 4, implemented: true },
        206 => Instruction { mnemonic: Mnemonic::Dec, unofficial: false, mode: AddressingMode::Absolute, bytes: 3, cycles: 6, implemented: true },
        207 => Instruction { mnemonic: Mnemonic::Dcp, unofficial: true, mode: AddressingMode::Absolute, bytes: 3, cycles: 6, implemented: true },
        208 => Instruction { mnemonic: Mnemonic::Bne, unofficial: false, mode: AddressingMode::Relative, bytes: 2, cycles: 2, implemented: true },
        209 => Instruction { mnemonic: Mnemonic::Cmp, unofficial: false, mode: AddressingMode::IndirectY, bytes: 2, cycles: 5, implemented: true },
        210 => Instruction { mnemonic: Mnemonic::Kil, unofficial: true, mode: AddressingMode::Implied, bytes: 1, cycles: 2, implemented: false },
        211 => Instruction { mnemonic: Mnemonic::Dcp, unofficial: true, mode: AddressingMode::IndirectY, bytes: 2, cycles: 8, implemented: true },
        212 => Instruction { mnemonic: Mnemonic::Nop, unofficial: true, mode: AddressingMode::ZeroPageX, bytes: 2, cycles: 4, implemented: true },
        213 => Instruction { mnemonic: Mnemonic::Cmp, unofficial: false, mode: AddressingMode::ZeroPageX, bytes: 2, cycles: 4, implemented: true },
        214 => Instruction { mnemonic: Mnemonic::Dec, unofficial: false, mode: AddressingMode::ZeroPageX, bytes: 2, cycles: 6, implemented: true },
        215 => Instruction { mnemonic: Mnemonic::Dcp, unofficial: true, mode: AddressingMode::ZeroPageX, bytes: 2, cycles: 6, implemented: true },
        216 => Instruction { mnemonic: Mnemonic::Cld, unofficial: false, mode: AddressingMode::Implied, bytes: 1, cycles: 2, implemented: true },
        217 => Instruction { mnemonic: Mnemonic::Cmp, unofficial: false, mode: AddressingMode::AbsoluteY, bytes: 3, cycles: 4, implemented: true },
        218 => Instruction { mnemonic: Mnemonic::Nop, unofficial: true, mode: AddressingMode::Implied, bytes: 1, cycles: 2, implemented: true },
        219 => Instruction { mnemonic: Mnemonic::Dcp, unofficial: true, mode: AddressingMode::AbsoluteY, bytes: 3, cycles: 7, implemented: true },
        220 => Instruction { mnemonic: Mnemonic::Nop, unofficial: true, mode: AddressingMode::AbsoluteX, bytes: 3, cycles: 4, implemented: true },
        221 => Instruction { mnemonic: Mnemonic::Cmp, unofficial: false, mode: AddressingMode::AbsoluteX, bytes: 3, cycles: 4, implemented: true },
        222 => Instruction { mnemonic: Mnemonic::Dec, unofficial: false, mode: AddressingMode::AbsoluteX, bytes: 3, cycles: 7, implemented: true },
        223 => Instruction { mnemonic: Mnemonic::Dcp, unofficial: true, mode: AddressingMode::AbsoluteX, bytes: 3, cycles: 7, implemented: true },
        224 => Instruction { mnemonic: Mnemonic::Cpx, unofficial: false, mode: AddressingMode::Immediate, bytes: 2, cycles: 2, implemented: true },
        225 => Instruction { mnemonic: Mnemonic::Sbc, unofficial: false, mode: AddressingMode::IndirectX, bytes: 2, cycles: 6, implemented: true },
        226 => Instruction { mnemonic: Mnemonic::Nop, unofficial: true, mode: AddressingMode::Immediate, bytes: 2, cycles: 2, implemented: true },
        227 => Instruction { mnemonic: Mnemonic::Isb, unofficial: true, mode: AddressingMode::IndirectX, bytes: 2, cycles: 8, implemented: true },
        228 => Instruction { mnemonic: Mnemonic::Cpx, unofficial: false, mode: AddressingMode::ZeroPage, bytes: 2, cycles: 3, implemented: true },
        229 => Instruction { mnemonic: Mnemonic::Sbc, unofficial: false, mode: AddressingMode::ZeroPage, bytes: 2, cycles: 3, implemented: true },
        230 => Instruction { mnemonic: Mnemonic::Inc, unofficial: false, mode: AddressingMode::ZeroPage, bytes: 2, cycles: 5, implemented: true },
        231 => Instruction { mnemonic: Mnemonic::Isb, unofficial: true, mode: AddressingMode::ZeroPage, bytes: 2, cycles: 5, implemented: true },
        232 => Instruction { mnemonic: Mnemonic::Inx, unofficial: false, mode: AddressingMode::Implied, bytes: 1, cycles: 2, implemented: true },
        233 => Instruction { mnemonic: Mnemonic::Sbc, unofficial: false, mode: AddressingMode::Immediate, bytes: 2, cycles: 2, implemented: true },
        234 => Instruction { mnemonic: Mnemonic::Nop, unofficial: false, mode: AddressingMode::Implied, bytes: 1, cycles: 2, implemented: true },
        235 => Instruction { mnemonic: Mnemonic::Sbc, unofficial: true, mode: AddressingMode::Immediate, bytes: 2, cycles: 2, implemented: true },
        236 => Instruction { mnemonic: Mnemonic::Cpx, unofficial: false, mode: AddressingMode::Absolute, bytes: 3, cycles: 4, implemented: true },
        237 => Instruction { mnemonic: Mnemonic::Sbc, unofficial: false, mode: AddressingMode::Absolute, bytes: 3, cycles: 4, implemented: true },
        238 => Instruction { mnemonic: Mnemonic::Inc, unofficial: false, mode: AddressingMode::Absolute, bytes: 3, cycles: 6, implemented: true },
        239 => Instruction { mnemonic: Mnemonic::Isb, unofficial: true, mode: AddressingMode::Absolute, bytes: 3, cycles: 6, implemented: true },
        240 => Instruction { mnemonic: Mnemonic::Beq, unofficial: false, mode: AddressingMode::Relative, bytes: 2, cycles: 2, implemented: true },
        241 => Instruction { mnemonic: Mnemonic::Sbc, unofficial: false, mode: AddressingMode::IndirectY, bytes: 2, cycles: 5, implemented: true },
        242 => Instruction { mnemonic: Mnemonic::Kil, unofficial: true, mode: AddressingMode::Implied, bytes: 1, cycles: 2, implemented: false },
        243 => Instruction { mnemonic: Mnemonic::Isb, unofficial: true, mode: AddressingMode::IndirectY, bytes: 2, cycles: 8, implemented: true },
        244 => Instruction { mnemonic: Mnemonic::Nop, unofficial: true, mode: AddressingMode::ZeroPageX, bytes: 2, cycles: 4, implemented: true },
        245 => Instruction { mnemonic: Mnemonic::Sbc, unofficial: false, mode: AddressingMode::ZeroPageX, bytes: 2, cycles: 4, implemented: true },
        246 => Instruction { mnemonic: Mnemonic::Inc, unofficial: false, mode: AddressingMode::ZeroPageX, bytes: 2, cycles: 6, implemented: true },
        247 => Instruction { mnemonic: Mnemonic::Isb, unofficial: true, mode: AddressingMode::ZeroPageX, bytes: 2, cycles: 6, implemented: true },
        248 => Instruction { mnemonic: Mnemonic::Sed, unofficial: false, mode: AddressingMode::Implied, bytes: 1, cycles: 2, implemented: true },
        249 => Instruction { mnemonic: Mnemonic::Sbc, unofficial: false, mode: AddressingMode::AbsoluteY, bytes: 3, cycles: 4, implemented: true },
        250 => Instruction { mnemonic: Mnemonic::Nop, unofficial: true, mode: AddressingMode::Implied, bytes: 1, cycles: 2, implemented: true },
        251 => Instruction { mnemonic: Mnemonic::Isb, unofficial: true, mode: AddressingMode::AbsoluteY, bytes: 3, cycles: 7, implemented: true },
        252 => Instruction { mnemonic: Mnemonic::Nop, unofficial: true, mode: AddressingMode::AbsoluteX, bytes: 3, cycles: 4, implemented: true },
        253 => Instruction { mnemonic: Mnemonic::Sbc, unofficial: false, mode: AddressingMode::AbsoluteX, bytes: 3, cycles: 4, implemented: true },
        254 => Instruction { mnemonic: Mnemonic::Inc, unofficial: false, mode: AddressingMode::AbsoluteX, bytes: 3, cycles: 7, implemented: true },
        _ => Instruction { mnemonic: Mnemonic::Isb, unofficial: true, mode: AddressingMode::AbsoluteX, bytes: 3, cycles: 7, implemented: true },
    }
}

/// The three uppercase letters of a mnemonic, as a trace line shows them.
pub open spec fn spec_mnemonic_text(m: Mnemonic) -> Seq<char> {
    match m {
        Mnemonic::Adc => "ADC"@,
        Mnemonic::Ahx => "AHX"@,
        Mnemonic::Alr => "ALR"@,
        Mnemonic::Anc => "ANC"@,
        Mnemonic::And => "AND"@,
        Mnemonic::Arr => "ARR"@,
        Mnemonic::Asl => "ASL"@,
        Mnemonic::Axs => "AXS"@,
        Mnemonic::Bcc => "BCC"@,
        Mnemonic::Bcs => "BCS"@,
        Mnemonic::Beq => "BEQ"@,
        Mnemonic::Bit => "BIT"@,
        Mnemonic::Bmi => "BMI"@,
        Mnemonic::Bne => "BNE"@,
        Mnemonic::Bpl => "BPL"@,
        Mnemonic::Brk => "BRK"@,
        Mnemonic::Bvc => "BVC"@,
        Mnemonic::Bvs => "BVS"@,
        Mnemonic::Clc => "CLC"@,
        Mnemonic::Cld => "CLD"@,
        Mnemonic::Cli => "CLI"@,
        Mnemonic::Clv => "CLV"@,
        Mnemonic::Cmp => "CMP"@,
        Mnemonic::Cpx => "CPX"@,
        Mnemonic::Cpy => "CPY"@,
        Mnemonic::Dcp => "DCP"@,
        Mnemonic::Dec => "DEC"@,
        Mnemonic::Dex => "DEX"@,
        Mnemonic::Dey => "DEY"@,
        Mnemonic::Eor => "EOR"@,
        Mnemonic::Inc => "INC"@,
        Mnemonic::Inx => "INX"@,
        Mnemonic::Iny => "INY"@,
        Mnemonic::Isb => "ISB"@,
        Mnemonic::Jmp => "JMP"@,
        Mnemonic::Jsr => "JSR"@,
        Mnemonic::Kil => "KIL"@,
        Mnemonic::Las => "LAS"@,
        Mnemonic::Lax => "LAX"@,
        Mnemonic::Lda => "LDA"@,
        Mnemonic::Ldx => "LDX"@,
        Mnemonic::Ldy => "LDY"@,
        Mnemonic::Lsr => "LSR"@,
        Mnemonic::Lxa => "LXA"@,
        Mnemonic::Nop => "NOP"@,
        Mnemonic::Ora => "ORA"@,
        Mnemonic::Pha => "PHA"@,
        Mnemonic::Php => "PHP"@,
        Mnemonic::Pla => "PLA"@,
        Mnemonic::Plp => "PLP"@,
        Mnemonic::Rla => "RLA"@,
        Mnemonic::Rol => "ROL"@,
        Mnemonic::Ror => "ROR"@,
        Mnemonic::Rra => "RRA"@,
        Mnemonic::Rti => "RTI"@,
        Mnemonic::Rts => "RTS"@,
        Mnemonic::Sax => "SAX"@,
        Mnemonic::Sbc => "SBC"@,
        Mnemonic::Sec => "SEC"@,
        Mnemonic::Sed => "SED"@,
        Mnemonic::Sei => "SEI"@,
        Mnemonic::Shx => "SHX"@,
        Mnemonic::Shy => "SHY"@,
        Mnemonic::Slo => "SLO"@,
        Mnemonic::Sre => "SRE"@,
        Mnemonic::Sta => "STA"@,
        Mnemonic::Stx => "STX"@,
        Mnemonic::Sty => "STY"@,
        Mnemonic::Tas => "TAS"@,
        Mnemonic::Tax => "TAX"@,
        Mnemonic::Tay => "TAY"@,
        Mnemonic::Tsx => "TSX"@,
        Mnemonic::Txa => "TXA"@,
        Mnemonic::Txs => "TXS"@,
        Mnemonic::Tya => "TYA"@,
        Mnemonic::Xaa => "XAA"@,
    }
}

/// The printable form of a mnemonic.
pub fn mnemonic_text(m: Mnemonic) -> (r: &'static str)
    ensures
        r@ == spec_mnemonic_text(m),
{
    match m {
        Mnemonic::Adc => "ADC",
        Mnemonic::Ahx => "AHX",
        Mnemonic::Alr => "ALR",
        Mnemonic::Anc => "ANC",
        Mnemonic::And => "AND",
        Mnemonic::Arr => "ARR",
        Mnemonic::Asl => "ASL",
        Mnemonic::Axs => "AXS",
        Mnemonic::Bcc => "BCC",
        Mnemonic::Bcs => "BCS",
        Mnemonic::Beq => "BEQ",
        Mnemonic::Bit => "BIT",
        Mnemonic::Bmi => "BMI",
        Mnemonic::Bne => "BNE",
        Mnemonic::Bpl => "BPL",
        Mnemonic::Brk => "BRK",
        Mnemonic::Bvc => "BVC",
        Mnemonic::Bvs => "BVS",
        Mnemonic::Clc => "CLC",
        Mnemonic::Cld => "CLD",
        Mnemonic::Cli => "CLI",
        Mnemonic::Clv => "CLV",
        Mnemonic::Cmp => "CMP",
        Mnemonic::Cpx => "CPX",
        Mnemonic::Cpy => "CPY",
        Mnemonic::Dcp => "DCP",
        Mnemonic::Dec => "DEC",
        Mnemonic::Dex => "DEX",
        Mnemonic::Dey => "DEY",
        Mnemonic::Eor => "EOR",
        Mnemonic::Inc => "INC",
        Mnemonic::Inx => "INX",
        Mnemonic::Iny => "INY",
        Mnemonic::Isb => "ISB",
        Mnemonic::Jmp => "JMP",
        Mnemonic::Jsr => "JSR",
        Mnemonic::Kil => "KIL",
        Mnemonic::Las => "LAS",
        Mnemonic::Lax => "LAX",
        Mnemonic::Lda => "LDA",
        Mnemonic::Ldx => "LDX",
        Mnemonic::Ldy => "LDY",
        Mnemonic::Lsr => "LSR",
        Mnemonic::Lxa => "LXA",
        Mnemonic::Nop => "NOP",
        Mnemonic::Ora => "ORA",
        Mnemonic::Pha => "PHA",
        Mnemonic::Php => "PHP",
        Mnemonic::Pla => "PLA",
        Mnemonic::Plp => "PLP",
        Mnemonic::Rla => "RLA",
        Mnemonic::Rol => "ROL",
        Mnemonic::Ror => "ROR",
        Mnemonic::Rra => "RRA",
        Mnemonic::Rti => "RTI",
        Mnemonic::Rts => "RTS",
        Mnemonic::Sax => "SAX",
        Mnemonic::Sbc => "SBC",
        Mnemonic::Sec => "SEC",
        Mnemonic::Sed => "SED",
        Mnemonic::Sei => "SEI",
        Mnemonic::Shx => "SHX",
        Mnemonic::Shy => "SHY",
        Mnemonic::Slo => "SLO",
        Mnemonic::Sre => "SRE",
        Mnemonic::Sta => "STA",
        Mnemonic::Stx => "STX",
        Mnemonic::Sty => "STY",
        Mnemonic::Tas => "TAS",
        Mnemonic::Tax => "TAX",
        Mnemonic::Tay => "TAY",
        Mnemonic::Tsx => "TSX",
        Mnemonic::Txa => "TXA",
        Mnemonic::Txs => "TXS",
        Mnemonic::Tya => "TYA",
        Mnemonic::Xaa => "XAA",
    }
}
} // verus!

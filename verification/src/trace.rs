//! The trace formatter: one fixed-column uppercase line per pending
//! instruction — program counter, raw opcode bytes, disassembly with the
//! resolved operand, and a register snapshot — for comparison against golden
//! execution logs.

use vstd::prelude::*;
use vstd::string::{StrSliceExecFns, StringExecFns};

use crate::bus::{spec_bus_read, spec_bus_read16};
use crate::cpu::{Cpu, CpuView, spec_operand_address, spec_status_to_byte, AddressingMode};
use crate::instruction::{instruction, mnemonic_text, spec_instruction, spec_mnemonic_text};

verus! {

/// One uppercase hex digit.
pub open spec fn spec_hex_digit(d: u8) -> Seq<char> {
    match d {
        0u8 => "0"@,
        1u8 => "1"@,
        2u8 => "2"@,
        3u8 => "3"@,
        4u8 => "4"@,
        5u8 => "5"@,
        6u8 => "6"@,
        7u8 => "7"@,
        8u8 => "8"@,
        9u8 => "9"@,
        10u8 => "A"@,
        11u8 => "B"@,
        12u8 => "C"@,
        13u8 => "D"@,
        14u8 => "E"@,
        15u8 => "F"@,
        _ => "0"@,
    }
}

/// A byte as two uppercase hex digits.
pub open spec fn spec_hex2(v: u8) -> Seq<char> {
    spec_hex_digit(v >> 4) + spec_hex_digit(v & 0x0Fu8)
}

/// A word as four uppercase hex digits.
pub open spec fn spec_hex4(w: u16) -> Seq<char> {
    spec_hex2((w >> 8) as u8) + spec_hex2((w & 0xFFu16) as u8)
}

/// `n` spaces (none when `n` is not positive).
pub open spec fn spec_spaces(n: int) -> Seq<char> {
    Seq::new(
        if n <= 0 {
            0nat
        } else {
            n as nat
        },
        |i: int| ' ',
    )
}

fn hex_digit(d: u8) -> (r: &'static str)
    ensures
        r@ == spec_hex_digit(d),
{
    match d {
        0 => "0",
        1 => "1",
        2 => "2",
        3 => "3",
        4 => "4",
        5 => "5",
        6 => "6",
        7 => "7",
        8 => "8",
        9 => "9",
        10 => "A",
        11 => "B",
        12 => "C",
        13 => "D",
        14 => "E",
        15 => "F",
        _ => "0",
    }
}

fn append_hex2(out: &mut String, v: u8)
    ensures
        final(out)@ == old(out)@ + spec_hex2(v),
{
    out.append(hex_digit(v >> 4));
    out.append(hex_digit(v & 0x0F));
    proof {
        assert(out@ =~= old(out)@ + spec_hex2(v));
    }
}

fn append_hex4(out: &mut String, w: u16)
    ensures
        final(out)@ == old(out)@ + spec_hex4(w),
{
    append_hex2(out, (w >> 8) as u8);
    append_hex2(out, (w & 0xFF) as u8);
    proof {
        assert(out@ =~= old(out)@ + spec_hex4(w));
    }
}

fn append_spaces(out: &mut String, n: usize)
    ensures
        final(out)@ == old(out)@ + spec_spaces(n as int),
{
    let mut i: usize = 0;
    while i < n
        invariant
            i <= n,
            out@ == old(out)@ + spec_spaces(i as int),
        decreases n - i,
    {
        out.append(" ");
        proof {
            reveal_strlit(" ");
            assert(out@ =~= old(out)@ + spec_spaces(i + 1 as int));
        }
        i = i + 1;
    }
}

/// The disassembly column of a trace line: the program counter, the raw
/// instruction bytes padded to eight characters, the four-character mnemonic
/// column (a `*` marks an unofficial opcode), and the operand rendered per
/// addressing mode with its resolved address and the byte stored there.
pub open spec fn spec_asm(v: CpuView) -> Seq<char> {
    let begin = v.pc;
    let opcode = spec_bus_read(v.bus, begin);
    let ins = spec_instruction(opcode);
    let star = if ins.unofficial {
        "*"@
    } else {
        " "@
    };
    let mn = spec_mnemonic_text(ins.mnemonic);
    let addr = spec_operand_address(v, ins.mode, begin.wrapping_add(1));
    let stored = spec_bus_read(v.bus, addr);
    match ins.bytes {
        2u8 => {
            let b1 = spec_bus_read(v.bus, begin.wrapping_add(1));
            match ins.mode {
                AddressingMode::Immediate => spec_hex4(begin) + "  "@ + spec_hex2(opcode) + " "@
                    + spec_hex2(b1) + spec_spaces(3) + " "@ + star + mn + " "@ + "#$"@ + spec_hex2(
                    stored,
                ),
                AddressingMode::ZeroPage => spec_hex4(begin) + "  "@ + spec_hex2(opcode) + " "@
                    + spec_hex2(b1) + spec_spaces(3) + " "@ + star + mn + " "@ + "$"@ + spec_hex2(
                    addr as u8,
                ) + " = "@ + spec_hex2(stored),
                AddressingMode::ZeroPageX => spec_hex4(begin) + "  "@ + spec_hex2(opcode) + " "@
                    + spec_hex2(b1) + spec_spaces(3) + " "@ + star + mn + " "@ + "$"@ + spec_hex2(
                    b1,
                ) + ",X @ "@ + spec_hex2(addr as u8) + " = "@ + spec_hex2(stored),
                AddressingMode::ZeroPageY => spec_hex4(begin) + "  "@ + spec_hex2(opcode) + " "@
                    + spec_hex2(b1) + spec_spaces(3) + " "@ + star + mn + " "@ + "$"@ + spec_hex2(
                    b1,
                ) + ",Y @ "@ + spec_hex2(addr as u8) + " = "@ + spec_hex2(stored),
                AddressingMode::IndirectX => spec_hex4(begin) + "  "@ + spec_hex2(opcode) + " "@
                    + spec_hex2(b1) + spec_spaces(3) + " "@ + star + mn + " "@ + "($"@ + spec_hex2(
                    b1,
                ) + ",X) @ "@ + spec_hex2(b1.wrapping_add(v.x)) + " = "@ + spec_hex4(addr) + " = "@
                    + spec_hex2(stored),
                AddressingMode::IndirectY => spec_hex4(begin) + "  "@ + spec_hex2(opcode) + " "@
                    + spec_hex2(b1) + spec_spaces(3) + " "@ + star + mn + " "@ + "($"@ + spec_hex2(
                    b1,
                ) + "),Y = "@ + spec_hex4(addr.wrapping_sub(v.y as u16)) + " @ "@ + spec_hex4(addr)
                    + " = "@ + spec_hex2(stored),
                AddressingMode::Relative => spec_hex4(begin) + "  "@ + spec_hex2(opcode) + " "@
                    + spec_hex2(b1) + spec_spaces(3) + " "@ + star + mn + " "@ + "$"@ + spec_hex4(
                    addr.wrapping_add(1),
                ),
                _ => spec_hex4(begin) + "  "@ + spec_hex2(opcode) + " "@ + spec_hex2(b1)
                    + spec_spaces(3) + " "@ + star + mn,
            }
        },
        3u8 => {
            let b1 = spec_bus_read(v.bus, begin.wrapping_add(1));
            let b2 = spec_bus_read(v.bus, begin.wrapping_add(2));
            let address = spec_bus_read16(v.bus, begin.wrapping_add(1));
            match ins.mode {
                AddressingMode::Absolute => spec_hex4(begin) + "  "@ + spec_hex2(opcode) + " "@
                    + spec_hex2(b1) + " "@ + spec_hex2(b2) + " "@ + star + mn + " "@ + "$"@
                    + spec_hex4(addr) + " = "@ + spec_hex2(stored),
                AddressingMode::AbsoluteX => spec_hex4(begin) + "  "@ + spec_hex2(opcode) + " "@
                    + spec_hex2(b1) + " "@ + spec_hex2(b2) + " "@ + star + mn + " "@ + "$"@
                    + spec_hex4(address) + ",X @ "@ + spec_hex4(addr) + " = "@ + spec_hex2(stored),
                AddressingMode::AbsoluteY => spec_hex4(begin) + "  "@ + spec_hex2(opcode) + " "@
                    + spec_hex2(b1) + " "@ + spec_hex2(b2) + " "@ + star + mn + " "@ + "$"@
                    + spec_hex4(address) + ",Y @ "@ + spec_hex4(addr) + " = "@ + spec_hex2(stored),
                AddressingMode::Indirect => spec_hex4(begin) + "  "@ + spec_hex2(opcode) + " "@
                    + spec_hex2(b1) + " "@ + spec_hex2(b2) + " "@ + star + mn + " "@ + "($"@
                    + spec_hex4(address) + ") = "@ + spec_hex4(addr),
                _ => spec_hex4(begin) + "  "@ + spec_hex2(opcode) + " "@ + spec_hex2(b1) + " "@
                    + spec_hex2(b2) + " "@ + star + mn,
            }
        },
        _ => {
            if opcode == 0x0Au8 || opcode == 0x2Au8 || opcode == 0x4Au8 || opcode == 0x6Au8 {
                spec_hex4(begin) + "  "@ + spec_hex2(opcode) + spec_spaces(6) + " "@ + star + mn
                    + " A"@
            } else {
                spec_hex4(begin) + "  "@ + spec_hex2(opcode) + spec_spaces(6) + " "@ + star + mn
            }
        },
    }
}

/// A whole trace line: the disassembly column padded to 47 characters,
/// then the register snapshot `A:.. X:.. Y:.. P:.. SP:..`.
pub open spec fn spec_trace_line(v: CpuView) -> Seq<char> {
    let text = spec_asm(v);
    text + spec_spaces(47 - text.len()) + " A:"@ + spec_hex2(v.a) + " X:"@ + spec_hex2(v.x) + " Y:"@
        + spec_hex2(v.y) + " P:"@ + spec_hex2(spec_status_to_byte(v.status)) + " SP:"@ + spec_hex2(
        v.sp,
    )
}

/// Render the instruction pending at the program counter, with the register
/// snapshot, as one fixed-column uppercase line per `spec_trace_line`.
pub fn trace(cpu: &Cpu) -> (r: String)
    requires
        cpu@.wf(),
    ensures
        r@ == spec_trace_line(cpu@),
{
    let begin = cpu.pc;
    let opcode = cpu.read_byte(begin);
    let ins = instruction(opcode);
    let addr = cpu.get_operand_address(ins.mode, begin.wrapping_add(1));
    let stored = cpu.read_byte(addr);

    let mut line = String::new();
    append_hex4(&mut line, begin);
    line.append("  ");
    match ins.bytes {
        2 => {
            let b1 = cpu.read_byte(begin.wrapping_add(1));
            append_hex2(&mut line, opcode);
            line.append(" ");
            append_hex2(&mut line, b1);
            append_spaces(&mut line, 3);
            line.append(" ");
            line.append(if ins.unofficial {
                "*"
            } else {
                " "
            });
            line.append(mnemonic_text(ins.mnemonic));
            match ins.mode {
                AddressingMode::Immediate => {
                    line.append(" ");
                    line.append("#$");
                    append_hex2(&mut line, stored);
                },
                AddressingMode::ZeroPage => {
                    line.append(" ");
                    line.append("$");
                    append_hex2(&mut line, addr as u8);
                    line.append(" = ");
                    append_hex2(&mut line, stored);
                },
                AddressingMode::ZeroPageX => {
                    line.append(" ");
                    line.append("$");
                    append_hex2(&mut line, b1);
                    line.append(",X @ ");
                    append_hex2(&mut line, addr as u8);
                    line.append(" = ");
                    append_hex2(&mut line, stored);
                },
                AddressingMode::ZeroPageY => {
                    line.append(" ");
                    line.append("$");
                    append_hex2(&mut line, b1);
                    line.append(",Y @ ");
                    append_hex2(&mut line, addr as u8);
                    line.append(" = ");
                    append_hex2(&mut line, stored);
                },
                AddressingMode::IndirectX => {
                    line.append(" ");
                    line.append("($");
                    append_hex2(&mut line, b1);
                    line.append(",X) @ ");
                    append_hex2(&mut line, b1.wrapping_add(cpu.x));
                    line.append(" = ");
                    append_hex4(&mut line, addr);
                    line.append(" = ");
                    append_hex2(&mut line, stored);
                },
                AddressingMode::IndirectY => {
                    line.append(" ");
                    line.append("($");
                    append_hex2(&mut line, b1);
                    line.append("),Y = ");
                    append_hex4(&mut line, addr.wrapping_sub(cpu.y as u16));
                    line.append(" @ ");
                    append_hex4(&mut line, addr);
                    line.append(" = ");
                    append_hex2(&mut line, stored);
                },
                AddressingMode::Relative => {
                    line.append(" ");
                    line.append("$");
                    append_hex4(&mut line, addr.wrapping_add(1));
                },
                _ => {},
            }
        },
        3 => {
            let b1 = cpu.read_byte(begin.wrapping_add(1));
            let b2 = cpu.read_byte(begin.wrapping_add(2));
            let address = cpu.read_word(begin.wrapping_add(1));
            append_hex2(&mut line, opcode);
            line.append(" ");
            append_hex2(&mut line, b1);
            line.append(" ");
            append_hex2(&mut line, b2);
            line.append(" ");
            line.append(if ins.unofficial {
                "*"
            } else {
                " "
            });
            line.append(mnemonic_text(ins.mnemonic));
            match ins.mode {
                AddressingMode::Absolute => {
                    line.append(" ");
                    line.append("$");
                    append_hex4(&mut line, addr);
                    line.append(" = ");
                    append_hex2(&mut line, stored);
                },
                AddressingMode::AbsoluteX => {
                    line.append(" ");
                    line.append("$");
                    append_hex4(&mut line, address);
                    line.append(",X @ ");
                    append_hex4(&mut line, addr);
                    line.append(" = ");
                    append_hex2(&mut line, stored);
                },
                AddressingMode::AbsoluteY => {
                    line.append(" ");
                    line.append("$");
                    append_hex4(&mut line, address);
                    line.append(",Y @ ");
                    append_hex4(&mut line, addr);
                    line.append(" = ");
                    append_hex2(&mut line, stored);
                },
                AddressingMode::Indirect => {
                    line.append(" ");
                    line.append("($");
                    append_hex4(&mut line, address);
                    line.append(") = ");
                    append_hex4(&mut line, addr);
                },
                _ => {},
            }
        },
        _ => {
            append_hex2(&mut line, opcode);
            append_spaces(&mut line, 6);
            line.append(" ");
            line.append(if ins.unofficial {
                "*"
            } else {
                " "
            });
            line.append(mnemonic_text(ins.mnemonic));
            if opcode == 0x0A || opcode == 0x2A || opcode == 0x4A || opcode == 0x6A {
                line.append(" A");
            }
        },
    }
    proof {
        assert(line@ =~= spec_asm(cpu@));
    }
    let cur = line.as_str().unicode_len();
    let pad = if cur >= 47 {
        0
    } else {
        47 - cur
    };
    append_spaces(&mut line, pad);
    line.append(" A:");
    append_hex2(&mut line, cpu.a);
    line.append(" X:");
    append_hex2(&mut line, cpu.x);
    line.append(" Y:");
    append_hex2(&mut line, cpu.y);
    line.append(" P:");
    append_hex2(&mut line, cpu.status.to_byte());
    line.append(" SP:");
    append_hex2(&mut line, cpu.sp);
    proof {
        assert(line@ =~= spec_trace_line(cpu@));
    }
    line
}

} // verus!

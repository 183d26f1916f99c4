use cozynes::bus::Bus;
use cozynes::cpu::Cpu;
use cozynes::rom::Rom;
use cozynes::trace::trace;

fn cpu_with_program(program: &[u8]) -> Cpu {
    let mut raw = vec![0x4E, 0x45, 0x53, 0x1A, 1, 0, 0, 0];
    raw.resize(16, 0);
    let mut prg = vec![0u8; 16384];
    prg[..program.len()].copy_from_slice(program);
    prg[0x3FFC] = 0x00;
    prg[0x3FFD] = 0x80;
    raw.extend_from_slice(&prg);
    Cpu::new(Bus::new(Rom::new(&raw).unwrap()))
}

#[test]
fn golden_trace_for_a_short_program() {
    // LDA #$01; STA $0200; LDX #$05; BRK.
    let mut cpu = cpu_with_program(&[0xA9, 0x01, 0x8D, 0x00, 0x02, 0xA2, 0x05, 0x00]);
    let mut lines = Vec::new();
    while cpu.running {
        lines.push(trace(&cpu));
        cpu.step().unwrap();
    }
    let expected = [
        "8000  A9 01     LDA #$01                        A:00 X:00 Y:00 P:24 SP:FD",
        "8002  8D 00 02  STA $0200 = 00                  A:01 X:00 Y:00 P:24 SP:FD",
        "8005  A2 05     LDX #$05                        A:01 X:00 Y:00 P:24 SP:FD",
        "8007  00        BRK                             A:01 X:05 Y:00 P:24 SP:FD",
    ];
    assert_eq!(lines.len(), expected.len());
    for (got, want) in lines.iter().zip(expected.iter()) {
        assert_eq!(got, want);
    }
}

#[test]
fn trace_lines_have_fixed_columns() {
    let cpu = cpu_with_program(&[0xA9, 0x01]);
    let line = trace(&cpu);
    assert_eq!(line.len(), 73);
    assert_eq!(&line[0..4], "8000");
    assert_eq!(&line[47..], " A:00 X:00 Y:00 P:24 SP:FD");
}

#[test]
fn trace_accumulator_operand() {
    // 0x4A is LSR on the accumulator.
    let cpu = cpu_with_program(&[0x4A]);
    let line = trace(&cpu);
    assert!(line.starts_with("8000  4A        LSR A"));
}

#[test]
fn trace_zero_page_shows_address_and_value() {
    let mut cpu = cpu_with_program(&[0xA5, 0x10]);
    cpu.write_byte(0x0010, 0xAB).unwrap();
    let line = trace(&cpu);
    assert!(line.starts_with("8000  A5 10     LDA $10 = AB"));
}

#[test]
fn trace_zero_page_x_shows_the_indexed_cell() {
    let mut cpu = cpu_with_program(&[0xB5, 0x20]);
    cpu.x = 0x05;
    cpu.write_byte(0x0025, 0x3C).unwrap();
    let line = trace(&cpu);
    assert!(line.starts_with("8000  B5 20     LDA $20,X @ 25 = 3C"));
}

#[test]
fn trace_indirect_x_shows_pointer_resolution() {
    let mut cpu = cpu_with_program(&[0xA1, 0x80]);
    cpu.x = 0x02;
    cpu.write_byte(0x0082, 0x00).unwrap();
    cpu.write_byte(0x0083, 0x03).unwrap();
    cpu.write_byte(0x0300, 0x5D).unwrap();
    let line = trace(&cpu);
    assert!(line.starts_with("8000  A1 80     LDA ($80,X) @ 82 = 0300 = 5D"), "{line}");
}

#[test]
fn trace_indirect_y_shows_base_and_final_address() {
    let mut cpu = cpu_with_program(&[0xB1, 0x33]);
    cpu.y = 0x10;
    cpu.write_byte(0x0033, 0x00).unwrap();
    cpu.write_byte(0x0034, 0x04).unwrap();
    cpu.write_byte(0x0410, 0x77).unwrap();
    let line = trace(&cpu);
    assert!(line.starts_with("8000  B1 33     LDA ($33),Y = 0400 @ 0410 = 77"), "{line}");
}

#[test]
fn trace_relative_branch_shows_the_target() {
    let cpu = cpu_with_program(&[0xD0, 0x05]);
    let line = trace(&cpu);
    assert!(line.starts_with("8000  D0 05     BNE $8007"), "{line}");
}

#[test]
fn trace_absolute_indexed_shows_base_and_resolved() {
    let mut cpu = cpu_with_program(&[0xBD, 0x00, 0x10]);
    cpu.x = 0x02;
    cpu.write_byte(0x1002, 0x9F).unwrap();
    let line = trace(&cpu);
    assert!(line.starts_with("8000  BD 00 10  LDA $1000,X @ 1002 = 9F"), "{line}");
}

#[test]
fn trace_indirect_jmp_shows_the_resolved_pointer() {
    let mut cpu = cpu_with_program(&[0x6C, 0xFE, 0x10]);
    cpu.write_byte(0x10FE, 0x34).unwrap();
    cpu.write_byte(0x10FF, 0x12).unwrap();
    let line = trace(&cpu);
    assert!(line.starts_with("8000  6C FE 10  JMP ($10FE) = 1234"), "{line}");
}

#[test]
fn trace_marks_unofficial_opcodes_with_a_star() {
    let mut cpu = cpu_with_program(&[0xA7, 0x10]);
    cpu.write_byte(0x0010, 0x42).unwrap();
    let line = trace(&cpu);
    assert!(line.starts_with("8000  A7 10    *LAX $10 = 42"), "{line}");
}

#[test]
fn trace_unofficial_nop_keeps_its_operand_bytes() {
    let cpu = cpu_with_program(&[0x04, 0x33]);
    let line = trace(&cpu);
    assert!(line.starts_with("8000  04 33    *NOP $33 = 00"), "{line}");
}

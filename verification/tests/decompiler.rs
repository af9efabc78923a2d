use sbpf_tools::binary::sbpf::Opcode;
use sbpf_tools::binary::SbpfBinary;
use sbpf_tools::decompiler::blocks::find_block_starts;
use sbpf_tools::decompiler::decompile;
use sbpf_tools::decompiler::disasm::{
    disassemble, format_comment, format_operands, opcode_to_mnemonic,
};
use sbpf_tools::decompiler::lifter::{
    calculate_jump_target, lift_instruction, lift_to_ir, IRInstruction,
};
use sbpf_tools::decompiler::pseudocode::{generate_instruction_code, generate_pseudocode};
use sbpf_tools::instruction::{Instruction, InstructionDecoder};

const HEADER: &str =
    "// Decompiled SBPF Program\n// Generated pseudocode\n\nfn entry() -> Result<(), Error> {\n";

fn inst(address: u64, opcode: Opcode, dst_reg: u8, src_reg: u8, off: i16, imm: i64) -> Instruction {
    Instruction { address, opcode, dst_reg, src_reg, imm, off, size: 8 }
}

fn raw(bytecode: Vec<u8>) -> SbpfBinary {
    SbpfBinary { bytecode, entry_point: 0, version: None, metadata: Vec::new() }
}

fn branchy_program() -> Vec<u8> {
    vec![
        0xf3, 0x21, 0, 0, 15, 0, 0, 0, // jeq r1, r2 -> 0x10
        0xf0, 0x01, 0, 0, 42, 0, 0, 0, // mov r1, 42
        0xff, 0x00, 0, 0, 0, 0, 0, 0, // exit
    ]
}

#[test]
fn unconditional_jump_target() {
    let ja = inst(0, Opcode::Ja, 0, 0, 0, 2);
    assert_eq!(calculate_jump_target(&ja), Some(3));
}

#[test]
fn jump_targets_by_opcode() {
    for op in [
        Opcode::Ja,
        Opcode::Jeq,
        Opcode::Jne,
        Opcode::Jgt,
        Opcode::Jge,
        Opcode::Jlt,
        Opcode::Jle,
    ] {
        assert_eq!(calculate_jump_target(&inst(8, op, 0, 0, 0, 7)), Some(16));
    }
    for op in [
        Opcode::Jset,
        Opcode::Jsgt,
        Opcode::Jsge,
        Opcode::Jslt,
        Opcode::Jsle,
        Opcode::Call,
        Opcode::Exit,
        Opcode::Mov,
        Opcode::Ldx,
        Opcode::Unknown(3),
    ] {
        assert_eq!(calculate_jump_target(&inst(8, op, 0, 0, 0, 7)), None);
    }
}

#[test]
fn lift_loads_and_stores() {
    let load = lift_instruction(&inst(0, Opcode::Ldx, 1, 2, -8, 0));
    assert!(matches!(load, IRInstruction::Load { dst: 1, src: 2, offset: -8 }));
    let store = lift_instruction(&inst(0, Opcode::Stx, 3, 4, 16, 0));
    assert!(matches!(store, IRInstruction::Store { dst: 3, src: 4, offset: 16 }));
}

#[test]
fn lift_arithmetic_and_logic() {
    let names = [
        (Opcode::Add, "add"),
        (Opcode::Sub, "sub"),
        (Opcode::Mul, "mul"),
        (Opcode::Div, "div"),
        (Opcode::Mod, "mod"),
        (Opcode::Mov, "mov"),
    ];
    for (op, name) in names {
        match lift_instruction(&inst(0, op, 1, 2, 0, 5)) {
            IRInstruction::Arithmetic { op, dst, src, imm } => {
                assert_eq!(op, name);
                assert_eq!(dst, 1);
                assert_eq!(src, 2);
                assert_eq!(imm, Some(5));
            }
            other => panic!("not arithmetic: {:?}", other),
        }
    }
    let names = [
        (Opcode::Or, "or"),
        (Opcode::And, "and"),
        (Opcode::Xor, "xor"),
        (Opcode::Lsh, "lsh"),
        (Opcode::Rsh, "rsh"),
    ];
    for (op, name) in names {
        match lift_instruction(&inst(0, op, 1, 2, 0, -5)) {
            IRInstruction::Logic { op, dst, src, imm } => {
                assert_eq!(op, name);
                assert_eq!(dst, 1);
                assert_eq!(src, 2);
                assert_eq!(imm, Some(-5));
            }
            other => panic!("not logic: {:?}", other),
        }
    }
}

#[test]
fn lift_folds_zero_immediate() {
    assert!(matches!(
        lift_instruction(&inst(0, Opcode::Add, 1, 2, 0, 0)),
        IRInstruction::Arithmetic { imm: None, .. }
    ));
    assert!(matches!(
        lift_instruction(&inst(0, Opcode::Xor, 1, 2, 0, 0)),
        IRInstruction::Logic { imm: None, .. }
    ));
}

#[test]
fn lift_calls_and_exit() {
    assert!(matches!(
        lift_instruction(&inst(0, Opcode::Call, 0, 0, 0, 7)),
        IRInstruction::Call { target: 7, is_syscall: true }
    ));
    assert!(matches!(
        lift_instruction(&inst(0, Opcode::Call, 0, 0, 0, 0)),
        IRInstruction::Call { target: 0, is_syscall: false }
    ));
    assert!(matches!(
        lift_instruction(&inst(0, Opcode::Call, 0, 0, 0, -4)),
        IRInstruction::Call { target: -4, is_syscall: false }
    ));
    assert!(matches!(lift_instruction(&inst(0, Opcode::Exit, 0, 0, 0, 0)), IRInstruction::Exit));
}

#[test]
fn lift_jumps() {
    let conds = [
        (Opcode::Jeq, "=="),
        (Opcode::Jne, "!="),
        (Opcode::Jgt, ">"),
        (Opcode::Jge, ">="),
        (Opcode::Jlt, "<"),
        (Opcode::Jle, "<="),
    ];
    for (op, text) in conds {
        match lift_instruction(&inst(8, op, 0, 0, 0, 7)) {
            IRInstruction::Jump { cond, target } => {
                assert_eq!(cond.as_deref(), Some(text));
                assert_eq!(target, 16);
            }
            other => panic!("not a jump: {:?}", other),
        }
    }
    assert!(matches!(
        lift_instruction(&inst(0, Opcode::Ja, 0, 0, 0, 2)),
        IRInstruction::Jump { cond: None, target: 3 }
    ));
}

#[test]
fn lift_degrades_the_rest_to_return() {
    for op in [
        Opcode::Jset,
        Opcode::Jsgt,
        Opcode::Jsge,
        Opcode::Jslt,
        Opcode::Jsle,
        Opcode::LdAbs,
        Opcode::LdInd,
        Opcode::St,
        Opcode::Arsh,
        Opcode::Unknown(9),
    ] {
        assert!(matches!(lift_instruction(&inst(0, op, 1, 2, 3, 4)), IRInstruction::Return));
    }
}

#[test]
fn single_exit_lifts_to_one_exit() {
    let insts = [inst(0, Opcode::Exit, 0, 0, 0, 0)];
    let ir = lift_to_ir(&insts);
    assert_eq!(ir.basic_blocks.len(), 1);
    assert_eq!(ir.basic_blocks[0].address, 0);
    assert_eq!(ir.basic_blocks[0].instructions.len(), 1);
    assert!(matches!(ir.basic_blocks[0].instructions[0], IRInstruction::Exit));
    assert!(ir.basic_blocks[0].successors.is_empty());
    assert_eq!(generate_instruction_code(&ir.basic_blocks[0].instructions[0]), "exit();");
    let text = generate_pseudocode(&ir, &disassemble(&insts));
    assert_eq!(
        text,
        format!("{}    exit();\n}}\n\n// Assembly reference:\n// 0x0: exit r0\n", HEADER)
    );
}

#[test]
fn empty_input_has_no_blocks() {
    let insts = InstructionDecoder::new(None).decode_all(&[]);
    assert_eq!(insts.len(), 0);
    let ir = lift_to_ir(&insts);
    assert_eq!(ir.basic_blocks.len(), 0);
    assert_eq!(ir.functions.len(), 0);
    let text = generate_pseudocode(&ir, &disassemble(&insts));
    assert_eq!(text, format!("{}}}\n\n// Assembly reference:\n", HEADER));
    assert_eq!(decompile(&raw(Vec::new())), text);
    assert_eq!(decompile(&raw(vec![1, 2, 3])), text);
}

#[test]
fn function_record_of_nonempty_program() {
    let insts = [inst(24, Opcode::Mov, 0, 0, 0, 0), inst(32, Opcode::Exit, 0, 0, 0, 0)];
    let ir = lift_to_ir(&insts);
    assert_eq!(ir.functions.len(), 1);
    assert_eq!(ir.functions[0].address, 24);
    assert_eq!(ir.functions[0].name, "entry");
    assert_eq!(ir.functions[0].basic_blocks, vec![0]);
}

#[test]
fn block_starts_are_sorted_and_unique() {
    let insts = InstructionDecoder::new(None).decode_all(&branchy_program());
    assert_eq!(find_block_starts(&insts), vec![0, 8, 16]);
    let looping = [
        inst(0, Opcode::Mov, 0, 0, 0, 0),
        inst(8, Opcode::Ja, 0, 0, 0, -9), // back to 0
        inst(16, Opcode::Jne, 0, 0, 0, 15), // to 32
        inst(24, Opcode::Call, 0, 0, 0, 3),
        inst(32, Opcode::Jeq, 0, 0, 0, -17), // to 16
        inst(40, Opcode::Exit, 0, 0, 0, 0),
    ];
    assert_eq!(find_block_starts(&looping), vec![0, 16, 24, 32, 40]);
    assert_eq!(find_block_starts(&[]), vec![0]);
    assert_eq!(find_block_starts(&[inst(0, Opcode::Add, 0, 0, 0, 0)]), vec![0]);
}

#[test]
fn blocks_of_branchy_program() {
    let insts = InstructionDecoder::new(None).decode_all(&branchy_program());
    let ir = lift_to_ir(&insts);
    assert_eq!(ir.basic_blocks.len(), 3);
    let addresses: Vec<u64> = ir.basic_blocks.iter().map(|b| b.address).collect();
    assert_eq!(addresses, vec![0, 8, 16]);
    assert_eq!(ir.basic_blocks[0].successors, vec![16]);
    assert!(ir.basic_blocks[1].successors.is_empty());
    assert!(ir.basic_blocks[2].successors.is_empty());
    assert!(matches!(
        ir.basic_blocks[0].instructions[..],
        [IRInstruction::Jump { target: 16, .. }]
    ));
    assert!(matches!(ir.basic_blocks[1].instructions[..], [IRInstruction::Arithmetic { .. }]));
    assert!(matches!(ir.basic_blocks[2].instructions[..], [IRInstruction::Exit]));
}

#[test]
fn every_decoded_instruction_lies_in_one_block() {
    let bytes: Vec<u8> = (0..=255u8).chain(0..=255u8).collect();
    let insts = InstructionDecoder::new(None).decode_all(&bytes);
    let starts = find_block_starts(&insts);
    assert_eq!(starts[0], 0);
    assert!(starts.windows(2).all(|w| w[0] < w[1]));
    let end = insts.last().map(|i| i.address + i.size as u64).unwrap();
    for inst in &insts {
        let holding = (0..starts.len())
            .filter(|&k| {
                let hi = if k + 1 < starts.len() { starts[k + 1] } else { end };
                starts[k] <= inst.address && inst.address < hi
            })
            .count();
        assert_eq!(holding, 1);
    }
    let ir = lift_to_ir(&insts);
    let lifted: usize = ir.basic_blocks.iter().map(|b| b.instructions.len()).sum();
    assert_eq!(lifted, insts.len());
}

#[test]
fn instruction_outside_the_stream_lies_in_no_block() {
    let insts = [inst(8, Opcode::Exit, 0, 0, 0, 0), inst(0, Opcode::Exit, 0, 0, 0, 0)];
    let ir = lift_to_ir(&insts);
    assert_eq!(ir.basic_blocks.len(), 1);
    assert_eq!(ir.basic_blocks[0].address, 0);
    assert_eq!(ir.basic_blocks[0].instructions.len(), 1);
}

#[test]
fn block_with_two_jumps_has_two_successors() {
    let insts = [
        inst(0, Opcode::Jeq, 0, 0, 0, 99),
        inst(0, Opcode::Ja, 0, 0, 0, 199),
    ];
    let ir = lift_to_ir(&insts);
    assert_eq!(ir.basic_blocks[0].address, 0);
    assert_eq!(ir.basic_blocks[0].successors, vec![100, 200]);
    let text = generate_pseudocode(&ir, &[]);
    assert!(text.contains("    // Conditional jump\n"));
}

#[test]
fn mnemonics() {
    assert_eq!(opcode_to_mnemonic(Opcode::LdAbs), "ldabs");
    assert_eq!(opcode_to_mnemonic(Opcode::Jsle), "jsle");
    assert_eq!(opcode_to_mnemonic(Opcode::Unknown(0x0a)), "unknown_0a");
    assert_eq!(opcode_to_mnemonic(Opcode::Unknown(0xff)), "unknown_ff");
    for byte in 0..=255u8 {
        let op = Opcode::from_u8(byte);
        assert_eq!(opcode_to_mnemonic(op), format!("{:?}", op).to_lowercase());
    }
}

#[test]
fn operands_by_shape() {
    assert_eq!(format_operands(&inst(0, Opcode::Call, 0, 0, 0, 7)), "syscall_7");
    assert_eq!(format_operands(&inst(0, Opcode::Call, 0, 0, 0, 0)), "0");
    assert_eq!(format_operands(&inst(0, Opcode::Call, 0, 0, 0, -3)), "-3");
    assert_eq!(format_operands(&inst(16, Opcode::Jsgt, 1, 2, 0, 15)), "r1, r2, 0x20");
    assert_eq!(format_operands(&inst(0, Opcode::Ja, 0, 0, 0, 2)), "r0, r0, 0x3");
    assert_eq!(
        format_operands(&inst(0, Opcode::Jeq, 3, 4, 0, -2)),
        "r3, r4, 0xffffffffffffffff"
    );
    assert_eq!(format_operands(&inst(0, Opcode::LdAbs, 1, 2, 3, 44)), "r1, [44]");
    assert_eq!(format_operands(&inst(0, Opcode::LdInd, 1, 2, 3, -44)), "r1, [-44]");
    assert_eq!(format_operands(&inst(0, Opcode::Ldx, 1, 2, 8, 0)), "r1, [r2+8]");
    assert_eq!(format_operands(&inst(0, Opcode::Ldx, 1, 2, -8, 0)), "r1, [r2+-8]");
    assert_eq!(format_operands(&inst(0, Opcode::St, 1, 2, 8, 0)), "[r1+8], r2");
    assert_eq!(format_operands(&inst(0, Opcode::Stx, 10, 9, -16, 0)), "[r10+-16], r9");
    assert_eq!(format_operands(&inst(0, Opcode::Mov, 1, 2, 0, 42)), "r1, 42");
    assert_eq!(format_operands(&inst(0, Opcode::Mov, 1, 2, 0, 0)), "r1, 0");
    assert_eq!(format_operands(&inst(0, Opcode::Exit, 5, 2, 0, 42)), "r5");
    assert_eq!(format_operands(&inst(0, Opcode::Add, 1, 2, 0, 42)), "r1, r2, 42");
    assert_eq!(format_operands(&inst(0, Opcode::Add, 1, 2, 0, 0)), "r1, r2");
    assert_eq!(format_operands(&inst(0, Opcode::Unknown(1), 1, 2, 0, -1)), "r1, r2, -1");
}

#[test]
fn comment_only_for_syscalls() {
    assert_eq!(
        format_comment(&inst(0, Opcode::Call, 0, 0, 0, 7)),
        Some("syscall 7".to_string())
    );
    assert_eq!(format_comment(&inst(0, Opcode::Call, 0, 0, 0, 0)), None);
    assert_eq!(format_comment(&inst(0, Opcode::Mov, 0, 0, 0, 7)), None);
}

#[test]
fn disassembly_keeps_order_and_addresses() {
    let insts = InstructionDecoder::new(None).decode_all(&branchy_program());
    let lines = disassemble(&insts);
    assert_eq!(lines.len(), 3);
    assert_eq!(lines[0].address, 0);
    assert_eq!(lines[0].mnemonic, "jeq");
    assert_eq!(lines[0].operands, "r1, r2, 0x10");
    assert_eq!(lines[0].comment, None);
    assert_eq!(lines[1].address, 8);
    assert_eq!(lines[1].mnemonic, "mov");
    assert_eq!(lines[1].operands, "r1, 42");
    assert_eq!(lines[2].address, 16);
    assert_eq!(lines[2].mnemonic, "exit");
    assert_eq!(lines[2].operands, "r0");
    assert_eq!(disassemble(&[]).len(), 0);
    let call = disassemble(&[inst(0, Opcode::Call, 0, 0, 0, 12)]);
    assert_eq!(call[0].comment, Some("syscall 12".to_string()));
}

#[test]
fn code_of_each_ir_instruction() {
    let code = generate_instruction_code;
    assert_eq!(
        code(&IRInstruction::Load { dst: 1, src: 2, offset: 16 }),
        "let r1 = *((r2 as *const u64).offset(2));"
    );
    assert_eq!(
        code(&IRInstruction::Load { dst: 1, src: 2, offset: -9 }),
        "let r1 = *((r2 as *const u64).offset(-1));"
    );
    assert_eq!(
        code(&IRInstruction::Load { dst: 1, src: 2, offset: -7 }),
        "let r1 = *((r2 as *const u64).offset(0));"
    );
    assert_eq!(
        code(&IRInstruction::Store { dst: 1, src: 2, offset: i16::MIN }),
        "*((r1 as *mut u64).offset(-4096)) = r2;"
    );
    assert_eq!(
        code(&IRInstruction::Store { dst: 10, src: 0, offset: 7 }),
        "*((r10 as *mut u64).offset(0)) = r0;"
    );
    assert_eq!(
        code(&IRInstruction::Arithmetic { op: "add".to_string(), dst: 1, src: 2, imm: Some(-3) }),
        "r1 = r2 add -3;"
    );
    assert_eq!(
        code(&IRInstruction::Arithmetic { op: "mov".to_string(), dst: 1, src: 2, imm: None }),
        "r1 = r2 mov r2;"
    );
    assert_eq!(
        code(&IRInstruction::Logic { op: "xor".to_string(), dst: 3, src: 4, imm: Some(255) }),
        "r3 = r4 xor 255;"
    );
    assert_eq!(
        code(&IRInstruction::Logic { op: "or".to_string(), dst: 3, src: 4, imm: None }),
        "r3 = r4 or r4;"
    );
    assert_eq!(
        code(&IRInstruction::Jump { cond: Some(">=".to_string()), target: 255 }),
        "if r0 >= r0 { goto 0xff; }"
    );
    assert_eq!(code(&IRInstruction::Jump { cond: None, target: 3 }), "goto 0x3;");
    assert_eq!(code(&IRInstruction::Call { target: 7, is_syscall: true }), "syscall(7);");
    assert_eq!(code(&IRInstruction::Call { target: 4096, is_syscall: false }), "call(0x1000);");
    assert_eq!(
        code(&IRInstruction::Call { target: -1, is_syscall: false }),
        "call(0xffffffffffffffff);"
    );
    assert_eq!(code(&IRInstruction::Return), "return;");
    assert_eq!(code(&IRInstruction::Exit), "exit();");
}

#[test]
fn pseudocode_of_branchy_program() {
    let text = decompile(&raw(branchy_program()));
    let expected = format!(
        "{}{}",
        HEADER,
        concat_lines(&[
            "    if r0 == r0 { goto 0x10; }",
            "    // Jump to 0x10",
            "",
            "    // Basic block at 0x8",
            "    r1 = r0 mov 42;",
            "",
            "    // Basic block at 0x10",
            "    exit();",
            "}",
            "",
            "// Assembly reference:",
            "// 0x0: jeq r1, r2, 0x10",
            "// 0x8: mov r1, 42",
            "// 0x10: exit r0",
        ])
    );
    assert_eq!(text, expected);
}

fn concat_lines(lines: &[&str]) -> String {
    let mut s = String::new();
    for line in lines {
        s.push_str(line);
        s.push('\n');
    }
    s
}

#[test]
fn assembly_reference_is_cut_at_twenty() {
    let twenty: Vec<u8> = (0..20).flat_map(|_| vec![0x50u8, 0x21, 0, 0, 0, 0, 0, 0]).collect();
    let text = decompile(&raw(twenty.clone()));
    assert_eq!(text.matches("\n// 0x").count(), 20);
    assert!(!text.contains("more instructions"));
    assert!(text.ends_with("// 0x98: add r1, r2\n"));

    let mut more = twenty;
    more.extend_from_slice(&[0x50u8, 0x21, 0, 0, 0, 0, 0, 0]);
    more.extend_from_slice(&[0x50u8, 0x21, 0, 0, 0, 0, 0, 0]);
    more.extend_from_slice(&[0x50u8, 0x21, 0, 0, 0, 0, 0, 0]);
    let text = decompile(&raw(more));
    assert_eq!(text.matches("\n// 0x").count(), 20);
    assert!(text.ends_with("// 0x98: add r1, r2\n// ... (3 more instructions)\n"));
}

#[test]
fn decompiling_twice_gives_the_same_text() {
    let bytes: Vec<u8> = (0..=255u8).rev().collect();
    let first = decompile(&raw(bytes.clone()));
    let mut other = raw(bytes);
    other.entry_point = 77;
    let second = decompile(&other);
    assert_eq!(first, second);
    assert_eq!(first.as_bytes(), second.as_bytes());
}

use sbpf_tools::analyzer::instructions::{tally_categories, tally_opcodes};
use sbpf_tools::analyzer::syscalls::syscall_name;
use sbpf_tools::analyzer::{analyze, instructions, metadata, syscalls};
use sbpf_tools::binary::sbpf::Opcode;
use sbpf_tools::binary::{MetadataSection, SbpfBinary, SbpfVersion};
use sbpf_tools::instruction::{Instruction, InstructionCategory, InstructionDecoder};
use sbpf_tools::output::json::{dec_string, hex_string, AnalysisJson};
use sbpf_tools::output::{OutputFormatter, TextFormatter};

fn inst(address: u64, opcode: Opcode, imm: i64) -> Instruction {
    Instruction { address, opcode, dst_reg: 0, src_reg: 0, imm, off: 0, size: 8 }
}

fn sample() -> Vec<Instruction> {
    vec![
        inst(0, Opcode::Mov, 1),
        inst(8, Opcode::Call, 3),
        inst(16, Opcode::Jeq, 15), // to 32
        inst(24, Opcode::Call, 3),
        inst(32, Opcode::Jsgt, -17), // to 16
        inst(40, Opcode::Call, 1),
        inst(48, Opcode::Ja, -17), // to 32
        inst(56, Opcode::Call, 0),
        inst(64, Opcode::Xor, 0),
        inst(72, Opcode::Mov, 2),
        inst(80, Opcode::Unknown(7), 0),
        inst(88, Opcode::Exit, 0),
    ]
}

fn sample_bytes() -> Vec<u8> {
    vec![
        0xf0, 0x01, 0, 0, 1, 0, 0, 0, // mov
        0xfe, 0x00, 0, 0, 3, 0, 0, 0, // call 3
        0xfe, 0x00, 0, 0, 3, 0, 0, 0, // call 3
        0xfe, 0x00, 0, 0, 1, 0, 0, 0, // call 1
        0xf2, 0x00, 0, 0, 7, 0, 0, 0, // ja -> 0x28
        0xff, 0x00, 0, 0, 0, 0, 0, 0, // exit
    ]
}

#[test]
fn instruction_statistics() {
    let stats = instructions::analyze(&sample());
    assert_eq!(stats.total, 12);
    assert_eq!(
        stats.by_category,
        vec![
            (InstructionCategory::Arithmetic, 2),
            (InstructionCategory::ControlFlow, 8),
            (InstructionCategory::Logic, 1),
            (InstructionCategory::Misc, 1),
        ]
    );
    let expected: Vec<(String, usize)> = [
        ("Mov", 2usize),
        ("Call", 4),
        ("Jeq", 1),
        ("Jsgt", 1),
        ("Ja", 1),
        ("Xor", 1),
        ("Unknown(7)", 1),
        ("Exit", 1),
    ]
    .iter()
    .map(|(name, n)| (name.to_string(), *n))
    .collect();
    assert_eq!(stats.by_opcode, expected);
    assert_eq!(stats.control_flow.jumps, 3);
    assert_eq!(stats.control_flow.calls, 4);
    assert_eq!(stats.control_flow.exits, 1);
    assert_eq!(stats.control_flow.jump_targets, vec![16, 32]);
}

#[test]
fn statistics_of_nothing() {
    let stats = instructions::analyze(&[]);
    assert_eq!(stats.total, 0);
    assert!(stats.by_category.is_empty());
    assert!(stats.by_opcode.is_empty());
    assert_eq!(stats.control_flow.jumps, 0);
    assert_eq!(stats.control_flow.calls, 0);
    assert_eq!(stats.control_flow.exits, 0);
    assert!(stats.control_flow.jump_targets.is_empty());
}

#[test]
fn tallies_keep_first_occurrence_order() {
    let insts = sample();
    assert_eq!(
        tally_opcodes(&insts),
        vec![
            (Opcode::Mov, 2),
            (Opcode::Call, 4),
            (Opcode::Jeq, 1),
            (Opcode::Jsgt, 1),
            (Opcode::Ja, 1),
            (Opcode::Xor, 1),
            (Opcode::Unknown(7), 1),
            (Opcode::Exit, 1),
        ]
    );
    let counted: usize = tally_categories(&insts).iter().map(|e| e.1).sum();
    assert_eq!(counted, insts.len());
}

#[test]
fn syscall_usage() {
    let info = syscalls::analyze(&sample());
    assert_eq!(info.total, 3);
    assert_eq!(info.syscalls, vec![1, 3]);
    assert_eq!(info.frequency.len(), 2);
    assert_eq!(info.frequency.get(&3), Some(&2));
    assert_eq!(info.frequency.get(&1), Some(&1));
    assert_eq!(info.frequency.get(&0), None);
    let none = syscalls::analyze(&[inst(0, Opcode::Call, 0), inst(8, Opcode::Mov, 9)]);
    assert_eq!(none.total, 0);
    assert!(none.syscalls.is_empty());
    assert!(none.frequency.is_empty());
}

#[test]
fn syscall_names() {
    assert_eq!(syscall_name(0), Some("sol_log"));
    assert_eq!(syscall_name(1), Some("sol_invoke"));
    assert_eq!(syscall_name(2), Some("sol_invoke_signed"));
    assert_eq!(syscall_name(3), Some("sol_create_account"));
    assert_eq!(syscall_name(4), Some("sol_assign"));
    assert_eq!(syscall_name(5), Some("sol_transfer"));
    assert_eq!(syscall_name(6), Some("sol_get_account_data_len"));
    assert_eq!(syscall_name(7), Some("sol_get_account_data"));
    assert_eq!(syscall_name(8), Some("sol_set_account_data"));
    assert_eq!(syscall_name(9), Some("sol_get_clock_sysvar"));
    assert_eq!(syscall_name(10), Some("sol_get_rent_sysvar"));
    assert_eq!(syscall_name(11), Some("sol_get_clock_sysvar"));
    assert_eq!(syscall_name(12), Some("sol_memcpy"));
    assert_eq!(syscall_name(13), Some("sol_memcmp"));
    assert_eq!(syscall_name(14), Some("sol_memset"));
    assert_eq!(syscall_name(15), Some("sol_invoke_signed"));
    assert_eq!(syscall_name(16), None);
    assert_eq!(syscall_name(u64::MAX), None);
}

#[test]
fn metadata_of_a_program() {
    let binary = SbpfBinary {
        bytecode: vec![0u8; 20],
        entry_point: 0x1000,
        version: Some(SbpfVersion::V2),
        metadata: vec![MetadataSection { name: ".rodata".to_string(), data: vec![1, 2] }],
    };
    let insts = InstructionDecoder::new(binary.version).decode_all(&binary.bytecode);
    let m = metadata::extract(&binary, &insts);
    assert_eq!(m.program_size, 20);
    assert_eq!(m.entry_point, 0x1000);
    assert_eq!(m.instruction_count, 2);
    assert_eq!(m.version, Some(SbpfVersion::V2));
    assert_eq!(m.metadata_sections, 1);
}

fn sample_binary() -> SbpfBinary {
    SbpfBinary {
        bytecode: sample_bytes(),
        entry_point: 0x1000,
        version: Some(SbpfVersion::V1),
        metadata: Vec::new(),
    }
}

#[test]
fn analysis_of_a_program() {
    let analysis = analyze(&sample_binary());
    assert_eq!(analysis.metadata.program_size, 48);
    assert_eq!(analysis.metadata.instruction_count, 6);
    assert_eq!(analysis.instruction_stats.total, 6);
    assert_eq!(analysis.instruction_stats.control_flow.jumps, 1);
    assert_eq!(analysis.instruction_stats.control_flow.calls, 3);
    assert_eq!(analysis.instruction_stats.control_flow.exits, 1);
    assert_eq!(analysis.instruction_stats.control_flow.jump_targets, vec![40]);
    assert_eq!(analysis.syscall_info.total, 3);
    assert_eq!(analysis.syscall_info.syscalls, vec![1, 3]);
}

#[test]
fn text_report() {
    let analysis = analyze(&sample_binary());
    let text = TextFormatter.format(&analysis);
    let expected = "=== SBPF Binary Analysis ===\n\
\n\
## Metadata\n\
Program Size: 48 bytes\n\
Entry Point: 0x1000\n\
Instruction Count: 6\n\
SBPF Version: V1\n\
Metadata Sections: 0\n\
\n\
## Instruction Statistics\n\
Total Instructions: 6\n\
\n\
By Category:\n\
\x20 Arithmetic: 1\n\
\x20 ControlFlow: 5\n\
\n\
By Opcode:\n\
\x20 Call: 3\n\
\x20 Exit: 1\n\
\x20 Ja: 1\n\
\x20 Mov: 1\n\
\n\
## Control Flow\n\
Jumps: 1\n\
Calls: 3\n\
Exits: 1\n\
Unique Jump Targets: 1\n\
\n\
## Syscalls\n\
Total Syscalls: 3\n\
Syscall Usage:\n\
\x20 sol_invoke (1): 1\n\
\x20 sol_create_account (3): 2\n\
\n";
    assert_eq!(text, expected);
}

#[test]
fn text_report_of_empty_program() {
    let binary =
        SbpfBinary { bytecode: Vec::new(), entry_point: 0, version: None, metadata: Vec::new() };
    let text = TextFormatter.format(&analyze(&binary));
    let expected = "=== SBPF Binary Analysis ===\n\
\n\
## Metadata\n\
Program Size: 0 bytes\n\
Entry Point: 0x0\n\
Instruction Count: 0\n\
SBPF Version: Unknown\n\
Metadata Sections: 0\n\
\n\
## Instruction Statistics\n\
Total Instructions: 0\n\
\n\
By Category:\n\
\n\
By Opcode:\n\
\n\
## Control Flow\n\
Jumps: 0\n\
Calls: 0\n\
Exits: 0\n\
Unique Jump Targets: 0\n\
\n\
## Syscalls\n\
Total Syscalls: 0\n\
\n";
    assert_eq!(text, expected);
}

#[test]
fn text_report_lists_ten_opcodes_and_unnamed_syscalls() {
    let mut insts = Vec::new();
    let ops = [
        Opcode::LdAbs,
        Opcode::LdInd,
        Opcode::Ldx,
        Opcode::St,
        Opcode::Stx,
        Opcode::Add,
        Opcode::Sub,
        Opcode::Mul,
        Opcode::Div,
        Opcode::Or,
        Opcode::And,
        Opcode::Lsh,
    ];
    for (i, op) in ops.iter().enumerate() {
        insts.push(inst(8 * i as u64, *op, 0));
    }
    insts.push(inst(96, Opcode::Call, 99));
    let mut analysis = analyze(&sample_binary());
    analysis.instruction_stats = instructions::analyze(&insts);
    analysis.syscall_info = syscalls::analyze(&insts);
    let text = TextFormatter.format(&analysis);
    let by_opcode = text.split("By Opcode:\n").nth(1).unwrap();
    let listed = by_opcode.split("\n\n").next().unwrap();
    assert_eq!(listed.lines().count(), 10);
    assert_eq!(listed.lines().next(), Some("  Call: 1"));
    assert!(!listed.contains("LdAbs"));
    assert!(!listed.contains("LdInd"));
    assert!(!listed.contains("Ldx"));
    assert!(text.contains("Syscall Usage:\n  unknown (99): 1\n"));
}

#[test]
fn json_record() {
    let analysis = analyze(&sample_binary());
    let json = AnalysisJson::from(&analysis);
    assert_eq!(json.metadata.program_size, 48);
    assert_eq!(json.metadata.entry_point, "0x1000");
    assert_eq!(json.metadata.instruction_count, 6);
    assert_eq!(json.metadata.version, Some("V1".to_string()));
    assert_eq!(json.metadata.metadata_sections, 0);
    assert_eq!(json.instructions.total, 6);
    assert_eq!(
        json.instructions.by_category,
        vec![("Arithmetic".to_string(), 1), ("ControlFlow".to_string(), 5)]
    );
    assert_eq!(
        json.instructions.by_opcode,
        vec![
            ("Mov".to_string(), 1),
            ("Call".to_string(), 3),
            ("Ja".to_string(), 1),
            ("Exit".to_string(), 1)
        ]
    );
    assert_eq!(json.instructions.control_flow.jumps, 1);
    assert_eq!(json.instructions.control_flow.calls, 3);
    assert_eq!(json.instructions.control_flow.exits, 1);
    assert_eq!(json.instructions.control_flow.jump_targets, vec!["0x28".to_string()]);
    assert_eq!(json.syscalls.total, 3);
    assert_eq!(json.syscalls.syscalls, vec![1, 3]);
    let mut frequency = json.syscalls.frequency.clone();
    frequency.sort();
    assert_eq!(frequency, vec![("1".to_string(), 1), ("3".to_string(), 2)]);
}

#[test]
fn json_record_without_version() {
    let mut binary = sample_binary();
    binary.version = None;
    binary.entry_point = 0;
    let json = AnalysisJson::from(&analyze(&binary));
    assert_eq!(json.metadata.version, None);
    assert_eq!(json.metadata.entry_point, "0x0");
}

#[test]
fn record_strings() {
    assert_eq!(hex_string(0), "0x0");
    assert_eq!(hex_string(255), "0xff");
    assert_eq!(dec_string(0), "0");
    assert_eq!(dec_string(1234), "1234");
}

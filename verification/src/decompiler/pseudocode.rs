//! Rendering of the lifted program as pseudocode, followed by an assembly
//! reference listing.

use crate::decompiler::disasm::{DisassembledInstruction, ListingLine};
use crate::decompiler::lifter::{BasicBlock, BlockModel, IRInstruction, IrModel, IrOp, IR};
use crate::instruction::decoder::{wrap_to_u64, wrap_u64};
use crate::text::{dec_int, dec_nat, hex_nat};
use crate::text::{push_dec_i64, push_dec_u64, push_dec_usize, push_hex_u64};
use vstd::prelude::*;
use vstd::string::StringExecFns;

verus! {

/// How many listing lines the assembly reference shows at most.
pub const REFERENCE_LIMIT: usize = 20;

/// A byte displacement in 8-byte words, rounded toward zero.
pub open spec fn word_offset(offset: i16) -> int {
    if offset >= 0 {
        offset as int / 8
    } else {
        -((-(offset as int)) / 8)
    }
}

/// The two operands and the operator of an arithmetic or logic line.
pub open spec fn binary_op_code(op: Seq<char>, dst: u8, src: u8, imm: Option<i64>) -> Seq<char> {
    let head = "r"@ + dec_nat(dst as nat) + " = r"@ + dec_nat(src as nat) + " "@ + op + " "@;
    match imm {
        Some(v) => head + dec_int(v as int) + ";"@,
        None => head + "r"@ + dec_nat(src as nat) + ";"@,
    }
}

/// The pseudocode line of one lifted instruction.
pub open spec fn instruction_code(op: IrOp) -> Seq<char> {
    match op {
        IrOp::Load { dst, src, offset } => "let r"@ + dec_nat(dst as nat) + " = *((r"@ + dec_nat(
            src as nat,
        ) + " as *const u64).offset("@ + dec_int(word_offset(offset)) + "));"@,
        IrOp::Store { dst, src, offset } => "*((r"@ + dec_nat(dst as nat)
            + " as *mut u64).offset("@ + dec_int(word_offset(offset)) + ")) = r"@ + dec_nat(
            src as nat,
        ) + ";"@,
        IrOp::Arithmetic { op, dst, src, imm } => binary_op_code(op, dst, src, imm),
        IrOp::Logic { op, dst, src, imm } => binary_op_code(op, dst, src, imm),
        IrOp::Jump { cond, target } => match cond {
            Some(c) => "if r0 "@ + c + " r0 { goto 0x"@ + hex_nat(target as nat) + "; }"@,
            None => "goto 0x"@ + hex_nat(target as nat) + ";"@,
        },
        IrOp::Call { target, is_syscall } => if is_syscall {
            "syscall("@ + dec_int(target as int) + ");"@
        } else {
            "call(0x"@ + hex_nat(wrap_u64(target as int) as nat) + ");"@
        },
        IrOp::Return => "return;"@,
        IrOp::Exit => "exit();"@,
    }
}

/// The line of one lifted instruction, indented.
pub open spec fn code_line(op: IrOp) -> Seq<char> {
    "    "@ + instruction_code(op) + "\n"@
}

/// The indented lines of the first `n` instructions of a block.
pub open spec fn lines_text(ops: Seq<IrOp>, n: int) -> Seq<char>
    decreases n,
{
    if n <= 0 {
        Seq::empty()
    } else {
        lines_text(ops, n - 1) + code_line(ops[n - 1])
    }
}

/// The remark that closes a block: the target of its only successor, or a
/// note that it has several; nothing for a block without successors.
pub open spec fn successors_text(successors: Seq<u64>) -> Seq<char> {
    if successors.len() == 0 {
        Seq::empty()
    } else if successors.len() == 1 {
        "    // Jump to 0x"@ + hex_nat(successors[0] as nat) + "\n"@
    } else {
        "    // Conditional jump\n"@
    }
}

/// The text of the block at position `index`: a boundary remark for every
/// block but the first, the block's lines, and its closing remark.
pub open spec fn block_text(block: BlockModel, index: int) -> Seq<char> {
    let header = if index > 0 {
        "\n    // Basic block at 0x"@ + hex_nat(block.address as nat) + "\n"@
    } else {
        Seq::empty()
    };
    header + lines_text(block.instructions, block.instructions.len() as int) + successors_text(
        block.successors,
    )
}

/// The text of the first `n` blocks.
pub open spec fn blocks_text(blocks: Seq<BlockModel>, n: int) -> Seq<char>
    decreases n,
{
    if n <= 0 {
        Seq::empty()
    } else {
        blocks_text(blocks, n - 1) + block_text(blocks[n - 1], n - 1)
    }
}

/// One line of the assembly reference.
pub open spec fn reference_line(line: ListingLine) -> Seq<char> {
    "// 0x"@ + hex_nat(line.address as nat) + ": "@ + line.mnemonic + " "@ + line.operands
        + "\n"@
}

/// The first `n` lines of the assembly reference.
pub open spec fn reference_lines(listing: Seq<ListingLine>, n: int) -> Seq<char>
    decreases n,
{
    if n <= 0 {
        Seq::empty()
    } else {
        reference_lines(listing, n - 1) + reference_line(listing[n - 1])
    }
}

/// The assembly reference: its heading, at most twenty listing lines, and
/// a note of how many more there are when the listing is longer.
pub open spec fn reference_text(listing: Seq<ListingLine>) -> Seq<char> {
    if listing.len() > 20 {
        "// Assembly reference:\n"@ + reference_lines(listing, 20) + "// ... ("@ + dec_nat(
            (listing.len() - 20) as nat,
        ) + " more instructions)\n"@
    } else {
        "// Assembly reference:\n"@ + reference_lines(listing, listing.len() as int)
    }
}

/// The whole document: a two-line heading, the function made of all
/// blocks, and the assembly reference.
pub open spec fn pseudocode_text(ir: IrModel, listing: Seq<ListingLine>) -> Seq<char> {
    "// Decompiled SBPF Program\n"@ + "// Generated pseudocode\n\n"@
        + "fn entry() -> Result<(), Error> {\n"@ + blocks_text(
        ir.basic_blocks,
        ir.basic_blocks.len() as int,
    ) + "}\n\n"@ + reference_text(listing)
}

/// Appends a byte displacement in words, rounded toward zero.
fn push_word_offset(out: &mut String, offset: i16)
    ensures
        final(out)@ == old(out)@ + dec_int(word_offset(offset)),
{
    let wide: i64 = offset as i64;
    let words: i64 = if wide >= 0 {
        wide / 8
    } else {
        -((-wide) / 8)
    };
    push_dec_i64(out, words);
}

/// Appends an arithmetic or logic line.
fn push_binary_op(out: &mut String, op: &String, dst: u8, src: u8, imm: &Option<i64>)
    ensures
        final(out)@ == old(out)@ + binary_op_code(op@, dst, src, *imm),
{
    out.append("r");
    push_dec_u64(out, dst as u64);
    out.append(" = r");
    push_dec_u64(out, src as u64);
    out.append(" ");
    out.append(op.as_str());
    out.append(" ");
    match imm {
        Some(v) => {
            push_dec_i64(out, *v);
        },
        None => {
            out.append("r");
            push_dec_u64(out, src as u64);
        },
    }
    out.append(";");
}

/// The pseudocode line of one lifted instruction.
pub fn generate_instruction_code(inst: &IRInstruction) -> (s: String)
    ensures
        s@ == instruction_code(inst.deep_view()),
{
    let mut s = String::new();
    match inst {
        IRInstruction::Load { dst, src, offset } => {
            s.append("let r");
            push_dec_u64(&mut s, *dst as u64);
            s.append(" = *((r");
            push_dec_u64(&mut s, *src as u64);
            s.append(" as *const u64).offset(");
            push_word_offset(&mut s, *offset);
            s.append("));");
        },
        IRInstruction::Store { dst, src, offset } => {
            s.append("*((r");
            push_dec_u64(&mut s, *dst as u64);
            s.append(" as *mut u64).offset(");
            push_word_offset(&mut s, *offset);
            s.append(")) = r");
            push_dec_u64(&mut s, *src as u64);
            s.append(";");
        },
        IRInstruction::Arithmetic { op, dst, src, imm } => {
            push_binary_op(&mut s, op, *dst, *src, imm);
        },
        IRInstruction::Logic { op, dst, src, imm } => {
            push_binary_op(&mut s, op, *dst, *src, imm);
        },
        IRInstruction::Jump { cond, target } => {
            match cond {
                Some(c) => {
                    s.append("if r0 ");
                    s.append(c.as_str());
                    s.append(" r0 { goto 0x");
                    push_hex_u64(&mut s, *target);
                    s.append("; }");
                },
                None => {
                    s.append("goto 0x");
                    push_hex_u64(&mut s, *target);
                    s.append(";");
                },
            }
        },
        IRInstruction::Call { target, is_syscall } => {
            if *is_syscall {
                s.append("syscall(");
                push_dec_i64(&mut s, *target);
                s.append(");");
            } else {
                s.append("call(0x");
                push_hex_u64(&mut s, wrap_to_u64(*target as i128));
                s.append(");");
            }
        },
        IRInstruction::Return => {
            s.append("return;");
        },
        IRInstruction::Exit => {
            s.append("exit();");
        },
    }
    s
}

/// Appends the indented line of one lifted instruction.
fn push_code_line(out: &mut String, inst: &IRInstruction)
    ensures
        final(out)@ == old(out)@ + code_line(inst.deep_view()),
{
    let code = generate_instruction_code(inst);
    out.append("    ");
    out.append(code.as_str());
    out.append("\n");
}

/// Appends one line of the assembly reference.
fn push_reference_line(out: &mut String, line: &DisassembledInstruction)
    ensures
        final(out)@ == old(out)@ + reference_line(line.deep_view()),
{
    out.append("// 0x");
    push_hex_u64(out, line.address);
    out.append(": ");
    out.append(line.mnemonic.as_str());
    out.append(" ");
    out.append(line.operands.as_str());
    out.append("\n");
}

/// Appends the text of the block at position `index`.
fn push_block(out: &mut String, block: &BasicBlock, index: usize)
    ensures
        final(out)@ == old(out)@ + block_text(block.deep_view(), index as int),
{
    if index > 0 {
        out.append("\n    // Basic block at 0x");
        push_hex_u64(out, block.address);
        out.append("\n");
    }
    let ghost start = out@;
    let ghost ops = block.instructions.deep_view();
    let n: usize = block.instructions.len();
    let mut i: usize = 0;
    while i < n
        invariant
            n == block.instructions@.len(),
            ops == block.instructions.deep_view(),
            0 <= i <= n,
            out@ == start + lines_text(ops, i as int),
        decreases n - i,
    {
        push_code_line(out, &block.instructions[i]);
        i = i + 1;
    }
    if block.successors.len() == 1 {
        out.append("    // Jump to 0x");
        push_hex_u64(out, block.successors[0]);
        out.append("\n");
    } else if block.successors.len() > 1 {
        out.append("    // Conditional jump\n");
    }
}

/// Renders the lifted program and its assembly listing as one document.
pub fn generate_pseudocode(ir: &IR, assembly: &[DisassembledInstruction]) -> (out: String)
    ensures
        out@ == pseudocode_text(ir.deep_view(), assembly.deep_view()),
{
    let mut out = String::new();
    out.append("// Decompiled SBPF Program\n");
    out.append("// Generated pseudocode\n\n");
    out.append("fn entry() -> Result<(), Error> {\n");
    let ghost head = out@;
    let ghost blocks = ir.basic_blocks.deep_view();
    let count: usize = ir.basic_blocks.len();
    let mut idx: usize = 0;
    while idx < count
        invariant
            count == ir.basic_blocks@.len(),
            blocks == ir.basic_blocks.deep_view(),
            0 <= idx <= count,
            out@ == head + blocks_text(blocks, idx as int),
        decreases count - idx,
    {
        push_block(&mut out, &ir.basic_blocks[idx], idx);
        idx = idx + 1;
    }
    out.append("}\n\n");
    let ghost body = out@;
    let ghost listing = assembly.deep_view();
    out.append("// Assembly reference:\n");
    let total: usize = assembly.len();
    let shown: usize = if total > REFERENCE_LIMIT {
        REFERENCE_LIMIT
    } else {
        total
    };
    let mut k: usize = 0;
    while k < shown
        invariant
            total == assembly@.len(),
            listing == assembly.deep_view(),
            shown <= total,
            0 <= k <= shown,
            out@ == body + "// Assembly reference:\n"@ + reference_lines(listing, k as int),
        decreases shown - k,
    {
        push_reference_line(&mut out, &assembly[k]);
        k = k + 1;
    }
    if total > REFERENCE_LIMIT {
        out.append("// ... (");
        push_dec_usize(&mut out, total - REFERENCE_LIMIT);
        out.append(" more instructions)\n");
    }
    out
}

} // verus!

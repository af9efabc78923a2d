//! Assembly listing: a mnemonic and an operand string per instruction.

use crate::binary::sbpf::Opcode;
use crate::instruction::decoder::{branch_target, Instruction};
use crate::text::{dec_int, dec_nat, hex_byte, hex_nat};
use crate::text::{push_dec_i64, push_dec_u64, push_hex_byte, push_hex_u64};
use vstd::prelude::*;
use vstd::string::StringExecFns;

verus! {

/// One line of the assembly listing.
#[derive(Debug, Clone)]
pub struct DisassembledInstruction {
    pub address: u64,
    pub mnemonic: String,
    pub operands: String,
    pub comment: Option<String>,
}

/// What a listing line says, as character sequences.
pub struct ListingLine {
    pub address: u64,
    pub mnemonic: Seq<char>,
    pub operands: Seq<char>,
    pub comment: Option<Seq<char>>,
}

impl DeepView for DisassembledInstruction {
    type V = ListingLine;

    open spec fn deep_view(&self) -> ListingLine {
        ListingLine {
            address: self.address,
            mnemonic: self.mnemonic@,
            operands: self.operands@,
            comment: match self.comment {
                Some(c) => Some(c@),
                None => None,
            },
        }
    }
}

/// The lowercase name of an operation; an unknown opcode byte is named
/// `unknown_` followed by its two hexadecimal digits.
pub open spec fn mnemonic_text(op: Opcode) -> Seq<char> {
    match op {
        Opcode::LdAbs => "ldabs"@,
        Opcode::LdInd => "ldind"@,
        Opcode::Ldx => "ldx"@,
        Opcode::St => "st"@,
        Opcode::Stx => "stx"@,
        Opcode::Add => "add"@,
        Opcode::Sub => "sub"@,
        Opcode::Mul => "mul"@,
        Opcode::Div => "div"@,
        Opcode::Or => "or"@,
        Opcode::And => "and"@,
        Opcode::Lsh => "lsh"@,
        Opcode::Rsh => "rsh"@,
        Opcode::Mod => "mod"@,
        Opcode::Xor => "xor"@,
        Opcode::Mov => "mov"@,
        Opcode::Arsh => "arsh"@,
        Opcode::Ja => "ja"@,
        Opcode::Jeq => "jeq"@,
        Opcode::Jgt => "jgt"@,
        Opcode::Jge => "jge"@,
        Opcode::Jlt => "jlt"@,
        Opcode::Jle => "jle"@,
        Opcode::Jset => "jset"@,
        Opcode::Jne => "jne"@,
        Opcode::Jsgt => "jsgt"@,
        Opcode::Jsge => "jsge"@,
        Opcode::Jslt => "jslt"@,
        Opcode::Jsle => "jsle"@,
        Opcode::Call => "call"@,
        Opcode::Exit => "exit"@,
        Opcode::Unknown(b) => "unknown_"@ + hex_byte(b),
    }
}

/// Whether the operation is one of the twelve jumps, signed compares
/// included.
pub open spec fn is_jump(op: Opcode) -> bool {
    op is Ja || op is Jeq || op is Jgt || op is Jge || op is Jlt || op is Jle || op is Jset
        || op is Jne || op is Jsgt || op is Jsge || op is Jslt || op is Jsle
}

/// The operand string of an instruction. Its shape follows the operation:
/// a call shows its immediate (prefixed `syscall_` for a syscall); a jump
/// shows both registers and the hexadecimal target; loads and stores show
/// a bracketed address; `mov` shows the immediate; `exit` shows one
/// register; anything else shows both registers and a non-zero immediate.
pub open spec fn operands_text(inst: Instruction) -> Seq<char> {
    let dst = dec_nat(inst.dst_reg as nat);
    let src = dec_nat(inst.src_reg as nat);
    let imm = dec_int(inst.imm as int);
    let off = dec_int(inst.off as int);
    if inst.opcode is Call {
        if inst.spec_is_syscall() {
            "syscall_"@ + imm
        } else {
            imm
        }
    } else if is_jump(inst.opcode) {
        "r"@ + dst + ", r"@ + src + ", 0x"@ + hex_nat(
            branch_target(inst.address, inst.imm) as nat,
        )
    } else if inst.opcode is LdAbs || inst.opcode is LdInd {
        "r"@ + dst + ", ["@ + imm + "]"@
    } else if inst.opcode is Ldx {
        "r"@ + dst + ", [r"@ + src + "+"@ + off + "]"@
    } else if inst.opcode is St || inst.opcode is Stx {
        "[r"@ + dst + "+"@ + off + "], r"@ + src
    } else if inst.opcode is Mov {
        "r"@ + dst + ", "@ + imm
    } else if inst.opcode is Exit {
        "r"@ + dst
    } else if inst.imm != 0 {
        "r"@ + dst + ", r"@ + src + ", "@ + imm
    } else {
        "r"@ + dst + ", r"@ + src
    }
}

/// The remark attached to an instruction: the syscall number for a
/// syscall, nothing otherwise.
pub open spec fn comment_text(inst: Instruction) -> Option<Seq<char>> {
    if inst.spec_is_syscall() {
        Some("syscall "@ + dec_int(inst.imm as int))
    } else {
        None
    }
}

/// The listing line of an instruction.
pub open spec fn listing_line(inst: Instruction) -> ListingLine {
    ListingLine {
        address: inst.address,
        mnemonic: mnemonic_text(inst.opcode),
        operands: operands_text(inst),
        comment: comment_text(inst),
    }
}

/// Disassembles instructions, one listing line each, in order.
pub fn disassemble(instructions: &[Instruction]) -> (lines: Vec<DisassembledInstruction>)
    ensures
        lines.deep_view() == instructions@.map_values(|i: Instruction| listing_line(i)),
{
    let mut lines: Vec<DisassembledInstruction> = Vec::new();
    let mut i: usize = 0;
    while i < instructions.len()
        invariant
            i <= instructions@.len(),
            lines@.len() == i,
            forall|k: int|
                0 <= k < i ==> (#[trigger] lines@[k]).deep_view() == listing_line(
                    instructions@[k],
                ),
        decreases instructions@.len() - i,
    {
        let inst = &instructions[i];
        let mnemonic = opcode_to_mnemonic(inst.opcode);
        let operands = format_operands(inst);
        let comment = format_comment(inst);
        lines.push(DisassembledInstruction { address: inst.address, mnemonic, operands, comment });
        i = i + 1;
    }
    lines
}

/// The mnemonic of an operation.
pub fn opcode_to_mnemonic(opcode: Opcode) -> (s: String)
    ensures
        s@ == mnemonic_text(opcode),
{
    match opcode {
        Opcode::LdAbs => String::from_str("ldabs"),
        Opcode::LdInd => String::from_str("ldind"),
        Opcode::Ldx => String::from_str("ldx"),
        Opcode::St => String::from_str("st"),
        Opcode::Stx => String::from_str("stx"),
        Opcode::Add => String::from_str("add"),
        Opcode::Sub => String::from_str("sub"),
        Opcode::Mul => String::from_str("mul"),
        Opcode::Div => String::from_str("div"),
        Opcode::Or => String::from_str("or"),
        Opcode::And => String::from_str("and"),
        Opcode::Lsh => String::from_str("lsh"),
        Opcode::Rsh => String::from_str("rsh"),
        Opcode::Mod => String::from_str("mod"),
        Opcode::Xor => String::from_str("xor"),
        Opcode::Mov => String::from_str("mov"),
        Opcode::Arsh => String::from_str("arsh"),
        Opcode::Ja => String::from_str("ja"),
        Opcode::Jeq => String::from_str("jeq"),
        Opcode::Jgt => String::from_str("jgt"),
        Opcode::Jge => String::from_str("jge"),
        Opcode::Jlt => String::from_str("jlt"),
        Opcode::Jle => String::from_str("jle"),
        Opcode::Jset => String::from_str("jset"),
        Opcode::Jne => String::from_str("jne"),
        Opcode::Jsgt => String::from_str("jsgt"),
        Opcode::Jsge => String::from_str("jsge"),
        Opcode::Jslt => String::from_str("jslt"),
        Opcode::Jsle => String::from_str("jsle"),
        Opcode::Call => String::from_str("call"),
        Opcode::Exit => String::from_str("exit"),
        Opcode::Unknown(b) => {
            let mut s = String::from_str("unknown_");
            push_hex_byte(&mut s, b);
            s
        },
    }
}

/// The operand string of an instruction.
pub fn format_operands(inst: &Instruction) -> (s: String)
    ensures
        s@ == operands_text(*inst),
{
    let mut s = String::new();
    match inst.opcode {
        Opcode::Call => {
            if inst.is_syscall() {
                s.append("syscall_");
            }
            push_dec_i64(&mut s, inst.imm);
        },
        Opcode::Ja
        | Opcode::Jeq
        | Opcode::Jgt
        | Opcode::Jge
        | Opcode::Jlt
        | Opcode::Jle
        | Opcode::Jset
        | Opcode::Jne
        | Opcode::Jsgt
        | Opcode::Jsge
        | Opcode::Jslt
        | Opcode::Jsle => {
            s.append("r");
            push_dec_u64(&mut s, inst.dst_reg as u64);
            s.append(", r");
            push_dec_u64(&mut s, inst.src_reg as u64);
            s.append(", 0x");
            push_hex_u64(&mut s, inst.relative_target());
        },
        Opcode::LdAbs | Opcode::LdInd => {
            s.append("r");
            push_dec_u64(&mut s, inst.dst_reg as u64);
            s.append(", [");
            push_dec_i64(&mut s, inst.imm);
            s.append("]");
        },
        Opcode::Ldx => {
            s.append("r");
            push_dec_u64(&mut s, inst.dst_reg as u64);
            s.append(", [r");
            push_dec_u64(&mut s, inst.src_reg as u64);
            s.append("+");
            push_dec_i64(&mut s, inst.off as i64);
            s.append("]");
        },
        Opcode::St | Opcode::Stx => {
            s.append("[r");
            push_dec_u64(&mut s, inst.dst_reg as u64);
            s.append("+");
            push_dec_i64(&mut s, inst.off as i64);
            s.append("], r");
            push_dec_u64(&mut s, inst.src_reg as u64);
        },
        Opcode::Mov => {
            s.append("r");
            push_dec_u64(&mut s, inst.dst_reg as u64);
            s.append(", ");
            push_dec_i64(&mut s, inst.imm);
        },
        Opcode::Exit => {
            s.append("r");
            push_dec_u64(&mut s, inst.dst_reg as u64);
        },
        _ => {
            s.append("r");
            push_dec_u64(&mut s, inst.dst_reg as u64);
            s.append(", r");
            push_dec_u64(&mut s, inst.src_reg as u64);
            if inst.imm != 0 {
                s.append(", ");
                push_dec_i64(&mut s, inst.imm);
            }
        },
    }
    s
}

/// The remark attached to an instruction.
pub fn format_comment(inst: &Instruction) -> (c: Option<String>)
    ensures
        c is Some <==> inst.spec_is_syscall(),
        match c {
            Some(text) => Some(text@),
            None => None,
        } == comment_text(*inst),
{
    if inst.is_syscall() {
        let mut s = String::from_str("syscall ");
        push_dec_i64(&mut s, inst.imm);
        Some(s)
    } else {
        None
    }
}

} // verus!

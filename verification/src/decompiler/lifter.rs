//! Lifting of decoded instructions into basic blocks of a small
//! intermediate representation.

use crate::binary::sbpf::Opcode;
use crate::decompiler::blocks::{
    block_end, block_starts, find_block_starts, lemma_block_starts, starts_block, stream_end,
};
use crate::decompiler::disasm::{mnemonic_text, opcode_to_mnemonic};
use crate::instruction::decoder::{branch_target, Instruction};
use vstd::prelude::*;
use vstd::string::StringExecFns;

verus! {

/// A lifted instruction.
#[derive(Debug, Clone)]
#[allow(inconsistent_fields)]
pub enum IRInstruction {
    Load { dst: u8, src: u8, offset: i16 },
    Store { dst: u8, src: u8, offset: i16 },
    Arithmetic { op: String, dst: u8, src: u8, imm: Option<i64> },
    Logic { op: String, dst: u8, src: u8, imm: Option<i64> },
    Jump { cond: Option<String>, target: u64 },
    Call { target: i64, is_syscall: bool },
    Return,
    Exit,
}

/// A run of lifted instructions with one entry.
#[derive(Debug, Clone)]
pub struct BasicBlock {
    pub address: u64,
    pub instructions: Vec<IRInstruction>,
    pub successors: Vec<u64>,
}

/// A function of the program, by the blocks it owns.
#[derive(Debug, Clone)]
pub struct Function {
    pub address: u64,
    pub name: String,
    pub basic_blocks: Vec<u64>,
}

/// The lifted program.
#[derive(Debug, Clone)]
pub struct IR {
    pub basic_blocks: Vec<BasicBlock>,
    pub functions: Vec<Function>,
}

/// What a lifted instruction says, with its text as character sequences.
#[allow(inconsistent_fields)]
pub enum IrOp {
    Load { dst: u8, src: u8, offset: i16 },
    Store { dst: u8, src: u8, offset: i16 },
    Arithmetic { op: Seq<char>, dst: u8, src: u8, imm: Option<i64> },
    Logic { op: Seq<char>, dst: u8, src: u8, imm: Option<i64> },
    Jump { cond: Option<Seq<char>>, target: u64 },
    Call { target: i64, is_syscall: bool },
    Return,
    Exit,
}

/// What a basic block holds.
pub struct BlockModel {
    pub address: u64,
    pub instructions: Seq<IrOp>,
    pub successors: Seq<u64>,
}

/// What a function record holds.
pub struct FunctionModel {
    pub address: u64,
    pub name: Seq<char>,
    pub basic_blocks: Seq<u64>,
}

/// What a lifted program holds.
pub struct IrModel {
    pub basic_blocks: Seq<BlockModel>,
    pub functions: Seq<FunctionModel>,
}

impl DeepView for IRInstruction {
    type V = IrOp;

    open spec fn deep_view(&self) -> IrOp {
        match *self {
            IRInstruction::Load { dst, src, offset } => IrOp::Load { dst, src, offset },
            IRInstruction::Store { dst, src, offset } => IrOp::Store { dst, src, offset },
            IRInstruction::Arithmetic { op, dst, src, imm } => IrOp::Arithmetic {
                op: op@,
                dst,
                src,
                imm,
            },
            IRInstruction::Logic { op, dst, src, imm } => IrOp::Logic { op: op@, dst, src, imm },
            IRInstruction::Jump { cond, target } => IrOp::Jump {
                cond: match cond {
                    Some(c) => Some(c@),
                    None => None,
                },
                target,
            },
            IRInstruction::Call { target, is_syscall } => IrOp::Call { target, is_syscall },
            IRInstruction::Return => IrOp::Return,
            IRInstruction::Exit => IrOp::Exit,
        }
    }
}

impl DeepView for BasicBlock {
    type V = BlockModel;

    open spec fn deep_view(&self) -> BlockModel {
        BlockModel {
            address: self.address,
            instructions: self.instructions.deep_view(),
            successors: self.successors@,
        }
    }
}

impl DeepView for Function {
    type V = FunctionModel;

    open spec fn deep_view(&self) -> FunctionModel {
        FunctionModel {
            address: self.address,
            name: self.name@,
            basic_blocks: self.basic_blocks@,
        }
    }
}

impl DeepView for IR {
    type V = IrModel;

    open spec fn deep_view(&self) -> IrModel {
        IrModel {
            basic_blocks: self.basic_blocks.deep_view(),
            functions: self.functions.deep_view(),
        }
    }
}

/// Whether the operation is a jump whose target is computed: the
/// unconditional jump and the six unsigned compares.
pub open spec fn has_target(op: Opcode) -> bool {
    op is Ja || op is Jeq || op is Jne || op is Jgt || op is Jge || op is Jlt || op is Jle
}

/// The branch target of an instruction, for the jumps that have one.
pub open spec fn jump_target(inst: Instruction) -> Option<u64> {
    if has_target(inst.opcode) {
        Some(branch_target(inst.address, inst.imm))
    } else {
        None
    }
}

/// The comparison a conditional jump makes, as written in pseudocode.
pub open spec fn condition_text(op: Opcode) -> Option<Seq<char>> {
    match op {
        Opcode::Jeq => Some("=="@),
        Opcode::Jne => Some("!="@),
        Opcode::Jgt => Some(">"@),
        Opcode::Jge => Some(">="@),
        Opcode::Jlt => Some("<"@),
        Opcode::Jle => Some("<="@),
        _ => None,
    }
}

/// An immediate as the lifter carries it: absent when zero.
pub open spec fn folded_imm(imm: i64) -> Option<i64> {
    if imm != 0 {
        Some(imm)
    } else {
        None
    }
}

/// The image of one instruction under lifting.
pub open spec fn lift_one(inst: Instruction) -> IrOp {
    match inst.opcode {
        Opcode::Ldx => IrOp::Load { dst: inst.dst_reg, src: inst.src_reg, offset: inst.off },
        Opcode::Stx => IrOp::Store { dst: inst.dst_reg, src: inst.src_reg, offset: inst.off },
        Opcode::Add | Opcode::Sub | Opcode::Mul | Opcode::Div | Opcode::Mod | Opcode::Mov => {
            IrOp::Arithmetic {
                op: mnemonic_text(inst.opcode),
                dst: inst.dst_reg,
                src: inst.src_reg,
                imm: folded_imm(inst.imm),
            }
        },
        Opcode::Or | Opcode::And | Opcode::Xor | Opcode::Lsh | Opcode::Rsh => IrOp::Logic {
            op: mnemonic_text(inst.opcode),
            dst: inst.dst_reg,
            src: inst.src_reg,
            imm: folded_imm(inst.imm),
        },
        Opcode::Call => IrOp::Call { target: inst.imm, is_syscall: inst.spec_is_syscall() },
        Opcode::Exit => IrOp::Exit,
        _ => match jump_target(inst) {
            Some(target) => IrOp::Jump { cond: condition_text(inst.opcode), target },
            None => IrOp::Return,
        },
    }
}

/// Lifts one instruction.
pub fn lift_instruction(inst: &Instruction) -> (ir: IRInstruction)
    ensures
        ir.deep_view() == lift_one(*inst),
{
    match inst.opcode {
        Opcode::Ldx => IRInstruction::Load {
            dst: inst.dst_reg,
            src: inst.src_reg,
            offset: inst.off,
        },
        Opcode::Stx => IRInstruction::Store {
            dst: inst.dst_reg,
            src: inst.src_reg,
            offset: inst.off,
        },
        Opcode::Add | Opcode::Sub | Opcode::Mul | Opcode::Div | Opcode::Mod | Opcode::Mov => {
            IRInstruction::Arithmetic {
                op: opcode_to_mnemonic(inst.opcode),
                dst: inst.dst_reg,
                src: inst.src_reg,
                imm: if inst.imm != 0 {
                    Some(inst.imm)
                } else {
                    None
                },
            }
        },
        Opcode::Or | Opcode::And | Opcode::Xor | Opcode::Lsh | Opcode::Rsh => {
            IRInstruction::Logic {
                op: opcode_to_mnemonic(inst.opcode),
                dst: inst.dst_reg,
                src: inst.src_reg,
                imm: if inst.imm != 0 {
                    Some(inst.imm)
                } else {
                    None
                },
            }
        },
        Opcode::Call => IRInstruction::Call { target: inst.imm, is_syscall: inst.is_syscall() },
        Opcode::Exit => IRInstruction::Exit,
        _ => {
            match calculate_jump_target(inst) {
                Some(target) => {
                    let cond = match inst.opcode {
                        Opcode::Jeq => Some(String::from_str("==")),
                        Opcode::Jne => Some(String::from_str("!=")),
                        Opcode::Jgt => Some(String::from_str(">")),
                        Opcode::Jge => Some(String::from_str(">=")),
                        Opcode::Jlt => Some(String::from_str("<")),
                        Opcode::Jle => Some(String::from_str("<=")),
                        _ => None,
                    };
                    IRInstruction::Jump { cond, target }
                },
                None => IRInstruction::Return,
            }
        },
    }
}

/// The branch target of an instruction: present for the unconditional jump
/// and the six unsigned compares, absent for everything else.
pub fn calculate_jump_target(inst: &Instruction) -> (t: Option<u64>)
    ensures
        t == jump_target(*inst),
{
    match inst.opcode {
        Opcode::Ja
        | Opcode::Jeq
        | Opcode::Jne
        | Opcode::Jgt
        | Opcode::Jge
        | Opcode::Jlt
        | Opcode::Jle => Some(inst.relative_target()),
        _ => None,
    }
}

/// Lifting restricted to the instructions whose address lies in `lo..hi`.
pub open spec fn lift_within(lo: int, hi: int) -> spec_fn(Instruction) -> Option<IrOp> {
    |i: Instruction|
        if lo <= i.address < hi {
            Some(lift_one(i))
        } else {
            None
        }
}

/// Jump targets restricted to the instructions whose address lies in
/// `lo..hi`.
pub open spec fn target_within(lo: int, hi: int) -> spec_fn(Instruction) -> Option<u64> {
    |i: Instruction|
        if lo <= i.address < hi {
            jump_target(i)
        } else {
            None
        }
}

/// The block that covers the addresses `lo..hi`: the lifted images of the
/// instructions there, in stream order, and the computed targets of the
/// jumps among them. Falling through into the next block adds no successor.
pub open spec fn block_of(insts: Seq<Instruction>, lo: u64, hi: int) -> BlockModel {
    BlockModel {
        address: lo,
        instructions: insts.filter_map(lift_within(lo as int, hi)),
        successors: insts.filter_map(target_within(lo as int, hi)),
    }
}

/// The lifted form of an instruction sequence. An empty sequence has no
/// blocks and no functions; otherwise there is one block per block start
/// and a single function `entry` at the first instruction.
pub open spec fn lifted(insts: Seq<Instruction>) -> IrModel {
    if insts.len() == 0 {
        IrModel { basic_blocks: Seq::empty(), functions: Seq::empty() }
    } else {
        IrModel {
            basic_blocks: Seq::new(
                block_starts(insts).len(),
                |k: int| block_of(insts, block_starts(insts)[k], block_end(insts, k)),
            ),
            functions: seq![
                FunctionModel {
                    address: insts[0].address,
                    name: "entry"@,
                    basic_blocks: seq![0u64],
                },
            ],
        }
    }
}

/// Collects the block that covers `lo..hi`.
fn build_block(instructions: &[Instruction], lo: u64, hi: u128) -> (block: BasicBlock)
    ensures
        block.deep_view() == block_of(instructions@, lo, hi as int),
{
    let mut block_instructions: Vec<IRInstruction> = Vec::new();
    let mut successors: Vec<u64> = Vec::new();
    let n: usize = instructions.len();
    let mut j: usize = 0;
    let ghost lift = lift_within(lo as int, hi as int);
    let ghost target = target_within(lo as int, hi as int);
    while j < n
        invariant
            n == instructions@.len(),
            0 <= j <= n,
            lift == lift_within(lo as int, hi as int),
            target == target_within(lo as int, hi as int),
            block_instructions.deep_view() == instructions@.take(j as int).filter_map(lift),
            successors@ == instructions@.take(j as int).filter_map(target),
        decreases n - j,
    {
        let inst = &instructions[j];
        proof {
            instructions@.lemma_filter_map_take_succ(lift, j as int);
            instructions@.lemma_filter_map_take_succ(target, j as int);
        }
        if inst.address >= lo && (inst.address as u128) < hi {
            block_instructions.push(lift_instruction(inst));
            match calculate_jump_target(inst) {
                Some(t) => {
                    successors.push(t);
                },
                None => {},
            }
        }
        j = j + 1;
    }
    assert(instructions@.take(n as int) =~= instructions@);
    BasicBlock { address: lo, instructions: block_instructions, successors }
}

/// Lifts a decoded instruction sequence: finds the block starts, carves the
/// blocks between them, and lifts each instruction into its block.
pub fn lift_to_ir(instructions: &[Instruction]) -> (ir: IR)
    ensures
        ir.deep_view() == lifted(instructions@),
{
    let mut basic_blocks: Vec<BasicBlock> = Vec::new();
    let mut functions: Vec<Function> = Vec::new();
    let n: usize = instructions.len();
    if n == 0 {
        assert(basic_blocks.deep_view() =~= Seq::<BlockModel>::empty());
        assert(functions.deep_view() =~= Seq::<FunctionModel>::empty());
        return IR { basic_blocks, functions };
    }
    let starts = find_block_starts(instructions);
    let last = &instructions[n - 1];
    let end: u128 = last.address as u128 + last.size as u128;
    let count: usize = starts.len();
    let mut idx: usize = 0;
    while idx < count
        invariant
            n == instructions@.len(),
            n > 0,
            starts@ == block_starts(instructions@),
            count == starts@.len(),
            end as int == stream_end(instructions@),
            0 <= idx <= count,
            basic_blocks@.len() == idx,
            forall|k: int|
                0 <= k < idx ==> (#[trigger] basic_blocks@[k]).deep_view() == block_of(
                    instructions@,
                    starts@[k],
                    block_end(instructions@, k),
                ),
        decreases count - idx,
    {
        let lo: u64 = starts[idx];
        let hi: u128 = if idx + 1 < count {
            starts[idx + 1] as u128
        } else {
            end
        };
        basic_blocks.push(build_block(instructions, lo, hi));
        idx = idx + 1;
    }
    let mut entry_blocks: Vec<u64> = Vec::new();
    entry_blocks.push(0);
    functions.push(
        Function {
            address: instructions[0].address,
            name: String::from_str("entry"),
            basic_blocks: entry_blocks,
        },
    );
    assert(basic_blocks.deep_view() =~= lifted(instructions@).basic_blocks);
    assert(functions.deep_view() =~= lifted(instructions@).functions);
    IR { basic_blocks, functions }
}

/// Every recorded successor of a block is the start of a block: it is the
/// computed target of a jump, and every such target is a block start.
pub proof fn lemma_successors_are_block_starts(insts: Seq<Instruction>, k: int, j: int)
    requires
        0 <= k < lifted(insts).basic_blocks.len(),
        0 <= j < lifted(insts).basic_blocks[k].successors.len(),
    ensures
        block_starts(insts).contains(lifted(insts).basic_blocks[k].successors[j]),
{
    let block = lifted(insts).basic_blocks[k];
    let t = block.successors[j];
    let keep = target_within(block_starts(insts)[k] as int, block_end(insts, k));
    insts.lemma_filter_map_contains(keep, t);
    let inst = choose|inst: Instruction| #[trigger] insts.contains(inst) && keep(inst) == Some(t);
    let i = choose|i: int| 0 <= i < insts.len() && insts[i] == inst;
    assert(jump_target(insts[i]) == Some(t));
    assert(starts_block(insts, t));
    lemma_block_starts(insts);
}

} // verus!

//! Decoding of the fixed-width, little-endian SBPF instruction slots.

use crate::binary::sbpf::{opcode_of_byte, Opcode};
use crate::binary::SbpfVersion;
use vstd::prelude::*;

verus! {

/// Width in bytes of one instruction slot.
pub const SLOT_SIZE: usize = 8;

/// One decoded instruction.
#[derive(Debug, Clone, Copy)]
pub struct Instruction {
    /// Byte offset of the slot from the start of the code.
    pub address: u64,
    /// Operation.
    pub opcode: Opcode,
    /// Destination register.
    pub dst_reg: u8,
    /// Source register.
    pub src_reg: u8,
    /// Immediate operand, sign-extended from 32 bits.
    pub imm: i64,
    /// Signed 16-bit displacement.
    pub off: i16,
    /// Slot width in bytes.
    pub size: usize,
}

/// Coarse grouping of operations.
#[derive(Debug, Clone, Copy, PartialEq, Eq, Hash, Structural)]
pub enum InstructionCategory {
    LoadStore,
    Arithmetic,
    Logic,
    ControlFlow,
    Misc,
}

/// The category of each operation.
pub open spec fn category_of(op: Opcode) -> InstructionCategory {
    match op {
        Opcode::LdAbs | Opcode::LdInd | Opcode::Ldx | Opcode::St | Opcode::Stx => {
            InstructionCategory::LoadStore
        },
        Opcode::Add
        | Opcode::Sub
        | Opcode::Mul
        | Opcode::Div
        | Opcode::Mod
        | Opcode::Mov
        | Opcode::Arsh => InstructionCategory::Arithmetic,
        Opcode::Or | Opcode::And | Opcode::Xor | Opcode::Lsh | Opcode::Rsh => {
            InstructionCategory::Logic
        },
        Opcode::Ja
        | Opcode::Jeq
        | Opcode::Jgt
        | Opcode::Jge
        | Opcode::Jlt
        | Opcode::Jle
        | Opcode::Jset
        | Opcode::Jne
        | Opcode::Jsgt
        | Opcode::Jsge
        | Opcode::Jslt
        | Opcode::Jsle
        | Opcode::Call
        | Opcode::Exit => InstructionCategory::ControlFlow,
        Opcode::Unknown(_) => InstructionCategory::Misc,
    }
}

/// The value of `x` reduced into the range of `u64`, as two's-complement
/// arithmetic does.
pub open spec fn wrap_u64(x: int) -> u64 {
    (x % 0x1_0000_0000_0000_0000) as u64
}

/// Where a jump at `address` with immediate `imm` leads: the address plus the
/// immediate plus one, in 64-bit wrapping arithmetic.
pub open spec fn branch_target(address: u64, imm: i64) -> u64 {
    wrap_u64(address as int + imm as int + 1)
}

/// Reduces a sum of an address and two signed terms into `u64`.
pub(crate) fn wrap_to_u64(x: i128) -> (r: u64)
    requires
        -0x1_0000_0000_0000_0000 <= x < 0x2_0000_0000_0000_0000,
    ensures
        r == wrap_u64(x as int),
{
    if x < 0 {
        (x + 0x1_0000_0000_0000_0000) as u64
    } else if x >= 0x1_0000_0000_0000_0000 {
        (x - 0x1_0000_0000_0000_0000) as u64
    } else {
        x as u64
    }
}

impl Instruction {
    /// The branch target of this instruction, were it a jump.
    pub fn relative_target(&self) -> (t: u64)
        ensures
            t == branch_target(self.address, self.imm),
    {
        wrap_to_u64(self.address as i128 + self.imm as i128 + 1)
    }

    /// Whether this is a call to a host-provided function: a `Call` with a
    /// strictly positive immediate.
    pub open spec fn spec_is_syscall(&self) -> bool {
        self.opcode == Opcode::Call && self.imm > 0
    }

    /// The host function number of a syscall, and `None` for anything else.
    pub open spec fn spec_syscall_number(&self) -> Option<u64> {
        if self.spec_is_syscall() {
            Some(self.imm as u64)
        } else {
            None
        }
    }

    /// The category of this instruction, which depends on the opcode alone.
    pub fn category(&self) -> (c: InstructionCategory)
        ensures
            c == category_of(self.opcode),
    {
        match self.opcode {
            Opcode::LdAbs | Opcode::LdInd | Opcode::Ldx | Opcode::St | Opcode::Stx => {
                InstructionCategory::LoadStore
            },
            Opcode::Add
            | Opcode::Sub
            | Opcode::Mul
            | Opcode::Div
            | Opcode::Mod
            | Opcode::Mov
            | Opcode::Arsh => InstructionCategory::Arithmetic,
            Opcode::Or | Opcode::And | Opcode::Xor | Opcode::Lsh | Opcode::Rsh => {
                InstructionCategory::Logic
            },
            Opcode::Ja
            | Opcode::Jeq
            | Opcode::Jgt
            | Opcode::Jge
            | Opcode::Jlt
            | Opcode::Jle
            | Opcode::Jset
            | Opcode::Jne
            | Opcode::Jsgt
            | Opcode::Jsge
            | Opcode::Jslt
            | Opcode::Jsle
            | Opcode::Call
            | Opcode::Exit => InstructionCategory::ControlFlow,
            Opcode::Unknown(_) => InstructionCategory::Misc,
        }
    }

    /// Whether this instruction is a syscall.
    pub fn is_syscall(&self) -> (b: bool)
        ensures
            b == self.spec_is_syscall(),
            b <==> self.opcode == Opcode::Call && self.imm > 0,
    {
        matches!(self.opcode, Opcode::Call) && self.imm > 0
    }

    /// The syscall number, present exactly for syscalls.
    pub fn syscall_number(&self) -> (n: Option<u64>)
        ensures
            n == self.spec_syscall_number(),
            n is Some <==> self.spec_is_syscall(),
            n is Some ==> n->Some_0 as int == self.imm as int,
    {
        if self.is_syscall() {
            Some(self.imm as u64)
        } else {
            None
        }
    }
}

/// The signed value of two little-endian bytes.
pub open spec fn le_i16(b0: u8, b1: u8) -> int {
    let u = b0 as int + 256 * (b1 as int);
    if u >= 0x8000 {
        u - 0x1_0000
    } else {
        u
    }
}

/// The signed value of four little-endian bytes.
pub open spec fn le_i32(b0: u8, b1: u8, b2: u8, b3: u8) -> int {
    let u = b0 as int + 256 * (b1 as int) + 65536 * (b2 as int) + 16777216 * (b3 as int);
    if u >= 0x8000_0000 {
        u - 0x1_0000_0000
    } else {
        u
    }
}

/// The instruction held in the eight bytes of `bytes` that start at `offset`.
pub open spec fn decode_slot(bytes: Seq<u8>, offset: int) -> Instruction
    recommends
        0 <= offset,
        offset + 8 <= bytes.len(),
{
    Instruction {
        address: offset as u64,
        opcode: opcode_of_byte(bytes[offset]),
        dst_reg: (bytes[offset + 1] % 16) as u8,
        src_reg: (bytes[offset + 1] / 16) as u8,
        imm: le_i32(
            bytes[offset + 4],
            bytes[offset + 5],
            bytes[offset + 6],
            bytes[offset + 7],
        ) as i64,
        off: le_i16(bytes[offset + 2], bytes[offset + 3]) as i16,
        size: 8,
    }
}

/// The instructions of a code buffer: one per complete slot, in address
/// order. A tail shorter than a slot holds no instruction.
pub open spec fn decode_seq(bytes: Seq<u8>) -> Seq<Instruction> {
    Seq::new(bytes.len() / 8, |i: int| decode_slot(bytes, 8 * i))
}

/// Sum of the sizes of a run of instructions.
pub open spec fn total_size(insts: Seq<Instruction>) -> int
    decreases insts.len(),
{
    if insts.len() == 0 {
        0
    } else {
        total_size(insts.drop_last()) + insts.last().size as int
    }
}

/// Whether the addresses of `insts` are those of consecutive slots starting
/// at 0, each instruction one slot wide.
pub open spec fn slot_aligned(insts: Seq<Instruction>) -> bool {
    forall|i: int|
        0 <= i < insts.len() ==> (#[trigger] insts[i]).address as int == 8 * i && insts[i].size
            == 8
}

/// Decoder for SBPF bytecode.
pub struct InstructionDecoder {
    version: Option<SbpfVersion>,
}

impl InstructionDecoder {
    /// The instruction-set revision this decoder was made for.
    pub closed spec fn version(&self) -> Option<SbpfVersion> {
        self.version
    }

    /// A decoder for the given revision, or for any when `None`.
    pub fn new(version: Option<SbpfVersion>) -> (d: Self)
        ensures
            d.version() == version,
    {
        Self { version }
    }

    /// Decodes every complete slot of `bytecode`, in address order.
    pub fn decode_all(&self, bytecode: &[u8]) -> (insts: Vec<Instruction>)
        ensures
            insts@ == decode_seq(bytecode@),
            insts@.len() == bytecode@.len() / 8,
            slot_aligned(insts@),
    {
        let mut instructions: Vec<Instruction> = Vec::new();
        let mut offset: usize = 0;
        let len: usize = bytecode.len();
        while len - offset >= 8
            invariant
                len == bytecode@.len(),
                offset <= len,
                offset % 8 == 0,
                instructions@.len() == offset / 8,
                forall|i: int|
                    0 <= i < instructions@.len() ==> instructions@[i] == decode_slot(
                        bytecode@,
                        8 * i,
                    ),
            decreases len - offset,
        {
            match self.decode_at(bytecode, offset) {
                Some(inst) => {
                    instructions.push(inst);
                },
                None => {},
            }
            offset = offset + 8;
        }
        instructions
    }

    /// Decodes the slot that starts at `offset`; `None` when fewer than
    /// eight bytes remain there.
    pub fn decode_at(&self, bytecode: &[u8], offset: usize) -> (inst: Option<Instruction>)
        ensures
            inst is Some <==> offset + 8 <= bytecode@.len(),
            inst is Some ==> inst->Some_0 == decode_slot(bytecode@, offset as int),
    {
        let len: usize = bytecode.len();
        if offset > len || len - offset < 8 {
            return None;
        }
        let opcode = Opcode::from_u8(bytecode[offset]);
        let regs: u8 = bytecode[offset + 1];
        let dst_reg: u8 = regs % 16;
        let src_reg: u8 = regs / 16;
        let off = i16_from_le(bytecode[offset + 2], bytecode[offset + 3]);
        let imm = i32_from_le(
            bytecode[offset + 4],
            bytecode[offset + 5],
            bytecode[offset + 6],
            bytecode[offset + 7],
        );
        Some(
            Instruction {
                address: offset as u64,
                opcode,
                dst_reg,
                src_reg,
                imm: imm as i64,
                off,
                size: 8,
            },
        )
    }
}

fn i16_from_le(b0: u8, b1: u8) -> (v: i16)
    ensures
        v as int == le_i16(b0, b1),
{
    let u: i32 = b0 as i32 + 256 * (b1 as i32);
    if u >= 0x8000 {
        (u - 0x1_0000) as i16
    } else {
        u as i16
    }
}

fn i32_from_le(b0: u8, b1: u8, b2: u8, b3: u8) -> (v: i32)
    ensures
        v as int == le_i32(b0, b1, b2, b3),
{
    let u: i64 = b0 as i64 + 256 * (b1 as i64) + 65536 * (b2 as i64) + 16777216 * (b3 as i64);
    if u >= 0x8000_0000 {
        (u - 0x1_0000_0000) as i32
    } else {
        u as i32
    }
}

/// The revision suggested by a run of instructions: none for an empty run,
/// the base revision otherwise.
pub fn detect_version_from_instructions(instructions: &[Instruction]) -> (v: Option<SbpfVersion>)
    ensures
        v == if instructions@.len() == 0 {
            None
        } else {
            Some(SbpfVersion::V0)
        },
{
    if instructions.len() == 0 {
        return None;
    }
    Some(SbpfVersion::V0)
}

/// Decoding accounts for every byte of a buffer made of whole slots: the
/// sizes of the decoded instructions add up to the buffer's length. In
/// general they add up to the length of the whole slots.
pub proof fn lemma_decoded_sizes_cover(bytes: Seq<u8>)
    ensures
        total_size(decode_seq(bytes)) == 8 * (bytes.len() / 8),
        bytes.len() % 8 == 0 ==> total_size(decode_seq(bytes)) == bytes.len(),
{
    lemma_total_size_of_slots(decode_seq(bytes));
}

/// Instructions that are one slot wide each take eight bytes apiece.
pub proof fn lemma_total_size_of_slots(insts: Seq<Instruction>)
    requires
        forall|i: int| 0 <= i < insts.len() ==> (#[trigger] insts[i]).size == 8,
    ensures
        total_size(insts) == 8 * insts.len(),
    decreases insts.len(),
{
    if insts.len() > 0 {
        lemma_total_size_of_slots(insts.drop_last());
    }
}

/// Decoding is deterministic: whatever two runs over the same bytes return
/// under the decoder's contract, they return the same instructions, in the
/// same order, whichever revision each decoder was made for.
pub proof fn lemma_decode_deterministic(
    first: Seq<u8>,
    second: Seq<u8>,
    first_out: Seq<Instruction>,
    second_out: Seq<Instruction>,
)
    requires
        first =~= second,
        first_out == decode_seq(first),
        second_out == decode_seq(second),
    ensures
        first_out == second_out,
{
}

/// Decoded addresses are unique and increase with position.
pub proof fn lemma_decoded_addresses_increase(bytes: Seq<u8>, i: int, j: int)
    requires
        0 <= i < j < decode_seq(bytes).len(),
        bytes.len() <= u64::MAX,
    ensures
        decode_seq(bytes)[i].address < decode_seq(bytes)[j].address,
{
}

/// The category depends on the opcode alone: two instructions with the same
/// opcode have the same category, whatever their operands.
pub proof fn lemma_category_by_opcode(a: Instruction, b: Instruction)
    requires
        a.opcode == b.opcode,
    ensures
        category_of(a.opcode) == category_of(b.opcode),
{
}

/// An unknown opcode is always `Misc`, and nothing else is.
pub proof fn lemma_misc_is_unknown(op: Opcode)
    ensures
        category_of(op) is Misc <==> op is Unknown,
{
}

} // verus!

//! From decoded instructions to pseudocode.

pub mod blocks;
pub mod disasm;
pub mod lifter;
pub mod pseudocode;

use crate::binary::SbpfBinary;
use crate::decompiler::disasm::{disassemble, listing_line};
use crate::decompiler::lifter::{lift_to_ir, lifted};
use crate::decompiler::pseudocode::{generate_pseudocode, pseudocode_text};
use crate::instruction::decoder::{decode_seq, Instruction, InstructionDecoder};
use vstd::prelude::*;

verus! {

/// The pseudocode document of a code buffer: its instructions are decoded,
/// lifted into blocks and rendered, with their disassembly as reference.
pub open spec fn decompiled_text(bytes: Seq<u8>) -> Seq<char> {
    let insts = decode_seq(bytes);
    pseudocode_text(lifted(insts), insts.map_values(|i: Instruction| listing_line(i)))
}

/// Decompiles a program to pseudocode.
pub fn decompile(binary: &SbpfBinary) -> (out: String)
    ensures
        out@ == decompiled_text(binary.bytecode@),
{
    let decoder = InstructionDecoder::new(binary.version);
    let instructions = decoder.decode_all(binary.bytecode.as_slice());
    let assembly = disassemble(instructions.as_slice());
    let ir = lift_to_ir(instructions.as_slice());
    generate_pseudocode(&ir, assembly.as_slice())
}

/// Decompiling is repeatable: two runs over the same bytes give the same
/// text, character for character, whatever else the two programs carry.
pub proof fn lemma_decompile_repeatable(
    first: SbpfBinary,
    second: SbpfBinary,
    first_out: Seq<char>,
    second_out: Seq<char>,
)
    requires
        first.bytecode@ =~= second.bytecode@,
        first_out == decompiled_text(first.bytecode@),
        second_out == decompiled_text(second.bytecode@),
    ensures
        first_out == second_out,
{
}

/// A program without a single whole slot decompiles to the heading, an
/// empty function body and an empty assembly reference.
pub proof fn lemma_decompile_empty(bytes: Seq<u8>)
    requires
        bytes.len() < 8,
    ensures
        decode_seq(bytes).len() == 0,
        lifted(decode_seq(bytes)).basic_blocks.len() == 0,
        decompiled_text(bytes) == "// Decompiled SBPF Program\n"@
            + "// Generated pseudocode\n\n"@ + "fn entry() -> Result<(), Error> {\n"@ + "}\n\n"@
            + "// Assembly reference:\n"@,
{
    assert(decompiled_text(bytes) =~= "// Decompiled SBPF Program\n"@
        + "// Generated pseudocode\n\n"@ + "fn entry() -> Result<(), Error> {\n"@ + "}\n\n"@
        + "// Assembly reference:\n"@);
}

} // verus!

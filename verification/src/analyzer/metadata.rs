//! Facts about a program that need no analysis of its code.

use crate::binary::{SbpfBinary, SbpfVersion};
use crate::instruction::decoder::Instruction;
use vstd::prelude::*;

verus! {

/// Size, entry point and revision of a program.
#[derive(Debug, Clone, Copy)]
pub struct Metadata {
    /// Size of the code region in bytes.
    pub program_size: usize,
    /// Address at which the code region is mapped.
    pub entry_point: u64,
    /// Number of decoded instructions.
    pub instruction_count: usize,
    /// Instruction-set revision, when known.
    pub version: Option<SbpfVersion>,
    /// Number of metadata sections.
    pub metadata_sections: usize,
}

/// The metadata of a program with the given code, entry point, revision
/// and numbers of instructions and metadata sections.
pub open spec fn metadata_of(
    code_len: nat,
    entry_point: u64,
    version: Option<SbpfVersion>,
    sections: nat,
    instructions: nat,
) -> Metadata {
    Metadata {
        program_size: code_len as usize,
        entry_point,
        instruction_count: instructions as usize,
        version,
        metadata_sections: sections as usize,
    }
}

/// Reads the metadata off a program and its decoded instructions.
pub fn extract(binary: &SbpfBinary, instructions: &[Instruction]) -> (m: Metadata)
    ensures
        m == metadata_of(
            binary.bytecode@.len(),
            binary.entry_point,
            binary.version,
            binary.metadata@.len(),
            instructions@.len(),
        ),
{
    Metadata {
        program_size: binary.bytecode.len(),
        entry_point: binary.entry_point,
        instruction_count: instructions.len(),
        version: binary.version,
        metadata_sections: binary.metadata.len(),
    }
}

} // verus!

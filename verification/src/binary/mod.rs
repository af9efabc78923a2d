//! Program images and the instruction set they carry.

pub mod elf;
pub mod sbpf;

use crate::binary::elf::{
    elf_program, has_elf_magic, outcome_view, parse_elf, parsed_sections, ElfError,
};
use vstd::prelude::*;
use vstd::slice::slice_to_vec;

verus! {

/// Revision of the SBPF instruction set.
#[derive(Debug, Clone, Copy, PartialEq, Eq, Structural)]
pub enum SbpfVersion {
    V0,
    V1,
    V2,
    V3,
}

/// A named blob of non-code data carried alongside the program.
#[derive(Debug, Clone)]
pub struct MetadataSection {
    pub name: String,
    pub data: Vec<u8>,
}

/// A loaded SBPF program.
#[derive(Debug, Clone)]
pub struct SbpfBinary {
    /// The code region, one instruction per 8-byte slot.
    pub bytecode: Vec<u8>,
    /// Address at which the code region is mapped.
    pub entry_point: u64,
    /// Instruction-set revision, when known.
    pub version: Option<SbpfVersion>,
    /// Metadata blobs found next to the code.
    pub metadata: Vec<MetadataSection>,
}

/// What a metadata section holds.
pub struct MetadataModel {
    pub name: Seq<char>,
    pub data: Seq<u8>,
}

/// What a loaded program holds.
pub struct BinaryModel {
    pub bytecode: Seq<u8>,
    pub entry_point: u64,
    pub version: Option<SbpfVersion>,
    pub metadata: Seq<MetadataModel>,
}

impl DeepView for MetadataSection {
    type V = MetadataModel;

    open spec fn deep_view(&self) -> MetadataModel {
        MetadataModel { name: self.name@, data: self.data@ }
    }
}

impl DeepView for SbpfBinary {
    type V = BinaryModel;

    open spec fn deep_view(&self) -> BinaryModel {
        BinaryModel {
            bytecode: self.bytecode@,
            entry_point: self.entry_point,
            version: self.version,
            metadata: self.metadata.deep_view(),
        }
    }
}

/// The program made of raw bytecode: the bytes as they are, mapped at 0,
/// of unknown revision and without metadata.
pub open spec fn raw_program(data: Seq<u8>) -> BinaryModel {
    BinaryModel { bytecode: data, entry_point: 0, version: None, metadata: Seq::empty() }
}

/// What loading makes of an image. An image that parses as an ELF file
/// is a container: it gives the program inside it, or the error that it
/// holds no code section. Any other image is taken as raw bytecode.
pub open spec fn load_outcome(data: Seq<u8>) -> Result<BinaryModel, ElfError> {
    if has_elf_magic(data) && parsed_sections(data) is Some {
        elf_program(parsed_sections(data)->Some_0, data)
    } else {
        Ok(raw_program(data))
    }
}

/// What becomes of an image once the search for an ELF program in it has
/// ended in `found`: the program found; the error that an ELF container
/// holds no code section; and raw bytecode where the image is no ELF
/// container at all.
pub open spec fn settled(found: Result<BinaryModel, ElfError>, data: Seq<u8>) -> Result<
    BinaryModel,
    ElfError,
> {
    match found {
        Ok(binary) => Ok(binary),
        Err(ElfError::NoText) => Err(ElfError::NoText),
        Err(_) => Ok(raw_program(data)),
    }
}

/// The program held in raw bytecode.
pub fn raw_binary(data: &[u8]) -> (binary: SbpfBinary)
    ensures
        binary.deep_view() == raw_program(data@),
{
    let binary = SbpfBinary {
        bytecode: slice_to_vec(data),
        entry_point: 0,
        version: None,
        metadata: Vec::new(),
    };
    assert(binary.metadata.deep_view() =~= Seq::<MetadataModel>::empty());
    binary
}

/// Settles what an image is, given how the search for an ELF program in it
/// ended: a container without code is an error, anything that is no
/// container is raw bytecode.
pub fn or_raw_bytecode(found: Result<SbpfBinary, ElfError>, data: &[u8]) -> (r: Result<
    SbpfBinary,
    ElfError,
>)
    ensures
        outcome_view(r) == settled(outcome_view(found), data@),
{
    match found {
        Ok(binary) => Ok(binary),
        Err(ElfError::NoText) => Err(ElfError::NoText),
        Err(_) => Ok(raw_binary(data)),
    }
}

/// Takes the program out of an image. An ELF container gives the program
/// inside it, and fails where it holds no code section; an image that is
/// no ELF container is raw bytecode.
pub fn parse_binary(data: &[u8]) -> (r: Result<SbpfBinary, ElfError>)
    ensures
        outcome_view(r) == load_outcome(data@),
        r is Err <==> has_elf_magic(data@) && parsed_sections(data@) is Some && elf_program(
            parsed_sections(data@)->Some_0,
            data@,
        ) is Err,
        r is Err ==> r->Err_0 == ElfError::NoText,
{
    or_raw_bytecode(parse_elf(data), data)
}

} // verus!

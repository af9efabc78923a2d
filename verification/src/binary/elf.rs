//! Finding the code and the metadata of a program inside an ELF image.

use crate::binary::{BinaryModel, MetadataModel, MetadataSection, SbpfBinary};
use crate::text::{same_text, starts_with};
use vstd::prelude::*;
use vstd::slice::{slice_subrange, slice_to_vec};

verus! {

/// What the section table of an ELF image says of one section.
#[derive(Debug, Clone)]
pub struct ElfSection {
    /// The section's name, when the string table has one for it.
    pub name: Option<String>,
    /// Address at which the section is mapped.
    pub addr: u64,
    /// Offset of the section's content in the image.
    pub offset: u64,
    /// Size of the section's content in bytes.
    pub size: u64,
}

/// What a section record holds.
pub struct SectionModel {
    pub name: Option<Seq<char>>,
    pub addr: u64,
    pub offset: u64,
    pub size: u64,
}

impl DeepView for ElfSection {
    type V = SectionModel;

    open spec fn deep_view(&self) -> SectionModel {
        SectionModel {
            name: match self.name {
                Some(n) => Some(n@),
                None => None,
            },
            addr: self.addr,
            offset: self.offset,
            size: self.size,
        }
    }
}

/// Why no program could be taken from an image.
#[derive(Debug, Clone, Copy, PartialEq, Eq, Structural)]
pub enum ElfError {
    /// The image cannot be parsed as an object file.
    Parse,
    /// The image is an object file, but not ELF.
    NotElf,
    /// The ELF image has no usable `.text` section.
    NoText,
}

impl ElfError {
    /// The message of each error.
    pub open spec fn message_text(self) -> Seq<char> {
        match self {
            ElfError::Parse => "Failed to parse ELF file"@,
            ElfError::NotElf => "Not an ELF file"@,
            ElfError::NoText => "No .text section found in ELF file"@,
        }
    }

    /// A message for the error.
    pub fn message(&self) -> (s: &'static str)
        ensures
            s@ == self.message_text(),
    {
        match self {
            ElfError::Parse => "Failed to parse ELF file",
            ElfError::NotElf => "Not an ELF file",
            ElfError::NoText => "No .text section found in ELF file",
        }
    }
}

#[verifier::external_type_specification]
#[verifier::external_body]
pub struct ExGoblinError(goblin::error::Error);

/// Whether an image begins as an ELF file does: it has at least sixteen
/// bytes, and the first four are `0x7f`, `E`, `L`, `F`.
pub open spec fn has_elf_magic(data: Seq<u8>) -> bool {
    data.len() >= 16 && data[0] == 0x7f && data[1] == 0x45 && data[2] == 0x4c && data[3] == 0x46
}

/// Whether an image begins as an ELF file does.
pub fn is_elf(data: &[u8]) -> (b: bool)
    ensures
        b == has_elf_magic(data@),
{
    data.len() >= 16 && data[0] == 0x7f && data[1] == 0x45 && data[2] == 0x4c && data[3] == 0x46
}

/// The section table that `goblin::elf::Elf::parse` finds in an image that
/// begins as an ELF file does, or `None` where it rejects the image: a
/// function of the image's bytes.
pub uninterp spec fn parsed_sections(data: Seq<u8>) -> Option<Seq<SectionModel>>;

/// Parses an image with `goblin::elf::Elf::parse`; only images that begin
/// as an ELF file does are handed to it. The outcome is the one that
/// `parsed_sections` names for these bytes: goblin's error for an image it
/// rejects, and otherwise the section headers in table order, each with the
/// name that `Strtab::get_at` finds for it in the section-header string
/// table.
#[verifier::external_body]
fn read_sections(data: &[u8]) -> (r: Result<Vec<ElfSection>, goblin::error::Error>)
    requires
        has_elf_magic(data@),
    ensures
        parsed_sections(data@) == match r {
            Ok(sections) => Some(sections.deep_view()),
            Err(_) => None,
        },
{
    let elf = goblin::elf::Elf::parse(data)?;
    let headers = elf.section_headers.iter();
    let sections = headers.map(
        |s| ElfSection {
            name: elf.shdr_strtab.get_at(s.sh_name).map(|n| n.to_string()),
            addr: s.sh_addr,
            offset: s.sh_offset,
            size: s.sh_size,
        },
    );
    Ok(sections.collect())
}

/// Whether the content of a section lies inside an image of `len` bytes.
pub open spec fn in_image(section: SectionModel, len: nat) -> bool {
    section.offset + section.size <= len
}

/// Whether a section holds the program's code.
pub open spec fn is_text(section: SectionModel) -> bool {
    section.name == Some(".text"@)
}

/// Whether a section holds metadata: its name begins with `.metadata` or
/// `.rodata`.
pub open spec fn is_metadata(section: SectionModel) -> bool {
    match section.name {
        Some(name) => ".metadata"@.is_prefix_of(name) || ".rodata"@.is_prefix_of(name),
        None => false,
    }
}

/// The bytes of a section inside an image.
pub open spec fn content(section: SectionModel, data: Seq<u8>) -> Seq<u8> {
    data.subrange(section.offset as int, section.offset + section.size)
}

/// The last `.text` section that lies inside the image, if there is one.
pub open spec fn last_text(sections: Seq<SectionModel>, len: nat) -> Option<SectionModel>
    decreases sections.len(),
{
    if sections.len() == 0 {
        None
    } else if is_text(sections.last()) && in_image(sections.last(), len) {
        Some(sections.last())
    } else {
        last_text(sections.drop_last(), len)
    }
}

/// The metadata record of a section, for a metadata section inside the
/// image.
pub open spec fn metadata_within(data: Seq<u8>) -> spec_fn(SectionModel) -> Option<
    MetadataModel,
> {
    |s: SectionModel|
        if !is_text(s) && is_metadata(s) && in_image(s, data.len()) {
            Some(MetadataModel { name: s.name->Some_0, data: content(s, data) })
        } else {
            None
        }
}

/// The program inside an ELF image with the given sections: its code is
/// the content of the last `.text` section inside the image, mapped at that
/// section's address; its metadata are the metadata sections inside the
/// image, in table order. Without such a `.text` section, or with an empty
/// one, there is no program.
pub open spec fn elf_program(sections: Seq<SectionModel>, data: Seq<u8>) -> Result<
    BinaryModel,
    ElfError,
> {
    match last_text(sections, data.len()) {
        Some(text) => if text.size > 0 {
            Ok(
                BinaryModel {
                    bytecode: content(text, data),
                    entry_point: text.addr,
                    version: None,
                    metadata: sections.filter_map(metadata_within(data)),
                },
            )
        } else {
            Err(ElfError::NoText)
        },
        None => Err(ElfError::NoText),
    }
}

/// What `parse_elf` makes of an image. An image of fewer than sixteen bytes
/// cannot be parsed; a longer one that does not begin as an ELF file does
/// is not ELF; one that does is parsed, and either rejected or searched for
/// its program.
pub open spec fn elf_outcome(data: Seq<u8>) -> Result<BinaryModel, ElfError> {
    if data.len() < 16 {
        Err(ElfError::Parse)
    } else if !has_elf_magic(data) {
        Err(ElfError::NotElf)
    } else {
        match parsed_sections(data) {
            Some(sections) => elf_program(sections, data),
            None => Err(ElfError::Parse),
        }
    }
}

/// The deep view of a result that holds a program.
pub open spec fn outcome_view(r: Result<SbpfBinary, ElfError>) -> Result<BinaryModel, ElfError> {
    match r {
        Ok(binary) => Ok(binary.deep_view()),
        Err(e) => Err(e),
    }
}

/// Copies the content of a section out of the image, if it lies inside.
fn section_content(section: &ElfSection, data: &[u8]) -> (bytes: Option<Vec<u8>>)
    ensures
        bytes is Some <==> in_image(section.deep_view(), data@.len()),
        bytes is Some ==> bytes->Some_0@ == content(section.deep_view(), data@),
{
    let end: u128 = section.offset as u128 + section.size as u128;
    if end <= data.len() as u128 {
        let start: usize = section.offset as usize;
        Some(slice_to_vec(slice_subrange(data, start, end as usize)))
    } else {
        None
    }
}

/// Takes the program out of an ELF image, given its section table.
pub fn extract_program(sections: &[ElfSection], data: &[u8]) -> (r: Result<SbpfBinary, ElfError>)
    ensures
        outcome_view(r) == elf_program(sections.deep_view(), data@),
{
    let ghost table = sections.deep_view();
    let ghost keep = metadata_within(data@);
    let mut bytecode: Vec<u8> = Vec::new();
    let mut entry_point: u64 = 0;
    let mut metadata: Vec<MetadataSection> = Vec::new();
    let ghost mut found: Option<SectionModel> = None;
    let n: usize = sections.len();
    let mut i: usize = 0;
    while i < n
        invariant
            n == sections@.len(),
            table == sections.deep_view(),
            keep == metadata_within(data@),
            0 <= i <= n,
            found == last_text(table.take(i as int), data@.len()),
            found is Some ==> bytecode@ == content(found->Some_0, data@) && entry_point
                == found->Some_0.addr && bytecode@.len() == found->Some_0.size,
            found is None ==> bytecode@.len() == 0,
            metadata.deep_view() == table.take(i as int).filter_map(keep),
        decreases n - i,
    {
        let section = &sections[i];
        let ghost before = metadata.deep_view();
        proof {
            assert(table.take(i + 1).drop_last() =~= table.take(i as int));
            table.lemma_filter_map_take_succ(keep, i as int);
        }
        match &section.name {
            Some(name) => {
                if same_text(name.as_str(), ".text") {
                    match section_content(section, data) {
                        Some(bytes) => {
                            bytecode = bytes;
                            entry_point = section.addr;
                            proof {
                                found = Some(section.deep_view());
                            }
                        },
                        None => {},
                    }
                } else if starts_with(name.as_str(), ".metadata") || starts_with(
                    name.as_str(),
                    ".rodata",
                ) {
                    match section_content(section, data) {
                        Some(bytes) => {
                            metadata.push(MetadataSection { name: name.clone(), data: bytes });
                            assert(metadata.deep_view() =~= before + seq![
                                MetadataModel {
                                    name: name@,
                                    data: content(section.deep_view(), data@),
                                },
                            ]);
                        },
                        None => {},
                    }
                }
            },
            None => {},
        }
        i = i + 1;
    }
    assert(table.take(n as int) =~= table);
    if bytecode.len() == 0 {
        return Err(ElfError::NoText);
    }
    let version = detect_version(bytecode.as_slice());
    Ok(SbpfBinary { bytecode, entry_point, version, metadata })
}

/// The revision that the code itself gives away: none.
pub fn detect_version(bytecode: &[u8]) -> (v: Option<crate::binary::SbpfVersion>)
    ensures
        v is None,
{
    None
}

/// Parses an ELF image and takes the program out of it.
pub fn parse_elf(data: &[u8]) -> (r: Result<SbpfBinary, ElfError>)
    ensures
        outcome_view(r) == elf_outcome(data@),
{
    if data.len() < 16 {
        return Err(ElfError::Parse);
    }
    if !is_elf(data) {
        return Err(ElfError::NotElf);
    }
    match read_sections(data) {
        Ok(sections) => extract_program(sections.as_slice(), data),
        Err(_) => Err(ElfError::Parse),
    }
}

} // verus!

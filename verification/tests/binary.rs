use sbpf_tools::binary::elf::{
    detect_version, extract_program, is_elf, parse_elf, ElfError, ElfSection,
};
use sbpf_tools::binary::{or_raw_bytecode, parse_binary, raw_binary};

fn u16le(out: &mut Vec<u8>, v: u16) {
    out.extend_from_slice(&v.to_le_bytes());
}

fn u32le(out: &mut Vec<u8>, v: u32) {
    out.extend_from_slice(&v.to_le_bytes());
}

fn u64le(out: &mut Vec<u8>, v: u64) {
    out.extend_from_slice(&v.to_le_bytes());
}

fn section_header(out: &mut Vec<u8>, name: u32, kind: u32, addr: u64, offset: u64, size: u64) {
    u32le(out, name);
    u32le(out, kind);
    u64le(out, 0);
    u64le(out, addr);
    u64le(out, offset);
    u64le(out, size);
    u32le(out, 0);
    u32le(out, 0);
    u64le(out, 1);
    u64le(out, 0);
}

const CODE: [u8; 16] = [0xf0, 0x01, 0, 0, 42, 0, 0, 0, 0xff, 0, 0, 0, 0, 0, 0, 0];
const NAMES: &[u8] = b"\0.text\0.rodata\0.shstrtab\0.code\0";

/// A 64-bit little-endian ELF image with a code section of the given name
/// index, a `.rodata` section and the section-name table.
fn elf_image(code_name: u32) -> Vec<u8> {
    let mut image = Vec::new();
    image.extend_from_slice(&[0x7f, b'E', b'L', b'F', 2, 1, 1, 0, 0, 0, 0, 0, 0, 0, 0, 0]);
    u16le(&mut image, 1); // relocatable
    u16le(&mut image, 247); // BPF
    u32le(&mut image, 1);
    u64le(&mut image, 0); // entry
    u64le(&mut image, 0); // no program headers
    u64le(&mut image, 120); // section headers
    u32le(&mut image, 0);
    u16le(&mut image, 64);
    u16le(&mut image, 56);
    u16le(&mut image, 0);
    u16le(&mut image, 64);
    u16le(&mut image, 4);
    u16le(&mut image, 3);
    assert_eq!(image.len(), 64);
    image.extend_from_slice(&CODE); // 64..80
    image.extend_from_slice(&[9, 8, 7, 6]); // 80..84
    image.extend_from_slice(NAMES); // 84..115
    while image.len() < 120 {
        image.push(0);
    }
    section_header(&mut image, 0, 0, 0, 0, 0);
    section_header(&mut image, code_name, 1, 0x1000, 64, 16);
    section_header(&mut image, 7, 1, 0x2000, 80, 4);
    section_header(&mut image, 15, 3, 0, 84, NAMES.len() as u64);
    image
}

fn section(name: Option<&str>, addr: u64, offset: u64, size: u64) -> ElfSection {
    ElfSection { name: name.map(|n| n.to_string()), addr, offset, size }
}

#[test]
fn test_parse_raw_bytecode() {
    let data = vec![0u8; 16];
    let binary = parse_binary(&data).unwrap();
    assert_eq!(binary.bytecode.len(), 16);
    assert_eq!(binary.entry_point, 0);
}

#[test]
fn raw_bytecode_is_taken_as_it_is() {
    let data: Vec<u8> = (0..40u8).collect();
    let binary = parse_binary(&data).unwrap();
    assert_eq!(binary.bytecode, data);
    assert_eq!(binary.entry_point, 0);
    assert_eq!(binary.version, None);
    assert!(binary.metadata.is_empty());
    let direct = raw_binary(&data);
    assert_eq!(direct.bytecode, data);
    let empty = parse_binary(&[]).unwrap();
    assert!(empty.bytecode.is_empty());
}

#[test]
fn program_inside_an_elf_image() {
    let image = elf_image(1);
    let binary = parse_elf(&image).unwrap();
    assert_eq!(binary.bytecode, CODE.to_vec());
    assert_eq!(binary.entry_point, 0x1000);
    assert_eq!(binary.version, None);
    assert_eq!(binary.metadata.len(), 1);
    assert_eq!(binary.metadata[0].name, ".rodata");
    assert_eq!(binary.metadata[0].data, vec![9, 8, 7, 6]);
    let same = parse_binary(&image).unwrap();
    assert_eq!(same.bytecode, CODE.to_vec());
    assert_eq!(same.entry_point, 0x1000);
    assert_eq!(same.metadata.len(), 1);
}

#[test]
fn elf_image_without_text_section_fails_to_load() {
    let image = elf_image(25);
    assert_eq!(parse_elf(&image).err(), Some(ElfError::NoText));
    assert_eq!(parse_binary(&image).err(), Some(ElfError::NoText));
}

#[test]
fn image_that_only_begins_as_elf_is_raw_bytecode() {
    let mut cut = elf_image(1);
    cut.truncate(40);
    assert_eq!(parse_elf(&cut).err(), Some(ElfError::Parse));
    let binary = parse_binary(&cut).unwrap();
    assert_eq!(binary.bytecode, cut);
    assert_eq!(binary.entry_point, 0);
    assert_eq!(binary.version, None);
    assert!(binary.metadata.is_empty());
    let short = [0x7f, b'E', b'L', b'F', 2, 1, 1, 0];
    assert_eq!(parse_binary(&short).unwrap().bytecode, short.to_vec());
}

#[test]
fn elf_magic() {
    let mut image = vec![0u8; 16];
    assert!(!is_elf(&image));
    image[..4].copy_from_slice(&[0x7f, b'E', b'L', b'F']);
    assert!(is_elf(&image));
    assert!(!is_elf(&image[..15]));
    assert!(!is_elf(&[]));
    image[3] = b'G';
    assert!(!is_elf(&image));
    assert!(is_elf(&elf_image(1)));
}

#[test]
fn other_object_formats_are_not_elf() {
    // 64-bit Mach-O, little-endian.
    let mut macho = vec![0xcf, 0xfa, 0xed, 0xfe];
    macho.resize(64, 0);
    assert_eq!(parse_elf(&macho).err(), Some(ElfError::NotElf));
    assert_eq!(parse_binary(&macho).unwrap().bytecode, macho);
    // Unix archive.
    let mut archive = b"!<arch>\n".to_vec();
    archive.resize(32, b' ');
    assert_eq!(parse_elf(&archive).err(), Some(ElfError::NotElf));
    assert_eq!(parse_binary(&archive).unwrap().bytecode, archive);
    // DOS/PE.
    let mut pe = b"MZ".to_vec();
    pe.resize(64, 0);
    assert_eq!(parse_elf(&pe).err(), Some(ElfError::NotElf));
    assert_eq!(parse_binary(&pe).unwrap().bytecode, pe);
}

#[test]
fn settling_what_an_image_is() {
    let data = vec![1u8, 2, 3];
    let found = raw_binary(&[9, 9]);
    let kept = or_raw_bytecode(Ok(found), &data).unwrap();
    assert_eq!(kept.bytecode, vec![9, 9]);
    assert_eq!(or_raw_bytecode(Err(ElfError::NoText), &data).err(), Some(ElfError::NoText));
    let raw = or_raw_bytecode(Err(ElfError::NotElf), &data).unwrap();
    assert_eq!(raw.bytecode, data);
    assert_eq!(raw.entry_point, 0);
    let raw = or_raw_bytecode(Err(ElfError::Parse), &data).unwrap();
    assert_eq!(raw.bytecode, data);
    assert!(raw.metadata.is_empty());
}

#[test]
fn images_that_are_not_elf() {
    assert_eq!(parse_elf(&[0u8; 16]).err(), Some(ElfError::NotElf));
    assert_eq!(parse_elf(&[0u8; 64]).err(), Some(ElfError::NotElf));
}

#[test]
fn images_that_do_not_parse() {
    assert_eq!(parse_elf(&[]).err(), Some(ElfError::Parse));
    assert_eq!(parse_elf(&[0x7f, b'E', b'L', b'F']).err(), Some(ElfError::Parse));
    let mut cut = elf_image(1);
    cut.truncate(40);
    assert_eq!(parse_elf(&cut).err(), Some(ElfError::Parse));
}

#[test]
fn error_messages() {
    assert_eq!(ElfError::Parse.message(), "Failed to parse ELF file");
    assert_eq!(ElfError::NotElf.message(), "Not an ELF file");
    assert_eq!(ElfError::NoText.message(), "No .text section found in ELF file");
}

#[test]
fn extraction_takes_the_last_text_section_inside_the_image() {
    let data: Vec<u8> = (0..32u8).collect();
    let sections = vec![
        section(Some(".text"), 0x100, 0, 8),
        section(Some(".text"), 0x200, 8, 16),
        section(Some(".text"), 0x300, 24, 9), // reaches past the end
    ];
    let binary = extract_program(&sections, &data).unwrap();
    assert_eq!(binary.bytecode, data[8..24].to_vec());
    assert_eq!(binary.entry_point, 0x200);
    assert!(binary.metadata.is_empty());
}

#[test]
fn extraction_collects_metadata_in_table_order() {
    let data: Vec<u8> = (0..32u8).collect();
    let sections = vec![
        section(Some(".rodata.str"), 0, 30, 2),
        section(None, 0, 0, 4),
        section(Some(".metadata"), 0, 0, 0),
        section(Some(".text"), 0x40, 16, 8),
        section(Some(".rodata"), 0, 31, 2), // reaches past the end
        section(Some(".data"), 0, 0, 4),
        section(Some("rodata"), 0, 0, 4),
        section(Some(".metadata2"), 0, 4, 4),
    ];
    let binary = extract_program(&sections, &data).unwrap();
    assert_eq!(binary.bytecode, data[16..24].to_vec());
    assert_eq!(binary.entry_point, 0x40);
    let names: Vec<&str> = binary.metadata.iter().map(|m| m.name.as_str()).collect();
    assert_eq!(names, vec![".rodata.str", ".metadata", ".metadata2"]);
    assert_eq!(binary.metadata[0].data, vec![30, 31]);
    assert!(binary.metadata[1].data.is_empty());
    assert_eq!(binary.metadata[2].data, vec![4, 5, 6, 7]);
}

#[test]
fn extraction_without_usable_text_fails() {
    let data = vec![0u8; 8];
    assert_eq!(extract_program(&[], &data).err(), Some(ElfError::NoText));
    let empty_text = vec![section(Some(".text"), 0, 4, 0)];
    assert_eq!(extract_program(&empty_text, &data).err(), Some(ElfError::NoText));
    let outside = vec![section(Some(".text"), 0, 4, 5)];
    assert_eq!(extract_program(&outside, &data).err(), Some(ElfError::NoText));
    let huge = vec![section(Some(".text"), 0, u64::MAX, u64::MAX)];
    assert_eq!(extract_program(&huge, &data).err(), Some(ElfError::NoText));
    let other = vec![section(Some(".text2"), 0, 0, 8), section(Some(".rodata"), 0, 0, 8)];
    assert_eq!(extract_program(&other, &data).err(), Some(ElfError::NoText));
}

#[test]
fn an_empty_text_section_hides_an_earlier_one() {
    let data = vec![7u8; 8];
    let sections = vec![section(Some(".text"), 1, 0, 8), section(Some(".text"), 2, 8, 0)];
    assert_eq!(extract_program(&sections, &data).err(), Some(ElfError::NoText));
}

#[test]
fn code_gives_no_version_away() {
    assert_eq!(detect_version(&[]), None);
    assert_eq!(detect_version(&CODE), None);
}

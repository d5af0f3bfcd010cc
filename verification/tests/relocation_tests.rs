use mibpf_vm::relocation::resolve_relocations;

fn push_u16(out: &mut Vec<u8>, v: u16) {
    out.extend_from_slice(&v.to_le_bytes());
}

fn push_u32(out: &mut Vec<u8>, v: u32) {
    out.extend_from_slice(&v.to_le_bytes());
}

fn push_u64(out: &mut Vec<u8>, v: u64) {
    out.extend_from_slice(&v.to_le_bytes());
}

#[allow(clippy::too_many_arguments)]
fn push_section_header(
    out: &mut Vec<u8>,
    sh_type: u32,
    flags: u64,
    offset: u64,
    size: u64,
    link: u32,
    info: u32,
    entsize: u64,
) {
    push_u32(out, 0); // sh_name
    push_u32(out, sh_type);
    push_u64(out, flags);
    push_u64(out, 0); // sh_addr
    push_u64(out, offset);
    push_u64(out, size);
    push_u32(out, link);
    push_u32(out, info);
    push_u64(out, 8); // sh_addralign
    push_u64(out, entsize);
}

/// A minimal 64-bit relocatable ELF: a NULL section, `.text` with the given
/// bytes, `.data` at file offset 0x200, a symbol table, and a `.rel.text`
/// section.  Each symbol is (section index, value); each relocation is
/// (offset in `.text`, symbol index).
fn build_elf(text: &[u8], symbols: &[(u16, u64)], relocs: &[(u64, u32)]) -> Vec<u8> {
    let text_off = 64 + 5 * 64u64; // header + five section headers
    let nsyms = symbols.len() as u64 + 1; // leading NULL symbol
    let sym_off = text_off + text.len() as u64;
    let rel_off = sym_off + 24 * nsyms;
    let data_off = 0x200u64;
    assert!(rel_off + 16 * relocs.len() as u64 <= data_off);

    let mut out = Vec::new();
    // ELF header.
    out.extend_from_slice(&[0x7f, b'E', b'L', b'F', 2, 1, 1, 0]);
    out.extend_from_slice(&[0u8; 8]);
    push_u16(&mut out, 1); // e_type: relocatable
    push_u16(&mut out, 247); // e_machine: eBPF
    push_u32(&mut out, 1); // e_version
    push_u64(&mut out, 0); // e_entry
    push_u64(&mut out, 0); // e_phoff
    push_u64(&mut out, 64); // e_shoff
    push_u32(&mut out, 0); // e_flags
    push_u16(&mut out, 64); // e_ehsize
    push_u16(&mut out, 0); // e_phentsize
    push_u16(&mut out, 0); // e_phnum
    push_u16(&mut out, 64); // e_shentsize
    push_u16(&mut out, 5); // e_shnum
    push_u16(&mut out, 0); // e_shstrndx
    assert_eq!(out.len(), 64);

    // Section headers: NULL, .text, .data, .symtab, .rel.text.
    out.extend_from_slice(&[0u8; 64]);
    push_section_header(&mut out, 1, 6, text_off, text.len() as u64, 0, 0, 0);
    push_section_header(&mut out, 1, 3, data_off, 0x10, 0, 0, 0);
    push_section_header(&mut out, 2, 0, sym_off, 24 * nsyms, 0, 1, 24);
    push_section_header(&mut out, 9, 0, rel_off, 16 * relocs.len() as u64, 3, 1, 16);
    assert_eq!(out.len() as u64, text_off);

    out.extend_from_slice(text);

    // Symbol table: the NULL symbol, then each given symbol.
    out.extend_from_slice(&[0u8; 24]);
    for &(shndx, value) in symbols {
        push_u32(&mut out, 0); // st_name
        out.push(0); // st_info
        out.push(0); // st_other
        push_u16(&mut out, shndx);
        push_u64(&mut out, value);
        push_u64(&mut out, 0); // st_size
    }

    // Relocation records.
    for &(offset, sym) in relocs {
        push_u64(&mut out, offset);
        push_u64(&mut out, ((sym as u64) << 32) | 1);
    }

    while (out.len() as u64) < data_off {
        out.push(0);
    }
    out.extend_from_slice(&[0u8; 0x10]);
    out
}

fn read_u32_le(bytes: &[u8], at: usize) -> u32 {
    u32::from_le_bytes([bytes[at], bytes[at + 1], bytes[at + 2], bytes[at + 3]])
}

#[test]
fn data_relocation_patches_the_lddw_immediate() {
    // One `.data` relocation at text offset 0x10, symbol value 0x4 in the
    // section at file offset 0x200, image base 0x20000000: the lower
    // immediate four bytes into the instruction becomes 0x20000204.
    let mut text = vec![0u8; 0x20];
    text[0x10] = 0x18; // LDDW at the relocation offset
    let symbols = [(2u16, 0x4u64)]; // in .data, value 4
    let relocs = [(0x10u64, 1u32)];
    let mut image = build_elf(&text, &symbols, &relocs);
    let text_off = 64 + 5 * 64;

    resolve_relocations(&mut image, 0x2000_0000).unwrap();

    assert_eq!(read_u32_le(&image, text_off + 0x14), 0x2000_0204);
    // The opcode and the rest of the instruction are untouched.
    assert_eq!(image[text_off + 0x10], 0x18);
    assert_eq!(read_u32_le(&image, text_off + 0x18), 0);
}

#[test]
fn patching_accumulates_onto_the_prior_immediate() {
    let mut text = vec![0u8; 0x20];
    text[0x10] = 0x18;
    text[0x14] = 0x10; // prior immediate 0x10
    let mut image = build_elf(&text, &[(2, 0x4)], &[(0x10, 1)]);
    let text_off = 64 + 5 * 64;

    resolve_relocations(&mut image, 0x2000_0000).unwrap();

    assert_eq!(read_u32_le(&image, text_off + 0x14), 0x2000_0214);
}

#[test]
fn zero_relocation_records_change_nothing() {
    let mut text = vec![0u8; 0x20];
    text[0] = 0xb7; // mov r0, 42
    text[4] = 42;
    text[8] = 0x95; // exit
    let mut image = build_elf(&text, &[], &[]);
    let before = image.clone();

    resolve_relocations(&mut image, 0x2000_0000).unwrap();

    assert_eq!(image, before);
}

#[test]
fn non_lddw_targets_are_skipped() {
    // The relocation points at a byte that is not an LDDW opcode: the
    // record is skipped and the image survives unchanged.
    let text = vec![0u8; 0x20];
    let mut image = build_elf(&text, &[(2, 0x4)], &[(0x8, 1)]);
    let before = image.clone();

    resolve_relocations(&mut image, 0x2000_0000).unwrap();

    assert_eq!(image, before);
}

#[test]
fn out_of_text_offsets_are_skipped() {
    let mut text = vec![0u8; 0x20];
    text[0x10] = 0x18;
    let mut image = build_elf(&text, &[(2, 0x4)], &[(0x1000, 1)]);
    let before = image.clone();

    resolve_relocations(&mut image, 0x2000_0000).unwrap();

    assert_eq!(image, before);
}

#[test]
fn unparsable_images_are_rejected_untouched() {
    let mut image = vec![1, 2, 3, 4, 5];
    let before = image.clone();
    let err = resolve_relocations(&mut image, 0x2000_0000).unwrap_err();
    assert_eq!(err, "Failed to parse the ELF binary");
    assert_eq!(image, before);
}

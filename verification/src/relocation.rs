//! Relocation resolution for raw ELF program images.
//!
//! A program stored as a raw object file carries relocation records for its
//! `.data` / `.rodata` references.  Once the image sits at its final address,
//! each record is resolved by adding the symbol's runtime address — image
//! base plus the symbol's section file offset plus the symbol value — to the
//! lower 32-bit immediate of the LDDW instruction at the record's offset in
//! `.text`.  Records whose offset lies outside `.text`, or whose target is
//! not an LDDW instruction, are skipped without failing, tolerating the
//! conservative records some toolchains emit.

use vstd::prelude::*;

verus! {

/// The opcode of the 16-byte "load 64-bit immediate" instruction pair, the
/// only instruction relocation may rewrite.
pub const LDDW_OPCODE: u8 = 0x18;

/// A section header reduced to what resolution needs: where the section's
/// bytes sit in the image, and how long they are.
#[derive(Clone, Copy, PartialEq, Eq, Structural, Debug)]
pub struct ElfSectionInfo {
    pub file_offset: u64,
    pub size: u64,
}

/// A symbol reduced to what resolution needs: the section it lives in and
/// its value (its offset within that section).
#[derive(Clone, Copy, PartialEq, Eq, Structural, Debug)]
pub struct ElfSymbol {
    pub section_index: usize,
    pub value: u64,
}

/// One relocation record: the offset within `.text` to patch, and the index
/// of the symbol whose address is added there.
#[derive(Clone, Copy, PartialEq, Eq, Structural, Debug)]
pub struct ElfRelocation {
    pub offset: u64,
    pub symbol_index: usize,
}

/// The tables of a parsed ELF image, reduced to plain values.
pub struct ElfInfo {
    pub sections: Vec<ElfSectionInfo>,
    pub symbols: Vec<ElfSymbol>,
    pub relocations: Vec<ElfRelocation>,
}

/// The mathematical value of [`ElfInfo`].
pub struct ElfModel {
    pub sections: Seq<ElfSectionInfo>,
    pub symbols: Seq<ElfSymbol>,
    pub relocations: Seq<ElfRelocation>,
}

impl View for ElfInfo {
    type V = ElfModel;

    open spec fn view(&self) -> ElfModel {
        ElfModel {
            sections: self.sections@,
            symbols: self.symbols@,
            relocations: self.relocations@,
        }
    }
}

/// The tables that parsing a given byte image yields, or nothing where the
/// image is not a well-formed ELF.  Parsing is a pure function of the bytes;
/// this name stands for its outcome.
pub uninterp spec fn elf_model_of(b: Seq<u8>) -> Option<ElfModel>;

/// Relies on `goblin::elf::Elf::parse`: returns the image's section headers,
/// symbol table and relocation records (in section order), reduced to their
/// numeric fields, or nothing if the image cannot be parsed as an ELF.
#[verifier::external_body]
pub(crate) fn parse_elf(program: &[u8]) -> (r: Option<ElfInfo>)
    ensures
        r matches Some(info) ==> elf_model_of(program@) == Some(info@),
        (r is Some) == (elf_model_of(program@) is Some),
{
    let Ok(elf) = goblin::elf::Elf::parse(program) else {
        return None;
    };
    Some(ElfInfo {
        sections: elf.section_headers.iter().map(
            |s| ElfSectionInfo { file_offset: s.sh_offset, size: s.sh_size },
        ).collect(),
        symbols: elf.syms.iter().map(
            |s| ElfSymbol { section_index: s.st_shndx, value: s.st_value },
        ).collect(),
        relocations: elf.shdr_relocs.iter().flat_map(|(_, rs)| rs.iter()).map(
            |r| ElfRelocation { offset: r.r_offset, symbol_index: r.r_sym },
        ).collect(),
    })
}

/// The 32-bit value a relocation record adds to its LDDW immediate: the image
/// base plus the symbol's section file offset plus the symbol value, reduced
/// modulo 2^32.  Nothing where the record's symbol or the symbol's section
/// does not exist.
pub open spec fn spec_patch_value(m: ElfModel, base: u64, rel: ElfRelocation) -> Option<u32> {
    if rel.symbol_index < m.symbols.len() {
        let sym = m.symbols[rel.symbol_index as int];
        if sym.section_index < m.sections.len() {
            let sec = m.sections[sym.section_index as int];
            Some((((base as int) + (sec.file_offset as int) + (sym.value as int)) % 0x1_0000_0000)
                as u32)
        } else {
            Option::None
        }
    } else {
        Option::None
    }
}

/// The resolvable records of the model, in order, paired with their patch
/// values, starting at record `i`.
pub open spec fn spec_collect_patches_from(m: ElfModel, base: u64, i: int) -> Seq<(u64, u32)>
    decreases m.relocations.len() - i,
{
    if 0 <= i < m.relocations.len() {
        let rest = spec_collect_patches_from(m, base, i + 1);
        match spec_patch_value(m, base, m.relocations[i]) {
            Some(v) => seq![(m.relocations[i].offset, v)] + rest,
            Option::None => rest,
        }
    } else {
        Seq::empty()
    }
}

/// A 32-bit little-endian read at position `i`.
pub open spec fn spec_u32_le(p: Seq<u8>, i: int) -> u32 {
    ((p[i] as int) + (p[i + 1] as int) * 0x100 + (p[i + 2] as int) * 0x1_0000 + (p[i + 3] as int)
        * 0x100_0000) as u32
}

/// A 32-bit little-endian write of `v` at position `i`.
pub open spec fn spec_write_u32_le(p: Seq<u8>, i: int, v: u32) -> Seq<u8> {
    p.update(i, (v as int % 0x100) as u8).update(i + 1, ((v as int / 0x100) % 0x100) as u8).update(
        i + 2,
        ((v as int / 0x1_0000) % 0x100) as u8,
    ).update(i + 3, ((v as int / 0x100_0000) % 0x100) as u8)
}

/// One patch applied to the image: if the 16-byte instruction at the record's
/// offset fits inside `.text` and starts with the LDDW opcode, `value` is
/// added (modulo 2^32) to the lower immediate, the four bytes after the
/// instruction's first word; otherwise the image is left alone.
pub open spec fn spec_apply_patch(
    p: Seq<u8>,
    text_off: int,
    text_len: int,
    rel_off: int,
    value: u32,
) -> Seq<u8> {
    if rel_off + 16 <= text_len && p[text_off + rel_off] == LDDW_OPCODE {
        let imm = spec_u32_le(p, text_off + rel_off + 4);
        let patched = (((imm as int) + (value as int)) % 0x1_0000_0000) as u32;
        spec_write_u32_le(p, text_off + rel_off + 4, patched)
    } else {
        p
    }
}

/// The patches from index `i` on, applied in order.
pub open spec fn spec_apply_patches_from(
    p: Seq<u8>,
    text_off: int,
    text_len: int,
    patches: Seq<(u64, u32)>,
    i: int,
) -> Seq<u8>
    decreases patches.len() - i,
{
    if 0 <= i < patches.len() {
        let p1 = spec_apply_patch(p, text_off, text_len, patches[i].0 as int, patches[i].1);
        spec_apply_patches_from(p1, text_off, text_len, patches, i + 1)
    } else {
        p
    }
}

/// Whether the model names a `.text` section that the resolver can use: the
/// section table has an entry at index 1 and its bytes lie inside the image.
pub open spec fn spec_text_usable(m: ElfModel, image_len: int) -> bool {
    &&& m.sections.len() >= 2
    &&& (m.sections[1].file_offset as int) + (m.sections[1].size as int) <= image_len
}

/// The resolved image: every resolvable relocation record applied, in order,
/// against the `.text` section at index 1 of the section table.
pub open spec fn spec_resolved(p: Seq<u8>, m: ElfModel, base: u64) -> Seq<u8> {
    spec_apply_patches_from(
        p,
        m.sections[1].file_offset as int,
        m.sections[1].size as int,
        spec_collect_patches_from(m, base, 0),
        0,
    )
}

/// Reads the 32-bit little-endian word at position `i` of the image.
pub(crate) fn read_u32_le(program: &Vec<u8>, i: usize) -> (r: u32)
    requires
        i + 4 <= program@.len(),
    ensures
        r == spec_u32_le(program@, i as int),
{
    let n = program.len();
    let b0 = program[i];
    let b1 = program[i + 1];
    let b2 = program[i + 2];
    let b3 = program[i + 3];
    (b0 as u32) + (b1 as u32) * 0x100 + (b2 as u32) * 0x1_0000 + (b3 as u32) * 0x100_0000
}

/// Writes `v` as a 32-bit little-endian word at position `i` of the image.
fn write_u32_le(program: &mut Vec<u8>, i: usize, v: u32)
    requires
        i + 4 <= old(program)@.len(),
    ensures
        final(program)@ == spec_write_u32_le(old(program)@, i as int, v),
{
    let n = program.len();
    program[i] = (v % 0x100) as u8;
    program[i + 1] = ((v / 0x100) % 0x100) as u8;
    program[i + 2] = ((v / 0x1_0000) % 0x100) as u8;
    program[i + 3] = ((v / 0x100_0000) % 0x100) as u8;
}

/// Applies one collected patch to the image, skipping records whose
/// instruction does not fit inside `.text` or does not start with the LDDW
/// opcode.
fn apply_patch(program: &mut Vec<u8>, text_off: usize, text_len: usize, rel_off: u64, value: u32)
    requires
        text_off + text_len <= old(program)@.len(),
    ensures
        final(program)@ == spec_apply_patch(
            old(program)@,
            text_off as int,
            text_len as int,
            rel_off as int,
            value,
        ),
        final(program)@.len() == old(program)@.len(),
{
    let n = program.len();
    proof {
        lemma_apply_patch_len(old(program)@, text_off as int, text_len as int, rel_off as int, value);
    }
    if text_len < 16 || rel_off > (text_len - 16) as u64 {
        return ;
    }
    let rel = rel_off as usize;
    assert(rel + 16 <= text_len);
    let insn_at = text_off + rel;
    assert(insn_at + 16 <= program@.len());
    if program[insn_at] != LDDW_OPCODE {
        return ;
    }
    let imm = read_u32_le(program, insn_at + 4);
    let patched = imm.wrapping_add(value);
    assert(patched == (((imm as int) + (value as int)) % 0x1_0000_0000) as u32) by {
        assert((imm as int) + (value as int) < 0x2_0000_0000);
        if imm + value > u32::MAX {
            assert(((imm as int) + (value as int)) % 0x1_0000_0000 == (imm as int) + (value as int) - 0x1_0000_0000);
        } else {
            assert(((imm as int) + (value as int)) % 0x1_0000_0000 == (imm as int) + (value as int));
        }
    }
    write_u32_le(program, insn_at + 4, patched);
}

/// A patch leaves the image's length alone.
proof fn lemma_apply_patch_len(p: Seq<u8>, text_off: int, text_len: int, rel_off: int, value: u32)
    requires
        0 <= text_off,
        0 <= rel_off,
        text_off + text_len <= p.len(),
    ensures
        spec_apply_patch(p, text_off, text_len, rel_off, value).len() == p.len(),
{
    if rel_off + 16 <= text_len && p[text_off + rel_off] == LDDW_OPCODE {
        let j = text_off + rel_off + 4;
        assert(j + 3 < p.len());
    }
}

/// Computes the patch value of one relocation record, exactly as
/// [`spec_patch_value`] names it.
fn compute_patch_value(info: &ElfInfo, base_address: u64, rel: ElfRelocation) -> (r: Option<u32>)
    ensures
        r == spec_patch_value(info@, base_address, rel),
{
    if rel.symbol_index >= info.symbols.len() {
        return None;
    }
    let sym = info.symbols[rel.symbol_index];
    if sym.section_index >= info.sections.len() {
        return None;
    }
    let sec = info.sections[sym.section_index];
    let wide = base_address.wrapping_add(sec.file_offset).wrapping_add(sym.value);
    let v = (wide % 0x1_0000_0000) as u32;
    proof {
        let total = (base_address as int) + (sec.file_offset as int) + (sym.value as int);
        lemma_wrapping_sum_mod_u32(base_address, sec.file_offset, sym.value);
        assert(v == (total % 0x1_0000_0000) as u32);
    }
    Some(v)
}

/// Adding three 64-bit words with wrap-around and keeping the low 32 bits is
/// addition modulo 2^32.
proof fn lemma_wrapping_sum_mod_u32(a: u64, b: u64, c: u64)
    ensures
        (vstd::wrapping::u64_specs::wrapping_add(
            vstd::wrapping::u64_specs::wrapping_add(a, b),
            c,
        ) as int) % 0x1_0000_0000 == ((a as int) + (b as int) + (c as int)) % 0x1_0000_0000,
{
    let m32 = 0x1_0000_0000int;
    let m64 = 0x1_0000_0000_0000_0000int;
    let ab = vstd::wrapping::u64_specs::wrapping_add(a, b) as int;
    assert(ab == ((a as int) + (b as int)) % m64 || ab == (a as int) + (b as int));
    if (a as int) + (b as int) > u64::MAX as int {
        assert(ab == (a as int) + (b as int) - m64);
    } else {
        assert(ab == (a as int) + (b as int));
    }
    let abc = vstd::wrapping::u64_specs::wrapping_add(
        vstd::wrapping::u64_specs::wrapping_add(a, b),
        c,
    ) as int;
    if ab + (c as int) > u64::MAX as int {
        assert(abc == ab + (c as int) - m64);
    } else {
        assert(abc == ab + (c as int));
    }
    let total = (a as int) + (b as int) + (c as int);
    assert(abc == total || abc == total - m64 || abc == total - 2 * m64);
    assert(0x1_0000_0000_0000_0000int == 0x1_0000_0000int * 0x1_0000_0000int) by (nonlinear_arith);
    assert(2 * 0x1_0000_0000_0000_0000int == 0x1_0000_0000int * 0x2_0000_0000int)
        by (nonlinear_arith);
    if abc == total - m64 {
        assert(total == m32 * 0x1_0000_0000 + abc);
        vstd::arithmetic::div_mod::lemma_mod_multiples_vanish(0x1_0000_0000, abc, m32);
    } else if abc == total - 2 * m64 {
        assert(total == m32 * 0x2_0000_0000 + abc);
        vstd::arithmetic::div_mod::lemma_mod_multiples_vanish(0x2_0000_0000, abc, m32);
    }
}

/// Applies relocations to the given program image, in place.
///
/// The image must be a well-formed ELF and `base_address` the address at
/// which it sits in memory: each resolvable record adds the runtime address
/// of its symbol — base address plus the symbol's section file offset plus
/// the symbol value — to the lower 32-bit immediate of the LDDW instruction
/// at the record's offset in `.text` (the section at index 1).  Records that
/// point outside `.text` or at a non-LDDW instruction are skipped.  The call
/// fails, leaving the image untouched, when the image cannot be parsed or
/// when it has no `.text` section usable for patching (absent, or lying
/// outside the image).
pub fn resolve_relocations(program: &mut Vec<u8>, base_address: u64) -> (r: Result<(), String>)
    ensures
        match elf_model_of(old(program)@) {
            Option::None => {
                &&& r matches Err(e) && e@ == "Failed to parse the ELF binary"@
                &&& final(program)@ == old(program)@
            },
            Option::Some(m) => {
                if spec_text_usable(m, old(program)@.len() as int) {
                    &&& r is Ok
                    &&& final(program)@ == spec_resolved(old(program)@, m, base_address)
                } else {
                    &&& r matches Err(e) && e@ == "Failed to find the .text section"@
                    &&& final(program)@ == old(program)@
                }
            },
        },
        final(program)@.len() == old(program)@.len(),
{
    let image_len = program.len();
    let info = match parse_elf(program.as_slice()) {
        Option::None => {
            return Err(String::from_str("Failed to parse the ELF binary"));
        },
        Option::Some(i) => i,
    };
    let ghost m = info@;
    if info.sections.len() < 2 {
        return Err(String::from_str("Failed to find the .text section"));
    }
    let text = info.sections[1];
    if text.file_offset > image_len as u64 || text.size > image_len as u64 - text.file_offset {
        assert(!spec_text_usable(m, old(program)@.len() as int));
        return Err(String::from_str("Failed to find the .text section"));
    }
    assert(spec_text_usable(m, old(program)@.len() as int));
    let text_off = text.file_offset as usize;
    let text_len = text.size as usize;

    let mut patches: Vec<(u64, u32)> = Vec::new();
    let mut idx: usize = 0;
    while idx < info.relocations.len()
        invariant
            idx <= info.relocations@.len(),
            m == info@,
            spec_collect_patches_from(m, base_address, 0) == patches@ + spec_collect_patches_from(
                m,
                base_address,
                idx as int,
            ),
        decreases info.relocations@.len() - idx,
    {
        let rel = info.relocations[idx];
        let ghost patches_before = patches@;
        match compute_patch_value(&info, base_address, rel) {
            Option::Some(v) => {
                patches.push((rel.offset, v));
                proof {
                    assert(spec_collect_patches_from(m, base_address, idx as int) == seq![
                        (rel.offset, v),
                    ] + spec_collect_patches_from(m, base_address, idx as int + 1));
                    assert(patches_before + spec_collect_patches_from(m, base_address, idx as int)
                        =~= patches@ + spec_collect_patches_from(m, base_address, idx as int + 1));
                }
            },
            Option::None => {
                proof {
                    assert(spec_collect_patches_from(m, base_address, idx as int)
                        == spec_collect_patches_from(m, base_address, idx as int + 1));
                }
            },
        }
        idx += 1;
    }
    proof {
        assert(spec_collect_patches_from(m, base_address, idx as int) =~= Seq::<(u64, u32)>::empty());
        assert(patches@ + Seq::<(u64, u32)>::empty() =~= patches@);
        assert(spec_collect_patches_from(m, base_address, 0) == patches@);
    }

    let ghost orig = program@;
    let mut j: usize = 0;
    while j < patches.len()
        invariant
            j <= patches@.len(),
            program@.len() == orig.len(),
            text_off + text_len <= program@.len(),
            spec_apply_patches_from(program@, text_off as int, text_len as int, patches@, j as int)
                == spec_apply_patches_from(orig, text_off as int, text_len as int, patches@, 0),
        decreases patches@.len() - j,
    {
        let pair = patches[j];
        apply_patch(program, text_off, text_len, pair.0, pair.1);
        j += 1;
    }
    assert(program@ == spec_apply_patches_from(orig, text_off as int, text_len as int, patches@, 0));
    Ok(())
}

/// Whether a record at offset `off` is actually patched: its 16-byte
/// instruction fits inside `.text` and starts with the LDDW opcode.
pub open spec fn spec_patch_applicable(p: Seq<u8>, text_off: int, text_len: int, off: int) -> bool {
    off + 16 <= text_len && p[text_off + off] == LDDW_OPCODE
}

/// Whether byte position `b` lies in the lower-immediate field of one of the
/// patches from index `i` on that is applicable in image `p`.
pub open spec fn spec_in_patched_imm(
    p: Seq<u8>,
    text_off: int,
    text_len: int,
    patches: Seq<(u64, u32)>,
    i: int,
    b: int,
) -> bool {
    exists|k: int|
        i <= k < patches.len() && spec_patch_applicable(p, text_off, text_len, patches[k].0 as int)
            && text_off + (patches[k].0 as int) + 4 <= b < text_off + (patches[k].0 as int) + 8
}

/// A 32-bit little-endian write puts exactly its value where a read finds
/// it, leaves the image's length alone, and touches no byte outside its four
/// positions.
proof fn lemma_write_u32_le_props(p: Seq<u8>, i: int, v: u32)
    requires
        0 <= i,
        i + 4 <= p.len(),
    ensures
        spec_write_u32_le(p, i, v).len() == p.len(),
        forall|b: int|
            0 <= b < p.len() && !(i <= b < i + 4) ==> spec_write_u32_le(p, i, v)[b] == p[b],
        spec_u32_le(spec_write_u32_le(p, i, v), i) == v,
{
    let q = spec_write_u32_le(p, i, v);
    let x = v as int;
    let r0 = x % 0x100;
    let r1 = (x / 0x100) % 0x100;
    let r2 = (x / 0x1_0000) % 0x100;
    let r3 = (x / 0x100_0000) % 0x100;
    assert(q[i] == r0 as u8 && q[i + 1] == r1 as u8 && q[i + 2] == r2 as u8 && q[i + 3] == r3
        as u8);
    lemma_u32_byte_decomposition(v);
    assert(spec_u32_le(q, i) == v);
}

/// Every 32-bit value is the little-endian sum of its four bytes.
proof fn lemma_u32_byte_decomposition(v: u32)
    ensures
        (v as int) == (v as int) % 0x100 + (((v as int) / 0x100) % 0x100) * 0x100 + (((v as int)
            / 0x1_0000) % 0x100) * 0x1_0000 + (((v as int) / 0x100_0000) % 0x100) * 0x100_0000,
{
    let x = v as int;
    vstd::arithmetic::div_mod::lemma_fundamental_div_mod(x, 0x100);
    let q1 = x / 0x100;
    vstd::arithmetic::div_mod::lemma_fundamental_div_mod(q1, 0x100);
    let q2 = q1 / 0x100;
    vstd::arithmetic::div_mod::lemma_fundamental_div_mod(q2, 0x100);
    let q3 = q2 / 0x100;
    assert(q2 == x / 0x1_0000) by {
        vstd::arithmetic::div_mod::lemma_div_denominator(x, 0x100, 0x100);
    }
    assert(q3 == x / 0x100_0000) by {
        vstd::arithmetic::div_mod::lemma_div_denominator(x, 0x1_0000, 0x100);
        vstd::arithmetic::div_mod::lemma_div_denominator(x, 0x100, 0x100);
        vstd::arithmetic::div_mod::lemma_div_denominator(q1, 0x100, 0x100);
    }
    assert(q3 < 0x100) by {
        assert(x < 0x1_0000_0000);
        vstd::arithmetic::div_mod::lemma_div_is_ordered(x, 0x1_0000_0000 - 1, 0x100_0000);
        assert((0x1_0000_0000int - 1) / 0x100_0000 == 0xff);
    }
    assert(q3 >= 0) by {
        vstd::arithmetic::div_mod::lemma_div_pos_is_pos(x, 0x100_0000);
    }
    vstd::arithmetic::div_mod::lemma_small_mod(q3 as nat, 0x100);
    assert(x == x % 0x100 + (q1 % 0x100) * 0x100 + (q2 % 0x100) * 0x1_0000 + q3 * 0x100_0000) by {
        assert(x == 0x100 * q1 + x % 0x100);
        assert(q1 == 0x100 * q2 + q1 % 0x100);
        assert(q2 == 0x100 * q3 + q2 % 0x100);
        assert(0x100 * (0x100 * q2 + q1 % 0x100) == 0x1_0000 * q2 + (q1 % 0x100) * 0x100)
            by (nonlinear_arith);
        assert(0x1_0000 * (0x100 * q3 + q2 % 0x100) == 0x100_0000 * q3 + (q2 % 0x100) * 0x1_0000)
            by (nonlinear_arith);
    }
}

/// One patch, exactly: an applicable record adds its value (modulo 2^32) to
/// the four immediate bytes and leaves every other byte alone; a
/// non-applicable record changes nothing.
proof fn lemma_apply_patch_exact(p: Seq<u8>, text_off: int, text_len: int, off: int, v: u32)
    requires
        0 <= text_off,
        0 <= off,
        text_off + text_len <= p.len(),
    ensures
        spec_apply_patch(p, text_off, text_len, off, v).len() == p.len(),
        !spec_patch_applicable(p, text_off, text_len, off) ==> spec_apply_patch(
            p,
            text_off,
            text_len,
            off,
            v,
        ) == p,
        spec_patch_applicable(p, text_off, text_len, off) ==> {
            let q = spec_apply_patch(p, text_off, text_len, off, v);
            &&& forall|b: int|
                0 <= b < p.len() && !(text_off + off + 4 <= b < text_off + off + 8) ==> q[b] == p[b]
            &&& spec_u32_le(q, text_off + off + 4) == (((spec_u32_le(p, text_off + off + 4) as int)
                + (v as int)) % 0x1_0000_0000) as u32
        },
{
    if spec_patch_applicable(p, text_off, text_len, off) {
        let imm = spec_u32_le(p, text_off + off + 4);
        let patched = (((imm as int) + (v as int)) % 0x1_0000_0000) as u32;
        lemma_write_u32_le_props(p, text_off + off + 4, patched);
    }
}

/// The patches from index `i` on, applied in order, change exactly the
/// immediate fields of the applicable records — provided no two records'
/// instruction windows overlap.  Each such field ends up holding its old
/// value plus the record's patch value, modulo 2^32; every byte outside
/// those fields is unchanged.
proof fn lemma_apply_patches_exact(
    p: Seq<u8>,
    text_off: int,
    text_len: int,
    patches: Seq<(u64, u32)>,
    i: int,
)
    requires
        0 <= text_off,
        text_off + text_len <= p.len(),
        0 <= i <= patches.len(),
        forall|k1: int, k2: int|
            i <= k1 < k2 < patches.len() ==> (patches[k1].0 as int) + 16 <= (patches[k2].0 as int)
                || (patches[k2].0 as int) + 16 <= (patches[k1].0 as int),
    ensures
        ({
            let q = spec_apply_patches_from(p, text_off, text_len, patches, i);
            &&& q.len() == p.len()
            &&& forall|b: int|
                0 <= b < p.len() && !spec_in_patched_imm(p, text_off, text_len, patches, i, b)
                    ==> q[b] == p[b]
            &&& forall|k: int|
                i <= k < patches.len() && spec_patch_applicable(
                    p,
                    text_off,
                    text_len,
                    patches[k].0 as int,
                ) ==> spec_u32_le(q, text_off + (patches[k].0 as int) + 4) == (((spec_u32_le(
                    p,
                    text_off + (patches[k].0 as int) + 4,
                ) as int) + (patches[k].1 as int)) % 0x1_0000_0000) as u32
        }),
    decreases patches.len() - i,
{
    if i < patches.len() {
        let off = patches[i].0 as int;
        let v = patches[i].1;
        let p1 = spec_apply_patch(p, text_off, text_len, off, v);
        lemma_apply_patch_exact(p, text_off, text_len, off, v);
        lemma_apply_patches_exact(p1, text_off, text_len, patches, i + 1);
        let q = spec_apply_patches_from(p, text_off, text_len, patches, i);
        assert(q == spec_apply_patches_from(p1, text_off, text_len, patches, i + 1));

        // Later patches see the same applicability and the same immediate
        // fields: patch `i` writes only inside its own instruction window,
        // which is disjoint from every later one.
        assert forall|k: int|
            i + 1 <= k < patches.len() implies spec_patch_applicable(
            p1,
            text_off,
            text_len,
            patches[k].0 as int,
        ) == spec_patch_applicable(p, text_off, text_len, patches[k].0 as int) by {
            let offk = patches[k].0 as int;
            if offk + 16 <= text_len {
                assert(p1[text_off + offk] == p[text_off + offk]);
            }
        }
        assert forall|k: int|
            i + 1 <= k < patches.len() && spec_patch_applicable(
                p,
                text_off,
                text_len,
                patches[k].0 as int,
            ) implies spec_u32_le(p1, text_off + (patches[k].0 as int) + 4) == spec_u32_le(
            p,
            text_off + (patches[k].0 as int) + 4,
        ) by {
            let offk = patches[k].0 as int;
            assert(p1[text_off + offk + 4] == p[text_off + offk + 4]);
            assert(p1[text_off + offk + 5] == p[text_off + offk + 5]);
            assert(p1[text_off + offk + 6] == p[text_off + offk + 6]);
            assert(p1[text_off + offk + 7] == p[text_off + offk + 7]);
        }

        // The frame: a byte outside every patched immediate field from `i`
        // on is outside patch `i`'s field and outside every later field.
        assert forall|b: int|
            0 <= b < p.len() && !spec_in_patched_imm(p, text_off, text_len, patches, i, b) implies q[b]
            == p[b] by {
            assert(!spec_in_patched_imm(p1, text_off, text_len, patches, i + 1, b)) by {
                if spec_in_patched_imm(p1, text_off, text_len, patches, i + 1, b) {
                    let k = choose|k: int|
                        i + 1 <= k < patches.len() && spec_patch_applicable(
                            p1,
                            text_off,
                            text_len,
                            patches[k].0 as int,
                        ) && text_off + (patches[k].0 as int) + 4 <= b < text_off + (patches[k].0
                            as int) + 8;
                    assert(spec_patch_applicable(p, text_off, text_len, patches[k].0 as int));
                    assert(spec_in_patched_imm(p, text_off, text_len, patches, i, b));
                }
            }
            if spec_patch_applicable(p, text_off, text_len, off) {
                assert(!(text_off + off + 4 <= b < text_off + off + 8)) by {
                    if text_off + off + 4 <= b < text_off + off + 8 {
                        assert(spec_in_patched_imm(p, text_off, text_len, patches, i, b));
                    }
                }
                assert(p1[b] == p[b]);
            }
        }

        // The formula, for patch `i` itself and for every later patch.
        if spec_patch_applicable(p, text_off, text_len, off) {
            assert forall|b: int|
                #![trigger spec_in_patched_imm(p1, text_off, text_len, patches, i + 1, b)]
                text_off + off + 4 <= b < text_off + off + 8 implies !spec_in_patched_imm(
                p1,
                text_off,
                text_len,
                patches,
                i + 1,
                b,
            ) by {
                if spec_in_patched_imm(p1, text_off, text_len, patches, i + 1, b) {
                    let k = choose|k: int|
                        i + 1 <= k < patches.len() && spec_patch_applicable(
                            p1,
                            text_off,
                            text_len,
                            patches[k].0 as int,
                        ) && text_off + (patches[k].0 as int) + 4 <= b < text_off + (patches[k].0
                            as int) + 8;
                    assert((patches[i].0 as int) + 16 <= (patches[k].0 as int) || (patches[k].0
                        as int) + 16 <= (patches[i].0 as int));
                }
            }
            assert(spec_u32_le(q, text_off + off + 4) == spec_u32_le(p1, text_off + off + 4)) by {
                assert(q[text_off + off + 4] == p1[text_off + off + 4]);
                assert(q[text_off + off + 5] == p1[text_off + off + 5]);
                assert(q[text_off + off + 6] == p1[text_off + off + 6]);
                assert(q[text_off + off + 7] == p1[text_off + off + 7]);
            }
        }
    }
}

/// The resolver patches exactly the applicable relocation records, adding
/// each record's target address modulo 2^32 to the LDDW lower immediate at
/// its offset, and leaves every byte outside those immediate fields
/// unchanged — provided no two records' instruction windows overlap.
pub proof fn lemma_resolution_is_exact(p: Seq<u8>, m: ElfModel, base: u64)
    requires
        spec_text_usable(m, p.len() as int),
        ({
            let patches = spec_collect_patches_from(m, base, 0);
            forall|k1: int, k2: int|
                0 <= k1 < k2 < patches.len() ==> (patches[k1].0 as int) + 16 <= (patches[k2].0
                    as int) || (patches[k2].0 as int) + 16 <= (patches[k1].0 as int)
        }),
    ensures
        ({
            let text_off = m.sections[1].file_offset as int;
            let text_len = m.sections[1].size as int;
            let patches = spec_collect_patches_from(m, base, 0);
            let q = spec_resolved(p, m, base);
            &&& q.len() == p.len()
            &&& forall|b: int|
                0 <= b < p.len() && !spec_in_patched_imm(p, text_off, text_len, patches, 0, b)
                    ==> q[b] == p[b]
            &&& forall|k: int|
                0 <= k < patches.len() && spec_patch_applicable(
                    p,
                    text_off,
                    text_len,
                    patches[k].0 as int,
                ) ==> spec_u32_le(q, text_off + (patches[k].0 as int) + 4) == (((spec_u32_le(
                    p,
                    text_off + (patches[k].0 as int) + 4,
                ) as int) + (patches[k].1 as int)) % 0x1_0000_0000) as u32
        }),
{
    let text_off = m.sections[1].file_offset as int;
    let text_len = m.sections[1].size as int;
    let patches = spec_collect_patches_from(m, base, 0);
    lemma_apply_patches_exact(p, text_off, text_len, patches, 0);
}

/// With no relocation records at all, resolution leaves the image untouched.
pub proof fn lemma_resolution_without_records_is_noop(p: Seq<u8>, m: ElfModel, base: u64)
    requires
        m.relocations.len() == 0,
    ensures
        spec_resolved(p, m, base) == p,
{
    assert(spec_collect_patches_from(m, base, 0) =~= Seq::<(u64, u32)>::empty());
}

} // verus!

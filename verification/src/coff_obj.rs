//! Building blocks of a standard COFF object file: file header, section
//! headers, relocations, symbol-table records and the string table.

use vstd::prelude::*;
use crate::bytes::{push_u16_le, push_u32_le, u16_le, u32_le};

verus! {

/// Section characteristics: initialized data, readable, writable, 2-byte aligned.
pub const SEC_IDATA_ALIGN2: u32 = 0xc0200040;

/// Section characteristics: initialized data, readable, writable, 4-byte aligned.
pub const SEC_IDATA_ALIGN4: u32 = 0xc0300040;

/// Section characteristics: initialized data, readable, writable, 8-byte aligned.
pub const SEC_IDATA_ALIGN8: u32 = 0xc0400040;

/// Relocation type: 32-bit address relative to the image base.
pub const RELOC_ADDR32NB: u16 = 3;

/// Storage class of an externally visible symbol.
pub const CLASS_EXTERNAL: u8 = 2;

/// Storage class of a section-reference symbol.
pub const CLASS_SECTION: u8 = 104;

/// Byte length of one symbol-table record.
pub const SYMBOL_RECORD_LEN: usize = 18;

/// The 20-byte COFF file header; timestamp, optional-header size and
/// characteristics are fixed to zero for deterministic output.
pub open spec fn coff_header_bytes(
    machine: u16,
    n_sections: u16,
    symtab_offset: u32,
    n_symbols: u32,
) -> Seq<u8> {
    u16_le(machine) + u16_le(n_sections) + u32_le(0) + u32_le(symtab_offset) + u32_le(n_symbols)
        + u16_le(0) + u16_le(0)
}

pub fn push_coff_header(v: &mut Vec<u8>, machine: u16, n_sections: u16, symtab_offset: u32, n_symbols: u32)
    ensures
        final(v)@ == old(v)@ + coff_header_bytes(machine, n_sections, symtab_offset, n_symbols),
{
    push_u16_le(v, machine);
    push_u16_le(v, n_sections);
    push_u32_le(v, 0);
    push_u32_le(v, symtab_offset);
    push_u32_le(v, n_symbols);
    push_u16_le(v, 0);
    push_u16_le(v, 0);
    assert(v@ =~= old(v)@ + coff_header_bytes(machine, n_sections, symtab_offset, n_symbols));
}

/// The 8-byte section name `.idata$<digit>`.
pub open spec fn idata_name(digit: u8) -> Seq<u8> {
    seq![0x2eu8, 0x69u8, 0x64u8, 0x61u8, 0x74u8, 0x61u8, 0x24u8, digit]
}

pub fn push_idata_name(v: &mut Vec<u8>, digit: u8)
    ensures
        final(v)@ == old(v)@ + idata_name(digit),
{
    v.push(0x2e);  // .
    v.push(0x69);  // i
    v.push(0x64);  // d
    v.push(0x61);  // a
    v.push(0x74);  // t
    v.push(0x61);  // a
    v.push(0x24);  // $
    v.push(digit);
    assert(v@ =~= old(v)@ + idata_name(digit));
}

/// A 40-byte section header; virtual size, virtual address and line-number
/// fields are zero for these freshly generated objects.
pub open spec fn section_header_bytes(
    name: Seq<u8>,
    raw_size: u32,
    raw_offset: u32,
    reloc_offset: u32,
    n_relocs: u16,
    characteristics: u32,
) -> Seq<u8> {
    name + u32_le(0) + u32_le(0) + u32_le(raw_size) + u32_le(raw_offset) + u32_le(reloc_offset)
        + u32_le(0) + u16_le(n_relocs) + u16_le(0) + u32_le(characteristics)
}

pub fn push_section_header(
    v: &mut Vec<u8>,
    name_digit: u8,
    raw_size: u32,
    raw_offset: u32,
    reloc_offset: u32,
    n_relocs: u16,
    characteristics: u32,
)
    ensures
        final(v)@ == old(v)@ + section_header_bytes(
            idata_name(name_digit),
            raw_size,
            raw_offset,
            reloc_offset,
            n_relocs,
            characteristics,
        ),
{
    push_idata_name(v, name_digit);
    push_u32_le(v, 0);
    push_u32_le(v, 0);
    push_u32_le(v, raw_size);
    push_u32_le(v, raw_offset);
    push_u32_le(v, reloc_offset);
    push_u32_le(v, 0);
    push_u16_le(v, n_relocs);
    push_u16_le(v, 0);
    push_u32_le(v, characteristics);
    assert(v@ =~= old(v)@ + section_header_bytes(
        idata_name(name_digit),
        raw_size,
        raw_offset,
        reloc_offset,
        n_relocs,
        characteristics,
    ));
}

/// A 10-byte relocation record.
pub open spec fn reloc_bytes(address: u32, symbol_index: u32, typ: u16) -> Seq<u8> {
    u32_le(address) + u32_le(symbol_index) + u16_le(typ)
}

pub fn push_reloc(v: &mut Vec<u8>, address: u32, symbol_index: u32, typ: u16)
    ensures
        final(v)@ == old(v)@ + reloc_bytes(address, symbol_index, typ),
{
    push_u32_le(v, address);
    push_u32_le(v, symbol_index);
    push_u16_le(v, typ);
    assert(v@ =~= old(v)@ + reloc_bytes(address, symbol_index, typ));
}

/// An 18-byte symbol record whose 8-byte name field holds a section name
/// directly; type and auxiliary count are zero.
pub open spec fn symbol_inline_bytes(
    name: Seq<u8>,
    value: u32,
    section: u16,
    storage_class: u8,
) -> Seq<u8> {
    name + u32_le(value) + u16_le(section) + u16_le(0) + seq![storage_class, 0u8]
}

pub fn push_symbol_inline(v: &mut Vec<u8>, name_digit: u8, value: u32, section: u16, storage_class: u8)
    ensures
        final(v)@ == old(v)@ + symbol_inline_bytes(
            idata_name(name_digit),
            value,
            section,
            storage_class,
        ),
{
    push_idata_name(v, name_digit);
    push_u32_le(v, value);
    push_u16_le(v, section);
    push_u16_le(v, 0);
    v.push(storage_class);
    v.push(0);
    assert(v@ =~= old(v)@ + symbol_inline_bytes(
        idata_name(name_digit),
        value,
        section,
        storage_class,
    ));
}

/// An 18-byte symbol record whose name lives in the string table at
/// `strtab_offset` (first name field word zero, second the offset).
pub open spec fn symbol_strtab_bytes(
    strtab_offset: u32,
    value: u32,
    section: u16,
    storage_class: u8,
) -> Seq<u8> {
    u32_le(0) + u32_le(strtab_offset) + u32_le(value) + u16_le(section) + u16_le(0)
        + seq![storage_class, 0u8]
}

pub fn push_symbol_strtab(v: &mut Vec<u8>, strtab_offset: u32, value: u32, section: u16, storage_class: u8)
    ensures
        final(v)@ == old(v)@ + symbol_strtab_bytes(strtab_offset, value, section, storage_class),
{
    push_u32_le(v, 0);
    push_u32_le(v, strtab_offset);
    push_u32_le(v, value);
    push_u16_le(v, section);
    push_u16_le(v, 0);
    v.push(storage_class);
    v.push(0);
    assert(v@ =~= old(v)@ + symbol_strtab_bytes(strtab_offset, value, section, storage_class));
}

} // verus!

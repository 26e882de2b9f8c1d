//! The COFF short-import object: the binary encoding of one `Import`.

use vstd::prelude::*;
use crate::bytes::{push_bytes, push_u16_le, push_u32_le, u16_le, u32_le};
use crate::types::{
    check_name, name_error, FormatError, Import, ImportNameType, ImportType, ImportView, Machine,
};

verus! {

/// First signature word of a short-import header: the unknown-machine sentinel.
pub const SHORT_IMPORT_SIG1: u16 = 0;

/// Second signature word of a short-import header: the import-object sentinel.
pub const SHORT_IMPORT_SIG2: u16 = 0xffff;

/// Fixed byte length of the short-import header.
pub const SHORT_IMPORT_HEADER_LEN: usize = 20;

/// The packed flags word: import type in bits 0..2, name type in bits 2..4.
pub open spec fn short_import_flags(it: ImportType, nt: ImportNameType) -> u16 {
    (it.code_spec() + 4 * nt.code_spec()) as u16
}

/// The variable section that trails the header: the null-terminated symbol
/// name and, unless the import is resolved by ordinal, the null-terminated
/// DLL name.
pub open spec fn short_import_tail(dll_name: Seq<u8>, import: ImportView) -> Seq<u8> {
    if import.name_type == ImportNameType::Ordinal {
        import.symbol_name + seq![0u8]
    } else {
        import.symbol_name + seq![0u8] + dll_name + seq![0u8]
    }
}

/// The fixed-size short-import header for a trailing section of `data_len`
/// bytes.
pub open spec fn short_import_header(
    machine: Machine,
    import: ImportView,
    data_len: u32,
) -> Seq<u8> {
    u16_le(SHORT_IMPORT_SIG1) + u16_le(SHORT_IMPORT_SIG2) + u16_le(0) + u16_le(machine.code_spec())
        + u32_le(0) + u32_le(data_len) + u16_le(import.ordinal_or_hint)
        + u16_le(short_import_flags(import.import_type, import.name_type))
}

/// The whole short-import object for one valid import.
pub open spec fn short_import_bytes(dll_name: Seq<u8>, machine: Machine, import: ImportView) -> Seq<
    u8,
> {
    short_import_header(
        machine,
        import,
        short_import_tail(dll_name, import).len() as u32,
    ) + short_import_tail(dll_name, import)
}

/// Whether the DLL name takes part in the encoding of this import.
pub open spec fn dll_name_written(import: ImportView) -> bool {
    import.name_type != ImportNameType::Ordinal
}

/// What `write_short_import` returns: the encoded object, or the first
/// failing check in the order import type, symbol name, DLL name.
pub open spec fn short_import_result(
    dll_name: Seq<u8>,
    machine: Machine,
    import: ImportView,
) -> Result<Seq<u8>, FormatError> {
    if import.import_type != ImportType::Code {
        Err(FormatError::UnsupportedImportType)
    } else if name_error(import.symbol_name) is Some {
        Err(name_error(import.symbol_name)->Some_0)
    } else if dll_name_written(import) && name_error(dll_name) is Some {
        Err(name_error(dll_name)->Some_0)
    } else {
        Ok(short_import_bytes(dll_name, machine, import))
    }
}

/// Maps an encoder result to its mathematical value.
pub open spec fn encode_result_view(r: Result<Vec<u8>, FormatError>) -> Result<
    Seq<u8>,
    FormatError,
> {
    match r {
        Ok(v) => Ok(v@),
        Err(e) => Err(e),
    }
}

/// Emits one short-import object: the fixed header, then the null-terminated
/// symbol name and (unless resolution is by ordinal) the null-terminated DLL
/// name. The header's size-of-data field holds the exact byte length of that
/// trailing section.
pub fn write_short_import(dll_name: &[u8], machine: Machine, import: &Import) -> (r: Result<
    Vec<u8>,
    FormatError,
>)
    ensures
        encode_result_view(r) == short_import_result(dll_name@, machine, import@),
{
    if !matches!(import.import_type, ImportType::Code) {
        return Err(FormatError::UnsupportedImportType);
    }
    if let Some(e) = check_name(&import.symbol_name) {
        return Err(e);
    }
    let by_ordinal = matches!(import.name_type, ImportNameType::Ordinal);
    if !by_ordinal {
        if let Some(e) = check_name(dll_name) {
            return Err(e);
        }
    }
    let data_len: u32 = if by_ordinal {
        (import.symbol_name.len() + 1) as u32
    } else {
        (import.symbol_name.len() + 1 + dll_name.len() + 1) as u32
    };
    let mut v: Vec<u8> = Vec::new();
    push_u16_le(&mut v, SHORT_IMPORT_SIG1);
    push_u16_le(&mut v, SHORT_IMPORT_SIG2);
    push_u16_le(&mut v, 0);
    push_u16_le(&mut v, machine.code());
    push_u32_le(&mut v, 0);
    push_u32_le(&mut v, data_len);
    push_u16_le(&mut v, import.ordinal_or_hint);
    push_u16_le(&mut v, import.import_type.code() + 4 * import.name_type.code());
    assert(v@ =~= short_import_header(machine, import@, data_len));
    push_bytes(&mut v, import.symbol_name.as_slice());
    v.push(0u8);
    if !by_ordinal {
        push_bytes(&mut v, dll_name);
        v.push(0u8);
    }
    assert(v@ =~= short_import_bytes(dll_name@, machine, import@));
    Ok(v)
}

/// Rejection: an import whose kind is not `Code` is refused outright, with
/// `FormatError::UnsupportedImportType`, whatever its other fields hold.
pub proof fn lemma_non_code_import_rejected(
    dll_name: Seq<u8>,
    machine: Machine,
    import: ImportView,
)
    requires
        import.import_type != ImportType::Code,
    ensures
        short_import_result(dll_name, machine, import) == Err::<Seq<u8>, FormatError>(
            FormatError::UnsupportedImportType,
        ),
{
}

/// The size-of-data field of every buffer produced for a valid import equals
/// the byte length of the trailing name section.
pub proof fn lemma_size_of_data_exact(dll_name: Seq<u8>, machine: Machine, import: ImportView)
    requires
        short_import_result(dll_name, machine, import) is Ok,
    ensures
        ({
            let buf = short_import_result(dll_name, machine, import)->Ok_0;
            buf.subrange(12, 16) == u32_le((buf.len() - SHORT_IMPORT_HEADER_LEN) as u32)
        }),
{
    let buf = short_import_result(dll_name, machine, import)->Ok_0;
    let tail = short_import_tail(dll_name, import);
    assert(buf.len() == SHORT_IMPORT_HEADER_LEN + tail.len());
    assert(buf.subrange(12, 16) =~= u32_le(tail.len() as u32));
}

} // verus!

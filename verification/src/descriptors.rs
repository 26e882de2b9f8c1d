//! The three bookkeeping members of an import library: the import descriptor,
//! the null thunk data, and the null import descriptor, plus the synthesized
//! symbol names they share.

use vstd::prelude::*;
use crate::bytes::{push_bytes, push_u32_le, push_zero_bytes, u32_le, zero_bytes};
use crate::coff_obj::{
    coff_header_bytes, idata_name, push_coff_header, push_idata_name, push_reloc,
    push_section_header, push_symbol_inline, push_symbol_strtab, reloc_bytes, section_header_bytes,
    symbol_inline_bytes, symbol_strtab_bytes, CLASS_EXTERNAL, CLASS_SECTION, RELOC_ADDR32NB,
    SEC_IDATA_ALIGN2, SEC_IDATA_ALIGN4, SEC_IDATA_ALIGN8,
};
use crate::short_import::encode_result_view;
use crate::types::{check_name, name_error, FormatError, Machine};

verus! {

/// The bytes of `__IMPORT_DESCRIPTOR_`, the prefix of the descriptor symbol.
pub open spec fn import_descriptor_prefix() -> Seq<u8> {
    seq![
        0x5fu8, 0x5fu8, 0x49u8, 0x4du8, 0x50u8, 0x4fu8, 0x52u8, 0x54u8, 0x5fu8, 0x44u8, 0x45u8,
        0x53u8, 0x43u8, 0x52u8, 0x49u8, 0x50u8, 0x54u8, 0x4fu8, 0x52u8, 0x5fu8,
    ]
}

pub fn push_import_descriptor_prefix(v: &mut Vec<u8>)
    ensures
        final(v)@ == old(v)@ + import_descriptor_prefix(),
{
    v.push(0x5f);  // _
    v.push(0x5f);  // _
    v.push(0x49);  // I
    v.push(0x4d);  // M
    v.push(0x50);  // P
    v.push(0x4f);  // O
    v.push(0x52);  // R
    v.push(0x54);  // T
    v.push(0x5f);  // _
    v.push(0x44);  // D
    v.push(0x45);  // E
    v.push(0x53);  // S
    v.push(0x43);  // C
    v.push(0x52);  // R
    v.push(0x49);  // I
    v.push(0x50);  // P
    v.push(0x54);  // T
    v.push(0x4f);  // O
    v.push(0x52);  // R
    v.push(0x5f);  // _
    assert(v@ =~= old(v)@ + import_descriptor_prefix());
}

/// The bytes of `__NULL_IMPORT_DESCRIPTOR`, the shared end-of-table symbol.
pub open spec fn null_import_descriptor_name() -> Seq<u8> {
    seq![
        0x5fu8, 0x5fu8, 0x4eu8, 0x55u8, 0x4cu8, 0x4cu8, 0x5fu8, 0x49u8, 0x4du8, 0x50u8, 0x4fu8,
        0x52u8, 0x54u8, 0x5fu8, 0x44u8, 0x45u8, 0x53u8, 0x43u8, 0x52u8, 0x49u8, 0x50u8, 0x54u8,
        0x4fu8, 0x52u8,
    ]
}

pub fn push_null_import_descriptor_name(v: &mut Vec<u8>)
    ensures
        final(v)@ == old(v)@ + null_import_descriptor_name(),
{
    v.push(0x5f);  // _
    v.push(0x5f);  // _
    v.push(0x4e);  // N
    v.push(0x55);  // U
    v.push(0x4c);  // L
    v.push(0x4c);  // L
    v.push(0x5f);  // _
    v.push(0x49);  // I
    v.push(0x4d);  // M
    v.push(0x50);  // P
    v.push(0x4f);  // O
    v.push(0x52);  // R
    v.push(0x54);  // T
    v.push(0x5f);  // _
    v.push(0x44);  // D
    v.push(0x45);  // E
    v.push(0x53);  // S
    v.push(0x43);  // C
    v.push(0x52);  // R
    v.push(0x49);  // I
    v.push(0x50);  // P
    v.push(0x54);  // T
    v.push(0x4f);  // O
    v.push(0x52);  // R
    assert(v@ =~= old(v)@ + null_import_descriptor_name());
}

/// The bytes of `_NULL_THUNK_DATA`, the suffix of the null-thunk symbol.
pub open spec fn null_thunk_suffix() -> Seq<u8> {
    seq![
        0x5fu8, 0x4eu8, 0x55u8, 0x4cu8, 0x4cu8, 0x5fu8, 0x54u8, 0x48u8, 0x55u8, 0x4eu8, 0x4bu8,
        0x5fu8, 0x44u8, 0x41u8, 0x54u8, 0x41u8,
    ]
}

pub fn push_null_thunk_suffix(v: &mut Vec<u8>)
    ensures
        final(v)@ == old(v)@ + null_thunk_suffix(),
{
    v.push(0x5f);  // _
    v.push(0x4e);  // N
    v.push(0x55);  // U
    v.push(0x4c);  // L
    v.push(0x4c);  // L
    v.push(0x5f);  // _
    v.push(0x54);  // T
    v.push(0x48);  // H
    v.push(0x55);  // U
    v.push(0x4e);  // N
    v.push(0x4b);  // K
    v.push(0x5f);  // _
    v.push(0x44);  // D
    v.push(0x41);  // A
    v.push(0x54);  // T
    v.push(0x41);  // A
    assert(v@ =~= old(v)@ + null_thunk_suffix());
}

/// Index of the last `.` strictly before position `n`, if any.
pub open spec fn last_dot_before(s: Seq<u8>, n: int) -> Option<int>
    decreases n,
{
    if n <= 0 {
        None
    } else if s[n - 1] == 0x2eu8 {
        Some(n - 1)
    } else {
        last_dot_before(s, n - 1)
    }
}

/// The DLL file name without its extension: everything before the last `.`,
/// or the whole name when it has none.
pub open spec fn dll_stem(dll_name: Seq<u8>) -> Seq<u8> {
    match last_dot_before(dll_name, dll_name.len() as int) {
        Some(i) => dll_name.subrange(0, i),
        None => dll_name,
    }
}

/// Length of the stem of `dll_name`; the stem is its prefix of that length.
pub fn dll_stem_len(dll_name: &[u8]) -> (r: usize)
    ensures
        r <= dll_name@.len(),
        dll_stem(dll_name@) == dll_name@.subrange(0, r as int),
{
    let mut n: usize = dll_name.len();
    while n > 0
        invariant
            n <= dll_name@.len(),
            last_dot_before(dll_name@, dll_name@.len() as int) == last_dot_before(
                dll_name@,
                n as int,
            ),
        decreases n,
    {
        if dll_name[n - 1] == 0x2e {
            assert(last_dot_before(dll_name@, n as int) == Some(n - 1));
            return n - 1;
        }
        n = n - 1;
    }
    assert(last_dot_before(dll_name@, dll_name@.len() as int) is None);
    assert(dll_stem(dll_name@) =~= dll_name@.subrange(0, dll_name@.len() as int));
    dll_name.len()
}

proof fn lemma_last_dot_range(s: Seq<u8>, n: int)
    requires
        last_dot_before(s, n) is Some,
    ensures
        0 <= last_dot_before(s, n)->Some_0 < n,
    decreases n,
{
    if n <= 0 {
    } else if s[n - 1] == 0x2eu8 {
    } else {
        lemma_last_dot_range(s, n - 1);
    }
}

/// The stem of a name is never longer than the name.
pub proof fn lemma_dll_stem_len(s: Seq<u8>)
    ensures
        dll_stem(s).len() <= s.len(),
{
    if last_dot_before(s, s.len() as int) is Some {
        lemma_last_dot_range(s, s.len() as int);
    }
}

/// The synthesized descriptor symbol: `__IMPORT_DESCRIPTOR_` plus the stem.
pub open spec fn import_descriptor_symbol_spec(dll_name: Seq<u8>) -> Seq<u8> {
    import_descriptor_prefix() + dll_stem(dll_name)
}

/// The synthesized null-thunk symbol: `0x7f`, the stem, `_NULL_THUNK_DATA`.
pub open spec fn null_thunk_symbol_spec(dll_name: Seq<u8>) -> Seq<u8> {
    seq![0x7fu8] + dll_stem(dll_name) + null_thunk_suffix()
}

/// Precomputed, shared state of one import library: the DLL name, the target
/// machine and the synthesized symbol names that the bookkeeping members and
/// the short-import members must agree on.
pub struct ImportDescriptorValues {
    pub dll_name: Vec<u8>,
    pub machine: Machine,
    pub import_descriptor_symbol: Vec<u8>,
    pub null_thunk_data_symbol: Vec<u8>,
}

impl ImportDescriptorValues {
    /// The synthesized names agree with the DLL name.
    pub open spec fn wf(self) -> bool {
        &&& self.import_descriptor_symbol@ == import_descriptor_symbol_spec(self.dll_name@)
        &&& self.null_thunk_data_symbol@ == null_thunk_symbol_spec(self.dll_name@)
    }

    /// Computes the synthesized symbol names once per import library.
    pub fn new(dll_name: &[u8], machine: Machine) -> (r: ImportDescriptorValues)
        ensures
            r.wf(),
            r.dll_name@ == dll_name@,
            r.machine == machine,
    {
        let stem_len = dll_stem_len(dll_name);
        let mut ids: Vec<u8> = Vec::new();
        push_import_descriptor_prefix(&mut ids);
        push_bytes(&mut ids, &dll_name[0..stem_len]);
        let mut ntd: Vec<u8> = Vec::new();
        ntd.push(0x7f);
        assert(ntd@ =~= seq![0x7fu8]);
        push_bytes(&mut ntd, &dll_name[0..stem_len]);
        push_null_thunk_suffix(&mut ntd);
        let mut dll: Vec<u8> = Vec::new();
        push_bytes(&mut dll, dll_name);
        assert(dll@ =~= dll_name@);
        ImportDescriptorValues {
            dll_name: dll,
            machine,
            import_descriptor_symbol: ids,
            null_thunk_data_symbol: ntd,
        }
    }
}

/// The import-descriptor member: a two-section COFF object whose `.idata$2`
/// entry binds the DLL name (held in `.idata$6`) to the thunk sections, with
/// seven symbols tying it to the other members.
pub open spec fn import_descriptor_bytes(dll_name: Seq<u8>, machine: Machine) -> Seq<u8> {
    let d2 = dll_name.len() + 1 + (dll_name.len() + 1) % 2;
    let ids = import_descriptor_symbol_spec(dll_name);
    let nid = null_import_descriptor_name();
    let ntd = null_thunk_symbol_spec(dll_name);
    coff_header_bytes(machine.code_spec(), 2, (150 + d2) as u32, 7)
        + section_header_bytes(idata_name(0x32), 20, 100, 120, 3, SEC_IDATA_ALIGN4)
        + section_header_bytes(idata_name(0x36), d2 as u32, 150, 0, 0, SEC_IDATA_ALIGN2)
        + zero_bytes(20)
        + reloc_bytes(12, 2, RELOC_ADDR32NB)
        + reloc_bytes(0, 3, RELOC_ADDR32NB)
        + reloc_bytes(16, 4, RELOC_ADDR32NB)
        + dll_name + zero_bytes((d2 - dll_name.len()) as nat)
        + symbol_strtab_bytes(4, 0, 1, CLASS_EXTERNAL)
        + symbol_inline_bytes(idata_name(0x32), 0, 1, CLASS_SECTION)
        + symbol_inline_bytes(idata_name(0x36), 0, 2, CLASS_SECTION)
        + symbol_inline_bytes(idata_name(0x34), 0, 0, CLASS_SECTION)
        + symbol_inline_bytes(idata_name(0x35), 0, 0, CLASS_SECTION)
        + symbol_strtab_bytes((5 + ids.len()) as u32, 0, 0, CLASS_EXTERNAL)
        + symbol_strtab_bytes((6 + ids.len() + nid.len()) as u32, 0, 0, CLASS_EXTERNAL)
        + u32_le((7 + ids.len() + nid.len() + ntd.len()) as u32)
        + ids + seq![0u8] + nid + seq![0u8] + ntd + seq![0u8]
}

/// What `generate_import_descriptor` returns for a given DLL name.
pub open spec fn import_descriptor_result(dll_name: Seq<u8>, machine: Machine) -> Result<
    Seq<u8>,
    FormatError,
> {
    match name_error(dll_name) {
        Some(e) => Err(e),
        None => Ok(import_descriptor_bytes(dll_name, machine)),
    }
}

/// Emits the import-descriptor member for `values`.
#[verifier::rlimit(80)]
pub fn generate_import_descriptor(values: &ImportDescriptorValues) -> (r: Result<
    Vec<u8>,
    FormatError,
>)
    requires
        values.wf(),
    ensures
        encode_result_view(r) == import_descriptor_result(values.dll_name@, values.machine),
{
    if let Some(e) = check_name(values.dll_name.as_slice()) {
        return Err(e);
    }
    proof {
        lemma_dll_stem_len(values.dll_name@);
    }
    let dll_len = values.dll_name.len();
    let pad: usize = (dll_len + 1) % 2;
    let d2: usize = dll_len + 1 + pad;
    let ids_len = values.import_descriptor_symbol.len();
    let ntd_len = values.null_thunk_data_symbol.len();
    let mut v: Vec<u8> = Vec::new();
    push_coff_header(&mut v, values.machine.code(), 2, (150 + d2) as u32, 7);
    push_section_header(&mut v, 0x32, 20, 100, 120, 3, SEC_IDATA_ALIGN4);
    push_section_header(&mut v, 0x36, d2 as u32, 150, 0, 0, SEC_IDATA_ALIGN2);
    push_zero_bytes(&mut v, 20);
    push_reloc(&mut v, 12, 2, RELOC_ADDR32NB);
    push_reloc(&mut v, 0, 3, RELOC_ADDR32NB);
    push_reloc(&mut v, 16, 4, RELOC_ADDR32NB);
    push_bytes(&mut v, values.dll_name.as_slice());
    push_zero_bytes(&mut v, 1 + pad);
    push_symbol_strtab(&mut v, 4, 0, 1, CLASS_EXTERNAL);
    push_symbol_inline(&mut v, 0x32, 0, 1, CLASS_SECTION);
    push_symbol_inline(&mut v, 0x36, 0, 2, CLASS_SECTION);
    push_symbol_inline(&mut v, 0x34, 0, 0, CLASS_SECTION);
    push_symbol_inline(&mut v, 0x35, 0, 0, CLASS_SECTION);
    push_symbol_strtab(&mut v, (5 + ids_len) as u32, 0, 0, CLASS_EXTERNAL);
    push_symbol_strtab(&mut v, (6 + ids_len + 24) as u32, 0, 0, CLASS_EXTERNAL);
    push_u32_le(&mut v, (7 + ids_len + 24 + ntd_len) as u32);
    push_bytes(&mut v, values.import_descriptor_symbol.as_slice());
    v.push(0);
    push_null_import_descriptor_name(&mut v);
    v.push(0);
    push_bytes(&mut v, values.null_thunk_data_symbol.as_slice());
    v.push(0);
    assert(zero_bytes((1 + pad) as nat) =~= zero_bytes(
        (d2 - values.dll_name@.len()) as nat,
    ));
    assert(v@ =~= import_descriptor_bytes(values.dll_name@, values.machine));
    Ok(v)
}

/// The null-import-descriptor member: one all-zero `.idata$3` entry that
/// terminates the import-descriptor table, exported as
/// `__NULL_IMPORT_DESCRIPTOR`.
pub open spec fn null_import_descriptor_bytes(machine: Machine) -> Seq<u8> {
    coff_header_bytes(machine.code_spec(), 1, 80, 1)
        + section_header_bytes(idata_name(0x33), 20, 60, 0, 0, SEC_IDATA_ALIGN4)
        + zero_bytes(20)
        + symbol_strtab_bytes(4, 0, 1, CLASS_EXTERNAL)
        + u32_le((5 + null_import_descriptor_name().len()) as u32)
        + null_import_descriptor_name() + seq![0u8]
}

/// Emits the null-import-descriptor member; its encoding cannot fail.
pub fn generate_null_import_descriptor(machine: Machine) -> (r: Result<Vec<u8>, FormatError>)
    ensures
        r is Ok,
        encode_result_view(r) == Ok::<Seq<u8>, FormatError>(null_import_descriptor_bytes(machine)),
{
    let mut v: Vec<u8> = Vec::new();
    push_coff_header(&mut v, machine.code(), 1, 80, 1);
    push_section_header(&mut v, 0x33, 20, 60, 0, 0, SEC_IDATA_ALIGN4);
    push_zero_bytes(&mut v, 20);
    push_symbol_strtab(&mut v, 4, 0, 1, CLASS_EXTERNAL);
    push_u32_le(&mut v, 29);
    push_null_import_descriptor_name(&mut v);
    v.push(0);
    assert(v@ =~= null_import_descriptor_bytes(machine));
    Ok(v)
}

/// The null-thunk member: zero-filled `.idata$5` and `.idata$4` entries of
/// one pointer width each, terminating both thunk tables, exported under
/// `symbol_name`.
pub open spec fn null_thunk_bytes(machine: Machine, symbol_name: Seq<u8>) -> Seq<u8> {
    let pw = machine.pointer_width_spec();
    coff_header_bytes(machine.code_spec(), 2, (100 + 2 * pw) as u32, 1)
        + section_header_bytes(idata_name(0x35), pw as u32, 100, 0, 0, SEC_IDATA_ALIGN8)
        + section_header_bytes(idata_name(0x34), pw as u32, (100 + pw) as u32, 0, 0, SEC_IDATA_ALIGN8)
        + zero_bytes(pw as nat) + zero_bytes(pw as nat)
        + symbol_strtab_bytes(4, 0, 1, CLASS_EXTERNAL)
        + u32_le((5 + symbol_name.len()) as u32)
        + symbol_name + seq![0u8]
}

/// What `generate_null_thunk_data` returns for a given symbol name.
pub open spec fn null_thunk_result(machine: Machine, symbol_name: Seq<u8>) -> Result<
    Seq<u8>,
    FormatError,
> {
    match name_error(symbol_name) {
        Some(e) => Err(e),
        None => Ok(null_thunk_bytes(machine, symbol_name)),
    }
}

/// Emits the null-thunk member exporting `symbol_name`.
pub fn generate_null_thunk_data(machine: Machine, symbol_name: &[u8]) -> (r: Result<
    Vec<u8>,
    FormatError,
>)
    ensures
        encode_result_view(r) == null_thunk_result(machine, symbol_name@),
{
    if let Some(e) = check_name(symbol_name) {
        return Err(e);
    }
    let pw = machine.pointer_width();
    let mut v: Vec<u8> = Vec::new();
    push_coff_header(&mut v, machine.code(), 2, (100 + 2 * pw) as u32, 1);
    push_section_header(&mut v, 0x35, pw as u32, 100, 0, 0, SEC_IDATA_ALIGN8);
    push_section_header(&mut v, 0x34, pw as u32, (100 + pw) as u32, 0, 0, SEC_IDATA_ALIGN8);
    push_zero_bytes(&mut v, pw);
    push_zero_bytes(&mut v, pw);
    push_symbol_strtab(&mut v, 4, 0, 1, CLASS_EXTERNAL);
    push_u32_le(&mut v, (5 + symbol_name.len()) as u32);
    push_bytes(&mut v, symbol_name);
    v.push(0);
    assert(v@ =~= null_thunk_bytes(machine, symbol_name@));
    Ok(v)
}

} // verus!

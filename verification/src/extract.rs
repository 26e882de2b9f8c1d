//! The symbol extractor: given an archive member's byte buffer, decides
//! whether it is a short-import object or a standard COFF object and yields
//! the symbol names it defines. Short-import detection runs first because the
//! short-import header is minimal and general object parsers do not
//! recognize it.

use vstd::prelude::*;
use crate::bytes::read_u16_le;
use crate::bytes::u16_from_pair;
use crate::short_import::{SHORT_IMPORT_HEADER_LEN, SHORT_IMPORT_SIG1, SHORT_IMPORT_SIG2};

verus! {

/// Failure while reading symbol names out of a recognized member.
#[derive(Clone, Copy, PartialEq, Eq, Structural, Debug)]
pub enum ExtractError {
    /// A short-import buffer carries no null terminator after its header.
    MissingNul,
    /// A COFF symbol's name could not be read from the string table.
    BadSymbolName,
}

/// The bytes of `__imp_`, the decoration prefix that MSVC-style linkers
/// reference unconditionally for imported symbols.
pub open spec fn imp_prefix() -> Seq<u8> {
    seq![0x5fu8, 0x5fu8, 0x69u8, 0x6du8, 0x70u8, 0x5fu8]
}

pub fn push_imp_prefix(v: &mut Vec<u8>)
    ensures
        final(v)@ == old(v)@ + imp_prefix(),
{
    v.push(0x5f);  // _
    v.push(0x5f);  // _
    v.push(0x69);  // i
    v.push(0x6d);  // m
    v.push(0x70);  // p
    v.push(0x5f);  // _
    assert(v@ =~= old(v)@ + imp_prefix());
}

/// Position of the first null byte of `s` at or after `i`.
pub open spec fn nul_pos(s: Seq<u8>, i: int) -> Option<int>
    decreases s.len() - i,
{
    if i < 0 || i >= s.len() {
        None
    } else if s[i] == 0u8 {
        Some(i)
    } else {
        nul_pos(s, i + 1)
    }
}

/// When everything from `i` up to `k` is non-null and `s[k]` is null, `k` is
/// the first null at or after `i`.
pub proof fn lemma_nul_pos_found(s: Seq<u8>, i: int, k: int)
    requires
        0 <= i <= k < s.len(),
        forall|j: int| i <= j < k ==> s[j] != 0u8,
        s[k] == 0u8,
    ensures
        nul_pos(s, i) == Some(k),
    decreases k - i,
{
    if i < k {
        lemma_nul_pos_found(s, i + 1, k);
    }
}

/// The two names a short-import buffer defines when its first null byte sits
/// at position `k`: the symbol name and the name with the `__imp_` prefix.
pub open spec fn short_import_names(buf: Seq<u8>, k: int) -> Seq<Seq<u8>> {
    seq![
        buf.subrange(SHORT_IMPORT_HEADER_LEN as int, k),
        imp_prefix() + buf.subrange(SHORT_IMPORT_HEADER_LEN as int, k),
    ]
}

/// Outcome of short-import detection on a buffer: not a short-import object
/// (`Ok(None)`), the defined names (`Ok(Some(..))`), or a malformed
/// short-import object.
pub open spec fn short_import_scan(buf: Seq<u8>) -> Result<Option<Seq<Seq<u8>>>, ExtractError> {
    if buf.len() <= SHORT_IMPORT_HEADER_LEN {
        Ok(None)
    } else if u16_from_pair(buf[0], buf[1]) != SHORT_IMPORT_SIG1 || u16_from_pair(buf[2], buf[3])
        != SHORT_IMPORT_SIG2 {
        Ok(None)
    } else {
        match nul_pos(buf, SHORT_IMPORT_HEADER_LEN as int) {
            None => Err(ExtractError::MissingNul),
            Some(k) => Ok(Some(short_import_names(buf, k))),
        }
    }
}

/// Maps an extraction result to its mathematical value.
pub open spec fn scan_view(r: Result<Option<Vec<Vec<u8>>>, ExtractError>) -> Result<
    Option<Seq<Seq<u8>>>,
    ExtractError,
> {
    match r {
        Ok(None) => Ok(None),
        Ok(Some(names)) => Ok(Some(names.deep_view())),
        Err(e) => Err(e),
    }
}

/// Attempts short-import parsing: checks the two signature words and the
/// minimum length, then yields the symbol name and its `__imp_`-decorated
/// form.
pub fn short_import_get_symbols(buf: &[u8]) -> (r: Result<Option<Vec<Vec<u8>>>, ExtractError>)
    ensures
        scan_view(r) == short_import_scan(buf@),
{
    if buf.len() <= SHORT_IMPORT_HEADER_LEN {
        return Ok(None);
    }
    let sig1 = read_u16_le(buf, 0);
    let sig2 = read_u16_le(buf, 2);
    if sig1 != SHORT_IMPORT_SIG1 || sig2 != SHORT_IMPORT_SIG2 {
        return Ok(None);
    }
    let mut i: usize = SHORT_IMPORT_HEADER_LEN;
    while i < buf.len()
        invariant
            SHORT_IMPORT_HEADER_LEN <= i <= buf@.len(),
            buf@.len() > SHORT_IMPORT_HEADER_LEN,
            u16_from_pair(buf@[0], buf@[1]) == SHORT_IMPORT_SIG1,
            u16_from_pair(buf@[2], buf@[3]) == SHORT_IMPORT_SIG2,
            nul_pos(buf@, SHORT_IMPORT_HEADER_LEN as int) == nul_pos(buf@, i as int),
        decreases buf@.len() - i,
    {
        if buf[i] == 0 {
            let mut name: Vec<u8> = Vec::new();
            name.extend_from_slice(&buf[SHORT_IMPORT_HEADER_LEN..i]);
            let mut imp: Vec<u8> = Vec::new();
            push_imp_prefix(&mut imp);
            imp.extend_from_slice(name.as_slice());
            let mut names: Vec<Vec<u8>> = Vec::new();
            names.push(name);
            names.push(imp);
            assert(names.deep_view() =~~= short_import_names(buf@, i as int));
            assert(nul_pos(buf@, i as int) == Some(i as int));
            return Ok(Some(names));
        }
        i = i + 1;
    }
    Err(ExtractError::MissingNul)
}

/// Round trip: every buffer that `write_short_import` produces is recognized
/// by short-import detection and defines exactly two names, the symbol name
/// and that name with the `__imp_` decoration prefix.
pub proof fn lemma_short_import_round_trip(
    dll_name: Seq<u8>,
    machine: crate::types::Machine,
    import: crate::types::ImportView,
)
    requires
        crate::short_import::short_import_result(dll_name, machine, import) is Ok,
    ensures
        short_import_scan(crate::short_import::short_import_result(dll_name, machine, import)->Ok_0)
            == Ok::<Option<Seq<Seq<u8>>>, ExtractError>(
            Some(seq![import.symbol_name, imp_prefix() + import.symbol_name]),
        ),
{
    let buf = crate::short_import::short_import_result(dll_name, machine, import)->Ok_0;
    let name = import.symbol_name;
    let n = name.len() as int;
    let tail = crate::short_import::short_import_tail(dll_name, import);
    assert(buf.len() == SHORT_IMPORT_HEADER_LEN + tail.len());
    assert(u16_from_pair(buf[0], buf[1]) == SHORT_IMPORT_SIG1);
    assert(u16_from_pair(buf[2], buf[3]) == SHORT_IMPORT_SIG2);
    assert forall|j: int| SHORT_IMPORT_HEADER_LEN <= j < SHORT_IMPORT_HEADER_LEN + n implies buf[j]
        != 0u8 by {
        assert(buf[j] == name[j - SHORT_IMPORT_HEADER_LEN]);
    }
    assert(buf[SHORT_IMPORT_HEADER_LEN + n] == 0u8);
    lemma_nul_pos_found(buf, SHORT_IMPORT_HEADER_LEN as int, SHORT_IMPORT_HEADER_LEN + n);
    assert(buf.subrange(SHORT_IMPORT_HEADER_LEN as int, SHORT_IMPORT_HEADER_LEN + n) =~= name);
    assert(short_import_names(buf, SHORT_IMPORT_HEADER_LEN + n) =~~= seq![
        name,
        imp_prefix() + name,
    ]);
}

/// What COFF-object scanning returns for a buffer: `Ok(None)` when the buffer
/// is not a well-formed COFF object, `Ok(Some(names))` with the names of the
/// symbols the object defines, `Err` when a name cannot be read.
pub uninterp spec fn coff_scan(buf: Seq<u8>) -> Result<Option<Seq<Seq<u8>>>, ()>;

/// Maps a COFF-scan result to its mathematical value.
pub open spec fn coff_scan_view(r: Result<Option<Vec<Vec<u8>>>, ()>) -> Result<
    Option<Seq<Seq<u8>>>,
    (),
> {
    match r {
        Ok(None) => Ok(None),
        Ok(Some(names)) => Ok(Some(names.deep_view())),
        Err(e) => Err(e),
    }
}

/// Relies on `object::read::coff::CoffFile::parse` and the symbol-table
/// accessors `ObjectSymbol::is_definition` and `ObjectSymbol::name_bytes`:
/// parsing either fails (the buffer is not a COFF object; in particular a
/// buffer shorter than the 20-byte file header is never accepted) or yields
/// the object's symbols in table order, of which the defined ones are named.
/// The outcome depends on the buffer alone.
#[verifier::external_body]
fn coff_object_symbols(buf: &[u8]) -> (r: Result<Option<Vec<Vec<u8>>>, ()>)
    ensures
        coff_scan_view(r) == coff_scan(buf@),
        buf@.len() < 20 ==> (r is Ok && r->Ok_0 is None),
{
    let parsed = object::read::coff::CoffFile::<&[u8], object::pe::ImageFileHeader>::parse(buf);
    let file = match parsed { Ok(file) => file, Err(_) => return Ok(None) };
    let mut names: Vec<Vec<u8>> = Vec::new();
    for symbol in object::Object::symbols(&file) {
        if object::ObjectSymbol::is_definition(&symbol) {
            match object::ObjectSymbol::name_bytes(&symbol) {
                Ok(name) => names.push(name.to_vec()),
                Err(_) => return Err(()),
            }
        }
    }
    Ok(Some(names))
}

/// Combined outcome of the two detection stages, in their required order.
pub open spec fn get_symbols_spec(buf: Seq<u8>) -> Result<Option<Seq<Seq<u8>>>, ExtractError> {
    match short_import_scan(buf) {
        Err(e) => Err(e),
        Ok(Some(names)) => Ok(Some(names)),
        Ok(None) => match coff_scan(buf) {
            Ok(found) => Ok(found),
            Err(_) => Err(ExtractError::BadSymbolName),
        },
    }
}

/// A buffer that neither detection stage recognizes is reported as being in
/// neither format: short-import detection yields nothing, and so does COFF
/// parsing, so the caller must treat the member as symbol-less or try other
/// formats.
pub proof fn lemma_unrecognized_buffer(buf: Seq<u8>)
    requires
        short_import_scan(buf) == Ok::<Option<Seq<Seq<u8>>>, ExtractError>(None),
        coff_scan(buf) == Ok::<Option<Seq<Seq<u8>>>, ()>(None),
    ensures
        get_symbols_spec(buf) == Ok::<Option<Seq<Seq<u8>>>, ExtractError>(None),
{
}

/// Yields the symbol names defined by one archive member's buffer:
/// short-import parsing is attempted first, then standard COFF parsing;
/// `Ok(None)` reports a buffer in neither format.
pub fn get_symbols(buf: &[u8]) -> (r: Result<Option<Vec<Vec<u8>>>, ExtractError>)
    ensures
        scan_view(r) == get_symbols_spec(buf@),
        buf@.len() < 20 ==> (r is Ok && r->Ok_0 is None),
{
    match short_import_get_symbols(buf) {
        Err(e) => Err(e),
        Ok(Some(names)) => Ok(Some(names)),
        Ok(None) => match coff_object_symbols(buf) {
            Ok(found) => Ok(found),
            Err(_) => Err(ExtractError::BadSymbolName),
        },
    }
}

} // verus!

//! The archive-strategy selector: decides, per target, whether the
//! import-library path is available, and names the output artifact.

use vstd::prelude::*;
use crate::bytes::push_bytes;

verus! {

/// The architecture name of the one supported target, `x86_64`, as bytes.
pub open spec fn supported_arch() -> Seq<u8> {
    seq![0x78u8, 0x38u8, 0x36u8, 0x5fu8, 0x36u8, 0x34u8]
}

fn supported_arch_bytes() -> (r: Vec<u8>)
    ensures
        r@ == supported_arch(),
{
    let mut v: Vec<u8> = Vec::new();
    v.push(0x78);  // x
    v.push(0x38);  // 8
    v.push(0x36);  // 6
    v.push(0x5f);  // _
    v.push(0x36);  // 6
    v.push(0x34);  // 4
    assert(v@ =~= supported_arch());
    v
}

/// Whether two byte strings are equal.
pub fn bytes_eq(a: &[u8], b: &[u8]) -> (r: bool)
    ensures
        r <==> a@ == b@,
{
    if a.len() != b.len() {
        assert(a@.len() != b@.len());
        return false;
    }
    let mut i: usize = 0;
    while i < a.len()
        invariant
            i <= a@.len(),
            a@.len() == b@.len(),
            forall|j: int| 0 <= j < i ==> a@[j] == b@[j],
        decreases a@.len() - i,
    {
        if a[i] != b[i] {
            return false;
        }
        i = i + 1;
    }
    assert(a@ =~= b@);
    true
}

/// Import-library generation is available exactly for the `x86_64`
/// architecture with an MSVC-like ABI; on every other target the caller must
/// fail before creating any output file, falling back to its generic
/// native-object symbol extraction for ordinary archives.
pub fn supports_import_lib(arch: &[u8], is_like_msvc: bool) -> (r: bool)
    ensures
        r <==> (arch@ == supported_arch() && is_like_msvc),
{
    let supported = supported_arch_bytes();
    bytes_eq(arch, supported.as_slice()) && is_like_msvc
}

/// Which symbol-extraction routine feeds the archive writer on a target:
/// the import-aware extractor of this crate, or the build system's generic
/// native-object extractor.
#[derive(Clone, Copy, PartialEq, Eq, Structural, Debug)]
pub enum SymbolStrategy {
    /// Use `crate::extract::get_symbols`, which understands short-import
    /// members as well as standard COFF objects.
    ImportAware,
    /// Use the generic native-object extractor of the enclosing build
    /// system.
    GenericNative,
}

/// Chooses the symbol-extraction routine for a target: the import-aware one
/// exactly where import-library generation is available.
pub fn archive_symbol_strategy(arch: &[u8], is_like_msvc: bool) -> (r: SymbolStrategy)
    ensures
        r == SymbolStrategy::ImportAware <==> (arch@ == supported_arch() && is_like_msvc),
{
    if supports_import_lib(arch, is_like_msvc) {
        SymbolStrategy::ImportAware
    } else {
        SymbolStrategy::GenericNative
    }
}

/// The bytes of `_import`, the infix of the artifact file name.
pub open spec fn import_infix() -> Seq<u8> {
    seq![0x5fu8, 0x69u8, 0x6du8, 0x70u8, 0x6fu8, 0x72u8, 0x74u8]
}

/// The output artifact's file name:
/// `<staticlib prefix><library name>_import<staticlib suffix>`.
pub open spec fn import_lib_file_name_spec(
    prefix: Seq<u8>,
    lib_name: Seq<u8>,
    suffix: Seq<u8>,
) -> Seq<u8> {
    prefix + lib_name + import_infix() + suffix
}

/// Composes the file name of the import-library artifact.
pub fn import_lib_file_name(prefix: &[u8], lib_name: &[u8], suffix: &[u8]) -> (r: Vec<u8>)
    ensures
        r@ == import_lib_file_name_spec(prefix@, lib_name@, suffix@),
{
    let mut v: Vec<u8> = Vec::new();
    push_bytes(&mut v, prefix);
    push_bytes(&mut v, lib_name);
    v.push(0x5f);  // _
    v.push(0x69);  // i
    v.push(0x6d);  // m
    v.push(0x70);  // p
    v.push(0x6f);  // o
    v.push(0x72);  // r
    v.push(0x74);  // t
    push_bytes(&mut v, suffix);
    assert(v@ =~= import_lib_file_name_spec(prefix@, lib_name@, suffix@));
    v
}

} // verus!

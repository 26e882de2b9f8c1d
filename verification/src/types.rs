//! The data model: target machine, import kinds, one import request, and the
//! recoverable error families.

use vstd::prelude::*;

verus! {

/// Longest name (symbol name or dll name) the encoders accept. Keeps every
/// derived size and offset well inside the 32-bit fields of the binary layout.
pub const MAX_NAME_LEN: usize = 0xffff;

/// Target instruction-set identifier; exactly one value is supported.
#[derive(Clone, Copy, PartialEq, Eq, Structural, Debug)]
pub enum Machine {
    X86_64,
}

impl Machine {
    /// The 16-bit machine-type value written into object headers.
    pub open spec fn code_spec(self) -> u16 {
        0x8664
    }

    pub fn code(self) -> (r: u16)
        ensures
            r == self.code_spec(),
    {
        match self {
            Machine::X86_64 => 0x8664,
        }
    }

    /// Byte width of one thunk entry on this machine.
    pub open spec fn pointer_width_spec(self) -> usize {
        8
    }

    pub fn pointer_width(self) -> (r: usize)
        ensures
            r == self.pointer_width_spec(),
    {
        match self {
            Machine::X86_64 => 8,
        }
    }
}

/// Kind of import entry; the encoder supports only `Code`.
#[derive(Clone, Copy, PartialEq, Eq, Structural, Debug)]
pub enum ImportType {
    Code,
    Data,
}

impl ImportType {
    /// Value of the import-type bits in the packed flags field.
    pub open spec fn code_spec(self) -> u16 {
        match self {
            ImportType::Code => 0,
            ImportType::Data => 1,
        }
    }

    pub fn code(self) -> (r: u16)
        ensures
            r == self.code_spec(),
    {
        match self {
            ImportType::Code => 0,
            ImportType::Data => 1,
        }
    }
}

/// How the linker resolves the imported symbol against the DLL's exports.
#[derive(Clone, Copy, PartialEq, Eq, Structural, Debug)]
pub enum ImportNameType {
    /// Resolve by ordinal only; no DLL name trails the symbol name.
    Ordinal,
    /// Resolve by the exact symbol name.
    Name,
    /// Resolve by the name without its leading decoration character.
    NameNoPrefix,
    /// Resolve by the fully undecorated name.
    NameUndecorate,
}

impl ImportNameType {
    /// Value of the name-type bits in the packed flags field.
    pub open spec fn code_spec(self) -> u16 {
        match self {
            ImportNameType::Ordinal => 0,
            ImportNameType::Name => 1,
            ImportNameType::NameNoPrefix => 2,
            ImportNameType::NameUndecorate => 3,
        }
    }

    pub fn code(self) -> (r: u16)
        ensures
            r == self.code_spec(),
    {
        match self {
            ImportNameType::Ordinal => 0,
            ImportNameType::Name => 1,
            ImportNameType::NameNoPrefix => 2,
            ImportNameType::NameUndecorate => 3,
        }
    }
}

/// One import request: a symbol to be resolved from the target DLL.
pub struct Import {
    /// Non-empty byte string without an embedded null.
    pub symbol_name: Vec<u8>,
    /// Export-table position (ordinal) or lookup hint.
    pub ordinal_or_hint: u16,
    pub name_type: ImportNameType,
    pub import_type: ImportType,
}

/// Mathematical value of one import request.
pub struct ImportView {
    pub symbol_name: Seq<u8>,
    pub ordinal_or_hint: u16,
    pub name_type: ImportNameType,
    pub import_type: ImportType,
}

impl View for Import {
    type V = ImportView;

    open spec fn view(&self) -> ImportView {
        ImportView {
            symbol_name: self.symbol_name@,
            ordinal_or_hint: self.ordinal_or_hint,
            name_type: self.name_type,
            import_type: self.import_type,
        }
    }
}

/// Malformed or unsupported encoder input; never coerced to degraded output.
#[derive(Clone, Copy, PartialEq, Eq, Structural, Debug)]
pub enum FormatError {
    /// An import kind other than `ImportType::Code` was requested.
    UnsupportedImportType,
    /// A symbol or DLL name was empty.
    EmptyName,
    /// A symbol or DLL name holds a null byte.
    EmbeddedNul,
    /// A symbol or DLL name is longer than `MAX_NAME_LEN`.
    NameTooLong,
}

/// A failure of the archive serializer.
#[derive(Clone, Copy, PartialEq, Eq, Structural, Debug)]
pub struct IoError;

/// Whether `name` holds a null byte.
pub open spec fn has_nul(name: Seq<u8>) -> bool {
    exists|i: int| 0 <= i < name.len() && name[i] == 0u8
}

/// A name the encoders accept: non-empty, null-free, and within bounds.
pub open spec fn name_ok(name: Seq<u8>) -> bool {
    &&& name.len() > 0
    &&& name.len() <= MAX_NAME_LEN
    &&& !has_nul(name)
}

/// First failing check on `name`, in the order the encoders test them.
pub open spec fn name_error(name: Seq<u8>) -> Option<FormatError> {
    if name.len() == 0 {
        Some(FormatError::EmptyName)
    } else if has_nul(name) {
        Some(FormatError::EmbeddedNul)
    } else if name.len() > MAX_NAME_LEN {
        Some(FormatError::NameTooLong)
    } else {
        None
    }
}

/// Scans `name` and reports the first failing check, if any.
pub fn check_name(name: &[u8]) -> (r: Option<FormatError>)
    ensures
        r == name_error(name@),
        r is None <==> name_ok(name@),
{
    if name.len() == 0 {
        return Some(FormatError::EmptyName);
    }
    let mut i: usize = 0;
    while i < name.len()
        invariant
            i <= name@.len(),
            forall|j: int| 0 <= j < i ==> name@[j] != 0u8,
        decreases name@.len() - i,
    {
        if name[i] == 0 {
            return Some(FormatError::EmbeddedNul);
        }
        i = i + 1;
    }
    if name.len() > MAX_NAME_LEN {
        return Some(FormatError::NameTooLong);
    }
    None
}

} // verus!

//! The import-library builder: owns the ordered member list (three
//! bookkeeping members, then one short-import member per symbol) and hands it
//! to the archive serializer.

use vstd::prelude::*;
use crate::descriptors::{
    generate_import_descriptor, generate_null_import_descriptor, generate_null_thunk_data,
    import_descriptor_bytes, import_descriptor_result, null_import_descriptor_bytes,
    null_thunk_bytes, null_thunk_result, null_thunk_symbol_spec, ImportDescriptorValues,
};
use crate::short_import::{short_import_bytes, short_import_result, write_short_import};
use crate::types::{name_ok, FormatError, Import, ImportView, IoError, Machine};

verus! {

/// Which detection stage of the symbol extractor recognizes this member;
/// recorded per member instead of storing a first-class callback.
#[derive(Clone, Copy, PartialEq, Eq, Structural, Debug)]
pub enum ExtractorKind {
    /// A short-import member.
    ShortImport,
    /// A standard COFF object member.
    GenericCoff,
}

/// One named archive member: an opaque byte buffer plus its symbol-extraction
/// capability. Timestamp, owner ids and permission bits of every member are
/// fixed to zero when the archive is written, so output never depends on the
/// clock or the invoking user.
pub struct ArchiveMember {
    pub name: Vec<u8>,
    pub buf: Vec<u8>,
    pub extractor: ExtractorKind,
}

/// The part of a member the archive bytes depend on: its name and buffer.
pub open spec fn member_view(m: ArchiveMember) -> (Seq<u8>, Seq<u8>) {
    (m.name@, m.buf@)
}

pub open spec fn members_view(ms: Seq<ArchiveMember>) -> Seq<(Seq<u8>, Seq<u8>)> {
    ms.map_values(|m: ArchiveMember| member_view(m))
}

/// Every member's timestamp is fixed to zero: determinism is a load-bearing
/// contract of the archive output, not an accident of defaults.
pub const MEMBER_MTIME: u64 = 0;

/// Every member's owner id is fixed to zero.
pub const MEMBER_UID: u32 = 0;

/// Every member's group id is fixed to zero.
pub const MEMBER_GID: u32 = 0;

/// Every member's permission bits are fixed to zero.
pub const MEMBER_PERMS: u32 = 0;

/// The whole outcome of serializing `members`, in order, into the GNU
/// archive container with a global symbol table and the fixed member
/// metadata above: the archive bytes, or the serializer's failure.
pub uninterp spec fn gnu_archive(members: Seq<(Seq<u8>, Seq<u8>)>) -> Result<Seq<u8>, ()>;

/// Maps a serializer result to its mathematical value.
pub open spec fn archive_result_view(r: Result<Vec<u8>, IoError>) -> Result<Seq<u8>, ()> {
    match r {
        Ok(bytes) => Ok(bytes@),
        Err(_) => Err(()),
    }
}

/// A buffer that one of this crate's encoders produced: a bookkeeping
/// member, or a short-import member for an accepted import.
#[verifier::opaque]
pub open spec fn encoder_output(buf: Seq<u8>) -> bool {
    ||| exists|dll_name: Seq<u8>, machine: Machine|
        name_ok(dll_name) && buf == #[trigger] import_descriptor_bytes(dll_name, machine)
    ||| exists|machine: Machine, symbol: Seq<u8>|
        name_ok(symbol) && buf == #[trigger] null_thunk_bytes(machine, symbol)
    ||| exists|machine: Machine| buf == #[trigger] null_import_descriptor_bytes(machine)
    ||| exists|dll_name: Seq<u8>, machine: Machine, import: ImportView|
        short_import_result(dll_name, machine, import) is Ok && buf
            == #[trigger] short_import_bytes(dll_name, machine, import)
}

/// Every member's buffer came from one of this crate's encoders.
pub open spec fn members_encoded(ms: Seq<ArchiveMember>) -> bool {
    forall|i: int| 0 <= i < ms.len() ==> encoder_output((#[trigger] ms[i]).buf@)
}

/// Relies on `ar_archive_writer::write_archive_to_stream` with fixed
/// settings: GNU archive kind, no thin mode, an in-memory cursor, and every
/// member stamped with the zeroed metadata constants above. The whole
/// outcome, bytes or failure, is a function of the members' names and
/// buffers alone; for the GNU kind the serializer reports its one failure (a
/// member over its size cap) as an error, never a panic. The global symbol
/// index is derived per member by the serializer's own
/// `DEFAULT_OBJECT_READER`: the defined global symbols of a standard COFF
/// member, and the symbol and its `__imp_` form for a short-import member
/// that carries the trailing DLL name; a short-import member without that
/// suffix (resolution by ordinal) yields no index entries, and a buffer in
/// neither format could make the reader panic on a bad symbol name, which is
/// why `requires` admits only this crate's encoder outputs.
#[verifier::external_body]
fn write_gnu_archive(members: &Vec<ArchiveMember>) -> (r: Result<Vec<u8>, IoError>)
    requires
        members_encoded(members@),
    ensures
        archive_result_view(r) == gnu_archive(members_view(members@)),
{
    let converted: Vec<ar_archive_writer::NewArchiveMember<'_>> = members.iter().map(
        |m: &ArchiveMember| ar_archive_writer::NewArchiveMember {
            buf: Box::new(m.buf.clone()), object_reader: &ar_archive_writer::DEFAULT_OBJECT_READER,
            member_name: String::from_utf8_lossy(&m.name).into_owned(),
            mtime: MEMBER_MTIME, uid: MEMBER_UID, gid: MEMBER_GID, perms: MEMBER_PERMS,
        }).collect();
    let mut cursor = std::io::Cursor::new(Vec::new());
    let kind = ar_archive_writer::ArchiveKind::Gnu;
    match ar_archive_writer::write_archive_to_stream(&mut cursor, &converted, kind, false, None) {
        Ok(()) => Ok(cursor.into_inner()),
        Err(_) => Err(IoError),
    }
}

/// Copies a byte string into an owned buffer.
fn copy_bytes(s: &[u8]) -> (r: Vec<u8>)
    ensures
        r@ == s@,
{
    let mut v: Vec<u8> = Vec::new();
    v.extend_from_slice(s);
    assert(v@ =~= s@);
    v
}

/// The three bookkeeping members every import library starts with, in their
/// required order: import descriptor, null thunk data, null import
/// descriptor, each named after the DLL.
pub open spec fn bookkeeping_members(dll_name: Seq<u8>, machine: Machine) -> Result<
    Seq<(Seq<u8>, Seq<u8>)>,
    FormatError,
> {
    match import_descriptor_result(dll_name, machine) {
        Err(e) => Err(e),
        Ok(descriptor) => match null_thunk_result(machine, null_thunk_symbol_spec(dll_name)) {
            Err(e) => Err(e),
            Ok(thunk) => Ok(
                seq![
                    (dll_name, descriptor),
                    (dll_name, thunk),
                    (dll_name, null_import_descriptor_bytes(machine)),
                ],
            ),
        },
    }
}

/// Owns the ordered archive members of one import library under
/// construction.
pub struct ImportLibraryBuilder {
    pub dll_name: Vec<u8>,
    pub machine: Machine,
    pub members: Vec<ArchiveMember>,
}

impl ImportLibraryBuilder {
    /// The member list starts with the three bookkeeping members of this
    /// builder's DLL name and machine.
    pub open spec fn wf(self) -> bool {
        &&& bookkeeping_members(self.dll_name@, self.machine) is Ok
        &&& self.members@.len() >= 3
        &&& members_view(self.members@).subrange(0, 3) == bookkeeping_members(
            self.dll_name@,
            self.machine,
        )->Ok_0
        &&& members_encoded(self.members@)
    }

    /// Builds an import-library builder pre-populated with the three
    /// bookkeeping members; fails exactly when encoding them fails.
    #[verifier::rlimit(100)]
    pub fn new(dll_name: &[u8], machine: Machine) -> (r: Result<ImportLibraryBuilder, FormatError>)
        ensures
            match r {
                Ok(b) => {
                    &&& b.wf()
                    &&& b.dll_name@ == dll_name@
                    &&& b.machine == machine
                    &&& members_view(b.members@) == bookkeeping_members(dll_name@, machine)->Ok_0
                    &&& bookkeeping_members(dll_name@, machine) is Ok
                    &&& b.members@.len() == 3
                    &&& forall|i: int|
                        0 <= i < b.members@.len() ==> (#[trigger] b.members@[i]).extractor
                            == ExtractorKind::GenericCoff
                },
                Err(e) => bookkeeping_members(dll_name@, machine) == Err::<
                    Seq<(Seq<u8>, Seq<u8>)>,
                    FormatError,
                >(e),
            },
    {
        let values = ImportDescriptorValues::new(dll_name, machine);
        let descriptor = match generate_import_descriptor(&values) {
            Ok(buf) => buf,
            Err(e) => {
                return Err(e);
            },
        };
        let thunk = match generate_null_thunk_data(machine, values.null_thunk_data_symbol.as_slice()) {
            Ok(buf) => buf,
            Err(e) => {
                return Err(e);
            },
        };
        let null_descriptor = match generate_null_import_descriptor(machine) {
            Ok(buf) => buf,
            Err(e) => {
                return Err(e);
            },
        };
        let mut members: Vec<ArchiveMember> = Vec::new();
        members.push(
            ArchiveMember {
                name: copy_bytes(dll_name),
                buf: descriptor,
                extractor: ExtractorKind::GenericCoff,
            },
        );
        members.push(
            ArchiveMember {
                name: copy_bytes(dll_name),
                buf: thunk,
                extractor: ExtractorKind::GenericCoff,
            },
        );
        members.push(
            ArchiveMember {
                name: copy_bytes(dll_name),
                buf: null_descriptor,
                extractor: ExtractorKind::GenericCoff,
            },
        );
        let b = ImportLibraryBuilder { dll_name: values.dll_name, machine, members };
        proof {
            assert(encoder_output(b.members@[0].buf@)) by {
                reveal(encoder_output);
                assert(name_ok(dll_name@) && b.members@[0].buf@ == import_descriptor_bytes(
                    dll_name@,
                    machine,
                ));
            }
            assert(encoder_output(b.members@[1].buf@)) by {
                reveal(encoder_output);
                assert(name_ok(null_thunk_symbol_spec(dll_name@)) && b.members@[1].buf@
                    == null_thunk_bytes(machine, null_thunk_symbol_spec(dll_name@)));
            }
            assert(encoder_output(b.members@[2].buf@)) by {
                reveal(encoder_output);
                assert(b.members@[2].buf@ == null_import_descriptor_bytes(machine));
            }
        }
        assert(members_view(b.members@) =~= bookkeeping_members(dll_name@, machine)->Ok_0);
        assert(members_view(b.members@).subrange(0, 3) =~= members_view(b.members@));
        Ok(b)
    }

    /// Appends one short-import member for `import`; on failure the member
    /// list is left exactly as it was.
    pub fn add_import(&mut self, import: &Import) -> (r: Result<(), FormatError>)
        requires
            old(self).wf(),
        ensures
            final(self).wf(),
            final(self).dll_name@ == old(self).dll_name@,
            final(self).machine == old(self).machine,
            match r {
                Ok(()) => {
                    &&& short_import_result(old(self).dll_name@, old(self).machine, import@) is Ok
                    &&& final(self).members@.len() == old(self).members@.len() + 1
                    &&& final(self).members@.drop_last() == old(self).members@
                    &&& final(self).members@.last().extractor == ExtractorKind::ShortImport
                    &&& members_view(final(self).members@) == members_view(
                        old(self).members@,
                    ).push(
                        (
                            old(self).dll_name@,
                            short_import_result(
                                old(self).dll_name@,
                                old(self).machine,
                                import@,
                            )->Ok_0,
                        ),
                    )
                },
                Err(e) => {
                    &&& short_import_result(old(self).dll_name@, old(self).machine, import@)
                        == Err::<Seq<u8>, FormatError>(e)
                    &&& final(self).members@ == old(self).members@
                },
            },
    {
        let buf = match write_short_import(self.dll_name.as_slice(), self.machine, import) {
            Ok(buf) => buf,
            Err(e) => {
                return Err(e);
            },
        };
        let member = ArchiveMember {
            name: copy_bytes(self.dll_name.as_slice()),
            buf,
            extractor: ExtractorKind::ShortImport,
        };
        self.members.push(member);
        assert(members_view(self.members@) =~= members_view(old(self).members@).push(
            (
                old(self).dll_name@,
                short_import_result(old(self).dll_name@, old(self).machine, import@)->Ok_0,
            ),
        ));
        assert(members_view(self.members@).subrange(0, 3) =~= members_view(
            old(self).members@,
        ).subrange(0, 3));
        assert(self.members@.drop_last() =~= old(self).members@);
        proof {
            assert(encoder_output(self.members@.last().buf@)) by {
                reveal(encoder_output);
                assert(short_import_result(old(self).dll_name@, old(self).machine, import@) is Ok
                    && self.members@.last().buf@ == short_import_bytes(
                    old(self).dll_name@,
                    old(self).machine,
                    import@,
                ));
            }
            assert forall|i: int| 0 <= i < self.members@.len() implies encoder_output(
                (#[trigger] self.members@[i]).buf@,
            ) by {
                if i < old(self).members@.len() {
                    assert(self.members@[i] == old(self).members@[i]);
                    assert(encoder_output(old(self).members@[i].buf@));
                }
            }
        }
        Ok(())
    }

    /// Serializes the accumulated members, with a computed global symbol
    /// table, into one in-memory archive. The whole outcome, bytes or
    /// failure, is a function of the member list, so identical builder
    /// states always yield identical results; a serializer failure surfaces
    /// as the error and is never coerced into success. The index entries of
    /// each member are derived from its bytes by the serializer's reader
    /// (see `write_gnu_archive` for what that reader yields per member
    /// kind).
    pub fn write(&self) -> (r: Result<Vec<u8>, IoError>)
        requires
            members_encoded(self.members@),
        ensures
            archive_result_view(r) == gnu_archive(members_view(self.members@)),
    {
        write_gnu_archive(&self.members)
    }
}

/// A failure while building an import library: a malformed input to an
/// encoder, or a failure of the archive serializer.
#[derive(Clone, Copy, PartialEq, Eq, Structural, Debug)]
pub enum BuildError {
    Format(FormatError),
    Io(IoError),
}

/// The mathematical values of a list of import requests.
pub open spec fn imports_view(imports: Seq<Import>) -> Seq<ImportView> {
    imports.map_values(|i: Import| i@)
}

/// The short-import members for `imports`, in order, each named after the
/// DLL; the first encoding failure wins.
pub open spec fn import_members(
    dll_name: Seq<u8>,
    machine: Machine,
    imports: Seq<ImportView>,
) -> Result<Seq<(Seq<u8>, Seq<u8>)>, FormatError>
    decreases imports.len(),
{
    if imports.len() == 0 {
        Ok(Seq::empty())
    } else {
        match import_members(dll_name, machine, imports.drop_last()) {
            Err(e) => Err(e),
            Ok(ms) => match short_import_result(dll_name, machine, imports.last()) {
                Err(e) => Err(e),
                Ok(bytes) => Ok(ms.push((dll_name, bytes))),
            },
        }
    }
}

/// The full member list of the import library for `imports`: the three
/// bookkeeping members, then one short-import member per request.
pub open spec fn built_members(
    dll_name: Seq<u8>,
    machine: Machine,
    imports: Seq<ImportView>,
) -> Result<Seq<(Seq<u8>, Seq<u8>)>, FormatError> {
    match bookkeeping_members(dll_name, machine) {
        Err(e) => Err(e),
        Ok(ms) => match import_members(dll_name, machine, imports) {
            Err(e) => Err(e),
            Ok(is) => Ok(ms + is),
        },
    }
}

/// Once a prefix of the import list fails to encode, the whole list fails
/// with the same error.
proof fn lemma_import_members_prefix_error(
    dll_name: Seq<u8>,
    machine: Machine,
    imports: Seq<ImportView>,
    k: int,
)
    requires
        0 <= k <= imports.len(),
        import_members(dll_name, machine, imports.take(k)) is Err,
    ensures
        import_members(dll_name, machine, imports) == import_members(
            dll_name,
            machine,
            imports.take(k),
        ),
    decreases imports.len(),
{
    if imports.len() == k {
        assert(imports.take(k) =~= imports);
    } else {
        assert(imports.drop_last().take(k) =~= imports.take(k));
        lemma_import_members_prefix_error(dll_name, machine, imports.drop_last(), k);
    }
}

/// Builds the whole import library in memory: the three bookkeeping members,
/// one short-import member per request in order, and the serialized archive.
/// The archive bytes are a function of the DLL name, the machine and the
/// ordered import list alone, so identical inputs always produce identical
/// output.
pub fn build_import_library(dll_name: &[u8], machine: Machine, imports: &Vec<Import>) -> (r: Result<
    Vec<u8>,
    BuildError,
>)
    ensures
        match r {
            Ok(bytes) => {
                &&& built_members(dll_name@, machine, imports_view(imports@)) is Ok
                &&& gnu_archive(built_members(dll_name@, machine, imports_view(imports@))->Ok_0)
                    == Ok::<Seq<u8>, ()>(bytes@)
            },
            Err(BuildError::Format(e)) => built_members(dll_name@, machine, imports_view(imports@))
                == Err::<Seq<(Seq<u8>, Seq<u8>)>, FormatError>(e),
            Err(BuildError::Io(_)) => {
                &&& built_members(dll_name@, machine, imports_view(imports@)) is Ok
                &&& gnu_archive(built_members(dll_name@, machine, imports_view(imports@))->Ok_0)
                    is Err
            },
        },
{
    let mut builder = match ImportLibraryBuilder::new(dll_name, machine) {
        Ok(b) => b,
        Err(e) => {
            return Err(BuildError::Format(e));
        },
    };
    let ghost all = imports_view(imports@);
    let mut i: usize = 0;
    while i < imports.len()
        invariant
            i <= imports@.len(),
            all == imports_view(imports@),
            builder.wf(),
            builder.dll_name@ == dll_name@,
            builder.machine == machine,
            bookkeeping_members(dll_name@, machine) is Ok,
            import_members(dll_name@, machine, all.take(i as int)) is Ok,
            members_view(builder.members@) == bookkeeping_members(dll_name@, machine)->Ok_0
                + import_members(dll_name@, machine, all.take(i as int))->Ok_0,
        decreases imports@.len() - i,
    {
        let ghost before = all.take(i as int);
        match builder.add_import(&imports[i]) {
            Ok(()) => {},
            Err(e) => {
                proof {
                    assert(all.take(i + 1).drop_last() =~= before);
                    assert(all.take(i + 1).last() == imports@[i as int]@);
                    assert(import_members(dll_name@, machine, all.take(i + 1)) == Err::<
                        Seq<(Seq<u8>, Seq<u8>)>,
                        FormatError,
                    >(e));
                    lemma_import_members_prefix_error(dll_name@, machine, all, i + 1);
                }
                return Err(BuildError::Format(e));
            },
        }
        proof {
            assert(all.take(i + 1).drop_last() =~= before);
            assert(all.take(i + 1).last() == imports@[i as int]@);
            assert(members_view(builder.members@) =~= bookkeeping_members(dll_name@, machine)->Ok_0
                + import_members(dll_name@, machine, all.take(i + 1))->Ok_0);
        }
        i = i + 1;
    }
    proof {
        assert(all.take(imports@.len() as int) =~= all);
    }
    match builder.write() {
        Ok(bytes) => Ok(bytes),
        Err(e) => Err(BuildError::Io(e)),
    }
}

/// Determinism: the archive member list is a function of the DLL name, the
/// machine and the ordered import list alone; equal inputs give equal
/// members, and so equal archive bytes.
pub proof fn lemma_build_deterministic(
    dll_a: Seq<u8>,
    machine_a: Machine,
    imports_a: Seq<ImportView>,
    dll_b: Seq<u8>,
    machine_b: Machine,
    imports_b: Seq<ImportView>,
)
    requires
        dll_a == dll_b,
        machine_a == machine_b,
        imports_a == imports_b,
    ensures
        built_members(dll_a, machine_a, imports_a) == built_members(dll_b, machine_b, imports_b),
        built_members(dll_a, machine_a, imports_a) is Ok ==> gnu_archive(
            built_members(dll_a, machine_a, imports_a)->Ok_0,
        ) == gnu_archive(built_members(dll_b, machine_b, imports_b)->Ok_0),
{
}

/// Ordering invariant: the first three members of every well-formed builder
/// are the import descriptor, the null thunk data and the null import
/// descriptor, in that order, however many short-import members follow.
#[verifier::rlimit(100)]
pub proof fn lemma_bookkeeping_order(b: ImportLibraryBuilder)
    requires
        b.wf(),
    ensures
        members_view(b.members@).len() >= 3,
        members_view(b.members@)[0] == (
            b.dll_name@,
            crate::descriptors::import_descriptor_bytes(b.dll_name@, b.machine),
        ),
        members_view(b.members@)[1] == (
            b.dll_name@,
            crate::descriptors::null_thunk_bytes(b.machine, null_thunk_symbol_spec(b.dll_name@)),
        ),
        members_view(b.members@)[2] == (b.dll_name@, null_import_descriptor_bytes(b.machine)),
{
    let ms = bookkeeping_members(b.dll_name@, b.machine)->Ok_0;
    assert(members_view(b.members@)[0] == members_view(b.members@).subrange(0, 3)[0]);
    assert(members_view(b.members@)[1] == members_view(b.members@).subrange(0, 3)[1]);
    assert(members_view(b.members@)[2] == members_view(b.members@).subrange(0, 3)[2]);
}

} // verus!

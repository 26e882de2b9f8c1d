use import_lib::builder::{build_import_library, BuildError, ImportLibraryBuilder};
use import_lib::descriptors::{
    generate_import_descriptor, generate_null_import_descriptor, generate_null_thunk_data,
    ImportDescriptorValues,
};
use import_lib::extract::{get_symbols, short_import_get_symbols, ExtractError};
use import_lib::short_import::write_short_import;
use import_lib::target::{archive_symbol_strategy, import_lib_file_name, supports_import_lib, SymbolStrategy};
use import_lib::types::{FormatError, Import, ImportNameType, ImportType, Machine};

fn code_import(name: &[u8], ordinal_or_hint: u16, name_type: ImportNameType) -> Import {
    Import {
        symbol_name: name.to_vec(),
        ordinal_or_hint,
        name_type,
        import_type: ImportType::Code,
    }
}

#[test]
fn short_import_layout_is_exact() {
    let import = code_import(b"Bar", 7, ImportNameType::Name);
    let buf = write_short_import(b"foo.dll", Machine::X86_64, &import).unwrap();
    // Header: sig1 0x0000, sig2 0xffff, version 0, machine 0x8664,
    // timestamp 0, size of data, ordinal/hint, flags (type Code=0, name=1).
    let tail: &[u8] = b"Bar\0foo.dll\0";
    assert_eq!(buf.len(), 20 + tail.len());
    assert_eq!(&buf[0..2], &[0x00, 0x00]);
    assert_eq!(&buf[2..4], &[0xff, 0xff]);
    assert_eq!(&buf[4..6], &[0x00, 0x00]);
    assert_eq!(&buf[6..8], &[0x64, 0x86]);
    assert_eq!(&buf[8..12], &[0x00, 0x00, 0x00, 0x00]);
    assert_eq!(&buf[12..16], &[tail.len() as u8, 0x00, 0x00, 0x00]);
    assert_eq!(&buf[16..18], &[0x07, 0x00]);
    assert_eq!(&buf[18..20], &[0x04, 0x00]);
    assert_eq!(&buf[20..], tail);
}

#[test]
fn short_import_by_ordinal_omits_dll_name() {
    let import = code_import(b"Baz", 5, ImportNameType::Ordinal);
    let buf = write_short_import(b"foo.dll", Machine::X86_64, &import).unwrap();
    assert_eq!(buf.len(), 20 + 4);
    assert_eq!(&buf[12..16], &[0x04, 0x00, 0x00, 0x00]);
    assert_eq!(&buf[16..18], &[0x05, 0x00]);
    // Flags: import type Code = 0, name type Ordinal = 0.
    assert_eq!(&buf[18..20], &[0x00, 0x00]);
    assert_eq!(&buf[20..], b"Baz\0");
}

#[test]
fn short_import_round_trips_through_extractor() {
    let import = code_import(b"Bar", 0, ImportNameType::Name);
    let buf = write_short_import(b"foo.dll", Machine::X86_64, &import).unwrap();
    let names = short_import_get_symbols(&buf).unwrap().unwrap();
    assert_eq!(names.len(), 2);
    assert_eq!(names[0], b"Bar".to_vec());
    assert_eq!(names[1], b"__imp_Bar".to_vec());
    // The combined extractor recognizes it in its first stage.
    let names = get_symbols(&buf).unwrap().unwrap();
    assert_eq!(names, vec![b"Bar".to_vec(), b"__imp_Bar".to_vec()]);
}

#[test]
fn flags_encode_the_name_type() {
    let import = code_import(b"Bar", 0, ImportNameType::NameNoPrefix);
    let buf = write_short_import(b"foo.dll", Machine::X86_64, &import).unwrap();
    assert_eq!(&buf[18..20], &[0x08, 0x00]);
    let import = code_import(b"Bar", 0, ImportNameType::NameUndecorate);
    let buf = write_short_import(b"foo.dll", Machine::X86_64, &import).unwrap();
    assert_eq!(&buf[18..20], &[0x0c, 0x00]);
}

#[test]
fn rejects_non_code_import_types() {
    let mut import = code_import(b"Bar", 0, ImportNameType::Name);
    import.import_type = ImportType::Data;
    let r = write_short_import(b"foo.dll", Machine::X86_64, &import);
    assert_eq!(r.unwrap_err(), FormatError::UnsupportedImportType);

    let mut builder = ImportLibraryBuilder::new(b"foo.dll", Machine::X86_64).unwrap();
    let members_before = builder.members.len();
    let mut import = code_import(b"Bar", 0, ImportNameType::Name);
    import.import_type = ImportType::Data;
    assert_eq!(builder.add_import(&import).unwrap_err(), FormatError::UnsupportedImportType);
    assert_eq!(builder.members.len(), members_before);
}

#[test]
fn rejects_malformed_names() {
    let empty = code_import(b"", 0, ImportNameType::Name);
    let r = write_short_import(b"foo.dll", Machine::X86_64, &empty);
    assert_eq!(r.unwrap_err(), FormatError::EmptyName);

    let with_nul = code_import(b"Ba\0r", 0, ImportNameType::Name);
    let r = write_short_import(b"foo.dll", Machine::X86_64, &with_nul);
    assert_eq!(r.unwrap_err(), FormatError::EmbeddedNul);

    let long = vec![0x41u8; 0x10000];
    let too_long = code_import(&long, 0, ImportNameType::Name);
    let r = write_short_import(b"foo.dll", Machine::X86_64, &too_long);
    assert_eq!(r.unwrap_err(), FormatError::NameTooLong);

    let ok_name = code_import(b"Bar", 0, ImportNameType::Name);
    let r = write_short_import(b"fo\0o.dll", Machine::X86_64, &ok_name);
    assert_eq!(r.unwrap_err(), FormatError::EmbeddedNul);
}

#[test]
fn ordinal_imports_do_not_encode_the_dll_name() {
    // An ordinal-resolved import omits the DLL-name suffix, so the DLL name
    // is not validated for this member.
    let import = code_import(b"Bar", 1, ImportNameType::Ordinal);
    let buf = write_short_import(b"fo\0o.dll", Machine::X86_64, &import).unwrap();
    assert_eq!(&buf[20..], b"Bar\0");
}

#[test]
fn oversized_dll_name_fails_the_bookkeeping_members() {
    let long = vec![0x41u8; 0x10000];
    let r = ImportLibraryBuilder::new(&long, Machine::X86_64);
    assert_eq!(r.err().unwrap(), FormatError::NameTooLong);

    // A DLL name at the limit is fine for the descriptor, but the null-thunk
    // symbol synthesized from it overruns the limit.
    let edge = vec![0x41u8; 0xffff];
    let r = ImportLibraryBuilder::new(&edge, Machine::X86_64);
    assert_eq!(r.err().unwrap(), FormatError::NameTooLong);
}

#[test]
fn synthesized_symbol_names_share_the_stem() {
    let values = ImportDescriptorValues::new(b"foo.dll", Machine::X86_64);
    assert_eq!(values.dll_name, b"foo.dll".to_vec());
    assert_eq!(values.import_descriptor_symbol, b"__IMPORT_DESCRIPTOR_foo".to_vec());
    assert_eq!(values.null_thunk_data_symbol, b"\x7ffoo_NULL_THUNK_DATA".to_vec());

    let values = ImportDescriptorValues::new(b"noext", Machine::X86_64);
    assert_eq!(values.import_descriptor_symbol, b"__IMPORT_DESCRIPTOR_noext".to_vec());
}

#[test]
fn bookkeeping_members_are_recognized_coff_objects() {
    let values = ImportDescriptorValues::new(b"foo.dll", Machine::X86_64);
    let descriptor = generate_import_descriptor(&values).unwrap();
    let names = get_symbols(&descriptor).unwrap().expect("descriptor member not recognized");
    assert_eq!(names, vec![b"__IMPORT_DESCRIPTOR_foo".to_vec()]);

    let thunk = generate_null_thunk_data(Machine::X86_64, &values.null_thunk_data_symbol).unwrap();
    let names = get_symbols(&thunk).unwrap().expect("null thunk member not recognized");
    assert_eq!(names, vec![b"\x7ffoo_NULL_THUNK_DATA".to_vec()]);

    let null_descriptor = generate_null_import_descriptor(Machine::X86_64).unwrap();
    let names = get_symbols(&null_descriptor).unwrap().expect("null descriptor not recognized");
    assert_eq!(names, vec![b"__NULL_IMPORT_DESCRIPTOR".to_vec()]);
}

#[test]
fn unrecognized_buffers_are_reported_as_neither_format() {
    assert_eq!(get_symbols(b"").unwrap(), None);
    assert_eq!(get_symbols(&[0u8; 10]).unwrap(), None);
    // Right length for a short-import header, wrong signature words, and not
    // a well-formed COFF object either.
    let garbage = vec![0x42u8; 64];
    assert_eq!(get_symbols(&garbage).unwrap(), None);
}

#[test]
fn short_import_without_terminator_is_malformed() {
    let mut buf = vec![0u8; 20];
    buf[2] = 0xff;
    buf[3] = 0xff;
    buf.push(0x41);
    assert_eq!(short_import_get_symbols(&buf).unwrap_err(), ExtractError::MissingNul);
    assert_eq!(get_symbols(&buf).unwrap_err(), ExtractError::MissingNul);
}

#[test]
fn selector_allows_only_the_supported_target() {
    assert!(supports_import_lib(b"x86_64", true));
    assert!(!supports_import_lib(b"x86_64", false));
    assert!(!supports_import_lib(b"aarch64", true));
    assert!(!supports_import_lib(b"x86", true));
}

#[test]
fn symbol_strategy_follows_the_selector() {
    assert_eq!(archive_symbol_strategy(b"x86_64", true), SymbolStrategy::ImportAware);
    assert_eq!(archive_symbol_strategy(b"x86_64", false), SymbolStrategy::GenericNative);
    assert_eq!(archive_symbol_strategy(b"aarch64", true), SymbolStrategy::GenericNative);
}

#[test]
fn artifact_file_name_follows_the_convention() {
    let name = import_lib_file_name(b"lib", b"mylib", b".a");
    assert_eq!(name, b"libmylib_import.a".to_vec());
    let name = import_lib_file_name(b"", b"mylib", b".lib");
    assert_eq!(name, b"mylib_import.lib".to_vec());
}

#[test]
fn end_to_end_archive_holds_all_members_and_symbols() {
    let imports = vec![
        code_import(b"Bar", 0, ImportNameType::Name),
        code_import(b"Baz", 5, ImportNameType::Ordinal),
    ];
    let archive = build_import_library(b"foo.dll", Machine::X86_64, &imports).unwrap();

    let parsed = object::read::archive::ArchiveFile::parse(&archive[..]).unwrap();
    let mut member_data: Vec<Vec<u8>> = Vec::new();
    let mut symbols: Vec<Vec<u8>> = Vec::new();
    for member in parsed.members() {
        let member = member.unwrap();
        assert_eq!(member.name(), b"foo.dll");
        let data = member.data(&archive[..]).unwrap();
        member_data.push(data.to_vec());
        if let Some(names) = get_symbols(data).unwrap() {
            symbols.extend(names);
        }
    }
    assert_eq!(member_data.len(), 5);

    // The first three members are the import descriptor, the null thunk data
    // and the null import descriptor, in that order; the imports follow.
    let values = ImportDescriptorValues::new(b"foo.dll", Machine::X86_64);
    assert_eq!(member_data[0], generate_import_descriptor(&values).unwrap());
    assert_eq!(
        member_data[1],
        generate_null_thunk_data(Machine::X86_64, &values.null_thunk_data_symbol).unwrap()
    );
    assert_eq!(member_data[2], generate_null_import_descriptor(Machine::X86_64).unwrap());
    assert_eq!(
        member_data[3],
        write_short_import(b"foo.dll", Machine::X86_64, &imports[0]).unwrap()
    );
    assert_eq!(
        member_data[4],
        write_short_import(b"foo.dll", Machine::X86_64, &imports[1]).unwrap()
    );
    for expected in [&b"Bar"[..], b"__imp_Bar", b"Baz", b"__imp_Baz"] {
        assert!(symbols.iter().any(|s| s == expected), "missing symbol in archive");
    }

    // The archive's global symbol index, as the serializer's reader built
    // it: the three synthesized bookkeeping symbols and the name-resolved
    // import with its decorated form. An ordinal-resolved member omits the
    // DLL-name suffix, so the serializer's reader yields no index entries
    // for it; its symbols are still read from the member itself above.
    let index = parsed.symbols().unwrap().expect("archive has no symbol index");
    let index_names: Vec<Vec<u8>> = index.map(|s| s.unwrap().name().to_vec()).collect();
    for expected in [
        &b"__IMPORT_DESCRIPTOR_foo"[..],
        b"\x7ffoo_NULL_THUNK_DATA",
        b"__NULL_IMPORT_DESCRIPTOR",
        b"Bar",
        b"__imp_Bar",
    ] {
        assert!(index_names.iter().any(|s| s == expected), "missing symbol in index");
    }

    // Re-running with identical inputs reproduces identical bytes.
    let again = build_import_library(b"foo.dll", Machine::X86_64, &imports).unwrap();
    assert_eq!(archive, again);
}

#[test]
fn builder_propagates_encoder_errors() {
    let r = ImportLibraryBuilder::new(b"fo\0o.dll", Machine::X86_64);
    assert_eq!(r.err().unwrap(), FormatError::EmbeddedNul);

    let imports = vec![code_import(b"Ba\0r", 0, ImportNameType::Name)];
    let r = build_import_library(b"foo.dll", Machine::X86_64, &imports);
    match r {
        Err(BuildError::Format(e)) => assert_eq!(e, FormatError::EmbeddedNul),
        _ => panic!("expected a format error"),
    }
}

#[test]
fn write_is_deterministic_for_one_builder() {
    let mut builder = ImportLibraryBuilder::new(b"foo.dll", Machine::X86_64).unwrap();
    builder.add_import(&code_import(b"Bar", 0, ImportNameType::Name)).unwrap();
    builder.add_import(&code_import(b"Qux", 9, ImportNameType::Ordinal)).unwrap();
    let first = builder.write().unwrap();
    let second = builder.write().unwrap();
    assert_eq!(first, second);
    assert!(!first.is_empty());
    assert_eq!(&first[0..8], b"!<arch>\n");

    // Every member header carries zeroed timestamp, owner ids and
    // permissions, so the bytes cannot depend on the clock or the user.
    let mut offset = 8usize;
    let mut headers = 0usize;
    while offset + 60 <= first.len() {
        let header = &first[offset..offset + 60];
        assert_eq!(&header[16..28], b"0           ", "timestamp field not zero");
        assert_eq!(&header[28..34], b"0     ", "uid field not zero");
        assert_eq!(&header[34..40], b"0     ", "gid field not zero");
        assert_eq!(&header[40..48], b"0       ", "permission field not zero");
        assert_eq!(&header[58..60], b"`\n");
        headers += 1;
        let size: usize =
            std::str::from_utf8(&header[48..58]).unwrap().trim().parse().unwrap();
        offset += 60 + size + size % 2;
    }
    // The symbol table and the five archive members of this builder.
    assert_eq!(headers, 6);
}

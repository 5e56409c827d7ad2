use d2interface::descriptor::{
    AddressDescriptor, Convention, FieldSpec, FnSignature, SemanticType, ValueType,
};
use d2interface::registry::registry;
use d2interface::resolve::{
    Accessor, AccessorGroup, Error, ExportEntry, ExportTable, resolve_table,
};
use d2interface::session::{Fingerprint, Session, fingerprint_of, probe};
use d2interface::table::{VersionTable, derive_table};

fn data(name: &str, vt: ValueType, loc: AddressDescriptor) -> FieldSpec {
    FieldSpec { name: name.to_owned(), ty: SemanticType::Data(vt), location: loc }
}

fn callable_no_args(name: &str, loc: AddressDescriptor) -> FieldSpec {
    FieldSpec {
        name: name.to_owned(),
        ty: SemanticType::Callable(
            FnSignature { args: Vec::new(), ret: None },
            Convention::Stdcall,
        ),
        location: loc,
    }
}

fn exports_of(pairs: &[(u16, u64)]) -> ExportTable {
    ExportTable {
        entries: pairs.iter().map(|&(ordinal, address)| ExportEntry { ordinal, address }).collect(),
    }
}

/// Every ordinal any registered table mentions, mapped to a synthetic
/// address derived from the ordinal itself.
fn full_exports() -> ExportTable {
    exports_of(&[
        (10001, 0x610001),
        (10022, 0x610022),
        (10046, 0x610046),
        (10070, 0x610070),
        (10129, 0x610129),
    ])
}

fn resolve_ok(table: &VersionTable, base: u64, exports: &ExportTable) -> AccessorGroup {
    match resolve_table(table, base, exports) {
        Ok(g) => g,
        Err(_) => panic!("expected successful resolution"),
    }
}

#[test]
fn offsets_resolve_to_base_plus_offset_for_every_registered_table() {
    let base: u64 = 0x400000;
    let exports = full_exports();
    for entry in registry() {
        for table in &entry.tables {
            let group = resolve_ok(table, base, &exports);
            assert_eq!(group.accessors.len(), table.fields.len());
            assert_eq!(group.base, base);
            assert_eq!(group.table_name, table.name);
            for (acc, field) in group.accessors.iter().zip(table.fields.iter()) {
                assert_eq!(acc.name, field.name);
                match field.location {
                    AddressDescriptor::Offset(o) => {
                        assert_eq!(acc.address, base + o as u64);
                    }
                    AddressDescriptor::Ordinal(d) => {
                        let expected = exports
                            .entries
                            .iter()
                            .find(|e| e.ordinal == d)
                            .expect("synthetic export table must cover every ordinal")
                            .address;
                        assert_eq!(acc.address, expected);
                    }
                }
            }
        }
    }
}

#[test]
fn missing_ordinal_names_exactly_that_field() {
    let table = VersionTable {
        name: "probe_target".to_owned(),
        fields: vec![
            data("alpha", ValueType::U32, AddressDescriptor::Offset(0x10)),
            callable_no_args("beta", AddressDescriptor::Ordinal(77)),
            data("gamma", ValueType::U32, AddressDescriptor::Offset(0x20)),
        ],
    };
    // Export table populated, but ordinal 77 absent.
    let exports = exports_of(&[(76, 0x1000), (78, 0x2000)]);
    match resolve_table(&table, 0x400000, &exports) {
        Ok(_) => panic!("resolution must fail when an ordinal is missing"),
        Err(Error::UnresolvedSymbol(name)) => assert_eq!(name, "beta"),
        Err(Error::UnsupportedVersion) => panic!("wrong error variant"),
    }
}

#[test]
fn derived_table_overrides_one_field_and_inherits_the_rest() {
    let base_table = VersionTable {
        name: "base".to_owned(),
        fields: vec![
            data("x", ValueType::U32, AddressDescriptor::Offset(0x100)),
            data("y", ValueType::U32, AddressDescriptor::Offset(0x300)),
            callable_no_args("z", AddressDescriptor::Ordinal(10129)),
        ],
    };
    let overrides = vec![data("x", ValueType::U32, AddressDescriptor::Offset(0x200))];
    let derived = derive_table(&base_table, "derived", &overrides);
    assert_eq!(derived.name, "derived");
    assert_eq!(derived.fields.len(), 3);

    // Recomputing the merge yields the identical table.
    let again = derive_table(&base_table, "derived", &overrides);
    assert_eq!(again.name, derived.name);
    assert_eq!(again.fields.len(), derived.fields.len());
    for (f1, f2) in again.fields.iter().zip(derived.fields.iter()) {
        assert_eq!(f1.name, f2.name);
        assert_eq!(f1.location, f2.location);
    }

    let base_addr: u64 = 0x400000;
    let exports = exports_of(&[(10129, 0x4eb30)]);
    let group = resolve_ok(&derived, base_addr, &exports);
    assert_eq!(group.accessors[0].name, "x");
    assert_eq!(group.accessors[0].address, base_addr + 0x200);
    assert_eq!(group.accessors[1].name, "y");
    assert_eq!(group.accessors[1].address, base_addr + 0x300);
    assert_eq!(group.accessors[2].name, "z");
    assert_eq!(group.accessors[2].address, 0x4eb30);
}

#[test]
fn resolution_is_deterministic_across_constructions() {
    let base: u64 = 0x400000;
    let exports = full_exports();
    for entry in registry() {
        for table in &entry.tables {
            let g1 = resolve_ok(table, base, &exports);
            let g2 = resolve_ok(table, base, &exports);
            assert_eq!(g1.accessors.len(), g2.accessors.len());
            for (a1, a2) in g1.accessors.iter().zip(g2.accessors.iter()) {
                assert_eq!(a1.name, a2.name);
                assert_eq!(a1.address, a2.address);
            }
        }
    }
}

#[test]
fn end_to_end_frame_count_and_draw_menu() {
    let table = VersionTable {
        name: "sample".to_owned(),
        fields: vec![
            data("frame_count", ValueType::U32, AddressDescriptor::Offset(0x10876c)),
            callable_no_args("draw_menu", AddressDescriptor::Ordinal(10129)),
        ],
    };
    let exports = exports_of(&[(10129, 0x4eb30)]);
    let group = resolve_ok(&table, 0x400000, &exports);
    assert_eq!(group.accessors.len(), 2);

    let frame_count: &Accessor = &group.accessors[0];
    assert_eq!(frame_count.name, "frame_count");
    assert_eq!(frame_count.address, 0x50876c);
    assert!(matches!(frame_count.ty, SemanticType::Data(ValueType::U32)));

    let draw_menu: &Accessor = &group.accessors[1];
    assert_eq!(draw_menu.name, "draw_menu");
    assert_eq!(draw_menu.address, 0x4eb30);
    match &draw_menu.ty {
        SemanticType::Callable(sig, conv) => {
            assert!(sig.args.is_empty());
            assert!(sig.ret.is_none());
            assert_eq!(*conv, Convention::Stdcall);
        }
        _ => panic!("draw_menu must be callable"),
    }
}

#[test]
fn empty_table_resolves_to_empty_group() {
    let table = VersionTable { name: "empty".to_owned(), fields: Vec::new() };
    let exports = exports_of(&[]);
    let group = resolve_ok(&table, 0x400000, &exports);
    assert!(group.accessors.is_empty());
}

#[test]
fn probe_rejects_unregistered_fingerprint() {
    let reg = registry();
    let unknown = Fingerprint { image_size: 1, checksum: 2 };
    match probe(&reg, unknown) {
        Ok(_) => panic!("an unregistered fingerprint must not match"),
        Err(Error::UnsupportedVersion) => {}
        Err(Error::UnresolvedSymbol(_)) => panic!("wrong error variant"),
    }
}

#[test]
fn probe_finds_each_registered_fingerprint() {
    let reg = registry();
    for (i, entry) in reg.iter().enumerate() {
        match probe(&reg, entry.fingerprint) {
            Ok(j) => assert_eq!(j, i),
            Err(_) => panic!("registered fingerprint must match"),
        }
    }
}

#[test]
fn session_reaches_ready_for_registered_version() {
    let reg = registry();
    let mut session = Session::new();
    session.detect(&reg, reg[0].fingerprint);
    session.bind(0x400000);
    session.construct(&full_exports());
    let groups = session.groups().expect("session must be ready");
    assert_eq!(groups.len(), reg[0].tables.len());
    // v1.11b window subsystem: draw_menu through ordinal 10129.
    let win = &groups[3];
    assert_eq!(win.table_name, "v111b_win");
    assert_eq!(win.accessors[0].name, "draw_menu");
    assert_eq!(win.accessors[0].address, 0x610129);
}

#[test]
fn session_fails_permanently_on_unknown_fingerprint() {
    let reg = registry();
    let mut session = Session::new();
    session.detect(&reg, Fingerprint { image_size: 0, checksum: 0 });
    assert!(session.groups().is_none());
}

#[test]
fn session_fails_atomically_on_missing_ordinal() {
    let reg = registry();
    let mut session = Session::new();
    session.detect(&reg, reg[0].fingerprint);
    session.bind(0x400000);
    // Ordinal 10129 (draw_menu) left out.
    session.construct(&exports_of(&[
        (10001, 0x610001),
        (10022, 0x610022),
        (10046, 0x610046),
        (10070, 0x610070),
    ]));
    assert!(session.groups().is_none());
}

#[test]
fn accessor_lookup_finds_fields_by_name() {
    let table = VersionTable {
        name: "sample".to_owned(),
        fields: vec![
            data("frame_count", ValueType::U32, AddressDescriptor::Offset(0x10876c)),
            callable_no_args("draw_menu", AddressDescriptor::Ordinal(10129)),
        ],
    };
    let exports = exports_of(&[(10129, 0x4eb30)]);
    let group = resolve_ok(&table, 0x400000, &exports);
    let fc = group.accessor("frame_count").expect("frame_count must be present");
    assert_eq!(fc.address, 0x50876c);
    let dm = group.accessor("draw_menu").expect("draw_menu must be present");
    assert_eq!(dm.address, 0x4eb30);
    assert!(group.accessor("no_such_field").is_none());
}

#[test]
fn fingerprint_of_sums_bytes_and_records_size() {
    let empty: Vec<u8> = Vec::new();
    assert_eq!(fingerprint_of(&empty), Fingerprint { image_size: 0, checksum: 0 });
    let image: Vec<u8> = vec![1, 2, 3, 0xff];
    assert_eq!(fingerprint_of(&image), Fingerprint { image_size: 4, checksum: 261 });
}

#[test]
fn registered_tables_have_unique_field_names_and_fingerprints() {
    let reg = registry();
    for entry in &reg {
        for table in &entry.tables {
            for i in 0..table.fields.len() {
                for j in i + 1..table.fields.len() {
                    assert_ne!(table.fields[i].name, table.fields[j].name);
                }
            }
        }
    }
    for i in 0..reg.len() {
        for j in i + 1..reg.len() {
            assert_ne!(reg[i].fingerprint, reg[j].fingerprint);
        }
    }
}

#[test]
fn error_descriptions_name_the_failure() {
    assert_eq!(Error::UnsupportedVersion.describe(), "unsupported host version");
    assert_eq!(
        Error::UnresolvedSymbol("draw_menu".to_owned()).describe(),
        "unresolved symbol: draw_menu"
    );
}

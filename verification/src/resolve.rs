//! Resolution: turning a version table plus a module's runtime base address
//! and export table into a group of typed accessors with absolute addresses.
//! Construction is all or nothing: a single failed ordinal lookup yields an
//! error naming the field, and no group.

use vstd::prelude::*;
use crate::descriptor::{AddressDescriptor, FieldSpecView, SemanticType, SemanticTypeView};
use crate::table::{VersionTable, VersionTableView, merged_field, override_for};

verus! {

/// Failure of version resolution or accessor construction.
pub enum Error {
    /// The attached host image matches no registered version table.
    UnsupportedVersion,
    /// The named field's export ordinal is absent from the module's export
    /// table.
    UnresolvedSymbol(String),
}

/// Mathematical value of an `Error`.
#[verifier::ext_equal]
pub ghost enum ErrorView {
    UnsupportedVersion,
    UnresolvedSymbol(Seq<char>),
}

impl View for Error {
    type V = ErrorView;

    open spec fn view(&self) -> ErrorView {
        match self {
            Error::UnsupportedVersion => ErrorView::UnsupportedVersion,
            Error::UnresolvedSymbol(n) => ErrorView::UnresolvedSymbol(n@),
        }
    }
}

impl Error {
    /// Short description of the failure, for the embedding program.
    pub fn describe(&self) -> (r: String)
        ensures
            self is UnsupportedVersion ==> r@ == "unsupported host version"@,
            self matches Error::UnresolvedSymbol(n) ==> r@ == "unresolved symbol: "@ + n@,
    {
        match self {
            Error::UnsupportedVersion => "unsupported host version".to_owned(),
            Error::UnresolvedSymbol(n) => {
                let mut s = "unresolved symbol: ".to_owned();
                s.append(n.as_str());
                s
            },
        }
    }
}

/// One entry of a module's export table: an exported address, numbered by
/// ordinal.
#[derive(Clone, Copy, PartialEq, Eq, Structural, Debug)]
pub struct ExportEntry {
    pub ordinal: u16,
    pub address: u64,
}

/// A module's export table, read once at attach.
pub struct ExportTable {
    pub entries: Vec<ExportEntry>,
}

/// Some entry carries `ordinal`.
pub open spec fn has_ordinal(exports: Seq<ExportEntry>, ordinal: u16) -> bool {
    exists|i: int| 0 <= i < exports.len() && exports[i].ordinal == ordinal
}

/// The address assigned to `ordinal`; meaningful when `has_ordinal` holds and
/// ordinals are unique.
pub open spec fn ordinal_address(exports: Seq<ExportEntry>, ordinal: u16) -> u64 {
    exports[choose|i: int| 0 <= i < exports.len() && exports[i].ordinal == ordinal].address
}

impl ExportTable {
    /// Each ordinal is assigned at most one address.
    pub open spec fn wf(&self) -> bool {
        forall|i: int, j: int|
            0 <= i < j < self.entries@.len() ==> self.entries@[i].ordinal
                != self.entries@[j].ordinal
    }

    /// Look the numbered export up.
    pub fn lookup(&self, ordinal: u16) -> (r: Option<u64>)
        requires
            self.wf(),
        ensures
            match r {
                Some(a) => has_ordinal(self.entries@, ordinal) && a == ordinal_address(
                    self.entries@,
                    ordinal,
                ),
                None => !has_ordinal(self.entries@, ordinal),
            },
    {
        let mut i: usize = 0;
        while i < self.entries.len()
            invariant
                i <= self.entries@.len(),
                forall|k: int| 0 <= k < i ==> self.entries@[k].ordinal != ordinal,
                self.wf(),
            decreases self.entries@.len() - i,
        {
            if self.entries[i].ordinal == ordinal {
                proof {
                    let j = choose|j: int|
                        0 <= j < self.entries@.len() && self.entries@[j].ordinal == ordinal;
                    assert(j == i);
                }
                return Some(self.entries[i].address);
            }
            i = i + 1;
        }
        None
    }
}

/// A typed handle to one absolute location inside the attached host image.
pub struct Accessor {
    pub name: String,
    pub address: u64,
    pub ty: SemanticType,
}

/// Mathematical value of an `Accessor`.
#[verifier::ext_equal]
pub ghost struct AccessorView {
    pub name: Seq<char>,
    pub address: u64,
    pub ty: SemanticTypeView,
}

impl View for Accessor {
    type V = AccessorView;

    open spec fn view(&self) -> AccessorView {
        AccessorView { name: self.name@, address: self.address, ty: self.ty@ }
    }
}

/// The accessors of one functional subsystem of the host, built atomically
/// from one version table.
pub struct AccessorGroup {
    pub table_name: String,
    pub base: u64,
    pub accessors: Vec<Accessor>,
}

/// Mathematical value of an `AccessorGroup`.
#[verifier::ext_equal]
pub ghost struct AccessorGroupView {
    pub table_name: Seq<char>,
    pub base: u64,
    pub accessors: Seq<AccessorView>,
}

impl View for AccessorGroup {
    type V = AccessorGroupView;

    open spec fn view(&self) -> AccessorGroupView {
        AccessorGroupView {
            table_name: self.table_name@,
            base: self.base,
            accessors: self.accessors@.map_values(|a: Accessor| a@),
        }
    }
}

/// The first accessor of `accessors` named `name`, if any.
pub open spec fn accessor_for(accessors: Seq<AccessorView>, name: Seq<char>) -> Option<
    AccessorView,
>
    decreases accessors.len(),
{
    if accessors.len() == 0 {
        None
    } else if accessors[0].name == name {
        Some(accessors[0])
    } else {
        accessor_for(accessors.drop_first(), name)
    }
}

/// If the first `k` accessors are not named `name` and the `k`-th is, the
/// `k`-th is the one found for `name`.
proof fn lemma_accessor_for_first(accessors: Seq<AccessorView>, name: Seq<char>, k: int)
    requires
        0 <= k < accessors.len(),
        accessors[k].name == name,
        forall|j: int| 0 <= j < k ==> accessors[j].name != name,
    ensures
        accessor_for(accessors, name) == Some(accessors[k]),
    decreases k,
{
    if k > 0 {
        lemma_accessor_for_first(accessors.drop_first(), name, k - 1);
    }
}

/// If no accessor is named `name`, none is found for `name`.
proof fn lemma_accessor_for_none(accessors: Seq<AccessorView>, name: Seq<char>)
    requires
        forall|j: int| 0 <= j < accessors.len() ==> accessors[j].name != name,
    ensures
        accessor_for(accessors, name) is None,
    decreases accessors.len(),
{
    if accessors.len() > 0 {
        lemma_accessor_for_none(accessors.drop_first(), name);
    }
}

impl AccessorGroup {
    /// The group's accessor of the given field name, if the table defined
    /// one.
    pub fn accessor(&self, name: &str) -> (r: Option<&Accessor>)
        ensures
            match r {
                Some(a) => accessor_for(self@.accessors, name@) == Some(a@),
                None => accessor_for(self@.accessors, name@) is None,
            },
    {
        let wanted: String = name.to_owned();
        let mut i: usize = 0;
        while i < self.accessors.len()
            invariant
                i <= self.accessors@.len(),
                wanted@ == name@,
                forall|j: int| 0 <= j < i ==> (#[trigger] self@.accessors[j]).name != name@,
            decreases self.accessors@.len() - i,
        {
            proof {
                assert(self@.accessors[i as int] == self.accessors@[i as int]@);
            }
            if self.accessors[i].name == wanted {
                proof {
                    lemma_accessor_for_first(self@.accessors, name@, i as int);
                }
                return Some(&self.accessors[i]);
            }
            i = i + 1;
        }
        proof {
            lemma_accessor_for_none(self@.accessors, name@);
        }
        None
    }
}

/// Offset fields always resolve; an ordinal field resolves exactly when its
/// ordinal is present in the export table.
pub open spec fn field_resolvable(f: FieldSpecView, exports: Seq<ExportEntry>) -> bool {
    match f.location {
        AddressDescriptor::Offset(_) => true,
        AddressDescriptor::Ordinal(d) => has_ordinal(exports, d),
    }
}

/// Every field of the table resolves.
pub open spec fn table_resolvable(t: VersionTableView, exports: Seq<ExportEntry>) -> bool {
    forall|i: int| 0 <= i < t.fields.len() ==> field_resolvable(#[trigger] t.fields[i], exports)
}

/// The absolute address a field resolves to: base plus offset for offset
/// fields, the exported address for ordinal fields.
pub open spec fn field_address(f: FieldSpecView, base: u64, exports: Seq<ExportEntry>) -> int {
    match f.location {
        AddressDescriptor::Offset(o) => base + o,
        AddressDescriptor::Ordinal(d) => ordinal_address(exports, d) as int,
    }
}

/// No offset field's absolute address exceeds the address space.
pub open spec fn offsets_fit(t: VersionTableView, base: u64) -> bool {
    forall|i: int|
        0 <= i < t.fields.len() ==> match (#[trigger] t.fields[i]).location {
            AddressDescriptor::Offset(o) => base + o <= u64::MAX,
            AddressDescriptor::Ordinal(_) => true,
        }
}

/// The group `g` is exactly the resolution of table `t` against `base` and
/// `exports`: one accessor per field, in table order, carrying the field's
/// name, its semantic type, and its resolved absolute address.
pub open spec fn group_resolves(
    t: VersionTableView,
    base: u64,
    exports: Seq<ExportEntry>,
    g: AccessorGroupView,
) -> bool {
    &&& g.table_name == t.name
    &&& g.base == base
    &&& g.accessors.len() == t.fields.len()
    &&& forall|i: int|
        0 <= i < t.fields.len() ==> {
            &&& (#[trigger] g.accessors[i]).name == t.fields[i].name
            &&& g.accessors[i].ty == t.fields[i].ty
            &&& g.accessors[i].address == field_address(t.fields[i], base, exports)
        }
}

/// Index `i` is the first field of `t` that fails to resolve.
pub open spec fn first_unresolved(t: VersionTableView, exports: Seq<ExportEntry>, i: int) -> bool {
    &&& 0 <= i < t.fields.len()
    &&& !field_resolvable(t.fields[i], exports)
    &&& forall|j: int| 0 <= j < i ==> field_resolvable(#[trigger] t.fields[j], exports)
}

/// Everything accessor construction promises of its result: a group that is
/// exactly the table's resolution when every field resolves, and otherwise an
/// error naming the first field whose ordinal the export table lacks — and no
/// group at all.
pub open spec fn resolve_post(
    t: VersionTableView,
    base: u64,
    exports: Seq<ExportEntry>,
    r: Result<AccessorGroupView, ErrorView>,
) -> bool {
    match r {
        Ok(g) => table_resolvable(t, exports) && group_resolves(t, base, exports, g),
        Err(e) => !table_resolvable(t, exports) && exists|i: int|
            #[trigger] first_unresolved(t, exports, i) && e == ErrorView::UnresolvedSymbol(
                t.fields[i].name,
            ),
    }
}

/// The view of a resolution result.
pub open spec fn result_view(r: Result<AccessorGroup, Error>) -> Result<
    AccessorGroupView,
    ErrorView,
> {
    match r {
        Ok(g) => Ok(g@),
        Err(e) => Err(e@),
    }
}

/// Construct the accessor group for `table` against a module loaded at
/// `base` whose export table is `exports`. Pure: reads no host memory,
/// performs only address arithmetic and export lookups.
pub fn resolve_table(table: &VersionTable, base: u64, exports: &ExportTable) -> (r: Result<
    AccessorGroup,
    Error,
>)
    requires
        exports.wf(),
        offsets_fit(table@, base),
    ensures
        resolve_post(table@, base, exports.entries@, result_view(r)),
{
    let mut accessors: Vec<Accessor> = Vec::new();
    let mut i: usize = 0;
    while i < table.fields.len()
        invariant
            i <= table.fields@.len(),
            accessors@.len() == i,
            exports.wf(),
            offsets_fit(table@, base),
            forall|k: int| 0 <= k < i ==> field_resolvable(#[trigger] table@.fields[k], exports.entries@),
            forall|k: int|
                0 <= k < i ==> {
                    &&& (#[trigger] accessors@[k]@).name == table@.fields[k].name
                    &&& accessors@[k]@.ty == table@.fields[k].ty
                    &&& accessors@[k]@.address == field_address(
                        table@.fields[k],
                        base,
                        exports.entries@,
                    )
                },
        decreases table.fields@.len() - i,
    {
        proof {
            assert(table@.fields[i as int] == table.fields@[i as int]@);
        }
        let f = &table.fields[i];
        let address: u64 = match f.location {
            AddressDescriptor::Offset(o) => base + (o as u64),
            AddressDescriptor::Ordinal(d) => match exports.lookup(d) {
                Some(a) => a,
                None => {
                    proof {
                        assert(first_unresolved(table@, exports.entries@, i as int));
                    }
                    return Err(Error::UnresolvedSymbol(f.name.clone()));
                },
            },
        };
        let acc = Accessor { name: f.name.clone(), address, ty: f.ty.duplicate() };
        accessors.push(acc);
        i = i + 1;
    }
    let g = AccessorGroup { table_name: table.name.clone(), base, accessors };
    proof {
        assert forall|k: int| 0 <= k < table@.fields.len() implies {
            &&& (#[trigger] g@.accessors[k]).name == table@.fields[k].name
            &&& g@.accessors[k].ty == table@.fields[k].ty
            &&& g@.accessors[k].address == field_address(table@.fields[k], base, exports.entries@)
        } by {
            assert(g@.accessors[k] == g.accessors@[k]@);
        }
    }
    Ok(g)
}

/// Law: against a fully populated export table — one where every ordinal
/// field of the table has its ordinal present — construction succeeds, and
/// every offset field's accessor sits at base plus offset exactly, while
/// every ordinal field's accessor sits at the address the export table
/// assigns to that ordinal.
pub proof fn lemma_resolve_fully_populated(
    t: VersionTableView,
    base: u64,
    exports: Seq<ExportEntry>,
    r: Result<AccessorGroupView, ErrorView>,
)
    requires
        resolve_post(t, base, exports, r),
        table_resolvable(t, exports),
    ensures
        r is Ok,
        forall|i: int|
            0 <= i < t.fields.len() ==> match (#[trigger] t.fields[i]).location {
                AddressDescriptor::Offset(o) => r->Ok_0.accessors[i].address == base + o,
                AddressDescriptor::Ordinal(d) => r->Ok_0.accessors[i].address == ordinal_address(
                    exports,
                    d,
                ),
            },
{
}

/// Law: when exactly one field — an ordinal field whose ordinal the export
/// table lacks — fails to resolve, construction yields `UnresolvedSymbol`
/// naming exactly that field, and no group, not even a partial one.
pub proof fn lemma_missing_ordinal_names_field(
    t: VersionTableView,
    base: u64,
    exports: Seq<ExportEntry>,
    r: Result<AccessorGroupView, ErrorView>,
    k: int,
)
    requires
        resolve_post(t, base, exports, r),
        0 <= k < t.fields.len(),
        !field_resolvable(t.fields[k], exports),
        forall|j: int|
            0 <= j < t.fields.len() && j != k ==> field_resolvable(#[trigger] t.fields[j], exports),
    ensures
        r == Result::<AccessorGroupView, ErrorView>::Err(
            ErrorView::UnresolvedSymbol(t.fields[k].name),
        ),
{
    assert(!table_resolvable(t, exports));
    let i = choose|i: int|
        #[trigger] first_unresolved(t, exports, i) && r->Err_0 == ErrorView::UnresolvedSymbol(
            t.fields[i].name,
        );
    assert(i == k);
}

/// Law: accessor group construction is deterministic — two results obtained
/// from the same table, base address and export table are equal, success or
/// failure alike.
pub proof fn lemma_resolution_deterministic(
    t: VersionTableView,
    base: u64,
    exports: Seq<ExportEntry>,
    r1: Result<AccessorGroupView, ErrorView>,
    r2: Result<AccessorGroupView, ErrorView>,
)
    requires
        resolve_post(t, base, exports, r1),
        resolve_post(t, base, exports, r2),
    ensures
        r1 == r2,
{
    match (r1, r2) {
        (Ok(g1), Ok(g2)) => {
            assert forall|i: int| 0 <= i < t.fields.len() implies g1.accessors[i]
                == g2.accessors[i] by {
                assert(g1.accessors[i] =~= g2.accessors[i]);
            }
            assert(g1.accessors =~= g2.accessors);
            assert(g1 =~= g2);
        },
        (Err(e1), Err(e2)) => {
            let i1 = choose|i: int|
                #[trigger] first_unresolved(t, exports, i) && e1 == ErrorView::UnresolvedSymbol(
                    t.fields[i].name,
                );
            let i2 = choose|i: int|
                #[trigger] first_unresolved(t, exports, i) && e2 == ErrorView::UnresolvedSymbol(
                    t.fields[i].name,
                );
            assert(i1 == i2);
        },
        (Ok(_), Err(_)) => {},
        (Err(_), Ok(_)) => {},
    }
}

/// Law: a table derived from base table `a` with an override list resolves
/// every overridden field at the override's location and every other field
/// exactly where `a` defines it, with names and order inherited from `a`.
pub proof fn lemma_derived_table_resolution(
    a: VersionTableView,
    overrides: Seq<FieldSpecView>,
    b: VersionTableView,
    base: u64,
    exports: Seq<ExportEntry>,
    g: AccessorGroupView,
)
    requires
        b.fields.len() == a.fields.len(),
        forall|i: int| 0 <= i < a.fields.len() ==> b.fields[i] == merged_field(
            #[trigger] a.fields[i],
            overrides,
        ),
        group_resolves(b, base, exports, g),
    ensures
        forall|i: int|
            0 <= i < a.fields.len() ==> match override_for(
                overrides,
                (#[trigger] a.fields[i]).name,
            ) {
                Some(o) => g.accessors[i].name == o.name && g.accessors[i].ty == o.ty
                    && g.accessors[i].address == field_address(o, base, exports),
                None => g.accessors[i].name == a.fields[i].name && g.accessors[i].ty
                    == a.fields[i].ty && g.accessors[i].address == field_address(
                    a.fields[i],
                    base,
                    exports,
                ),
            },
{
}

} // verus!

//! Version tables: one immutable, named, ordered collection of field
//! specifications per supported host build, with composition of a base table
//! plus an override list instead of wholesale duplication.

use vstd::prelude::*;
use crate::descriptor::{FieldSpec, FieldSpecView, field_views};

verus! {

/// A named, ordered collection of field specifications describing one host
/// build. Immutable once constructed.
pub struct VersionTable {
    pub name: String,
    pub fields: Vec<FieldSpec>,
}

/// Mathematical value of a `VersionTable`.
#[verifier::ext_equal]
pub ghost struct VersionTableView {
    pub name: Seq<char>,
    pub fields: Seq<FieldSpecView>,
}

impl View for VersionTable {
    type V = VersionTableView;

    open spec fn view(&self) -> VersionTableView {
        VersionTableView { name: self.name@, fields: field_views(self.fields@) }
    }
}

impl VersionTableView {
    /// Field names are pairwise distinct: the table is a set of named fields.
    pub open spec fn wf(self) -> bool {
        forall|i: int, j: int|
            0 <= i < j < self.fields.len() ==> self.fields[i].name != self.fields[j].name
    }
}

impl VersionTable {
    /// Copy of a table; the copy has the same view.
    pub fn duplicate(&self) -> (r: VersionTable)
        ensures
            r@ == self@,
    {
        let mut fields: Vec<FieldSpec> = Vec::new();
        let mut i: usize = 0;
        while i < self.fields.len()
            invariant
                i <= self.fields@.len(),
                fields@.len() == i,
                forall|k: int| 0 <= k < i ==> fields@[k]@ == self.fields@[k]@,
            decreases self.fields@.len() - i,
        {
            fields.push(self.fields[i].duplicate());
            i = i + 1;
        }
        let r = VersionTable { name: self.name.clone(), fields };
        proof {
            assert(field_views(r.fields@) =~= field_views(self.fields@));
            assert(r@ =~= self@);
        }
        r
    }
}

/// The first entry of `overrides` whose name is `name`, if any.
pub open spec fn override_for(overrides: Seq<FieldSpecView>, name: Seq<char>) -> Option<
    FieldSpecView,
>
    decreases overrides.len(),
{
    if overrides.len() == 0 {
        None
    } else if overrides[0].name == name {
        Some(overrides[0])
    } else {
        override_for(overrides.drop_first(), name)
    }
}

/// What each field of a table derived from `base` with `overrides` must be:
/// the override of the same name where one exists, the base field otherwise.
pub open spec fn merged_field(
    base_field: FieldSpecView,
    overrides: Seq<FieldSpecView>,
) -> FieldSpecView {
    match override_for(overrides, base_field.name) {
        Some(o) => o,
        None => base_field,
    }
}

/// If the first `k` overrides do not carry `name` and the `k`-th does,
/// then the `k`-th is the override selected for `name`.
proof fn lemma_override_for_first(overrides: Seq<FieldSpecView>, name: Seq<char>, k: int)
    requires
        0 <= k < overrides.len(),
        overrides[k].name == name,
        forall|j: int| 0 <= j < k ==> overrides[j].name != name,
    ensures
        override_for(overrides, name) == Some(overrides[k]),
    decreases k,
{
    if k == 0 {
    } else {
        lemma_override_for_first(overrides.drop_first(), name, k - 1);
    }
}

/// The override selected for `name` carries `name` itself.
proof fn lemma_override_for_name(overrides: Seq<FieldSpecView>, name: Seq<char>)
    ensures
        override_for(overrides, name) matches Some(o) ==> o.name == name,
    decreases overrides.len(),
{
    if overrides.len() > 0 && overrides[0].name != name {
        lemma_override_for_name(overrides.drop_first(), name);
    }
}

/// If no override carries `name`, none is selected for `name`.
proof fn lemma_override_for_none(overrides: Seq<FieldSpecView>, name: Seq<char>)
    requires
        forall|j: int| 0 <= j < overrides.len() ==> overrides[j].name != name,
    ensures
        override_for(overrides, name) is None,
    decreases overrides.len(),
{
    if overrides.len() == 0 {
    } else {
        lemma_override_for_none(overrides.drop_first(), name);
    }
}

/// Index of the first override named `name`, if any.
fn find_override(overrides: &Vec<FieldSpec>, name: &String) -> (r: Option<usize>)
    ensures
        match r {
            Some(j) => {
                &&& j < overrides@.len()
                &&& field_views(overrides@)[j as int].name == name@
                &&& forall|m: int| 0 <= m < j ==> field_views(overrides@)[m].name != name@
            },
            None => forall|m: int|
                0 <= m < overrides@.len() ==> field_views(overrides@)[m].name != name@,
        },
{
    let mut j: usize = 0;
    while j < overrides.len()
        invariant
            j <= overrides.len(),
            forall|m: int| 0 <= m < j ==> field_views(overrides@)[m].name != name@,
        decreases overrides.len() - j,
    {
        if overrides[j].name == *name {
            return Some(j);
        }
        j = j + 1;
    }
    None
}

/// Everything table composition promises of its result: the derived table
/// keeps the base table's field count and order, every field is the override
/// of the same name where one exists and the base field otherwise, names are
/// inherited from the base table, and a well-formed base yields a
/// well-formed derived table.
pub open spec fn merge_post(
    base: VersionTableView,
    overrides: Seq<FieldSpecView>,
    name: Seq<char>,
    r: VersionTableView,
) -> bool {
    &&& r.name == name
    &&& r.fields.len() == base.fields.len()
    &&& forall|i: int|
        0 <= i < base.fields.len() ==> r.fields[i] == merged_field(base.fields[i], overrides)
    &&& forall|i: int|
        0 <= i < base.fields.len() ==> (#[trigger] r.fields[i]).name == base.fields[i].name
    &&& (base.wf() ==> r.wf())
}

/// Law: the effective merged table is a pure function of the base table and
/// the override list — computing it any number of times yields the same
/// table.
pub proof fn lemma_merge_deterministic(
    base: VersionTableView,
    overrides: Seq<FieldSpecView>,
    name: Seq<char>,
    r1: VersionTableView,
    r2: VersionTableView,
)
    requires
        merge_post(base, overrides, name, r1),
        merge_post(base, overrides, name, r2),
    ensures
        r1 == r2,
{
    assert(r1.fields =~= r2.fields);
    assert(r1 =~= r2);
}

/// Build the table for a new host build from a base table and a list of
/// replacement fields. Every field of the result is the override of the same
/// name where the list carries one, and the base table's field otherwise;
/// order and field count of the base table are kept.
pub fn derive_table(base: &VersionTable, name: &str, overrides: &Vec<FieldSpec>) -> (r:
    VersionTable)
    ensures
        merge_post(base@, field_views(overrides@), name@, r@),
{
    let mut fields: Vec<FieldSpec> = Vec::new();
    let mut i: usize = 0;
    while i < base.fields.len()
        invariant
            i <= base.fields.len(),
            fields@.len() == i,
            forall|k: int|
                0 <= k < i ==> fields@[k]@ == merged_field(
                    base@.fields[k],
                    field_views(overrides@),
                ),
        decreases base.fields.len() - i,
    {
        proof {
            assert(base@.fields[i as int] == base.fields@[i as int]@);
        }
        let chosen = find_override(overrides, &base.fields[i].name);
        let next: FieldSpec = match chosen {
            Some(j) => {
                proof {
                    assert(field_views(overrides@)[j as int] == overrides@[j as int]@);
                    lemma_override_for_first(
                        field_views(overrides@),
                        base@.fields[i as int].name,
                        j as int,
                    );
                }
                overrides[j].duplicate()
            },
            None => {
                proof {
                    lemma_override_for_none(field_views(overrides@), base@.fields[i as int].name);
                }
                base.fields[i].duplicate()
            },
        };
        assert(next@ == merged_field(base@.fields[i as int], field_views(overrides@)));
        fields.push(next);
        i = i + 1;
    }
    let r = VersionTable { name: name.to_owned(), fields };
    proof {
        assert forall|k: int| 0 <= k < base@.fields.len() implies r@.fields[k] == merged_field(
            base@.fields[k],
            field_views(overrides@),
        ) by {
            assert(r@.fields[k] == r.fields@[k]@);
        }
        assert forall|k: int| 0 <= k < base@.fields.len() implies (#[trigger] r@.fields[k]).name
            == base@.fields[k].name by {
            lemma_override_for_name(field_views(overrides@), base@.fields[k].name);
        }
    }
    r
}

} // verus!

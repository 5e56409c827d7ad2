//! Version resolution for one attach session: probe the host image's
//! fingerprint against the registry of known builds, bind the module's
//! runtime load base, then construct every accessor group atomically. A
//! failed probe or a failed ordinal lookup is a permanent, terminal failure:
//! no accessor is ever exposed from a partially resolved session.

use vstd::prelude::*;
use crate::resolve::{
    AccessorGroup, AccessorGroupView, Error, ErrorView, ExportEntry, ExportTable,
    first_unresolved, group_resolves, offsets_fit, resolve_table, table_resolvable,
};
use crate::table::{VersionTable, VersionTableView};

verus! {

/// Version-identifying signature of a host image: the size of the image and
/// a checksum of its recognizable regions.
#[derive(Clone, Copy, PartialEq, Eq, Structural, Debug)]
pub struct Fingerprint {
    pub image_size: u32,
    pub checksum: u32,
}

/// Wrapping byte sum of an image region: the checksum half of a
/// fingerprint.
pub open spec fn checksum_of(bytes: Seq<u8>) -> u32
    decreases bytes.len(),
{
    if bytes.len() == 0 {
        0
    } else {
        vstd::wrapping::u32_specs::wrapping_add(checksum_of(bytes.drop_last()), bytes.last() as u32)
    }
}

/// Fingerprint the attached host image: its size and the wrapping byte sum
/// of its recognizable region.
pub fn fingerprint_of(image: &Vec<u8>) -> (fp: Fingerprint)
    requires
        image@.len() <= u32::MAX,
    ensures
        fp.image_size == image@.len(),
        fp.checksum == checksum_of(image@),
{
    let mut sum: u32 = 0;
    let mut i: usize = 0;
    while i < image.len()
        invariant
            i <= image@.len(),
            sum == checksum_of(image@.take(i as int)),
        decreases image@.len() - i,
    {
        sum = sum.wrapping_add(image[i] as u32);
        proof {
            assert(image@.take(i + 1).drop_last() =~= image@.take(i as int));
            assert(image@.take(i + 1).last() == image@[i as int]);
        }
        i = i + 1;
    }
    proof {
        assert(image@.take(image@.len() as int) =~= image@);
    }
    Fingerprint { image_size: image.len() as u32, checksum: sum }
}

/// One registered host build: its fingerprint and one version table per
/// functional subsystem.
pub struct VersionEntry {
    pub fingerprint: Fingerprint,
    pub tables: Vec<VersionTable>,
}

/// The views of a list of version tables, in order.
pub open spec fn table_views(s: Seq<VersionTable>) -> Seq<VersionTableView> {
    s.map_values(|t: VersionTable| t@)
}

/// The views of a list of accessor groups, in order.
pub open spec fn group_views(s: Seq<AccessorGroup>) -> Seq<AccessorGroupView> {
    s.map_values(|g: AccessorGroup| g@)
}

/// Some registry entry carries `fp`.
pub open spec fn registered(registry: Seq<VersionEntry>, fp: Fingerprint) -> bool {
    exists|i: int| 0 <= i < registry.len() && registry[i].fingerprint == fp
}

/// Everything fingerprint probing promises: the first entry whose
/// fingerprint matches exactly, or `UnsupportedVersion` when none does.
pub open spec fn probe_post(
    registry: Seq<VersionEntry>,
    fp: Fingerprint,
    r: Result<usize, ErrorView>,
) -> bool {
    match r {
        Ok(i) => {
            &&& 0 <= i < registry.len()
            &&& registry[i as int].fingerprint == fp
            &&& forall|j: int| 0 <= j < i ==> registry[j].fingerprint != fp
        },
        Err(e) => !registered(registry, fp) && e == ErrorView::UnsupportedVersion,
    }
}

/// Find the registered build whose fingerprint matches the attached image's
/// exactly. A fingerprint that matches no entry is `UnsupportedVersion`;
/// there is no nearest-match fallback.
pub fn probe(registry: &Vec<VersionEntry>, fp: Fingerprint) -> (r: Result<usize, Error>)
    ensures
        probe_post(
            registry@,
            fp,
            match r {
                Ok(i) => Ok(i),
                Err(e) => Err(e@),
            },
        ),
{
    let mut i: usize = 0;
    while i < registry.len()
        invariant
            i <= registry@.len(),
            forall|j: int| 0 <= j < i ==> registry@[j].fingerprint != fp,
        decreases registry@.len() - i,
    {
        if registry[i].fingerprint == fp {
            return Ok(i);
        }
        i = i + 1;
    }
    Err(Error::UnsupportedVersion)
}

/// Law: probing an image whose fingerprint is not registered yields
/// `UnsupportedVersion`; it never falls back to a nearest known table.
pub proof fn lemma_probe_never_falls_back(
    registry: Seq<VersionEntry>,
    fp: Fingerprint,
    r: Result<usize, ErrorView>,
)
    requires
        probe_post(registry, fp, r),
        !registered(registry, fp),
    ensures
        r == Result::<usize, ErrorView>::Err(ErrorView::UnsupportedVersion),
{
}

/// Copy of a list of version tables.
fn duplicate_tables(tables: &Vec<VersionTable>) -> (r: Vec<VersionTable>)
    ensures
        table_views(r@) == table_views(tables@),
{
    let mut r: Vec<VersionTable> = Vec::new();
    let mut i: usize = 0;
    while i < tables.len()
        invariant
            i <= tables@.len(),
            r@.len() == i,
            forall|k: int| 0 <= k < i ==> r@[k]@ == tables@[k]@,
        decreases tables@.len() - i,
    {
        r.push(tables[i].duplicate());
        i = i + 1;
    }
    proof {
        assert(table_views(r@) =~= table_views(tables@));
    }
    r
}

/// State of one attach session. Transitions run once, in order, at attach;
/// `Ready` and `Failed` are terminal.
pub enum Session {
    /// No probe has run yet.
    Undetected,
    /// The image's fingerprint matched a registered build; its tables are
    /// selected.
    Detected { tables: Vec<VersionTable> },
    /// The module's runtime load base is known.
    Bound { tables: Vec<VersionTable>, base: u64 },
    /// Every accessor group resolved; they are immutable from here on.
    Ready { groups: Vec<AccessorGroup> },
    /// Permanent failure: unsupported build, or an unresolvable symbol. No
    /// accessor exists.
    Failed { error: Error },
}

/// Mathematical value of a `Session`.
#[verifier::ext_equal]
pub ghost enum SessionView {
    Undetected,
    Detected { tables: Seq<VersionTableView> },
    Bound { tables: Seq<VersionTableView>, base: u64 },
    Ready { groups: Seq<AccessorGroupView> },
    Failed { error: ErrorView },
}

impl View for Session {
    type V = SessionView;

    open spec fn view(&self) -> SessionView {
        match self {
            Session::Undetected => SessionView::Undetected,
            Session::Detected { tables } => SessionView::Detected {
                tables: table_views(tables@),
            },
            Session::Bound { tables, base } => SessionView::Bound {
                tables: table_views(tables@),
                base: *base,
            },
            Session::Ready { groups } => SessionView::Ready { groups: group_views(groups@) },
            Session::Failed { error } => SessionView::Failed { error: error@ },
        }
    }
}

/// Every offset field of every table stays inside the address space when
/// rebased onto `base`.
pub open spec fn tables_offsets_fit(tables: Seq<VersionTableView>, base: u64) -> bool {
    forall|k: int| 0 <= k < tables.len() ==> offsets_fit(#[trigger] tables[k], base)
}

/// Every field of every table resolves against `exports`.
pub open spec fn all_tables_resolvable(
    tables: Seq<VersionTableView>,
    exports: Seq<ExportEntry>,
) -> bool {
    forall|k: int| 0 <= k < tables.len() ==> table_resolvable(#[trigger] tables[k], exports)
}

/// Index `k` is the first table with a field that fails to resolve.
pub open spec fn first_unresolvable_table(
    tables: Seq<VersionTableView>,
    exports: Seq<ExportEntry>,
    k: int,
) -> bool {
    &&& 0 <= k < tables.len()
    &&& !table_resolvable(tables[k], exports)
    &&& forall|m: int| 0 <= m < k ==> table_resolvable(#[trigger] tables[m], exports)
}

/// The error a single unresolvable table produces: `UnresolvedSymbol` naming
/// the table's first field whose ordinal the export table lacks.
pub open spec fn table_error(t: VersionTableView, exports: Seq<ExportEntry>, e: ErrorView) -> bool {
    exists|i: int|
        #[trigger] first_unresolved(t, exports, i) && e == ErrorView::UnresolvedSymbol(
            t.fields[i].name,
        )
}

/// Everything group construction promises: when every table resolves, one
/// group per table, each exactly its table's resolution; otherwise a failed
/// session whose error names the first unresolvable field of the first
/// unresolvable table, and no group at all.
pub open spec fn construct_post(
    tables: Seq<VersionTableView>,
    base: u64,
    exports: Seq<ExportEntry>,
    post: SessionView,
) -> bool {
    if all_tables_resolvable(tables, exports) {
        &&& post matches SessionView::Ready { groups }
        &&& post->Ready_groups.len() == tables.len()
        &&& forall|k: int|
            0 <= k < tables.len() ==> group_resolves(
                tables[k],
                base,
                exports,
                #[trigger] post->Ready_groups[k],
            )
    } else {
        &&& post matches SessionView::Failed { error }
        &&& exists|k: int|
            #[trigger] first_unresolvable_table(tables, exports, k) && table_error(
                tables[k],
                exports,
                post->Failed_error,
            )
    }
}

/// Law: group construction is deterministic for the whole session — two
/// constructions from the same tables, base address and export table end in
/// the same state, with the same groups or the same error.
pub proof fn lemma_construct_deterministic(
    tables: Seq<VersionTableView>,
    base: u64,
    exports: Seq<ExportEntry>,
    post1: SessionView,
    post2: SessionView,
)
    requires
        construct_post(tables, base, exports, post1),
        construct_post(tables, base, exports, post2),
    ensures
        post1 == post2,
{
    if all_tables_resolvable(tables, exports) {
        let g1 = post1->Ready_groups;
        let g2 = post2->Ready_groups;
        assert forall|k: int| 0 <= k < tables.len() implies g1[k] == g2[k] by {
            crate::resolve::lemma_resolution_deterministic(
                tables[k],
                base,
                exports,
                Ok(g1[k]),
                Ok(g2[k]),
            );
        }
        assert(g1 =~= g2);
        assert(post1 =~= post2);
    } else {
        let e1 = post1->Failed_error;
        let e2 = post2->Failed_error;
        let k1 = choose|k: int|
            #[trigger] first_unresolvable_table(tables, exports, k) && table_error(
                tables[k],
                exports,
                e1,
            );
        let k2 = choose|k: int|
            #[trigger] first_unresolvable_table(tables, exports, k) && table_error(
                tables[k],
                exports,
                e2,
            );
        assert(k1 == k2);
        let i1 = choose|i: int|
            #[trigger] first_unresolved(tables[k1], exports, i) && e1 == ErrorView::UnresolvedSymbol(
                tables[k1].fields[i].name,
            );
        let i2 = choose|i: int|
            #[trigger] first_unresolved(tables[k1], exports, i) && e2 == ErrorView::UnresolvedSymbol(
                tables[k1].fields[i].name,
            );
        assert(i1 == i2);
        assert(post1 =~= post2);
    }
}

impl Session {
    /// A fresh session: nothing probed, nothing resolved.
    pub fn new() -> (r: Session)
        ensures
            r@ == SessionView::Undetected,
    {
        Session::Undetected
    }

    /// Probe the attached image against the registry. A match selects that
    /// build's tables; no match fails the session permanently.
    pub fn detect(&mut self, registry: &Vec<VersionEntry>, fp: Fingerprint)
        requires
            old(self)@ == SessionView::Undetected,
        ensures
            registered(registry@, fp) ==> exists|i: int|
                {
                    &&& 0 <= i < registry@.len()
                    &&& #[trigger] registry@[i].fingerprint == fp
                    &&& (forall|j: int| 0 <= j < i ==> registry@[j].fingerprint != fp)
                    &&& final(self)@ == (SessionView::Detected {
                        tables: table_views(registry@[i].tables@),
                    })
                },
            !registered(registry@, fp) ==> final(self)@ == (SessionView::Failed {
                error: ErrorView::UnsupportedVersion,
            }),
    {
        match probe(registry, fp) {
            Ok(i) => {
                *self = Session::Detected { tables: duplicate_tables(&registry[i].tables) };
            },
            Err(e) => {
                *self = Session::Failed { error: e };
            },
        }
    }

    /// Record the module's runtime load base, read once from the process
    /// loader at attach.
    pub fn bind(&mut self, base: u64)
        requires
            old(self)@ matches SessionView::Detected { tables },
        ensures
            final(self)@ == (SessionView::Bound { tables: old(self)@->Detected_tables, base }),
    {
        let mut taken = Session::Undetected;
        core::mem::swap(self, &mut taken);
        match taken {
            Session::Detected { tables } => {
                *self = Session::Bound { tables, base };
            },
            _ => {
                *self = vstd::pervasive::unreached();
            },
        }
    }

    /// Resolve every field of every selected table. All or nothing: one
    /// failed ordinal lookup fails the session with the field's name, and no
    /// group — not even a partial one — is ever exposed.
    pub fn construct(&mut self, exports: &ExportTable)
        requires
            old(self)@ matches SessionView::Bound { tables, base },
            exports.wf(),
            tables_offsets_fit(old(self)@->Bound_tables, old(self)@->Bound_base),
        ensures
            construct_post(
                old(self)@->Bound_tables,
                old(self)@->Bound_base,
                exports.entries@,
                final(self)@,
            ),
    {
        let mut taken = Session::Undetected;
        core::mem::swap(self, &mut taken);
        match taken {
            Session::Bound { tables, base } => {
                let ghost tvs = table_views(tables@);
                let mut groups: Vec<AccessorGroup> = Vec::new();
                let mut k: usize = 0;
                while k < tables.len()
                    invariant
                        k <= tables@.len(),
                        groups@.len() == k,
                        exports.wf(),
                        tvs == table_views(tables@),
                        tvs == old(self)@->Bound_tables,
                        base == old(self)@->Bound_base,
                        tables_offsets_fit(tvs, base),
                        forall|m: int|
                            0 <= m < k ==> table_resolvable(#[trigger] tvs[m], exports.entries@),
                        forall|m: int|
                            0 <= m < k ==> group_resolves(
                                tvs[m],
                                base,
                                exports.entries@,
                                #[trigger] groups@[m]@,
                            ),
                    decreases tables@.len() - k,
                {
                    proof {
                        assert(tvs[k as int] == tables@[k as int]@);
                    }
                    match resolve_table(&tables[k], base, exports) {
                        Ok(g) => {
                            groups.push(g);
                        },
                        Err(e) => {
                            proof {
                                assert(first_unresolvable_table(tvs, exports.entries@, k as int));
                                assert(table_error(tvs[k as int], exports.entries@, e@));
                                assert(!all_tables_resolvable(tvs, exports.entries@));
                            }
                            *self = Session::Failed { error: e };
                            return ;
                        },
                    }
                    k = k + 1;
                }
                let r = Session::Ready { groups };
                proof {
                    assert forall|m: int| 0 <= m < tvs.len() implies group_resolves(
                        tvs[m],
                        base,
                        exports.entries@,
                        #[trigger] r@->Ready_groups[m],
                    ) by {
                        assert(r@->Ready_groups[m] == groups@[m]@);
                    }
                }
                *self = r;
            },
            _ => {
                *self = vstd::pervasive::unreached();
            },
        }
    }

    /// The constructed accessor groups, available exactly in the `Ready`
    /// state.
    pub fn groups(&self) -> (r: Option<&Vec<AccessorGroup>>)
        ensures
            match r {
                Some(gs) => self@ == (SessionView::Ready { groups: group_views(gs@) }),
                None => !(self@ is Ready),
            },
    {
        match self {
            Session::Ready { groups } => Some(groups),
            _ => None,
        }
    }
}

} // verus!

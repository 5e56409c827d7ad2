//! The registry of supported host builds: each build's fingerprint and its
//! subsystem tables. Adding support for a new build means adding one entry
//! here; no consumer code changes.

use vstd::prelude::*;
use crate::session::{Fingerprint, VersionEntry, table_views};
use crate::table::{VersionTable, VersionTableView};
use crate::{v111b, v113d};

verus! {

/// Fingerprint of the v1.11b host image.
pub open spec fn v111b_fingerprint() -> Fingerprint {
    Fingerprint { image_size: 0x2e8000, checksum: 0x57ca111b }
}

/// Fingerprint of the v1.13d host image.
pub open spec fn v113d_fingerprint() -> Fingerprint {
    Fingerprint { image_size: 0x2fa000, checksum: 0x57ca113d }
}

/// The subsystem tables of the v1.11b build, in registry order.
pub open spec fn v111b_table_views() -> Seq<VersionTableView> {
    seq![
        VersionTableView { name: "v111b_client"@, fields: v111b::client_fields() },
        VersionTableView { name: "v111b_gfx"@, fields: v111b::gfx_fields() },
        VersionTableView { name: "v111b_game"@, fields: v111b::game_fields() },
        VersionTableView { name: "v111b_win"@, fields: v111b::win_fields() },
    ]
}

/// The subsystem tables of the v1.13d build, in registry order.
pub open spec fn v113d_table_views() -> Seq<VersionTableView> {
    seq![
        VersionTableView { name: "v113d_client"@, fields: v113d::client_fields() },
        VersionTableView { name: "v113d_gfx"@, fields: v113d::gfx_fields() },
        VersionTableView { name: "v113d_game"@, fields: v113d::game_fields() },
        VersionTableView { name: "v113d_win"@, fields: v113d::win_fields() },
    ]
}

/// Build the registry of every supported host build: one entry per build,
/// fingerprints pairwise distinct.
pub fn registry() -> (r: Vec<VersionEntry>)
    ensures
        r@.len() == 2,
        r@[0].fingerprint == v111b_fingerprint(),
        table_views(r@[0].tables@) == v111b_table_views(),
        r@[1].fingerprint == v113d_fingerprint(),
        table_views(r@[1].tables@) == v113d_table_views(),
        r@[0].fingerprint != r@[1].fingerprint,
{
    let mut t111b: Vec<VersionTable> = Vec::new();
    t111b.push(v111b::client_table());
    t111b.push(v111b::gfx_table());
    t111b.push(v111b::game_table());
    t111b.push(v111b::win_table());
    proof {
        assert(table_views(t111b@) =~= v111b_table_views());
    }
    let mut t113d: Vec<VersionTable> = Vec::new();
    t113d.push(v113d::client_table());
    t113d.push(v113d::gfx_table());
    t113d.push(v113d::game_table());
    t113d.push(v113d::win_table());
    proof {
        assert(table_views(t113d@) =~= v113d_table_views());
    }
    let mut r: Vec<VersionEntry> = Vec::new();
    r.push(
        VersionEntry {
            fingerprint: Fingerprint { image_size: 0x2e8000, checksum: 0x57ca111b },
            tables: t111b,
        },
    );
    r.push(
        VersionEntry {
            fingerprint: Fingerprint { image_size: 0x2fa000, checksum: 0x57ca113d },
            tables: t113d,
        },
    );
    r
}

} // verus!

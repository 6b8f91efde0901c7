//! What the ledger looks like in durable storage, in the current layout
//! and in the one before it.

use vstd::prelude::*;
use crate::holders::{index_of_entries, HolderEntry};
use crate::identity::{identity_views, Identity};
use crate::ledger::InsuranceView;
use crate::mirror::mirror_line_views;
use crate::policy::{MirrorPolicy, Policy, PolicyView};
use crate::table::upsert_all;

verus! {

/// The layouts that stored state may have.
#[derive(Clone, Copy, Debug, PartialEq, Eq, Structural)]
pub enum SchemaVersion {
    /// The current layout: eight components, the mirror last.
    WithMirror,
    /// The layout before it: the same without the mirror.
    WithoutMirror,
}

/// The layouts in the order in which a restore tries them: newest first.
pub fn restore_order() -> (r: Vec<SchemaVersion>)
    ensures
        r@ == seq![SchemaVersion::WithMirror, SchemaVersion::WithoutMirror],
{
    let mut order: Vec<SchemaVersion> = Vec::new();
    order.push(SchemaVersion::WithMirror);
    order.push(SchemaVersion::WithoutMirror);
    order
}

/// The views of stored policy lines.
pub open spec fn policy_line_views(lines: Seq<(u64, Policy)>) -> Seq<(u64, PolicyView)> {
    lines.map_values(|l: (u64, Policy)| (l.0, l.1@))
}

/// The ledger in the current layout.
#[derive(Debug)]
pub struct StableState {
    pub policies: Vec<(u64, Policy)>,
    pub policy_id_counter: u64,
    pub policyholder_map: Vec<HolderEntry>,
    pub flood_level: i64,
    pub flood_threshold: i64,
    pub admin: Identity,
    pub oracle_updaters: Vec<Identity>,
    pub mirror_policies: Vec<(u64, MirrorPolicy)>,
}

/// The ledger in the layout that had no mirror yet.
#[derive(Debug)]
pub struct LegacyState {
    pub policies: Vec<(u64, Policy)>,
    pub policy_id_counter: u64,
    pub policyholder_map: Vec<HolderEntry>,
    pub flood_level: i64,
    pub flood_threshold: i64,
    pub admin: Identity,
    pub oracle_updaters: Vec<Identity>,
}

/// Stored state, in whichever layout it was found.
#[derive(Debug)]
pub enum StoredState {
    Current(StableState),
    Legacy(LegacyState),
}

impl StableState {
    /// The ledger that this stored state restores to.
    pub open spec fn restored(self) -> InsuranceView {
        InsuranceView {
            policies: upsert_all(Map::empty(), policy_line_views(self.policies@)),
            policy_id_counter: self.policy_id_counter,
            policyholder_map: index_of_entries(self.policyholder_map@),
            flood_level: self.flood_level,
            flood_threshold: self.flood_threshold,
            admin: self.admin@,
            oracle_updaters: identity_views(self.oracle_updaters@),
            mirror_policies: upsert_all(Map::empty(), mirror_line_views(self.mirror_policies@)),
        }
    }

    /// The same state as the earlier layout held it: without the mirror.
    pub open spec fn legacy_part(self) -> LegacyState {
        LegacyState {
            policies: self.policies,
            policy_id_counter: self.policy_id_counter,
            policyholder_map: self.policyholder_map,
            flood_level: self.flood_level,
            flood_threshold: self.flood_threshold,
            admin: self.admin,
            oracle_updaters: self.oracle_updaters,
        }
    }

    /// Drops the mirror, as the earlier layout did.
    pub fn without_mirror(self) -> (r: LegacyState)
        ensures
            r == self.legacy_part(),
    {
        LegacyState {
            policies: self.policies,
            policy_id_counter: self.policy_id_counter,
            policyholder_map: self.policyholder_map,
            flood_level: self.flood_level,
            flood_threshold: self.flood_threshold,
            admin: self.admin,
            oracle_updaters: self.oracle_updaters,
        }
    }
}

impl LegacyState {
    /// The ledger that this stored state restores to: the mirror, which
    /// the layout lacks, is empty.
    pub open spec fn restored(self) -> InsuranceView {
        InsuranceView {
            policies: upsert_all(Map::empty(), policy_line_views(self.policies@)),
            policy_id_counter: self.policy_id_counter,
            policyholder_map: index_of_entries(self.policyholder_map@),
            flood_level: self.flood_level,
            flood_threshold: self.flood_threshold,
            admin: self.admin@,
            oracle_updaters: identity_views(self.oracle_updaters@),
            mirror_policies: Map::empty(),
        }
    }
}

impl StoredState {
    /// The layout of this stored state.
    pub open spec fn version_of(self) -> SchemaVersion {
        match self {
            StoredState::Current(_) => SchemaVersion::WithMirror,
            StoredState::Legacy(_) => SchemaVersion::WithoutMirror,
        }
    }

    /// The ledger that this stored state restores to.
    pub open spec fn restored(self) -> InsuranceView {
        match self {
            StoredState::Current(s) => s.restored(),
            StoredState::Legacy(s) => s.restored(),
        }
    }

    /// The layout of this stored state.
    pub fn version(&self) -> (r: SchemaVersion)
        ensures
            r == self.version_of(),
    {
        match self {
            StoredState::Current(_) => SchemaVersion::WithMirror,
            StoredState::Legacy(_) => SchemaVersion::WithoutMirror,
        }
    }
}

} // verus!

//! The assets registry: a two-way mapping between local assets and assets of
//! other chains.
//!
//! 1. Each mapping is bidirectional.
//! 2. A mapping is first a candidate and waits for approval.
//! 3. Once approved by both the local and the foreign admin, the mapping can
//!    be looked up in both directions.
//!
//! Which origins may update the admins, and which count as the local or the
//! foreign admin, is the runtime's configuration: each call takes the outcome
//! of those three checks on its origin as a `CheckedOrigin`. `check_origin`
//! gives the usual configuration: root updates the admins, and a call signed
//! by the account that the registry holds as local or foreign admin is that
//! admin.

use vstd::prelude::*;
use std::collections::BTreeMap;
use crate::dispatch::{AccountId, DispatchError, Origin, ensure_signed};

verus! {

/// Identifier of an asset of this chain.
pub type LocalAssetId = u128;

/// Identifier of an asset's location on another chain.
pub type ForeignAssetId = u128;

/// Which admin has approved a candidate mapping so far.
#[derive(Copy, Clone, Debug, PartialEq, Eq, Structural)]
pub enum CandidateStatus {
    LocalAdminApproved,
    ForeignAdminApproved,
}

/// What is known of a foreign asset.
#[derive(Copy, Clone, Debug, PartialEq, Eq, Structural)]
pub struct ForeignMetadata {
    pub decimals: u8,
}

/// Events of the pallet.
#[derive(Copy, Clone, Debug, PartialEq, Eq, Structural)]
pub enum Event {
    LocalAdminUpdated(AccountId),
    ForeignAdminUpdated(AccountId),
    AssetsMappingCandidateUpdated { local_asset_id: LocalAssetId, foreign_asset_id: ForeignAssetId },
    AssetMetadataUpdated(LocalAssetId),
}

/// Errors of the pallet.
#[derive(Copy, Clone, Debug, PartialEq, Eq, Structural)]
pub enum Error {
    OnlyAllowedForAdmins,
    LocalAssetIdAlreadyUsed,
    ForeignAssetIdAlreadyUsed,
    LocalAssetIdNotFound,
}

/// Storage of the pallet.
#[derive(Clone)]
pub struct Pallet {
    local_admin: Option<AccountId>,
    foreign_admin: Option<AccountId>,
    local_to_foreign: BTreeMap<LocalAssetId, ForeignAssetId>,
    foreign_to_local: BTreeMap<ForeignAssetId, LocalAssetId>,
    candidates: BTreeMap<(LocalAssetId, ForeignAssetId), CandidateStatus>,
    metadata: BTreeMap<LocalAssetId, ForeignMetadata>,
    events: Vec<Event>,
}

/// The pallet's storage as mathematical values.
pub struct RegistryView {
    pub local_admin: Option<AccountId>,
    pub foreign_admin: Option<AccountId>,
    pub local_to_foreign: Map<LocalAssetId, ForeignAssetId>,
    pub foreign_to_local: Map<ForeignAssetId, LocalAssetId>,
    pub candidates: Map<(LocalAssetId, ForeignAssetId), CandidateStatus>,
    pub metadata: Map<LocalAssetId, ForeignMetadata>,
    pub events: Seq<Event>,
}

impl View for Pallet {
    type V = RegistryView;

    closed spec fn view(&self) -> RegistryView {
        RegistryView {
            local_admin: self.local_admin,
            foreign_admin: self.foreign_admin,
            local_to_foreign: self.local_to_foreign@,
            foreign_to_local: self.foreign_to_local@,
            candidates: self.candidates@,
            metadata: self.metadata@,
            events: self.events@,
        }
    }
}

/// The error of this pallet.
pub open spec fn registry_error(e: Error) -> DispatchError {
    DispatchError::AssetsRegistry(e)
}

/// The state with `local` mapped to `foreign` in both directions.
pub open spec fn with_location(v: RegistryView, local: LocalAssetId, foreign: ForeignAssetId) -> RegistryView {
    RegistryView {
        local_to_foreign: v.local_to_foreign.insert(local, foreign),
        foreign_to_local: v.foreign_to_local.insert(foreign, local),
        ..v
    }
}

/// The account that `origin` signs for when it is the local admin.
pub open spec fn local_admin_of(v: RegistryView, origin: Origin) -> Option<AccountId> {
    match origin {
        Origin::Signed(who) => if v.local_admin == Some(who) {
            Some(who)
        } else {
            None
        },
        _ => None,
    }
}

/// The account that `origin` signs for when it is the foreign admin.
pub open spec fn foreign_admin_of(v: RegistryView, origin: Origin) -> Option<AccountId> {
    match origin {
        Origin::Signed(who) => if v.foreign_admin == Some(who) {
            Some(who)
        } else {
            None
        },
        _ => None,
    }
}

/// A call's origin with the outcome of the runtime's three origin checks on
/// it: may it update the admins, does it pass as the local admin, does it
/// pass as the foreign admin.
#[derive(Copy, Clone, Debug, PartialEq, Eq, Structural)]
pub struct CheckedOrigin {
    pub origin: Origin,
    pub update_admin: bool,
    pub local_admin: bool,
    pub foreign_admin: bool,
}

/// Whether the origin passes as one of the two admins.
pub open spec fn admits_admin(o: CheckedOrigin) -> bool {
    o.local_admin || o.foreign_admin
}

/// The state after an admin `who` approves mapping `local` to `foreign`: the
/// first approval records which admin approved; the approval of the other
/// admin turns the candidate into a mapping.
pub open spec fn approve_candidate_spec(
    v: RegistryView,
    who: AccountId,
    local: LocalAssetId,
    foreign: ForeignAssetId,
) -> RegistryView {
    let key = (local, foreign);
    if !v.candidates.contains_key(key) {
        if v.local_admin == Some(who) {
            RegistryView { candidates: v.candidates.insert(key, CandidateStatus::LocalAdminApproved), ..v }
        } else {
            RegistryView { candidates: v.candidates.insert(key, CandidateStatus::ForeignAdminApproved), ..v }
        }
    } else if v.candidates[key] == CandidateStatus::LocalAdminApproved {
        if v.foreign_admin == Some(who) {
            RegistryView { candidates: v.candidates.remove(key), ..with_location(v, local, foreign) }
        } else {
            v
        }
    } else {
        if v.local_admin == Some(who) {
            RegistryView { candidates: v.candidates.remove(key), ..with_location(v, local, foreign) }
        } else {
            v
        }
    }
}

/// What `approve_assets_mapping_candidate` does: the next state and the result.
pub open spec fn approve_mapping_spec(
    v: RegistryView,
    o: CheckedOrigin,
    local: LocalAssetId,
    foreign: ForeignAssetId,
) -> (RegistryView, Result<(), DispatchError>) {
    match o.origin {
        Origin::Signed(who) => if !admits_admin(o) {
            (v, Err(registry_error(Error::OnlyAllowedForAdmins)))
        } else if v.local_to_foreign.contains_key(local) {
            (v, Err(registry_error(Error::LocalAssetIdAlreadyUsed)))
        } else if v.foreign_to_local.contains_key(foreign) {
            (v, Err(registry_error(Error::ForeignAssetIdAlreadyUsed)))
        } else {
            let next = approve_candidate_spec(v, who, local, foreign);
            (
                RegistryView {
                    events: v.events.push(
                        Event::AssetsMappingCandidateUpdated { local_asset_id: local, foreign_asset_id: foreign },
                    ),
                    ..next
                },
                Ok(()),
            )
        },
        _ => (v, Err(DispatchError::BadOrigin)),
    }
}

/// Every mapping can be followed back: the two maps are inverse to each other.
pub open spec fn bidirectional(v: RegistryView) -> bool {
    &&& forall|l: LocalAssetId| #[trigger]
        v.local_to_foreign.contains_key(l) ==> v.foreign_to_local.contains_key(v.local_to_foreign[l])
            && v.foreign_to_local[v.local_to_foreign[l]] == l
    &&& forall|f: ForeignAssetId| #[trigger]
        v.foreign_to_local.contains_key(f) ==> v.local_to_foreign.contains_key(v.foreign_to_local[f])
            && v.local_to_foreign[v.foreign_to_local[f]] == f
}

/// Initial configuration of the pallet.
pub struct GenesisConfig {
    pub local_admin: Option<AccountId>,
    pub foreign_admin: Option<AccountId>,
    pub asset_pairs: Vec<(LocalAssetId, ForeignAssetId)>,
}

/// The two maps after setting each pair of `pairs` in order.
pub open spec fn locations_of(pairs: Seq<(LocalAssetId, ForeignAssetId)>) -> (
    Map<LocalAssetId, ForeignAssetId>,
    Map<ForeignAssetId, LocalAssetId>,
)
    decreases pairs.len(),
{
    if pairs.len() == 0 {
        (Map::empty(), Map::empty())
    } else {
        let (l2f, f2l) = locations_of(pairs.drop_last());
        let p = pairs.last();
        (l2f.insert(p.0, p.1), f2l.insert(p.1, p.0))
    }
}

impl GenesisConfig {
    /// No admins and no mappings.
    pub fn default() -> (r: GenesisConfig)
        ensures
            r.local_admin is None,
            r.foreign_admin is None,
            r.asset_pairs@.len() == 0,
    {
        GenesisConfig { local_admin: None, foreign_admin: None, asset_pairs: Vec::new() }
    }

    /// The storage at genesis: the configured admins, and each configured pair
    /// mapped in both directions (a later pair overriding an earlier one).
    pub fn build(&self) -> (r: Pallet)
        ensures
            r@.local_admin == self.local_admin,
            r@.foreign_admin == self.foreign_admin,
            (r@.local_to_foreign, r@.foreign_to_local) == locations_of(self.asset_pairs@),
            r@.candidates == Map::<(LocalAssetId, ForeignAssetId), CandidateStatus>::empty(),
            r@.metadata == Map::<LocalAssetId, ForeignMetadata>::empty(),
            r@.events == Seq::<Event>::empty(),
    {
        let mut local_to_foreign = BTreeMap::new();
        let mut foreign_to_local = BTreeMap::new();
        let mut i: usize = 0;
        while i < self.asset_pairs.len()
            invariant
                i <= self.asset_pairs@.len(),
                (local_to_foreign@, foreign_to_local@) == locations_of(self.asset_pairs@.take(i as int)),
            decreases self.asset_pairs@.len() - i,
        {
            let p = self.asset_pairs[i];
            local_to_foreign.insert(p.0, p.1);
            foreign_to_local.insert(p.1, p.0);
            proof {
                assert(self.asset_pairs@.take(i + 1).drop_last() =~= self.asset_pairs@.take(i as int));
            }
            i = i + 1;
        }
        proof {
            assert(self.asset_pairs@.take(i as int) =~= self.asset_pairs@);
        }
        Pallet {
            local_admin: self.local_admin,
            foreign_admin: self.foreign_admin,
            local_to_foreign,
            foreign_to_local,
            candidates: BTreeMap::new(),
            metadata: BTreeMap::new(),
            events: Vec::new(),
        }
    }
}

/// The origin check that succeeds for the local admin.
pub struct EnsureLocalAdmin;

impl EnsureLocalAdmin {
    /// The local admin's account for a call signed by it, else the origin back.
    pub fn try_origin(registry: &Pallet, o: Origin) -> (r: Result<AccountId, Origin>)
        ensures
            r == (match local_admin_of(registry@, o) {
                Some(who) => Ok(who),
                None => Err(o),
            }),
    {
        match (o, registry.local_admin) {
            (Origin::Signed(who), Some(f)) => if who == f {
                Ok(who)
            } else {
                Err(o)
            },
            _ => Err(o),
        }
    }

    /// An origin that passes the check, for benchmarks: the local admin's
    /// signature; there must be a local admin.
    pub fn successful_origin(registry: &Pallet) -> (r: Origin)
        requires
            registry@.local_admin is Some,
        ensures
            r == Origin::Signed(registry@.local_admin->Some_0),
            local_admin_of(registry@, r) is Some,
    {
        match registry.local_admin {
            Some(admin) => Origin::Signed(admin),
            None => Origin::Root,
        }
    }
}

/// The origin check that succeeds for the foreign admin.
pub struct EnsureForeignAdmin;

impl EnsureForeignAdmin {
    /// The foreign admin's account for a call signed by it, else the origin back.
    pub fn try_origin(registry: &Pallet, o: Origin) -> (r: Result<AccountId, Origin>)
        ensures
            r == (match foreign_admin_of(registry@, o) {
                Some(who) => Ok(who),
                None => Err(o),
            }),
    {
        match (o, registry.foreign_admin) {
            (Origin::Signed(who), Some(f)) => if who == f {
                Ok(who)
            } else {
                Err(o)
            },
            _ => Err(o),
        }
    }

    /// An origin that passes the check, for benchmarks: the foreign admin's
    /// signature; there must be a foreign admin.
    pub fn successful_origin(registry: &Pallet) -> (r: Origin)
        requires
            registry@.foreign_admin is Some,
        ensures
            r == Origin::Signed(registry@.foreign_admin->Some_0),
            foreign_admin_of(registry@, r) is Some,
    {
        match registry.foreign_admin {
            Some(admin) => Origin::Signed(admin),
            None => Origin::Root,
        }
    }
}

impl Pallet {
    /// The outcome of the origin checks in the usual configuration: root may
    /// update the admins; a call signed by the stored local (foreign) admin
    /// passes as the local (foreign) admin.
    pub fn check_origin(&self, origin: Origin) -> (r: CheckedOrigin)
        ensures
            r.origin == origin,
            r.update_admin == (origin == Origin::Root),
            r.local_admin == (local_admin_of(self@, origin) is Some),
            r.foreign_admin == (foreign_admin_of(self@, origin) is Some),
    {
        CheckedOrigin {
            origin,
            update_admin: match origin {
                Origin::Root => true,
                _ => false,
            },
            local_admin: EnsureLocalAdmin::try_origin(self, origin).is_ok(),
            foreign_admin: EnsureForeignAdmin::try_origin(self, origin).is_ok(),
        }
    }

    /// The local admin, if set.
    pub fn local_admin(&self) -> (r: Option<AccountId>)
        ensures
            r == self@.local_admin,
    {
        self.local_admin
    }

    /// The foreign admin, if set.
    pub fn foreign_admin(&self) -> (r: Option<AccountId>)
        ensures
            r == self@.foreign_admin,
    {
        self.foreign_admin
    }

    /// The candidate status of mapping `local` to `foreign`, if any.
    pub fn assets_mapping_candidates(&self, local: LocalAssetId, foreign: ForeignAssetId) -> (r: Option<
        CandidateStatus,
    >)
        ensures
            r == (if self@.candidates.contains_key((local, foreign)) {
                Some(self@.candidates[(local, foreign)])
            } else {
                None::<CandidateStatus>
            }),
    {
        match self.candidates.get(&(local, foreign)) {
            Some(s) => Some(*s),
            None => None,
        }
    }

    /// The metadata of the foreign asset mapped to `local`, if any.
    pub fn foreign_asset_metadata(&self, local: LocalAssetId) -> (r: Option<ForeignMetadata>)
        ensures
            r == (if self@.metadata.contains_key(local) {
                Some(self@.metadata[local])
            } else {
                None::<ForeignMetadata>
            }),
    {
        match self.metadata.get(&local) {
            Some(m) => Some(*m),
            None => None,
        }
    }

    /// The events deposited so far.
    pub fn events(&self) -> (r: Vec<Event>)
        ensures
            r@ == self@.events,
    {
        self.events.clone()
    }

    /// An origin that may update the admins sets the local admin.
    pub fn set_local_admin(&mut self, origin: CheckedOrigin, local_admin: AccountId) -> (r: Result<
        (),
        DispatchError,
    >)
        ensures
            origin.update_admin ==> r is Ok && final(self)@ == (RegistryView {
                local_admin: Some(local_admin),
                events: old(self)@.events.push(Event::LocalAdminUpdated(local_admin)),
                ..old(self)@
            }),
            !origin.update_admin ==> r == Err::<(), DispatchError>(DispatchError::BadOrigin)
                && final(self)@ == old(self)@,
    {
        if !origin.update_admin {
            return Err(DispatchError::BadOrigin);
        }
        self.local_admin = Some(local_admin);
        self.events.push(Event::LocalAdminUpdated(local_admin));
        Ok(())
    }

    /// An origin that may update the admins sets the foreign admin.
    pub fn set_foreign_admin(&mut self, origin: CheckedOrigin, foreign_admin: AccountId) -> (r: Result<
        (),
        DispatchError,
    >)
        ensures
            origin.update_admin ==> r is Ok && final(self)@ == (RegistryView {
                foreign_admin: Some(foreign_admin),
                events: old(self)@.events.push(Event::ForeignAdminUpdated(foreign_admin)),
                ..old(self)@
            }),
            !origin.update_admin ==> r == Err::<(), DispatchError>(DispatchError::BadOrigin)
                && final(self)@ == old(self)@,
    {
        if !origin.update_admin {
            return Err(DispatchError::BadOrigin);
        }
        self.foreign_admin = Some(foreign_admin);
        self.events.push(Event::ForeignAdminUpdated(foreign_admin));
        Ok(())
    }

    /// An admin approves mapping `local_asset_id` to `foreign_asset_id`; both
    /// must be unmapped.
    pub fn approve_assets_mapping_candidate(
        &mut self,
        origin: CheckedOrigin,
        local_asset_id: LocalAssetId,
        foreign_asset_id: ForeignAssetId,
    ) -> (r: Result<(), DispatchError>)
        ensures
            (final(self)@, r) == approve_mapping_spec(old(self)@, origin, local_asset_id, foreign_asset_id),
    {
        let who = ensure_signed(origin.origin)?;
        Self::ensure_admins_only(origin)?;
        if self.local_to_foreign.contains_key(&local_asset_id) {
            return Err(DispatchError::AssetsRegistry(Error::LocalAssetIdAlreadyUsed));
        }
        if self.foreign_to_local.contains_key(&foreign_asset_id) {
            return Err(DispatchError::AssetsRegistry(Error::ForeignAssetIdAlreadyUsed));
        }
        self.approve_candidate(who, local_asset_id, foreign_asset_id)?;
        self.events.push(
            Event::AssetsMappingCandidateUpdated { local_asset_id, foreign_asset_id },
        );
        Ok(())
    }

    /// An admin records the metadata of the foreign asset mapped to
    /// `local_asset_id`.
    pub fn set_metadata(&mut self, origin: CheckedOrigin, local_asset_id: LocalAssetId, metadata: ForeignMetadata) -> (r:
        Result<(), DispatchError>)
        ensures
            match origin.origin {
                Origin::Signed(_) => if !admits_admin(origin) {
                    r == Err::<(), DispatchError>(registry_error(Error::OnlyAllowedForAdmins))
                        && final(self)@ == old(self)@
                } else if !old(self)@.local_to_foreign.contains_key(local_asset_id) {
                    r == Err::<(), DispatchError>(registry_error(Error::LocalAssetIdNotFound))
                        && final(self)@ == old(self)@
                } else {
                    r is Ok && final(self)@ == (RegistryView {
                        metadata: old(self)@.metadata.insert(local_asset_id, metadata),
                        events: old(self)@.events.push(Event::AssetMetadataUpdated(local_asset_id)),
                        ..old(self)@
                    })
                },
                _ => r == Err::<(), DispatchError>(DispatchError::BadOrigin) && final(self)@ == old(self)@,
            },
    {
        let _ = ensure_signed(origin.origin)?;
        Self::ensure_admins_only(origin)?;
        if !self.local_to_foreign.contains_key(&local_asset_id) {
            return Err(DispatchError::AssetsRegistry(Error::LocalAssetIdNotFound));
        }
        self.metadata.insert(local_asset_id, metadata);
        self.events.push(Event::AssetMetadataUpdated(local_asset_id));
        Ok(())
    }

    /// Maps `local_asset_id` to `foreign_asset_id` in both directions, without
    /// any check.
    pub fn set_location(&mut self, local_asset_id: LocalAssetId, foreign_asset_id: ForeignAssetId) -> (r:
        Result<(), DispatchError>)
        ensures
            r is Ok,
            final(self)@ == with_location(old(self)@, local_asset_id, foreign_asset_id),
    {
        self.local_to_foreign.insert(local_asset_id, foreign_asset_id);
        self.foreign_to_local.insert(foreign_asset_id, local_asset_id);
        Ok(())
    }

    /// The foreign asset that `local_asset_id` is mapped to.
    pub fn asset_to_location(&self, local_asset_id: LocalAssetId) -> (r: Option<ForeignAssetId>)
        ensures
            r == (if self@.local_to_foreign.contains_key(local_asset_id) {
                Some(self@.local_to_foreign[local_asset_id])
            } else {
                None::<ForeignAssetId>
            }),
    {
        match self.local_to_foreign.get(&local_asset_id) {
            Some(f) => Some(*f),
            None => None,
        }
    }

    /// The local asset that `foreign_asset_id` is mapped to.
    pub fn location_to_asset(&self, foreign_asset_id: ForeignAssetId) -> (r: Option<LocalAssetId>)
        ensures
            r == (if self@.foreign_to_local.contains_key(foreign_asset_id) {
                Some(self@.foreign_to_local[foreign_asset_id])
            } else {
                None::<LocalAssetId>
            }),
    {
        match self.foreign_to_local.get(&foreign_asset_id) {
            Some(l) => Some(*l),
            None => None,
        }
    }

    /// Succeeds when `origin` passes as the local or the foreign admin.
    fn ensure_admins_only(origin: CheckedOrigin) -> (r: Result<(), DispatchError>)
        ensures
            r == (if admits_admin(origin) {
                Ok(())
            } else {
                Err::<(), DispatchError>(registry_error(Error::OnlyAllowedForAdmins))
            }),
    {
        if !origin.local_admin && !origin.foreign_admin {
            Err(DispatchError::AssetsRegistry(Error::OnlyAllowedForAdmins))
        } else {
            Ok(())
        }
    }

    /// Records the approval of `who` for mapping `local_asset_id` to
    /// `foreign_asset_id`.
    fn approve_candidate(
        &mut self,
        who: AccountId,
        local_asset_id: LocalAssetId,
        foreign_asset_id: ForeignAssetId,
    ) -> (r: Result<(), DispatchError>)
        ensures
            r is Ok,
            final(self)@ == approve_candidate_spec(old(self)@, who, local_asset_id, foreign_asset_id),
    {
        let key = (local_asset_id, foreign_asset_id);
        let current_candidate_status = match self.candidates.get(&key) {
            Some(s) => Some(*s),
            None => None,
        };
        let local_admin = self.local_admin;
        let foreign_admin = self.foreign_admin;
        match current_candidate_status {
            None => if Some(who) == local_admin {
                self.candidates.insert(key, CandidateStatus::LocalAdminApproved);
            } else {
                self.candidates.insert(key, CandidateStatus::ForeignAdminApproved);
            },
            Some(CandidateStatus::LocalAdminApproved) => if Some(who) == foreign_admin {
                self.set_location(local_asset_id, foreign_asset_id)?;
                self.candidates.remove(&key);
            },
            Some(CandidateStatus::ForeignAdminApproved) => if Some(who) == local_admin {
                self.set_location(local_asset_id, foreign_asset_id)?;
                self.candidates.remove(&key);
            },
        }
        Ok(())
    }
}

// ---------------------------------------------------------------------------
// Laws of the registry
// ---------------------------------------------------------------------------

/// A mapping approved by the local admin and then by the foreign admin can be
/// looked up in both directions, and is no longer a candidate; after the first
/// approval alone it is only a candidate.
pub proof fn lemma_local_then_foreign_approval_maps(
    v: RegistryView,
    by_local: CheckedOrigin,
    by_foreign: CheckedOrigin,
    local: LocalAssetId,
    foreign: ForeignAssetId,
)
    requires
        by_local.origin matches Origin::Signed(a) && v.local_admin == Some(a),
        by_foreign.origin matches Origin::Signed(b) && v.foreign_admin == Some(b),
        admits_admin(by_local),
        admits_admin(by_foreign),
        !v.local_to_foreign.contains_key(local),
        !v.foreign_to_local.contains_key(foreign),
        !v.candidates.contains_key((local, foreign)),
    ensures
        ({
            let (v1, r1) = approve_mapping_spec(v, by_local, local, foreign);
            let (v2, r2) = approve_mapping_spec(v1, by_foreign, local, foreign);
            &&& r1 is Ok
            &&& !v1.local_to_foreign.contains_key(local)
            &&& !v1.foreign_to_local.contains_key(foreign)
            &&& v1.candidates.contains_key((local, foreign))
            &&& r2 is Ok
            &&& v2.local_to_foreign.contains_key(local) && v2.local_to_foreign[local] == foreign
            &&& v2.foreign_to_local.contains_key(foreign) && v2.foreign_to_local[foreign] == local
            &&& !v2.candidates.contains_key((local, foreign))
        }),
{
}

/// The same in the other order: the foreign admin approves first, then the
/// local admin.
pub proof fn lemma_foreign_then_local_approval_maps(
    v: RegistryView,
    by_local: CheckedOrigin,
    by_foreign: CheckedOrigin,
    local: LocalAssetId,
    foreign: ForeignAssetId,
)
    requires
        by_local.origin matches Origin::Signed(a) && v.local_admin == Some(a),
        by_foreign.origin matches Origin::Signed(b) && v.foreign_admin == Some(b),
        admits_admin(by_local),
        admits_admin(by_foreign),
        !v.local_to_foreign.contains_key(local),
        !v.foreign_to_local.contains_key(foreign),
        !v.candidates.contains_key((local, foreign)),
    ensures
        ({
            let (v1, r1) = approve_mapping_spec(v, by_foreign, local, foreign);
            let (v2, r2) = approve_mapping_spec(v1, by_local, local, foreign);
            &&& r1 is Ok
            &&& !v1.local_to_foreign.contains_key(local)
            &&& !v1.foreign_to_local.contains_key(foreign)
            &&& v1.candidates.contains_key((local, foreign))
            &&& r2 is Ok
            &&& v2.local_to_foreign.contains_key(local) && v2.local_to_foreign[local] == foreign
            &&& v2.foreign_to_local.contains_key(foreign) && v2.foreign_to_local[foreign] == local
            &&& !v2.candidates.contains_key((local, foreign))
        }),
{
}

/// One admin alone never completes a mapping: when the local admin, who is
/// not also the foreign admin, approves an unmapped pair twice, the second
/// approval changes nothing but the events; the pair stays a candidate
/// approved by the local admin and is not mapped.
pub proof fn lemma_single_admin_cannot_complete(
    v: RegistryView,
    by_local: CheckedOrigin,
    local: LocalAssetId,
    foreign: ForeignAssetId,
)
    requires
        by_local.origin matches Origin::Signed(a) && v.local_admin == Some(a) && v.foreign_admin
            != Some(a),
        admits_admin(by_local),
        !v.local_to_foreign.contains_key(local),
        !v.foreign_to_local.contains_key(foreign),
        !v.candidates.contains_key((local, foreign)),
    ensures
        ({
            let (v1, r1) = approve_mapping_spec(v, by_local, local, foreign);
            let (v2, r2) = approve_mapping_spec(v1, by_local, local, foreign);
            let event = Event::AssetsMappingCandidateUpdated {
                local_asset_id: local,
                foreign_asset_id: foreign,
            };
            &&& r1 is Ok
            &&& r2 is Ok
            &&& v2 == RegistryView { events: v1.events.push(event), ..v1 }
            &&& v2.candidates.contains_key((local, foreign))
            &&& v2.candidates[(local, foreign)] == CandidateStatus::LocalAdminApproved
            &&& v2.local_to_foreign == v.local_to_foreign
            &&& v2.foreign_to_local == v.foreign_to_local
        }),
{
}

/// The mirror for the foreign admin: when the foreign admin, who is not also
/// the local admin, approves an unmapped pair twice, the second approval
/// changes nothing but the events; the pair stays a candidate approved by the
/// foreign admin and is not mapped.
pub proof fn lemma_foreign_admin_alone_cannot_complete(
    v: RegistryView,
    by_foreign: CheckedOrigin,
    local: LocalAssetId,
    foreign: ForeignAssetId,
)
    requires
        by_foreign.origin matches Origin::Signed(b) && v.foreign_admin == Some(b) && v.local_admin
            != Some(b),
        admits_admin(by_foreign),
        !v.local_to_foreign.contains_key(local),
        !v.foreign_to_local.contains_key(foreign),
        !v.candidates.contains_key((local, foreign)),
    ensures
        ({
            let (v1, r1) = approve_mapping_spec(v, by_foreign, local, foreign);
            let (v2, r2) = approve_mapping_spec(v1, by_foreign, local, foreign);
            let event = Event::AssetsMappingCandidateUpdated {
                local_asset_id: local,
                foreign_asset_id: foreign,
            };
            &&& r1 is Ok
            &&& r2 is Ok
            &&& v2 == RegistryView { events: v1.events.push(event), ..v1 }
            &&& v2.candidates.contains_key((local, foreign))
            &&& v2.candidates[(local, foreign)] == CandidateStatus::ForeignAdminApproved
            &&& v2.local_to_foreign == v.local_to_foreign
            &&& v2.foreign_to_local == v.foreign_to_local
        }),
{
}

/// A candidate waits for the other admin: an approval signed by anyone but
/// the admin it still waits for changes neither the maps nor the candidates.
pub proof fn lemma_repeat_approval_maps_nothing(
    v: RegistryView,
    origin: CheckedOrigin,
    local: LocalAssetId,
    foreign: ForeignAssetId,
)
    requires
        v.candidates.contains_key((local, foreign)),
        origin.origin matches Origin::Signed(who) && (match v.candidates[(local, foreign)] {
            CandidateStatus::LocalAdminApproved => v.foreign_admin != Some(who),
            CandidateStatus::ForeignAdminApproved => v.local_admin != Some(who),
        }),
    ensures
        approve_mapping_spec(v, origin, local, foreign).0.local_to_foreign == v.local_to_foreign,
        approve_mapping_spec(v, origin, local, foreign).0.foreign_to_local == v.foreign_to_local,
        approve_mapping_spec(v, origin, local, foreign).0.candidates == v.candidates,
{
}

/// Approving candidates keeps every mapping bidirectional.
pub proof fn lemma_approval_keeps_mappings_bidirectional(
    v: RegistryView,
    origin: CheckedOrigin,
    local: LocalAssetId,
    foreign: ForeignAssetId,
)
    requires
        bidirectional(v),
    ensures
        bidirectional(approve_mapping_spec(v, origin, local, foreign).0),
{
    let v2 = approve_mapping_spec(v, origin, local, foreign).0;
    if v2.local_to_foreign != v.local_to_foreign {
        assert forall|l: LocalAssetId| #[trigger] v2.local_to_foreign.contains_key(l) implies v2.foreign_to_local.contains_key(v2.local_to_foreign[l])
            && v2.foreign_to_local[v2.local_to_foreign[l]] == l by {
            if l != local {
                assert(v.local_to_foreign.contains_key(l));
                assert(v.foreign_to_local.contains_key(v.local_to_foreign[l]));
            }
        }
        assert forall|f: ForeignAssetId| #[trigger] v2.foreign_to_local.contains_key(f) implies v2.local_to_foreign.contains_key(v2.foreign_to_local[f])
            && v2.local_to_foreign[v2.foreign_to_local[f]] == f by {
            if f != foreign {
                assert(v.foreign_to_local.contains_key(f));
                assert(v.local_to_foreign.contains_key(v.foreign_to_local[f]));
            }
        }
    }
}

/// Only the two admins can take part in approving mappings: an origin that
/// passes as neither is refused and leaves the registry as it was.
pub proof fn lemma_only_admins_approve(
    v: RegistryView,
    origin: CheckedOrigin,
    local: LocalAssetId,
    foreign: ForeignAssetId,
)
    requires
        !admits_admin(origin),
    ensures
        approve_mapping_spec(v, origin, local, foreign).0 == v,
        approve_mapping_spec(v, origin, local, foreign).1 is Err,
{
}

} // verus!

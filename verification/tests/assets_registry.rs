use composable::assets_registry::{
    CandidateStatus, CheckedOrigin, EnsureForeignAdmin, EnsureLocalAdmin, Error, Event, ForeignMetadata,
    GenesisConfig, Pallet,
};
use composable::dispatch::{DispatchError, Origin};

const LOCAL_ADMIN: u128 = 10;
const FOREIGN_ADMIN: u128 = 20;
const STRANGER: u128 = 30;

fn err(e: Error) -> DispatchError {
    DispatchError::AssetsRegistry(e)
}

fn registry() -> Pallet {
    let mut r = GenesisConfig::default().build();
    assert_eq!(r.set_local_admin(r.check_origin(Origin::Root), LOCAL_ADMIN), Ok(()));
    assert_eq!(r.set_foreign_admin(r.check_origin(Origin::Root), FOREIGN_ADMIN), Ok(()));
    r
}

#[test]
fn genesis_maps_pairs_both_ways() {
    let config = GenesisConfig {
        local_admin: Some(LOCAL_ADMIN),
        foreign_admin: None,
        asset_pairs: vec![(1, 101), (2, 102)],
    };
    let r = config.build();
    assert_eq!(r.local_admin(), Some(LOCAL_ADMIN));
    assert_eq!(r.foreign_admin(), None);
    assert_eq!(r.asset_to_location(1), Some(101));
    assert_eq!(r.location_to_asset(102), Some(2));
    assert_eq!(r.asset_to_location(3), None);
    assert!(r.events().is_empty());
}

#[test]
fn only_root_sets_admins() {
    let mut r = GenesisConfig::default().build();
    assert_eq!(r.set_local_admin(r.check_origin(Origin::Signed(STRANGER)), STRANGER), Err(DispatchError::BadOrigin));
    assert_eq!(r.set_foreign_admin(r.check_origin(Origin::Unsigned), STRANGER), Err(DispatchError::BadOrigin));
    assert_eq!(r.set_local_admin(r.check_origin(Origin::Root), LOCAL_ADMIN), Ok(()));
    assert_eq!(r.set_foreign_admin(r.check_origin(Origin::Root), FOREIGN_ADMIN), Ok(()));
    assert_eq!(
        r.events(),
        vec![Event::LocalAdminUpdated(LOCAL_ADMIN), Event::ForeignAdminUpdated(FOREIGN_ADMIN)]
    );
}

#[test]
fn admin_origins() {
    let r = registry();
    assert_eq!(EnsureLocalAdmin::try_origin(&r, Origin::Signed(LOCAL_ADMIN)), Ok(LOCAL_ADMIN));
    assert_eq!(EnsureLocalAdmin::try_origin(&r, Origin::Signed(FOREIGN_ADMIN)), Err(Origin::Signed(FOREIGN_ADMIN)));
    assert_eq!(EnsureForeignAdmin::try_origin(&r, Origin::Signed(FOREIGN_ADMIN)), Ok(FOREIGN_ADMIN));
    assert_eq!(EnsureForeignAdmin::try_origin(&r, Origin::Root), Err(Origin::Root));
    let empty = GenesisConfig::default().build();
    assert_eq!(EnsureLocalAdmin::try_origin(&empty, Origin::Signed(LOCAL_ADMIN)), Err(Origin::Signed(LOCAL_ADMIN)));
}

#[test]
fn mapping_needs_both_admins() {
    let mut r = registry();
    assert_eq!(r.approve_assets_mapping_candidate(r.check_origin(Origin::Signed(LOCAL_ADMIN)), 1, 101), Ok(()));
    assert_eq!(r.assets_mapping_candidates(1, 101), Some(CandidateStatus::LocalAdminApproved));
    assert_eq!(r.asset_to_location(1), None);
    assert_eq!(r.location_to_asset(101), None);
    // the same admin again changes nothing
    assert_eq!(r.approve_assets_mapping_candidate(r.check_origin(Origin::Signed(LOCAL_ADMIN)), 1, 101), Ok(()));
    assert_eq!(r.asset_to_location(1), None);
    assert_eq!(r.approve_assets_mapping_candidate(r.check_origin(Origin::Signed(FOREIGN_ADMIN)), 1, 101), Ok(()));
    assert_eq!(r.asset_to_location(1), Some(101));
    assert_eq!(r.location_to_asset(101), Some(1));
    assert_eq!(r.assets_mapping_candidates(1, 101), None);
    assert_eq!(
        r.events().last(),
        Some(&Event::AssetsMappingCandidateUpdated { local_asset_id: 1, foreign_asset_id: 101 })
    );
}

#[test]
fn mapping_foreign_admin_first() {
    let mut r = registry();
    assert_eq!(r.approve_assets_mapping_candidate(r.check_origin(Origin::Signed(FOREIGN_ADMIN)), 2, 202), Ok(()));
    assert_eq!(r.assets_mapping_candidates(2, 202), Some(CandidateStatus::ForeignAdminApproved));
    assert_eq!(r.approve_assets_mapping_candidate(r.check_origin(Origin::Signed(LOCAL_ADMIN)), 2, 202), Ok(()));
    assert_eq!(r.asset_to_location(2), Some(202));
    assert_eq!(r.location_to_asset(202), Some(2));
}

#[test]
fn mapping_refusals() {
    let mut r = registry();
    assert_eq!(
        r.approve_assets_mapping_candidate(r.check_origin(Origin::Signed(STRANGER)), 1, 101),
        Err(err(Error::OnlyAllowedForAdmins))
    );
    assert_eq!(r.approve_assets_mapping_candidate(r.check_origin(Origin::Root), 1, 101), Err(DispatchError::BadOrigin));
    assert_eq!(r.set_location(1, 101), Ok(()));
    assert_eq!(
        r.approve_assets_mapping_candidate(r.check_origin(Origin::Signed(LOCAL_ADMIN)), 1, 999),
        Err(err(Error::LocalAssetIdAlreadyUsed))
    );
    assert_eq!(
        r.approve_assets_mapping_candidate(r.check_origin(Origin::Signed(LOCAL_ADMIN)), 5, 101),
        Err(err(Error::ForeignAssetIdAlreadyUsed))
    );
    assert_eq!(r.assets_mapping_candidates(5, 101), None);
}

#[test]
fn metadata_for_mapped_assets_only() {
    let mut r = registry();
    let meta = ForeignMetadata { decimals: 12 };
    assert_eq!(r.set_metadata(r.check_origin(Origin::Signed(LOCAL_ADMIN)), 1, meta), Err(err(Error::LocalAssetIdNotFound)));
    assert_eq!(r.set_location(1, 101), Ok(()));
    assert_eq!(r.set_metadata(r.check_origin(Origin::Signed(STRANGER)), 1, meta), Err(err(Error::OnlyAllowedForAdmins)));
    assert_eq!(r.set_metadata(r.check_origin(Origin::Unsigned), 1, meta), Err(DispatchError::BadOrigin));
    assert_eq!(r.set_metadata(r.check_origin(Origin::Signed(FOREIGN_ADMIN)), 1, meta), Ok(()));
    assert_eq!(r.foreign_asset_metadata(1), Some(meta));
    assert_eq!(r.events().last(), Some(&Event::AssetMetadataUpdated(1)));
}

#[test]
fn usual_origin_checks() {
    let r = registry();
    let root = r.check_origin(Origin::Root);
    assert!(root.update_admin && !root.local_admin && !root.foreign_admin);
    let local = r.check_origin(Origin::Signed(LOCAL_ADMIN));
    assert!(!local.update_admin && local.local_admin && !local.foreign_admin);
    let foreign = r.check_origin(Origin::Signed(FOREIGN_ADMIN));
    assert!(!foreign.update_admin && !foreign.local_admin && foreign.foreign_admin);
    let stranger = r.check_origin(Origin::Signed(STRANGER));
    assert!(!stranger.update_admin && !stranger.local_admin && !stranger.foreign_admin);
    assert_eq!(stranger.origin, Origin::Signed(STRANGER));
}

#[test]
fn configured_origins_decide() {
    let mut r = GenesisConfig::default().build();
    // a runtime that lets a council account update the admins
    let council = CheckedOrigin {
        origin: Origin::Signed(STRANGER),
        update_admin: true,
        local_admin: false,
        foreign_admin: false,
    };
    assert_eq!(r.set_local_admin(council, LOCAL_ADMIN), Ok(()));
    assert_eq!(r.local_admin(), Some(LOCAL_ADMIN));
    let refused = CheckedOrigin { update_admin: false, ..council };
    assert_eq!(r.set_foreign_admin(refused, FOREIGN_ADMIN), Err(DispatchError::BadOrigin));
    assert_eq!(r.foreign_admin(), None);
    // an origin that the runtime counts as an admin may approve; the candidate
    // status still follows the stored admins
    let admitted = CheckedOrigin {
        origin: Origin::Signed(STRANGER),
        update_admin: false,
        local_admin: false,
        foreign_admin: true,
    };
    assert_eq!(r.approve_assets_mapping_candidate(admitted, 7, 707), Ok(()));
    assert_eq!(r.assets_mapping_candidates(7, 707), Some(CandidateStatus::ForeignAdminApproved));
    let unsigned = CheckedOrigin { origin: Origin::Unsigned, ..admitted };
    assert_eq!(r.approve_assets_mapping_candidate(unsigned, 8, 808), Err(DispatchError::BadOrigin));
}

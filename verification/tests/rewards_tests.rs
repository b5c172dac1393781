use music_platform::Identity;
use music_platform::MusicPlatform;
use music_platform::PlatformError;
use music_platform::SettlementStage;

fn ident(name: &str) -> Identity {
    Identity::new(name.to_string())
}

/// A platform funded with `pool` units, one asset `"song1"` with five slots
/// owned by alice, and `plays` plays accrued by the host identity.
fn platform_with_plays(pool: u128, plays: u64) -> (MusicPlatform, Identity, Identity) {
    let host = ident("host");
    let alice = ident("alice");
    let mut p = MusicPlatform::new(host.clone(), pool);
    assert_eq!(p.mint_music_nft(&alice, "song1".to_string(), "meta".to_string(), 5), Ok(()));
    if plays > 0 {
        assert_eq!(p.increment_plays(&host, &"song1".to_string(), plays), Ok(()));
    }
    (p, host, alice)
}

#[test]
fn full_redemption_round_finalizes_settlement() {
    let (mut p, host, alice) = platform_with_plays(100, 25);
    let key = "song1".to_string();
    // 25 plays at 10 plays per reward unit owe exactly 2 units.
    assert_eq!(p.redeem_rewards(&alice, &key), Ok(2));
    assert_eq!(p.get_mwj_balance(), 98);
    let pending = p.get_pending_settlement(&key).expect("reserved");
    assert_eq!(pending.plays_consumed(), 20);
    assert_eq!(pending.pool_debit(), 2);
    assert_eq!(pending.stage(), SettlementStage::AwaitingStorage);
    // The host performs the storage-provision request and reports success.
    let storage_req = p.add_storage_deposit(&key).expect("awaiting storage");
    assert_eq!(storage_req.account_id(), &alice);
    assert_eq!(storage_req.music_nft_id().as_str(), "song1");
    assert_eq!(p.add_storage_callback(&host, &key, true), Ok(()));
    // The host performs the mint request and reports success.
    let mint_req = p.mint_lts(&key).expect("awaiting mint");
    assert_eq!(mint_req.account_id(), &alice);
    assert_eq!(mint_req.amount(), 2);
    assert_eq!(p.mint_lts_callback(&host, &key, true), Ok(()));
    // Finalized: exactly the covered plays are consumed, the remainder stays.
    assert_eq!(p.get_withdrawn_plays(&key), 20);
    assert_eq!(p.get_plays(&key), 25);
    assert_eq!(p.get_mwj_balance(), 98);
    assert!(p.get_pending_settlement(&key).is_none());
}

#[test]
fn redeem_below_quantum_is_a_no_op() {
    let (mut p, _host, alice) = platform_with_plays(100, 9);
    let key = "song1".to_string();
    assert_eq!(p.redeem_rewards(&alice, &key), Ok(0));
    assert_eq!(p.get_mwj_balance(), 100);
    assert_eq!(p.get_withdrawn_plays(&key), 0);
    assert!(p.get_pending_settlement(&key).is_none());
}

#[test]
fn redeem_by_non_owner_is_denied_without_mutation() {
    let (mut p, _host, _alice) = platform_with_plays(100, 25);
    let key = "song1".to_string();
    let bob = ident("bob");
    assert_eq!(p.redeem_rewards(&bob, &key), Err(PlatformError::PermissionDenied));
    assert_eq!(p.get_mwj_balance(), 100);
    assert_eq!(p.get_withdrawn_plays(&key), 0);
    assert!(p.get_pending_settlement(&key).is_none());
}

#[test]
fn redeem_unknown_asset_fails_not_found() {
    let (mut p, _host, alice) = platform_with_plays(100, 25);
    assert_eq!(p.redeem_rewards(&alice, &"other".to_string()), Err(PlatformError::NotFound));
}

#[test]
fn redeem_with_underfunded_pool_fails_insufficient_pool() {
    let (mut p, _host, alice) = platform_with_plays(1, 25);
    let key = "song1".to_string();
    assert_eq!(p.redeem_rewards(&alice, &key), Err(PlatformError::InsufficientPool));
    assert_eq!(p.get_mwj_balance(), 1);
    assert_eq!(p.get_withdrawn_plays(&key), 0);
    assert!(p.get_pending_settlement(&key).is_none());
}

#[test]
fn redeem_while_settlement_in_flight_is_indeterminate() {
    let (mut p, _host, alice) = platform_with_plays(100, 25);
    let key = "song1".to_string();
    assert_eq!(p.redeem_rewards(&alice, &key), Ok(2));
    assert_eq!(p.redeem_rewards(&alice, &key), Err(PlatformError::Indeterminate));
    // The original reservation is untouched.
    assert_eq!(p.get_mwj_balance(), 98);
    assert_eq!(p.get_pending_settlement(&key).expect("still reserved").pool_debit(), 2);
}

#[test]
fn storage_failure_rolls_back_and_restores_pool() {
    let (mut p, host, alice) = platform_with_plays(100, 25);
    let key = "song1".to_string();
    assert_eq!(p.redeem_rewards(&alice, &key), Ok(2));
    assert_eq!(p.get_mwj_balance(), 98);
    assert_eq!(p.add_storage_callback(&host, &key, false), Err(PlatformError::ExternalCallFailed));
    assert_eq!(p.get_mwj_balance(), 100);
    assert_eq!(p.get_withdrawn_plays(&key), 0);
    assert!(p.get_pending_settlement(&key).is_none());
    // The plays are redeemable again afterwards.
    assert_eq!(p.redeem_rewards(&alice, &key), Ok(2));
}

#[test]
fn mint_failure_rolls_back_and_restores_pool() {
    let (mut p, host, alice) = platform_with_plays(100, 25);
    let key = "song1".to_string();
    assert_eq!(p.redeem_rewards(&alice, &key), Ok(2));
    assert_eq!(p.add_storage_callback(&host, &key, true), Ok(()));
    assert_eq!(p.mint_lts_callback(&host, &key, false), Err(PlatformError::ExternalCallFailed));
    assert_eq!(p.get_mwj_balance(), 100);
    assert_eq!(p.get_withdrawn_plays(&key), 0);
    assert!(p.get_pending_settlement(&key).is_none());
}

#[test]
fn callbacks_require_platform_identity() {
    let (mut p, _host, alice) = platform_with_plays(100, 25);
    let key = "song1".to_string();
    assert_eq!(p.redeem_rewards(&alice, &key), Ok(2));
    assert_eq!(p.add_storage_callback(&alice, &key, true), Err(PlatformError::PermissionDenied));
    assert_eq!(p.mint_lts_callback(&alice, &key, true), Err(PlatformError::PermissionDenied));
    // The reservation is still awaiting its storage outcome.
    let pending = p.get_pending_settlement(&key).expect("reserved");
    assert_eq!(pending.stage(), SettlementStage::AwaitingStorage);
}

#[test]
fn callbacks_out_of_protocol_order_fail_not_found() {
    let (mut p, host, alice) = platform_with_plays(100, 25);
    let key = "song1".to_string();
    // No settlement in flight at all.
    assert_eq!(p.add_storage_callback(&host, &key, true), Err(PlatformError::NotFound));
    assert_eq!(p.mint_lts_callback(&host, &key, true), Err(PlatformError::NotFound));
    assert_eq!(p.redeem_rewards(&alice, &key), Ok(2));
    // The mint outcome cannot arrive before the storage outcome.
    assert_eq!(p.mint_lts_callback(&host, &key, true), Err(PlatformError::NotFound));
    assert_eq!(p.add_storage_callback(&host, &key, true), Ok(()));
    // Nor the storage outcome twice.
    assert_eq!(p.add_storage_callback(&host, &key, true), Err(PlatformError::NotFound));
}

#[test]
fn request_builders_follow_the_settlement_stage() {
    let (mut p, host, alice) = platform_with_plays(100, 25);
    let key = "song1".to_string();
    assert!(p.add_storage_deposit(&key).is_err());
    assert!(p.mint_lts(&key).is_err());
    assert_eq!(p.redeem_rewards(&alice, &key), Ok(2));
    assert!(p.add_storage_deposit(&key).is_ok());
    assert!(p.mint_lts(&key).is_err());
    assert_eq!(p.add_storage_callback(&host, &key, true), Ok(()));
    assert!(p.add_storage_deposit(&key).is_err());
    assert!(p.mint_lts(&key).is_ok());
}

#[test]
fn sub_quantum_remainder_is_redeemable_later() {
    let (mut p, host, alice) = platform_with_plays(100, 25);
    let key = "song1".to_string();
    assert_eq!(p.redeem_rewards(&alice, &key), Ok(2));
    assert_eq!(p.add_storage_callback(&host, &key, true), Ok(()));
    assert_eq!(p.mint_lts_callback(&host, &key, true), Ok(()));
    // Five unredeemed plays remain: below the quantum, nothing due.
    assert_eq!(p.redeem_rewards(&alice, &key), Ok(0));
    // Five more plays complete a quantum.
    assert_eq!(p.increment_plays(&host, &key, 5), Ok(()));
    assert_eq!(p.redeem_rewards(&alice, &key), Ok(1));
    assert_eq!(p.add_storage_callback(&host, &key, true), Ok(()));
    assert_eq!(p.mint_lts_callback(&host, &key, true), Ok(()));
    assert_eq!(p.get_withdrawn_plays(&key), 30);
    assert_eq!(p.get_mwj_balance(), 97);
}

#[test]
fn settlements_on_different_assets_are_independent() {
    let (mut p, host, alice) = platform_with_plays(100, 25);
    let bob = ident("bob");
    assert_eq!(p.mint_music_nft(&bob, "song2".to_string(), "meta".to_string(), 3), Ok(()));
    let key1 = "song1".to_string();
    let key2 = "song2".to_string();
    assert_eq!(p.increment_plays(&host, &key2, 40), Ok(()));
    assert_eq!(p.redeem_rewards(&alice, &key1), Ok(2));
    assert_eq!(p.redeem_rewards(&bob, &key2), Ok(4));
    assert_eq!(p.get_mwj_balance(), 94);
    // Rolling back one settlement leaves the other in flight.
    assert_eq!(p.add_storage_callback(&host, &key1, false), Err(PlatformError::ExternalCallFailed));
    assert_eq!(p.get_mwj_balance(), 96);
    assert!(p.get_pending_settlement(&key1).is_none());
    assert!(p.get_pending_settlement(&key2).is_some());
    assert_eq!(p.add_storage_callback(&host, &key2, true), Ok(()));
    assert_eq!(p.mint_lts_callback(&host, &key2, true), Ok(()));
    assert_eq!(p.get_withdrawn_plays(&key2), 40);
    assert_eq!(p.get_withdrawn_plays(&key1), 0);
}

use music_platform::Identity;
use music_platform::MusicPlatform;
use music_platform::PlatformError;

fn ident(name: &str) -> Identity {
    Identity::new(name.to_string())
}

fn platform_with_song(slots: u64) -> (MusicPlatform, Identity, Identity) {
    let host = ident("host");
    let alice = ident("alice");
    let mut p = MusicPlatform::new(host.clone(), 100);
    let r = p.mint_music_nft(&alice, "song1".to_string(), "first song".to_string(), slots);
    assert_eq!(r, Ok(()));
    (p, host, alice)
}

#[test]
fn create_asset_initializes_record() {
    let (p, _host, alice) = platform_with_song(5);
    let key = "song1".to_string();
    let nft = p.get_music_nft(&key).expect("registered");
    assert_eq!(nft.token_id().as_str(), "song1");
    assert_eq!(nft.owner_id(), &alice);
    assert_eq!(nft.metadata().as_str(), "first song");
    assert_eq!(nft.plays(), 0);
    assert_eq!(nft.withdrawn_plays(), 0);
    assert_eq!(nft.total_fractions(), 5);
    assert_eq!(nft.fractions_remaining(), 5);
    assert_eq!(nft.fractions().len(), 0);
    assert_eq!(p.get_owner(&key), Some(alice));
    assert_eq!(p.get_total_fractions(&key), 5);
}

#[test]
fn duplicate_asset_id_is_rejected() {
    let (mut p, _host, alice) = platform_with_song(5);
    let bob = ident("bob");
    let r = p.mint_music_nft(&bob, "song1".to_string(), "other".to_string(), 3);
    assert_eq!(r, Err(PlatformError::AlreadyExists));
    // The original record is untouched.
    assert_eq!(p.get_owner(&"song1".to_string()), Some(alice));
    assert_eq!(p.get_total_fractions(&"song1".to_string()), 5);
}

#[test]
fn unknown_asset_reads_return_defaults() {
    let (p, _host, _alice) = platform_with_song(5);
    let missing = "nope".to_string();
    assert!(p.get_music_nft(&missing).is_none());
    assert_eq!(p.get_owner(&missing), None);
    assert_eq!(p.get_total_fractions(&missing), 0);
    assert_eq!(p.get_fractions_remaining(&missing), 0);
    assert_eq!(p.get_plays(&missing), 0);
    assert_eq!(p.get_withdrawn_plays(&missing), 0);
    assert_eq!(p.get_fraction(&missing).len(), 0);
}

#[test]
fn mint_fraction_records_share_and_consumes_slot() {
    let (mut p, _host, alice) = platform_with_song(5);
    let key = "song1".to_string();
    let r = p.mint_fraction(&alice, &key, "f1".to_string(), 40);
    assert_eq!(r, Ok(()));
    let fractions = p.get_fraction(&key);
    assert_eq!(fractions.len(), 1);
    assert_eq!(fractions[0].fraction_id().as_str(), "f1");
    assert_eq!(fractions[0].owner_id(), &alice);
    assert_eq!(fractions[0].percentage(), 40);
    // Slot conservation: free slots plus minted fractions equal capacity.
    assert_eq!(p.get_fractions_remaining(&key) + fractions.len() as u64, 5);
}

#[test]
fn mint_fraction_on_unknown_asset_fails_not_found() {
    let (mut p, _host, alice) = platform_with_song(5);
    let r = p.mint_fraction(&alice, &"other".to_string(), "f1".to_string(), 10);
    assert_eq!(r, Err(PlatformError::NotFound));
}

#[test]
fn mint_fraction_by_non_owner_fails_permission_denied() {
    let (mut p, _host, _alice) = platform_with_song(5);
    let bob = ident("bob");
    let key = "song1".to_string();
    let r = p.mint_fraction(&bob, &key, "f1".to_string(), 10);
    assert_eq!(r, Err(PlatformError::PermissionDenied));
    assert_eq!(p.get_fraction(&key).len(), 0);
    assert_eq!(p.get_fractions_remaining(&key), 5);
}

#[test]
fn mint_fraction_with_percentage_over_100_fails_invalid_input() {
    let (mut p, _host, alice) = platform_with_song(5);
    let key = "song1".to_string();
    let r = p.mint_fraction(&alice, &key, "f1".to_string(), 101);
    assert_eq!(r, Err(PlatformError::InvalidInput));
    assert_eq!(p.get_fraction(&key).len(), 0);
}

#[test]
fn sixth_fraction_on_five_slots_fails_exhausted() {
    let (mut p, _host, alice) = platform_with_song(5);
    let key = "song1".to_string();
    for i in 0..5u32 {
        let r = p.mint_fraction(&alice, &key, format!("f{}", i), 20);
        assert_eq!(r, Ok(()));
    }
    assert_eq!(p.get_fractions_remaining(&key), 0);
    let r = p.mint_fraction(&alice, &key, "f5".to_string(), 20);
    assert_eq!(r, Err(PlatformError::Exhausted));
    // The fraction count stays five and the state is otherwise unchanged.
    assert_eq!(p.get_fraction(&key).len(), 5);
    assert_eq!(p.get_fractions_remaining(&key), 0);
    assert_eq!(p.get_total_fractions(&key), 5);
}

#[test]
fn increment_plays_requires_platform_identity() {
    let (mut p, host, alice) = platform_with_song(5);
    let key = "song1".to_string();
    let r = p.increment_plays(&alice, &key, 10);
    assert_eq!(r, Err(PlatformError::PermissionDenied));
    assert_eq!(p.get_plays(&key), 0);
    let r = p.increment_plays(&host, &key, 10);
    assert_eq!(r, Ok(()));
    assert_eq!(p.get_plays(&key), 10);
}

#[test]
fn increment_plays_on_unknown_asset_fails_not_found() {
    let (mut p, host, _alice) = platform_with_song(5);
    let r = p.increment_plays(&host, &"other".to_string(), 10);
    assert_eq!(r, Err(PlatformError::NotFound));
}

#[test]
fn increment_plays_saturates_at_counter_maximum() {
    let (mut p, host, _alice) = platform_with_song(5);
    let key = "song1".to_string();
    assert_eq!(p.increment_plays(&host, &key, u64::MAX - 3), Ok(()));
    assert_eq!(p.get_plays(&key), u64::MAX - 3);
    assert_eq!(p.increment_plays(&host, &key, 10), Ok(()));
    assert_eq!(p.get_plays(&key), u64::MAX);
}

#[test]
fn get_all_music_nft_lists_assets_in_creation_order() {
    let (mut p, _host, alice) = platform_with_song(5);
    let bob = ident("bob");
    assert_eq!(p.mint_music_nft(&bob, "song2".to_string(), "second".to_string(), 2), Ok(()));
    let all = p.get_all_music_nft();
    assert_eq!(all.len(), 2);
    assert_eq!(all[0].token_id().as_str(), "song1");
    assert_eq!(all[1].token_id().as_str(), "song2");
    assert_eq!(all[0].owner_id(), &alice);
    assert_eq!(all[1].owner_id(), &bob);
}

#[test]
fn get_user_music_nft_filters_by_owner() {
    let (mut p, _host, alice) = platform_with_song(5);
    let bob = ident("bob");
    assert_eq!(p.mint_music_nft(&bob, "song2".to_string(), "second".to_string(), 2), Ok(()));
    assert_eq!(p.mint_music_nft(&alice, "song3".to_string(), "third".to_string(), 1), Ok(()));
    let mine = p.get_user_music_nft(&alice);
    assert_eq!(mine.len(), 2);
    assert_eq!(mine[0].token_id().as_str(), "song1");
    assert_eq!(mine[1].token_id().as_str(), "song3");
    let theirs = p.get_user_music_nft(&bob);
    assert_eq!(theirs.len(), 1);
    assert_eq!(theirs[0].token_id().as_str(), "song2");
    assert_eq!(p.get_user_music_nft(&ident("carol")).len(), 0);
}

#[test]
fn repeated_reads_between_mutations_are_identical() {
    let (mut p, host, alice) = platform_with_song(5);
    let key = "song1".to_string();
    assert_eq!(p.mint_fraction(&alice, &key, "f1".to_string(), 10), Ok(()));
    let remaining_a = p.get_fractions_remaining(&key);
    let remaining_b = p.get_fractions_remaining(&key);
    assert_eq!(remaining_a, remaining_b);
    let nft_a = p.get_music_nft(&key).expect("registered");
    let nft_b = p.get_music_nft(&key).expect("registered");
    assert_eq!(nft_a.token_id(), nft_b.token_id());
    assert_eq!(nft_a.plays(), nft_b.plays());
    assert_eq!(nft_a.withdrawn_plays(), nft_b.withdrawn_plays());
    assert_eq!(nft_a.fractions_remaining(), nft_b.fractions_remaining());
    assert_eq!(nft_a.fractions().len(), nft_b.fractions().len());
    assert_eq!(p.increment_plays(&host, &key, 7), Ok(()));
    let plays_a = p.get_plays(&key);
    let plays_b = p.get_plays(&key);
    assert_eq!(plays_a, plays_b);
    assert_eq!(plays_a, 7);
}

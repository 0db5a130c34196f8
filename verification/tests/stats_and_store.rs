use gacha_core::{
    annotate, count_percentile, luck_metric, on_banner, rank_in, Banner, BannerTable, DbBanner,
    DbVerification, ItemRef, Pull, PullRecord, VerificationTable, WishTable,
};

fn record(id: i64, uid: i32, item: ItemRef, timestamp: i64, official: bool) -> PullRecord {
    PullRecord { id, uid, item, timestamp, official }
}

#[test]
fn percentile_of_four_player_population() {
    // Aggregate pull counts [10, 20, 30, 40]: the player with 30 ranks
    // third, so their percentile is 3/4 = 0.75.
    let population = vec![10u64, 20, 30, 40];
    let p = count_percentile(&population, 30);
    assert_eq!(p.rank, 3);
    assert_eq!(p.count, 4);
    assert_eq!(p.rank as f64 / p.count as f64, 0.75);
}

#[test]
fn rank_counts_values_at_most_the_players() {
    assert_eq!(rank_in(&vec![10u64, 20, 30, 40], 40), 4);
    assert_eq!(rank_in(&vec![10u64, 20, 30, 40], 9), 0);
    assert_eq!(rank_in(&vec![10u64, 20, 30, 40], 25), 2);
    assert_eq!(rank_in(&Vec::new(), 5), 0);
    assert_eq!(rank_in(&vec![7u64, 7, 7], 7), 3);
}

#[test]
fn luck_metric_averages_pulls_per_hit() {
    let pulls = vec![
        Pull { id: 1, item_id: 1, rarity: 3, timestamp: 1 },
        Pull { id: 2, item_id: 2, rarity: 5, timestamp: 2 },
        Pull { id: 3, item_id: 3, rarity: 3, timestamp: 3 },
        Pull { id: 4, item_id: 4, rarity: 3, timestamp: 4 },
        Pull { id: 5, item_id: 5, rarity: 5, timestamp: 5 },
    ];
    let (ann, _) = annotate(&pulls, &Vec::<Banner>::new(), false);
    // Hits at positions 2 and 5: costs 2 and 3 pulls.
    let (sum, hits) = luck_metric(&ann, 5).unwrap();
    assert_eq!((sum, hits), (5, 2));
    assert_eq!(sum as f64 / hits as f64, 2.5);
    assert!(luck_metric(&ann, 4).is_none());
    assert_eq!(
        gacha_core::luck_of_pulls(&pulls, &Vec::new(), false, 5),
        Some((5, 2))
    );
}

#[test]
fn table_keeps_unique_keys_in_order() {
    let mut t = WishTable::new();
    let batch = vec![
        record(30, 1, ItemRef::Character(7), 300, true),
        record(10, 1, ItemRef::Weapon(8), 100, true),
        record(20, 2, ItemRef::Character(9), 200, true),
        record(10, 1, ItemRef::Character(99), 999, true), // duplicate key: ignored
    ];
    t.set_all(&batch);
    assert_eq!(t.len(), 3);
    assert!(t.has_key(10, 1));
    assert!(!t.has_key(10, 2));

    let mine = t.get_by_uid(1);
    let ids: Vec<i64> = mine.iter().map(|r| r.id).collect();
    assert_eq!(ids, vec![10, 30]);
    // The first write wins: the duplicate never replaced the row.
    assert_eq!(mine[0].item, ItemRef::Weapon(8));
    assert_eq!(t.get_count_by_uid(2), 1);
    assert_eq!(t.get_count_by_uid(3), 0);
}

#[test]
fn bulk_upsert_is_idempotent() {
    let mut t = WishTable::new();
    let batch = vec![
        record(1, 5, ItemRef::Character(1), 10, true),
        record(2, 5, ItemRef::Weapon(2), 20, true),
    ];
    t.set_all(&batch);
    assert_eq!(t.len(), 2);
    t.set_all(&batch);
    assert_eq!(t.len(), 2);
}

#[test]
fn delete_unofficial_keeps_imported_rows() {
    let mut t = WishTable::new();
    t.set_all(&vec![
        record(1, 5, ItemRef::Character(1), 10, true),
        record(2, 5, ItemRef::Weapon(2), 20, false),
        record(3, 6, ItemRef::Weapon(3), 30, false),
    ]);
    t.delete_unofficial(5);
    assert_eq!(t.len(), 2);
    assert!(t.has_key(1, 5));
    assert!(!t.has_key(2, 5));
    // Another player's manual rows are untouched.
    assert!(t.has_key(3, 6));
}

#[test]
fn banner_catalog_upserts_by_id() {
    let mut t = BannerTable::new();
    t.set(DbBanner { id: 1, item: ItemRef::Character(77), start: 100, end: 200 });
    t.set(DbBanner { id: 2, item: ItemRef::Weapon(88), start: 150, end: 250 });
    // Re-writing banner 1 replaces its interval instead of adding a row.
    t.set(DbBanner { id: 1, item: ItemRef::Character(77), start: 120, end: 220 });
    assert_eq!(t.get_all().len(), 2);
    assert_eq!(t.get_by_id(1).unwrap().start, 120);
    assert!(t.get_by_id(9).is_none());

    let banners = t.to_banners();
    assert_eq!(banners.len(), 2);
    assert!(on_banner(&banners, 77, 130));
    assert!(!on_banner(&banners, 77, 100));
    assert!(on_banner(&banners, 88, 150));

    t.delete_by_id(1);
    assert_eq!(t.get_all().len(), 1);
    assert!(t.get_by_id(1).is_none());
    t.delete_by_id(42);
    assert_eq!(t.get_all().len(), 1);
}

#[test]
fn verification_upsert_replaces_by_uid() {
    let mut t = VerificationTable::new();
    t.set_verification(DbVerification {
        uid: 800000001,
        username: "alice".to_string(),
        otp: "111111".to_string(),
    });
    t.set_verification(DbVerification {
        uid: 800000002,
        username: "bob".to_string(),
        otp: "222222".to_string(),
    });
    t.set_verification(DbVerification {
        uid: 800000001,
        username: "carol".to_string(),
        otp: "333333".to_string(),
    });
    let all = t.get_verifications();
    assert_eq!(all.len(), 2);
    assert_eq!(all[0].uid, 800000001);
    assert_eq!(all[0].username, "carol");
    assert_eq!(all[0].otp, "333333");

    let bobs = t.get_verifications_by_username("bob");
    assert_eq!(bobs.len(), 1);
    assert_eq!(bobs[0].uid, 800000002);
    assert!(t.get_verifications_by_username("alice").is_empty());

    t.delete_verification_by_uid(800000001);
    assert_eq!(t.get_verifications().len(), 1);
    t.delete_verification_by_uid(12345);
    assert_eq!(t.get_verifications().len(), 1);
}

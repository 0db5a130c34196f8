use gacha_core::{
    annotate, curve_for, on_banner, probability_4, probability_5, track_category, Banner,
    GachaType, Pull, WinType,
};

fn pull(id: i64, item_id: i32, rarity: i32, timestamp: i64) -> Pull {
    Pull { id, item_id, rarity, timestamp }
}

#[test]
fn pity_counters_reset_on_hits() {
    let pulls = vec![
        pull(1, 10, 3, 100),
        pull(2, 11, 3, 200),
        pull(3, 12, 4, 300),
        pull(4, 13, 3, 400),
        pull(5, 14, 5, 500),
        pull(6, 15, 3, 600),
    ];
    let banners: Vec<Banner> = Vec::new();
    let (ann, state) = annotate(&pulls, &banners, false);
    assert_eq!(ann.len(), 6);

    let pulls_seen: Vec<usize> = ann.iter().map(|a| a.pull).collect();
    assert_eq!(pulls_seen, vec![1, 2, 3, 4, 5, 6]);

    let pull_4s: Vec<usize> = ann.iter().map(|a| a.pull_4).collect();
    assert_eq!(pull_4s, vec![1, 2, 3, 1, 2, 3]);

    let pull_5s: Vec<usize> = ann.iter().map(|a| a.pull_5).collect();
    assert_eq!(pull_5s, vec![1, 2, 3, 4, 5, 1]);

    // Counters after the pass: the four-star counter restarted after
    // the hit at position 3, the five-star counter after position 5.
    assert_eq!(state.pull, 6);
    assert_eq!(state.pull_4, 3);
    assert_eq!(state.pull_5, 1);
    assert!(!state.guarantee);
}

#[test]
fn counters_never_negative_and_never_skip() {
    let pulls = vec![
        pull(1, 10, 5, 100),
        pull(2, 11, 5, 200),
        pull(3, 12, 4, 300),
        pull(4, 13, 4, 400),
    ];
    let banners: Vec<Banner> = Vec::new();
    let (ann, _) = annotate(&pulls, &banners, false);
    for (i, a) in ann.iter().enumerate() {
        assert_eq!(a.pull, i + 1);
        assert!(a.pull_4 >= 1 && a.pull_4 <= i + 1);
        assert!(a.pull_5 >= 1 && a.pull_5 <= i + 1);
    }
}

#[test]
fn guarantee_alternation_no_double_loss() {
    // Item 77 is featured from t=1000 (inclusive) to t=2000
    // (exclusive); item 88 never is.
    let banners = vec![Banner { item_id: 77, start: 1000, end: 2000 }];
    let pulls = vec![
        pull(1, 88, 5, 1100), // off-banner five star: Loss
        pull(2, 10, 3, 1200),
        pull(3, 88, 5, 1300), // next five star is forced: Guarantee
        pull(4, 77, 5, 1400), // flag cleared, on banner: Win
        pull(5, 88, 5, 1500), // off banner again: Loss
        pull(6, 88, 5, 1600), // forced again: Guarantee
    ];
    let (ann, _) = annotate(&pulls, &banners, true);
    assert_eq!(ann[0].win, Some(WinType::Loss));
    assert_eq!(ann[1].win, None);
    assert_eq!(ann[2].win, Some(WinType::Guarantee));
    assert_eq!(ann[3].win, Some(WinType::Win));
    assert_eq!(ann[4].win, Some(WinType::Loss));
    assert_eq!(ann[5].win, Some(WinType::Guarantee));

    let classified: Vec<WinType> = ann.iter().filter_map(|a| a.win).collect();
    for w in classified.windows(2) {
        assert!(!(w[0] == WinType::Loss && w[1] == WinType::Loss));
    }
}

#[test]
fn unfeatured_categories_classify_nothing() {
    let banners = vec![Banner { item_id: 77, start: 0, end: i64::MAX }];
    let pulls = vec![pull(1, 77, 5, 100)];
    let (ann, state) = annotate(&pulls, &banners, false);
    assert_eq!(ann[0].win, None);
    assert!(!state.guarantee);
}

#[test]
fn banner_interval_start_inclusive_end_exclusive() {
    let banners = vec![Banner { item_id: 7, start: 1000, end: 2000 }];
    assert!(!on_banner(&banners, 7, 999));
    assert!(on_banner(&banners, 7, 1000));
    assert!(on_banner(&banners, 7, 1999));
    assert!(!on_banner(&banners, 7, 2000));
    assert!(!on_banner(&banners, 8, 1500));
}

#[test]
fn probability_curve_boundary_standard() {
    let c = curve_for(GachaType::Standard).unwrap();
    // Values are tenths of a percent.
    assert_eq!(probability_5(&c, 72), 6);
    assert_eq!(probability_5(&c, 73), 6 + 60);
    assert_eq!(probability_5(&c, 88), 6 + 60 * 16);
    assert_eq!(probability_5(&c, 89), 1000);
    assert_eq!(probability_5(&c, 120), 1000);
    assert_eq!(probability_5(&c, 0), 6);
    assert_eq!(probability_4(&c, 8), 51);
    assert_eq!(probability_4(&c, 9), 1000);
    // The same values in percent.
    assert_eq!(probability_5(&c, 72) as f64 / 10.0, 0.6);
    assert_eq!(probability_4(&c, 0) as f64 / 10.0, 5.1);
    assert_eq!(probability_5(&c, 89) as f64 / 10.0, 100.0);
}

#[test]
fn probability_curve_weapon() {
    let c = curve_for(GachaType::Weapon).unwrap();
    assert_eq!(probability_4(&c, 0), 66);
    assert_eq!(probability_5(&c, 64), 8);
    assert_eq!(probability_5(&c, 65), 8 + 70);
    assert_eq!(probability_5(&c, 78), 8 + 70 * 14);
    assert_eq!(probability_5(&c, 79), 1000);
    assert_eq!(probability_4(&c, 9), 1000);
}

#[test]
fn character_curve_matches_standard() {
    assert_eq!(curve_for(GachaType::Character), curve_for(GachaType::Standard));
    assert!(curve_for(GachaType::Beginner).is_none());
    assert!(curve_for(GachaType::Chronicled).is_none());
}

#[test]
fn track_category_summarizes() {
    let banners: Vec<Banner> = Vec::new();
    let pulls = vec![pull(1, 10, 3, 100), pull(2, 11, 4, 200)];
    let t = track_category(GachaType::Standard, &pulls, &banners);
    assert_eq!(t.pulls.len(), 2);
    assert_eq!(t.state.pull, 2);
    assert_eq!(t.state.pull_4, 0);
    assert_eq!(t.state.pull_5, 2);
    assert_eq!(t.max_pull_4, 10);
    assert_eq!(t.max_pull_5, 90);
    assert_eq!(t.probability_4, 51);
    assert_eq!(t.probability_5, 6);

    // The beginner pool publishes no curve.
    let b = track_category(GachaType::Beginner, &pulls, &banners);
    assert_eq!(b.max_pull_4, 0);
    assert_eq!(b.max_pull_5, 0);
    assert_eq!(b.probability_4, 0);
    assert_eq!(b.probability_5, 0);
}

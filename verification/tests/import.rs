use gacha_core::{
    import_category, probe_page, run_import, Catalog, CatalogRow, GachaType, ImportError,
    ImportJob, JobManager, Paginator, SourceData, SourceEntry, SourcePage, Status, WishStore,
    RETRY_LIMIT,
};

fn entry(id: &str, uid: &str, item_type: &str, name: &str, time: &str) -> SourceEntry {
    SourceEntry {
        id: id.to_string(),
        uid: uid.to_string(),
        item_type: item_type.to_string(),
        name: name.to_string(),
        time: time.to_string(),
    }
}

fn catalog() -> Catalog {
    Catalog {
        characters: vec![
            CatalogRow { name: "Amber".to_string(), id: 10000021 },
            CatalogRow { name: "Diluc".to_string(), id: 10000016 },
        ],
        weapons: vec![
            CatalogRow { name: "Rust".to_string(), id: 15502 },
            CatalogRow { name: "Amber".to_string(), id: 99999 },
        ],
    }
}

fn page(region: &str, entries: Vec<SourceEntry>) -> SourcePage {
    SourcePage { region: region.to_string(), entries }
}

fn three_record_page() -> SourcePage {
    page(
        "os_euro",
        vec![
            entry("1003", "800000001", "Character", "Diluc", "2024-01-03 10:00:00"),
            entry("1002", "800000001", "Weapon", "Rust", "2024-01-02 10:00:00"),
            entry("1001", "800000001", "Character", "Amber", "2024-01-01 10:00:00"),
        ],
    )
}

#[test]
fn import_and_job_end_to_end() {
    // Player 800000001, character category: one page of three records,
    // then the empty page that ends pagination.
    let mut job = ImportJob::new(800000001);
    assert!(matches!(job.status(), Status::Pending));
    let mut store = WishStore::new();
    let source = SourceData {
        beginner: Vec::new(),
        standard: Vec::new(),
        character: vec![three_record_page(), page("os_euro", Vec::new())],
        weapon: Vec::new(),
        chronicled: Vec::new(),
    };
    let r = run_import(&mut job, &mut store, &catalog(), &source);
    assert!(r.is_ok());
    assert!(matches!(job.status(), Status::Finished));
    assert_eq!(job.counter(GachaType::Character), 3);
    assert_eq!(job.counter(GachaType::Standard), 0);
    assert_eq!(store.table(GachaType::Character).len(), 3);
    assert_eq!(store.table(GachaType::Character).get_count_by_uid(800000001), 3);
    assert_eq!(store.table(GachaType::Standard).len(), 0);
}

#[test]
fn job_walks_its_states() {
    let mut job = ImportJob::new(42);
    assert_eq!(job.uid(), 42);
    assert!(matches!(job.status(), Status::Pending));
    job.start_category(GachaType::Beginner);
    assert!(matches!(job.status(), Status::Importing));
    assert_eq!(job.gacha_type(), GachaType::Beginner);
    job.add_new(GachaType::Beginner, 2);
    assert_eq!(job.counter(GachaType::Beginner), 2);
    job.begin_calculating();
    assert!(matches!(job.status(), Status::Calculating));
    job.finish();
    assert!(matches!(job.status(), Status::Finished));
    assert!(job.is_terminal());
}

#[test]
fn failed_job_carries_reason() {
    let mut job = ImportJob::new(43);
    job.fail("No data".to_string());
    match job.status() {
        Status::Failed(m) => assert_eq!(m, "No data"),
        _ => panic!("expected a failed job"),
    }
    assert!(job.is_terminal());
}

#[test]
fn importing_twice_stores_nothing_new() {
    let cat = catalog();
    let pages = vec![three_record_page()];
    let mut store = WishStore::new();
    let first = import_category(&mut store.character, &cat, &pages);
    assert_eq!(first, Ok(3));
    assert_eq!(store.character.len(), 3);
    let second = import_category(&mut store.character, &cat, &pages);
    assert_eq!(second, Ok(0));
    assert_eq!(store.character.len(), 3);
}

#[test]
fn dedup_skips_known_records_but_keeps_new_ones() {
    let cat = catalog();
    let mut store = WishStore::new();
    let r1 = import_category(
        &mut store.character,
        &cat,
        &vec![page("os_euro", vec![entry("1001", "800000001", "Character", "Amber", "2024-01-01 10:00:00")])],
    );
    assert_eq!(r1, Ok(1));
    let r2 = import_category(&mut store.character, &cat, &vec![three_record_page()]);
    assert_eq!(r2, Ok(2));
    assert_eq!(store.character.len(), 3);
}

#[test]
fn same_record_id_for_two_players_is_kept() {
    let cat = catalog();
    let mut store = WishStore::new();
    let pages = vec![page(
        "os_euro",
        vec![
            entry("1001", "800000001", "Character", "Amber", "2024-01-01 10:00:00"),
            entry("1001", "800000002", "Character", "Amber", "2024-01-01 10:00:00"),
        ],
    )];
    assert_eq!(import_category(&mut store.character, &cat, &pages), Ok(2));
    assert_eq!(store.character.get_count_by_uid(800000001), 1);
    assert_eq!(store.character.get_count_by_uid(800000002), 1);
}

#[test]
fn import_errors_abort_the_category() {
    let cat = catalog();
    let mut store = WishStore::new();

    let bad_id = vec![page("os_euro", vec![entry("x1", "800000001", "Character", "Amber", "2024-01-01 10:00:00")])];
    assert_eq!(import_category(&mut store.character, &cat, &bad_id), Err(ImportError::BadRecordId));

    let bad_uid = vec![page("os_euro", vec![entry("1001", "", "Character", "Amber", "2024-01-01 10:00:00")])];
    assert_eq!(import_category(&mut store.character, &cat, &bad_uid), Err(ImportError::BadPlayerId));

    let unknown = vec![page("os_euro", vec![entry("1001", "800000001", "Character", "Nobody", "2024-01-01 10:00:00")])];
    assert_eq!(import_category(&mut store.character, &cat, &unknown), Err(ImportError::UnknownItem));

    let bad_time = vec![page("os_euro", vec![entry("1001", "800000001", "Character", "Amber", "yesterday")])];
    assert_eq!(import_category(&mut store.character, &cat, &bad_time), Err(ImportError::BadTimestamp));

    // Nothing was persisted by any failing run.
    assert_eq!(store.character.len(), 0);
}

#[test]
fn failing_run_marks_job_failed() {
    let mut job = ImportJob::new(800000001);
    let mut store = WishStore::new();
    let source = SourceData {
        beginner: vec![page("os_euro", vec![entry("x", "y", "z", "w", "v")])],
        standard: Vec::new(),
        character: Vec::new(),
        weapon: Vec::new(),
        chronicled: Vec::new(),
    };
    let r = run_import(&mut job, &mut store, &catalog(), &source);
    assert_eq!(r, Err(ImportError::BadRecordId));
    match job.status() {
        Status::Failed(m) => assert_eq!(m, "invalid record id"),
        _ => panic!("expected a failed job"),
    }
}

#[test]
fn manager_is_single_flight() {
    let mut mgr = JobManager::new();
    assert!(mgr.request_import(800000001));
    assert_eq!(mgr.len(), 1);
    // A live job blocks a second request for the same player.
    assert!(!mgr.request_import(800000001));
    assert_eq!(mgr.len(), 1);
    // A different player gets a job of their own.
    assert!(mgr.request_import(800000002));
    assert_eq!(mgr.len(), 2);

    // Only terminal jobs may be replaced or reaped.
    assert!(!mgr.remove(800000001));
    let i = mgr.index_of(800000001).unwrap();
    mgr.job_mut(i).fail("boom".to_string());
    assert!(mgr.request_import(800000001));
    assert!(matches!(mgr.get(800000001).unwrap().status(), Status::Pending));
    assert!(!mgr.remove(800000001));
    let i = mgr.index_of(800000001).unwrap();
    let j = mgr.job_mut(i);
    j.start_category(GachaType::Beginner);
    j.begin_calculating();
    j.finish();
    assert!(mgr.remove(800000001));
    assert!(mgr.get(800000001).is_none());
    assert_eq!(mgr.len(), 1);
}

#[test]
fn paginator_cursor_and_retries() {
    let mut p = Paginator::new();
    assert_eq!(p.end_id(), "0");
    // The cursor follows the last entry of each non-empty page.
    assert!(p.on_page(&three_record_page()));
    assert_eq!(p.end_id(), "1001");
    // An empty page ends the category and keeps the cursor.
    assert!(!p.on_page(&page("os_euro", Vec::new())));
    assert_eq!(p.end_id(), "1001");

    // A malformed page is retried up to the bound, then given up.
    let mut failures = 0;
    while p.on_malformed() {
        failures += 1;
    }
    assert_eq!(failures, RETRY_LIMIT as i32);

    // A good page resets the retry budget.
    p.on_page(&three_record_page());
    assert!(p.on_malformed());
}

#[test]
fn category_codes_match_the_source_api() {
    let codes: Vec<u16> = GachaType::all().iter().map(|g| g.code()).collect();
    assert_eq!(codes, vec![100, 200, 301, 302, 500]);
    assert!(GachaType::Character.has_featured_banner());
    assert!(GachaType::Weapon.has_featured_banner());
    assert!(!GachaType::Standard.has_featured_banner());
    assert!(!GachaType::Beginner.has_featured_banner());
}

#[test]
fn empty_source_imports_nothing() {
    let cat = catalog();
    let mut store = WishStore::new();
    assert_eq!(import_category(&mut store.standard, &cat, &Vec::new()), Ok(0));
    assert_eq!(
        import_category(&mut store.standard, &cat, &vec![page("os_euro", Vec::new())]),
        Ok(0)
    );
    assert_eq!(store.standard.len(), 0);
}

#[test]
fn probe_finds_the_player_id() {
    assert_eq!(probe_page(&page("os_euro", Vec::new())), Ok(None));
    assert_eq!(probe_page(&three_record_page()), Ok(Some(800000001)));
    let bad = page("os_euro", vec![entry("1", "not-a-uid", "Character", "Amber", "t")]);
    assert_eq!(probe_page(&bad), Err(ImportError::BadPlayerId));
}

#[test]
fn character_catalog_is_consulted_before_weapons() {
    let cat = catalog();
    let mut store = WishStore::new();
    // "Amber" is in both catalogs; the character table wins, and the
    // explicit Weapon tag still decides the item class.
    let pages = vec![page(
        "os_euro",
        vec![entry("2001", "800000001", "Weapon", "Amber", "2024-01-01 10:00:00")],
    )];
    assert_eq!(import_category(&mut store.weapon, &cat, &pages), Ok(1));
    let rows = store.weapon.get_by_uid(800000001);
    assert_eq!(rows.len(), 1);
    assert_eq!(rows[0].item, gacha_core::ItemRef::Weapon(10000021));
}

use gacha_core::{
    auth_params_from_url, normalize_to_utc, operator_base, page_request_url, parse_i32_uid,
    parse_i64_id, parse_source_time, source_time_to_utc, str_eq, GachaType, Region,
};

#[test]
fn region_tags_map_to_offset_buckets() {
    assert_eq!(Region::from_tag("os_usa"), Region::NA);
    assert_eq!(Region::from_tag("os_eu"), Region::EU);
    assert_eq!(Region::from_tag("os_asia"), Region::Asia);
    assert_eq!(Region::from_tag("os_cht"), Region::CN);
    assert_eq!(Region::from_tag(""), Region::CN);
    assert_eq!(Region::NA.offset_hours(), -5);
    assert_eq!(Region::EU.offset_hours(), 1);
    assert_eq!(Region::Asia.offset_hours(), 8);
    assert_eq!(Region::CN.offset_hours(), 8);
}

#[test]
fn minus_five_bucket_normalizes_forward() {
    // Local midnight in the -5h bucket is 05:00 UTC of the same day:
    // 2024-01-01 00:00:00 UTC is epoch 1704067200.
    let t = source_time_to_utc("2024-01-01 00:00:00", Region::from_tag("os_usa")).unwrap();
    assert_eq!(t, 1704067200 + 5 * 3600);
}

#[test]
fn other_buckets_subtract_their_offset() {
    let base = 1704067200; // 2024-01-01 00:00:00 UTC
    let eu = source_time_to_utc("2024-01-01 00:00:00", Region::EU).unwrap();
    assert_eq!(eu, base - 3600);
    let asia = source_time_to_utc("2024-01-01 00:00:00", Region::Asia).unwrap();
    assert_eq!(asia, base - 8 * 3600);
    let naive = parse_source_time("2024-01-01 00:00:00").unwrap();
    assert_eq!(naive, base);
    assert_eq!(normalize_to_utc(naive, Region::CN), base - 8 * 3600);
}

#[test]
fn bad_timestamps_are_rejected() {
    assert!(parse_source_time("yesterday").is_err());
    assert!(parse_source_time("2024-13-01 00:00:00").is_err());
    assert!(parse_source_time("2024-01-01").is_err());
    assert!(parse_source_time("2024-02-30 00:00:00").is_err());
    assert!(parse_source_time("2024-02-29 00:00:00").is_ok());
}

#[test]
fn decimal_parsing_is_exact() {
    assert_eq!(parse_i64_id("0"), Some(0));
    assert_eq!(parse_i64_id("007"), Some(7));
    assert_eq!(parse_i64_id("1709801400000000000"), Some(1709801400000000000));
    assert_eq!(parse_i64_id("9223372036854775807"), Some(i64::MAX));
    assert_eq!(parse_i64_id("9223372036854775808"), None);
    assert_eq!(parse_i64_id(""), None);
    assert_eq!(parse_i64_id("12a"), None);
    assert_eq!(parse_i64_id("-5"), None);
    assert_eq!(parse_i32_uid("800000001"), Some(800000001));
    assert_eq!(parse_i32_uid("2147483648"), None);
}

#[test]
fn str_eq_compares_contents() {
    assert!(str_eq("Character", "Character"));
    assert!(!str_eq("Character", "Weapon"));
    assert!(!str_eq("", "x"));
    assert!(str_eq("", ""));
}

#[test]
fn auth_params_pass_through_in_order() {
    let url = "https://webstatic.example/hk4e?foo=1&authkey_ver=1&sign_type=2&bar=2&authkey=a%2Fb%3D";
    let params = auth_params_from_url(url).unwrap();
    let names: Vec<&str> = params.iter().map(|p| p.0.as_str()).collect();
    assert_eq!(names, vec!["authkey_ver", "sign_type", "authkey"]);
    // Percent-encoded values come back decoded.
    assert_eq!(params[2].1, "a/b=");
    assert!(auth_params_from_url("not a url").is_err());
}

#[test]
fn page_urls_carry_the_passthrough_and_cursor() {
    let params =
        auth_params_from_url("https://webstatic.example/hk4e?authkey=a%2Fb%3D&authkey_ver=1")
            .unwrap();
    let url = page_request_url(&params, GachaType::Character, "0").unwrap();
    assert!(url.starts_with(operator_base()));
    assert!(url.contains("authkey=a%2Fb%3D"));
    assert!(url.contains("authkey_ver=1"));
    assert!(url.contains("lang=en"));
    assert!(url.contains("size=20"));
    assert!(url.contains("gacha_type=301"));
    assert!(url.contains("end_id=0"));

    let next = page_request_url(&params, GachaType::Weapon, "1709801400000000000").unwrap();
    assert!(next.contains("gacha_type=302"));
    assert!(next.contains("end_id=1709801400000000000"));
}

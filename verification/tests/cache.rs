use awskit::cache::expire_at;
use awskit::cache::get_now;
use awskit::cache::HolderMap;
use chrono::TimeZone;
use chrono::Utc;

#[test]
fn test_holder_map_new() {
    let holder: HolderMap<String> = HolderMap::new(60);
    assert_eq!(holder.len(), 0);
}

#[test]
fn test_holder_map_get_cache_miss() {
    let mut holder: HolderMap<String> = HolderMap::new(60);

    let result = holder
        .get(
            1,
            |_key| Ok::<Option<String>, String>(Some("test_value".to_string())),
            None,
        )
        .unwrap();

    assert_eq!(result, Some("test_value".to_string()));
    assert_eq!(holder.len(), 1);
}

#[test]
fn test_holder_map_get_cache_hit() {
    let mut holder: HolderMap<String> = HolderMap::new(60);
    let now = 1_700_000_000_i64;

    let result1 = holder
        .get(
            1,
            |_key| Ok::<Option<String>, String>(Some("test_value".to_string())),
            Some(now),
        )
        .unwrap();
    assert_eq!(result1, Some("test_value".to_string()));

    let mut calls = 0;
    let result2 = holder
        .get(
            1,
            |_key| {
                calls += 1;
                Ok::<Option<String>, String>(Some("should_not_be_returned".to_string()))
            },
            Some(now + 30),
        )
        .unwrap();

    assert_eq!(result2, Some("test_value".to_string()));
    assert_eq!(calls, 0);
}

#[test]
fn test_holder_map_get_cache_expired() {
    let mut holder: HolderMap<String> = HolderMap::new(60);
    let now = 1_700_000_000_i64;

    let result1 = holder
        .get(
            1,
            |_key| Ok::<Option<String>, String>(Some("old_value".to_string())),
            Some(now),
        )
        .unwrap();
    assert_eq!(result1, Some("old_value".to_string()));

    let result2 = holder
        .get(
            1,
            |_key| Ok::<Option<String>, String>(Some("new_value".to_string())),
            Some(now + 61),
        )
        .unwrap();

    assert_eq!(result2, Some("new_value".to_string()));
}

#[test]
fn test_holder_map_expiry_boundary_is_strict() {
    let mut holder: HolderMap<String> = HolderMap::new(60);
    let now = 1_700_000_000_i64;

    holder
        .get(1, |_key| Ok::<Option<String>, String>(Some("v1".to_string())), Some(now))
        .unwrap();

    // One second before expiry: still a hit.
    let mut calls = 0;
    let hit = holder
        .get(
            1,
            |_key| {
                calls += 1;
                Ok::<Option<String>, String>(Some("v2".to_string()))
            },
            Some(now + 59),
        )
        .unwrap();
    assert_eq!(hit, Some("v1".to_string()));
    assert_eq!(calls, 0);

    // Exactly at expiry: already stale, the supplier runs.
    let refreshed = holder
        .get(
            1,
            |_key| {
                calls += 1;
                Ok::<Option<String>, String>(Some("v2".to_string()))
            },
            Some(now + 60),
        )
        .unwrap();
    assert_eq!(refreshed, Some("v2".to_string()));
    assert_eq!(calls, 1);
}

#[test]
fn test_holder_map_get_none_value() {
    let mut holder: HolderMap<String> = HolderMap::new(60);

    let result = holder
        .get(1, |_key| Ok::<Option<String>, String>(None), None)
        .unwrap();

    assert_eq!(result, None);
    assert_eq!(holder.len(), 0);
}

#[test]
fn test_none_result_is_not_cached() {
    let mut holder: HolderMap<String> = HolderMap::new(60);
    let now = 1_700_000_000_i64;

    let first = holder
        .get(1, |_key| Ok::<Option<String>, String>(None), Some(now))
        .unwrap();
    assert_eq!(first, None);

    let mut calls = 0;
    let second = holder
        .get(
            1,
            |_key| {
                calls += 1;
                Ok::<Option<String>, String>(Some("v".to_string()))
            },
            Some(now),
        )
        .unwrap();

    assert_eq!(second, Some("v".to_string()));
    assert_eq!(calls, 1);
}

#[test]
fn test_holder_map_get_error() {
    let mut holder: HolderMap<String> = HolderMap::new(60);

    let result = holder.get(
        1,
        |_key| Err::<Option<String>, String>("Test error".to_string()),
        None,
    );

    assert!(result.is_err());
    assert_eq!(holder.len(), 0);
}

#[test]
fn test_holder_map_multiple_keys() {
    let mut holder: HolderMap<String> = HolderMap::new(60);

    let result1 = holder
        .get(1, |_key| Ok::<Option<String>, String>(Some("value1".to_string())), None)
        .unwrap();
    assert_eq!(result1, Some("value1".to_string()));

    let result2 = holder
        .get(2, |_key| Ok::<Option<String>, String>(Some("value2".to_string())), None)
        .unwrap();
    assert_eq!(result2, Some("value2".to_string()));

    assert_eq!(holder.len(), 2);
}

#[test]
fn test_get_now_with_none() {
    let now = get_now(None);
    let expected = Utc::now().timestamp();

    // Allow 1 second difference due to execution time
    assert!((now - expected).abs() <= 1);
}

#[test]
fn test_get_now_with_some() {
    let specific_time = Utc.with_ymd_and_hms(2024, 1, 1, 12, 0, 0).unwrap().timestamp();
    let now = get_now(Some(specific_time));

    assert_eq!(now, specific_time);
}

#[test]
fn test_expire_at() {
    let specific_time = Utc.with_ymd_and_hms(2024, 1, 1, 12, 0, 0).unwrap().timestamp();
    let expire_time = expire_at(Some(specific_time), 3600);

    let expected = Utc.with_ymd_and_hms(2024, 1, 1, 13, 0, 0).unwrap().timestamp();
    assert_eq!(expire_time, expected);
}

#[test]
fn test_expire_at_with_none() {
    let expire_time = expire_at(None, 60);
    let expected = Utc::now().timestamp() + 60;

    // Allow 1 second difference due to execution time
    assert!((expire_time - expected).abs() <= 1);
}

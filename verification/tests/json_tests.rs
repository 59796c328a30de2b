use spacefetch::fetch::dataset_fields;
use spacefetch::json::JsonValue;
use spacefetch::json::extract_string;
use spacefetch::json::extract_timestamp;
use spacefetch::json::get_str;
use spacefetch::json::normalize_envelope;
use spacefetch::models::IssFetchLog;

fn record() -> JsonValue {
    JsonValue::Obj(vec![("a".to_string(), JsonValue::Int(1))])
}

fn assert_single_a1(items: &[JsonValue]) {
    assert_eq!(items.len(), 1);
    match &items[0] {
        JsonValue::Obj(fields) => {
            assert_eq!(fields.len(), 1);
            assert_eq!(fields[0].0, "a");
            assert!(matches!(fields[0].1, JsonValue::Int(1)));
        }
        other => panic!("expected an object, got {:?}", other),
    }
}

#[test]
fn envelope_bare_array() {
    let v = JsonValue::Arr(vec![record()]);
    assert_single_a1(&normalize_envelope(v));
}

#[test]
fn envelope_items_object() {
    let v = JsonValue::Obj(vec![("items".to_string(), JsonValue::Arr(vec![record()]))]);
    assert_single_a1(&normalize_envelope(v));
}

#[test]
fn envelope_results_object() {
    let v = JsonValue::Obj(vec![("results".to_string(), JsonValue::Arr(vec![record()]))]);
    assert_single_a1(&normalize_envelope(v));
}

#[test]
fn envelope_bare_object_wraps_single() {
    assert_single_a1(&normalize_envelope(record()));
}

#[test]
fn envelope_non_array_items_falls_through_to_results() {
    let v = JsonValue::Obj(vec![
        ("items".to_string(), JsonValue::Int(3)),
        ("results".to_string(), JsonValue::Arr(vec![record()])),
    ]);
    assert_single_a1(&normalize_envelope(v));
}

#[test]
fn envelope_scalar_wraps_single() {
    let items = normalize_envelope(JsonValue::Str("x".to_string()));
    assert_eq!(items.len(), 1);
    assert!(matches!(&items[0], JsonValue::Str(s) if s == "x"));
}

#[test]
fn extract_string_prefers_first_key_with_content() {
    let v = JsonValue::Obj(vec![
        ("title".to_string(), JsonValue::Str(String::new())),
        ("name".to_string(), JsonValue::Str("Apollo".to_string())),
    ]);
    let r = extract_string(&v, &["title", "name", "label"][..]);
    assert_eq!(r, Some("Apollo".to_string()));
}

#[test]
fn extract_string_renders_numbers() {
    let v = JsonValue::Obj(vec![("id".to_string(), JsonValue::Int(42))]);
    assert_eq!(extract_string(&v, &["dataset_id", "id"][..]), Some("42".to_string()));
    let w = JsonValue::Obj(vec![("id".to_string(), JsonValue::Num("1.5".to_string()))]);
    assert_eq!(extract_string(&w, &["id"][..]), Some("1.5".to_string()));
}

#[test]
fn extract_string_missing_keys() {
    let v = JsonValue::Obj(vec![("other".to_string(), JsonValue::Bool(true))]);
    assert_eq!(extract_string(&v, &["title", "name"][..]), None);
    assert_eq!(extract_string(&JsonValue::Null, &["title"][..]), None);
}

#[test]
fn extract_timestamp_parses_rfc3339() {
    let v = JsonValue::Obj(vec![(
        "updated".to_string(),
        JsonValue::Str("2024-01-02T03:04:05Z".to_string()),
    )]);
    let want = "2024-01-02T03:04:05Z"
        .parse::<chrono::DateTime<chrono::Utc>>()
        .unwrap()
        .timestamp();
    assert_eq!(extract_timestamp(&v, &["updated"][..]), Some(want));
}

#[test]
fn extract_timestamp_parses_naive_form() {
    let v = JsonValue::Obj(vec![(
        "modified".to_string(),
        JsonValue::Str("2024-01-02 03:04:05".to_string()),
    )]);
    let want = chrono::NaiveDateTime::parse_from_str("2024-01-02 03:04:05", "%Y-%m-%d %H:%M:%S")
        .unwrap()
        .and_utc()
        .timestamp();
    assert_eq!(extract_timestamp(&v, &["updated", "modified"][..]), Some(want));
}

#[test]
fn extract_timestamp_integer_epoch() {
    let v = JsonValue::Obj(vec![("timestamp".to_string(), JsonValue::Int(1700000000))]);
    assert_eq!(extract_timestamp(&v, &["timestamp"][..]), Some(1700000000));
}

#[test]
fn extract_timestamp_out_of_range_integer_ends_scan() {
    // An integer field ends the scan even when it is unrepresentable;
    // a later parseable key is not consulted.
    let v = JsonValue::Obj(vec![
        ("updated".to_string(), JsonValue::Int(i64::MAX)),
        (
            "modified".to_string(),
            JsonValue::Str("2024-01-02T03:04:05Z".to_string()),
        ),
    ]);
    assert_eq!(extract_timestamp(&v, &["updated", "modified"][..]), None);
}

#[test]
fn extract_timestamp_unparseable_string_continues() {
    let v = JsonValue::Obj(vec![
        ("updated".to_string(), JsonValue::Str("yesterday".to_string())),
        ("timestamp".to_string(), JsonValue::Int(5)),
    ]);
    assert_eq!(extract_timestamp(&v, &["updated", "timestamp"][..]), Some(5));
}

#[test]
fn dataset_fields_extracts_catalog_columns() {
    let item = JsonValue::Obj(vec![
        ("studyId".to_string(), JsonValue::Str("OSD-123".to_string())),
        ("name".to_string(), JsonValue::Str("Rodent Research".to_string())),
        ("organism".to_string(), JsonValue::Str("Mus musculus".to_string())),
        ("type".to_string(), JsonValue::Str("spaceflight".to_string())),
        ("timestamp".to_string(), JsonValue::Int(1700000000)),
    ]);
    let f = dataset_fields(&item);
    assert_eq!(f.dataset_id, Some("OSD-123".to_string()));
    assert_eq!(f.title, Some("Rodent Research".to_string()));
    assert_eq!(f.organism, Some("Mus musculus".to_string()));
    assert_eq!(f.study_type, Some("spaceflight".to_string()));
    assert_eq!(f.status, None);
    assert_eq!(f.updated_at, Some(1700000000));
}

#[test]
fn visibility_reads_payload_field() {
    let log = IssFetchLog {
        id: 1,
        fetched_at: 1700000000,
        source_url: "http://example.test".to_string(),
        payload: JsonValue::Obj(vec![(
            "visibility".to_string(),
            JsonValue::Str("daylight".to_string()),
        )]),
    };
    assert_eq!(log.visibility(), Some("daylight".to_string()));
    assert_eq!(get_str(&log.payload, "latitude"), None);
}

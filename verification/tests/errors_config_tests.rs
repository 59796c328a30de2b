use spacefetch::config::AppConfig;
use spacefetch::config::RawSettings;
use spacefetch::config::setting_u64;
use spacefetch::config::setting_u64_bounded;
use spacefetch::digits::i64_to_string;
use spacefetch::digits::parse_u64;
use spacefetch::digits::u64_to_string;
use spacefetch::errors::ApiError;
use spacefetch::errors::ApiResponse;
use spacefetch::errors::error_for_failure;
use spacefetch::fetch::Source;
use spacefetch::retry::ErrorKind;

#[test]
fn decimal_rendering() {
    assert_eq!(u64_to_string(0), "0");
    assert_eq!(u64_to_string(7), "7");
    assert_eq!(u64_to_string(12345), "12345");
    assert_eq!(u64_to_string(u64::MAX), "18446744073709551615");
    assert_eq!(i64_to_string(-42), "-42");
    assert_eq!(i64_to_string(0), "0");
    assert_eq!(i64_to_string(i64::MIN), "-9223372036854775808");
}

#[test]
fn decimal_parsing() {
    assert_eq!(parse_u64("0"), Some(0));
    assert_eq!(parse_u64("123"), Some(123));
    assert_eq!(parse_u64("18446744073709551615"), Some(u64::MAX));
    assert_eq!(parse_u64("18446744073709551616"), None);
    assert_eq!(parse_u64("999999999999999999999"), None);
    assert_eq!(parse_u64(""), None);
    assert_eq!(parse_u64("12a"), None);
    assert_eq!(parse_u64("-5"), None);
}

#[test]
fn error_constructors_carry_codes() {
    let e = ApiError::database("boom".to_string());
    assert_eq!(e.code, "DATABASE_ERROR");
    assert_eq!(e.message, "boom");
    assert_eq!(e.trace_id.len(), 36);

    let e = ApiError::upstream(503, "bad gateway".to_string());
    assert_eq!(e.code, "UPSTREAM_503");
    let e = ApiError::upstream(429, "slow down".to_string());
    assert_eq!(e.code, "UPSTREAM_429");

    assert_eq!(ApiError::internal("x".to_string()).code, "INTERNAL_ERROR");
    assert_eq!(ApiError::validation("x".to_string()).code, "VALIDATION_ERROR");
    assert_eq!(ApiError::not_found("x".to_string()).code, "NOT_FOUND");
}

#[test]
fn trace_ids_are_fresh() {
    let a = ApiError::internal("x".to_string());
    let b = ApiError::internal("x".to_string());
    assert_ne!(a.trace_id, b.trace_id);
}

#[test]
fn failure_kinds_map_to_codes() {
    let e = error_for_failure(&ErrorKind::UpstreamServerError, 502, "m".to_string());
    assert_eq!(e.code, "UPSTREAM_502");
    let e = error_for_failure(&ErrorKind::UpstreamRateLimited, 429, "m".to_string());
    assert_eq!(e.code, "UPSTREAM_429");
    let e = error_for_failure(&ErrorKind::Transport, 0, "m".to_string());
    assert_eq!(e.code, "UPSTREAM_500");
    let e = error_for_failure(&ErrorKind::Storage, 0, "m".to_string());
    assert_eq!(e.code, "DATABASE_ERROR");
}

#[test]
fn response_envelope_flags() {
    let ok: ApiResponse<i32> = ApiResponse::success(5);
    assert!(ok.ok);
    assert_eq!(ok.data, Some(5));
    assert!(ok.error.is_none());

    let err = ApiResponse::<i32>::error(ApiError::not_found("n".to_string()));
    assert!(!err.ok);
    assert!(err.data.is_none());
    assert_eq!(err.error.unwrap().code, "NOT_FOUND");
}

fn empty_settings(database_url: &str) -> RawSettings {
    RawSettings {
        database_url: database_url.to_string(),
        db_pool_size: None,
        port: None,
        nasa_api_url: None,
        nasa_api_key: None,
        where_iss_url: None,
        iss_every_seconds: None,
        osdr_every_seconds: None,
        apod_every_seconds: None,
        neo_every_seconds: None,
        donki_every_seconds: None,
        spacex_every_seconds: None,
    }
}

#[test]
fn config_defaults() {
    let c = AppConfig::from_settings(empty_settings("postgres://localhost/x"));
    assert_eq!(c.database_url, "postgres://localhost/x");
    assert_eq!(c.db_pool_size, 5);
    assert_eq!(c.port, 3000);
    assert_eq!(
        c.nasa_api_url,
        "https://visualization.osdr.nasa.gov/biodata/api/v2/datasets/?format=json"
    );
    assert_eq!(c.nasa_api_key, "");
    assert_eq!(c.where_iss_url, "https://api.wheretheiss.at/v1/satellites/25544");
    assert_eq!(c.iss_every_seconds, 120);
    assert_eq!(c.osdr_every_seconds, 600);
    assert_eq!(c.apod_every_seconds, 43200);
    assert_eq!(c.neo_every_seconds, 7200);
    assert_eq!(c.donki_every_seconds, 3600);
    assert_eq!(c.spacex_every_seconds, 3600);
}

#[test]
fn config_parses_and_bounds_settings() {
    let mut raw = empty_settings("db");
    raw.port = Some("8080".to_string());
    raw.db_pool_size = Some("12".to_string());
    raw.iss_every_seconds = Some("30".to_string());
    let c = AppConfig::from_settings(raw);
    assert_eq!(c.port, 8080);
    assert_eq!(c.db_pool_size, 12);
    assert_eq!(c.iss_every_seconds, 30);

    let mut raw = empty_settings("db");
    raw.port = Some("99999".to_string());
    raw.db_pool_size = Some("abc".to_string());
    let c = AppConfig::from_settings(raw);
    assert_eq!(c.port, 3000);
    assert_eq!(c.db_pool_size, 5);
}

#[test]
fn setting_parsers() {
    assert_eq!(setting_u64(Some("42"), 7), 42);
    assert_eq!(setting_u64(Some("x42"), 7), 7);
    assert_eq!(setting_u64(None, 7), 7);
    assert_eq!(setting_u64_bounded(Some("300"), 255, 10), 10);
    assert_eq!(setting_u64_bounded(Some("200"), 255, 10), 200);
}

#[test]
fn interval_lookup_per_source() {
    let mut raw = empty_settings("db");
    raw.donki_every_seconds = Some("111".to_string());
    raw.spacex_every_seconds = Some("222".to_string());
    let c = AppConfig::from_settings(raw);
    assert_eq!(c.interval_for(&Source::Iss), 120);
    assert_eq!(c.interval_for(&Source::Osdr), 600);
    assert_eq!(c.interval_for(&Source::Apod), 43200);
    assert_eq!(c.interval_for(&Source::Neo), 7200);
    assert_eq!(c.interval_for(&Source::Flr), 111);
    assert_eq!(c.interval_for(&Source::Cme), 111);
    assert_eq!(c.interval_for(&Source::Spacex), 222);
}

use spacefetch::dates::Date;
use spacefetch::dates::date_from_ymd;
use spacefetch::dates::date_minus_days;
use spacefetch::dates::format_date;
use spacefetch::dates::last_days_range;
use spacefetch::dates::month_length;
use spacefetch::dates::parse_naive_datetime;
use spacefetch::dates::parse_utc_datetime;
use spacefetch::dates::today_utc;
use spacefetch::fetch::FetchRequest;
use spacefetch::fetch::Source;
use spacefetch::fetch::apod_request;
use spacefetch::fetch::cme_request;
use spacefetch::fetch::flr_request;
use spacefetch::fetch::iss_request;
use spacefetch::fetch::neo_request;
use spacefetch::fetch::osdr_request;
use spacefetch::fetch::spacex_request;
use spacefetch::fetch::timeout_secs;

fn d(year: u16, month: u8, day: u8) -> Date {
    Date { year, month, day }
}

fn params(r: &FetchRequest) -> Vec<(String, String)> {
    r.params.clone()
}

#[test]
fn format_date_pads_fields() {
    assert_eq!(format_date(&d(2024, 3, 7)), "2024-03-07");
    assert_eq!(format_date(&d(987, 11, 30)), "0987-11-30");
}

#[test]
fn month_lengths_follow_leap_years() {
    assert_eq!(month_length(2024, 2), 29);
    assert_eq!(month_length(2023, 2), 28);
    assert_eq!(month_length(1900, 2), 28);
    assert_eq!(month_length(2000, 2), 29);
    assert_eq!(month_length(2024, 4), 30);
    assert_eq!(month_length(2024, 12), 31);
}

#[test]
fn date_validation() {
    assert_eq!(date_from_ymd(2024, 2, 29), Some(d(2024, 2, 29)));
    assert_eq!(date_from_ymd(2023, 2, 29), None);
    assert_eq!(date_from_ymd(2024, 13, 1), None);
    assert_eq!(date_from_ymd(0, 1, 1), None);
    assert_eq!(date_from_ymd(10000, 1, 1), None);
}

#[test]
fn date_subtraction_crosses_boundaries() {
    // Leap-year February.
    assert_eq!(date_minus_days(&d(2024, 3, 1), 2), Some(d(2024, 2, 28)));
    assert_eq!(date_minus_days(&d(2023, 3, 1), 2), Some(d(2023, 2, 27)));
    // Year boundary.
    assert_eq!(date_minus_days(&d(2024, 1, 1), 1), Some(d(2023, 12, 31)));
    // No movement.
    assert_eq!(date_minus_days(&d(2024, 6, 15), 0), Some(d(2024, 6, 15)));
    // Falls off the supported era.
    assert_eq!(date_minus_days(&d(1, 1, 1), 1), None);
}

#[test]
fn last_days_range_formats_both_ends() {
    let (from, to) = last_days_range(&d(2026, 1, 10), 5).unwrap();
    assert_eq!(from, "2026-01-05");
    assert_eq!(to, "2026-01-10");
}

#[test]
fn today_is_a_valid_date() {
    let t = today_utc().expect("the clock is within the supported era");
    assert!((1..=12).contains(&t.month));
    assert!((1..=31).contains(&t.day));
}

#[test]
fn datetime_parsers_agree_with_chrono() {
    let want = "2021-07-06T05:04:03Z"
        .parse::<chrono::DateTime<chrono::Utc>>()
        .unwrap()
        .timestamp();
    assert_eq!(parse_utc_datetime("2021-07-06T05:04:03Z"), Some(want));
    assert_eq!(parse_utc_datetime("not a date"), None);

    let want = chrono::NaiveDateTime::parse_from_str("2021-07-06 05:04:03", "%Y-%m-%d %H:%M:%S")
        .unwrap()
        .and_utc()
        .timestamp();
    assert_eq!(parse_naive_datetime("2021-07-06 05:04:03"), Some(want));
    assert_eq!(parse_naive_datetime("2021-07-06T05:04:03Z"), None);
}

#[test]
fn apod_request_shape() {
    let r = apod_request("secret");
    assert_eq!(r.url, "https://api.nasa.gov/planetary/apod");
    assert_eq!(
        params(&r),
        vec![
            ("thumbs".to_string(), "true".to_string()),
            ("api_key".to_string(), "secret".to_string()),
        ]
    );
    // No key configured: no api_key parameter.
    let r = apod_request("");
    assert_eq!(params(&r), vec![("thumbs".to_string(), "true".to_string())]);
}

#[test]
fn neo_request_covers_last_two_days() {
    let r = neo_request("k", &d(2026, 1, 10)).unwrap();
    assert_eq!(r.url, "https://api.nasa.gov/neo/rest/v1/feed");
    assert_eq!(
        params(&r),
        vec![
            ("start_date".to_string(), "2026-01-08".to_string()),
            ("end_date".to_string(), "2026-01-10".to_string()),
            ("api_key".to_string(), "k".to_string()),
        ]
    );
}

#[test]
fn donki_requests_cover_last_five_days() {
    let r = flr_request("", &d(2026, 1, 10)).unwrap();
    assert_eq!(r.url, "https://api.nasa.gov/DONKI/FLR");
    assert_eq!(
        params(&r),
        vec![
            ("startDate".to_string(), "2026-01-05".to_string()),
            ("endDate".to_string(), "2026-01-10".to_string()),
        ]
    );
    let r = cme_request("", &d(2026, 1, 10)).unwrap();
    assert_eq!(r.url, "https://api.nasa.gov/DONKI/CME");
}

#[test]
fn plain_requests() {
    let r = iss_request("https://api.wheretheiss.at/v1/satellites/25544");
    assert_eq!(r.url, "https://api.wheretheiss.at/v1/satellites/25544");
    assert!(r.params.is_empty());

    let r = osdr_request("https://example.test/osdr", "k");
    assert_eq!(r.url, "https://example.test/osdr");
    assert_eq!(params(&r), vec![("api_key".to_string(), "k".to_string())]);
    let r = osdr_request("https://example.test/osdr", "");
    assert!(r.params.is_empty());

    let r = spacex_request();
    assert_eq!(r.url, "https://api.spacexdata.com/v4/launches/next");
    assert!(r.params.is_empty());
}

#[test]
fn per_source_timeouts() {
    assert_eq!(timeout_secs(&Source::Iss), 20);
    assert_eq!(timeout_secs(&Source::Apod), 30);
    assert_eq!(timeout_secs(&Source::Osdr), 30);
}

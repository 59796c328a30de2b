use spacefetch::api::ListQuery;
use spacefetch::api::RefreshQuery;
use spacefetch::api::TrendQuery;
use spacefetch::api::clamp_hours;
use spacefetch::api::clamp_limit;
use spacefetch::api::clamp_offset;
use spacefetch::api::default_hours;
use spacefetch::api::default_limit;
use spacefetch::api::resolve_refresh;
use spacefetch::fetch::Source;
use spacefetch::fetch::collect_done;
use spacefetch::text::split_commas_trimmed;
use spacefetch::text::str_eq;
use spacefetch::text::trim;

#[test]
fn str_eq_cases() {
    assert!(str_eq("apod", "apod"));
    assert!(!str_eq("apod", "apo"));
    assert!(!str_eq("apod", "neo"));
    assert!(str_eq("", ""));
    assert!(!str_eq("", "x"));
}

#[test]
fn trim_removes_surrounding_whitespace() {
    assert_eq!(trim("  apod \t"), "apod");
    assert_eq!(trim("a b"), "a b");
    assert_eq!(trim("   "), "");
    assert_eq!(trim(""), "");
    assert_eq!(trim("\r\nneo\n"), "neo");
}

#[test]
fn split_commas_trims_each_piece() {
    assert_eq!(
        split_commas_trimmed("apod, neo ,flr"),
        vec!["apod".to_string(), "neo".to_string(), "flr".to_string()]
    );
    assert_eq!(split_commas_trimmed("apod"), vec!["apod".to_string()]);
    assert_eq!(split_commas_trimmed(""), vec![String::new()]);
    assert_eq!(
        split_commas_trimmed("a,,b"),
        vec!["a".to_string(), String::new(), "b".to_string()]
    );
}

#[test]
fn resolve_refresh_with_names() {
    let q = RefreshQuery { sources: Some("apod, neo".to_string()) };
    assert_eq!(resolve_refresh(&q), vec![Source::Apod, Source::Neo]);
}

#[test]
fn resolve_refresh_skips_unknown_names() {
    let q = RefreshQuery { sources: Some("bogus, cme,spacex".to_string()) };
    assert_eq!(resolve_refresh(&q), vec![Source::Cme, Source::Spacex]);
}

#[test]
fn resolve_refresh_skips_non_refreshable_sources() {
    // The position and catalog feeds have refresh surfaces of their
    // own and are not part of the bulk refresh.
    let q = RefreshQuery { sources: Some("iss,osdr,apod".to_string()) };
    assert_eq!(resolve_refresh(&q), vec![Source::Apod]);
}

#[test]
fn resolve_refresh_defaults_to_all() {
    let q = RefreshQuery { sources: None };
    assert_eq!(
        resolve_refresh(&q),
        vec![Source::Apod, Source::Neo, Source::Flr, Source::Cme, Source::Spacex]
    );
}

#[test]
fn source_names_round_trip() {
    let all = [
        Source::Iss,
        Source::Osdr,
        Source::Apod,
        Source::Neo,
        Source::Flr,
        Source::Cme,
        Source::Spacex,
    ];
    for s in all {
        assert_eq!(Source::parse(s.name()), Some(s));
    }
    assert_eq!(Source::parse("moon"), None);
}

#[test]
fn collect_done_keeps_successful_names_in_order() {
    let plan = vec![Source::Apod, Source::Neo, Source::Cme];
    let ok = vec![true, false, true];
    assert_eq!(collect_done(&plan, &ok), vec!["apod".to_string(), "cme".to_string()]);
}

#[test]
fn clamps_and_defaults() {
    assert_eq!(default_hours(), 24);
    assert_eq!(default_limit(), 20);
    assert_eq!(clamp_hours(0), 1);
    assert_eq!(clamp_hours(24), 24);
    assert_eq!(clamp_hours(169), 168);
    assert_eq!(clamp_limit(0), 1);
    assert_eq!(clamp_limit(50), 50);
    assert_eq!(clamp_limit(1000), 100);
    assert_eq!(clamp_offset(-3), 0);
    assert_eq!(clamp_offset(7), 7);
}

#[test]
fn query_types_clamp_their_fields() {
    assert_eq!(TrendQuery { hours: 500 }.clamped_hours(), 168);
    assert_eq!(TrendQuery { hours: 12 }.clamped_hours(), 12);
    let q = ListQuery { limit: -4, offset: -1, search: None };
    assert_eq!(q.clamped_limit(), 1);
    assert_eq!(q.clamped_offset(), 0);
}

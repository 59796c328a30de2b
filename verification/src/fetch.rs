//! Per-source fetch policy.
//!
//! Each upstream source has a URL, query parameters (an API key only
//! when one is configured, date ranges computed as "today minus N
//! days" for window-based feeds), a per-call timeout, and a name used
//! in refresh requests and storage rows. Fetchers do not retry or
//! rate-limit themselves; every request they build is executed through
//! the retry policy behind the shared rate limiter.

use crate::dates::Date;
use crate::dates::date_back;
use crate::dates::date_str;
use crate::dates::date_minus_days;
use crate::dates::format_date;
use crate::json::JsonValue;
use crate::json::extract_string_spec;
use crate::json::extract_timestamp_spec;
use crate::json::extract_string;
use crate::json::extract_timestamp;
use crate::json::strs_view;
use crate::retry::ErrorKind;
use crate::text::str_eq;
use vstd::prelude::*;

verus! {

/// One external upstream feed.
#[derive(Clone, Copy, Debug, PartialEq, Eq, Structural)]
pub enum Source {
    /// Satellite position feed.
    Iss,
    /// Biological-dataset catalog.
    Osdr,
    /// Astronomy picture of the day.
    Apod,
    /// Near-earth-object feed.
    Neo,
    /// Solar-flare feed.
    Flr,
    /// Coronal-mass-ejection feed.
    Cme,
    /// Launch feed.
    Spacex,
}

/// The name a source goes by in refresh requests and storage rows.
pub open spec fn source_name(s: Source) -> Seq<char> {
    match s {
        Source::Iss => "iss"@,
        Source::Osdr => "osdr"@,
        Source::Apod => "apod"@,
        Source::Neo => "neo"@,
        Source::Flr => "flr"@,
        Source::Cme => "cme"@,
        Source::Spacex => "spacex"@,
    }
}

/// The source a name denotes, if any.
pub open spec fn source_of_name(n: Seq<char>) -> Option<Source> {
    if n == "iss"@ {
        Some(Source::Iss)
    } else if n == "osdr"@ {
        Some(Source::Osdr)
    } else if n == "apod"@ {
        Some(Source::Apod)
    } else if n == "neo"@ {
        Some(Source::Neo)
    } else if n == "flr"@ {
        Some(Source::Flr)
    } else if n == "cme"@ {
        Some(Source::Cme)
    } else if n == "spacex"@ {
        Some(Source::Spacex)
    } else {
        None
    }
}

impl Source {
    pub fn name(&self) -> (r: &'static str)
        ensures
            r@ == source_name(*self),
    {
        match self {
            Source::Iss => "iss",
            Source::Osdr => "osdr",
            Source::Apod => "apod",
            Source::Neo => "neo",
            Source::Flr => "flr",
            Source::Cme => "cme",
            Source::Spacex => "spacex",
        }
    }

    pub fn parse(s: &str) -> (r: Option<Source>)
        ensures
            r == source_of_name(s@),
    {
        if str_eq(s, "iss") {
            Some(Source::Iss)
        } else if str_eq(s, "osdr") {
            Some(Source::Osdr)
        } else if str_eq(s, "apod") {
            Some(Source::Apod)
        } else if str_eq(s, "neo") {
            Some(Source::Neo)
        } else if str_eq(s, "flr") {
            Some(Source::Flr)
        } else if str_eq(s, "cme") {
            Some(Source::Cme)
        } else if str_eq(s, "spacex") {
            Some(Source::Spacex)
        } else {
            None
        }
    }
}

/// The per-call timeout for a source: the high-frequency position feed
/// gets a shorter deadline than the bulk and catalog sources.
pub open spec fn timeout_of(s: Source) -> u64 {
    if s == Source::Iss {
        20
    } else {
        30
    }
}

pub fn timeout_secs(source: &Source) -> (t: u64)
    ensures
        t == timeout_of(*source),
{
    match source {
        Source::Iss => 20,
        _ => 30,
    }
}

/// One prepared outbound request: URL and query parameters in order.
/// Immutable; a fresh one is built per attempt sequence.
pub struct FetchRequest {
    pub url: String,
    pub params: Vec<(String, String)>,
}

/// The view of a parameter list.
pub open spec fn params_view(params: Seq<(String, String)>) -> Seq<(Seq<char>, Seq<char>)> {
    Seq::new(params.len(), |i: int| (params[i].0@, params[i].1@))
}

/// The `api_key` parameter, present exactly when a key is configured.
pub open spec fn key_param(api_key: Seq<char>) -> Seq<(Seq<char>, Seq<char>)> {
    if api_key.len() > 0 {
        seq![("api_key"@, api_key)]
    } else {
        Seq::<(Seq<char>, Seq<char>)>::empty()
    }
}

fn push_key_param(params: &mut Vec<(String, String)>, api_key: &str)
    ensures
        params_view(final(params)@) =~= params_view(old(params)@) + key_param(api_key@),
{
    proof {
        reveal_strlit("api_key");
    }
    if api_key.unicode_len() > 0 {
        params.push((String::from_str("api_key"), api_key.to_owned()));
    }
    proof {
        assert(params_view(params@) =~= params_view(old(params)@) + key_param(api_key@));
    }
}

/// The request for the picture-of-the-day feed: thumbnails on, API key
/// only when configured.
pub fn apod_request(api_key: &str) -> (r: FetchRequest)
    ensures
        r.url@ == "https://api.nasa.gov/planetary/apod"@,
        params_view(r.params@) == seq![("thumbs"@, "true"@)] + key_param(api_key@),
{
    proof {
        reveal_strlit("thumbs");
        reveal_strlit("true");
    }
    let mut params: Vec<(String, String)> = Vec::new();
    params.push((String::from_str("thumbs"), String::from_str("true")));
    proof {
        assert(params_view(params@) =~= seq![("thumbs"@, "true"@)]);
    }
    push_key_param(&mut params, api_key);
    FetchRequest { url: String::from_str("https://api.nasa.gov/planetary/apod"), params }
}

/// The request for the near-earth-object feed: the last two days as an
/// explicit date range, API key only when configured. `None` only if
/// the calendar cannot step back from `today`.
pub fn neo_request(api_key: &str, today: &Date) -> (r: Option<FetchRequest>)
    requires
        today.wf(),
    ensures
        (r is Some) == (date_back(*today, 2) is Some),
        r matches Some(q) ==> (date_back(*today, 2) matches Some(start) && q.url@
            == "https://api.nasa.gov/neo/rest/v1/feed"@ && params_view(q.params@) == seq![
            ("start_date"@, date_str(start)),
            ("end_date"@, date_str(*today)),
        ] + key_param(api_key@)),
{
    proof {
        reveal_strlit("start_date");
        reveal_strlit("end_date");
    }
    let start = match date_minus_days(today, 2) {
        Some(d) => d,
        None => {
            return None;
        },
    };
    let mut params: Vec<(String, String)> = Vec::new();
    params.push((String::from_str("start_date"), format_date(&start)));
    params.push((String::from_str("end_date"), format_date(today)));
    proof {
        assert(params_view(params@) =~= seq![
            ("start_date"@, date_str(date_back(*today, 2).unwrap())),
            ("end_date"@, date_str(*today)),
        ]);
    }
    push_key_param(&mut params, api_key);
    Some(FetchRequest { url: String::from_str("https://api.nasa.gov/neo/rest/v1/feed"), params })
}

/// A request for one of the two solar-event feeds: the last five days
/// as an explicit date range, API key only when configured.
fn donki_request(url: String, api_key: &str, today: &Date) -> (r: Option<FetchRequest>)
    requires
        today.wf(),
    ensures
        (r is Some) == (date_back(*today, 5) is Some),
        r matches Some(q) ==> (date_back(*today, 5) matches Some(start) && q.url == url
            && params_view(q.params@) == seq![
            ("startDate"@, date_str(start)),
            ("endDate"@, date_str(*today)),
        ] + key_param(api_key@)),
{
    proof {
        reveal_strlit("startDate");
        reveal_strlit("endDate");
    }
    let start = match date_minus_days(today, 5) {
        Some(d) => d,
        None => {
            return None;
        },
    };
    let mut params: Vec<(String, String)> = Vec::new();
    params.push((String::from_str("startDate"), format_date(&start)));
    params.push((String::from_str("endDate"), format_date(today)));
    proof {
        assert(params_view(params@) =~= seq![
            ("startDate"@, date_str(date_back(*today, 5).unwrap())),
            ("endDate"@, date_str(*today)),
        ]);
    }
    push_key_param(&mut params, api_key);
    Some(FetchRequest { url, params })
}

/// The request for the solar-flare feed.
pub fn flr_request(api_key: &str, today: &Date) -> (r: Option<FetchRequest>)
    requires
        today.wf(),
    ensures
        (r is Some) == (date_back(*today, 5) is Some),
        r matches Some(q) ==> (date_back(*today, 5) matches Some(start) && q.url@
            == "https://api.nasa.gov/DONKI/FLR"@ && params_view(q.params@) == seq![
            ("startDate"@, date_str(start)),
            ("endDate"@, date_str(*today)),
        ] + key_param(api_key@)),
{
    donki_request(String::from_str("https://api.nasa.gov/DONKI/FLR"), api_key, today)
}

/// The request for the coronal-mass-ejection feed.
pub fn cme_request(api_key: &str, today: &Date) -> (r: Option<FetchRequest>)
    requires
        today.wf(),
    ensures
        (r is Some) == (date_back(*today, 5) is Some),
        r matches Some(q) ==> (date_back(*today, 5) matches Some(start) && q.url@
            == "https://api.nasa.gov/DONKI/CME"@ && params_view(q.params@) == seq![
            ("startDate"@, date_str(start)),
            ("endDate"@, date_str(*today)),
        ] + key_param(api_key@)),
{
    donki_request(String::from_str("https://api.nasa.gov/DONKI/CME"), api_key, today)
}

/// The request for the launch feed: a fixed URL, no parameters.
pub fn spacex_request() -> (r: FetchRequest)
    ensures
        r.url@ == "https://api.spacexdata.com/v4/launches/next"@,
        params_view(r.params@) == Seq::<(Seq<char>, Seq<char>)>::empty(),
{
    let params: Vec<(String, String)> = Vec::new();
    proof {
        assert(params_view(params@) =~= Seq::<(Seq<char>, Seq<char>)>::empty());
    }
    FetchRequest { url: String::from_str("https://api.spacexdata.com/v4/launches/next"), params }
}

/// The request for the position feed: the configured URL, no
/// parameters.
pub fn iss_request(iss_url: &str) -> (r: FetchRequest)
    ensures
        r.url@ == iss_url@,
        params_view(r.params@) == Seq::<(Seq<char>, Seq<char>)>::empty(),
{
    let params: Vec<(String, String)> = Vec::new();
    proof {
        assert(params_view(params@) =~= Seq::<(Seq<char>, Seq<char>)>::empty());
    }
    FetchRequest { url: iss_url.to_owned(), params }
}

/// The request for the dataset catalog: the configured URL, API key
/// only when configured.
pub fn osdr_request(osdr_url: &str, api_key: &str) -> (r: FetchRequest)
    ensures
        r.url@ == osdr_url@,
        params_view(r.params@) == key_param(api_key@),
{
    let mut params: Vec<(String, String)> = Vec::new();
    proof {
        assert(params_view(params@) =~= Seq::<(Seq<char>, Seq<char>)>::empty());
    }
    push_key_param(&mut params, api_key);
    FetchRequest { url: osdr_url.to_owned(), params }
}

/// Whether a source can be asked for through the manual refresh
/// surface. The position and catalog feeds have refresh surfaces of
/// their own.
pub open spec fn refreshable(s: Source) -> bool {
    s != Source::Iss && s != Source::Osdr
}

/// The sources a refresh request with the given names will fetch:
/// known refreshable names in request order, unknown names skipped,
/// duplicates kept.
pub open spec fn refresh_plan_spec(names: Seq<Seq<char>>) -> Seq<Source>
    decreases names.len(),
{
    if names.len() == 0 {
        Seq::<Source>::empty()
    } else {
        (match source_of_name(names[0]) {
            Some(s) => if refreshable(s) {
                seq![s]
            } else {
                Seq::<Source>::empty()
            },
            None => Seq::<Source>::empty(),
        }) + refresh_plan_spec(names.drop_first())
    }
}

/// The views of a list of owned names.
pub open spec fn strings_view(names: Seq<String>) -> Seq<Seq<char>> {
    Seq::new(names.len(), |i: int| names[i]@)
}

/// Plan a manual refresh: map requested names to sources, skipping
/// names no refreshable source goes by.
pub fn refresh_plan(names: &Vec<String>) -> (plan: Vec<Source>)
    ensures
        plan@ == refresh_plan_spec(strings_view(names@)),
{
    let ghost nv = strings_view(names@);
    let mut plan: Vec<Source> = Vec::new();
    let mut i: usize = 0;
    proof {
        assert(nv.skip(0) =~= nv);
    }
    while i < names.len()
        invariant
            i <= names@.len(),
            nv == strings_view(names@),
            refresh_plan_spec(nv) == plan@ + refresh_plan_spec(nv.skip(i as int)),
        decreases names@.len() - i,
    {
        proof {
            assert(nv.skip(i as int)[0] == nv[i as int]);
            assert(nv.skip(i as int).drop_first() =~= nv.skip(i + 1));
        }
        let ghost before = plan@;
        match Source::parse(names[i].as_str()) {
            Some(s) => {
                let keep = match s {
                    Source::Iss | Source::Osdr => false,
                    _ => true,
                };
                if keep {
                    plan.push(s);
                }
            },
            None => {},
        }
        proof {
            assert(refresh_plan_spec(nv) == plan@ + refresh_plan_spec(nv.skip(i + 1)));
        }
        i = i + 1;
    }
    proof {
        assert(nv.skip(names@.len() as int).len() == 0);
        assert(plan@ + Seq::<Source>::empty() =~= plan@);
    }
    plan
}

/// The names of the planned sources whose fetches succeeded, in plan
/// order.
pub open spec fn done_names(plan: Seq<Source>, ok: Seq<bool>) -> Seq<Seq<char>>
    decreases plan.len(),
{
    if plan.len() == 0 {
        Seq::<Seq<char>>::empty()
    } else {
        (if ok[0] {
            seq![source_name(plan[0])]
        } else {
            Seq::<Seq<char>>::empty()
        }) + done_names(plan.drop_first(), ok.drop_first())
    }
}

/// Collect the names of the sources a refresh actually fetched:
/// `ok[i]` tells whether the fetch of `plan[i]` succeeded.
pub fn collect_done(plan: &Vec<Source>, ok: &Vec<bool>) -> (done: Vec<String>)
    requires
        plan@.len() == ok@.len(),
    ensures
        strings_view(done@) == done_names(plan@, ok@),
{
    let mut done: Vec<String> = Vec::new();
    let mut i: usize = 0;
    proof {
        assert(plan@.skip(0) =~= plan@);
        assert(ok@.skip(0) =~= ok@);
    }
    while i < plan.len()
        invariant
            i <= plan@.len() == ok@.len(),
            done_names(plan@, ok@) == strings_view(done@) + done_names(
                plan@.skip(i as int),
                ok@.skip(i as int),
            ),
        decreases plan@.len() - i,
    {
        proof {
            assert(plan@.skip(i as int)[0] == plan@[i as int]);
            assert(ok@.skip(i as int)[0] == ok@[i as int]);
            assert(plan@.skip(i as int).drop_first() =~= plan@.skip(i + 1));
            assert(ok@.skip(i as int).drop_first() =~= ok@.skip(i + 1));
        }
        if ok[i] {
            let name = plan[i].name();
            done.push(name.to_owned());
        }
        proof {
            assert(done_names(plan@, ok@) == strings_view(done@) + done_names(
                plan@.skip(i + 1),
                ok@.skip(i + 1),
            ));
        }
        i = i + 1;
    }
    proof {
        assert(done_names(plan@.skip(plan@.len() as int), ok@.skip(ok@.len() as int)) =~= Seq::<
            Seq<char>,
        >::empty());
        assert(strings_view(done@) + Seq::<Seq<char>>::empty() =~= strings_view(done@));
    }
    done
}

/// What one fetch cycle produced: a payload with its fetch time, or a
/// terminal failure with its kind and how many attempts were spent.
#[derive(Debug)]
pub enum FetchOutcome {
    Success { payload: JsonValue, fetched_at: i64 },
    Failure { kind: ErrorKind, message: String, attempts: usize },
}

/// The catalog fields of one dataset record.
#[derive(Debug)]
pub struct DatasetFields {
    pub dataset_id: Option<String>,
    pub title: Option<String>,
    pub organism: Option<String>,
    pub study_type: Option<String>,
    pub status: Option<String>,
    pub updated_at: Option<i64>,
}

/// The view of an optional owned string.
pub open spec fn opt_str_view(o: Option<String>) -> Option<Seq<char>> {
    match o {
        Some(s) => Some(s@),
        None => None,
    }
}

/// The key names tried for each catalog field.
pub open spec fn dataset_id_keys() -> Seq<Seq<char>> {
    seq!["dataset_id"@, "id"@, "uuid"@, "studyId"@, "accession"@, "osdr_id"@]
}

pub open spec fn title_keys() -> Seq<Seq<char>> {
    seq!["title"@, "name"@, "label"@]
}

pub open spec fn organism_keys() -> Seq<Seq<char>> {
    seq!["organism"@, "species"@, "model_organism"@]
}

pub open spec fn study_type_keys() -> Seq<Seq<char>> {
    seq!["study_type"@, "type"@, "experiment_type"@]
}

pub open spec fn status_keys() -> Seq<Seq<char>> {
    seq!["status"@, "state"@, "lifecycle"@]
}

pub open spec fn updated_keys() -> Seq<Seq<char>> {
    seq!["updated"@, "updated_at"@, "modified"@, "lastUpdated"@, "timestamp"@]
}

/// Read the catalog fields out of one dataset record, each through its
/// list of candidate keys.
pub fn dataset_fields(item: &JsonValue) -> (r: DatasetFields)
    ensures
        opt_str_view(r.dataset_id) == extract_string_spec(*item, dataset_id_keys()),
        opt_str_view(r.title) == extract_string_spec(*item, title_keys()),
        opt_str_view(r.organism) == extract_string_spec(*item, organism_keys()),
        opt_str_view(r.study_type) == extract_string_spec(*item, study_type_keys()),
        opt_str_view(r.status) == extract_string_spec(*item, status_keys()),
        r.updated_at == extract_timestamp_spec(*item, updated_keys()),
{
    let id_keys: [&str; 6] = ["dataset_id", "id", "uuid", "studyId", "accession", "osdr_id"];
    let t_keys: [&str; 3] = ["title", "name", "label"];
    let o_keys: [&str; 3] = ["organism", "species", "model_organism"];
    let st_keys: [&str; 3] = ["study_type", "type", "experiment_type"];
    let s_keys: [&str; 3] = ["status", "state", "lifecycle"];
    let u_keys: [&str; 5] = ["updated", "updated_at", "modified", "lastUpdated", "timestamp"];
    proof {
        assert(strs_view(id_keys@) =~= dataset_id_keys());
        assert(strs_view(t_keys@) =~= title_keys());
        assert(strs_view(o_keys@) =~= organism_keys());
        assert(strs_view(st_keys@) =~= study_type_keys());
        assert(strs_view(s_keys@) =~= status_keys());
        assert(strs_view(u_keys@) =~= updated_keys());
    }
    DatasetFields {
        dataset_id: extract_string(item, id_keys.as_slice()),
        title: extract_string(item, t_keys.as_slice()),
        organism: extract_string(item, o_keys.as_slice()),
        study_type: extract_string(item, st_keys.as_slice()),
        status: extract_string(item, s_keys.as_slice()),
        updated_at: extract_timestamp(item, u_keys.as_slice()),
    }
}

} // verus!

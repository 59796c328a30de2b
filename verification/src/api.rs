//! Read-API request shaping: query defaults and bounds, and the
//! resolution of a manual refresh request into sources.

use crate::fetch::Source;
use crate::fetch::refresh_plan;
use crate::fetch::refresh_plan_spec;
use crate::fetch::strings_view;
use crate::text::split_commas;
use crate::text::split_commas_trimmed;
use crate::text::trim_spec;
use vstd::prelude::*;

verus! {

/// Default trend window, in hours.
pub fn default_hours() -> (h: i64)
    ensures
        h == 24,
{
    24
}

/// Default page size of the dataset list.
pub fn default_limit() -> (l: i32)
    ensures
        l == 20,
{
    20
}

/// Query parameters of the position-trend endpoint.
#[derive(Debug)]
pub struct TrendQuery {
    pub hours: i64,
}

impl TrendQuery {
    /// The trend window actually used: the requested hours, clamped.
    pub fn clamped_hours(&self) -> (h: i64)
        ensures
            h == if self.hours < 1 {
                1i64
            } else if self.hours > 168 {
                168i64
            } else {
                self.hours
            },
    {
        clamp_hours(self.hours)
    }
}

/// Query parameters of the dataset-list endpoint.
#[derive(Debug)]
pub struct ListQuery {
    pub limit: i32,
    pub offset: i32,
    pub search: Option<String>,
}

impl ListQuery {
    /// The page size actually used: the requested limit, clamped.
    pub fn clamped_limit(&self) -> (l: i32)
        ensures
            l == if self.limit < 1 {
                1i32
            } else if self.limit > 100 {
                100i32
            } else {
                self.limit
            },
    {
        clamp_limit(self.limit)
    }

    /// The page offset actually used: never negative.
    pub fn clamped_offset(&self) -> (o: i32)
        ensures
            o == if self.offset < 0 {
                0i32
            } else {
                self.offset
            },
    {
        clamp_offset(self.offset)
    }
}

/// Query parameters of the manual-refresh endpoint.
#[derive(Debug)]
pub struct RefreshQuery {
    pub sources: Option<String>,
}

/// Clamp a requested trend window to 1..=168 hours (seven days).
pub fn clamp_hours(hours: i64) -> (h: i64)
    ensures
        h == if hours < 1 {
            1i64
        } else if hours > 168 {
            168i64
        } else {
            hours
        },
{
    if hours < 1 {
        1
    } else if hours > 168 {
        168
    } else {
        hours
    }
}

/// Clamp a requested page size to 1..=100.
pub fn clamp_limit(limit: i32) -> (l: i32)
    ensures
        l == if limit < 1 {
            1i32
        } else if limit > 100 {
            100i32
        } else {
            limit
        },
{
    if limit < 1 {
        1
    } else if limit > 100 {
        100
    } else {
        limit
    }
}

/// A page offset is never negative.
pub fn clamp_offset(offset: i32) -> (o: i32)
    ensures
        o == if offset < 0 {
            0i32
        } else {
            offset
        },
{
    if offset < 0 {
        0
    } else {
        offset
    }
}

/// The sources a refresh request asks for: the named ones when a
/// comma-separated list is given (unknown names skipped), every
/// refreshable source otherwise.
pub open spec fn requested_sources(q: RefreshQuery) -> Seq<Source> {
    match q.sources {
        Some(s) => refresh_plan_spec(split_commas(s@).map_values(|p: Seq<char>| trim_spec(p))),
        None => seq![Source::Apod, Source::Neo, Source::Flr, Source::Cme, Source::Spacex],
    }
}

/// Resolve a refresh request into the sources to fetch, in order.
pub fn resolve_refresh(q: &RefreshQuery) -> (plan: Vec<Source>)
    ensures
        plan@ == requested_sources(*q),
{
    match &q.sources {
        Some(s) => {
            let pieces = split_commas_trimmed(s.as_str());
            proof {
                assert(strings_view(pieces@) =~= split_commas(s@).map_values(
                    |p: Seq<char>| trim_spec(p),
                ));
            }
            refresh_plan(&pieces)
        },
        None => {
            let mut plan: Vec<Source> = Vec::new();
            plan.push(Source::Apod);
            plan.push(Source::Neo);
            plan.push(Source::Flr);
            plan.push(Source::Cme);
            plan.push(Source::Spacex);
            proof {
                assert(plan@ =~= seq![
                    Source::Apod,
                    Source::Neo,
                    Source::Flr,
                    Source::Cme,
                    Source::Spacex,
                ]);
            }
            plan
        },
    }
}

} // verus!

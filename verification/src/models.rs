//! Domain records handed between the fetch pipeline, storage, and the
//! read API.
//!
//! Timestamps are carried as epoch seconds; payloads as owned JSON
//! values. The position feed's numeric readings (latitude, altitude
//! and the like) are floating-point and live with the unverified
//! surroundings; here a fetch log exposes the fields the library
//! itself reads.

use crate::json::JsonValue;
use crate::json::str_field;
use crate::json::get_str;
use vstd::prelude::*;

verus! {

/// One appended row of the position feed's fetch log.
#[derive(Debug)]
pub struct IssFetchLog {
    pub id: i64,
    /// When the fetch happened, in epoch seconds.
    pub fetched_at: i64,
    pub source_url: String,
    pub payload: JsonValue,
}

impl IssFetchLog {
    /// The `visibility` field of the payload, when it is a string.
    pub fn visibility(&self) -> (r: Option<String>)
        ensures
            (r is Some) == (str_field(self.payload, "visibility"@) is Some),
            r matches Some(s) ==> str_field(self.payload, "visibility"@) == Some(s@),
    {
        get_str(&self.payload, "visibility")
    }
}

/// One upserted row of the dataset catalog.
#[derive(Debug)]
pub struct OsdrItem {
    pub id: i64,
    pub dataset_id: Option<String>,
    pub title: Option<String>,
    pub organism: Option<String>,
    pub study_type: Option<String>,
    pub status: Option<String>,
    /// Upstream modification time, in epoch seconds.
    pub updated_at: Option<i64>,
    /// When the row was written, in epoch seconds.
    pub inserted_at: i64,
    pub raw: JsonValue,
}

/// One cached payload of a bulk source.
#[derive(Debug)]
pub struct SpaceCache {
    pub id: i64,
    pub source: String,
    /// When the payload was fetched, in epoch seconds.
    pub fetched_at: i64,
    pub payload: JsonValue,
}

/// The health report of the running service.
#[derive(Debug)]
pub struct Health {
    pub status: String,
    /// The report time, in epoch seconds.
    pub now: i64,
    pub version: String,
}

} // verus!

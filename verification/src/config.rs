//! Process configuration, read once at startup.
//!
//! The surrounding program collects raw setting values (from the
//! environment or elsewhere) and hands them in as plain optional
//! strings; here each one is parsed with an exact meaning: a setting
//! that is absent or does not parse as a decimal number falls back to
//! its default.

use crate::digits::all_digits;
use crate::digits::digits_val;
use crate::digits::parse_u64;
use crate::fetch::Source;
use vstd::prelude::*;

verus! {

/// The value a numeric setting denotes: its decimal value when the
/// text is a number that fits the bound, the default otherwise.
pub open spec fn setting_value(raw: Option<Seq<char>>, bound: nat, default: u64) -> u64 {
    match raw {
        Some(s) => if s.len() > 0 && all_digits(s) && digits_val(s) <= bound {
            digits_val(s) as u64
        } else {
            default
        },
        None => default,
    }
}

/// The view of an optional raw setting.
pub open spec fn raw_view(raw: Option<&str>) -> Option<Seq<char>> {
    match raw {
        Some(s) => Some(s@),
        None => None,
    }
}

/// Parse a numeric setting with an upper bound, falling back to the
/// default when the setting is absent, not a number, or out of bounds.
pub fn setting_u64_bounded(raw: Option<&str>, bound: u64, default: u64) -> (r: u64)
    requires
        default <= bound,
    ensures
        r == setting_value(raw_view(raw), bound as nat, default),
        r <= bound,
{
    match raw {
        Some(s) => match parse_u64(s) {
            Some(v) => if v <= bound {
                v
            } else {
                default
            },
            None => default,
        },
        None => default,
    }
}

/// Parse a numeric setting, falling back to the default when the
/// setting is absent or not a number that fits a `u64`.
pub fn setting_u64(raw: Option<&str>, default: u64) -> (r: u64)
    ensures
        r == setting_value(raw_view(raw), u64::MAX as nat, default),
{
    match raw {
        Some(s) => match parse_u64(s) {
            Some(v) => v,
            None => default,
        },
        None => default,
    }
}

/// A string setting or its default.
pub fn setting_string(raw: Option<String>, default: &str) -> (r: String)
    ensures
        match raw {
            Some(s) => r == s,
            None => r@ == default@,
        },
{
    match raw {
        Some(s) => s,
        None => default.to_owned(),
    }
}

/// Process configuration.
#[derive(Clone, Debug)]
pub struct AppConfig {
    pub database_url: String,
    pub db_pool_size: u32,
    pub port: u16,
    pub nasa_api_url: String,
    pub nasa_api_key: String,
    pub where_iss_url: String,
    pub iss_every_seconds: u64,
    pub osdr_every_seconds: u64,
    pub apod_every_seconds: u64,
    pub neo_every_seconds: u64,
    pub donki_every_seconds: u64,
    pub spacex_every_seconds: u64,
}

/// The raw settings the configuration is built from, as the
/// surrounding program collected them.
pub struct RawSettings {
    pub database_url: String,
    pub db_pool_size: Option<String>,
    pub port: Option<String>,
    pub nasa_api_url: Option<String>,
    pub nasa_api_key: Option<String>,
    pub where_iss_url: Option<String>,
    pub iss_every_seconds: Option<String>,
    pub osdr_every_seconds: Option<String>,
    pub apod_every_seconds: Option<String>,
    pub neo_every_seconds: Option<String>,
    pub donki_every_seconds: Option<String>,
    pub spacex_every_seconds: Option<String>,
}

/// The view of an optional owned setting.
pub open spec fn opt_string_view(raw: Option<String>) -> Option<Seq<char>> {
    match raw {
        Some(s) => Some(s@),
        None => None,
    }
}

fn opt_str(raw: &Option<String>) -> (r: Option<&str>)
    ensures
        raw_view(r) == opt_string_view(*raw),
{
    match raw {
        Some(s) => Some(s.as_str()),
        None => None,
    }
}

impl AppConfig {
    /// Build the configuration from raw settings: every numeric
    /// setting parsed with its default, every URL defaulted to the
    /// public endpoint, the API key defaulting to none.
    pub fn from_settings(raw: RawSettings) -> (c: AppConfig)
        ensures
            c.database_url == raw.database_url,
            c.db_pool_size == setting_value(opt_string_view(raw.db_pool_size), u32::MAX as nat, 5),
            c.port == setting_value(opt_string_view(raw.port), u16::MAX as nat, 3000),
            (match raw.nasa_api_url {
                Some(s) => c.nasa_api_url == s,
                None => c.nasa_api_url@
                    == "https://visualization.osdr.nasa.gov/biodata/api/v2/datasets/?format=json"@,
            }),
            (match raw.nasa_api_key {
                Some(s) => c.nasa_api_key == s,
                None => c.nasa_api_key@ == ""@,
            }),
            (match raw.where_iss_url {
                Some(s) => c.where_iss_url == s,
                None => c.where_iss_url@ == "https://api.wheretheiss.at/v1/satellites/25544"@,
            }),
            c.iss_every_seconds == setting_value(
                opt_string_view(raw.iss_every_seconds),
                u64::MAX as nat,
                120,
            ),
            c.osdr_every_seconds == setting_value(
                opt_string_view(raw.osdr_every_seconds),
                u64::MAX as nat,
                600,
            ),
            c.apod_every_seconds == setting_value(
                opt_string_view(raw.apod_every_seconds),
                u64::MAX as nat,
                43200,
            ),
            c.neo_every_seconds == setting_value(
                opt_string_view(raw.neo_every_seconds),
                u64::MAX as nat,
                7200,
            ),
            c.donki_every_seconds == setting_value(
                opt_string_view(raw.donki_every_seconds),
                u64::MAX as nat,
                3600,
            ),
            c.spacex_every_seconds == setting_value(
                opt_string_view(raw.spacex_every_seconds),
                u64::MAX as nat,
                3600,
            ),
    {
        let db_pool_size = setting_u64_bounded(opt_str(&raw.db_pool_size), 0xffff_ffff, 5) as u32;
        let port = setting_u64_bounded(opt_str(&raw.port), 0xffff, 3000) as u16;
        AppConfig {
            database_url: raw.database_url,
            db_pool_size,
            port,
            nasa_api_url: setting_string(
                raw.nasa_api_url,
                "https://visualization.osdr.nasa.gov/biodata/api/v2/datasets/?format=json",
            ),
            nasa_api_key: setting_string(raw.nasa_api_key, ""),
            where_iss_url: setting_string(
                raw.where_iss_url,
                "https://api.wheretheiss.at/v1/satellites/25544",
            ),
            iss_every_seconds: setting_u64(opt_str(&raw.iss_every_seconds), 120),
            osdr_every_seconds: setting_u64(opt_str(&raw.osdr_every_seconds), 600),
            apod_every_seconds: setting_u64(opt_str(&raw.apod_every_seconds), 43200),
            neo_every_seconds: setting_u64(opt_str(&raw.neo_every_seconds), 7200),
            donki_every_seconds: setting_u64(opt_str(&raw.donki_every_seconds), 3600),
            spacex_every_seconds: setting_u64(opt_str(&raw.spacex_every_seconds), 3600),
        }
    }

    /// The polling interval of a source. The two solar-event feeds
    /// share one setting.
    pub fn interval_for(&self, source: &Source) -> (t: u64)
        ensures
            t == match *source {
                Source::Iss => self.iss_every_seconds,
                Source::Osdr => self.osdr_every_seconds,
                Source::Apod => self.apod_every_seconds,
                Source::Neo => self.neo_every_seconds,
                Source::Flr => self.donki_every_seconds,
                Source::Cme => self.donki_every_seconds,
                Source::Spacex => self.spacex_every_seconds,
            },
    {
        match source {
            Source::Iss => self.iss_every_seconds,
            Source::Osdr => self.osdr_every_seconds,
            Source::Apod => self.apod_every_seconds,
            Source::Neo => self.neo_every_seconds,
            Source::Flr => self.donki_every_seconds,
            Source::Cme => self.donki_every_seconds,
            Source::Spacex => self.spacex_every_seconds,
        }
    }
}

} // verus!

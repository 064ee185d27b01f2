use vstd::prelude::*;

use chrono::{DateTime, SecondsFormat, Utc};

verus! {

/// The RFC 3339 text, in UTC with a `Z` suffix and as many fraction digits
/// as the nanoseconds need, of the instant `secs` seconds and `nanos`
/// nanoseconds after the Unix epoch.
pub uninterp spec fn rfc3339_utc(secs: int, nanos: int) -> Seq<char>;

/// The last second of the year 9999, in seconds since the Unix epoch.
pub const LAST_SECOND_OF_9999: i64 = 253402300799;

/// Relies on chrono's `DateTime::<Utc>::from_timestamp`, which yields an
/// instant for every whole second from the epoch to the end of the year 9999
/// when `nanos` is under one second, and on `DateTime::to_rfc3339_opts` with
/// `SecondsFormat::AutoSi` and `use_z`, the text chrono's serde support
/// writes for such an instant; writing it into a `String` cannot fail.
#[verifier::external_body]
fn format_unix_utc(secs: i64, nanos: u32) -> (r: Option<String>)
    ensures
        r matches Some(t) ==> t@ == rfc3339_utc(secs as int, nanos as int),
        0 <= secs <= LAST_SECOND_OF_9999 && nanos < 1_000_000_000 ==> r.is_some(),
{
    match DateTime::<Utc>::from_timestamp(secs, nanos) {
        Some(d) => Some(d.to_rfc3339_opts(SecondsFormat::AutoSi, true)),
        None => None,
    }
}

pub open spec fn healthy_status() -> Seq<char> {
    "healthy"@
}

pub open spec fn service_name() -> Seq<char> {
    "fks_nodes_master"@
}

/// What `GET /health` reports: fixed status and service, and the time at
/// which it was asked, as RFC 3339 text in UTC.
#[derive(Clone, Debug)]
pub struct HealthReport {
    pub status: String,
    pub service: String,
    pub timestamp: String,
}

/// The report for a request answered at `timestamp`.
pub fn health_report(timestamp: String) -> (r: HealthReport)
    ensures
        r.status@ == healthy_status(),
        r.service@ == service_name(),
        r.timestamp@ == timestamp@,
{
    HealthReport {
        status: "healthy".to_owned(),
        service: "fks_nodes_master".to_owned(),
        timestamp,
    }
}

/// The report for a request answered `secs` seconds and `nanos` nanoseconds
/// after the Unix epoch, or `None` where chrono cannot represent the instant.
pub fn health_report_at_unix(secs: i64, nanos: u32) -> (r: Option<HealthReport>)
    ensures
        r matches Some(h) ==> {
            &&& h.status@ == healthy_status()
            &&& h.service@ == service_name()
            &&& h.timestamp@ == rfc3339_utc(secs as int, nanos as int)
        },
        0 <= secs <= LAST_SECOND_OF_9999 && nanos < 1_000_000_000 ==> r.is_some(),
{
    match format_unix_utc(secs, nanos) {
        Some(t) => Some(health_report(t)),
        None => None,
    }
}

/// What `GET /` reports in its `ok` field.
pub fn root_ok() -> (r: bool)
    ensures
        r,
{
    true
}

} // verus!

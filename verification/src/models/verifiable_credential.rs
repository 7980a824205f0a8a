//! Verifiable credentials held in the identity hub.

use vstd::prelude::*;
use crate::text::opt_view;
use crate::models::asset_item::or_empty;

verus! {

/// A point in time: seconds since the Unix epoch, and the nanoseconds within that second.
#[derive(Clone, Copy, Debug, PartialEq, Eq)]
pub struct UtcTime {
    pub seconds: i64,
    pub nanos: u32,
}

/// A verifiable credential as the console lists it.
#[derive(Clone, Debug, PartialEq)]
pub struct VerifiableCredential {
    pub id: String,
    pub created_at: u64,
    pub timestamp: u64,
    pub issuer_id: String,
    pub holder_id: String,
    pub issuance_date: UtcTime,
    pub expiration_date: UtcTime,
}

impl VerifiableCredential {
    /// The credential with the given parts; its creation and update times, given in
    /// seconds, are kept as their unsigned 64-bit reading.
    pub fn from_parts(
        id: String,
        created_at_seconds: i64,
        timestamp_seconds: i64,
        issuer_id: String,
        holder_id: String,
        issuance_date: UtcTime,
        expiration_date: UtcTime,
    ) -> (res: VerifiableCredential)
        ensures
            res.id == id,
            res.created_at == created_at_seconds as u64,
            res.timestamp == timestamp_seconds as u64,
            res.issuer_id == issuer_id,
            res.holder_id == holder_id,
            res.issuance_date == issuance_date,
            res.expiration_date == expiration_date,
    {
        VerifiableCredential {
            id,
            created_at: created_at_seconds as u64,
            timestamp: timestamp_seconds as u64,
            issuer_id,
            holder_id,
            issuance_date,
            expiration_date,
        }
    }
}

/// The pattern in which the credential list writes points in time.
pub open spec fn date_pattern() -> Seq<char> {
    "%Y-%m-%d %H:%M:%S"@
}

/// What chrono writes for the UTC point `seconds` and `nanos` after the epoch with the
/// format `pattern`, or `None` where `DateTime::from_timestamp` finds the point out of range.
pub uninterp spec fn utc_text(seconds: i64, nanos: u32, pattern: Seq<char>) -> Option<Seq<char>>;

/// Calls `chrono::DateTime::from_timestamp` and formats the point with `pattern`. The
/// contract names the outcome (`utc_text`): the calendar arithmetic is not written out here.
/// The pattern is the list's own, which chrono formats without error.
#[verifier::external_body]
fn format_utc(seconds: i64, nanos: u32, pattern: &str) -> (res: Option<String>)
    requires
        pattern@ == date_pattern(),
    ensures
        opt_view(res) == utc_text(seconds, nanos, pattern@),
{
    chrono::DateTime::from_timestamp(seconds, nanos).map(|d| d.format(pattern).to_string())
}

/// What chrono writes for the UTC point `millis` milliseconds after the epoch with the
/// format `pattern`, or `None` where `DateTime::from_timestamp_millis` finds it out of range.
pub uninterp spec fn millis_text(millis: i64, pattern: Seq<char>) -> Option<Seq<char>>;

/// Calls `chrono::DateTime::from_timestamp_millis` and formats the point with `pattern`. The
/// contract names the outcome (`millis_text`); the pattern is the list's own.
#[verifier::external_body]
fn format_millis(millis: i64, pattern: &str) -> (res: Option<String>)
    requires
        pattern@ == date_pattern(),
    ensures
        opt_view(res) == millis_text(millis, pattern@),
{
    chrono::DateTime::from_timestamp_millis(millis).map(|d| d.format(pattern).to_string())
}

/// How the credential list writes an issuance or expiration date; empty when it is out of
/// chrono's range.
pub fn credential_date_text(t: &UtcTime) -> (res: String)
    ensures
        res@ == or_empty(utc_text(t.seconds, t.nanos, date_pattern())),
{
    proof {
        reveal_strlit("%Y-%m-%d %H:%M:%S");
    }
    match format_utc(t.seconds, t.nanos, "%Y-%m-%d %H:%M:%S") {
        Some(text) => text,
        None => String::new(),
    }
}

/// How the credential list writes the creation time, which it reads as milliseconds after
/// the epoch; `None` when that is out of chrono's range.
pub fn created_at_text(created_at: u64) -> (res: Option<String>)
    ensures
        opt_view(res) == millis_text(created_at as i64, date_pattern()),
{
    proof {
        reveal_strlit("%Y-%m-%d %H:%M:%S");
    }
    format_millis(created_at as i64, "%Y-%m-%d %H:%M:%S")
}

} // verus!

//! The state of the exporter between two requests for metrics, and the rule
//! that keeps the exporter from collecting more often than its interval
//! allows.
//!
//! Time is a number of seconds on a clock that the caller supplies. The
//! caller holds the state under a lock from the question whether to collect
//! until the collection is recorded, so that two requests never collect at
//! once.

use crate::model::{Api, ApiView};
use vstd::prelude::*;

verus! {

/// The base URL of the API where none is configured.
pub const API_URL: &'static str = "https://eu5.fusionsolar.huawei.com/thirdData";

/// The settings of the exporter.
#[derive(Debug, Clone)]
pub struct FusionsolarConfig {
    pub api_url: String,
    pub username: String,
    pub password: String,
    /// The least number of seconds between two collections.
    pub interval: u64,
}

/// The state of the exporter.
#[derive(Debug, Clone)]
pub struct StateData {
    pub api: Api,
    /// The least number of seconds between two collections.
    pub interval: u64,
    /// The time of the last successful collection, if there was one.
    pub timestamp: Option<u64>,
}

/// Whether a collection is due at `now`: none has succeeded yet, or more than
/// `interval_secs` seconds have passed since the last one did. A clock that
/// went backward counts as no time passed.
pub open spec fn due(timestamp: Option<u64>, now: u64, interval_secs: u64) -> bool {
    match timestamp {
        Some(last) => now - last > interval_secs,
        None => true,
    }
}

impl StateData {
    /// The state that the exporter starts in: no collection has succeeded.
    pub fn new(settings: FusionsolarConfig) -> (r: StateData)
        ensures
            r.api@ == (ApiView {
                api_url: settings.api_url@,
                username: settings.username@,
                password: settings.password@,
            }),
            r.interval == settings.interval,
            r.timestamp is None,
    {
        StateData {
            api: Api {
                api_url: settings.api_url,
                username: settings.username,
                password: settings.password,
            },
            interval: settings.interval,
            timestamp: None,
        }
    }

    /// Records that a collection succeeded at `now`.
    pub fn touch(&mut self, now: u64)
        ensures
            final(self).timestamp == Some(now),
            final(self).api == old(self).api,
            final(self).interval == old(self).interval,
    {
        self.timestamp = Some(now);
    }

    /// Whether more than `interval_secs` seconds have passed at `now` since
    /// the last successful collection. Without such a collection the answer
    /// is yes.
    pub fn interval_elapsed(&self, now: u64, interval_secs: u64) -> (r: bool)
        ensures
            r == due(self.timestamp, now, interval_secs),
    {
        match self.timestamp {
            Some(last) => now > last && now - last > interval_secs,
            None => true,
        }
    }

    /// Whether to collect at `now`, by the exporter's own interval. Where the
    /// answer is no, the metrics of the last collection still stand.
    pub fn should_collect(&self, now: u64) -> (r: bool)
        ensures
            r == due(self.timestamp, now, self.interval),
    {
        self.interval_elapsed(now, self.interval)
    }
}

/// Before the first successful collection, a collection is always due.
pub proof fn first_collection_is_due(now: u64, interval_secs: u64)
    ensures
        due(None, now, interval_secs),
{
}

/// After a successful collection the next one is due once more than the
/// interval has passed, and not before.
pub proof fn next_collection_waits_for_the_interval(last: u64, now: u64, interval_secs: u64)
    ensures
        now <= last + interval_secs ==> !due(Some(last), now, interval_secs),
        now > last + interval_secs ==> due(Some(last), now, interval_secs),
{
}

} // verus!

//! Start-up: the settings read from the environment, and the decisions of
//! the loop that waits for the storage bucket.

use vstd::prelude::*;

use crate::error::AppError;
use crate::text::opt_text;

verus! {

/// The process settings.
#[derive(Debug, Clone)]
pub struct Config {
    pub database_url: String,
    pub storage_endpoint: String,
    pub storage_access_key: String,
    pub storage_secret_key: String,
    pub storage_bucket: String,
}

pub open spec fn or_default(v: Option<Seq<char>>, d: Seq<char>) -> Seq<char> {
    match v {
        Some(s) => s,
        None => d,
    }
}

fn value_or(v: Option<String>, d: &str) -> (r: String)
    ensures
        r@ == or_default(opt_text(v), d@),
{
    match v {
        Some(s) => s,
        None => d.to_owned(),
    }
}

/// The settings from the values of `DATABASE_URL`, `SEAWEEDFS_ENDPOINT`,
/// `SEAWEEDFS_ACCESS_KEY`, `SEAWEEDFS_SECRET_KEY` and `SEAWEEDFS_BUCKET`.
/// Only the database URL is required.
pub fn config_from_values(
    database_url: Option<String>,
    endpoint: Option<String>,
    access_key: Option<String>,
    secret_key: Option<String>,
    bucket: Option<String>,
) -> (r: Result<Config, AppError>)
    ensures
        database_url is None ==> (r matches Err(AppError::Env(m)) && m@
            == "DATABASE_URL is not set"@),
        database_url is Some ==> (r matches Ok(c) && {
            &&& c.database_url == database_url->Some_0
            &&& c.storage_endpoint@ == or_default(opt_text(endpoint), "http://localhost:8333"@)
            &&& c.storage_access_key@ == or_default(opt_text(access_key), ""@)
            &&& c.storage_secret_key@ == or_default(opt_text(secret_key), ""@)
            &&& c.storage_bucket@ == or_default(opt_text(bucket), "dms-documents"@)
        }),
{
    let database_url = match database_url {
        Some(u) => u,
        None => {
            return Err(AppError::Env("DATABASE_URL is not set".to_owned()));
        },
    };
    Ok(
        Config {
            database_url,
            storage_endpoint: value_or(endpoint, "http://localhost:8333"),
            storage_access_key: value_or(access_key, ""),
            storage_secret_key: value_or(secret_key, ""),
            storage_bucket: value_or(bucket, "dms-documents"),
        },
    )
}

/// The number of attempts to create the bucket.
pub const BUCKET_ATTEMPTS: u32 = 10;

/// The pause between two attempts, in seconds.
pub const RETRY_PAUSE_SECS: u64 = 2;

/// What to do after an attempt to create the bucket.
#[derive(Debug, Clone, Copy, PartialEq, Eq, Structural)]
pub enum WarmupStep {
    /// The bucket exists: warm the storage client up and serve.
    Ready,
    /// Pause, then try again.
    Retry,
    /// Out of attempts: serve anyway.
    GiveUp,
}

/// The state of the wait for the bucket.
#[derive(Debug, Clone, Copy, PartialEq, Eq, Structural)]
pub struct BucketWarmup {
    pub attempts_left: u32,
    pub ready: bool,
}

/// A 2xx status, or 409 for a bucket that already exists.
pub open spec fn bucket_confirmed(status: Option<u16>) -> bool {
    status matches Some(s) && ((200 <= s && s <= 299) || s == 409)
}

impl BucketWarmup {
    pub fn new() -> (r: BucketWarmup)
        ensures
            r.attempts_left == BUCKET_ATTEMPTS,
            !r.ready,
    {
        BucketWarmup { attempts_left: BUCKET_ATTEMPTS, ready: false }
    }

    /// Whether another attempt is due.
    pub fn should_attempt(&self) -> (r: bool)
        ensures
            r == (self.attempts_left > 0 && !self.ready),
    {
        self.attempts_left > 0 && !self.ready
    }

    /// Takes the outcome of an attempt: the HTTP status, or none when the
    /// request failed to connect.
    pub fn on_attempt(&mut self, status: Option<u16>) -> (r: WarmupStep)
        requires
            old(self).attempts_left > 0,
            !old(self).ready,
        ensures
            bucket_confirmed(status) ==> r == WarmupStep::Ready && final(self).ready
                && final(self).attempts_left == old(self).attempts_left,
            !bucket_confirmed(status) ==> !final(self).ready && final(self).attempts_left == old(
                self,
            ).attempts_left - 1 && (final(self).attempts_left > 0 ==> r == WarmupStep::Retry) && (
            final(self).attempts_left == 0 ==> r == WarmupStep::GiveUp),
    {
        let confirmed = match status {
            Some(s) => (200 <= s && s <= 299) || s == 409,
            None => false,
        };
        if confirmed {
            self.ready = true;
            WarmupStep::Ready
        } else {
            self.attempts_left = self.attempts_left - 1;
            if self.attempts_left > 0 {
                WarmupStep::Retry
            } else {
                WarmupStep::GiveUp
            }
        }
    }
}

} // verus!

//! Credentials taken from two environment variables.

use vstd::prelude::*;
use crate::credentials::{
    AWSCredentials, CredentialsError, CredentialsView, LATEST_TIME, cache_view, cached_if_valid,
    in_ten_minutes, synthetic, valid_cache,
};

verus! {

/// Variable that holds the access key ID.
pub const ACCESS_KEY_VARIABLE: &'static str = "ACCESS_KEY_ID";

/// Variable that holds the secret access key.
pub const SECRET_KEY_VARIABLE: &'static str = "SECRET_ACCESS_KEY";

/// The credentials that the two variables give at `now`: both must be set and non-empty.
pub open spec fn environment_outcome(key: Option<Seq<char>>, secret: Option<Seq<char>>, now: int) -> Result<CredentialsView, CredentialsError> {
    match (key, secret) {
        (Some(k), Some(s)) => if k.len() > 0 && s.len() > 0 {
            Ok(synthetic(k, s, now))
        } else {
            Err(CredentialsError::MissingEnvironmentVariable)
        },
        _ => Err(CredentialsError::MissingEnvironmentVariable),
    }
}

/// Build credentials from the values of the two variables (`None` when unset).
pub fn credentials_from_environment(key: Option<String>, secret: Option<String>, now: i64) -> (r: Result<AWSCredentials, CredentialsError>)
    requires
        now <= LATEST_TIME,
    ensures
        match (r, environment_outcome(crate::credentials::option_view(key), crate::credentials::option_view(secret), now as int)) {
            (Ok(c), Ok(expected)) => c@ == expected,
            (Err(e), Err(expected)) => e == expected,
            _ => false,
        },
{
    match (key, secret) {
        (Some(k), Some(s)) => {
            if k.as_str().unicode_len() == 0 || s.as_str().unicode_len() == 0 {
                Err(CredentialsError::MissingEnvironmentVariable)
            } else {
                Ok(in_ten_minutes(k, s, now))
            }
        },
        _ => Err(CredentialsError::MissingEnvironmentVariable),
    }
}

/// Takes credentials from the environment, re-reading it once they expire.
pub struct EnvironmentCredentialsProvider {
    credentials: Option<AWSCredentials>,
}

impl EnvironmentCredentialsProvider {
    pub closed spec fn cache(&self) -> Option<CredentialsView> {
        cache_view(self.credentials)
    }

    /// A provider with nothing cached.
    pub fn new() -> (r: Self)
        ensures
            r.cache() is None,
    {
        EnvironmentCredentialsProvider { credentials: None }
    }

    /// The cached credentials, when they may still be used at `now`; when this
    /// is `None` the variables must be read and handed to `refresh`.
    pub fn cached_credentials(&self, now: i64) -> (r: Option<AWSCredentials>)
        ensures
            cache_view(r) == valid_cache(self.cache(), now as int),
    {
        cached_if_valid(&self.credentials, now)
    }

    /// Build credentials from the variables just read and cache them.
    /// On failure the cache is left as it was.
    pub fn refresh(&mut self, key: Option<String>, secret: Option<String>, now: i64) -> (r: Result<AWSCredentials, CredentialsError>)
        requires
            now <= LATEST_TIME,
        ensures
            match (r, environment_outcome(crate::credentials::option_view(key), crate::credentials::option_view(secret), now as int)) {
                (Ok(c), Ok(expected)) => c@ == expected && final(self).cache() == Some(expected),
                (Err(e), Err(expected)) => e == expected && final(self).cache() == old(self).cache(),
                _ => false,
            },
    {
        match credentials_from_environment(key, secret, now) {
            Ok(c) => {
                self.credentials = Some(c.clone());
                Ok(c)
            },
            Err(e) => Err(e),
        }
    }
}

} // verus!

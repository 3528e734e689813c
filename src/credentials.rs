//! The credential value, its expiry rule, and the errors of resolution.

use vstd::prelude::*;

verus! {

/// Seconds before expiry at which a credential stops being handed out.
pub const EXPIRY_MARGIN: i64 = 20;

/// Lifetime given to credentials that carry no expiry of their own.
pub const SYNTHETIC_LIFETIME: i64 = 600;

/// The largest time (in seconds) at which a synthetic expiry still fits in an `i64`.
pub const LATEST_TIME: i64 = 9223372036854775207;

/// What a credential holds, as plain values.
pub ghost struct CredentialsView {
    pub key: Seq<char>,
    pub secret: Seq<char>,
    pub token: Option<Seq<char>>,
    pub expires_at: int,
}

pub open spec fn option_view(t: Option<String>) -> Option<Seq<char>> {
    match t {
        Some(s) => Some(s@),
        None => None,
    }
}

/// A credential is expired once the time is within the margin of its expiry.
pub open spec fn is_expired(c: CredentialsView, now: int) -> bool {
    now + EXPIRY_MARGIN >= c.expires_at
}

/// A credential without a token that expires after the synthetic lifetime.
pub open spec fn synthetic(key: Seq<char>, secret: Seq<char>, now: int) -> CredentialsView {
    CredentialsView { key, secret, token: None, expires_at: now + SYNTHETIC_LIFETIME }
}

/// Access key, secret key, optional session token and expiry time (seconds since the epoch).
pub struct AWSCredentials {
    key: String,
    secret: String,
    token: Option<String>,
    expires_at: i64,
}

/// Both the access key ID and the secret key are non-empty.
pub open spec fn populated(key: Seq<char>, secret: Seq<char>) -> bool {
    key.len() > 0 && secret.len() > 0
}

impl View for AWSCredentials {
    type V = CredentialsView;

    closed spec fn view(&self) -> CredentialsView {
        CredentialsView {
            key: self.key@,
            secret: self.secret@,
            token: option_view(self.token),
            expires_at: self.expires_at as int,
        }
    }
}

fn clone_token(t: &Option<String>) -> (r: Option<String>)
    ensures
        option_view(r) == option_view(*t),
{
    match t {
        Some(s) => Some(s.clone()),
        None => None,
    }
}

impl Clone for AWSCredentials {
    fn clone(&self) -> (r: Self)
        ensures
            r@ == self@,
    {
        proof {
            use_type_invariant(self);
        }
        AWSCredentials {
            key: self.key.clone(),
            secret: self.secret.clone(),
            token: clone_token(&self.token),
            expires_at: self.expires_at,
        }
    }
}

impl AWSCredentials {
    /// No credentials exist with an empty key ID or secret key.
    #[verifier::type_invariant]
    spec fn is_populated(&self) -> bool {
        populated(self.key@, self.secret@)
    }

    /// Create credentials from a key ID, secret key, optional session token and expiry time.
    pub fn new(key: String, secret: String, token: Option<String>, expires_at: i64) -> (r: Self)
        requires
            populated(key@, secret@),
        ensures
            r@ == (CredentialsView {
                key: key@,
                secret: secret@,
                token: option_view(token),
                expires_at: expires_at as int,
            }),
    {
        AWSCredentials { key, secret, token, expires_at }
    }

    /// The access key ID.
    pub fn aws_access_key_id(&self) -> (r: &str)
        ensures
            r@ == self@.key,
            r@.len() > 0,
    {
        proof {
            use_type_invariant(self);
        }
        self.key.as_str()
    }

    /// The secret access key.
    pub fn aws_secret_access_key(&self) -> (r: &str)
        ensures
            r@ == self@.secret,
            r@.len() > 0,
    {
        proof {
            use_type_invariant(self);
        }
        self.secret.as_str()
    }

    /// The expiry time, in seconds since the epoch.
    pub fn expires_at(&self) -> (r: i64)
        ensures
            r as int == self@.expires_at,
    {
        self.expires_at
    }

    /// The session token, present for temporary credentials.
    pub fn token(&self) -> (r: &Option<String>)
        ensures
            option_view(*r) == self@.token,
    {
        &self.token
    }

    /// Whether the credentials must no longer be used at time `now`.
    pub fn credentials_are_expired(&self, now: i64) -> (r: bool)
        ensures
            r == is_expired(self@, now as int),
    {
        (now as i128) + (EXPIRY_MARGIN as i128) >= (self.expires_at as i128)
    }
}

/// Credentials with no token that expire ten minutes after `now`.
pub fn in_ten_minutes(key: String, secret: String, now: i64) -> (r: AWSCredentials)
    requires
        populated(key@, secret@),
        now <= LATEST_TIME,
    ensures
        r@ == synthetic(key@, secret@, now as int),
{
    AWSCredentials::new(key, secret, None, now + SYNTHETIC_LIFETIME)
}

/// A field of the instance metadata document.
#[derive(Clone, Copy, Debug, PartialEq, Eq, Structural)]
pub enum MetadataField {
    AccessKeyId,
    SecretAccessKey,
    Token,
    Expiration,
}

/// Why credentials could not be resolved.
#[derive(Clone, Copy, Debug, PartialEq, Eq, Structural)]
pub enum CredentialsError {
    MissingEnvironmentVariable,
    MissingHomeDirectory,
    CredentialsFileNotFound,
    CredentialsFileNotAFile,
    CredentialsFileParseError,
    ProfileNotFound,
    NoCredentialsInFile,
    MetadataServiceUnreachable,
    MetadataResponseUnreadable,
    MetadataFieldMissing(MetadataField),
    MetadataTimestampUnparsable,
    AllProvidersExhausted,
}

impl CredentialsError {
    /// A short human-readable description of the error.
    pub fn message(&self) -> (r: &'static str)
        ensures
            r@ == error_message(*self),
    {
        match self {
            CredentialsError::MissingEnvironmentVariable => "Couldn't find either ACCESS_KEY_ID, SECRET_ACCESS_KEY or both in environment.",
            CredentialsError::MissingHomeDirectory => "The environment variable HOME must be set.",
            CredentialsError::CredentialsFileNotFound => "Couldn't stat credentials file.",
            CredentialsError::CredentialsFileNotAFile => "Couldn't open file.",
            CredentialsError::CredentialsFileParseError => "Parse error",
            CredentialsError::ProfileNotFound => "profile not found",
            CredentialsError::NoCredentialsInFile => "No credentials found.",
            CredentialsError::MetadataServiceUnreachable => "Couldn't connect to metadata service",
            CredentialsError::MetadataResponseUnreadable => "Couldn't parse metadata response body.",
            CredentialsError::MetadataFieldMissing(MetadataField::AccessKeyId) => "Couldn't find AccessKeyId in response.",
            CredentialsError::MetadataFieldMissing(MetadataField::SecretAccessKey) => "Couldn't find SecretAccessKey in response.",
            CredentialsError::MetadataFieldMissing(MetadataField::Token) => "Couldn't find Token in response.",
            CredentialsError::MetadataFieldMissing(MetadataField::Expiration) => "Couldn't find Expiration in response.",
            CredentialsError::MetadataTimestampUnparsable => "Couldn't parse Expiration in response.",
            CredentialsError::AllProvidersExhausted => "Couldn't find AWS credentials in environment, credentials file, or IAM role.",
        }
    }
}

/// The description that `message` gives of each error.
pub open spec fn error_message(e: CredentialsError) -> Seq<char> {
    match e {
        CredentialsError::MissingEnvironmentVariable => "Couldn't find either ACCESS_KEY_ID, SECRET_ACCESS_KEY or both in environment."@,
        CredentialsError::MissingHomeDirectory => "The environment variable HOME must be set."@,
        CredentialsError::CredentialsFileNotFound => "Couldn't stat credentials file."@,
        CredentialsError::CredentialsFileNotAFile => "Couldn't open file."@,
        CredentialsError::CredentialsFileParseError => "Parse error"@,
        CredentialsError::ProfileNotFound => "profile not found"@,
        CredentialsError::NoCredentialsInFile => "No credentials found."@,
        CredentialsError::MetadataServiceUnreachable => "Couldn't connect to metadata service"@,
        CredentialsError::MetadataResponseUnreadable => "Couldn't parse metadata response body."@,
        CredentialsError::MetadataFieldMissing(MetadataField::AccessKeyId) => "Couldn't find AccessKeyId in response."@,
        CredentialsError::MetadataFieldMissing(MetadataField::SecretAccessKey) => "Couldn't find SecretAccessKey in response."@,
        CredentialsError::MetadataFieldMissing(MetadataField::Token) => "Couldn't find Token in response."@,
        CredentialsError::MetadataFieldMissing(MetadataField::Expiration) => "Couldn't find Expiration in response."@,
        CredentialsError::MetadataTimestampUnparsable => "Couldn't parse Expiration in response."@,
        CredentialsError::AllProvidersExhausted => "Couldn't find AWS credentials in environment, credentials file, or IAM role."@,
    }
}

/// The cached credential if it is present and not expired at `now`.
pub open spec fn valid_cache(cache: Option<CredentialsView>, now: int) -> Option<CredentialsView> {
    match cache {
        Some(c) => if is_expired(c, now) { None } else { Some(c) },
        None => None,
    }
}

pub open spec fn cache_view(cache: Option<AWSCredentials>) -> Option<CredentialsView> {
    match cache {
        Some(c) => Some(c@),
        None => None,
    }
}

/// A copy of the cached credential when it may still be used at `now`.
pub fn cached_if_valid(cache: &Option<AWSCredentials>, now: i64) -> (r: Option<AWSCredentials>)
    ensures
        cache_view(r) == valid_cache(cache_view(*cache), now as int),
{
    match cache {
        Some(c) => {
            if c.credentials_are_expired(now) {
                None
            } else {
                Some(c.clone())
            }
        },
        None => None,
    }
}

/// At exactly the margin a credential counts as expired; one second more and it is valid.
pub proof fn lemma_expiry_boundary(c: CredentialsView, now: int)
    ensures
        c.expires_at == now + EXPIRY_MARGIN - 1 ==> is_expired(c, now),
        c.expires_at == now + EXPIRY_MARGIN ==> is_expired(c, now),
        c.expires_at == now + EXPIRY_MARGIN + 1 ==> !is_expired(c, now),
{
}

} // verus!

//! Temporary credentials of the instance's role, from the instance metadata service.

use vstd::prelude::*;
use crate::credentials::{
    AWSCredentials, CredentialsError, CredentialsView, MetadataField, cache_view, cached_if_valid,
    option_view, valid_cache,
};

verus! {

/// Address that lists the role's name; the role's credentials are below it.
pub const METADATA_URL: &'static str = "http://169.254.169.254/latest/meta-data/iam/security-credentials";

/// Seconds that each request to the metadata service may take.
pub const METADATA_TIMEOUT_SECS: u64 = 15;

/// Member holding the access key ID in the role document.
pub const ACCESS_KEY_MEMBER: &'static str = "AccessKeyId";

/// Member holding the secret access key in the role document.
pub const SECRET_KEY_MEMBER: &'static str = "SecretAccessKey";

/// Member holding the session token in the role document.
pub const TOKEN_MEMBER: &'static str = "Token";

/// Member holding the expiry time in the role document.
pub const EXPIRATION_MEMBER: &'static str = "Expiration";

/// Whether serde_json accepts the text as one JSON value.
pub uninterp spec fn json_parses(text: Seq<char>) -> bool;

/// The string that serde_json finds under `key` in the JSON object that the
/// text holds; `None` when the text is not an object with a string under `key`.
pub uninterp spec fn json_string_member(text: Seq<char>, key: Seq<char>) -> Option<Seq<char>>;

/// The instant, in seconds since the epoch, that chrono reads from the text.
pub uninterp spec fn parsed_instant(text: Seq<char>) -> Option<i64>;

/// Relies on serde_json::from_str: whether the text parses as a JSON value;
/// this depends on the text alone.
#[verifier::external_body]
fn json_valid(text: &str) -> (r: bool)
    ensures
        r == json_parses(text@),
{
    serde_json::from_str::<serde_json::Value>(text).is_ok()
}

/// Relies on serde_json::from_str, Value::get and Value::as_str: the string
/// member `key` of the JSON object in `body`; this depends on the two texts alone.
#[verifier::external_body]
fn document_member(body: &str, key: &str) -> (r: Option<String>)
    ensures
        option_view(r) == json_string_member(body@, key@),
{
    serde_json::from_str::<serde_json::Value>(body).ok().and_then(
        |v| v.get(key).and_then(|m| m.as_str().map(|s| s.to_string())),
    )
}

/// Relies on chrono's `FromStr` for `DateTime<Utc>` (a relaxed RFC 3339 form)
/// and `DateTime::timestamp`: the instant as seconds since the epoch.
#[verifier::external_body]
fn parse_instant(text: &str) -> (r: Option<i64>)
    ensures
        r == parsed_instant(text@),
{
    text.parse::<chrono::DateTime<chrono::Utc>>().ok().map(|t| t.timestamp())
}

/// The address of the credentials of the named role.
pub open spec fn role_url(role: Seq<char>) -> Seq<char> {
    METADATA_URL@ + "/"@ + role
}

/// The address from which the credentials of `role` are fetched.
pub fn role_credentials_url(role: &str) -> (r: String)
    ensures
        r@ == role_url(role@),
{
    let base = String::from_str(METADATA_URL);
    let with_slash = base.concat("/");
    with_slash.concat(role)
}

/// Temporary credentials once the expiry has been read: `None` means it was unreadable.
pub open spec fn expiring_outcome(key: Seq<char>, secret: Seq<char>, token: Seq<char>, expires_at: Option<i64>) -> Result<CredentialsView, CredentialsError> {
    match expires_at {
        Some(t) => Ok(CredentialsView { key, secret, token: Some(token), expires_at: t as int }),
        None => Err(CredentialsError::MetadataTimestampUnparsable),
    }
}

/// Build temporary credentials from the document's values and its parsed expiry.
pub fn credentials_with_expiration(key: String, secret: String, token: String, expires_at: Option<i64>) -> (r: Result<AWSCredentials, CredentialsError>)
    requires
        crate::credentials::populated(key@, secret@),
    ensures
        match (r, expiring_outcome(key@, secret@, token@, expires_at)) {
            (Ok(c), Ok(expected)) => c@ == expected,
            (Err(e), Err(expected)) => e == expected,
            _ => false,
        },
{
    match expires_at {
        Some(t) => Ok(AWSCredentials::new(key, secret, Some(token), t)),
        None => Err(CredentialsError::MetadataTimestampUnparsable),
    }
}

/// The credentials that the four string members of the document give, checked
/// in the order access key, secret key, token, expiry; an empty key ID or
/// secret key counts as missing.
pub open spec fn fields_outcome(
    key: Option<Seq<char>>,
    secret: Option<Seq<char>>,
    token: Option<Seq<char>>,
    expiration: Option<Seq<char>>,
) -> Result<CredentialsView, CredentialsError> {
    if !(key matches Some(k) && k.len() > 0) {
        Err(CredentialsError::MetadataFieldMissing(MetadataField::AccessKeyId))
    } else if !(secret matches Some(s) && s.len() > 0) {
        Err(CredentialsError::MetadataFieldMissing(MetadataField::SecretAccessKey))
    } else if token is None {
        Err(CredentialsError::MetadataFieldMissing(MetadataField::Token))
    } else if expiration is None {
        Err(CredentialsError::MetadataFieldMissing(MetadataField::Expiration))
    } else {
        expiring_outcome(key.unwrap(), secret.unwrap(), token.unwrap(), parsed_instant(expiration.unwrap()))
    }
}

/// Build temporary credentials from the string members of the role document
/// (`None` where a member is absent or not a string).
pub fn role_credentials(
    key: Option<String>,
    secret: Option<String>,
    token: Option<String>,
    expiration: Option<String>,
) -> (r: Result<AWSCredentials, CredentialsError>)
    ensures
        match (r, fields_outcome(option_view(key), option_view(secret), option_view(token), option_view(expiration))) {
            (Ok(c), Ok(expected)) => c@ == expected,
            (Err(e), Err(expected)) => e == expected,
            _ => false,
        },
{
    let k = match key {
        Some(k) if k.as_str().unicode_len() > 0 => k,
        _ => return Err(CredentialsError::MetadataFieldMissing(MetadataField::AccessKeyId)),
    };
    let s = match secret {
        Some(s) if s.as_str().unicode_len() > 0 => s,
        _ => return Err(CredentialsError::MetadataFieldMissing(MetadataField::SecretAccessKey)),
    };
    let t = match token {
        Some(t) => t,
        None => return Err(CredentialsError::MetadataFieldMissing(MetadataField::Token)),
    };
    let e = match expiration {
        Some(e) => e,
        None => return Err(CredentialsError::MetadataFieldMissing(MetadataField::Expiration)),
    };
    let expires_at = parse_instant(e.as_str());
    credentials_with_expiration(k, s, t, expires_at)
}

/// The credentials that a role document gives.
pub open spec fn document_outcome(body: Seq<char>) -> Result<CredentialsView, CredentialsError> {
    if json_parses(body) {
        fields_outcome(
            json_string_member(body, ACCESS_KEY_MEMBER@),
            json_string_member(body, SECRET_KEY_MEMBER@),
            json_string_member(body, TOKEN_MEMBER@),
            json_string_member(body, EXPIRATION_MEMBER@),
        )
    } else {
        Err(CredentialsError::MetadataResponseUnreadable)
    }
}

/// Read temporary credentials from the role document that the metadata service sent.
pub fn credentials_from_document(body: &str) -> (r: Result<AWSCredentials, CredentialsError>)
    ensures
        result_view(r) == document_outcome(body@),
{
    if !json_valid(body) {
        return Err(CredentialsError::MetadataResponseUnreadable);
    }
    let key = document_member(body, ACCESS_KEY_MEMBER);
    let secret = document_member(body, SECRET_KEY_MEMBER);
    let token = document_member(body, TOKEN_MEMBER);
    let expiration = document_member(body, EXPIRATION_MEMBER);
    role_credentials(key, secret, token, expiration)
}

/// What the exchange with the metadata service gave.
pub enum MetadataReply {
    /// A request could not be made or answered.
    Unreachable,
    /// A response body could not be read as text.
    Unreadable,
    /// The body of the role's credentials document.
    Document(String),
}

/// The credentials that a reply of the metadata service gives.
pub open spec fn reply_outcome(reply: MetadataReply) -> Result<CredentialsView, CredentialsError> {
    match reply {
        MetadataReply::Unreachable => Err(CredentialsError::MetadataServiceUnreachable),
        MetadataReply::Unreadable => Err(CredentialsError::MetadataResponseUnreadable),
        MetadataReply::Document(body) => document_outcome(body@),
    }
}

pub open spec fn result_view(r: Result<AWSCredentials, CredentialsError>) -> Result<CredentialsView, CredentialsError> {
    match r {
        Ok(c) => Ok(c@),
        Err(e) => Err(e),
    }
}

/// Takes temporary credentials from the instance metadata service; they are
/// cached until their own expiry comes within the margin.
pub struct IAMRoleCredentialsProvider {
    credentials: Option<AWSCredentials>,
}

impl IAMRoleCredentialsProvider {
    pub closed spec fn cache(&self) -> Option<CredentialsView> {
        cache_view(self.credentials)
    }

    /// A provider with nothing cached.
    pub fn new() -> (r: Self)
        ensures
            r.cache() is None,
    {
        IAMRoleCredentialsProvider { credentials: None }
    }

    /// The cached credentials, when they may still be used at `now`; when this
    /// is `None` the metadata service must be asked and its reply handed to `refresh`.
    pub fn cached_credentials(&self, now: i64) -> (r: Option<AWSCredentials>)
        ensures
            cache_view(r) == valid_cache(self.cache(), now as int),
    {
        cached_if_valid(&self.credentials, now)
    }

    /// Read credentials from the reply and cache them.
    /// On failure the cache is left as it was.
    pub fn refresh(&mut self, reply: &MetadataReply) -> (r: Result<AWSCredentials, CredentialsError>)
        ensures
            result_view(r) == reply_outcome(*reply),
            match r {
                Ok(c) => final(self).cache() == Some(c@),
                Err(_) => final(self).cache() == old(self).cache(),
            },
    {
        let r = match reply {
            MetadataReply::Unreachable => Err(CredentialsError::MetadataServiceUnreachable),
            MetadataReply::Unreadable => Err(CredentialsError::MetadataResponseUnreadable),
            MetadataReply::Document(body) => credentials_from_document(body.as_str()),
        };
        match r {
            Ok(c) => {
                self.credentials = Some(c.clone());
                Ok(c)
            },
            Err(e) => Err(e),
        }
    }
}

} // verus!

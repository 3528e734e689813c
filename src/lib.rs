//! Resolution of access credentials for signed API requests.
//!
//! Credentials come from the environment, from a profile of a credentials
//! file, or from the instance metadata service, consulted in that order by
//! `DefaultAWSCredentialsProviderChain`. Reading the environment, the file and
//! the network is left to the caller: the providers decide what to read and
//! what the result means, and cache what they found.
//!
//! Choices made here: credentials from the environment and from the file get
//! a ten-minute expiry, so edits to either are picked up within that time;
//! the chain starts again from the environment whenever its own cache
//! expires, rather than remembering which source last succeeded; and every
//! provider takes `&mut self`, so callers that share one across threads put
//! it behind a lock, which also keeps two refreshes of it from running at once.

pub mod chain;
pub mod codegen;
pub mod credentials;
pub mod environment;
pub mod instance_role;
pub mod profile;
pub mod text;

pub use chain::{ChainAction, DefaultAWSCredentialsProviderChain, Source};
pub use codegen::{AmazonService, GenerationPlan, error_type, generate, primitive_type};
pub use credentials::{AWSCredentials, CredentialsError, MetadataField};
pub use environment::{EnvironmentCredentialsProvider, credentials_from_environment};
pub use instance_role::{
    IAMRoleCredentialsProvider, MetadataReply, credentials_from_document, credentials_with_expiration,
    role_credentials, role_credentials_url,
};
pub use profile::{
    CredentialsFile, ProfileCredentialsProvider, ProfileSet, parse_credentials_file,
    parse_credentials_lines,
};

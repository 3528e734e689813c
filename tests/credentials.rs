use rusoto::{
    AWSCredentials, ChainAction, CredentialsError, CredentialsFile, DefaultAWSCredentialsProviderChain,
    EnvironmentCredentialsProvider, IAMRoleCredentialsProvider, MetadataField, MetadataReply,
    ProfileCredentialsProvider, Source, credentials_from_document, credentials_from_environment,
    credentials_with_expiration, parse_credentials_file, role_credentials, role_credentials_url,
};

const NOW: i64 = 1_500_000_000;

const DEFAULT_PROFILE_CREDENTIALS: &str = "[default]\naws_access_key_id = foo\naws_secret_access_key = bar\n";

const MULTIPLE_PROFILE_CREDENTIALS: &str = "[foo]\naws_access_key_id = foo_access_key\naws_secret_access_key = foo_secret_key\n\n[bar]\naws_access_key_id = bar_access_key\naws_secret_access_key = bar_secret_key\n";

const NO_CREDENTIALS: &str = "# this file has no credentials in it\n\n";

fn file_of(text: &str) -> CredentialsFile {
    CredentialsFile::Lines(text.lines().map(|l| l.to_string()).collect())
}

fn creds(key: &str, secret: &str, expires_at: i64) -> AWSCredentials {
    AWSCredentials::new(key.to_string(), secret.to_string(), None, expires_at)
}

#[test]
fn parse_credentials_file_default_profile() {
    let result = parse_credentials_file(&file_of(DEFAULT_PROFILE_CREDENTIALS), NOW);
    assert!(result.is_ok());

    let profiles = result.ok().unwrap();
    assert_eq!(profiles.len(), 1);

    let default_profile = profiles.get("default").unwrap();
    assert_eq!(default_profile.aws_access_key_id(), "foo");
    assert_eq!(default_profile.aws_secret_access_key(), "bar");
}

#[test]
fn parse_credentials_file_multiple_profiles() {
    let result = parse_credentials_file(&file_of(MULTIPLE_PROFILE_CREDENTIALS), NOW);
    assert!(result.is_ok());

    let profiles = result.ok().unwrap();
    assert_eq!(profiles.len(), 2);

    let foo_profile = profiles.get("foo").unwrap();
    assert_eq!(foo_profile.aws_access_key_id(), "foo_access_key");
    assert_eq!(foo_profile.aws_secret_access_key(), "foo_secret_key");

    let bar_profile = profiles.get("bar").unwrap();
    assert_eq!(bar_profile.aws_access_key_id(), "bar_access_key");
    assert_eq!(bar_profile.aws_secret_access_key(), "bar_secret_key");
}

#[test]
fn profile_credentials_provider_happy_path() {
    let mut provider = ProfileCredentialsProvider::with_configuration(
        "tests/sample-data/multiple_profile_credentials".to_string(),
        "foo".to_string(),
    );
    assert!(provider.cached_credentials(NOW).is_none());
    let result = provider.refresh(&file_of(MULTIPLE_PROFILE_CREDENTIALS), NOW);

    assert!(result.is_ok());

    let creds = result.ok().unwrap();
    assert_eq!(creds.aws_access_key_id(), "foo_access_key");
    assert_eq!(creds.aws_secret_access_key(), "foo_secret_key");
}

#[test]
fn profile_credentials_provider_bad_profile() {
    let mut provider = ProfileCredentialsProvider::with_configuration(
        "tests/sample-data/multiple_profile_credentials".to_string(),
        "not_a_profile".to_string(),
    );
    let result = provider.refresh(&file_of(MULTIPLE_PROFILE_CREDENTIALS), NOW);

    assert!(result.is_err());
    assert_eq!(result.as_ref().err(), Some(&CredentialsError::ProfileNotFound));
    assert_eq!(result.err().unwrap().message(), "profile not found");
}

#[test]
fn profile_credentials_provider_profile_name() {
    let mut provider = ProfileCredentialsProvider::new(Some("/home/user".to_string())).unwrap();
    assert_eq!("default", provider.profile());
    provider.set_profile("foo".to_string());
    assert_eq!("foo", provider.profile());
}

#[test]
fn credential_chain_explicit_profile_provider() {
    let profile_provider = ProfileCredentialsProvider::with_configuration(
        "tests/sample-data/multiple_profile_credentials".to_string(),
        "foo".to_string(),
    );

    let mut chain = DefaultAWSCredentialsProviderChain::with_profile_provider(profile_provider);

    let first = chain.begin(NOW);
    assert!(matches!(first, ChainAction::Consult(Source::Environment)));
    let env = credentials_from_environment(None, None, NOW);
    let second = chain.answer(env);
    assert!(matches!(second, ChainAction::Consult(Source::ProfileFile)));
    let from_file = chain.profile_refresh(&file_of(MULTIPLE_PROFILE_CREDENTIALS), NOW);
    let credentials = match chain.answer(from_file) {
        ChainAction::Return(c) => c,
        _ => panic!("Failed to get credentials from default provider chain with manual profile"),
    };

    assert_eq!(credentials.aws_access_key_id(), "foo_access_key");
    assert_eq!(credentials.aws_secret_access_key(), "foo_secret_key");
}

#[test]
fn existing_file_no_credentials() {
    let result = parse_credentials_file(&file_of(NO_CREDENTIALS), NOW);
    assert_eq!(result.as_ref().err(), Some(&CredentialsError::NoCredentialsInFile));
    assert_eq!(result.err().unwrap().message(), "No credentials found.");
}

#[test]
fn parse_credentials_bad_path() {
    let result = parse_credentials_file(&CredentialsFile::Missing, NOW);
    assert_eq!(result.as_ref().err(), Some(&CredentialsError::CredentialsFileNotFound));
    assert_eq!(result.err().unwrap().message(), "Couldn't stat credentials file.");
}

#[test]
fn parse_credentials_directory_path() {
    let result = parse_credentials_file(&CredentialsFile::NotAFile, NOW);
    assert_eq!(result.as_ref().err(), Some(&CredentialsError::CredentialsFileNotAFile));
    assert_eq!(result.err().unwrap().message(), "Couldn't open file.");
}

#[test]
fn default_and_foo_sections_give_two_profiles() {
    let text = "[default]\naws_access_key_id = d_key\naws_secret_access_key = d_secret\n[foo]\naws_access_key_id = f_key\naws_secret_access_key = f_secret\n";
    let profiles = parse_credentials_file(&file_of(text), NOW).unwrap();
    assert_eq!(profiles.len(), 2);
    assert_eq!(profiles.get("default").unwrap().aws_access_key_id(), "d_key");
    assert_eq!(profiles.get("foo").unwrap().aws_secret_access_key(), "f_secret");
}

#[test]
fn parsed_profiles_expire_in_ten_minutes_without_token() {
    let profiles = parse_credentials_file(&file_of(DEFAULT_PROFILE_CREDENTIALS), NOW).unwrap();
    let c = profiles.get("default").unwrap();
    assert_eq!(c.expires_at(), NOW + 600);
    assert_eq!(c.token(), &None);
}

#[test]
fn sections_missing_a_key_are_dropped() {
    let text = "[only_key]\naws_access_key_id = k1\n[only_secret]\naws_secret_access_key = s2\n[full]\naws_access_key_id = k3\naws_secret_access_key = s3\n";
    let profiles = parse_credentials_file(&file_of(text), NOW).unwrap();
    assert_eq!(profiles.len(), 1);
    assert!(profiles.get("only_key").is_none());
    assert!(profiles.get("only_secret").is_none());
    assert_eq!(profiles.get("full").unwrap().aws_access_key_id(), "k3");
}

#[test]
fn only_incomplete_sections_give_no_credentials() {
    let text = "[a]\naws_access_key_id = k1\n";
    let result = parse_credentials_file(&file_of(text), NOW);
    assert_eq!(result.err(), Some(CredentialsError::NoCredentialsInFile));
}

#[test]
fn unclosed_header_is_an_ordinary_line() {
    let text = "[default]\naws_access_key_id = k\n[incomplete\naws_secret_access_key = s\n";
    let profiles = parse_credentials_file(&file_of(text), NOW).unwrap();
    assert_eq!(profiles.len(), 1);
    assert!(profiles.get("incomplete").is_none());
    let c = profiles.get("default").unwrap();
    assert_eq!(c.aws_access_key_id(), "k");
    assert_eq!(c.aws_secret_access_key(), "s");
}

#[test]
fn key_names_match_ignoring_case_and_values_are_trimmed() {
    let text = "[p]\nAWS_Access_Key_ID=   spaced key  \nAws_Secret_Access_Key = a=b=c \n";
    let profiles = parse_credentials_file(&file_of(text), NOW).unwrap();
    let c = profiles.get("p").unwrap();
    assert_eq!(c.aws_access_key_id(), "spaced key");
    assert_eq!(c.aws_secret_access_key(), "a=b=c");
}

#[test]
fn first_key_line_of_a_section_wins_and_comments_are_skipped() {
    let text = "# aws_access_key_id = commented\n[p]\n#aws_access_key_id = also_commented\naws_access_key_id = first\naws_access_key_id = second\naws_secret_access_key = s\n";
    let profiles = parse_credentials_file(&file_of(text), NOW).unwrap();
    assert_eq!(profiles.get("p").unwrap().aws_access_key_id(), "first");
}

#[test]
fn repeated_section_name_keeps_one_profile() {
    let text = "[p]\naws_access_key_id = k1\naws_secret_access_key = s1\n[p]\naws_access_key_id = k2\naws_secret_access_key = s2\n";
    let profiles = parse_credentials_file(&file_of(text), NOW).unwrap();
    assert_eq!(profiles.len(), 1);
    assert_eq!(profiles.get("p").unwrap().aws_access_key_id(), "k2");
}

#[test]
fn header_names_are_case_sensitive() {
    let profiles = parse_credentials_file(&file_of(DEFAULT_PROFILE_CREDENTIALS), NOW).unwrap();
    assert!(profiles.get("Default").is_none());
}

#[test]
fn unreadable_file_is_a_parse_error() {
    let result = parse_credentials_file(&CredentialsFile::Unreadable, NOW);
    assert_eq!(result.err(), Some(CredentialsError::CredentialsFileParseError));
}

#[test]
fn expiry_boundary_at_twenty_seconds() {
    assert!(creds("k", "s", NOW + 19).credentials_are_expired(NOW));
    assert!(creds("k", "s", NOW + 20).credentials_are_expired(NOW));
    assert!(!creds("k", "s", NOW + 21).credentials_are_expired(NOW));
}

#[test]
fn absent_profile_leaves_cache_untouched() {
    let mut provider = ProfileCredentialsProvider::with_configuration("creds".to_string(), "foo".to_string());
    provider.refresh(&file_of(MULTIPLE_PROFILE_CREDENTIALS), NOW).unwrap();
    provider.set_profile("missing".to_string());
    let result = provider.refresh(&file_of(MULTIPLE_PROFILE_CREDENTIALS), NOW);
    assert_eq!(result.err(), Some(CredentialsError::ProfileNotFound));
    let cached = provider.cached_credentials(NOW).unwrap();
    assert_eq!(cached.aws_access_key_id(), "foo_access_key");
}

#[test]
fn default_provider_path_is_below_home() {
    let provider = ProfileCredentialsProvider::new(Some("/home/user".to_string())).unwrap();
    assert_eq!(provider.file_path(), "/home/user/.aws/credentials");
    let err = ProfileCredentialsProvider::new(None).err();
    assert_eq!(err, Some(CredentialsError::MissingHomeDirectory));
}

#[test]
fn environment_needs_both_variables() {
    let ok = credentials_from_environment(Some("k".to_string()), Some("s".to_string()), NOW).unwrap();
    assert_eq!(ok.aws_access_key_id(), "k");
    assert_eq!(ok.aws_secret_access_key(), "s");
    assert_eq!(ok.expires_at(), NOW + 600);
    let missing = credentials_from_environment(Some("k".to_string()), None, NOW);
    assert_eq!(missing.err(), Some(CredentialsError::MissingEnvironmentVariable));
    let empty = credentials_from_environment(Some(String::new()), Some("s".to_string()), NOW);
    assert_eq!(empty.err(), Some(CredentialsError::MissingEnvironmentVariable));
}

#[test]
fn environment_provider_caches_until_expiry() {
    let mut provider = EnvironmentCredentialsProvider::new();
    assert!(provider.cached_credentials(NOW).is_none());
    provider.refresh(Some("k".to_string()), Some("s".to_string()), NOW).unwrap();
    let again = provider.cached_credentials(NOW + 100).unwrap();
    assert_eq!(again.aws_access_key_id(), "k");
    assert!(provider.cached_credentials(NOW + 580).is_none());
}

const ROLE_DOCUMENT: &str = "{\"Code\":\"Success\",\"AccessKeyId\":\"ASIAKEY\",\"SecretAccessKey\":\"role_secret\",\"Token\":\"role_token\",\"Expiration\":\"2015-08-04T06:32:37Z\"}";

#[test]
fn role_document_gives_temporary_credentials() {
    let c = credentials_from_document(ROLE_DOCUMENT).unwrap();
    assert_eq!(c.aws_access_key_id(), "ASIAKEY");
    assert_eq!(c.aws_secret_access_key(), "role_secret");
    assert_eq!(c.token(), &Some("role_token".to_string()));
    assert_eq!(c.expires_at(), 1438669957);
}

#[test]
fn role_document_errors() {
    assert_eq!(credentials_from_document("not json").err(), Some(CredentialsError::MetadataResponseUnreadable));
    let no_token = "{\"AccessKeyId\":\"a\",\"SecretAccessKey\":\"b\",\"Expiration\":\"2015-08-04T06:32:37Z\"}";
    assert_eq!(
        credentials_from_document(no_token).err(),
        Some(CredentialsError::MetadataFieldMissing(MetadataField::Token))
    );
    let number_key = "{\"AccessKeyId\":7,\"SecretAccessKey\":\"b\",\"Token\":\"t\",\"Expiration\":\"2015-08-04T06:32:37Z\"}";
    assert_eq!(
        credentials_from_document(number_key).err(),
        Some(CredentialsError::MetadataFieldMissing(MetadataField::AccessKeyId))
    );
    let bad_time = "{\"AccessKeyId\":\"a\",\"SecretAccessKey\":\"b\",\"Token\":\"t\",\"Expiration\":\"tomorrow\"}";
    assert_eq!(credentials_from_document(bad_time).err(), Some(CredentialsError::MetadataTimestampUnparsable));
}

#[test]
fn role_fields_are_checked_in_order() {
    let s = |v: &str| Some(v.to_string());
    assert_eq!(
        role_credentials(None, None, None, None).err(),
        Some(CredentialsError::MetadataFieldMissing(MetadataField::AccessKeyId))
    );
    assert_eq!(
        role_credentials(s("a"), None, s("t"), s("e")).err(),
        Some(CredentialsError::MetadataFieldMissing(MetadataField::SecretAccessKey))
    );
    assert_eq!(
        role_credentials(s("a"), s("b"), s("t"), None).err(),
        Some(CredentialsError::MetadataFieldMissing(MetadataField::Expiration))
    );
    let c = role_credentials(s("a"), s("b"), s("t"), s("2015-08-04T06:32:37+00:00")).unwrap();
    assert_eq!(c.expires_at(), 1438669957);
}

#[test]
fn expiration_is_taken_as_given() {
    let c = credentials_with_expiration("a".to_string(), "b".to_string(), "t".to_string(), Some(42)).unwrap();
    assert_eq!(c.expires_at(), 42);
    assert_eq!(c.token(), &Some("t".to_string()));
    let e = credentials_with_expiration("a".to_string(), "b".to_string(), "t".to_string(), None);
    assert_eq!(e.err(), Some(CredentialsError::MetadataTimestampUnparsable));
}

#[test]
fn role_url_appends_role_name() {
    assert_eq!(
        role_credentials_url("my-role"),
        "http://169.254.169.254/latest/meta-data/iam/security-credentials/my-role"
    );
}

#[test]
fn instance_role_provider_keeps_cache_on_failure() {
    let mut provider = IAMRoleCredentialsProvider::new();
    let r = provider.refresh(&MetadataReply::Unreachable);
    assert_eq!(r.err(), Some(CredentialsError::MetadataServiceUnreachable));
    assert!(provider.cached_credentials(0).is_none());
    provider.refresh(&MetadataReply::Document(ROLE_DOCUMENT.to_string())).unwrap();
    let r = provider.refresh(&MetadataReply::Unreadable);
    assert_eq!(r.err(), Some(CredentialsError::MetadataResponseUnreadable));
    let cached = provider.cached_credentials(1438669957 - 30).unwrap();
    assert_eq!(cached.aws_access_key_id(), "ASIAKEY");
    assert!(provider.cached_credentials(1438669957 - 20).is_none());
}

#[test]
fn chain_reuses_cache_within_window() {
    let provider = ProfileCredentialsProvider::with_configuration("creds".to_string(), "default".to_string());
    let mut chain = DefaultAWSCredentialsProviderChain::with_profile_provider(provider);
    assert!(matches!(chain.begin(NOW), ChainAction::Consult(Source::Environment)));
    let env = credentials_from_environment(Some("k".to_string()), Some("s".to_string()), NOW);
    let first = match chain.answer(env) {
        ChainAction::Return(c) => c,
        _ => panic!("no credentials returned"),
    };
    for t in [NOW + 1, NOW + 500, NOW + 579] {
        match chain.begin(t) {
            ChainAction::Return(c) => {
                assert_eq!(c.aws_access_key_id(), first.aws_access_key_id());
                assert_eq!(c.aws_secret_access_key(), first.aws_secret_access_key());
                assert_eq!(c.token(), first.token());
                assert_eq!(c.expires_at(), first.expires_at());
            }
            _ => panic!("no credentials returned"),
        }
        assert_eq!(chain.awaiting(), None);
    }
    assert!(matches!(chain.begin(NOW + 580), ChainAction::Consult(Source::Environment)));
}

#[test]
fn chain_prefers_environment() {
    let provider = ProfileCredentialsProvider::with_configuration("creds".to_string(), "foo".to_string());
    let mut chain = DefaultAWSCredentialsProviderChain::with_profile_provider(provider);
    assert!(matches!(chain.begin(NOW), ChainAction::Consult(Source::Environment)));
    let env = credentials_from_environment(Some("env_key".to_string()), Some("env_secret".to_string()), NOW);
    match chain.answer(env) {
        ChainAction::Return(c) => assert_eq!(c.aws_access_key_id(), "env_key"),
        _ => panic!("no credentials returned"),
    }
    assert_eq!(chain.awaiting(), None);
}

#[test]
fn chain_exhausts_when_every_source_fails() {
    let provider = ProfileCredentialsProvider::with_configuration("/nonexistent".to_string(), "default".to_string());
    let mut chain = DefaultAWSCredentialsProviderChain::with_profile_provider(provider);
    assert!(matches!(chain.begin(NOW), ChainAction::Consult(Source::Environment)));
    let env = credentials_from_environment(None, None, NOW);
    assert!(matches!(chain.answer(env), ChainAction::Consult(Source::ProfileFile)));
    let file = chain.profile_refresh(&CredentialsFile::Missing, NOW);
    assert!(matches!(chain.answer(file), ChainAction::Consult(Source::InstanceRole)));
    let role = IAMRoleCredentialsProvider::new().refresh(&MetadataReply::Unreachable);
    let last = chain.answer(role);
    assert!(matches!(last, ChainAction::Exhausted));
    assert_eq!(last.into_result().unwrap().err(), Some(CredentialsError::AllProvidersExhausted));
}

#[test]
fn empty_key_value_counts_as_unset() {
    let text = "[p]\naws_access_key_id =\naws_access_key_id = later\naws_secret_access_key = s\n[q]\naws_access_key_id = k\naws_secret_access_key =   \n";
    let profiles = parse_credentials_file(&file_of(text), NOW).unwrap();
    assert_eq!(profiles.len(), 1);
    assert_eq!(profiles.get("p").unwrap().aws_access_key_id(), "later");
    assert!(profiles.get("q").is_none());
}

#[test]
fn role_document_with_empty_key_is_missing_field() {
    let empty_key = "{\"AccessKeyId\":\"\",\"SecretAccessKey\":\"b\",\"Token\":\"t\",\"Expiration\":\"2015-08-04T06:32:37Z\"}";
    assert_eq!(
        credentials_from_document(empty_key).err(),
        Some(CredentialsError::MetadataFieldMissing(MetadataField::AccessKeyId))
    );
    let empty_secret = "{\"AccessKeyId\":\"a\",\"SecretAccessKey\":\"\",\"Token\":\"t\",\"Expiration\":\"2015-08-04T06:32:37Z\"}";
    assert_eq!(
        credentials_from_document(empty_secret).err(),
        Some(CredentialsError::MetadataFieldMissing(MetadataField::SecretAccessKey))
    );
}

#[test]
fn default_path_joins_like_a_path() {
    let slash = ProfileCredentialsProvider::new(Some("/".to_string())).unwrap();
    assert_eq!(slash.file_path(), "/.aws/credentials");
    let empty = ProfileCredentialsProvider::new(Some(String::new())).unwrap();
    assert_eq!(empty.file_path(), ".aws/credentials");
    let trailing = ProfileCredentialsProvider::new(Some("/home/user/".to_string())).unwrap();
    assert_eq!(trailing.file_path(), "/home/user/.aws/credentials");
}

#[test]
fn instance_role_refresh_reads_document_members() {
    let mut provider = IAMRoleCredentialsProvider::new();
    let c = provider.refresh(&MetadataReply::Document(ROLE_DOCUMENT.to_string())).unwrap();
    assert_eq!(c.aws_access_key_id(), "ASIAKEY");
    assert_eq!(c.token(), &Some("role_token".to_string()));
    let bad = provider.refresh(&MetadataReply::Document("[1, 2".to_string()));
    assert_eq!(bad.err(), Some(CredentialsError::MetadataResponseUnreadable));
}

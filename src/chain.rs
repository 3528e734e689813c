//! The provider chain: environment, then credentials file, then instance role,
//! with a cache of its own.
//!
//! The chain decides and the caller acts: `begin` either returns the cached
//! credentials or names the source to consult; the caller consults it and
//! hands the outcome to `answer`, which names the next source, returns the
//! credentials, or reports that every source failed.

use vstd::prelude::*;
use crate::credentials::{AWSCredentials, CredentialsError, CredentialsView, LATEST_TIME, cache_view, cached_if_valid, valid_cache};
use crate::profile::{CredentialsFile, ProfileCredentialsProvider};

verus! {

/// A source of credentials, in the chain's order of priority.
#[derive(Clone, Copy, Debug, PartialEq, Eq, Structural)]
pub enum Source {
    Environment,
    ProfileFile,
    InstanceRole,
}

/// The source consulted after `s` fails, if any.
pub open spec fn next_source(s: Source) -> Option<Source> {
    match s {
        Source::Environment => Some(Source::ProfileFile),
        Source::ProfileFile => Some(Source::InstanceRole),
        Source::InstanceRole => None,
    }
}

/// What the caller of the chain is to do next.
pub enum ChainAction {
    /// Resolution is done: use these credentials.
    Return(AWSCredentials),
    /// Consult this source and hand its outcome to `answer`.
    Consult(Source),
    /// Every source failed.
    Exhausted,
}

pub ghost enum ActionView {
    Return(CredentialsView),
    Consult(Source),
    Exhausted,
}

impl View for ChainAction {
    type V = ActionView;

    open spec fn view(&self) -> ActionView {
        match self {
            ChainAction::Return(c) => ActionView::Return(c@),
            ChainAction::Consult(s) => ActionView::Consult(*s),
            ChainAction::Exhausted => ActionView::Exhausted,
        }
    }
}

impl ChainAction {
    /// The outcome of a resolution that this action ends, or `None` when a
    /// source must still be consulted.
    pub fn into_result(self) -> (r: Option<Result<AWSCredentials, CredentialsError>>)
        ensures
            match self@ {
                ActionView::Return(c) => r matches Some(Ok(x)) && x@ == c,
                ActionView::Consult(_) => r is None,
                ActionView::Exhausted => r == Some(Err::<AWSCredentials, CredentialsError>(CredentialsError::AllProvidersExhausted)),
            },
    {
        match self {
            ChainAction::Return(c) => Some(Ok(c)),
            ChainAction::Consult(_) => None,
            ChainAction::Exhausted => Some(Err(CredentialsError::AllProvidersExhausted)),
        }
    }
}

/// The chain's own state: its cache, and the source whose outcome it awaits.
pub ghost struct ChainState {
    pub cache: Option<CredentialsView>,
    pub awaiting: Option<Source>,
}

/// Start a resolution at `now`.
pub open spec fn begin_step(st: ChainState, now: int) -> (ChainState, ActionView) {
    match valid_cache(st.cache, now) {
        Some(c) => (ChainState { awaiting: None, ..st }, ActionView::Return(c)),
        None => (ChainState { awaiting: Some(Source::Environment), ..st }, ActionView::Consult(Source::Environment)),
    }
}

/// Take the outcome of the awaited source: `Some` on success.
pub open spec fn answer_step(st: ChainState, outcome: Option<CredentialsView>) -> (ChainState, ActionView)
    recommends
        st.awaiting is Some,
{
    match outcome {
        Some(c) => (ChainState { cache: Some(c), awaiting: None }, ActionView::Return(c)),
        None => match next_source(st.awaiting.unwrap()) {
            Some(n) => (ChainState { awaiting: Some(n), ..st }, ActionView::Consult(n)),
            None => (ChainState { awaiting: None, ..st }, ActionView::Exhausted),
        },
    }
}

pub open spec fn success_view(r: Result<AWSCredentials, CredentialsError>) -> Option<CredentialsView> {
    match r {
        Ok(c) => Some(c@),
        Err(_) => None,
    }
}

/// Consults the environment, then a credentials file, then the instance role,
/// and caches the first credentials found.
pub struct DefaultAWSCredentialsProviderChain {
    credentials: Option<AWSCredentials>,
    profile_credentials_provider: ProfileCredentialsProvider,
    awaiting: Option<Source>,
}

impl View for DefaultAWSCredentialsProviderChain {
    type V = ChainState;

    closed spec fn view(&self) -> ChainState {
        ChainState { cache: cache_view(self.credentials), awaiting: self.awaiting }
    }
}

impl DefaultAWSCredentialsProviderChain {
    pub closed spec fn profile_provider_spec(&self) -> ProfileCredentialsProvider {
        self.profile_credentials_provider
    }

    /// A chain whose file source is the default file and profile below `home`.
    pub fn new(home: Option<String>) -> (r: Result<Self, CredentialsError>)
        ensures
            home is None ==> r == Err::<Self, CredentialsError>(CredentialsError::MissingHomeDirectory),
            home matches Some(h) ==> r matches Ok(c) && c@ == (ChainState { cache: None, awaiting: None })
                && c.profile_provider_spec().cache() is None
                && c.profile_provider_spec().path_view() == crate::profile::default_credentials_path(h@)
                && c.profile_provider_spec().profile_view() == crate::profile::DEFAULT_PROFILE@,
    {
        match ProfileCredentialsProvider::new(home) {
            Ok(p) => Ok(DefaultAWSCredentialsProviderChain { credentials: None, profile_credentials_provider: p, awaiting: None }),
            Err(e) => Err(e),
        }
    }

    /// A chain whose file source is the given provider.
    pub fn with_profile_provider(profile_credentials_provider: ProfileCredentialsProvider) -> (r: Self)
        ensures
            r@ == (ChainState { cache: None, awaiting: None }),
            r.profile_provider_spec() == profile_credentials_provider,
    {
        DefaultAWSCredentialsProviderChain { credentials: None, profile_credentials_provider, awaiting: None }
    }

    /// The source whose outcome the chain awaits, if any.
    pub fn awaiting(&self) -> (r: Option<Source>)
        ensures
            r == self@.awaiting,
    {
        self.awaiting
    }

    /// The provider that the chain consults for the credentials file.
    pub fn profile_provider(&self) -> (r: &ProfileCredentialsProvider)
        ensures
            *r == self.profile_provider_spec(),
    {
        &self.profile_credentials_provider
    }

    /// Start a resolution at `now`: the cached credentials while they are
    /// valid, else the first source to consult.
    pub fn begin(&mut self, now: i64) -> (r: ChainAction)
        ensures
            (final(self)@, r@) == begin_step(old(self)@, now as int),
            final(self).profile_provider_spec() == old(self).profile_provider_spec(),
    {
        match cached_if_valid(&self.credentials, now) {
            Some(c) => {
                self.awaiting = None;
                ChainAction::Return(c)
            },
            None => {
                self.awaiting = Some(Source::Environment);
                ChainAction::Consult(Source::Environment)
            },
        }
    }

    /// Take the outcome of the awaited source. A failure is not surfaced: the
    /// next source is named, or, after the last, `Exhausted`.
    pub fn answer(&mut self, outcome: Result<AWSCredentials, CredentialsError>) -> (r: ChainAction)
        requires
            old(self)@.awaiting is Some,
        ensures
            (final(self)@, r@) == answer_step(old(self)@, success_view(outcome)),
            final(self).profile_provider_spec() == old(self).profile_provider_spec(),
    {
        match outcome {
            Ok(c) => {
                self.credentials = Some(c.clone());
                self.awaiting = None;
                ChainAction::Return(c)
            },
            Err(_) => match self.awaiting {
                Some(Source::Environment) => {
                    self.awaiting = Some(Source::ProfileFile);
                    ChainAction::Consult(Source::ProfileFile)
                },
                Some(Source::ProfileFile) => {
                    self.awaiting = Some(Source::InstanceRole);
                    ChainAction::Consult(Source::InstanceRole)
                },
                _ => {
                    self.awaiting = None;
                    ChainAction::Exhausted
                },
            },
        }
    }

    /// The file provider's cached credentials, when valid at `now`.
    pub fn profile_cached_credentials(&self, now: i64) -> (r: Option<AWSCredentials>)
        ensures
            cache_view(r) == valid_cache(self.profile_provider_spec().cache(), now as int),
    {
        self.profile_credentials_provider.cached_credentials(now)
    }

    /// Hand the file just read to the file provider (see `ProfileCredentialsProvider::refresh`).
    pub fn profile_refresh(&mut self, file: &CredentialsFile, now: i64) -> (r: Result<AWSCredentials, CredentialsError>)
        requires
            now <= LATEST_TIME,
        ensures
            final(self)@ == old(self)@,
            final(self).profile_provider_spec().path_view() == old(self).profile_provider_spec().path_view(),
            final(self).profile_provider_spec().profile_view() == old(self).profile_provider_spec().profile_view(),
            match (r, crate::profile::profile_outcome(*file, old(self).profile_provider_spec().profile_view(), now as int)) {
                (Ok(c), Ok(expected)) => c@ == expected && final(self).profile_provider_spec().cache() == Some(expected),
                (Err(e), Err(expected)) => e == expected
                    && final(self).profile_provider_spec().cache() == old(self).profile_provider_spec().cache(),
                _ => false,
            },
    {
        self.profile_credentials_provider.refresh(file, now)
    }
}


/// Two resolutions while the cached credentials stay valid both return those
/// same credentials, consult no source, and leave the chain's state as the
/// first one left it.
pub proof fn lemma_cached_resolution_is_stable(st: ChainState, c: CredentialsView, t1: int, t2: int)
    requires
        st.cache == Some(c),
        t1 <= t2,
        !crate::credentials::is_expired(c, t2),
    ensures
        begin_step(st, t1).1 == ActionView::Return(c),
        begin_step(begin_step(st, t1).0, t2).1 == ActionView::Return(c),
        begin_step(begin_step(st, t1).0, t2).0 == begin_step(st, t1).0,
{
}

/// Credentials that a source just gave are returned, without consulting any
/// source, by a later resolution while they stay valid.
pub proof fn lemma_fresh_credentials_are_reused(st: ChainState, c: CredentialsView, now: int)
    requires
        st.awaiting is Some,
        !crate::credentials::is_expired(c, now),
    ensures
        answer_step(st, Some(c)).1 == ActionView::Return(c),
        begin_step(answer_step(st, Some(c)).0, now).1 == ActionView::Return(c),
{
}

/// Without valid cached credentials, the environment is consulted first, and
/// when it gives credentials they are cached and returned: neither the file
/// nor the instance role is consulted.
pub proof fn lemma_environment_has_priority(st: ChainState, env: CredentialsView, now: int)
    requires
        valid_cache(st.cache, now) is None,
    ensures
        begin_step(st, now).1 == ActionView::Consult(Source::Environment),
        answer_step(begin_step(st, now).0, Some(env)).1 == ActionView::Return(env),
        answer_step(begin_step(st, now).0, Some(env)).0 == (ChainState { cache: Some(env), awaiting: None }),
{
}

/// Without valid cached credentials, when every source fails the sources are
/// consulted in the order environment, file, instance role, and the
/// resolution ends exhausted with the cache unchanged.
pub proof fn lemma_all_sources_failing_exhausts(st: ChainState, now: int)
    requires
        valid_cache(st.cache, now) is None,
    ensures
        ({
            let s1 = begin_step(st, now);
            let s2 = answer_step(s1.0, None);
            let s3 = answer_step(s2.0, None);
            let s4 = answer_step(s3.0, None);
            &&& s1.1 == ActionView::Consult(Source::Environment)
            &&& s2.1 == ActionView::Consult(Source::ProfileFile)
            &&& s3.1 == ActionView::Consult(Source::InstanceRole)
            &&& s4.1 == ActionView::Exhausted
            &&& s4.0 == (ChainState { cache: st.cache, awaiting: None })
        }),
{
}

} // verus!

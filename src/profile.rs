//! The credentials file: its line grammar, the set of profiles it defines,
//! and the provider that selects one profile from it.

use vstd::prelude::*;
use crate::credentials::{
    AWSCredentials, CredentialsError, CredentialsView, LATEST_TIME, cache_view, cached_if_valid,
    in_ten_minutes, option_view, synthetic, valid_cache,
};
use crate::text::{
    contains_lowered, contains_lowered_exec, value_after_equals, value_after_equals_exec,
};

verus! {

/// Key name of the access key ID inside a profile block.
pub const ACCESS_KEY_NAME: &'static str = "aws_access_key_id";

/// Key name of the secret access key inside a profile block.
pub const SECRET_KEY_NAME: &'static str = "aws_secret_access_key";

/// Profile chosen when none is configured.
pub const DEFAULT_PROFILE: &'static str = "default";

/// Location of the credentials file relative to the home directory.
pub const CREDENTIALS_RELATIVE_PATH: &'static str = ".aws/credentials";

/// Named credentials, in order of first definition.
pub type ProfilesView = Seq<(Seq<char>, CredentialsView)>;

/// The state of the line-by-line reading of a credentials file.
pub ghost struct ParseState {
    pub name: Option<Seq<char>>,
    pub access: Option<Seq<char>>,
    pub secret: Option<Seq<char>>,
    pub profiles: ProfilesView,
}

pub open spec fn is_comment(line: Seq<char>) -> bool {
    line.len() > 0 && line[0] == '#'
}

/// A line that is exactly `[name]`, with a non-empty name holding no `]`.
pub open spec fn is_header(line: Seq<char>) -> bool {
    &&& line.len() >= 3
    &&& line[0] == '['
    &&& line[line.len() - 1] == ']'
    &&& forall|i: int| 1 <= i < line.len() - 1 ==> #[trigger] line[i] != ']'
}

pub open spec fn header_name(line: Seq<char>) -> Seq<char> {
    line.subrange(1, line.len() - 1)
}

/// Index of the first profile at or after `i` named `name`, or -1.
pub open spec fn index_of_name(ps: ProfilesView, name: Seq<char>, i: int) -> int
    decreases ps.len() - i,
{
    if i < 0 || i >= ps.len() {
        -1
    } else if ps[i].0 == name {
        i
    } else {
        index_of_name(ps, name, i + 1)
    }
}

/// The credentials of the profile named `name`.
pub open spec fn lookup(ps: ProfilesView, name: Seq<char>) -> Option<CredentialsView> {
    let k = index_of_name(ps, name, 0);
    if k < 0 {
        None
    } else {
        Some(ps[k].1)
    }
}

/// Add a profile, replacing one of the same name.
pub open spec fn insert_profile(ps: ProfilesView, name: Seq<char>, c: CredentialsView) -> ProfilesView {
    let k = index_of_name(ps, name, 0);
    if k < 0 {
        ps.push((name, c))
    } else {
        ps.update(k, (name, c))
    }
}

/// The profiles once the pending block is added, if it has a name and both keys.
pub open spec fn flush(st: ParseState, now: int) -> ProfilesView {
    match (st.name, st.access, st.secret) {
        (Some(n), Some(a), Some(s)) => insert_profile(st.profiles, n, synthetic(a, s, now)),
        _ => st.profiles,
    }
}

pub open spec fn initial_state() -> ParseState {
    ParseState { name: None, access: None, secret: None, profiles: Seq::empty() }
}

/// The value of a key line, when it has a `=` and a non-empty value.
pub open spec fn key_value(line: Seq<char>) -> Option<Seq<char>> {
    match value_after_equals(line) {
        Some(v) => if v.len() > 0 { Some(v) } else { None },
        None => None,
    }
}

/// The effect of one line of the file.
pub open spec fn step(st: ParseState, line: Seq<char>, now: int) -> ParseState {
    if is_comment(line) {
        st
    } else if is_header(line) {
        ParseState { name: Some(header_name(line)), access: None, secret: None, profiles: flush(st, now) }
    } else if contains_lowered(line, ACCESS_KEY_NAME@) {
        if st.access is None {
            ParseState { access: key_value(line), ..st }
        } else {
            st
        }
    } else if contains_lowered(line, SECRET_KEY_NAME@) {
        if st.secret is None {
            ParseState { secret: key_value(line), ..st }
        } else {
            st
        }
    } else {
        st
    }
}

/// The state after reading all of `lines`.
pub open spec fn run(lines: Seq<Seq<char>>, now: int) -> ParseState
    decreases lines.len(),
{
    if lines.len() == 0 {
        initial_state()
    } else {
        step(run(lines.drop_last(), now), lines.last(), now)
    }
}

/// The profiles that a file of these lines defines.
pub open spec fn parsed_profiles(lines: Seq<Seq<char>>, now: int) -> ProfilesView {
    flush(run(lines, now), now)
}

pub open spec fn line_views(lines: Seq<String>) -> Seq<Seq<char>> {
    lines.map_values(|l: String| l@)
}

/// No two profiles share a name.
pub open spec fn names_unique(ps: ProfilesView) -> bool {
    forall|i: int, j: int| 0 <= i < j < ps.len() ==> #[trigger] ps[i].0 != #[trigger] ps[j].0
}

proof fn lemma_index_absent(ps: ProfilesView, m: Seq<char>, i: int)
    requires
        0 <= i,
        index_of_name(ps, m, i) == -1,
    ensures
        forall|j: int| i <= j < ps.len() ==> #[trigger] ps[j].0 != m,
    decreases ps.len() - i,
{
    if i < ps.len() {
        lemma_index_absent(ps, m, i + 1);
    }
}

/// Adding a profile keeps the names unique.
pub proof fn lemma_insert_keeps_names_unique(ps: ProfilesView, name: Seq<char>, c: CredentialsView)
    requires
        names_unique(ps),
    ensures
        names_unique(insert_profile(ps, name, c)),
{
    let k = index_of_name(ps, name, 0);
    lemma_index_bounds(ps, name, 0);
    if k < 0 {
        lemma_index_absent(ps, name, 0);
        let qs = ps.push((name, c));
        assert forall|i: int, j: int| 0 <= i < j < qs.len() implies #[trigger] qs[i].0 != #[trigger] qs[j].0 by {
            if j == ps.len() {
                assert(ps[i].0 != name);
            } else {
                assert(ps[i].0 != ps[j].0);
            }
        }
    } else {
        lemma_index_bounds(ps, name, 0);
        let qs = ps.update(k, (name, c));
        assert forall|i: int, j: int| 0 <= i < j < qs.len() implies #[trigger] qs[i].0 != #[trigger] qs[j].0 by {
            assert(qs[i].0 == ps[i].0);
            assert(qs[j].0 == ps[j].0);
            assert(ps[i].0 != ps[j].0);
        }
    }
}

/// Profiles read from a credentials file.
pub struct ProfileSet {
    entries: Vec<(String, AWSCredentials)>,
}

impl View for ProfileSet {
    type V = ProfilesView;

    closed spec fn view(&self) -> ProfilesView {
        self.entries@.map_values(|e: (String, AWSCredentials)| (e.0@, e.1@))
    }
}

impl ProfileSet {
    /// Profile names are unique.
    #[verifier::type_invariant]
    spec fn unique_names(&self) -> bool {
        names_unique(self@)
    }

    fn empty() -> (r: Self)
        ensures
            r@ == Seq::<(Seq<char>, CredentialsView)>::empty(),
    {
        let r = ProfileSet { entries: Vec::new() };
        assert(r@ =~= Seq::<(Seq<char>, CredentialsView)>::empty());
        r
    }

    fn find(&self, name: &String) -> (r: Option<usize>)
        ensures
            match r {
                Some(k) => index_of_name(self@, name@, 0) == k as int && k < self@.len(),
                None => index_of_name(self@, name@, 0) == -1,
            },
    {
        let n = self.entries.len();
        let mut i: usize = 0;
        while i < n
            invariant
                n == self@.len(),
                i <= n,
                index_of_name(self@, name@, 0) == index_of_name(self@, name@, i as int),
            decreases n - i,
        {
            if self.entries[i].0 == *name {
                return Some(i);
            }
            i = i + 1;
        }
        None
    }

    fn inserted(self, name: String, c: AWSCredentials) -> (r: Self)
        ensures
            r@ == insert_profile(self@, name@, c@),
    {
        proof {
            use_type_invariant(&self);
            lemma_insert_keeps_names_unique(self@, name@, c@);
        }
        let ghost before = self@;
        let ghost nv = name@;
        let ghost cv = c@;
        let found = self.find(&name);
        let ProfileSet { mut entries } = self;
        match found {
            Some(k) => {
                entries.set(k, (name, c));
            },
            None => {
                entries.push((name, c));
            },
        }
        proof {
            let after = entries@.map_values(|e: (String, AWSCredentials)| (e.0@, e.1@));
            if found is Some {
                assert(after =~= before.update(found.unwrap() as int, (nv, cv)));
            } else {
                assert(after =~= before.push((nv, cv)));
            }
        }
        ProfileSet { entries }
    }

    /// The number of profiles, each under a name of its own.
    pub fn len(&self) -> (r: usize)
        ensures
            r == self@.len(),
            names_unique(self@),
    {
        proof {
            use_type_invariant(self);
        }
        self.entries.len()
    }

    /// The credentials of the profile named `name`.
    pub fn get(&self, name: &str) -> (r: Option<&AWSCredentials>)
        ensures
            match r {
                Some(c) => lookup(self@, name@) == Some(c@),
                None => lookup(self@, name@) is None,
            },
    {
        let key = String::from_str(name);
        match self.find(&key) {
            Some(k) => Some(&self.entries[k].1),
            None => None,
        }
    }
}

fn is_header_exec(line: &str) -> (r: bool)
    ensures
        r == is_header(line@),
{
    let n = line.unicode_len();
    if n < 3 || line.get_char(0) != '[' || line.get_char(n - 1) != ']' {
        return false;
    }
    let mut i: usize = 1;
    while i < n - 1
        invariant
            n == line@.len(),
            n >= 3,
            1 <= i <= n - 1,
            forall|j: int| 1 <= j < i ==> #[trigger] line@[j] != ']',
        decreases n - i,
    {
        if line.get_char(i) == ']' {
            return false;
        }
        i = i + 1;
    }
    true
}

fn key_value_exec(line: &str) -> (r: Option<String>)
    ensures
        option_view(r) == key_value(line@),
        r matches Some(v) ==> v@.len() > 0,
{
    match value_after_equals_exec(line) {
        Some(v) => {
            if v.as_str().unicode_len() > 0 {
                Some(v)
            } else {
                None
            }
        },
        None => None,
    }
}

fn flush_exec(
    name: &Option<String>,
    access: &Option<String>,
    secret: &Option<String>,
    profiles: ProfileSet,
    now: i64,
) -> (r: ProfileSet)
    requires
        now <= LATEST_TIME,
        access matches Some(a) ==> a@.len() > 0,
        secret matches Some(s) ==> s@.len() > 0,
    ensures
        r@ == flush(
            ParseState {
                name: option_view(*name),
                access: option_view(*access),
                secret: option_view(*secret),
                profiles: profiles@,
            },
            now as int,
        ),
{
    if let Some(n) = name {
        if let Some(a) = access {
            if let Some(s) = secret {
                return profiles.inserted(n.clone(), in_ten_minutes(a.clone(), s.clone(), now));
            }
        }
    }
    profiles
}

/// Read the profiles defined by the lines of a credentials file.
///
/// A block is kept when it has a `[name]` header and both keys; other blocks
/// are dropped. Only a file that defines no profile at all is an error.
pub fn parse_credentials_lines(lines: &Vec<String>, now: i64) -> (r: Result<ProfileSet, CredentialsError>)
    requires
        now <= LATEST_TIME,
    ensures
        match r {
            Ok(ps) => ps@ == parsed_profiles(line_views(lines@), now as int) && ps@.len() > 0
                && names_unique(ps@),
            Err(e) => e == CredentialsError::NoCredentialsInFile
                && parsed_profiles(line_views(lines@), now as int).len() == 0,
        },
{
    let ghost views = line_views(lines@);
    let mut name: Option<String> = None;
    let mut access: Option<String> = None;
    let mut secret: Option<String> = None;
    let mut profiles = ProfileSet::empty();
    let n = lines.len();
    let mut i: usize = 0;
    assert(views.take(0) =~= Seq::<Seq<char>>::empty());
    while i < n
        invariant
            n == lines@.len(),
            views == line_views(lines@),
            now <= LATEST_TIME,
            i <= n,
            access matches Some(a) ==> a@.len() > 0,
            secret matches Some(s) ==> s@.len() > 0,
            run(views.take(i as int), now as int) == (ParseState {
                name: option_view(name),
                access: option_view(access),
                secret: option_view(secret),
                profiles: profiles@,
            }),
        decreases n - i,
    {
        let line = lines[i].as_str();
        assert(views.take(i + 1).drop_last() =~= views.take(i as int));
        assert(views.take(i + 1).last() == line@);
        if line.unicode_len() > 0 && line.get_char(0) == '#' {
        } else if is_header_exec(line) {
            profiles = flush_exec(&name, &access, &secret, profiles, now);
            let len = line.unicode_len();
            name = Some(String::from_str(line.substring_char(1, len - 1)));
            access = None;
            secret = None;
        } else if contains_lowered_exec(line, ACCESS_KEY_NAME) {
            if access.is_none() {
                access = key_value_exec(line);
            }
        } else if contains_lowered_exec(line, SECRET_KEY_NAME) {
            if secret.is_none() {
                secret = key_value_exec(line);
            }
        }
        i = i + 1;
    }
    assert(views.take(n as int) =~= views);
    profiles = flush_exec(&name, &access, &secret, profiles, now);
    proof {
        use_type_invariant(&profiles);
    }
    if profiles.len() == 0 {
        Err(CredentialsError::NoCredentialsInFile)
    } else {
        Ok(profiles)
    }
}


/// What reading the credentials file gave.
pub enum CredentialsFile {
    /// Nothing exists at the path.
    Missing,
    /// The path exists but is not a regular file.
    NotAFile,
    /// The file could not be read as UTF-8 text.
    Unreadable,
    /// The file's lines, without their line terminators.
    Lines(Vec<String>),
}

/// The profiles of a credentials file, or why there are none.
pub open spec fn file_outcome(file: CredentialsFile, now: int) -> Result<ProfilesView, CredentialsError> {
    match file {
        CredentialsFile::Missing => Err(CredentialsError::CredentialsFileNotFound),
        CredentialsFile::NotAFile => Err(CredentialsError::CredentialsFileNotAFile),
        CredentialsFile::Unreadable => Err(CredentialsError::CredentialsFileParseError),
        CredentialsFile::Lines(lines) => {
            let ps = parsed_profiles(line_views(lines@), now);
            if ps.len() == 0 {
                Err(CredentialsError::NoCredentialsInFile)
            } else {
                Ok(ps)
            }
        },
    }
}

/// Read the profiles of a credentials file.
pub fn parse_credentials_file(file: &CredentialsFile, now: i64) -> (r: Result<ProfileSet, CredentialsError>)
    requires
        now <= LATEST_TIME,
    ensures
        match (r, file_outcome(*file, now as int)) {
            (Ok(ps), Ok(expected)) => ps@ == expected,
            (Err(e), Err(expected)) => e == expected,
            _ => false,
        },
{
    match file {
        CredentialsFile::Missing => Err(CredentialsError::CredentialsFileNotFound),
        CredentialsFile::NotAFile => Err(CredentialsError::CredentialsFileNotAFile),
        CredentialsFile::Unreadable => Err(CredentialsError::CredentialsFileParseError),
        CredentialsFile::Lines(lines) => parse_credentials_lines(lines, now),
    }
}

/// The credentials that a profile provider selects from a file.
pub open spec fn profile_outcome(file: CredentialsFile, profile: Seq<char>, now: int) -> Result<CredentialsView, CredentialsError> {
    match file_outcome(file, now) {
        Err(e) => Err(e),
        Ok(ps) => match lookup(ps, profile) {
            Some(c) => Ok(c),
            None => Err(CredentialsError::ProfileNotFound),
        },
    }
}

/// The default location of the credentials file for a home directory.
/// The relative path is joined to the home directory with one `/`; an empty
/// home directory leaves it relative.
pub open spec fn default_credentials_path(home: Seq<char>) -> Seq<char> {
    if home.len() == 0 {
        CREDENTIALS_RELATIVE_PATH@
    } else if home.last() == '/' {
        home + CREDENTIALS_RELATIVE_PATH@
    } else {
        home + "/"@ + CREDENTIALS_RELATIVE_PATH@
    }
}

fn default_credentials_path_exec(home: String) -> (r: String)
    ensures
        r@ == default_credentials_path(home@),
{
    let n = home.as_str().unicode_len();
    if n == 0 {
        String::from_str(CREDENTIALS_RELATIVE_PATH)
    } else if home.as_str().get_char(n - 1) == '/' {
        home.concat(CREDENTIALS_RELATIVE_PATH)
    } else {
        home.concat("/").concat(CREDENTIALS_RELATIVE_PATH)
    }
}

/// Takes credentials from one profile of a credentials file.
pub struct ProfileCredentialsProvider {
    credentials: Option<AWSCredentials>,
    file_path: String,
    profile: String,
}

impl ProfileCredentialsProvider {
    pub closed spec fn cache(&self) -> Option<CredentialsView> {
        cache_view(self.credentials)
    }

    pub closed spec fn path_view(&self) -> Seq<char> {
        self.file_path@
    }

    pub closed spec fn profile_view(&self) -> Seq<char> {
        self.profile@
    }

    /// A provider for the default file below `home` and the default profile;
    /// fails when no home directory is known.
    pub fn new(home: Option<String>) -> (r: Result<Self, CredentialsError>)
        ensures
            match home {
                None => r == Err::<Self, CredentialsError>(CredentialsError::MissingHomeDirectory),
                Some(h) => r matches Ok(p) && p.cache() is None
                    && p.path_view() == default_credentials_path(h@)
                    && p.profile_view() == DEFAULT_PROFILE@,
            },
    {
        match home {
            None => Err(CredentialsError::MissingHomeDirectory),
            Some(h) => Ok(ProfileCredentialsProvider {
                credentials: None,
                file_path: default_credentials_path_exec(h),
                profile: String::from_str(DEFAULT_PROFILE),
            }),
        }
    }

    /// A provider for the given file and profile.
    pub fn with_configuration(file_path: String, profile: String) -> (r: Self)
        ensures
            r.cache() is None,
            r.path_view() == file_path@,
            r.profile_view() == profile@,
    {
        ProfileCredentialsProvider { credentials: None, file_path, profile }
    }

    /// The credentials file path.
    pub fn file_path(&self) -> (r: &str)
        ensures
            r@ == self.path_view(),
    {
        self.file_path.as_str()
    }

    /// The profile name.
    pub fn profile(&self) -> (r: &str)
        ensures
            r@ == self.profile_view(),
    {
        self.profile.as_str()
    }

    /// Change the credentials file path.
    pub fn set_file_path(&mut self, file_path: String)
        ensures
            final(self).path_view() == file_path@,
            final(self).profile_view() == old(self).profile_view(),
            final(self).cache() == old(self).cache(),
    {
        self.file_path = file_path;
    }

    /// Change the profile name.
    pub fn set_profile(&mut self, profile: String)
        ensures
            final(self).profile_view() == profile@,
            final(self).path_view() == old(self).path_view(),
            final(self).cache() == old(self).cache(),
    {
        self.profile = profile;
    }

    /// The cached credentials, when they may still be used at `now`; when this
    /// is `None` the file must be read and handed to `refresh`.
    pub fn cached_credentials(&self, now: i64) -> (r: Option<AWSCredentials>)
        ensures
            cache_view(r) == valid_cache(self.cache(), now as int),
    {
        cached_if_valid(&self.credentials, now)
    }

    /// Select the configured profile from the file just read and cache it.
    /// On failure the cache is left as it was.
    pub fn refresh(&mut self, file: &CredentialsFile, now: i64) -> (r: Result<AWSCredentials, CredentialsError>)
        requires
            now <= LATEST_TIME,
        ensures
            final(self).path_view() == old(self).path_view(),
            final(self).profile_view() == old(self).profile_view(),
            match (r, profile_outcome(*file, old(self).profile_view(), now as int)) {
                (Ok(c), Ok(expected)) => c@ == expected && final(self).cache() == Some(expected),
                (Err(e), Err(expected)) => e == expected && final(self).cache() == old(self).cache(),
                _ => false,
            },
    {
        match parse_credentials_file(file, now) {
            Err(e) => Err(e),
            Ok(profiles) => match profiles.get(self.profile.as_str()) {
                None => Err(CredentialsError::ProfileNotFound),
                Some(c) => {
                    self.credentials = Some(c.clone());
                    Ok(c.clone())
                },
            },
        }
    }
}


/// A line that opens with `[` but does not end with `]` is no header; when it
/// names neither key it leaves the reading state as it was.
pub proof fn lemma_unclosed_header_is_ignored(st: ParseState, line: Seq<char>, now: int)
    requires
        line.len() > 0,
        line[0] == '[',
        line[line.len() - 1] != ']',
        !contains_lowered(line, ACCESS_KEY_NAME@),
        !contains_lowered(line, SECRET_KEY_NAME@),
    ensures
        !is_header(line),
        step(st, line, now) == st,
{
}

/// Selecting a profile that a well-formed file does not define fails with
/// `ProfileNotFound`.
pub proof fn lemma_absent_profile_not_found(file: CredentialsFile, profile: Seq<char>, now: int)
    requires
        file_outcome(file, now) is Ok,
        lookup(file_outcome(file, now).unwrap(), profile) is None,
    ensures
        profile_outcome(file, profile, now) == Err::<CredentialsView, CredentialsError>(CredentialsError::ProfileNotFound),
{
}


/// A line that gives the access key `a`.
pub open spec fn is_access_line(line: Seq<char>, a: Seq<char>) -> bool {
    &&& !is_comment(line)
    &&& !is_header(line)
    &&& contains_lowered(line, ACCESS_KEY_NAME@)
    &&& key_value(line) == Some(a)
}

/// A line that gives the secret key `s`.
pub open spec fn is_secret_line(line: Seq<char>, s: Seq<char>) -> bool {
    &&& !is_comment(line)
    &&& !is_header(line)
    &&& !contains_lowered(line, ACCESS_KEY_NAME@)
    &&& contains_lowered(line, SECRET_KEY_NAME@)
    &&& key_value(line) == Some(s)
}

proof fn lemma_run_append(lines: Seq<Seq<char>>, extra: Seq<Seq<char>>, line: Seq<char>, now: int)
    ensures
        run(lines + extra.push(line), now) == step(run(lines + extra, now), line, now),
{
    assert((lines + extra.push(line)).drop_last() =~= lines + extra);
}

/// A section with a header and both keys adds exactly one profile to what
/// the lines before it define: the header's text selects the section's keys,
/// and every other name selects what it selected before.
pub proof fn lemma_complete_section_adds_profile(
    lines: Seq<Seq<char>>,
    header: Seq<char>,
    access_line: Seq<char>,
    secret_line: Seq<char>,
    a: Seq<char>,
    s: Seq<char>,
    other: Seq<char>,
    now: int,
)
    requires
        is_header(header),
        is_access_line(access_line, a),
        is_secret_line(secret_line, s),
    ensures
        parsed_profiles(lines + seq![header, access_line, secret_line], now)
            == insert_profile(parsed_profiles(lines, now), header_name(header), synthetic(a, s, now)),
        lookup(parsed_profiles(lines + seq![header, access_line, secret_line], now), header_name(header))
            == Some(synthetic(a, s, now)),
        other != header_name(header) ==> lookup(
            parsed_profiles(lines + seq![header, access_line, secret_line], now),
            other,
        ) == lookup(parsed_profiles(lines, now), other),
{
    lemma_insert_profile_lookup(parsed_profiles(lines, now), header_name(header), synthetic(a, s, now), other);
    lemma_run_append(lines, Seq::empty(), header, now);
    lemma_run_append(lines, seq![header], access_line, now);
    lemma_run_append(lines, seq![header, access_line], secret_line, now);
    assert(lines + Seq::<Seq<char>>::empty() =~= lines);
    assert(Seq::<Seq<char>>::empty().push(header) =~= seq![header]);
    assert(seq![header].push(access_line) =~= seq![header, access_line]);
    assert(seq![header, access_line].push(secret_line) =~= seq![header, access_line, secret_line]);
}

/// A section with a header and an access key but no secret key adds no profile.
pub proof fn lemma_incomplete_section_adds_nothing(
    lines: Seq<Seq<char>>,
    header: Seq<char>,
    access_line: Seq<char>,
    a: Seq<char>,
    now: int,
)
    requires
        is_header(header),
        is_access_line(access_line, a),
    ensures
        parsed_profiles(lines + seq![header, access_line], now) == parsed_profiles(lines, now),
{
    lemma_run_append(lines, Seq::empty(), header, now);
    lemma_run_append(lines, seq![header], access_line, now);
    assert(lines + Seq::<Seq<char>>::empty() =~= lines);
    assert(Seq::<Seq<char>>::empty().push(header) =~= seq![header]);
    assert(seq![header].push(access_line) =~= seq![header, access_line]);
}


/// A section with a header and a secret key but no access key adds no profile.
pub proof fn lemma_section_without_access_adds_nothing(
    lines: Seq<Seq<char>>,
    header: Seq<char>,
    secret_line: Seq<char>,
    s: Seq<char>,
    now: int,
)
    requires
        is_header(header),
        is_secret_line(secret_line, s),
    ensures
        parsed_profiles(lines + seq![header, secret_line], now) == parsed_profiles(lines, now),
{
    lemma_run_append(lines, Seq::empty(), header, now);
    lemma_run_append(lines, seq![header], secret_line, now);
    assert(lines + Seq::<Seq<char>>::empty() =~= lines);
    assert(Seq::<Seq<char>>::empty().push(header) =~= seq![header]);
    assert(seq![header].push(secret_line) =~= seq![header, secret_line]);
}


proof fn lemma_index_same_names(ps: ProfilesView, qs: ProfilesView, m: Seq<char>, i: int)
    requires
        0 <= i,
        ps.len() == qs.len(),
        forall|j: int| i <= j < ps.len() ==> (#[trigger] ps[j].0 == m) == (qs[j].0 == m),
    ensures
        index_of_name(ps, m, i) == index_of_name(qs, m, i),
    decreases ps.len() - i,
{
    if i < ps.len() {
        lemma_index_same_names(ps, qs, m, i + 1);
    }
}

proof fn lemma_index_push(ps: ProfilesView, x: (Seq<char>, CredentialsView), m: Seq<char>, i: int)
    requires
        0 <= i <= ps.len(),
    ensures
        x.0 != m ==> index_of_name(ps.push(x), m, i) == index_of_name(ps, m, i),
        x.0 == m && index_of_name(ps, m, i) == -1 ==> index_of_name(ps.push(x), m, i) == ps.len(),
    decreases ps.len() - i,
{
    let qs = ps.push(x);
    if i < ps.len() {
        assert(qs[i] == ps[i]);
        lemma_index_push(ps, x, m, i + 1);
    } else {
        assert(qs[i] == x);
        assert(index_of_name(qs, m, i + 1) == -1);
    }
}

proof fn lemma_index_bounds(ps: ProfilesView, m: Seq<char>, i: int)
    requires
        0 <= i,
    ensures
        index_of_name(ps, m, i) == -1 || (i <= index_of_name(ps, m, i) < ps.len()
            && ps[index_of_name(ps, m, i)].0 == m),
    decreases ps.len() - i,
{
    if i < ps.len() && ps[i].0 != m {
        lemma_index_bounds(ps, m, i + 1);
    }
}

/// After a profile is added under `name`, that name selects it, and every
/// other name selects what it selected before.
pub proof fn lemma_insert_profile_lookup(ps: ProfilesView, name: Seq<char>, c: CredentialsView, other: Seq<char>)
    ensures
        lookup(insert_profile(ps, name, c), name) == Some(c),
        other != name ==> lookup(insert_profile(ps, name, c), other) == lookup(ps, other),
{
    let k = index_of_name(ps, name, 0);
    lemma_index_bounds(ps, name, 0);
    lemma_index_bounds(ps, other, 0);
    if k < 0 {
        lemma_index_push(ps, (name, c), name, 0);
        lemma_index_push(ps, (name, c), other, 0);
    } else {
        let qs = ps.update(k, (name, c));
        assert forall|j: int| 0 <= j < ps.len() implies (#[trigger] ps[j].0 == name) == (qs[j].0 == name) by {}
        assert forall|j: int| 0 <= j < ps.len() implies (#[trigger] ps[j].0 == other) == (qs[j].0 == other) by {}
        lemma_index_same_names(ps, qs, name, 0);
        lemma_index_same_names(ps, qs, other, 0);
    }
}


/// A line that is no comment, no header, and names neither key.
pub open spec fn is_ignorable(line: Seq<char>) -> bool {
    &&& !is_comment(line)
    &&& !is_header(line)
    &&& !contains_lowered(line, ACCESS_KEY_NAME@)
    &&& !contains_lowered(line, SECRET_KEY_NAME@)
}

/// Inserting a line that is no comment, no header and names neither key
/// anywhere in a file changes neither the profiles it defines nor whether it
/// defines any.
pub proof fn lemma_ignorable_line_changes_nothing(
    before: Seq<Seq<char>>,
    line: Seq<char>,
    after: Seq<Seq<char>>,
    now: int,
)
    requires
        is_ignorable(line),
    ensures
        run(before.push(line) + after, now) == run(before + after, now),
        parsed_profiles(before.push(line) + after, now) == parsed_profiles(before + after, now),
    decreases after.len(),
{
    if after.len() == 0 {
        assert(before.push(line) + after =~= before.push(line));
        assert(before + after =~= before);
        assert(before.push(line).drop_last() =~= before);
    } else {
        let rest = after.drop_last();
        lemma_ignorable_line_changes_nothing(before, line, rest, now);
        assert((before.push(line) + after).drop_last() =~= before.push(line) + rest);
        assert((before + after).drop_last() =~= before + rest);
        assert((before.push(line) + after).last() == after.last());
        assert((before + after).last() == after.last());
    }
}

/// A complete section: a header, a line giving the access key, a line giving
/// the secret key.
pub open spec fn is_complete_section(sec: (Seq<char>, Seq<char>, Seq<char>)) -> bool {
    &&& is_header(sec.0)
    &&& is_access_line(sec.1, key_value(sec.1).unwrap())
    &&& is_secret_line(sec.2, key_value(sec.2).unwrap())
}

/// The lines of a file made of these sections, in order.
pub open spec fn section_lines(secs: Seq<(Seq<char>, Seq<char>, Seq<char>)>) -> Seq<Seq<char>>
    decreases secs.len(),
{
    if secs.len() == 0 {
        Seq::empty()
    } else {
        section_lines(secs.drop_last()) + seq![secs.last().0, secs.last().1, secs.last().2]
    }
}

/// The profile that a complete section defines.
pub open spec fn section_profile(sec: (Seq<char>, Seq<char>, Seq<char>), now: int) -> (Seq<char>, CredentialsView) {
    (header_name(sec.0), synthetic(key_value(sec.1).unwrap(), key_value(sec.2).unwrap(), now))
}

/// A section: a header, then a line that gives the access key or is
/// ignorable, then a line that gives the secret key or is ignorable.
pub open spec fn is_section(sec: (Seq<char>, Seq<char>, Seq<char>)) -> bool {
    &&& is_header(sec.0)
    &&& is_ignorable(sec.1) || is_access_line(sec.1, key_value(sec.1).unwrap())
    &&& is_ignorable(sec.2) || is_secret_line(sec.2, key_value(sec.2).unwrap())
}

/// The profiles of the complete sections among `secs`, in order.
pub open spec fn complete_profiles(secs: Seq<(Seq<char>, Seq<char>, Seq<char>)>, now: int) -> ProfilesView
    decreases secs.len(),
{
    if secs.len() == 0 {
        Seq::empty()
    } else if is_complete_section(secs.last()) {
        complete_profiles(secs.drop_last(), now).push(section_profile(secs.last(), now))
    } else {
        complete_profiles(secs.drop_last(), now)
    }
}

proof fn lemma_complete_profiles_name_absent(secs: Seq<(Seq<char>, Seq<char>, Seq<char>)>, now: int, m: Seq<char>)
    requires
        forall|i: int| 0 <= i < secs.len() ==> header_name(#[trigger] secs[i].0) != m,
    ensures
        index_of_name(complete_profiles(secs, now), m, 0) == -1,
    decreases secs.len(),
{
    if secs.len() > 0 {
        let prev = secs.drop_last();
        assert forall|i: int| 0 <= i < prev.len() implies header_name(#[trigger] prev[i].0) != m by {
            assert(prev[i] == secs[i]);
        }
        lemma_complete_profiles_name_absent(prev, now, m);
        assert(header_name(secs[secs.len() - 1].0) != m);
        lemma_index_push(complete_profiles(prev, now), section_profile(secs.last(), now), m, 0);
    }
}

proof fn lemma_section_effect(lines: Seq<Seq<char>>, sec: (Seq<char>, Seq<char>, Seq<char>), now: int)
    requires
        is_section(sec),
    ensures
        parsed_profiles(lines + seq![sec.0, sec.1, sec.2], now) == if is_complete_section(sec) {
            insert_profile(parsed_profiles(lines, now), section_profile(sec, now).0, section_profile(sec, now).1)
        } else {
            parsed_profiles(lines, now)
        },
{
    lemma_run_append(lines, Seq::empty(), sec.0, now);
    lemma_run_append(lines, seq![sec.0], sec.1, now);
    lemma_run_append(lines, seq![sec.0, sec.1], sec.2, now);
    assert(lines + Seq::<Seq<char>>::empty() =~= lines);
    assert(Seq::<Seq<char>>::empty().push(sec.0) =~= seq![sec.0]);
    assert(seq![sec.0].push(sec.1) =~= seq![sec.0, sec.1]);
    assert(seq![sec.0, sec.1].push(sec.2) =~= seq![sec.0, sec.1, sec.2]);
}

/// A file made of sections with distinct header names defines exactly one
/// profile per complete section, in order, named by the header's text and
/// holding that section's keys; sections that lack a key are dropped, and no
/// key carries over from one section to the next.
pub proof fn lemma_sections_define_complete_profiles(secs: Seq<(Seq<char>, Seq<char>, Seq<char>)>, now: int)
    requires
        forall|i: int| 0 <= i < secs.len() ==> is_section(#[trigger] secs[i]),
        forall|i: int, j: int| 0 <= i < j < secs.len() ==> header_name(#[trigger] secs[i].0) != header_name(#[trigger] secs[j].0),
    ensures
        parsed_profiles(section_lines(secs), now) == complete_profiles(secs, now),
    decreases secs.len(),
{
    if secs.len() > 0 {
        let prev = secs.drop_last();
        let last = secs.last();
        assert forall|i: int| 0 <= i < prev.len() implies is_section(#[trigger] prev[i]) by {
            assert(prev[i] == secs[i]);
        }
        assert forall|i: int, j: int| 0 <= i < j < prev.len() implies header_name(#[trigger] prev[i].0) != header_name(#[trigger] prev[j].0) by {
            assert(prev[i] == secs[i] && prev[j] == secs[j]);
        }
        lemma_sections_define_complete_profiles(prev, now);
        assert(is_section(secs[secs.len() - 1]));
        lemma_section_effect(section_lines(prev), last, now);
        assert forall|i: int| 0 <= i < prev.len() implies header_name(#[trigger] prev[i].0) != header_name(last.0) by {
            assert(prev[i] == secs[i]);
            assert(header_name(secs[i].0) != header_name(secs[secs.len() - 1].0));
        }
        lemma_complete_profiles_name_absent(prev, now, header_name(last.0));
    } else {
        assert(section_lines(secs) =~= Seq::<Seq<char>>::empty());
    }
}

/// The complete sections define no profile exactly when there are none, so
/// such a file is the one that fails with `NoCredentialsInFile`.
pub proof fn lemma_no_profiles_without_complete_section(secs: Seq<(Seq<char>, Seq<char>, Seq<char>)>, now: int)
    ensures
        complete_profiles(secs, now).len() == 0 <==> forall|i: int| 0 <= i < secs.len() ==> !is_complete_section(#[trigger] secs[i]),
    decreases secs.len(),
{
    if secs.len() > 0 {
        let prev = secs.drop_last();
        lemma_no_profiles_without_complete_section(prev, now);
        if complete_profiles(secs, now).len() == 0 {
            assert forall|i: int| 0 <= i < secs.len() implies !is_complete_section(#[trigger] secs[i]) by {
                if i < prev.len() {
                    assert(prev[i] == secs[i]);
                }
            }
        } else {
            if !is_complete_section(secs.last()) {
                let i = choose|i: int| 0 <= i < prev.len() && is_complete_section(#[trigger] prev[i]);
                assert(secs[i] == prev[i]);
            }
        }
    }
}

} // verus!

//! The authorization engine: may this request run this executable?
//!
//! The decision is a function of the configuration, the requested name,
//! whether a regular file of that name lies under the root, and the
//! credentials that came with the request. `decide` states it; `authorize`
//! computes it.

use crate::config::{
    group_views, user_views, Config, ConfigView, Group, GroupView, User, UserView,
};
use crate::render::{error_page, templated_error, HttpError, Status};
use vstd::prelude::*;
use vstd::string::{StrSliceExecFns, StringExecFns, StringSliceAdditionalSpecFns};

verus! {

broadcast use vstd::string::group_string_axioms;

/// What a request brought as HTTP Basic credentials.
pub struct Credentials {
    pub username: String,
    pub password: Option<String>,
}

/// `Credentials` as plain values.
pub struct CredentialsView {
    pub username: Seq<char>,
    pub password: Option<Seq<char>>,
}

impl View for Credentials {
    type V = CredentialsView;

    open spec fn view(&self) -> CredentialsView {
        CredentialsView {
            username: self.username@,
            password: match self.password {
                Some(p) => Some(p@),
                None => None,
            },
        }
    }
}

/// The view of the credentials, where there are any.
pub open spec fn presented(credentials: Option<Credentials>) -> Option<CredentialsView> {
    match credentials {
        Some(c) => Some(c@),
        None => None,
    }
}

/// Why a request was turned away.
#[derive(Clone, Copy, Debug, PartialEq, Eq, Structural)]
pub enum Denial {
    DisallowedFilename,
    NonExistentExecutable,
    NoPassword,
    InvalidCredentials,
    NoAccess,
}

/// The outcome of authorization.
#[derive(Clone, Copy, Debug, PartialEq, Eq, Structural)]
pub enum AuthDecision {
    Allow,
    Deny(Denial),
}

/// A letter or digit of ASCII, an underscore or a hyphen.
pub open spec fn is_word_char(c: char) -> bool {
    ||| ('a' <= c && c <= 'z')
    ||| ('A' <= c && c <= 'Z')
    ||| ('0' <= c && c <= '9')
    ||| c == '_'
    ||| c == '-'
}

/// A character that may follow the first one of a filename.
pub open spec fn is_name_char(c: char) -> bool {
    is_word_char(c) || c == '.'
}

/// The names that may be requested at all: a word character, then word
/// characters and dots. No such name is empty, starts with a dot or holds a
/// path separator.
pub open spec fn safe_filename(name: Seq<char>) -> bool {
    &&& name.len() > 0
    &&& is_word_char(name[0])
    &&& forall|i: int| 1 <= i < name.len() ==> is_name_char(#[trigger] name[i])
}

/// The group at `i` is named "passwordless" and accepts `filename`.
pub open spec fn passwordless_at(groups: Seq<GroupView>, filename: Seq<char>, i: int) -> bool {
    groups[i].name == "passwordless"@ && groups[i].accepts(filename)
}

/// Some group named "passwordless" accepts `filename`.
pub open spec fn is_passwordless(groups: Seq<GroupView>, filename: Seq<char>) -> bool {
    exists|i: int| 0 <= i < groups.len() && #[trigger] passwordless_at(groups, filename, i)
}

/// The user has exactly this name and this password.
pub open spec fn user_matches(user: UserView, username: Seq<char>, password: Seq<char>) -> bool {
    user.username == username && user.password == password
}

/// The index of the first user at or after `from` with these credentials.
pub open spec fn first_user_from(
    users: Seq<UserView>,
    username: Seq<char>,
    password: Seq<char>,
    from: int,
) -> Option<int>
    decreases users.len() - from,
{
    if from < 0 || from >= users.len() {
        None
    } else if user_matches(users[from], username, password) {
        Some(from)
    } else {
        first_user_from(users, username, password, from + 1)
    }
}

/// The first configured user with these credentials, if there is one.
pub open spec fn find_user(users: Seq<UserView>, username: Seq<char>, password: Seq<char>)
    -> Option<UserView> {
    match first_user_from(users, username, password, 0) {
        Some(i) => Some(users[i]),
        None => None,
    }
}

/// The entry at `k` of the user's groups is `name`.
pub open spec fn names_group_at(user: UserView, name: Seq<char>, k: int) -> bool {
    user.groups[k] == name
}

/// The user lists a group called `name`.
pub open spec fn member_of(user: UserView, name: Seq<char>) -> bool {
    exists|k: int| 0 <= k < user.groups.len() && #[trigger] names_group_at(user, name, k)
}

/// The group at `i` is one of the user's and accepts `filename`.
pub open spec fn grants_at(
    groups: Seq<GroupView>,
    user: UserView,
    filename: Seq<char>,
    i: int,
) -> bool {
    member_of(user, groups[i].name) && groups[i].accepts(filename)
}

/// One of the user's groups accepts `filename`.
pub open spec fn has_access(groups: Seq<GroupView>, user: UserView, filename: Seq<char>) -> bool {
    exists|i: int| 0 <= i < groups.len() && #[trigger] grants_at(groups, user, filename, i)
}

/// The decision, step by step; the first step that fails names the denial.
pub open spec fn decide(
    users: Seq<UserView>,
    groups: Seq<GroupView>,
    filename: Seq<char>,
    is_file: bool,
    credentials: Option<CredentialsView>,
) -> AuthDecision {
    if !safe_filename(filename) {
        AuthDecision::Deny(Denial::DisallowedFilename)
    } else if !is_file {
        AuthDecision::Deny(Denial::NonExistentExecutable)
    } else if is_passwordless(groups, filename) {
        AuthDecision::Allow
    } else {
        match credentials {
            Some(CredentialsView { username, password: Some(password) }) => {
                match find_user(users, username, password) {
                    None => AuthDecision::Deny(Denial::InvalidCredentials),
                    Some(user) => if has_access(groups, user, filename) {
                        AuthDecision::Allow
                    } else {
                        AuthDecision::Deny(Denial::NoAccess)
                    },
                }
            },
            _ => AuthDecision::Deny(Denial::NoPassword),
        }
    }
}

const UNDERSCORE: u8 = 0x5f;

const HYPHEN: u8 = 0x2d;

const DOT: u8 = 0x2e;

fn is_word_byte(b: u8) -> (ok: bool)
    ensures
        ok == is_word_char(b as char),
{
    (0x61 <= b && b <= 0x7a) || (0x41 <= b && b <= 0x5a) || (0x30 <= b && b <= 0x39)
        || b == UNDERSCORE || b == HYPHEN
}

/// Whether `name` may be requested at all.
pub fn is_safe_filename(name: &str) -> (ok: bool)
    ensures
        ok == safe_filename(name@),
{
    if !name.is_ascii() {
        proof {
            let i = choose|i: int|
                0 <= i < name@.len() && !('\0' <= #[trigger] name@[i] <= '\u{7f}');
            assert(!is_name_char(name@[i]));
            assert(!is_word_char(name@[i]));
        }
        return false;
    }
    let n: usize = name.as_bytes().len();
    proof {
        vstd::string::is_ascii_spec_bytes(name);
        assert(name.spec_bytes().len() == name@.len());
    }
    if n == 0 {
        return false;
    }
    if !is_word_byte(name.get_ascii(0)) {
        assert(name@[0] as u8 as char == name@[0]);
        return false;
    }
    assert(name@[0] as u8 as char == name@[0]);
    let mut i: usize = 1;
    while i < n
        invariant
            1 <= i <= n,
            n == name@.len(),
            name.is_ascii(),
            forall|j: int| 1 <= j < i ==> is_name_char(#[trigger] name@[j]),
        decreases n - i,
    {
        let b: u8 = name.get_ascii(i);
        assert(name@[i as int] as u8 as char == name@[i as int]);
        if !(is_word_byte(b) || b == DOT) {
            return false;
        }
        i += 1;
    }
    true
}

/// Whether some group named "passwordless" accepts `filename`.
pub fn passwordless_match(groups: &Vec<Group>, filename: &str) -> (found: bool)
    ensures
        found == is_passwordless(group_views(groups@), filename@),
{
    let marker = String::from_str("passwordless");
    let mut i: usize = 0;
    while i < groups.len()
        invariant
            i <= groups.len(),
            marker@ == "passwordless"@,
            forall|j: int| 0 <= j < i ==> !passwordless_at(group_views(groups@), filename@, j),
        decreases groups.len() - i,
    {
        if groups[i].name == marker && groups[i].is_match(filename) {
            assert(group_views(groups@)[i as int] == groups@[i as int]@);
            assert(passwordless_at(group_views(groups@), filename@, i as int));
            return true;
        }
        i += 1;
    }
    false
}

/// The place of the first user with exactly this name and password.
pub fn lookup_user(users: &Vec<User>, username: &String, password: &String) -> (found: Option<
    usize,
>)
    ensures
        match found {
            Some(i) => first_user_from(user_views(users@), username@, password@, 0) == Some(
                i as int,
            ) && i < users.len(),
            None => first_user_from(user_views(users@), username@, password@, 0) is None,
        },
{
    let mut i: usize = 0;
    while i < users.len()
        invariant
            i <= users.len(),
            first_user_from(user_views(users@), username@, password@, 0) == first_user_from(
                user_views(users@),
                username@,
                password@,
                i as int,
            ),
        decreases users.len() - i,
    {
        assert(user_views(users@)[i as int] == users@[i as int]@);
        if users[i].username == *username && users[i].password == *password {
            return Some(i);
        }
        i += 1;
    }
    None
}

/// Whether the user lists a group called `name`.
pub fn is_member(user: &User, name: &String) -> (found: bool)
    ensures
        found == member_of(user@, name@),
{
    let mut k: usize = 0;
    while k < user.groups.len()
        invariant
            k <= user.groups.len(),
            forall|j: int| 0 <= j < k ==> !names_group_at(user@, name@, j),
        decreases user.groups.len() - k,
    {
        assert(user@.groups[k as int] == user.groups@[k as int]@);
        if user.groups[k] == *name {
            assert(names_group_at(user@, name@, k as int));
            return true;
        }
        k += 1;
    }
    false
}

/// Whether one of the user's groups accepts `filename`.
pub fn user_has_access(groups: &Vec<Group>, user: &User, filename: &str) -> (found: bool)
    ensures
        found == has_access(group_views(groups@), user@, filename@),
{
    let mut i: usize = 0;
    while i < groups.len()
        invariant
            i <= groups.len(),
            forall|j: int| 0 <= j < i ==> !grants_at(group_views(groups@), user@, filename@, j),
        decreases groups.len() - i,
    {
        assert(group_views(groups@)[i as int] == groups@[i as int]@);
        if is_member(user, &groups[i].name) && groups[i].is_match(filename) {
            assert(grants_at(group_views(groups@), user@, filename@, i as int));
            return true;
        }
        i += 1;
    }
    false
}

/// Decides whether the request may run `filename`. `is_file` says whether a
/// regular file of that name lies under the executables' root; it is only
/// looked at once the name has been found safe.
pub fn authorize(
    config: &Config,
    filename: &str,
    is_file: bool,
    credentials: &Option<Credentials>,
) -> (decision: AuthDecision)
    ensures
        decision == decide(
            config@.users,
            config@.groups,
            filename@,
            is_file,
            presented(*credentials),
        ),
{
    if !is_safe_filename(filename) {
        return AuthDecision::Deny(Denial::DisallowedFilename);
    }
    if !is_file {
        return AuthDecision::Deny(Denial::NonExistentExecutable);
    }
    if passwordless_match(&config.group, filename) {
        return AuthDecision::Allow;
    }
    let (username, password) = match credentials {
        Some(Credentials { username, password: Some(password) }) => (username, password),
        _ => {
            return AuthDecision::Deny(Denial::NoPassword);
        },
    };
    match lookup_user(&config.user, username, password) {
        None => AuthDecision::Deny(Denial::InvalidCredentials),
        Some(i) => {
            assert(user_views(config.user@)[i as int] == config.user@[i as int]@);
            if user_has_access(&config.group, &config.user[i], filename) {
                AuthDecision::Allow
            } else {
                AuthDecision::Deny(Denial::NoAccess)
            }
        },
    }
}

impl Denial {
    /// The class of failure that the denial is reported as.
    pub open spec fn spec_status(self) -> Status {
        match self {
            Denial::NoAccess => Status::Unauthorized,
            _ => Status::BadRequest,
        }
    }

    /// The sentence that tells the client why.
    pub open spec fn spec_message(self) -> Seq<char> {
        match self {
            Denial::DisallowedFilename => "Disallowed filename"@,
            Denial::NonExistentExecutable => "Non-existent executable"@,
            Denial::NoPassword => "No password provided"@,
            Denial::InvalidCredentials => "Invalid credentials"@,
            Denial::NoAccess => "You don't have access to this executable"@,
        }
    }

    /// The class of failure that the denial is reported as.
    pub fn status(self) -> (status: Status)
        ensures
            status == self.spec_status(),
    {
        match self {
            Denial::NoAccess => Status::Unauthorized,
            _ => Status::BadRequest,
        }
    }

    /// The sentence that tells the client why.
    pub fn message(self) -> (text: &'static str)
        ensures
            text@ == self.spec_message(),
    {
        match self {
            Denial::DisallowedFilename => "Disallowed filename",
            Denial::NonExistentExecutable => "Non-existent executable",
            Denial::NoPassword => "No password provided",
            Denial::InvalidCredentials => "Invalid credentials",
            Denial::NoAccess => "You don't have access to this executable",
        }
    }
}

/// Where the run of slashes that begins at `from` ends.
pub open spec fn slash_run(path: Seq<char>, from: int) -> int
    decreases path.len() - from,
{
    if 0 <= from < path.len() && path[from] == '/' {
        slash_run(path, from + 1)
    } else {
        from
    }
}

/// The request path without the slashes it begins with.
pub open spec fn executable_name_of(path: Seq<char>) -> Seq<char> {
    path.subrange(slash_run(path, 0), path.len() as int)
}

/// The name that a request path asks for: the path without the slashes it
/// begins with.
pub fn executable_name(path: &str) -> (name: &str)
    ensures
        name@ == executable_name_of(path@),
{
    let n: usize = path.unicode_len();
    let mut k: usize = 0;
    while k < n && path.get_char(k) == '/'
        invariant
            k <= n,
            n == path@.len(),
            slash_run(path@, 0) == slash_run(path@, k as int),
        decreases n - k,
    {
        k += 1;
    }
    path.substring_char(k, n)
}

/// What the client is told about a decision: nothing where the request is
/// allowed, else the denial's page with its status.
pub fn decision_response(decision: AuthDecision, template: &str) -> (r: Result<(), HttpError>)
    ensures
        match decision {
            AuthDecision::Allow => r is Ok,
            AuthDecision::Deny(denial) => r matches Err(e) && e.status == denial.spec_status()
                && e.body@ == error_page(template@, denial.spec_message()),
        },
{
    match decision {
        AuthDecision::Allow => Ok(()),
        AuthDecision::Deny(denial) => Err(
            templated_error(template, denial.message(), denial.status()),
        ),
    }
}

/// Judges a request by its path and credentials, and renders a denial as
/// the page that the client is sent. `is_file` says whether a regular file
/// named `executable_name(path)` lies under the executables' root.
pub fn request_validator(
    config: &Config,
    template: &str,
    path: &str,
    is_file: bool,
    credentials: &Option<Credentials>,
) -> (r: Result<(), HttpError>)
    ensures
        match decide(
            config@.users,
            config@.groups,
            executable_name_of(path@),
            is_file,
            presented(*credentials),
        ) {
            AuthDecision::Allow => r is Ok,
            AuthDecision::Deny(denial) => r matches Err(e) && e.status == denial.spec_status()
                && e.body@ == error_page(template@, denial.spec_message()),
        },
{
    let decision = authorize(config, executable_name(path), is_file, credentials);
    decision_response(decision, template)
}

/// The credentials are those of a configured user, and one of the groups
/// of the first such user accepts `filename`.
pub open spec fn entitled(
    users: Seq<UserView>,
    groups: Seq<GroupView>,
    filename: Seq<char>,
    credentials: Option<CredentialsView>,
) -> bool {
    match credentials {
        Some(CredentialsView { username, password: Some(password) }) => {
            match find_user(users, username, password) {
                Some(user) => has_access(groups, user, filename),
                None => false,
            }
        },
        _ => false,
    }
}

/// Among safe names of existing files, a request is allowed exactly if a
/// passwordless group accepts the name, or the credentials are those of a
/// configured user one of whose groups accepts it.
pub proof fn allowed_iff_passwordless_or_entitled(
    users: Seq<UserView>,
    groups: Seq<GroupView>,
    filename: Seq<char>,
    credentials: Option<CredentialsView>,
)
    requires
        safe_filename(filename),
    ensures
        decide(users, groups, filename, true, credentials) == AuthDecision::Allow <==> {
            ||| is_passwordless(groups, filename)
            ||| entitled(users, groups, filename, credentials)
        },
{
}

/// A name that is not safe is denied as a bad request, whatever else the
/// request holds.
pub proof fn unsafe_name_is_denied(
    users: Seq<UserView>,
    groups: Seq<GroupView>,
    filename: Seq<char>,
    is_file: bool,
    credentials: Option<CredentialsView>,
)
    requires
        !safe_filename(filename),
    ensures
        decide(users, groups, filename, is_file, credentials) == AuthDecision::Deny(
            Denial::DisallowedFilename,
        ),
        Denial::DisallowedFilename.spec_status().spec_code() == 400,
{
}

/// Where a passwordless group accepts the safe name of an existing file,
/// the request is allowed whatever its credentials: none, wrong ones or
/// right ones.
pub proof fn passwordless_ignores_credentials(
    users: Seq<UserView>,
    groups: Seq<GroupView>,
    filename: Seq<char>,
    credentials: Option<CredentialsView>,
)
    requires
        safe_filename(filename),
        is_passwordless(groups, filename),
    ensures
        decide(users, groups, filename, true, credentials) == AuthDecision::Allow,
{
}

/// The place that `first_user_from` gives is that of a user with the
/// credentials asked for, and no user between `from` and it has them; where
/// it gives none, no user from `from` on has them.
pub proof fn found_user_is_first(
    users: Seq<UserView>,
    username: Seq<char>,
    password: Seq<char>,
    from: int,
)
    requires
        0 <= from,
    ensures
        match first_user_from(users, username, password, from) {
            Some(i) => {
                &&& from <= i < users.len()
                &&& user_matches(users[i], username, password)
                &&& forall|j: int|
                    from <= j < i ==> !user_matches(#[trigger] users[j], username, password)
            },
            None => forall|j: int|
                from <= j < users.len() ==> !user_matches(#[trigger] users[j], username, password),
        },
    decreases users.len() - from,
{
    if from < users.len() && !user_matches(users[from], username, password) {
        found_user_is_first(users, username, password, from + 1);
    }
}

/// Two decisions on the same configuration and the same request are the
/// same decision.
pub proof fn decision_is_repeatable(
    config: ConfigView,
    filename: Seq<char>,
    is_file: bool,
    credentials: Option<CredentialsView>,
    first: AuthDecision,
    second: AuthDecision,
)
    requires
        first == decide(config.users, config.groups, filename, is_file, credentials),
        second == decide(config.users, config.groups, filename, is_file, credentials),
    ensures
        first == second,
{
}

/// A safe name is not empty, does not begin with a dot, and holds neither
/// a slash nor a backslash: it names a file directly under the root.
pub proof fn safe_name_stays_under_root(name: Seq<char>)
    requires
        safe_filename(name),
    ensures
        name.len() > 0,
        name[0] != '.',
        forall|i: int| 0 <= i < name.len() ==> name[i] != '/' && name[i] != '\\',
{
    assert forall|i: int| 0 <= i < name.len() implies name[i] != '/' && name[i] != '\\' by {
        if i >= 1 {
            assert(is_name_char(name[i]));
        }
    }
}

} // verus!

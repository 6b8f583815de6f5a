//! The configuration that every request is judged against.

use crate::pattern::{compile, describe, is_match, pattern_language, regex_language};
use regex::Regex;
use vstd::prelude::*;
use vstd::string::StringExecFns;

verus! {

/// A named rule: every file whose name the pattern accepts may be run by the
/// members of the group.
pub struct Group {
    pub name: String,
    pub regex: Regex,
}

/// What a group is to the rules: its name, and the set of filenames that
/// its pattern accepts.
pub struct GroupView {
    pub name: Seq<char>,
    pub language: Set<Seq<char>>,
}

impl GroupView {
    /// Whether the group's pattern accepts `filename`.
    pub open spec fn accepts(self, filename: Seq<char>) -> bool {
        self.language.contains(filename)
    }
}

impl View for Group {
    type V = GroupView;

    open spec fn view(&self) -> GroupView {
        GroupView { name: self.name@, language: regex_language(self.regex) }
    }
}

/// A pattern text that did not compile.
pub struct MalformedRegex {
    pub detail: String,
}

impl Group {
    /// Builds the group from the outcome of compiling its pattern.
    pub fn from_compiled(name: String, compiled: Result<Regex, regex::Error>) -> (r: Result<
        Group,
        MalformedRegex,
    >)
        ensures
            match compiled {
                Ok(re) => r matches Ok(g) && g.name == name && g.regex == re,
                Err(_) => r is Err,
            },
    {
        match compiled {
            Ok(regex) => Ok(Group { name, regex }),
            Err(e) => Err(MalformedRegex { detail: describe(&e) }),
        }
    }

    /// Compiles `pattern` and builds the group named `name` from it. Whether
    /// the pattern compiles is for the compiler of patterns to say; where it
    /// does, the group accepts what the pattern accepts.
    pub fn new(name: String, pattern: &str) -> (r: Result<Group, MalformedRegex>)
        ensures
            r matches Ok(g) ==> g@ == (GroupView {
                name: name@,
                language: pattern_language(pattern@),
            }),
    {
        Group::from_compiled(name, compile(pattern))
    }

    /// Whether the group's pattern accepts `filename`.
    pub fn is_match(&self, filename: &str) -> (found: bool)
        ensures
            found == self@.accepts(filename@),
    {
        is_match(&self.regex, filename)
    }
}

impl MalformedRegex {
    /// The message shown to whoever wrote the configuration.
    pub fn message(&self) -> (text: String)
        ensures
            text@ == "malformed regex: "@ + self.detail@,
    {
        let mut text = String::from_str("malformed regex: ");
        text.append(self.detail.as_str());
        text
    }
}

/// Where the server listens and where the executables live.
pub struct Options {
    pub root: String,
    pub host: String,
    pub port: u16,
}

/// One account. The password is kept and compared as written.
pub struct User {
    pub username: String,
    pub password: String,
    pub groups: Vec<String>,
}

/// Everything the server is told at startup. It is never changed afterwards.
pub struct Config {
    pub options: Options,
    pub user: Vec<User>,
    pub group: Vec<Group>,
}

/// The texts of `strings`, one for one.
pub open spec fn texts(strings: Seq<String>) -> Seq<Seq<char>> {
    strings.map_values(|s: String| s@)
}

/// `Options` as plain values.
pub struct OptionsView {
    pub root: Seq<char>,
    pub host: Seq<char>,
    pub port: u16,
}

impl View for Options {
    type V = OptionsView;

    open spec fn view(&self) -> OptionsView {
        OptionsView { root: self.root@, host: self.host@, port: self.port }
    }
}

/// `User` as plain values.
pub struct UserView {
    pub username: Seq<char>,
    pub password: Seq<char>,
    pub groups: Seq<Seq<char>>,
}

impl View for User {
    type V = UserView;

    open spec fn view(&self) -> UserView {
        UserView { username: self.username@, password: self.password@, groups: texts(self.groups@) }
    }
}

/// The views of `users`, one for one.
pub open spec fn user_views(users: Seq<User>) -> Seq<UserView> {
    users.map_values(|u: User| u@)
}

/// The views of `groups`, one for one.
pub open spec fn group_views(groups: Seq<Group>) -> Seq<GroupView> {
    groups.map_values(|g: Group| g@)
}

/// `Config` as plain values.
pub struct ConfigView {
    pub options: OptionsView,
    pub users: Seq<UserView>,
    pub groups: Seq<GroupView>,
}

impl View for Config {
    type V = ConfigView;

    open spec fn view(&self) -> ConfigView {
        ConfigView {
            options: self.options@,
            users: user_views(self.user@),
            groups: group_views(self.group@),
        }
    }
}

/// What every request handler shares: the configuration, read once and
/// never changed.
pub struct BarnState {
    pub config: Config,
}

/// The settings used where the configuration names none.
pub open spec fn default_options() -> OptionsView {
    OptionsView { root: "."@, host: "127.0.0.1"@, port: 8080 }
}

/// The list used where the configuration names no users or no groups.
pub fn default_vec<T>() -> (v: Vec<T>)
    ensures
        v@ == Seq::<T>::empty(),
{
    Vec::new()
}

/// The executables' root used where the configuration names none.
pub fn default_root() -> (root: String)
    ensures
        root@ == "."@,
{
    String::from_str(".")
}

/// The host used where the configuration names none.
pub fn default_host() -> (host: String)
    ensures
        host@ == "127.0.0.1"@,
{
    String::from_str("127.0.0.1")
}

/// The port used where the configuration names none.
pub fn default_port() -> (port: u16)
    ensures
        port == 8080,
{
    8080
}

impl Default for Options {
    fn default() -> (options: Options)
        ensures
            options@ == default_options(),
    {
        Options { root: default_root(), host: default_host(), port: default_port() }
    }
}

impl Default for Config {
    fn default() -> (config: Config)
        ensures
            config@ == (ConfigView {
                options: default_options(),
                users: Seq::empty(),
                groups: Seq::empty(),
            }),
    {
        let config = Config {
            options: Options::default(),
            user: default_vec(),
            group: default_vec(),
        };
        assert(config@.users =~= Seq::empty());
        assert(config@.groups =~= Seq::empty());
        config
    }
}

} // verus!

//! What the server tells its operator at startup about a configuration:
//! users that name groups which do not exist, and which groups may run a
//! given file.

use crate::config::{group_views, texts, Config, Group, GroupView, UserView};
use vstd::prelude::*;
use vstd::string::StringExecFns;

verus! {

/// A user's mention of a group that the configuration does not define:
/// the place of the user, and the place of the name in the user's groups.
#[derive(Clone, Copy, Debug, PartialEq, Eq, Structural)]
pub struct UnknownGroup {
    pub user: usize,
    pub entry: usize,
}

/// The group at `i` is called `name`.
pub open spec fn named_at(groups: Seq<GroupView>, name: Seq<char>, i: int) -> bool {
    groups[i].name == name
}

/// Some group is called `name`.
pub open spec fn is_defined(groups: Seq<GroupView>, name: Seq<char>) -> bool {
    exists|i: int| 0 <= i < groups.len() && #[trigger] named_at(groups, name, i)
}

/// The undefined groups among the first `upto` that the user at `place`
/// names, in the user's order.
pub open spec fn unknown_of_user(
    user: UserView,
    place: usize,
    groups: Seq<GroupView>,
    upto: int,
) -> Seq<UnknownGroup>
    decreases upto,
{
    if upto <= 0 {
        Seq::empty()
    } else {
        let before = unknown_of_user(user, place, groups, upto - 1);
        if is_defined(groups, user.groups[upto - 1]) {
            before
        } else {
            before.push(UnknownGroup { user: place, entry: (upto - 1) as usize })
        }
    }
}

/// The undefined groups that the first `upto` users name, user by user.
pub open spec fn unknown_groups(users: Seq<UserView>, groups: Seq<GroupView>, upto: int) -> Seq<
    UnknownGroup,
>
    decreases upto,
{
    if upto <= 0 {
        Seq::empty()
    } else {
        unknown_groups(users, groups, upto - 1) + unknown_of_user(
            users[upto - 1],
            (upto - 1) as usize,
            groups,
            users[upto - 1].groups.len() as int,
        )
    }
}

/// Whether the configuration defines a group called `name`.
pub fn group_is_defined(groups: &Vec<Group>, name: &String) -> (found: bool)
    ensures
        found == is_defined(group_views(groups@), name@),
{
    let mut i: usize = 0;
    while i < groups.len()
        invariant
            i <= groups.len(),
            forall|j: int| 0 <= j < i ==> !named_at(group_views(groups@), name@, j),
        decreases groups.len() - i,
    {
        assert(group_views(groups@)[i as int] == groups@[i as int]@);
        if groups[i].name == *name {
            assert(named_at(group_views(groups@), name@, i as int));
            return true;
        }
        i += 1;
    }
    false
}

/// Every mention, by a user, of a group that the configuration does not
/// define: in the order of the users, and for each user in the order of
/// its groups.
pub fn find_unknown_groups(config: &Config) -> (found: Vec<UnknownGroup>)
    ensures
        found@ == unknown_groups(config@.users, config@.groups, config@.users.len() as int),
{
    let mut found: Vec<UnknownGroup> = Vec::new();
    let mut i: usize = 0;
    while i < config.user.len()
        invariant
            i <= config.user.len(),
            found@ == unknown_groups(config@.users, config@.groups, i as int),
        decreases config.user.len() - i,
    {
        let user = &config.user[i];
        let ghost done = found@;
        assert(config@.users[i as int] == user@);
        assert(found@ =~= done + unknown_of_user(user@, i, config@.groups, 0));
        let mut k: usize = 0;
        while k < user.groups.len()
            invariant
                k <= user.groups.len(),
                i < config.user.len(),
                user@ == config@.users[i as int],
                found@ == done + unknown_of_user(user@, i, config@.groups, k as int),
            decreases user.groups.len() - k,
        {
            assert(user@.groups[k as int] == user.groups@[k as int]@);
            if !group_is_defined(&config.group, &user.groups[k]) {
                found.push(UnknownGroup { user: i, entry: k });
                assert(found@ =~= done + unknown_of_user(user@, i, config@.groups, k + 1));
            }
            k += 1;
        }
        i += 1;
    }
    found
}

/// The warning about a user who names a group that is not defined.
pub fn unknown_group_warning(username: &str, group: &str) -> (text: String)
    ensures
        text@ == "the user '"@ + username@ + "' has been assigned a non-existent group '"@ + group@
            + "'"@,
{
    let mut text = String::from_str("the user '");
    text.append(username);
    text.append("' has been assigned a non-existent group '");
    text.append(group);
    text.append("'");
    text
}

/// The names of those among the first `upto` groups that accept
/// `filename`, in the order of the configuration.
pub open spec fn accepting_groups(groups: Seq<GroupView>, filename: Seq<char>, upto: int) -> Seq<
    Seq<char>,
>
    decreases upto,
{
    if upto <= 0 {
        Seq::empty()
    } else {
        let before = accepting_groups(groups, filename, upto - 1);
        if groups[upto - 1].accepts(filename) {
            before.push(groups[upto - 1].name)
        } else {
            before
        }
    }
}

/// The names of the groups that may run `filename`, in the order of the
/// configuration.
pub fn executable_by(config: &Config, filename: &str) -> (names: Vec<String>)
    ensures
        texts(names@) == accepting_groups(config@.groups, filename@, config@.groups.len() as int),
{
    let mut names: Vec<String> = Vec::new();
    let mut i: usize = 0;
    while i < config.group.len()
        invariant
            i <= config.group.len(),
            texts(names@) =~= accepting_groups(config@.groups, filename@, i as int),
        decreases config.group.len() - i,
    {
        assert(config@.groups[i as int] == config.group@[i as int]@);
        if config.group[i].is_match(filename) {
            let ghost before = names@;
            names.push(config.group[i].name.clone());
            assert(texts(names@) =~= texts(before).push(config.group@[i as int].name@));
        }
        i += 1;
    }
    names
}

/// The first `upto` names, separated by a comma and a space.
pub open spec fn joined(names: Seq<Seq<char>>, upto: int) -> Seq<char>
    decreases upto,
{
    if upto <= 0 {
        Seq::empty()
    } else if upto == 1 {
        names[0]
    } else {
        joined(names, upto - 1) + ", "@ + names[upto - 1]
    }
}

/// What there is to say of a file.
#[derive(Clone, Copy, Debug, PartialEq, Eq, Structural)]
pub enum AccessKind {
    /// Its owner may not execute it.
    NotExecutable,
    /// No group may run it.
    NoGroup,
    /// Some groups may run it.
    Groups,
}

/// Which of the three holds of a file that the groups called `names`
/// accept: it counts as run by no group where the list of names, written
/// out, is empty.
pub open spec fn access_kind_of(is_executable: bool, names: Seq<Seq<char>>) -> AccessKind {
    if !is_executable {
        AccessKind::NotExecutable
    } else if joined(names, names.len() as int).len() == 0 {
        AccessKind::NoGroup
    } else {
        AccessKind::Groups
    }
}

/// What is said of a file: that it is not executable, that no group may
/// run it, or the groups that may.
pub open spec fn access_summary(is_executable: bool, names: Seq<Seq<char>>) -> Seq<char> {
    match access_kind_of(is_executable, names) {
        AccessKind::NotExecutable => "not an executable file"@,
        AccessKind::NoGroup => "not executable by any groups"@,
        AccessKind::Groups => joined(names, names.len() as int),
    }
}

/// Which of the three holds of a file. `names` are the groups that accept
/// it; `is_executable` says whether its owner may execute it at all.
pub fn access_kind(is_executable: bool, names: &Vec<String>) -> (kind: AccessKind)
    ensures
        kind == access_kind_of(is_executable, texts(names@)),
{
    if !is_executable {
        return AccessKind::NotExecutable;
    }
    proof {
        reveal_strlit(", ");
        if names@.len() >= 1 {
            assert(texts(names@)[0] == names@[0]@);
        }
    }
    if names.len() == 0 || (names.len() == 1 && names[0].as_str().is_empty()) {
        AccessKind::NoGroup
    } else {
        AccessKind::Groups
    }
}

/// The line that tells the operator who may run a file. `names` are the
/// groups that accept it; `is_executable` says whether its owner may
/// execute it at all.
pub fn describe_access(is_executable: bool, names: &Vec<String>) -> (text: String)
    ensures
        text@ == access_summary(is_executable, texts(names@)),
{
    match access_kind(is_executable, names) {
        AccessKind::NotExecutable => String::from_str("not an executable file"),
        AccessKind::NoGroup => String::from_str("not executable by any groups"),
        AccessKind::Groups => {
            let mut text = String::new();
            let mut i: usize = 0;
            while i < names.len()
                invariant
                    i <= names.len(),
                    text@ == joined(texts(names@), i as int),
                decreases names.len() - i,
            {
                if i > 0 {
                    text.append(", ");
                }
                assert(texts(names@)[i as int] == names@[i as int]@);
                text.append(names[i].as_str());
                i += 1;
                assert(text@ =~= joined(texts(names@), i as int));
            }
            text
        },
    }
}

} // verus!

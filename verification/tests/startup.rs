use barn::config::{
    default_host, default_port, default_root, default_vec, BarnState, Config, Group, Options, User,
};
use barn::report::{
    access_kind, describe_access, executable_by, find_unknown_groups, group_is_defined,
    unknown_group_warning, AccessKind, UnknownGroup,
};
use barn::startup::{
    check_executables_root, config_source, defaults_label, local_config_path, owner_may_execute,
    ConfigSource, RootError,
};

fn group(name: &str, pattern: &str) -> Group {
    Group::new(name.to_string(), pattern).ok().unwrap()
}

fn user(name: &str, groups: &[&str]) -> User {
    User {
        username: name.to_string(),
        password: "pw".to_string(),
        groups: groups.iter().map(|g| g.to_string()).collect(),
    }
}

fn sample() -> Config {
    Config {
        options: Options::default(),
        user: vec![
            user("alice", &["g1", "ghost"]),
            user("bob", &[]),
            user("eve", &["x", "g2", "y"]),
        ],
        group: vec![group("g1", r"\.sh$"), group("g2", "^deploy"), group("g3", "^deploy\\.sh$")],
    }
}

#[test]
fn defaults() {
    assert_eq!(default_root(), ".");
    assert_eq!(default_host(), "127.0.0.1");
    assert_eq!(default_port(), 8080);
    assert!(default_vec::<User>().is_empty());
    let options = Options::default();
    assert_eq!(options.root, ".");
    assert_eq!(options.host, "127.0.0.1");
    assert_eq!(options.port, 8080);
    let config = Config::default();
    assert!(config.user.is_empty() && config.group.is_empty());
    assert_eq!(config.options.port, 8080);
}

#[test]
fn unknown_groups_are_found_in_order() {
    let config = sample();
    assert_eq!(
        find_unknown_groups(&config),
        vec![
            UnknownGroup { user: 0, entry: 1 },
            UnknownGroup { user: 2, entry: 0 },
            UnknownGroup { user: 2, entry: 2 },
        ]
    );
    assert!(find_unknown_groups(&Config::default()).is_empty());
}

#[test]
fn defined_groups() {
    let config = sample();
    assert!(group_is_defined(&config.group, &"g2".to_string()));
    assert!(!group_is_defined(&config.group, &"G2".to_string()));
    assert!(!group_is_defined(&Vec::new(), &"g2".to_string()));
}

#[test]
fn groups_that_may_run_a_file() {
    let config = sample();
    assert_eq!(executable_by(&config, "deploy.sh"), vec!["g1", "g2", "g3"]);
    assert_eq!(executable_by(&config, "deploy"), vec!["g2"]);
    assert_eq!(executable_by(&config, "backup.sh"), vec!["g1"]);
    assert!(executable_by(&config, "readme").is_empty());
}

#[test]
fn access_is_described() {
    let names = vec!["g1".to_string(), "g2".to_string(), "g3".to_string()];
    assert_eq!(describe_access(true, &names), "g1, g2, g3");
    assert_eq!(describe_access(true, &vec!["only".to_string()]), "only");
    assert_eq!(describe_access(true, &Vec::new()), "not executable by any groups");
    assert_eq!(describe_access(true, &vec![String::new()]), "not executable by any groups");
    assert_eq!(describe_access(true, &vec![String::new(), String::new()]), ", ");
    assert_eq!(describe_access(false, &names), "not an executable file");
    assert_eq!(describe_access(false, &Vec::new()), "not an executable file");
}

#[test]
fn configuration_source() {
    assert!(matches!(
        config_source(Some("x.toml".to_string()), true, true),
        ConfigSource::Given(p) if p == "x.toml"
    ));
    assert!(matches!(config_source(None, true, true), ConfigSource::Local));
    assert!(matches!(config_source(None, true, false), ConfigSource::Local));
    assert!(matches!(config_source(None, false, true), ConfigSource::Home));
    assert!(matches!(config_source(None, false, false), ConfigSource::Defaults));
    assert_eq!(local_config_path(), "./barn.toml");
    assert_eq!(defaults_label(), "using defaults");
}

#[test]
fn root_is_checked() {
    assert_eq!(check_executables_root(true, true, Some(0o755)), Ok(()));
    assert_eq!(check_executables_root(true, true, Some(0o100)), Ok(()));
    assert_eq!(check_executables_root(false, false, None), Err(RootError::NotADirectory));
    assert_eq!(check_executables_root(true, false, Some(0o755)), Err(RootError::NotADirectory));
    assert_eq!(check_executables_root(false, true, Some(0o755)), Err(RootError::NotADirectory));
    assert_eq!(check_executables_root(true, true, None), Err(RootError::NoMetadata));
    let no_permission = Err(RootError::NoExecutePermission);
    assert_eq!(check_executables_root(true, true, Some(0o644)), no_permission);
    assert_eq!(check_executables_root(true, true, Some(0o011)), no_permission);
}

#[test]
fn root_errors_are_worded() {
    assert_eq!(
        RootError::NotADirectory.message("./bin"),
        "'./bin' either doesn't exist or isn't a directory"
    );
    assert_eq!(RootError::NoMetadata.message("./bin"), "Unable to get metadata for root dir");
    assert_eq!(
        RootError::NoExecutePermission.message("./bin"),
        "No execute permission inside './bin'"
    );
}

#[test]
fn owner_execute_bit() {
    assert!(owner_may_execute(0o100));
    assert!(owner_may_execute(0o777));
    assert!(!owner_may_execute(0o677));
    assert!(!owner_may_execute(0));
}

#[test]
fn unknown_group_warning_names_user_and_group() {
    assert_eq!(
        unknown_group_warning("alice", "ghost"),
        "the user 'alice' has been assigned a non-existent group 'ghost'"
    );
    assert_eq!(
        unknown_group_warning("", ""),
        "the user '' has been assigned a non-existent group ''"
    );
}

#[test]
fn state_holds_the_configuration() {
    let state = BarnState { config: sample() };
    assert_eq!(state.config.user.len(), 3);
    assert_eq!(state.config.group[1].name, "g2");
}

#[test]
fn access_kinds() {
    let names = vec!["g1".to_string(), "g2".to_string()];
    assert_eq!(access_kind(false, &names), AccessKind::NotExecutable);
    assert_eq!(access_kind(false, &Vec::new()), AccessKind::NotExecutable);
    assert_eq!(access_kind(true, &Vec::new()), AccessKind::NoGroup);
    assert_eq!(access_kind(true, &vec![String::new()]), AccessKind::NoGroup);
    assert_eq!(access_kind(true, &vec![String::new(), String::new()]), AccessKind::Groups);
    assert_eq!(access_kind(true, &vec!["g".to_string()]), AccessKind::Groups);
    assert_eq!(access_kind(true, &names), AccessKind::Groups);
}

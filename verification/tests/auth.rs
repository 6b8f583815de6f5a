use barn::auth::{
    authorize, executable_name, is_safe_filename, request_validator, AuthDecision, Credentials,
    Denial,
};
use barn::config::{Config, Group, Options, User};
use barn::render::Status;

fn group(name: &str, pattern: &str) -> Group {
    match Group::new(name.to_string(), pattern) {
        Ok(g) => g,
        Err(e) => panic!("{}", e.message()),
    }
}

fn user(name: &str, password: &str, groups: &[&str]) -> User {
    User {
        username: name.to_string(),
        password: password.to_string(),
        groups: groups.iter().map(|g| g.to_string()).collect(),
    }
}

fn creds(name: &str, password: Option<&str>) -> Option<Credentials> {
    Some(Credentials { username: name.to_string(), password: password.map(|p| p.to_string()) })
}

fn sample() -> Config {
    Config {
        options: Options::default(),
        user: vec![
            user("alice", "pw1", &["g1", "ghost"]),
            user("bob", "pw2", &["g2"]),
            user("carol", "pw3", &[]),
        ],
        group: vec![
            group("g1", r"^backup\.sh$"),
            group("g2", r"^deploy.*$"),
            group("passwordless", r"^status\.sh$"),
        ],
    }
}

const PAGE: &str = "<html><body><div>";

#[test]
fn valid_credentials_are_allowed() {
    let config = sample();
    assert_eq!(
        authorize(&config, "backup.sh", true, &creds("alice", Some("pw1"))),
        AuthDecision::Allow
    );
    assert!(request_validator(&config, PAGE, "/backup.sh", true, &creds("alice", Some("pw1")))
        .is_ok());
}

#[test]
fn wrong_password_is_invalid_credentials() {
    let config = sample();
    assert_eq!(
        authorize(&config, "backup.sh", true, &creds("alice", Some("wrong"))),
        AuthDecision::Deny(Denial::InvalidCredentials)
    );
    let e = request_validator(&config, PAGE, "/backup.sh", true, &creds("alice", Some("wrong")))
        .unwrap_err();
    assert_eq!(e.status.code(), 400);
    assert!(e.body.contains("Invalid credentials"));
    assert_eq!(
        e.body,
        "<html><body><div><p class=\"warning\">Invalid credentials</p> </div> </body> </html>"
    );
}

#[test]
fn passwordless_needs_no_header() {
    let config = sample();
    assert_eq!(authorize(&config, "status.sh", true, &None), AuthDecision::Allow);
    assert!(request_validator(&config, PAGE, "/status.sh", true, &None).is_ok());
}

#[test]
fn traversal_is_a_disallowed_filename() {
    let config = sample();
    assert_eq!(executable_name("/../etc/passwd"), "../etc/passwd");
    // the name is refused before the file system is asked, so what it
    // would say makes no difference
    for is_file in [false, true] {
        let e = request_validator(&config, PAGE, "/../etc/passwd", is_file, &None).unwrap_err();
        assert_eq!(e.status, Status::BadRequest);
        assert_eq!(e.status.code(), 400);
        assert!(e.body.contains("Disallowed filename"));
    }
}

#[test]
fn missing_file_is_non_existent_executable() {
    let config = sample();
    let e = request_validator(&config, PAGE, "/nosuch.sh", false, &creds("alice", Some("pw1")))
        .unwrap_err();
    assert_eq!(e.status.code(), 400);
    assert!(e.body.contains("Non-existent executable"));
    assert_eq!(
        authorize(&config, "nosuch.sh", false, &None),
        AuthDecision::Deny(Denial::NonExistentExecutable)
    );
}

#[test]
fn missing_file_is_reported_before_passwordless() {
    let config = sample();
    assert_eq!(
        authorize(&config, "status.sh", false, &None),
        AuthDecision::Deny(Denial::NonExistentExecutable)
    );
}

#[test]
fn no_credentials_is_no_password() {
    let config = sample();
    assert_eq!(
        authorize(&config, "backup.sh", true, &None),
        AuthDecision::Deny(Denial::NoPassword)
    );
    assert_eq!(
        authorize(&config, "backup.sh", true, &creds("alice", None)),
        AuthDecision::Deny(Denial::NoPassword)
    );
    let e = request_validator(&config, PAGE, "/backup.sh", true, &None).unwrap_err();
    assert_eq!(e.status.code(), 400);
    assert!(e.body.contains("No password provided"));
}

#[test]
fn unknown_user_is_invalid_credentials() {
    let config = sample();
    assert_eq!(
        authorize(&config, "backup.sh", true, &creds("mallory", Some("pw1"))),
        AuthDecision::Deny(Denial::InvalidCredentials)
    );
    // the password of another user does not help
    assert_eq!(
        authorize(&config, "backup.sh", true, &creds("alice", Some("pw2"))),
        AuthDecision::Deny(Denial::InvalidCredentials)
    );
}

#[test]
fn user_outside_the_group_is_unauthorized() {
    let config = sample();
    assert_eq!(
        authorize(&config, "backup.sh", true, &creds("bob", Some("pw2"))),
        AuthDecision::Deny(Denial::NoAccess)
    );
    assert_eq!(
        authorize(&config, "backup.sh", true, &creds("carol", Some("pw3"))),
        AuthDecision::Deny(Denial::NoAccess)
    );
    let e = request_validator(&config, PAGE, "/backup.sh", true, &creds("bob", Some("pw2")))
        .unwrap_err();
    assert_eq!(e.status, Status::Unauthorized);
    assert_eq!(e.status.code(), 401);
    assert!(e.body.contains("You don't have access to this executable"));
}

#[test]
fn membership_in_a_matching_group_is_enough() {
    let config = sample();
    assert_eq!(
        authorize(&config, "deploy-all", true, &creds("bob", Some("pw2"))),
        AuthDecision::Allow
    );
    assert_eq!(
        authorize(&config, "deploy-all", true, &creds("alice", Some("pw1"))),
        AuthDecision::Deny(Denial::NoAccess)
    );
}

#[test]
fn a_file_no_group_accepts_is_refused_to_everyone() {
    let config = sample();
    assert_eq!(
        authorize(&config, "other.sh", true, &creds("alice", Some("pw1"))),
        AuthDecision::Deny(Denial::NoAccess)
    );
}

#[test]
fn allowed_iff_passwordless_or_member_on_a_grid() {
    let config = sample();
    let names = ["backup.sh", "deploy.sh", "status.sh", "other.sh"];
    let people = [("alice", "pw1"), ("bob", "pw2"), ("carol", "pw3"), ("alice", "bad")];
    for name in names {
        for (who, pw) in people {
            let passwordless = name == "status.sh";
            let member = (who, pw, name) == ("alice", "pw1", "backup.sh")
                || (who, pw, name) == ("bob", "pw2", "deploy.sh");
            let got = authorize(&config, name, true, &creds(who, Some(pw)));
            assert_eq!(got == AuthDecision::Allow, passwordless || member, "{name} {who}");
        }
    }
}

#[test]
fn unsafe_names_are_denied_whatever_the_credentials() {
    let config = sample();
    let names = ["", ".hidden", "a/b", "../x", "a b", "a\n", "é", "naïve.sh", "/", "..", "a\\b"];
    let all = [None, creds("alice", Some("pw1")), creds("alice", None), creds("x", Some("y"))];
    for name in names {
        for c in &all {
            for is_file in [true, false] {
                assert_eq!(
                    authorize(&config, name, is_file, c),
                    AuthDecision::Deny(Denial::DisallowedFilename),
                    "{name:?}"
                );
            }
        }
    }
    assert_eq!(Denial::DisallowedFilename.status().code(), 400);
}

#[test]
fn passwordless_ignores_credentials() {
    let config = sample();
    for c in [None, creds("alice", Some("wrong")), creds("nobody", None), creds("bob", Some("pw2"))]
    {
        assert_eq!(authorize(&config, "status.sh", true, &c), AuthDecision::Allow);
    }
}

#[test]
fn passwordless_pattern_must_accept_the_name() {
    let config = sample();
    assert_eq!(
        authorize(&config, "backup.sh", true, &None),
        AuthDecision::Deny(Denial::NoPassword)
    );
}

#[test]
fn authorization_is_repeatable() {
    let config = sample();
    for name in ["backup.sh", "status.sh", "nosuch", "../x"] {
        for c in [None, creds("alice", Some("pw1")), creds("bob", Some("pw2"))] {
            let first = authorize(&config, name, true, &c);
            let second = authorize(&config, name, true, &c);
            assert_eq!(first, second);
        }
    }
}

#[test]
fn the_first_user_with_the_credentials_decides() {
    let mut config = sample();
    config.user.insert(0, user("alice", "pw1", &[]));
    assert_eq!(
        authorize(&config, "backup.sh", true, &creds("alice", Some("pw1"))),
        AuthDecision::Deny(Denial::NoAccess)
    );
}

#[test]
fn safe_filenames() {
    for name in ["a", "backup.sh", "_x", "-x", "A9", "a.b.c", "a..", "0", "a-b_c.D"] {
        assert!(is_safe_filename(name), "{name:?}");
    }
    for name in ["", ".", ".a", "a/b", "/a", "a b", "a\n", "a\r", "a$", "ä", "aä", "a\u{0}"] {
        assert!(!is_safe_filename(name), "{name:?}");
    }
}

#[test]
fn executable_name_drops_leading_slashes() {
    assert_eq!(executable_name("/backup.sh"), "backup.sh");
    assert_eq!(executable_name("backup.sh"), "backup.sh");
    assert_eq!(executable_name("///a/b/"), "a/b/");
    assert_eq!(executable_name("/"), "");
    assert_eq!(executable_name(""), "");
    assert_eq!(executable_name("/é/x"), "é/x");
}

#[test]
fn denial_messages_and_statuses() {
    let all = [
        (Denial::DisallowedFilename, "Disallowed filename", 400),
        (Denial::NonExistentExecutable, "Non-existent executable", 400),
        (Denial::NoPassword, "No password provided", 400),
        (Denial::InvalidCredentials, "Invalid credentials", 400),
        (Denial::NoAccess, "You don't have access to this executable", 401),
    ];
    for (denial, message, code) in all {
        assert_eq!(denial.message(), message);
        assert_eq!(denial.status().code(), code);
    }
}

#[test]
fn group_patterns_are_searched_not_anchored() {
    let g = group("any", "ack");
    assert!(g.is_match("backup.sh"));
    assert!(!g.is_match("status.sh"));
    let anchored = group("anchored", "^ack");
    assert!(!anchored.is_match("backup.sh"));
}

#[test]
fn malformed_pattern_is_reported() {
    let r = Group::new("bad".to_string(), "(unclosed");
    match r {
        Ok(_) => panic!("the pattern should not compile"),
        Err(e) => {
            assert!(!e.detail.is_empty());
            assert_eq!(e.message(), format!("malformed regex: {}", e.detail));
        }
    }
    let ok = Group::new("fine".to_string(), "^a+$");
    assert!(matches!(ok, Ok(ref g) if g.name == "fine"));
}

#[test]
fn group_from_a_compiled_pattern() {
    let built = Group::from_compiled("g".to_string(), regex::Regex::new("^a+$"));
    match built {
        Ok(g) => {
            assert_eq!(g.name, "g");
            assert_eq!(g.regex.as_str(), "^a+$");
            assert!(g.is_match("aaa"));
            assert!(!g.is_match("aab"));
        }
        Err(_) => panic!("the pattern should compile"),
    }
    let refused = Group::from_compiled("g".to_string(), regex::Regex::new("a{"));
    assert!(refused.is_err());
}

#[test]
fn users_may_name_groups_that_do_not_exist() {
    let config = sample();
    // alice lists "ghost", which no group is called
    assert_eq!(
        authorize(&config, "backup.sh", true, &creds("alice", Some("pw1"))),
        AuthDecision::Allow
    );
}

#[test]
fn credentials_are_compared_as_written() {
    let config = sample();
    for (who, pw) in [("Alice", "pw1"), ("alice", "PW1"), ("alice ", "pw1"), ("alice", "pw1 ")] {
        assert_eq!(
            authorize(&config, "backup.sh", true, &creds(who, Some(pw))),
            AuthDecision::Deny(Denial::InvalidCredentials)
        );
    }
}

use oqto::linux_users::{
    EffectiveUserPlan, EnsureUserPlan,
    privileges_verdict,
    extract_user_id_from_gecos, parse_uid_output, privileged_route, run_as_user_argv,
    sanitize_gecos, sanitize_username, try_usermgr, CreateUserOutcome, LinuxUserError,
    LinuxUsersConfig, PrivilegedRoute, UniqueIdStep, UsermgrCall,
};

#[test]
fn test_sanitize_username_simple() {
    assert_eq!(sanitize_username("alice"), "alice");
    assert_eq!(sanitize_username("bob123"), "bob123");
    assert_eq!(sanitize_username("user_name"), "user_name");
    assert_eq!(sanitize_username("user-name"), "user-name");
}

#[test]
fn test_sanitize_username_uppercase() {
    assert_eq!(sanitize_username("Alice"), "alice");
    assert_eq!(sanitize_username("BOB"), "bob");
    assert_eq!(sanitize_username("MixedCase"), "mixedcase");
}

#[test]
fn test_sanitize_username_starts_with_digit() {
    assert_eq!(sanitize_username("123user"), "_123user");
    assert_eq!(sanitize_username("1"), "_1");
}

#[test]
fn test_sanitize_username_special_chars() {
    assert_eq!(sanitize_username("user@domain"), "user_domain");
    assert_eq!(sanitize_username("user.name"), "user_name");
    assert_eq!(sanitize_username("user name"), "user_name");
}

#[test]
fn test_sanitize_username_trailing_hyphen() {
    assert_eq!(sanitize_username("user-"), "user");
    assert_eq!(sanitize_username("tamara-WCC-"), "tamara-wcc");
    assert_eq!(sanitize_username("name-123-"), "name-123");
}

#[test]
fn test_sanitize_username_empty() {
    assert_eq!(sanitize_username(""), "user");
}

#[test]
fn test_sanitize_username_max_length() {
    let long_name = "a".repeat(50);
    let result = sanitize_username(&long_name);
    assert_eq!(result.len(), 32);
}

#[test]
fn test_linux_username() {
    // No Linux user named after the bare user ID exists on the host.
    let config = LinuxUsersConfig::default();
    assert_eq!(config.linux_username("alice", false), "oqto_alice");
    assert_eq!(config.linux_username("Bob", false), "oqto_bob");
    assert_eq!(
        config.linux_username("user@example.com", false),
        "oqto_user_example_com"
    );
}

#[test]
fn test_linux_username_custom_prefix() {
    let config = LinuxUsersConfig {
        prefix: "workspace_".to_string(),
        ..Default::default()
    };
    assert_eq!(config.linux_username("alice", false), "workspace_alice");
}

#[test]
fn test_config_default() {
    let config = LinuxUsersConfig::default();
    assert!(!config.enabled);
    assert_eq!(config.prefix, "oqto_");
    assert_eq!(config.uid_start, 2000);
    assert_eq!(config.group, "oqto");
    assert_eq!(config.shell, "/bin/zsh");
    assert!(config.use_sudo);
    assert!(config.create_home);
}

#[test]
fn linux_username_reuses_existing_unprefixed_account() {
    let config = LinuxUsersConfig::default();
    assert_eq!(config.linux_username("Admin", true), "admin");
}

#[test]
fn sanitized_username_is_idempotent() {
    for id in ["Tamara-WCC-", "123user", "", "user@example.com", "ÄÖÜ"] {
        let once = sanitize_username(id);
        assert_eq!(sanitize_username(&once), once);
    }
}

#[test]
fn sanitize_username_replaces_non_ascii() {
    assert_eq!(sanitize_username("jörg"), "j_rg");
}

#[test]
fn project_username_uses_project_prefix() {
    let config = LinuxUsersConfig::default();
    assert_eq!(config.project_username("My Project"), "oqto_proj_my_project");
}

#[test]
fn effective_username_prefers_project() {
    let config = LinuxUsersConfig::default();
    assert_eq!(
        config.effective_username("alice", Some("p1"), false),
        "oqto_proj_p1"
    );
    assert_eq!(config.effective_username("alice", None, false), "oqto_alice");
}

#[test]
fn sanitize_gecos_replaces_separators() {
    assert_eq!(sanitize_gecos("Oqto platform user: a:b\n"), "Oqto platform user  a b");
    assert_eq!(sanitize_gecos("  \n "), "Oqto user");
}

#[test]
fn gecos_owner_is_read_back() {
    assert_eq!(
        extract_user_id_from_gecos("Oqto platform user alice"),
        Some("alice")
    );
    assert_eq!(
        extract_user_id_from_gecos("Oqto platform user: bob "),
        Some("bob")
    );
    assert_eq!(extract_user_id_from_gecos("Someone else"), None);
}

#[test]
fn the_written_gecos_names_its_owner() {
    for id in ["alice", "user-42", "a b", "ünï"] {
        let gecos = sanitize_gecos(&format!("Oqto platform user {}", id));
        assert_eq!(extract_user_id_from_gecos(&gecos), Some(id));
    }
}

#[test]
fn uid_output_is_parsed() {
    assert_eq!(parse_uid_output(true, "2001\n").unwrap(), Some(2001));
    assert_eq!(parse_uid_output(false, "").unwrap(), None);
    assert!(matches!(
        parse_uid_output(true, "abc"),
        Err(LinuxUserError::UidParse)
    ));
}

#[test]
fn create_user_reuses_only_own_account() {
    let config = LinuxUsersConfig {
        enabled: true,
        ..Default::default()
    };
    assert_eq!(
        config
            .create_user("alice", "oqto_alice", None, None)
            .unwrap(),
        CreateUserOutcome::Create {
            username: "oqto_alice".to_string()
        }
    );
    assert_eq!(
        config
            .create_user(
                "alice",
                "oqto_alice",
                Some(2001),
                Some("Oqto platform user alice")
            )
            .unwrap(),
        CreateUserOutcome::Reuse {
            uid: 2001,
            username: "oqto_alice".to_string()
        }
    );
    assert!(matches!(
        config.create_user(
            "alice",
            "oqto_alice",
            Some(2001),
            Some("Oqto platform user mallory")
        ),
        Err(LinuxUserError::OwnedByOtherUser { .. })
    ));
    assert!(matches!(
        config.create_user("alice", "oqto_alice", Some(2001), Some("root")),
        Err(LinuxUserError::OwnershipUnverifiable { .. })
    ));
    assert!(matches!(
        LinuxUsersConfig::default().create_user("alice", "oqto_alice", None, None),
        Err(LinuxUserError::NotEnabled)
    ));
}

#[test]
fn verify_uid_detects_mismatch() {
    let config = LinuxUsersConfig {
        enabled: true,
        ..Default::default()
    };
    assert!(config.verify_linux_user_uid("oqto_a", 2001, Some(2001)).is_ok());
    assert!(matches!(
        config.verify_linux_user_uid("oqto_a", 2001, Some(2002)),
        Err(LinuxUserError::UidMismatch {
            expected: 2001,
            actual: 2002,
            ..
        })
    ));
    assert!(matches!(
        config.verify_linux_user_uid("oqto_a", 2001, None),
        Err(LinuxUserError::UserMissing { .. })
    ));
}

#[test]
fn unique_user_id_retries_then_gives_up() {
    let config = LinuxUsersConfig::default();
    assert_eq!(
        config
            .generate_unique_user_id("alice", 0, "alice-x1", None, None)
            .unwrap(),
        UniqueIdStep::Use("alice-x1".to_string())
    );
    assert_eq!(
        config
            .generate_unique_user_id("alice", 3, "alice-x1", Some(2005), Some("other"))
            .unwrap(),
        UniqueIdStep::Retry
    );
    assert!(matches!(
        config.generate_unique_user_id("alice", 9, "alice-x1", Some(2005), None),
        Err(LinuxUserError::UniqueIdExhausted { attempts: 10, .. })
    ));
}

#[test]
fn next_uid_skips_used_uids() {
    let config = LinuxUsersConfig::default();
    let passwd = "root:x:0:0::/root:/bin/sh\noqto_a:x:2000:2000::/home/oqto_a:/bin/zsh\noqto_b:x:2001:2000::/home/oqto_b:/bin/zsh\n";
    assert_eq!(config.next_uid_from_passwd(passwd).unwrap(), 2002);
    assert_eq!(config.next_uid_from_passwd("").unwrap(), 2000);
}

#[test]
fn useradd_is_routed_to_usermgr() {
    let call = try_usermgr(
        "/usr/sbin/useradd",
        &[
            "-u", "2001", "-g", "oqto", "-s", "/bin/zsh", "-m", "-c", "Oqto platform user alice",
            "oqto_alice",
        ],
    );
    assert_eq!(
        call,
        Some(UsermgrCall::CreateUser {
            username: "oqto_alice".to_string(),
            uid: 2001,
            group: "oqto".to_string(),
            shell: "/bin/zsh".to_string(),
            gecos: "Oqto platform user alice".to_string(),
            create_home: true,
        })
    );
    assert_eq!(try_usermgr("/usr/bin/true", &[]), None);
}

#[test]
fn privileged_commands_prefer_root_then_usermgr_then_sudo() {
    assert_eq!(
        privileged_route(true, false, "/usr/sbin/groupadd", &["oqto"]),
        PrivilegedRoute::Direct
    );
    assert_eq!(
        privileged_route(false, false, "/usr/sbin/groupadd", &["oqto"]),
        PrivilegedRoute::Usermgr(UsermgrCall::CreateGroup {
            group: "oqto".to_string()
        })
    );
    assert_eq!(
        privileged_route(false, true, "/usr/bin/true", &[]),
        PrivilegedRoute::Sudo
    );
    assert_eq!(
        privileged_route(false, false, "/usr/bin/true", &[]),
        PrivilegedRoute::Unavailable
    );
}

#[test]
fn run_as_user_builds_sudo_line() {
    let argv = run_as_user_argv(false, true, "oqto_a", "mmry", &["init"], &[("A", "1")]).unwrap();
    assert_eq!(
        argv,
        vec!["sudo", "-n", "-u", "oqto_a", "--", "env", "A=1", "mmry", "init"]
    );
    let argv = run_as_user_argv(true, false, "oqto_a", "mmry", &[], &[]).unwrap();
    assert_eq!(argv, vec!["runuser", "-u", "oqto_a", "--", "mmry"]);
    assert!(matches!(
        run_as_user_argv(false, false, "oqto_a", "mmry", &[], &[]),
        Err(LinuxUserError::RunAsUserUnavailable)
    ));
}

#[test]
fn privileges_are_needed_only_for_enabled_isolation() {
    assert_eq!(privileges_verdict(false, 1000, false), Ok(()));
    assert_eq!(privileges_verdict(true, 0, false), Ok(()));
    assert_eq!(privileges_verdict(true, 1000, true), Ok(()));
    assert_eq!(privileges_verdict(true, 1000, false), Err(LinuxUserError::PrivilegesRequired));
}

#[test]
fn a_given_project_selects_the_project_user() {
    let mut config = LinuxUsersConfig::default();
    config.enabled = true;
    assert_eq!(
        config.ensure_effective_user("alice", Some("proj1"), None),
        EffectiveUserPlan::Project { project_id: "proj1".to_string(), project_path: None }
    );
    assert_eq!(
        config.ensure_effective_user("alice", Some("proj1"), Some("/srv/p")),
        EffectiveUserPlan::Project {
            project_id: "proj1".to_string(),
            project_path: Some("/srv/p".to_string())
        }
    );
    assert_eq!(
        config.ensure_effective_user("alice", None, Some("/srv/p")),
        EffectiveUserPlan::Platform(EnsureUserPlan::CreateOrReuse)
    );
}

#[test]
fn without_isolation_the_process_user_stands_in() {
    let config = LinuxUsersConfig::default();
    match config.ensure_user("alice") {
        EnsureUserPlan::Disabled { uid, username } => {
            assert_eq!(username, "alice");
            assert_eq!(uid, rustix::process::getuid().as_raw());
        }
        other => panic!("unexpected plan {other:?}"),
    }
}

#[test]
fn without_isolation_the_given_uid_is_planned() {
    let config = LinuxUsersConfig::default();
    assert_eq!(
        config.plan_ensure_user("alice", Some("oqto_alice"), Some(2001), 1234),
        EnsureUserPlan::Disabled { uid: 1234, username: "alice".to_string() }
    );
}

use oqto::usermgr::{
    check_gecos, check_group, check_path, check_uid, check_user_args, check_username,
    runner_units,
    get_str, get_u32, user_and_uid_args, ArgValue,
    check_restart_service, check_socket_dir_user, check_workspace_file_name,
    check_workspace_path, cwd_allowed, default_pi_extensions, home_from_passwd, hstry_config,
    hstry_unit, mmry_api_port, mmry_config, parse_command, plan_run_as_user, run_failure_message,
    runner_action, runner_socket_path, runner_unit, runuser_systemctl_args,
    socket_dir_needs_fix, systemctl_machine_args, user_file_path, user_path_env, useradd_args,
    userdel_outcome, UsermgrCommand, UsermgrResponse,
};

#[test]
fn commands_are_parsed() {
    assert_eq!(parse_command("create-user"), Ok(UsermgrCommand::CreateUser));
    assert_eq!(parse_command("ping"), Ok(UsermgrCommand::Ping));
    assert_eq!(
        parse_command("format-disk"),
        Err("unknown command: format-disk".to_string())
    );
}

#[test]
fn responses() {
    let ok = UsermgrResponse::success();
    assert!(ok.ok && ok.error.is_none());
    let err = UsermgrResponse::error("boom".to_string());
    assert!(!err.ok);
    assert_eq!(err.error.as_deref(), Some("boom"));
}

#[test]
fn useradd_line() {
    assert_eq!(
        useradd_args(2001, "oqto", "/bin/zsh", false, "Oqto platform user a", "oqto_a").unwrap(),
        vec![
            "-u", "2001", "-g", "oqto", "-s", "/bin/zsh", "-M", "-c", "Oqto platform user a",
            "oqto_a"
        ]
    );
    assert_eq!(
        useradd_args(2001, "oqto", "/bin/zsh", true, "Oqto platform user a", "root"),
        Err("username must start with oqto_".to_string())
    );
    assert_eq!(
        useradd_args(1000, "oqto", "/bin/zsh", true, "Oqto platform user a", "oqto_a"),
        Err("uid must be between 2000 and 60000".to_string())
    );
    assert_eq!(
        useradd_args(2001, "wheel", "/bin/zsh", true, "Oqto platform user a", "oqto_a"),
        Err("group must be oqto".to_string())
    );
    assert_eq!(
        useradd_args(2001, "oqto", "/bin/zsh", true, "Someone", "oqto_a"),
        Err("GECOS must start with 'Oqto platform user '".to_string())
    );
}

#[test]
fn userdel_falls_back_without_home_removal() {
    assert_eq!(userdel_outcome(Ok(()), None), Ok(false));
    assert_eq!(userdel_outcome(Err("busy".to_string()), Some(Ok(()))), Ok(true));
    assert_eq!(
        userdel_outcome(Err("busy".to_string()), Some(Err("gone".to_string()))),
        Err("userdel failed: busy; retry without -r: gone".to_string())
    );
}

#[test]
fn runner_setup_texts() {
    assert_eq!(
        runner_socket_path("oqto_a"),
        "/run/oqto/runner-sockets/oqto_a/oqto-runner.sock"
    );
    assert_eq!(
        home_from_passwd("oqto_a:x:2001:2000:Oqto:/home/oqto_a:/bin/zsh\n"),
        Some("/home/oqto_a".to_string())
    );
    assert_eq!(home_from_passwd("short:x"), None);
    let path = user_path_env("/home/oqto_a");
    assert_eq!(
        path,
        "/home/oqto_a/.bun/bin:/home/oqto_a/.cargo/bin:/home/oqto_a/.local/bin:/usr/local/bin:/usr/bin:/bin"
    );
    let unit = hstry_unit(&path, "/home/oqto_a");
    assert!(unit.starts_with("[Unit]\nDescription=Oqto Chat History Service\n"));
    assert!(unit.contains("Environment=HOME=/home/oqto_a\n\n[Install]\nWantedBy=default.target\n"));
    let runner = runner_unit("/run/s.sock", &path, "/home/oqto_a");
    assert!(runner.contains("ExecStart=/usr/local/bin/oqto-runner --socket /run/s.sock\n"));
    assert!(runner.ends_with("TimeoutStartSec=30\n\n[Install]\nWantedBy=default.target\n"));
    assert_eq!(runner_action(true), "restart");
    assert_eq!(runner_action(false), "start");
}

#[test]
fn hstry_configs_are_completed() {
    let fresh = hstry_config(None, "/home/u");
    assert_eq!(
        fresh,
        "database = \"/home/u/.local/share/hstry/hstry.db\"\nadapter_paths = [\"/usr/local/share/hstry/adapters\"]\n\n[service]\nenabled = true\ntransport = \"tcp\"\n\n[[sources]]\nid = \"pi\"\nadapter = \"pi\"\npath = \"/home/u/.pi/agent/sessions\"\nauto_sync = true\n"
    );
    assert_eq!(hstry_config(Some(&fresh), "/home/u"), fresh);
    let old = "database = \"/home/u/.local/share/hstry/hstry.db\"\nsources = []\n[service]\nenabled = false\n";
    assert_eq!(
        hstry_config(Some(old), "/home/u"),
        "database = \"/home/u/.local/share/hstry/hstry.db\"\nadapter_paths = [\"/usr/local/share/hstry/adapters\"]\n\n[service]\nenabled = true\n\n[[sources]]\nid = \"pi\"\nadapter = \"pi\"\npath = \"/home/u/.pi/agent/sessions\"\nauto_sync = true\n"
    );
}

#[test]
fn mmry_port_and_config() {
    assert_eq!(mmry_api_port(2000), 48000);
    assert_eq!(mmry_api_port(2005), 48005);
    let cfg = mmry_config("/home/u", 48005);
    assert!(cfg.starts_with("[database]\npath = \"/home/u/.local/share/mmry/memories.db\"\n"));
    assert!(cfg.contains("directory = \"/home/u/.local/share/mmry/stores\"\n"));
    assert!(cfg.contains("port = 48005\n"));
    assert!(cfg.ends_with("auto_dedupe = true\n"));
}

#[test]
fn systemctl_for_a_user() {
    let args = vec!["daemon-reload".to_string()];
    assert_eq!(
        systemctl_machine_args("oqto_a", &args),
        vec!["--machine", "oqto_a@.host", "--user", "daemon-reload"]
    );
    assert_eq!(
        runuser_systemctl_args("oqto_a", 2001, &args),
        vec![
            "-u",
            "oqto_a",
            "--",
            "env",
            "XDG_RUNTIME_DIR=/run/user/2001",
            "DBUS_SESSION_BUS_ADDRESS=unix:path=/run/user/2001/bus",
            "systemctl",
            "--user",
            "daemon-reload"
        ]
    );
}

#[test]
fn workspace_files_cannot_escape() {
    assert_eq!(check_workspace_file_name(".oqto/workspace.toml"), Ok(()));
    assert_eq!(
        check_workspace_file_name(".."),
        Err("invalid filename: ..".to_string())
    );
    assert_eq!(
        check_workspace_file_name("a/../b"),
        Err("invalid filename (traversal): a/../b".to_string())
    );
    assert_eq!(
        check_workspace_file_name("a//b"),
        Err("invalid filename (traversal): a//b".to_string())
    );
    assert_eq!(
        check_workspace_file_name("a\0b"),
        Err("invalid filename: a\0b".to_string())
    );
    assert_eq!(check_workspace_path("oqto_a", "/home/oqto_a/p"), Ok(()));
    assert_eq!(
        check_workspace_path("oqto_a", "/home/oqto_b/p"),
        Err("path must be under /home/oqto_a/".to_string())
    );
    assert_eq!(
        user_file_path("oqto_a", "oqto", ".config/x.toml"),
        Ok("/home/oqto_a/.config/x.toml".to_string())
    );
    assert!(user_file_path("oqto_a", "oqto", "../etc/passwd").is_err());
    assert!(user_file_path("oqto_a", "oqto", "/etc/passwd").is_err());
    assert_eq!(
        user_file_path("oqto_a", "root", "x"),
        Err("group must be oqto".to_string())
    );
    assert_eq!(
        user_file_path("root", "oqto", "x"),
        Err("username must start with oqto_".to_string())
    );
    assert_eq!(
        check_workspace_path("oqto_a", "/home/oqto_a/../oqto_b"),
        Err("path cannot contain '..'".to_string())
    );
    assert_eq!(
        check_workspace_path("oqto_A", "/home/oqto_A/p"),
        Err("username must be a valid Linux username".to_string())
    );
}

#[test]
fn only_listed_services_and_tools() {
    assert_eq!(check_restart_service("eavs.service"), Ok(()));
    assert_eq!(
        check_restart_service("sshd"),
        Err("service 'sshd' is not in the allowed list: [\"eavs\", \"eavs.service\"]".to_string())
    );
    assert_eq!(check_socket_dir_user("oqto_a"), Ok(()));
    assert_eq!(check_socket_dir_user("root"), Err("username must start with oqto_".to_string()));
    assert_eq!(
        check_socket_dir_user("oqto_../x"),
        Err("invalid username: username must be a valid Linux username".to_string())
    );
    assert!(socket_dir_needs_fix(0, 1, 2001, 1));
    assert!(!socket_dir_needs_fix(2001, 1, 2001, 1));
}

#[test]
fn run_as_user_is_checked_and_built() {
    let argv = plan_run_as_user(
        "oqto_a",
        "git",
        &vec!["status".to_string()],
        &vec![("GIT_DIR".to_string(), "/x".to_string())],
    )
    .unwrap();
    assert_eq!(
        argv,
        vec!["-n", "-u", "oqto_a", "--", "/usr/bin/env", "GIT_DIR=/x", "git", "status"]
    );
    let argv = plan_run_as_user("oqto_a", "pi", &vec![], &vec![]).unwrap();
    assert_eq!(argv, vec!["-n", "-u", "oqto_a", "--", "pi"]);
    assert_eq!(
        plan_run_as_user("oqto_a", "bash", &vec![], &vec![]),
        Err("binary 'bash' is not in the allowed list: [\"skdlr\", \"trx\", \"agntz\", \"byt\", \"pi\", \"sldr\", \"git\"]".to_string())
    );
    assert_eq!(
        plan_run_as_user("oqto_a", "git", &vec!["a\0".to_string()], &vec![]),
        Err("argument contains null byte".to_string())
    );
    assert_eq!(
        plan_run_as_user(
            "oqto_a",
            "git",
            &vec![],
            &vec![("OK".to_string(), "1".to_string()), ("BAD-KEY".to_string(), "1".to_string())]
        ),
        Err("env key 'BAD-KEY' contains invalid characters (allowed: A-Z, a-z, 0-9, _)".to_string())
    );
    assert!(cwd_allowed("/tmp/x"));
    assert!(!cwd_allowed("/etc"));
    assert!(cwd_allowed("/home/oqto_a/project"));
    assert!(!cwd_allowed("/home/oqto_a/../../etc"));
    assert_eq!(
        plan_run_as_user("root", "git", &vec![], &vec![]),
        Err("username must start with oqto_".to_string())
    );
    assert_eq!(
        run_failure_message("git", Some(128), " fatal \n"),
        "git exited with status 128: fatal"
    );
    assert_eq!(run_failure_message("git", None, ""), "git exited with status -1: ");
    assert_eq!(run_failure_message("git", Some(-2), "x"), "git exited with status -2: x");
}

#[test]
fn default_extensions() {
    assert_eq!(
        default_pi_extensions(),
        vec![
            "auto-rename",
            "introspection",
            "oqto-bridge",
            "oqto-todos",
            "custom-context-files"
        ]
    );
}

#[test]
fn runner_unit_always_starts_the_fixed_binary() {
    for socket in ["/run/oqto/runner-sockets/oqto_a/oqto-runner.sock", "; rm -rf /", ""] {
        let unit = runner_unit(socket, "/usr/bin", "/home/oqto_a");
        let exec = unit.lines().find(|l| l.starts_with("ExecStart=")).unwrap();
        assert!(exec.starts_with("ExecStart=/usr/local/bin/oqto-runner --socket "));
    }
}

fn args(pairs: Vec<(&str, ArgValue)>) -> Vec<(String, ArgValue)> {
    pairs.into_iter().map(|(k, v)| (k.to_string(), v)).collect()
}

#[test]
fn user_and_uid_are_read_in_order() {
    let a = args(vec![("username", ArgValue::Text("oqto_alice".to_string())), ("uid", ArgValue::Unsigned(2001))]);
    assert_eq!(user_and_uid_args(&a), Ok(("oqto_alice".to_string(), 2001)));
    let no_user = args(vec![("uid", ArgValue::Unsigned(2001))]);
    assert_eq!(user_and_uid_args(&no_user), Err("missing 'username'".to_string()));
    let text_uid = args(vec![("username", ArgValue::Text("oqto_a".to_string())), ("uid", ArgValue::Text("2001".to_string()))]);
    assert_eq!(user_and_uid_args(&text_uid), Err("missing 'uid'".to_string()));
    let big_uid = args(vec![("username", ArgValue::Text("oqto_alice".to_string())), ("uid", ArgValue::Unsigned(4294969296))]);
    assert_eq!(user_and_uid_args(&big_uid), Err("missing 'uid'".to_string()));
    let root = args(vec![("username", ArgValue::Text("root".to_string())), ("uid", ArgValue::Unsigned(2001))]);
    assert_eq!(user_and_uid_args(&root), Err("username must start with oqto_".to_string()));
    let low_uid = args(vec![("username", ArgValue::Text("oqto_alice".to_string())), ("uid", ArgValue::Unsigned(0))]);
    assert_eq!(user_and_uid_args(&low_uid), Err("uid must be between 2000 and 60000".to_string()));
    let other_user = args(vec![("username", ArgValue::Other), ("uid", ArgValue::Other)]);
    assert_eq!(user_and_uid_args(&other_user), Err("missing 'username'".to_string()));
}

#[test]
fn a_uid_argument_beyond_32_bits_is_refused() {
    let a = args(vec![("uid", ArgValue::Unsigned((1u64 << 32) + 2000))]);
    assert_eq!(get_u32(&a, "uid"), Err("missing 'uid'".to_string()));
    let b = args(vec![("uid", ArgValue::Unsigned(4294967295))]);
    assert_eq!(get_u32(&b, "uid"), Ok(4294967295));
    assert_eq!(get_str(&a, "uid"), Err("missing 'uid'".to_string()));
    assert_eq!(get_u32(&a, "gid"), Err("missing 'gid'".to_string()));
}

#[test]
fn account_fields_are_checked_in_order() {
    assert_eq!(check_username("oqto_alice"), Ok(()));
    assert_eq!(check_username("alice"), Err("username must start with oqto_".to_string()));
    assert_eq!(check_username("oqto_a/b"), Err("username must be a valid Linux username".to_string()));
    assert_eq!(check_username("oqto_x-"), Err("username must be a valid Linux username".to_string()));
    assert_eq!(check_uid(2000), Ok(()));
    assert_eq!(check_uid(60000), Ok(()));
    assert!(check_uid(60001).is_err());
    assert!(check_uid(1999).is_err());
    assert_eq!(check_group("oqto"), Ok(()));
    assert!(check_gecos("Oqto platform user alice").is_ok());
    assert!(check_gecos("Oqto platform user").is_err());
    assert_eq!(check_user_args("oqto_a", 2001, "oqto", "Oqto platform user a"), Ok(()));
    assert_eq!(
        check_user_args("root", 0, "root", "x"),
        Err("username must start with oqto_".to_string())
    );
    assert_eq!(check_path("/run/oqto/runner-sockets/oqto_a"), Ok(()));
    assert_eq!(check_path("/home/oqto_a/.config"), Ok(()));
    assert!(check_path("/etc/passwd").is_err());
    assert!(check_path("/home/oqto_a/../../etc").is_err());
}

#[test]
fn runner_units_come_from_the_passwd_home() {
    let units = runner_units("oqto_a", Ok("oqto_a:x:2001:2001:Oqto platform user a:/home/oqto_a:/bin/zsh\n")).unwrap();
    assert_eq!(units.home, "/home/oqto_a");
    assert_eq!(units.socket_path, "/run/oqto/runner-sockets/oqto_a/oqto-runner.sock");
    assert!(units
        .runner
        .contains("ExecStart=/usr/local/bin/oqto-runner --socket /run/oqto/runner-sockets/oqto_a/oqto-runner.sock\n"));
    assert!(units.hstry.contains("Environment=HOME=/home/oqto_a\n"));
    assert_eq!(
        runner_units("oqto_a", Ok("oqto_a:x:2001:2001:c:/root:/bin/zsh")),
        Err("unexpected home directory for oqto_a: /root (expected /home/oqto_*)".to_string())
    );
    assert_eq!(
        runner_units("oqto_a", Ok("oqto_a:x:2001")),
        Err("cannot parse home dir for oqto_a".to_string())
    );
    assert_eq!(
        runner_units("oqto_a", Err("exit 2")),
        Err("cannot find user oqto_a: exit 2".to_string())
    );
}

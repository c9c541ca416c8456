//! The privileged user manager: what it accepts and what it writes.
//!
//! The daemon runs as root and answers newline-delimited JSON requests on a
//! Unix socket. The checks it makes on a request, the command lines it runs
//! and the files it writes are decided here; running them stays with the
//! daemon.
use vstd::prelude::*;
use crate::linux_users::{is_username_char, is_valid_linux_username};
use crate::num::{decimal, decimal_string};
use crate::text::{
    occurs_at,
    chars_of, contains_sub, push_char, push_str, replace_all, replace_str, split_bounds, split_on,
    starts_with, str_contains, str_eq, str_starts_with, string_from_range, to_owned_string, trim,
    trim_bounds,
};

verus! {

/// The socket the daemon listens on.
pub const SOCKET_PATH: &'static str = "/run/oqto/usermgr.sock";

/// System-wide Pi extensions source directory.
pub const PI_EXTENSIONS_DIR: &'static str = "/usr/share/oqto/pi-agent-extensions";

/// The runner binary; never taken from a request.
pub const RUNNER_BINARY: &'static str = "/usr/local/bin/oqto-runner";

/// The directory of the per-user runner sockets.
pub const RUNNER_SOCKETS_BASE: &'static str = "/run/oqto/runner-sockets";

// ---------------------------------------------------------------------------
// Requests and responses
// ---------------------------------------------------------------------------

/// The commands the daemon knows.
#[derive(Debug, Clone, Copy, PartialEq, Eq, Structural)]
pub enum UsermgrCommand {
    CreateGroup,
    CreateUser,
    DeleteUser,
    Mkdir,
    Chown,
    Chmod,
    EnableLinger,
    StartUserService,
    SetupUserRunner,
    CreateWorkspace,
    SetupUserShell,
    InstallPiExtensions,
    WriteFile,
    RestartService,
    RunAsUser,
    FixSocketDir,
    VerifySocketDirs,
    Ping,
}

/// The command a request's `cmd` names.
pub open spec fn command_named(cmd: Seq<char>) -> Option<UsermgrCommand> {
    if cmd == "create-group"@ {
        Some(UsermgrCommand::CreateGroup)
    } else if cmd == "create-user"@ {
        Some(UsermgrCommand::CreateUser)
    } else if cmd == "delete-user"@ {
        Some(UsermgrCommand::DeleteUser)
    } else if cmd == "mkdir"@ {
        Some(UsermgrCommand::Mkdir)
    } else if cmd == "chown"@ {
        Some(UsermgrCommand::Chown)
    } else if cmd == "chmod"@ {
        Some(UsermgrCommand::Chmod)
    } else if cmd == "enable-linger"@ {
        Some(UsermgrCommand::EnableLinger)
    } else if cmd == "start-user-service"@ {
        Some(UsermgrCommand::StartUserService)
    } else if cmd == "setup-user-runner"@ {
        Some(UsermgrCommand::SetupUserRunner)
    } else if cmd == "create-workspace"@ {
        Some(UsermgrCommand::CreateWorkspace)
    } else if cmd == "setup-user-shell"@ {
        Some(UsermgrCommand::SetupUserShell)
    } else if cmd == "install-pi-extensions"@ {
        Some(UsermgrCommand::InstallPiExtensions)
    } else if cmd == "write-file"@ {
        Some(UsermgrCommand::WriteFile)
    } else if cmd == "restart-service"@ {
        Some(UsermgrCommand::RestartService)
    } else if cmd == "run-as-user"@ {
        Some(UsermgrCommand::RunAsUser)
    } else if cmd == "fix-socket-dir"@ {
        Some(UsermgrCommand::FixSocketDir)
    } else if cmd == "verify-socket-dirs"@ {
        Some(UsermgrCommand::VerifySocketDirs)
    } else if cmd == "ping"@ {
        Some(UsermgrCommand::Ping)
    } else {
        None
    }
}

/// The command a request names, or the error `unknown command: <cmd>`.
pub fn parse_command(cmd: &str) -> (r: Result<UsermgrCommand, String>)
    ensures
        match r {
            Ok(c) => command_named(cmd@) == Some(c),
            Err(e) => command_named(cmd@) is None && e@ == "unknown command: "@ + cmd@,
        },
{
    if str_eq(cmd, "create-group") {
        Ok(UsermgrCommand::CreateGroup)
    } else if str_eq(cmd, "create-user") {
        Ok(UsermgrCommand::CreateUser)
    } else if str_eq(cmd, "delete-user") {
        Ok(UsermgrCommand::DeleteUser)
    } else if str_eq(cmd, "mkdir") {
        Ok(UsermgrCommand::Mkdir)
    } else if str_eq(cmd, "chown") {
        Ok(UsermgrCommand::Chown)
    } else if str_eq(cmd, "chmod") {
        Ok(UsermgrCommand::Chmod)
    } else if str_eq(cmd, "enable-linger") {
        Ok(UsermgrCommand::EnableLinger)
    } else if str_eq(cmd, "start-user-service") {
        Ok(UsermgrCommand::StartUserService)
    } else if str_eq(cmd, "setup-user-runner") {
        Ok(UsermgrCommand::SetupUserRunner)
    } else if str_eq(cmd, "create-workspace") {
        Ok(UsermgrCommand::CreateWorkspace)
    } else if str_eq(cmd, "setup-user-shell") {
        Ok(UsermgrCommand::SetupUserShell)
    } else if str_eq(cmd, "install-pi-extensions") {
        Ok(UsermgrCommand::InstallPiExtensions)
    } else if str_eq(cmd, "write-file") {
        Ok(UsermgrCommand::WriteFile)
    } else if str_eq(cmd, "restart-service") {
        Ok(UsermgrCommand::RestartService)
    } else if str_eq(cmd, "run-as-user") {
        Ok(UsermgrCommand::RunAsUser)
    } else if str_eq(cmd, "fix-socket-dir") {
        Ok(UsermgrCommand::FixSocketDir)
    } else if str_eq(cmd, "verify-socket-dirs") {
        Ok(UsermgrCommand::VerifySocketDirs)
    } else if str_eq(cmd, "ping") {
        Ok(UsermgrCommand::Ping)
    } else {
        let mut e = to_owned_string("unknown command: ");
        push_str(&mut e, cmd);
        Err(e)
    }
}

/// The daemon's answer to a request.
#[derive(Debug, Clone)]
pub struct UsermgrResponse {
    pub ok: bool,
    pub error: Option<String>,
    pub data: Option<serde_json::Value>,
}

impl UsermgrResponse {
    /// Success without data.
    pub fn success() -> (r: Self)
        ensures
            r.ok && r.error is None && r.data is None,
    {
        UsermgrResponse { ok: true, error: None, data: None }
    }

    /// Success with data.
    pub fn success_with_data(data: serde_json::Value) -> (r: Self)
        ensures
            r.ok && r.error is None && r.data == Some(data),
    {
        UsermgrResponse { ok: true, error: None, data: Some(data) }
    }

    /// Failure with a message.
    pub fn error(msg: String) -> (r: Self)
        ensures
            !r.ok && r.error == Some(msg) && r.data is None,
    {
        UsermgrResponse { ok: false, error: Some(msg), data: None }
    }
}

/// `missing '<key>'`, the answer to a request without a required argument.
pub fn missing_argument(key: &str) -> (r: String)
    ensures
        r@ == "missing '"@ + key@ + "'"@,
{
    let mut r = to_owned_string("missing '");
    push_str(&mut r, key);
    push_str(&mut r, "'");
    r
}

/// A request argument as the daemon reads it: a string, a non-negative
/// integer that fits in 64 bits, or any other JSON value.
#[derive(Debug, Clone, PartialEq, Eq)]
pub enum ArgValue {
    Text(String),
    Unsigned(u64),
    Other,
}

/// The value stored under `key` in the request arguments, the first pair
/// with that key (an object's keys are distinct).
pub open spec fn arg_lookup(args: Seq<(String, ArgValue)>, key: Seq<char>) -> Option<ArgValue>
    decreases args.len(),
{
    if args.len() == 0 {
        None
    } else if args[0].0@ == key {
        Some(args[0].1)
    } else {
        arg_lookup(args.drop_first(), key)
    }
}

fn find_arg<'a>(args: &'a Vec<(String, ArgValue)>, key: &str) -> (r: Option<&'a ArgValue>)
    ensures
        match r {
            Some(v) => arg_lookup(args@, key@) == Some(*v),
            None => arg_lookup(args@, key@) is None,
        },
{
    let mut i: usize = 0;
    assert(args@.skip(0) =~= args@);
    while i < args.len()
        invariant
            i <= args@.len(),
            arg_lookup(args@, key@) == arg_lookup(args@.skip(i as int), key@),
        decreases args.len() - i,
    {
        assert(args@.skip(i as int).drop_first() =~= args@.skip(i + 1));
        if str_eq(args[i].0.as_str(), key) {
            return Some(&args[i].1);
        }
        i += 1;
    }
    None
}

/// A required string argument; `missing '<key>'` when it is absent or not
/// a string.
pub fn get_str(args: &Vec<(String, ArgValue)>, key: &str) -> (r: Result<String, String>)
    ensures
        match arg_lookup(args@, key@) {
            Some(ArgValue::Text(s)) => r matches Ok(v) && v@ == s@,
            _ => r matches Err(e) && e@ == "missing '"@ + key@ + "'"@,
        },
{
    match find_arg(args, key) {
        Some(ArgValue::Text(s)) => Ok(to_owned_string(s.as_str())),
        _ => Err(missing_argument(key)),
    }
}

/// A required 32-bit integer argument; `missing '<key>'` when it is absent,
/// not a non-negative integer, or beyond `u32::MAX` (a UID outside the
/// range the daemon accepts is refused, never cut down).
pub fn get_u32(args: &Vec<(String, ArgValue)>, key: &str) -> (r: Result<u32, String>)
    ensures
        match arg_lookup(args@, key@) {
            Some(ArgValue::Unsigned(n)) if n <= u32::MAX => r == Ok::<u32, String>(n as u32),
            _ => r matches Err(e) && e@ == "missing '"@ + key@ + "'"@,
        },
{
    match find_arg(args, key) {
        Some(ArgValue::Unsigned(n)) if *n <= 0xffff_ffff => Ok(*n as u32),
        _ => Err(missing_argument(key)),
    }
}

/// The arguments of `setup-user-runner`, read and checked in the daemon's
/// order: the username, then the UID are read; then the username and the
/// UID are checked. Nothing is accepted for a user the daemon must not act
/// for.
pub fn user_and_uid_args(args: &Vec<(String, ArgValue)>) -> (r: Result<(String, u32), String>)
    ensures
        r matches Ok((u, uid)) ==> username_allowed(u@) && uid_allowed(uid),
        match arg_lookup(args@, "username"@) {
            Some(ArgValue::Text(name)) => match arg_lookup(args@, "uid"@) {
                Some(ArgValue::Unsigned(n)) if n <= u32::MAX => if !username_allowed(name@) {
                    r matches Err(e) && e@ == (if !starts_with(name@, "oqto_"@) {
                        username_prefix_error()
                    } else {
                        username_form_error()
                    })
                } else if !uid_allowed(n as u32) {
                    r matches Err(e) && e@ == "uid must be between 2000 and 60000"@
                } else {
                    r matches Ok((u, uid)) && u@ == name@ && uid == n
                },
                _ => r matches Err(e) && e@ == "missing 'uid'"@,
            },
            _ => r matches Err(e) && e@ == "missing 'username'"@,
        },
{
    proof {
        reveal_strlit("username");
        reveal_strlit("uid");
        reveal_strlit("missing '");
        reveal_strlit("'");
        reveal_strlit("missing 'uid'");
        reveal_strlit("missing 'username'");
    }
    let username = get_str(args, "username")?;
    let uid = get_u32(args, "uid")?;
    check_username(username.as_str())?;
    check_uid(uid)?;
    Ok((username, uid))
}

// ---------------------------------------------------------------------------
// Input checks
// ---------------------------------------------------------------------------

/// A username the daemon acts for: a platform user's Linux account, with
/// the `oqto_` prefix, and a name `useradd` accepts (so it holds no `/`
/// and no `.`).
pub open spec fn username_allowed(u: Seq<char>) -> bool {
    starts_with(u, "oqto_"@) && is_valid_linux_username(u)
}

/// A UID the daemon gives out or acts for.
pub open spec fn uid_allowed(uid: u32) -> bool {
    2000 <= uid <= 60000
}

/// The only group the daemon puts users in.
pub open spec fn group_allowed(g: Seq<char>) -> bool {
    g == "oqto"@
}

/// The GECOS comment the daemon writes for a user.
pub open spec fn gecos_allowed(g: Seq<char>) -> bool {
    starts_with(g, "Oqto platform user "@)
}

/// The prefixes of the paths the daemon changes.
pub open spec fn allowed_path_prefix(p: Seq<char>) -> bool {
    starts_with(p, "/run/oqto/runner-sockets/"@) || starts_with(p, "/home/oqto_"@)
}

/// A path the daemon may change: under the runner sockets or a platform
/// user's home, and without `..`.
pub open spec fn path_allowed(p: Seq<char>) -> bool {
    allowed_path_prefix(p) && !contains_sub(p, ".."@)
}

/// The message refusing a username without the platform prefix.
pub open spec fn username_prefix_error() -> Seq<char> {
    "username must start with oqto_"@
}

/// The message refusing a prefixed username that Linux would not accept.
pub open spec fn username_form_error() -> Seq<char> {
    "username must be a valid Linux username"@
}

fn linux_username_ok(u: &str) -> (r: bool)
    ensures
        r == is_valid_linux_username(u@),
{
    let v = chars_of(u);
    if v.len() == 0 || v.len() > 32 {
        return false;
    }
    let c0 = v[0];
    if !(('a' <= c0 && c0 <= 'z') || c0 == '_') {
        return false;
    }
    if v[v.len() - 1] == '-' {
        return false;
    }
    let mut i: usize = 0;
    while i < v.len()
        invariant
            v@ == u@,
            i <= v@.len(),
            forall|j: int| 0 <= j < i ==> is_username_char(#[trigger] v@[j]),
        decreases v.len() - i,
    {
        let c = v[i];
        if !(('a' <= c && c <= 'z') || ('0' <= c && c <= '9') || c == '_' || c == '-') {
            assert(!is_username_char(v@[i as int]));
            return false;
        }
        i += 1;
    }
    true
}

/// Check a username: the platform prefix first, then the Linux form.
pub fn check_username(username: &str) -> (r: Result<(), String>)
    ensures
        r is Ok <==> username_allowed(username@),
        r matches Err(e) ==> e@ == (if !starts_with(username@, "oqto_"@) {
            username_prefix_error()
        } else {
            username_form_error()
        }),
{
    if !str_starts_with(username, "oqto_") {
        return Err(to_owned_string("username must start with oqto_"));
    }
    if !linux_username_ok(username) {
        return Err(to_owned_string("username must be a valid Linux username"));
    }
    Ok(())
}

/// Check a UID against the range the daemon gives out.
pub fn check_uid(uid: u32) -> (r: Result<(), String>)
    ensures
        r is Ok <==> uid_allowed(uid),
        r matches Err(e) ==> e@ == "uid must be between 2000 and 60000"@,
{
    if 2000 <= uid && uid <= 60000 {
        Ok(())
    } else {
        Err(to_owned_string("uid must be between 2000 and 60000"))
    }
}

/// Check a group name.
pub fn check_group(group: &str) -> (r: Result<(), String>)
    ensures
        r is Ok <==> group_allowed(group@),
        r matches Err(e) ==> e@ == "group must be oqto"@,
{
    if str_eq(group, "oqto") {
        Ok(())
    } else {
        Err(to_owned_string("group must be oqto"))
    }
}

/// Check a GECOS comment.
pub fn check_gecos(gecos: &str) -> (r: Result<(), String>)
    ensures
        r is Ok <==> gecos_allowed(gecos@),
        r matches Err(e) ==> e@ == "GECOS must start with 'Oqto platform user '"@,
{
    if str_starts_with(gecos, "Oqto platform user ") {
        Ok(())
    } else {
        Err(to_owned_string("GECOS must start with 'Oqto platform user '"))
    }
}

/// Check a path the daemon is asked to change.
pub fn check_path(path: &str) -> (r: Result<(), String>)
    ensures
        r is Ok <==> path_allowed(path@),
        r matches Err(e) ==> e@
            == "path must be under /run/oqto/runner-sockets/ or /home/oqto_ and cannot contain '..'"@,
{
    if (str_starts_with(path, "/run/oqto/runner-sockets/") || str_starts_with(path, "/home/oqto_"))
        && !str_contains(path, "..") {
        Ok(())
    } else {
        Err(to_owned_string("path must be under /run/oqto/runner-sockets/ or /home/oqto_ and cannot contain '..'"))
    }
}

/// Check the account fields of a new user, in the daemon's order:
/// username, UID, group, GECOS. (The shell is checked against the
/// daemon's allow list, which this library does not hold.)
pub fn check_user_args(username: &str, uid: u32, group: &str, gecos: &str) -> (r: Result<(), String>)
    ensures
        r is Ok <==> username_allowed(username@) && uid_allowed(uid) && group_allowed(group@) && gecos_allowed(
            gecos@,
        ),
{
    check_username(username)?;
    check_uid(uid)?;
    check_group(group)?;
    check_gecos(gecos)?;
    Ok(())
}

/// The paths the daemon derives for a user it accepts stay where it may
/// change paths: the home directory and the runner socket directory are
/// allowed paths, and the username holds no `/`.
pub proof fn law_accepted_user_paths_allowed(username: Seq<char>)
    requires
        username_allowed(username),
    ensures
        !username.contains('/'),
        path_allowed("/home/"@ + username),
        path_allowed("/run/oqto/runner-sockets/"@ + username),
{
    reveal_strlit("/home/");
    reveal_strlit("/home/oqto_");
    reveal_strlit("/run/oqto/runner-sockets/");
    reveal_strlit("oqto_");
    reveal_strlit("..");
    let h = "/home/"@ + username;
    let r = "/run/oqto/runner-sockets/"@ + username;
    assert(h.subrange(0, 11) =~= "/home/"@ + username.subrange(0, 5));
    assert(username.subrange(0, 5) =~= "oqto_"@);
    assert(h.subrange(0, 11) =~= "/home/oqto_"@);
    assert(r.subrange(0, 25) =~= "/run/oqto/runner-sockets/"@);
    if username.contains('/') {
        let i = choose|i: int| 0 <= i < username.len() && username[i] == '/';
        assert(is_username_char(username[i]));
    }
    assert(h.subrange(6, h.len() as int) =~= username);
    assert(r.subrange(25, r.len() as int) =~= username);
    lemma_no_dots(h, 6, username);
    lemma_no_dots(r, 25, username);
}

/// A prefix without a `.` followed by a username never holds `..`.
proof fn lemma_no_dots(s: Seq<char>, n: int, username: Seq<char>)
    requires
        0 <= n <= s.len(),
        s.subrange(n, s.len() as int) == username,
        forall|i: int| 0 <= i < n ==> s[i] != '.',
        forall|i: int| 0 <= i < username.len() ==> is_username_char(#[trigger] username[i]),
    ensures
        !contains_sub(s, ".."@),
{
    reveal_strlit("..");
    assert forall|i: int| 0 <= i < s.len() implies s[i] != '.' by {
        if i >= n {
            assert(s[i] == username[i - n]);
            assert(is_username_char(username[i - n]));
        }
    }
    if contains_sub(s, ".."@) {
        let i = choose|i: int| occurs_at(s, ".."@, i);
        assert(s.subrange(i, i + 2)[0] == s[i]);
    }
}

// ---------------------------------------------------------------------------
// Users
// ---------------------------------------------------------------------------

/// The arguments of `useradd` for a new platform user, after the account
/// fields are checked (username, UID, group, GECOS; the shell's allow list
/// is the daemon's own).
pub fn useradd_args(
    uid: u32,
    group: &str,
    shell: &str,
    create_home: bool,
    gecos: &str,
    username: &str,
) -> (r: Result<Vec<String>, String>)
    ensures
        r is Ok <==> username_allowed(username@) && uid_allowed(uid) && group_allowed(group@) && gecos_allowed(
            gecos@,
        ),
        r matches Ok(a) ==> {
            &&& a@.len() == 10
            &&& a@[0]@ == "-u"@ && a@[1]@ == decimal(uid as nat)
            &&& a@[2]@ == "-g"@ && a@[3]@ == group@
            &&& a@[4]@ == "-s"@ && a@[5]@ == shell@
            &&& a@[6]@ == (if create_home {
                "-m"@
            } else {
                "-M"@
            })
            &&& a@[7]@ == "-c"@ && a@[8]@ == gecos@
            &&& a@[9]@ == username@
        },
{
    check_user_args(username, uid, group, gecos)?;
    let mut r: Vec<String> = Vec::new();
    r.push(to_owned_string("-u"));
    r.push(decimal_string(uid as u64));
    r.push(to_owned_string("-g"));
    r.push(to_owned_string(group));
    r.push(to_owned_string("-s"));
    r.push(to_owned_string(shell));
    r.push(to_owned_string(if create_home { "-m" } else { "-M" }));
    r.push(to_owned_string("-c"));
    r.push(to_owned_string(gecos));
    r.push(to_owned_string(username));
    Ok(r)
}

/// `<user>:<group>`, the owner given to `chown`.
pub fn owner_of(username: &str, group: &str) -> (r: String)
    ensures
        r@ == username@ + seq![':'] + group@,
{
    let mut r = to_owned_string(username);
    push_char(&mut r, ':');
    push_str(&mut r, group);
    r
}

/// `/home/<user>`.
pub fn home_of(username: &str) -> (r: String)
    ensures
        r@ == "/home/"@ + username@,
{
    let mut r = to_owned_string("/home/");
    push_str(&mut r, username);
    r
}

/// `/home/<user>/oqto`, the workspace directory made with a new user.
pub fn user_workspace_dir(username: &str) -> (r: String)
    ensures
        r@ == "/home/"@ + username@ + "/oqto"@,
{
    let mut r = home_of(username);
    push_str(&mut r, "/oqto");
    r
}

/// A step that failed without stopping the command: `<label>: <error>`.
pub fn warning(label: &str, err: &str) -> (r: String)
    ensures
        r@ == label@ + ": "@ + err@,
{
    let mut r = to_owned_string(label);
    push_str(&mut r, ": ");
    push_str(&mut r, err);
    r
}

/// How deleting a Linux user ends: `userdel -r`, and where it failed a
/// plain `userdel`. `Ok(true)` where the home directory is left to remove.
pub fn userdel_outcome(with_home: Result<(), String>, plain: Option<Result<(), String>>) -> (r: Result<
    bool,
    String,
>)
    requires
        with_home is Err ==> plain is Some,
    ensures
        with_home is Ok ==> r == Ok::<bool, String>(false),
        with_home is Err && plain->0 is Ok ==> r == Ok::<bool, String>(true),
        with_home matches Err(e) ==> (plain matches Some(Err(e2)) ==> (r matches Err(m) && m@
            == "userdel failed: "@ + e@ + "; retry without -r: "@ + e2@)),
{
    match with_home {
        Ok(()) => Ok(false),
        Err(e) => match plain {
            Some(Ok(())) => Ok(true),
            Some(Err(e2)) => {
                let mut m = to_owned_string("userdel failed: ");
                push_str(&mut m, e.as_str());
                push_str(&mut m, "; retry without -r: ");
                push_str(&mut m, e2.as_str());
                Err(m)
            },
            None => Ok(true),
        },
    }
}

// ---------------------------------------------------------------------------
// Runner setup
// ---------------------------------------------------------------------------

/// `/run/oqto/runner-sockets/<user>`.
pub fn runner_socket_dir(username: &str) -> (r: String)
    ensures
        r@ == "/run/oqto/runner-sockets/"@ + username@,
{
    let mut r = to_owned_string("/run/oqto/runner-sockets/");
    push_str(&mut r, username);
    r
}

/// `/run/oqto/runner-sockets/<user>/oqto-runner.sock`, derived from the
/// validated user name, never from the request.
pub fn runner_socket_path(username: &str) -> (r: String)
    ensures
        r@ == "/run/oqto/runner-sockets/"@ + username@ + "/oqto-runner.sock"@,
{
    let mut r = runner_socket_dir(username);
    push_str(&mut r, "/oqto-runner.sock");
    r
}

/// The home directory in a `getent passwd` line: its sixth `:` field, the
/// line trimmed; nothing where the line has fewer than six fields.
pub open spec fn passwd_home(output: Seq<char>) -> Option<Seq<char>> {
    let fields = split_on(trim(output), ':');
    if fields.len() >= 6 {
        Some(fields[5])
    } else {
        None
    }
}

/// The home directory of a user from `getent passwd` output.
pub fn home_from_passwd(output: &str) -> (r: Option<String>)
    ensures
        match r {
            Some(h) => passwd_home(output@) == Some(h@),
            None => passwd_home(output@) is None,
        },
{
    let v = chars_of(output);
    let (a, b) = trim_bounds(&v, 0, v.len());
    assert(v@.subrange(0, v@.len() as int) =~= v@);
    let fields = split_bounds(&v, a, b, ':');
    if fields.len() < 6 {
        return None;
    }
    let (x, y) = fields[5];
    Some(string_from_range(&v, x, y))
}

/// Whether a home directory is a platform user's (`/home/oqto_*`).
pub fn is_platform_home(home: &str) -> (r: bool)
    ensures
        r == starts_with(home@, "/home/oqto_"@),
{
    str_starts_with(home, "/home/oqto_")
}

/// The `PATH` of a user's services: their local tool directories, then the
/// system's.
pub open spec fn user_path_spec(home: Seq<char>) -> Seq<char> {
    home + "/.bun/bin:"@ + home + "/.cargo/bin:"@ + home + "/.local/bin:/usr/local/bin:/usr/bin:/bin"@
}

/// The `PATH` of a user's services.
pub fn user_path_env(home: &str) -> (r: String)
    ensures
        r@ == user_path_spec(home@),
{
    let mut r = to_owned_string(home);
    push_str(&mut r, "/.bun/bin:");
    push_str(&mut r, home);
    push_str(&mut r, "/.cargo/bin:");
    push_str(&mut r, home);
    push_str(&mut r, "/.local/bin:/usr/local/bin:/usr/bin:/bin");
    r
}

/// The start of the hstry unit, up to its environment.
pub const HSTRY_UNIT_HEAD: &'static str = "[Unit]\nDescription=Oqto Chat History Service\n\n[Service]\nType=simple\nExecStart=/usr/local/bin/hstry service run\nRestart=always\nRestartSec=3\n";

/// The start of the mmry unit, up to its environment.
pub const MMRY_UNIT_HEAD: &'static str = "[Unit]\nDescription=Oqto Memory Service\n\n[Service]\nType=simple\nExecStart=/usr/local/bin/mmry-service\nRestart=always\nRestartSec=3\n";

/// The end of every unit.
pub const UNIT_INSTALL: &'static str = "\n[Install]\nWantedBy=default.target\n";

/// The start of the runner unit, up to its command.
pub const RUNNER_UNIT_HEAD: &'static str = "[Unit]\nDescription=Oqto Runner - Process isolation daemon\nWants=hstry.service mmry.service\nAfter=hstry.service mmry.service\n\n[Service]\nType=notify\nExecStart=";

/// The runner unit between its command and its environment.
pub const RUNNER_UNIT_MIDDLE: &'static str = "\nRestart=on-failure\nRestartSec=5\nEnvironment=RUST_LOG=info\n";

/// The end of the runner unit's service section.
pub const RUNNER_UNIT_TAIL: &'static str = "Environment=PI_PACKAGE_DIR=/usr/local/lib/pi-coding-agent\n# systemd waits up to 30s for READY=1 before declaring failure\nTimeoutStartSec=30\n";

/// `Environment=PATH=...` and `Environment=HOME=...` lines.
pub open spec fn unit_env(user_path: Seq<char>, home: Seq<char>) -> Seq<char> {
    "Environment=PATH="@ + user_path + "\nEnvironment=HOME="@ + home + seq!['\n']
}

fn push_unit_env(s: &mut String, user_path: &str, home: &str)
    ensures
        final(s)@ == old(s)@ + unit_env(user_path@, home@),
{
    let ghost start = s@;
    push_str(s, "Environment=PATH=");
    push_str(s, user_path);
    push_str(s, "\nEnvironment=HOME=");
    push_str(s, home);
    push_char(s, '\n');
    assert(s@ =~= start + unit_env(user_path@, home@));
}

/// The systemd unit of a user's hstry service.
pub fn hstry_unit(user_path: &str, home: &str) -> (r: String)
    ensures
        r@ == HSTRY_UNIT_HEAD@ + unit_env(user_path@, home@) + UNIT_INSTALL@,
{
    let mut r = to_owned_string(HSTRY_UNIT_HEAD);
    push_unit_env(&mut r, user_path, home);
    push_str(&mut r, UNIT_INSTALL);
    r
}

/// The systemd unit of a user's mmry service.
pub fn mmry_unit(user_path: &str, home: &str) -> (r: String)
    ensures
        r@ == MMRY_UNIT_HEAD@ + unit_env(user_path@, home@) + UNIT_INSTALL@,
{
    let mut r = to_owned_string(MMRY_UNIT_HEAD);
    push_unit_env(&mut r, user_path, home);
    push_str(&mut r, UNIT_INSTALL);
    r
}

/// The text of a user's runner unit.
pub open spec fn runner_unit_text(socket_path: Seq<char>, user_path: Seq<char>, home: Seq<char>) -> Seq<char> {
    RUNNER_UNIT_HEAD@ + RUNNER_BINARY@ + " --socket "@ + socket_path + RUNNER_UNIT_MIDDLE@ + unit_env(user_path, home)
        + RUNNER_UNIT_TAIL@ + UNIT_INSTALL@
}

/// The systemd unit of a user's runner: the fixed binary on the user's
/// socket, after hstry and mmry.
pub fn runner_unit(socket_path: &str, user_path: &str, home: &str) -> (r: String)
    ensures
        r@ == runner_unit_text(socket_path@, user_path@, home@),
{
    let mut r = to_owned_string(RUNNER_UNIT_HEAD);
    push_str(&mut r, RUNNER_BINARY);
    push_str(&mut r, " --socket ");
    push_str(&mut r, socket_path);
    push_str(&mut r, RUNNER_UNIT_MIDDLE);
    push_unit_env(&mut r, user_path, home);
    push_str(&mut r, RUNNER_UNIT_TAIL);
    push_str(&mut r, UNIT_INSTALL);
    r
}

/// The runner unit always starts the fixed runner binary: whatever the
/// socket path, PATH and home, the unit's `ExecStart=` names
/// [`RUNNER_BINARY`] and only then the socket argument.
pub proof fn law_runner_binary_fixed(socket_path: Seq<char>, user_path: Seq<char>, home: Seq<char>)
    ensures
        starts_with(runner_unit_text(socket_path, user_path, home), RUNNER_UNIT_HEAD@ + RUNNER_BINARY@ + " --socket "@),
{
    let p = RUNNER_UNIT_HEAD@ + RUNNER_BINARY@ + " --socket "@;
    let t = runner_unit_text(socket_path, user_path, home);
    assert(t.subrange(0, p.len() as int) =~= p);
}

/// The service files of a user's runner setup, with the home directory and
/// socket they were made for.
#[derive(Debug, Clone, PartialEq, Eq)]
pub struct RunnerUnits {
    pub home: String,
    pub socket_path: String,
    pub hstry: String,
    pub mmry: String,
    pub runner: String,
}

/// The units of a runner setup for a checked username, once `getent
/// passwd` has answered (`lookup` is its output, or the failure's text).
/// The home must be a platform user's; everything else is derived on the
/// daemon's side: the socket from the username, the runner from the fixed
/// binary.
pub fn runner_units(username: &str, lookup: Result<&str, &str>) -> (r: Result<RunnerUnits, String>)
    requires
        username_allowed(username@),
    ensures
        match lookup {
            Err(e) => r matches Err(m) && m@ == "cannot find user "@ + username@ + ": "@ + e@,
            Ok(out) => match passwd_home(out@) {
                None => r matches Err(m) && m@ == "cannot parse home dir for "@ + username@,
                Some(h) => if !starts_with(h, "/home/oqto_"@) {
                    r matches Err(m) && m@ == "unexpected home directory for "@ + username@ + ": "@ + h
                        + " (expected /home/oqto_*)"@
                } else {
                    r matches Ok(u) && {
                        let sock = "/run/oqto/runner-sockets/"@ + username@ + "/oqto-runner.sock"@;
                        &&& u.home@ == h
                        &&& u.socket_path@ == sock
                        &&& u.hstry@ == HSTRY_UNIT_HEAD@ + unit_env(user_path_spec(h), h) + UNIT_INSTALL@
                        &&& u.mmry@ == MMRY_UNIT_HEAD@ + unit_env(user_path_spec(h), h) + UNIT_INSTALL@
                        &&& u.runner@ == runner_unit_text(sock, user_path_spec(h), h)
                    }
                },
            },
        },
        r matches Ok(u) ==> starts_with(u.home@, "/home/oqto_"@) && starts_with(
            u.runner@,
            RUNNER_UNIT_HEAD@ + RUNNER_BINARY@ + " --socket "@,
        ),
{
    let out = match lookup {
        Ok(o) => o,
        Err(e) => {
            let mut m = to_owned_string("cannot find user ");
            push_str(&mut m, username);
            push_str(&mut m, ": ");
            push_str(&mut m, e);
            return Err(m);
        },
    };
    let home = match home_from_passwd(out) {
        Some(h) => h,
        None => {
            let mut m = to_owned_string("cannot parse home dir for ");
            push_str(&mut m, username);
            return Err(m);
        },
    };
    if !is_platform_home(home.as_str()) {
        let mut m = to_owned_string("unexpected home directory for ");
        push_str(&mut m, username);
        push_str(&mut m, ": ");
        push_str(&mut m, home.as_str());
        push_str(&mut m, " (expected /home/oqto_*)");
        return Err(m);
    }
    let socket_path = runner_socket_path(username);
    let user_path = user_path_env(home.as_str());
    let hstry = hstry_unit(user_path.as_str(), home.as_str());
    let mmry = mmry_unit(user_path.as_str(), home.as_str());
    let runner = runner_unit(socket_path.as_str(), user_path.as_str(), home.as_str());
    proof {
        law_runner_binary_fixed(socket_path@, user_path@, home@);
    }
    Ok(RunnerUnits { home, socket_path, hstry, mmry, runner })
}

/// The hstry database of a user.
pub open spec fn hstry_db(home: Seq<char>) -> Seq<char> {
    home + "/.local/share/hstry/hstry.db"@
}

/// The Pi session directory of a user.
pub open spec fn pi_sessions(home: Seq<char>) -> Seq<char> {
    home + "/.pi/agent/sessions"@
}

/// `database = "<db>"`.
pub open spec fn database_line(home: Seq<char>) -> Seq<char> {
    "database = \""@ + hstry_db(home) + seq!['"']
}

/// The adapter path line of an hstry configuration.
pub const HSTRY_ADAPTER_LINE: &'static str = "adapter_paths = [\"/usr/local/share/hstry/adapters\"]";

/// The pi source of an hstry configuration, after `[[sources]]`.
pub open spec fn pi_source(home: Seq<char>) -> Seq<char> {
    "[[sources]]\nid = \"pi\"\nadapter = \"pi\"\npath = \""@ + pi_sessions(home) + "\"\nauto_sync = true\n"@
}

/// A new hstry configuration: the database, the system adapters, the
/// service enabled over TCP, and the user's Pi sessions as a source.
pub open spec fn fresh_hstry_config(home: Seq<char>) -> Seq<char> {
    database_line(home) + seq!['\n'] + HSTRY_ADAPTER_LINE@ + "\n\n[service]\nenabled = true\ntransport = \"tcp\"\n\n"@
        + pi_source(home)
}

/// An hstry configuration brought up to date: the adapter path added after
/// the database line where missing, and the pi source appended where
/// missing (after removing empty `sources` arrays, which would clash).
pub open spec fn patched_hstry_config(content: Seq<char>, home: Seq<char>) -> Seq<char> {
    let a = if !contains_sub(content, "adapter_paths"@) {
        replace_all(content, database_line(home), database_line(home) + seq!['\n'] + HSTRY_ADAPTER_LINE@)
    } else {
        content
    };
    if !contains_sub(a, "adapter = \"pi\""@) {
        let b = replace_all(
            replace_all(replace_all(a, "sources = []"@, Seq::empty()), "sources= []"@, Seq::empty()),
            "sources =[]"@,
            Seq::empty(),
        );
        b + seq!['\n'] + pi_source(home)
    } else {
        a
    }
}

/// The hstry configuration a runner setup leaves: an existing one with its
/// service switched on, or a new one; then brought up to date.
pub open spec fn hstry_config_after_setup(existing: Option<Seq<char>>, home: Seq<char>) -> Seq<char> {
    let base = match existing {
        Some(c) => if contains_sub(c, "enabled = false"@) {
            replace_all(c, "enabled = false"@, "enabled = true"@)
        } else {
            c
        },
        None => fresh_hstry_config(home),
    };
    patched_hstry_config(base, home)
}

fn database_line_of(home: &str) -> (r: String)
    ensures
        r@ == database_line(home@),
{
    let mut r = to_owned_string("database = \"");
    push_str(&mut r, home);
    push_str(&mut r, "/.local/share/hstry/hstry.db");
    push_char(&mut r, '"');
    r
}

fn pi_source_of(home: &str) -> (r: String)
    ensures
        r@ == pi_source(home@),
{
    let mut r = to_owned_string("[[sources]]\nid = \"pi\"\nadapter = \"pi\"\npath = \"");
    push_str(&mut r, home);
    push_str(&mut r, "/.pi/agent/sessions");
    push_str(&mut r, "\"\nauto_sync = true\n");
    r
}

/// The hstry configuration of a user after a runner setup, from the one
/// on disk, if any.
pub fn hstry_config(existing: Option<&str>, home: &str) -> (r: String)
    ensures
        r@ == hstry_config_after_setup(
            match existing {
                Some(c) => Some(c@),
                None => None,
            },
            home@,
        ),
{
    let db = database_line_of(home);
    let base = match existing {
        Some(c) => if str_contains(c, "enabled = false") {
            proof {
                reveal_strlit("enabled = false");
            }
            replace_str(c, "enabled = false", "enabled = true")
        } else {
            to_owned_string(c)
        },
        None => {
            let mut f = to_owned_string(db.as_str());
            push_char(&mut f, '\n');
            push_str(&mut f, HSTRY_ADAPTER_LINE);
            push_str(&mut f, "\n\n[service]\nenabled = true\ntransport = \"tcp\"\n\n");
            let src = pi_source_of(home);
            push_str(&mut f, src.as_str());
            assert(f@ =~= fresh_hstry_config(home@));
            f
        },
    };
    let ghost base_spec = match existing {
        Some(c) => if contains_sub(c@, "enabled = false"@) {
            replace_all(c@, "enabled = false"@, "enabled = true"@)
        } else {
            c@
        },
        None => fresh_hstry_config(home@),
    };
    assert(base@ == base_spec);
    let a = if !str_contains(base.as_str(), "adapter_paths") {
        let mut with_line = to_owned_string(db.as_str());
        push_char(&mut with_line, '\n');
        push_str(&mut with_line, HSTRY_ADAPTER_LINE);
        proof {
            reveal_strlit("database = \"");
            assert(db@.len() > 0);
        }
        assert(with_line@ =~= database_line(home@) + seq!['\n'] + HSTRY_ADAPTER_LINE@);
        replace_str(base.as_str(), db.as_str(), with_line.as_str())
    } else {
        base
    };
    assert(a@ == (if !contains_sub(base_spec, "adapter_paths"@) {
        replace_all(base_spec, database_line(home@), database_line(home@) + seq!['\n'] + HSTRY_ADAPTER_LINE@)
    } else {
        base_spec
    }));
    if !str_contains(a.as_str(), "adapter = \"pi\"") {
        proof {
            reveal_strlit("sources = []");
            reveal_strlit("sources= []");
            reveal_strlit("sources =[]");
            reveal_strlit("");
        }
        assert(""@ =~= Seq::<char>::empty());
        let b1 = replace_str(a.as_str(), "sources = []", "");
        let b2 = replace_str(b1.as_str(), "sources= []", "");
        let mut b3 = replace_str(b2.as_str(), "sources =[]", "");
        assert(b3@ == replace_all(
            replace_all(replace_all(a@, "sources = []"@, Seq::empty()), "sources= []"@, Seq::empty()),
            "sources =[]"@,
            Seq::empty(),
        ));
        push_char(&mut b3, '\n');
        let src = pi_source_of(home);
        let ghost b3_before = b3@;
        push_str(&mut b3, src.as_str());
        assert(b3@ =~= b3_before + pi_source(home@));
        b3
    } else {
        a
    }
}

/// The mmry API port of a user: 48000 plus the user's offset from UID 2000.
pub fn mmry_api_port(uid: u32) -> (r: u32)
    requires
        2000 <= uid <= 60000,
    ensures
        r == 48000 + (uid - 2000),
{
    48000 + (uid - 2000)
}

/// The mmry configuration up to its data directory.
pub const MMRY_CONFIG_HEAD: &'static str = "[database]\npath = \"";

/// The mmry configuration between the database and the store directory.
pub const MMRY_CONFIG_STORES: &'static str = "/memories.db\"\n\n[stores]\ndirectory = \"";

/// The mmry configuration from the store directory to the API port.
pub const MMRY_CONFIG_MIDDLE: &'static str = "/stores\"\ndefault = \"default\"\n\n[embeddings]\nenabled = false\nmodel = \"Xenova/all-MiniLM-L6-v2\"\nbackend = \"fastembed\"\ndimension = 384\nbatch_size = 32\n\n[embeddings.remote]\nbase_url = \"http://127.0.0.1:8091\"\nrequest_timeout_seconds = 30\nmax_batch_size = 64\nrequired = true\n\n[service]\nenabled = true\nauto_start = true\nidle_timeout_seconds = 0\npreload_models = false\n\n[external_api]\nenable = true\nhost = \"127.0.0.1\"\nport = ";

/// The end of the mmry configuration.
pub const MMRY_CONFIG_TAIL: &'static str = "\n\n[search]\ndefault_limit = 10\nsimilarity_threshold = 0.7\nmode = \"hybrid\"\nrerank_enabled = false\n\n[memory]\ndefault_category = \"default\"\nauto_dedupe = true\n";

/// A user's mmry data directory.
pub open spec fn mmry_data_dir(home: Seq<char>) -> Seq<char> {
    home + "/.local/share/mmry"@
}

/// The mmry configuration of a user: its data under the home directory,
/// remote embeddings, and the API on the user's port.
pub fn mmry_config(home: &str, port: u32) -> (r: String)
    ensures
        r@ == MMRY_CONFIG_HEAD@ + mmry_data_dir(home@) + MMRY_CONFIG_STORES@ + mmry_data_dir(home@)
            + MMRY_CONFIG_MIDDLE@ + decimal(port as nat) + MMRY_CONFIG_TAIL@,
{
    let mut d = to_owned_string(home);
    push_str(&mut d, "/.local/share/mmry");
    let mut r = to_owned_string(MMRY_CONFIG_HEAD);
    push_str(&mut r, d.as_str());
    push_str(&mut r, MMRY_CONFIG_STORES);
    push_str(&mut r, d.as_str());
    push_str(&mut r, MMRY_CONFIG_MIDDLE);
    let p = decimal_string(port as u64);
    push_str(&mut r, p.as_str());
    push_str(&mut r, MMRY_CONFIG_TAIL);
    r
}

/// The arguments of `systemctl` run for a user through systemd's machine
/// addressing: `--machine <user>@.host --user` and then `args`.
pub fn systemctl_machine_args(username: &str, args: &Vec<String>) -> (r: Vec<String>)
    ensures
        r@.len() == args@.len() + 3,
        r@[0]@ == "--machine"@ && r@[1]@ == username@ + "@.host"@ && r@[2]@ == "--user"@,
        forall|i: int| 0 <= i < args@.len() ==> (#[trigger] r@[i + 3])@ == args@[i]@,
{
    let mut r: Vec<String> = Vec::new();
    r.push(to_owned_string("--machine"));
    let mut m = to_owned_string(username);
    push_str(&mut m, "@.host");
    r.push(m);
    r.push(to_owned_string("--user"));
    let mut i: usize = 0;
    while i < args.len()
        invariant
            0 <= i <= args@.len(),
            r@.len() == i + 3,
            r@[0]@ == "--machine"@ && r@[1]@ == username@ + "@.host"@ && r@[2]@ == "--user"@,
            forall|j: int| 0 <= j < i ==> (#[trigger] r@[j + 3])@ == args@[j]@,
        decreases args.len() - i,
    {
        r.push(to_owned_string(args[i].as_str()));
        i += 1;
    }
    r
}

/// The arguments of `runuser` that run `systemctl --user` as the user with
/// their runtime directory and bus: the fallback when machine addressing
/// fails.
pub fn runuser_systemctl_args(username: &str, uid: u32, args: &Vec<String>) -> (r: Vec<String>)
    ensures
        r@.len() == args@.len() + 8,
        r@[0]@ == "-u"@ && r@[1]@ == username@ && r@[2]@ == "--"@ && r@[3]@ == "env"@,
        r@[4]@ == "XDG_RUNTIME_DIR=/run/user/"@ + decimal(uid as nat),
        r@[5]@ == "DBUS_SESSION_BUS_ADDRESS=unix:path=/run/user/"@ + decimal(uid as nat) + "/bus"@,
        r@[6]@ == "systemctl"@ && r@[7]@ == "--user"@,
        forall|i: int| 0 <= i < args@.len() ==> (#[trigger] r@[i + 8])@ == args@[i]@,
{
    let uid_text = decimal_string(uid as u64);
    let mut r: Vec<String> = Vec::new();
    r.push(to_owned_string("-u"));
    r.push(to_owned_string(username));
    r.push(to_owned_string("--"));
    r.push(to_owned_string("env"));
    let mut x = to_owned_string("XDG_RUNTIME_DIR=/run/user/");
    push_str(&mut x, uid_text.as_str());
    r.push(x);
    let mut b = to_owned_string("DBUS_SESSION_BUS_ADDRESS=unix:path=/run/user/");
    push_str(&mut b, uid_text.as_str());
    push_str(&mut b, "/bus");
    r.push(b);
    r.push(to_owned_string("systemctl"));
    r.push(to_owned_string("--user"));
    let mut i: usize = 0;
    while i < args.len()
        invariant
            0 <= i <= args@.len(),
            r@.len() == i + 8,
            r@[0]@ == "-u"@ && r@[1]@ == username@ && r@[2]@ == "--"@ && r@[3]@ == "env"@,
            r@[4]@ == "XDG_RUNTIME_DIR=/run/user/"@ + decimal(uid as nat),
            r@[5]@ == "DBUS_SESSION_BUS_ADDRESS=unix:path=/run/user/"@ + decimal(uid as nat)
                + "/bus"@,
            r@[6]@ == "systemctl"@ && r@[7]@ == "--user"@,
            forall|j: int| 0 <= j < i ==> (#[trigger] r@[j + 8])@ == args@[j]@,
        decreases args.len() - i,
    {
        r.push(to_owned_string(args[i].as_str()));
        i += 1;
    }
    r
}

/// The runner is restarted where it is already active, so that new unit
/// files take effect, and started otherwise.
pub fn runner_action(active: bool) -> (r: &'static str)
    ensures
        active ==> r@ == "restart"@,
        !active ==> r@ == "start"@,
{
    if active {
        "restart"
    } else {
        "start"
    }
}

/// How many times `daemon-reload` is tried.
pub const DAEMON_RELOAD_ATTEMPTS: u32 = 5;

/// How many times a service is checked before the setup gives up on it.
pub const SERVICE_CHECK_ATTEMPTS: u32 = 5;

// ---------------------------------------------------------------------------
// Workspaces and files
// ---------------------------------------------------------------------------

/// Why a workspace or file request is refused.
pub open spec fn file_name_refusal(name: Seq<char>) -> Option<Seq<char>> {
    if name.contains('\0') || name == "."@ || name == ".."@ {
        Some("invalid filename: "@ + name)
    } else if exists|i: int|
        0 <= i < split_on(name, '/').len() && (#[trigger] split_on(name, '/')[i] == ".."@
            || split_on(name, '/')[i].len() == 0) {
        Some("invalid filename (traversal): "@ + name)
    } else {
        None
    }
}

/// Check the name of a file written into a new workspace: no NUL, not `.`
/// or `..`, and no empty or `..` path component.
pub fn check_workspace_file_name(name: &str) -> (r: Result<(), String>)
    ensures
        match r {
            Ok(_) => file_name_refusal(name@) is None,
            Err(e) => file_name_refusal(name@) == Some(e@),
        },
{
    let v = chars_of(name);
    let mut has_nul = false;
    let mut i: usize = 0;
    while i < v.len()
        invariant
            v@ == name@,
            0 <= i <= v@.len(),
            has_nul == exists|j: int| 0 <= j < i && v@[j] == '\0',
        decreases v.len() - i,
    {
        if v[i] == '\0' {
            has_nul = true;
        }
        i += 1;
    }
    if has_nul || str_eq(name, ".") || str_eq(name, "..") {
        proof {
            if has_nul {
                let j = choose|j: int| 0 <= j < i && v@[j] == '\0';
                assert(name@[j] == '\0');
            }
        }
        let mut e = to_owned_string("invalid filename: ");
        push_str(&mut e, name);
        return Err(e);
    }
    let parts = split_bounds(&v, 0, v.len(), '/');
    let ghost comps = split_on(v@, '/');
    assert(v@.subrange(0, v@.len() as int) =~= v@);
    let dots = chars_of("..");
    proof {
        reveal_strlit("..");
    }
    let mut k: usize = 0;
    while k < parts.len()
        invariant
            v@ == name@,
            !name@.contains('\0') && name@ != "."@ && name@ != ".."@,
            comps == split_on(v@, '/'),
            parts@.len() == comps.len(),
            dots@ == ".."@,
            forall|j: int|
                0 <= j < parts@.len() ==> {
                    &&& (#[trigger] parts@[j]).0 <= parts@[j].1 <= v@.len()
                    &&& v@.subrange(parts@[j].0 as int, parts@[j].1 as int) == comps[j]
                },
            0 <= k <= parts@.len(),
            forall|j: int| 0 <= j < k ==> !(#[trigger] comps[j] == ".."@ || comps[j].len() == 0),
        decreases parts.len() - k,
    {
        let (a, b) = parts[k];
        if a == b || range_eq_dots(&v, a, b, &dots) {
            assert(comps[k as int] == ".."@ || comps[k as int].len() == 0);
            let mut e = to_owned_string("invalid filename (traversal): ");
            push_str(&mut e, name);
            return Err(e);
        }
        k += 1;
    }
    Ok(())
}

fn range_eq_dots(v: &Vec<char>, a: usize, b: usize, dots: &Vec<char>) -> (r: bool)
    requires
        a <= b <= v@.len(),
    ensures
        r == (v@.subrange(a as int, b as int) == dots@),
{
    crate::text::range_eq(v, a, b, dots)
}

/// The message refusing a username, as [`check_username`] gives it.
pub open spec fn username_error(u: Seq<char>) -> Seq<char> {
    if !starts_with(u, "oqto_"@) {
        username_prefix_error()
    } else {
        username_form_error()
    }
}

/// Check the path of a workspace: the username is checked, then the path
/// must lie under `/home/<user>/` and hold no `..`.
pub fn check_workspace_path(username: &str, path: &str) -> (r: Result<(), String>)
    ensures
        r is Ok <==> username_allowed(username@) && starts_with(path@, "/home/"@ + username@ + seq!['/'])
            && !contains_sub(path@, ".."@),
        r matches Err(e) ==> e@ == (if !username_allowed(username@) {
            username_error(username@)
        } else if !starts_with(path@, "/home/"@ + username@ + seq!['/']) {
            "path must be under "@ + "/home/"@ + username@ + seq!['/']
        } else {
            "path cannot contain '..'"@
        }),
{
    check_username(username)?;
    let mut prefix = home_of(username);
    push_char(&mut prefix, '/');
    assert(prefix@ =~= "/home/"@ + username@ + seq!['/']);
    if !str_starts_with(path, prefix.as_str()) {
        let mut e = to_owned_string("path must be under ");
        push_str(&mut e, prefix.as_str());
        return Err(e);
    }
    if str_contains(path, "..") {
        return Err(to_owned_string("path cannot contain '..'"));
    }
    Ok(())
}

/// Check a file written into a user's home, in the daemon's order: the
/// username, the group, then the path, which must be relative and without
/// `..`. Returns the full path.
pub fn user_file_path(username: &str, group: &str, rel_path: &str) -> (r: Result<String, String>)
    ensures
        r is Ok <==> username_allowed(username@) && group_allowed(group@) && !contains_sub(rel_path@, ".."@)
            && !starts_with(rel_path@, "/"@),
        r matches Ok(p) ==> p@ == "/home/"@ + username@ + seq!['/'] + rel_path@,
        r matches Err(e) ==> e@ == (if !username_allowed(username@) {
            username_error(username@)
        } else if !group_allowed(group@) {
            "group must be oqto"@
        } else {
            "path must be relative and cannot contain '..'"@
        }),
{
    check_username(username)?;
    check_group(group)?;
    if str_contains(rel_path, "..") || str_starts_with(rel_path, "/") {
        return Err(to_owned_string("path must be relative and cannot contain '..'"));
    }
    let mut p = home_of(username);
    push_char(&mut p, '/');
    push_str(&mut p, rel_path);
    Ok(p)
}

/// The only services a request may restart.
pub open spec fn restartable(service: Seq<char>) -> bool {
    service == "eavs"@ || service == "eavs.service"@
}

/// Check a service restart request against the allow list.
pub fn check_restart_service(service: &str) -> (r: Result<(), String>)
    ensures
        match r {
            Ok(_) => restartable(service@),
            Err(e) => !restartable(service@) && e@ == "service '"@ + service@
                + "' is not in the allowed list: [\"eavs\", \"eavs.service\"]"@,
        },
{
    if str_eq(service, "eavs") || str_eq(service, "eavs.service") {
        Ok(())
    } else {
        let mut e = to_owned_string("service '");
        push_str(&mut e, service);
        push_str(&mut e, "' is not in the allowed list: [\"eavs\", \"eavs.service\"]");
        Err(e)
    }
}

/// Check that a socket directory request names a platform user: the
/// prefix first, then the username's form.
pub fn check_socket_dir_user(username: &str) -> (r: Result<(), String>)
    ensures
        r is Ok <==> username_allowed(username@),
        r matches Err(e) ==> e@ == (if !starts_with(username@, "oqto_"@) {
            username_prefix_error()
        } else {
            "invalid username: "@ + username_form_error()
        }),
{
    if !str_starts_with(username, "oqto_") {
        return Err(to_owned_string("username must start with oqto_"));
    }
    match check_username(username) {
        Ok(()) => Ok(()),
        Err(e) => {
            let mut m = to_owned_string("invalid username: ");
            push_str(&mut m, e.as_str());
            Err(m)
        },
    }
}

/// Whether a per-user socket directory needs its ownership fixed: it is
/// not owned by the user, or not by the `oqto` group.
pub fn socket_dir_needs_fix(current_uid: u32, current_gid: u32, expected_uid: u32, oqto_gid: u32) -> (r:
    bool)
    ensures
        r == (current_uid != expected_uid || current_gid != oqto_gid),
{
    current_uid != expected_uid || current_gid != oqto_gid
}

// ---------------------------------------------------------------------------
// Running tools as a user
// ---------------------------------------------------------------------------

/// The tools a request may run as a user.
pub open spec fn allowed_binary(b: Seq<char>) -> bool {
    b == "skdlr"@ || b == "trx"@ || b == "agntz"@ || b == "byt"@ || b == "pi"@ || b == "sldr"@ || b
        == "git"@
}

/// A character that a tool name may not hold.
pub open spec fn forbidden_binary_char(c: char) -> bool {
    c == '/' || c == '\\' || c == '\0' || c == ';' || c == '|' || c == '&' || c == '$' || c == '`'
}

/// A character allowed in an environment variable name.
pub open spec fn env_key_char(c: char) -> bool {
    ('a' <= c && c <= 'z') || ('A' <= c && c <= 'Z') || ('0' <= c && c <= '9') || c == '_'
}

/// The refusal of a run-as-user request, if any: a tool off the list, a
/// tool name with a path or shell character, an argument with a NUL, or
/// an environment name with a character outside `A-Za-z0-9_`.
pub open spec fn run_refusal(binary: Seq<char>, args: Seq<String>, env: Seq<(String, String)>) -> Option<Seq<char>> {
    if !allowed_binary(binary) {
        Some("binary '"@ + binary + "' is not in the allowed list: [\"skdlr\", \"trx\", \"agntz\", \"byt\", \"pi\", \"sldr\", \"git\"]"@)
    } else if exists|i: int| 0 <= i < binary.len() && forbidden_binary_char(#[trigger] binary[i]) {
        Some("binary name '"@ + binary + "' contains invalid characters"@)
    } else if exists|i: int| 0 <= i < args.len() && (#[trigger] args[i])@.contains('\0') {
        Some("argument contains null byte"@)
    } else if exists|i: int|
        0 <= i < env.len() && !(forall|j: int| 0 <= j < (#[trigger] env[i]).0@.len() ==> env_key_char(env[i].0@[j])) {
        let i = choose|i: int|
            0 <= i < env.len() && !(forall|j: int| 0 <= j < (#[trigger] env[i]).0@.len() ==> env_key_char(env[i].0@[j])) && forall|k: int|
                0 <= k < i ==> forall|j: int| 0 <= j < (#[trigger] env[k]).0@.len() ==> env_key_char(env[k].0@[j]);
        Some("env key '"@ + env[i].0@ + "' contains invalid characters (allowed: A-Z, a-z, 0-9, _)"@)
    } else {
        None
    }
}

fn has_char(s: &str, c: char) -> (r: bool)
    ensures
        r == s@.contains(c),
{
    let v = chars_of(s);
    let mut i: usize = 0;
    while i < v.len()
        invariant
            v@ == s@,
            0 <= i <= v@.len(),
            forall|j: int| 0 <= j < i ==> v@[j] != c,
        decreases v.len() - i,
    {
        if v[i] == c {
            assert(s@[i as int] == c);
            return true;
        }
        i += 1;
    }
    false
}

fn env_key_ok(key: &str) -> (r: bool)
    ensures
        r == forall|j: int| 0 <= j < key@.len() ==> env_key_char(key@[j]),
{
    let v = chars_of(key);
    let mut i: usize = 0;
    while i < v.len()
        invariant
            v@ == key@,
            0 <= i <= v@.len(),
            forall|j: int| 0 <= j < i ==> env_key_char(v@[j]),
        decreases v.len() - i,
    {
        let c = v[i];
        if !(('a' <= c && c <= 'z') || ('A' <= c && c <= 'Z') || ('0' <= c && c <= '9') || c == '_') {
            return false;
        }
        i += 1;
    }
    true
}

/// The arguments of `sudo` that run a tool as a user:
/// `-n -u <user> --`, then `/usr/bin/env K=V...` where there is an
/// environment, then the tool and its arguments.
pub open spec fn run_argv(username: Seq<char>, binary: Seq<char>, args: Seq<String>, env: Seq<(String, String)>) -> Seq<Seq<char>> {
    seq!["-n"@, "-u"@, username, "--"@] + (if env.len() > 0 {
        seq!["/usr/bin/env"@] + env.map_values(|p: (String, String)| p.0@ + seq!['='] + p.1@)
    } else {
        Seq::empty()
    }) + seq![binary] + args.map_values(|a: String| a@)
}

/// Check a run-as-user request and build the `sudo` command line for it:
/// the username is checked first, then the tool, its arguments and the
/// environment. The environment is taken in the order given.
pub fn plan_run_as_user(
    username: &str,
    binary: &str,
    args: &Vec<String>,
    env: &Vec<(String, String)>,
) -> (r: Result<Vec<String>, String>)
    ensures
        match r {
            Ok(argv) => username_allowed(username@) && run_refusal(binary@, args@, env@) is None
                && argv@.map_values(|a: String| a@) == run_argv(username@, binary@, args@, env@),
            Err(e) => if !username_allowed(username@) {
                e@ == (if !starts_with(username@, "oqto_"@) {
                    username_prefix_error()
                } else {
                    username_form_error()
                })
            } else {
                run_refusal(binary@, args@, env@) == Some(e@)
            },
        },
{
    check_username(username)?;
    if !(str_eq(binary, "skdlr") || str_eq(binary, "trx") || str_eq(binary, "agntz") || str_eq(
        binary,
        "byt",
    ) || str_eq(binary, "pi") || str_eq(binary, "sldr") || str_eq(binary, "git")) {
        let mut e = to_owned_string("binary '");
        push_str(&mut e, binary);
        push_str(
            &mut e,
            "' is not in the allowed list: [\"skdlr\", \"trx\", \"agntz\", \"byt\", \"pi\", \"sldr\", \"git\"]",
        );
        assert(e@ =~= "binary '"@ + binary@ + "' is not in the allowed list: [\"skdlr\", \"trx\", \"agntz\", \"byt\", \"pi\", \"sldr\", \"git\"]"@);
        return Err(e);
    }
    let bv = chars_of(binary);
    let mut i: usize = 0;
    while i < bv.len()
        invariant
            bv@ == binary@,
            allowed_binary(binary@),
            username_allowed(username@),
            0 <= i <= bv@.len(),
            forall|j: int| 0 <= j < i ==> !forbidden_binary_char(#[trigger] bv@[j]),
        decreases bv.len() - i,
    {
        let c = bv[i];
        if c == '/' || c == '\\' || c == '\0' || c == ';' || c == '|' || c == '&' || c == '$' || c
            == '`' {
            assert(forbidden_binary_char(binary@[i as int]));
            let mut e = to_owned_string("binary name '");
            push_str(&mut e, binary);
            push_str(&mut e, "' contains invalid characters");
            return Err(e);
        }
        i += 1;
    }
    let mut k: usize = 0;
    while k < args.len()
        invariant
            0 <= k <= args@.len(),
            allowed_binary(binary@),
            username_allowed(username@),
            !(exists|i: int| 0 <= i < binary@.len() && forbidden_binary_char(#[trigger] binary@[i])),
            forall|j: int| 0 <= j < k ==> !(#[trigger] args@[j])@.contains('\0'),
        decreases args.len() - k,
    {
        if has_char(args[k].as_str(), '\0') {
            return Err(to_owned_string("argument contains null byte"));
        }
        k += 1;
    }
    let mut m: usize = 0;
    while m < env.len()
        invariant
            0 <= m <= env@.len(),
            allowed_binary(binary@),
            username_allowed(username@),
            !(exists|i: int| 0 <= i < binary@.len() && forbidden_binary_char(#[trigger] binary@[i])),
            forall|j: int| 0 <= j < args@.len() ==> !(#[trigger] args@[j])@.contains('\0'),
            forall|k: int|
                0 <= k < m ==> forall|j: int| 0 <= j < (#[trigger] env@[k]).0@.len() ==> env_key_char(env@[k].0@[j]),
        decreases env.len() - m,
    {
        if !env_key_ok(env[m].0.as_str()) {
            let mut e = to_owned_string("env key '");
            push_str(&mut e, env[m].0.as_str());
            push_str(&mut e, "' contains invalid characters (allowed: A-Z, a-z, 0-9, _)");
            proof {
                let i = choose|i: int|
                    0 <= i < env@.len() && !(forall|j: int| 0 <= j < (#[trigger] env@[i]).0@.len() ==> env_key_char(env@[i].0@[j])) && forall|k: int|
                        0 <= k < i ==> forall|j: int| 0 <= j < (#[trigger] env@[k]).0@.len() ==> env_key_char(env@[k].0@[j]);
                if i < m {
                } else if i > m {
                }
                assert(i == m);
            }
            return Err(e);
        }
        m += 1;
    }
    let mut argv: Vec<String> = Vec::new();
    argv.push(to_owned_string("-n"));
    argv.push(to_owned_string("-u"));
    argv.push(to_owned_string(username));
    argv.push(to_owned_string("--"));
    let ghost head = seq!["-n"@, "-u"@, username@, "--"@];
    assert(argv@.map_values(|a: String| a@) =~= head);
    if env.len() > 0 {
        argv.push(to_owned_string("/usr/bin/env"));
        let mut j: usize = 0;
        while j < env.len()
            invariant
                0 <= j <= env@.len(),
                env@.len() > 0,
                argv@.map_values(|a: String| a@) == head + seq!["/usr/bin/env"@] + env@.take(j as int).map_values(
                    |p: (String, String)| p.0@ + seq!['='] + p.1@,
                ),
            decreases env.len() - j,
        {
            let mut kv = to_owned_string(env[j].0.as_str());
            push_char(&mut kv, '=');
            push_str(&mut kv, env[j].1.as_str());
            assert(kv@ == env@[j as int].0@ + seq!['='] + env@[j as int].1@);
            let ghost before = argv@.map_values(|a: String| a@);
            argv.push(kv);
            assert(argv@.map_values(|a: String| a@) =~= before.push(kv@));
            assert(env@.take(j + 1).map_values(|p: (String, String)| p.0@ + seq!['='] + p.1@) =~= env@.take(
                j as int,
            ).map_values(|p: (String, String)| p.0@ + seq!['='] + p.1@).push(kv@));
            j += 1;
        }
        assert(env@.take(env@.len() as int) =~= env@);
    }
    let ghost mid = argv@.map_values(|a: String| a@);
    argv.push(to_owned_string(binary));
    let mut a: usize = 0;
    while a < args.len()
        invariant
            0 <= a <= args@.len(),
            argv@.map_values(|x: String| x@) == mid + seq![binary@] + args@.take(a as int).map_values(|x: String| x@),
        decreases args.len() - a,
    {
        let ghost before = argv@.map_values(|x: String| x@);
        argv.push(to_owned_string(args[a].as_str()));
        assert(argv@.map_values(|x: String| x@) =~= before.push(args@[a as int]@));
        assert(args@.take(a + 1).map_values(|x: String| x@) =~= args@.take(a as int).map_values(|x: String| x@).push(args@[a as int]@));
        a += 1;
    }
    assert(args@.take(args@.len() as int) =~= args@);
    assert(argv@.map_values(|x: String| x@) =~= run_argv(username@, binary@, args@, env@));
    Ok(argv)
}

/// The working directory of a tool run as a user is accepted where it is
/// a path the daemon may change, or else lies under `/tmp/` or `/usr/`.
pub fn cwd_allowed(cwd: &str) -> (r: bool)
    ensures
        r == (path_allowed(cwd@) || starts_with(cwd@, "/tmp/"@) || starts_with(cwd@, "/usr/"@)),
{
    check_path(cwd).is_ok() || str_starts_with(cwd, "/tmp/") || str_starts_with(cwd, "/usr/")
}

/// The error of a tool that exited with a failure:
/// `<tool> exited with status <code>: <stderr, trimmed>`.
pub fn run_failure_message(binary: &str, code: Option<i32>, stderr: &str) -> (r: String)
    ensures
        r@ == binary@ + " exited with status "@ + (match code {
            Some(c) => if c >= 0 {
                decimal(c as nat)
            } else {
                seq!['-'] + decimal((-c) as nat)
            },
            None => "-1"@,
        }) + ": "@ + trim(stderr@),
{
    let mut r = to_owned_string(binary);
    push_str(&mut r, " exited with status ");
    match code {
        Some(c) => {
            if c >= 0 {
                let d = decimal_string(c as u64);
                push_str(&mut r, d.as_str());
            } else {
                push_char(&mut r, '-');
                let d = decimal_string((-(c as i64)) as u64);
                push_str(&mut r, d.as_str());
            }
        },
        None => {
            push_str(&mut r, "-1");
        },
    }
    push_str(&mut r, ": ");
    let t = crate::text::trim_str(stderr);
    push_str(&mut r, t);
    r
}

// ---------------------------------------------------------------------------
// Pi extensions
// ---------------------------------------------------------------------------

/// The extensions installed for new users, in order.
pub fn default_pi_extensions() -> (r: Vec<&'static str>)
    ensures
        r@.len() == 5,
        r@[0]@ == "auto-rename"@,
        r@[1]@ == "introspection"@,
        r@[2]@ == "oqto-bridge"@,
        r@[3]@ == "oqto-todos"@,
        r@[4]@ == "custom-context-files"@,
{
    let mut r: Vec<&'static str> = Vec::new();
    r.push("auto-rename");
    r.push("introspection");
    r.push("oqto-bridge");
    r.push("oqto-todos");
    r.push("custom-context-files");
    r
}

/// Where a user's Pi extensions go.
pub fn pi_extensions_dest(username: &str) -> (r: String)
    ensures
        r@ == "/home/"@ + username@ + "/.pi/agent/extensions"@,
{
    let mut r = home_of(username);
    push_str(&mut r, "/.pi/agent/extensions");
    r
}

} // verus!

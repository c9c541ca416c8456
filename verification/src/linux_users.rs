//! Linux user management for multi-user isolation.
//!
//! The library decides here what the host must do: which Linux username a
//! platform user or project maps to, which privileged command to run, how the
//! output of `id` and `getent passwd` is read, and whether an existing Linux
//! account may be reused. Running the commands is left to the caller.
use vstd::prelude::*;
use crate::num::{decimal, decimal_string, parse_u32_range, parse_u32_spec};
use crate::text::{
    ascii_lower, chars_of, is_ascii_digit, is_ascii_lower, is_ws, lines, line_bounds, push_char,
    push_str, range_eq, split_bounds, split_on, starts_with, str_eq, string_from_chars,
    string_from_range, to_ascii_lower, to_owned_string, trim, trim_bounds, trim_end, trim_start, is_whitespace,
};

verus! {

/// Configuration for Linux user isolation.
#[derive(Debug, Clone)]
pub struct LinuxUsersConfig {
    /// Enable Linux user isolation (requires root or sudo privileges).
    pub enabled: bool,
    /// Prefix for auto-created Linux usernames (e.g., "oqto_" -> "oqto_alice").
    pub prefix: String,
    /// Starting UID for new users. Users get sequential UIDs from this value.
    pub uid_start: u32,
    /// Shared group for all oqto users. Created if it doesn't exist.
    pub group: String,
    /// Shell for new users.
    pub shell: String,
    /// Use sudo to run processes as the target user.
    /// If false, requires the main process to run as root.
    pub use_sudo: bool,
    /// Create home directories for new users.
    pub create_home: bool,
}

impl Default for LinuxUsersConfig {
    fn default() -> (r: Self)
        ensures
            !r.enabled,
            r.prefix@ == "oqto_"@,
            r.uid_start == 2000,
            r.group@ == "oqto"@,
            r.shell@ == "/bin/zsh"@,
            r.use_sudo,
            r.create_home,
    {
        LinuxUsersConfig {
            enabled: false,
            prefix: to_owned_string("oqto_"),
            uid_start: 2000,
            group: to_owned_string("oqto"),
            shell: to_owned_string("/bin/zsh"),
            use_sudo: true,
            create_home: true,
        }
    }
}

// ---------------------------------------------------------------------------
// Usernames
// ---------------------------------------------------------------------------

/// Longest Linux username the library produces.
pub const MAX_USERNAME_LEN: usize = 32;

/// What the first input character becomes in a username.
pub open spec fn first_mapped(c: char) -> Seq<char> {
    let l = ascii_lower(c);
    if is_ascii_lower(l) || l == '_' {
        seq![l]
    } else if is_ascii_digit(l) {
        seq!['_', l]
    } else {
        seq!['_']
    }
}

/// What a later input character becomes in a username.
pub open spec fn rest_mapped(c: char) -> char {
    let l = ascii_lower(c);
    if is_ascii_lower(l) || is_ascii_digit(l) || l == '_' || l == '-' {
        l
    } else {
        '_'
    }
}

/// The characters produced from the first `n` input characters; input is
/// no longer read once 32 characters have been produced.
pub open spec fn username_chars(s: Seq<char>, n: nat) -> Seq<char>
    decreases n,
{
    if n == 0 {
        Seq::<char>::empty()
    } else {
        let prev = username_chars(s, (n - 1) as nat);
        if prev.len() >= 32 {
            prev
        } else if n == 1 {
            first_mapped(s[0])
        } else {
            prev.push(rest_mapped(s[n - 1]))
        }
    }
}

/// The sequence without its trailing hyphens.
pub open spec fn strip_trailing_hyphens(s: Seq<char>) -> Seq<char>
    decreases s.len(),
{
    if s.len() > 0 && s.last() == '-' {
        strip_trailing_hyphens(s.drop_last())
    } else {
        s
    }
}

/// The fallback username.
pub open spec fn default_username() -> Seq<char> {
    seq!['u', 's', 'e', 'r']
}

/// The Linux username derived from a platform user ID.
pub open spec fn sanitized_username(user_id: Seq<char>) -> Seq<char> {
    let raw = username_chars(user_id, user_id.len());
    let nonempty = if raw.len() == 0 {
        default_username()
    } else {
        raw
    };
    let stripped = strip_trailing_hyphens(nonempty);
    if stripped.len() == 0 {
        default_username()
    } else {
        stripped
    }
}

/// A character allowed in a Linux username after the first.
pub open spec fn is_username_char(c: char) -> bool {
    is_ascii_lower(c) || is_ascii_digit(c) || c == '_' || c == '-'
}

/// What Linux accepts as a username: 1 to 32 characters, a lowercase letter
/// or underscore first, then lowercase letters, digits, underscores or
/// hyphens, and no trailing hyphen.
pub open spec fn is_valid_linux_username(s: Seq<char>) -> bool {
    &&& 0 < s.len() <= 32
    &&& (is_ascii_lower(s[0]) || s[0] == '_')
    &&& forall|i: int| 0 <= i < s.len() ==> is_username_char(#[trigger] s[i])
    &&& s.last() != '-'
}

proof fn lemma_username_chars_shape(s: Seq<char>, n: nat)
    requires
        n <= s.len(),
    ensures
        username_chars(s, n).len() <= 32,
        n > 0 ==> username_chars(s, n).len() > 0,
        username_chars(s, n).len() > 0 ==> (is_ascii_lower(username_chars(s, n)[0])
            || username_chars(s, n)[0] == '_'),
        forall|i: int|
            0 <= i < username_chars(s, n).len() ==> is_username_char(
                #[trigger] username_chars(s, n)[i],
            ),
    decreases n,
{
    if n > 0 {
        lemma_username_chars_shape(s, (n - 1) as nat);
        let prev = username_chars(s, (n - 1) as nat);
        let cur = username_chars(s, n);
        if prev.len() < 32 && n > 1 {
            assert forall|i: int| 0 <= i < cur.len() implies is_username_char(#[trigger] cur[i]) by {
                if i < prev.len() {
                    assert(cur[i] == prev[i]);
                }
            }
        }
    }
}

proof fn lemma_username_chars_stable(s: Seq<char>, i: nat, n: nat)
    requires
        i <= n <= s.len(),
        username_chars(s, i).len() >= 32,
    ensures
        username_chars(s, n) == username_chars(s, i),
    decreases n - i,
{
    if i < n {
        lemma_username_chars_stable(s, i, (n - 1) as nat);
    }
}

proof fn lemma_strip_shape(s: Seq<char>)
    requires
        s.len() > 0,
        s[0] != '-',
        forall|i: int| 0 <= i < s.len() ==> is_username_char(#[trigger] s[i]),
    ensures
        strip_trailing_hyphens(s).len() > 0,
        strip_trailing_hyphens(s).len() <= s.len(),
        strip_trailing_hyphens(s)[0] == s[0],
        strip_trailing_hyphens(s).last() != '-',
        strip_trailing_hyphens(s) == s.subrange(0, strip_trailing_hyphens(s).len() as int),
    decreases s.len(),
{
    if s.last() == '-' {
        let t = s.drop_last();
        assert(s.len() > 1);
        assert forall|i: int| 0 <= i < t.len() implies is_username_char(#[trigger] t[i]) by {
            assert(t[i] == s[i]);
        }
        lemma_strip_shape(t);
        assert(t.subrange(0, strip_trailing_hyphens(t).len() as int) =~= s.subrange(
            0,
            strip_trailing_hyphens(t).len() as int,
        ));
    } else {
        assert(s.subrange(0, s.len() as int) =~= s);
    }
}

/// Every username the library derives is a valid Linux username.
pub proof fn lemma_sanitized_username_valid(user_id: Seq<char>)
    ensures
        is_valid_linux_username(sanitized_username(user_id)),
{
    let raw = username_chars(user_id, user_id.len());
    lemma_username_chars_shape(user_id, user_id.len());
    let dflt = default_username();
    let nonempty = if raw.len() == 0 {
        dflt
    } else {
        raw
    };
    assert forall|i: int| 0 <= i < nonempty.len() implies is_username_char(#[trigger] nonempty[i]) by {
    }
    lemma_strip_shape(nonempty);
    let stripped = strip_trailing_hyphens(nonempty);
    assert forall|i: int| 0 <= i < stripped.len() implies is_username_char(#[trigger] stripped[i]) by {
        assert(stripped[i] == nonempty.subrange(0, stripped.len() as int)[i]);
    }
}

proof fn lemma_username_chars_identity(v: Seq<char>, n: nat)
    requires
        is_valid_linux_username(v),
        n <= v.len(),
    ensures
        username_chars(v, n) == v.take(n as int),
    decreases n,
{
    if n > 0 {
        lemma_username_chars_identity(v, (n - 1) as nat);
        if n == 1 {
            assert(is_username_char(v[0]));
            assert(first_mapped(v[0]) =~= v.take(1));
        } else {
            assert(is_username_char(v[n - 1]));
            assert(v.take(n - 1).push(v[n - 1]) =~= v.take(n as int));
        }
    }
}

/// Deriving a username is the identity on names Linux already accepts, so
/// deriving twice gives what deriving once gives.
pub proof fn lemma_sanitize_username_identity_on_valid(name: Seq<char>)
    requires
        is_valid_linux_username(name),
    ensures
        sanitized_username(name) == name,
{
    lemma_username_chars_identity(name, name.len());
    assert(name.take(name.len() as int) =~= name);
}

/// Deriving a username twice gives what deriving once gives.
pub proof fn lemma_sanitize_username_idempotent(user_id: Seq<char>)
    ensures
        sanitized_username(sanitized_username(user_id)) == sanitized_username(user_id),
{
    lemma_sanitized_username_valid(user_id);
    lemma_sanitize_username_identity_on_valid(sanitized_username(user_id));
}

/// Sanitize a user ID to be a valid Linux username.
/// Linux usernames must:
/// - Start with a lowercase letter or underscore
/// - Contain only lowercase letters, digits, underscores, or hyphens
/// - Be at most 32 characters
pub fn sanitize_username(user_id: &str) -> (res: String)
    ensures
        res@ == sanitized_username(user_id@),
        is_valid_linux_username(res@),
{
    let input = chars_of(user_id);
    let mut out: Vec<char> = Vec::new();
    let mut i: usize = 0;
    while i < input.len()
        invariant
            input@ == user_id@,
            i <= input@.len(),
            out@ == username_chars(input@, i as nat),
        ensures
            out@ == username_chars(input@, input@.len()),
        decreases input.len() - i,
    {
        if out.len() >= MAX_USERNAME_LEN {
            proof {
                lemma_username_chars_stable(input@, i as nat, input@.len());
            }
            break;
        }
        let c = to_ascii_lower(input[i]);
        if i == 0 {
            if ('a' <= c && c <= 'z') || c == '_' {
                out.push(c);
            } else if '0' <= c && c <= '9' {
                out.push('_');
                out.push(c);
            } else {
                out.push('_');
            }
            assert(out@ =~= first_mapped(input@[0]));
        } else {
            if ('a' <= c && c <= 'z') || ('0' <= c && c <= '9') || c == '_' || c == '-' {
                out.push(c);
            } else {
                out.push('_');
            }
        }
        i += 1;
    }
    if out.len() == 0 {
        out.push('u');
        out.push('s');
        out.push('e');
        out.push('r');
        assert(out@ =~= default_username());
    }
    let ghost nonempty = out@;
    while out.len() > 0 && out[out.len() - 1] == '-'
        invariant
            strip_trailing_hyphens(out@) == strip_trailing_hyphens(nonempty),
        decreases out.len(),
    {
        out.pop();
    }
    proof {
        assert(strip_trailing_hyphens(out@) == out@);
    }
    if out.len() == 0 {
        out.push('u');
        out.push('s');
        out.push('e');
        out.push('r');
        assert(out@ =~= default_username());
    }
    proof {
        lemma_sanitized_username_valid(user_id@);
    }
    string_from_chars(&out)
}

/// Prefix for project-based Linux users.
pub const PROJECT_PREFIX: &'static str = "proj_";

impl LinuxUsersConfig {
    /// Get the Linux username for a platform user ID.
    ///
    /// If a Linux user already exists with the sanitized user ID as its name
    /// (no prefix), that name is used: `unprefixed_exists` tells whether the
    /// host has a Linux user named `sanitize_username(user_id)`. This handles
    /// admin users who have their own Linux accounts without the platform
    /// prefix. Otherwise the configured prefix is prepended.
    pub fn linux_username(&self, user_id: &str, unprefixed_exists: bool) -> (res: String)
        ensures
            res@ == (if unprefixed_exists {
                sanitized_username(user_id@)
            } else {
                self.prefix@ + sanitized_username(user_id@)
            }),
    {
        let sanitized = sanitize_username(user_id);
        if unprefixed_exists {
            return sanitized;
        }
        let mut res = self.prefix.clone();
        push_str(&mut res, sanitized.as_str());
        res
    }

    /// Get the Linux username for a shared project.
    ///
    /// Projects use a different prefix to distinguish them from user accounts:
    /// - User: oqto_alice
    /// - Project: oqto_proj_myproject
    pub fn project_username(&self, project_id: &str) -> (res: String)
        ensures
            res@ == self.prefix@ + PROJECT_PREFIX@ + sanitized_username(project_id@),
    {
        let mut res = self.prefix.clone();
        push_str(&mut res, PROJECT_PREFIX);
        let sanitized = sanitize_username(project_id);
        push_str(&mut res, sanitized.as_str());
        res
    }

    /// Get the effective Linux username for a session.
    ///
    /// This determines which Linux user should run the agent processes:
    /// - If project_id is provided, uses the project user
    /// - Otherwise, uses the platform user's Linux user (`unprefixed_exists`
    ///   as for [`LinuxUsersConfig::linux_username`])
    pub fn effective_username(
        &self,
        user_id: &str,
        project_id: Option<&str>,
        unprefixed_exists: bool,
    ) -> (res: String)
        ensures
            res@ == (match project_id {
                Some(pid) => self.prefix@ + PROJECT_PREFIX@ + sanitized_username(pid@),
                None => if unprefixed_exists {
                    sanitized_username(user_id@)
                } else {
                    self.prefix@ + sanitized_username(user_id@)
                },
            }),
    {
        match project_id {
            Some(pid) => self.project_username(pid),
            None => self.linux_username(user_id, unprefixed_exists),
        }
    }
}

} // verus!

verus! {

// ---------------------------------------------------------------------------
// GECOS comments
// ---------------------------------------------------------------------------

/// A GECOS character as `useradd` accepts it: `:` and the control characters
/// that shadow rejects become spaces.
pub open spec fn gecos_char(c: char) -> char {
    if c == ':' || c == '\n' || c == '\r' || c == '\0' {
        ' '
    } else {
        c
    }
}

/// The GECOS comment written for a user.
pub open spec fn sanitized_gecos(s: Seq<char>) -> Seq<char> {
    let t = trim(s.map_values(|c: char| gecos_char(c)));
    if t.len() == 0 {
        "Oqto user"@
    } else {
        t
    }
}

/// Sanitize GECOS/comment field for useradd.
/// useradd (shadow) rejects ':' and control characters.
pub fn sanitize_gecos(input: &str) -> (res: String)
    ensures
        res@ == sanitized_gecos(input@),
{
    let v = chars_of(input);
    let mut cleaned: Vec<char> = Vec::new();
    let mut i: usize = 0;
    while i < v.len()
        invariant
            v@ == input@,
            i <= v@.len(),
            cleaned@ == v@.take(i as int).map_values(|c: char| gecos_char(c)),
        decreases v.len() - i,
    {
        let c = v[i];
        if c == ':' || c == '\n' || c == '\r' || c == '\0' {
            cleaned.push(' ');
        } else {
            cleaned.push(c);
        }
        assert(v@.take(i + 1).map_values(|c: char| gecos_char(c)) =~= v@.take(i as int).map_values(
            |c: char| gecos_char(c),
        ).push(gecos_char(c)));
        i += 1;
    }
    assert(v@.take(v@.len() as int) =~= v@);
    let (a, b) = trim_bounds(&cleaned, 0, cleaned.len());
    assert(cleaned@.subrange(0, cleaned@.len() as int) =~= cleaned@);
    if a == b {
        to_owned_string("Oqto user")
    } else {
        string_from_range(&cleaned, a, b)
    }
}

/// The comment that marks a Linux user as owned by a platform user.
pub const PLATFORM_USER_GECOS: &'static str = "Oqto platform user";

/// The platform user ID recorded in a GECOS field, as
/// `extract_user_id_from_gecos` reads it.
pub open spec fn gecos_owner(gecos: Seq<char>) -> Option<Seq<char>> {
    let t = trim(gecos);
    let with_colon = PLATFORM_USER_GECOS@.push(':');
    if starts_with(t, with_colon) {
        Some(trim(t.skip(with_colon.len() as int)))
    } else if starts_with(t, PLATFORM_USER_GECOS@) {
        Some(trim(t.skip(PLATFORM_USER_GECOS@.len() as int)))
    } else {
        None
    }
}

/// Extract the platform user_id from a GECOS field.
/// GECOS format: "Oqto platform user <user_id>" (colon removed by sanitize).
pub fn extract_user_id_from_gecos(gecos: &str) -> (res: Option<&str>)
    ensures
        match res {
            Some(id) => gecos_owner(gecos@) == Some(id@),
            None => gecos_owner(gecos@) is None,
        },
{
    let v = chars_of(gecos);
    let (a, b) = trim_bounds(&v, 0, v.len());
    assert(v@.subrange(0, v@.len() as int) =~= v@);
    let ghost t = trim(gecos@);
    assert(t == v@.subrange(a as int, b as int));
    let mut prefix = chars_of(PLATFORM_USER_GECOS);
    let plain_len = prefix.len();
    prefix.push(':');
    let colon_len = prefix.len();
    let ghost with_colon = PLATFORM_USER_GECOS@.push(':');
    assert(prefix@ == with_colon);
    if b - a >= colon_len && range_eq(&v, a, a + colon_len, &prefix) {
        assert(t.subrange(0, with_colon.len() as int) =~= v@.subrange(a as int, a + colon_len));
        let (c, d) = trim_bounds(&v, a + colon_len, b);
        assert(t.skip(with_colon.len() as int) =~= v@.subrange(a + colon_len, b as int));
        return Some(gecos.substring_char(c, d));
    }
    proof {
        if starts_with(t, with_colon) {
            assert(t.subrange(0, with_colon.len() as int) =~= v@.subrange(a as int, a + colon_len));
        }
    }
    prefix.pop();
    assert(prefix@ =~= PLATFORM_USER_GECOS@);
    if b - a >= plain_len && range_eq(&v, a, a + plain_len, &prefix) {
        assert(t.subrange(0, PLATFORM_USER_GECOS@.len() as int) =~= v@.subrange(
            a as int,
            a + plain_len,
        ));
        let (c, d) = trim_bounds(&v, a + plain_len, b);
        assert(t.skip(PLATFORM_USER_GECOS@.len() as int) =~= v@.subrange(a + plain_len, b as int));
        return Some(gecos.substring_char(c, d));
    }
    proof {
        if starts_with(t, PLATFORM_USER_GECOS@) {
            assert(t.subrange(0, PLATFORM_USER_GECOS@.len() as int) =~= v@.subrange(
                a as int,
                a + plain_len,
            ));
        }
    }
    None
}

/// A string that `str::trim` leaves unchanged starts and ends with a
/// non-whitespace character when it is not empty.
proof fn lemma_trimmed_ends(x: Seq<char>)
    requires
        trim(x) == x,
        x.len() > 0,
    ensures
        !is_ws(x[0]),
        !is_ws(x.last()),
{
    lemma_trim_start_len(x);
    lemma_trim_end_len(trim_start(x));
    if is_ws(x[0]) {
        lemma_trim_start_len(x.drop_first());
    }
    if is_ws(x.last()) {
        assert(trim_end(trim_start(x)).len() == x.len());
        assert(trim_start(x).len() == x.len());
        lemma_trim_start_same_len(x);
        lemma_trim_end_len(x.drop_last());
    }
}

proof fn lemma_trim_start_len(s: Seq<char>)
    ensures
        trim_start(s).len() <= s.len(),
    decreases s.len(),
{
    if s.len() > 0 && is_ws(s[0]) {
        lemma_trim_start_len(s.drop_first());
    }
}

proof fn lemma_trim_end_len(s: Seq<char>)
    ensures
        trim_end(s).len() <= s.len(),
    decreases s.len(),
{
    if s.len() > 0 && is_ws(s.last()) {
        lemma_trim_end_len(s.drop_last());
    }
}

proof fn lemma_trim_start_same_len(s: Seq<char>)
    requires
        trim_start(s).len() == s.len(),
    ensures
        trim_start(s) == s,
{
    if s.len() > 0 && is_ws(s[0]) {
        lemma_trim_start_len(s.drop_first());
    }
}

/// The GECOS comment written for a platform user names that user when it is
/// read back: for an ID with no surrounding whitespace and none of the
/// characters that GECOS sanitizing replaces, `extract_user_id_from_gecos`
/// of the comment given to `useradd` is the ID itself.
pub proof fn law_gecos_names_its_owner(user_id: Seq<char>)
    requires
        user_id.len() > 0,
        trim(user_id) == user_id,
        forall|i: int|
            0 <= i < user_id.len() ==> #[trigger] user_id[i] != ':' && user_id[i] != '\n'
                && user_id[i] != '\r' && user_id[i] != '\0',
    ensures
        gecos_owner(sanitized_gecos("Oqto platform user "@ + user_id)) == Some(user_id),
{
    reveal_strlit("Oqto platform user ");
    reveal_strlit("Oqto platform user");
    let p = "Oqto platform user "@;
    let s = p + user_id;
    lemma_trimmed_ends(user_id);
    assert(s.map_values(|c: char| gecos_char(c)) =~= s);
    assert(s.last() == user_id.last());
    assert(trim_start(s) == s);
    assert(trim_end(s) == s);
    assert(sanitized_gecos(s) == s);
    let plain = PLATFORM_USER_GECOS@;
    let with_colon = plain.push(':');
    assert(s[18] == ' ');
    assert(with_colon.len() == 19 && with_colon[18] == ':');
    assert(s.subrange(0, 19)[18] == s[18]);
    assert(!starts_with(s, with_colon));
    assert(s.subrange(0, 18) =~= plain);
    let rest = s.skip(18);
    assert(rest.drop_first() =~= user_id);
    assert(trim_start(rest) == trim_start(user_id));
    assert(trim_start(user_id) == user_id);
    assert(trim_end(user_id) == user_id);
}

} // verus!

verus! {

// ---------------------------------------------------------------------------
// Reading `id -u` and `getent passwd` output
// ---------------------------------------------------------------------------

/// Why a Linux user operation was refused.
#[derive(Debug, Clone, PartialEq, Eq)]
pub enum LinuxUserError {
    /// Linux user isolation is not enabled.
    NotEnabled,
    /// The output of `id -u` was not a UID.
    UidParse,
    /// The Linux user belongs to another platform user.
    OwnedByOtherUser { username: String, owner_id: String, user_id: String },
    /// The Linux user exists but carries no Oqto GECOS field.
    OwnershipUnverifiable { username: String, user_id: String },
    /// The Linux user does not exist.
    UserMissing { username: String },
    /// The Linux user has another UID than the database records.
    UidMismatch { username: String, expected: u32, actual: u32 },
    /// Every UID of the managed range is taken.
    NoAvailableUid { start: u32, max: u32, in_use: usize },
    /// No home directory is known for the user.
    HomeNotFound { username: String },
    /// No fresh user ID was found within the allowed attempts.
    UniqueIdExhausted { username: String, attempts: u32 },
    /// Running as another user needs root or sudo.
    RunAsUserUnavailable,
    /// Linux user isolation needs root privileges or sudo.
    PrivilegesRequired,
}

/// Wraps `rustix::process::geteuid`: the effective user ID of this process,
/// as a raw number. Nothing is stated of it.
#[verifier::external_body]
fn effective_uid() -> (uid: u32) {
    rustix::process::geteuid().as_raw()
}

/// Whether user management can proceed: when isolation is off, when the
/// process runs as root (effective UID 0), or when sudo is to be used
/// (whose allowlist is then only found out at the first operation).
pub fn privileges_verdict(enabled: bool, euid: u32, use_sudo: bool) -> (res: Result<(), LinuxUserError>)
    ensures
        res is Ok <==> (!enabled || euid == 0 || use_sudo),
        res is Err ==> res == Err::<(), LinuxUserError>(LinuxUserError::PrivilegesRequired),
{
    if !enabled || euid == 0 || use_sudo {
        Ok(())
    } else {
        Err(LinuxUserError::PrivilegesRequired)
    }
}

impl LinuxUsersConfig {
    /// Checks that this process may manage Linux users: always when
    /// isolation is off or sudo is used; otherwise only as root.
    pub fn check_privileges(&self) -> (res: Result<(), LinuxUserError>)
        ensures
            (!self.enabled || self.use_sudo) ==> res is Ok,
            res is Err ==> res == Err::<(), LinuxUserError>(LinuxUserError::PrivilegesRequired),
    {
        if !self.enabled {
            return Ok(());
        }
        privileges_verdict(self.enabled, effective_uid(), self.use_sudo)
    }
}

/// The `k`-th `:`-separated field of a trimmed passwd line, if it has one.
pub open spec fn passwd_field(line: Seq<char>, k: int) -> Option<Seq<char>> {
    let parts = split_on(trim(line), ':');
    if k < parts.len() {
        Some(parts[k])
    } else {
        None
    }
}

/// The `k`-th field of a passwd line as `getent passwd` prints it; `None`
/// when the command failed or the line has no such field.
pub fn passwd_field_of(success: bool, stdout: &str, k: usize) -> (res: Option<String>)
    ensures
        match res {
            Some(f) => success && passwd_field(stdout@, k as int) == Some(f@),
            None => !success || passwd_field(stdout@, k as int) is None,
        },
{
    if !success {
        return None;
    }
    let v = chars_of(stdout);
    let (a, b) = trim_bounds(&v, 0, v.len());
    assert(v@.subrange(0, v@.len() as int) =~= v@);
    let parts = split_bounds(&v, a, b, ':');
    if k < parts.len() {
        let (c, d) = parts[k];
        Some(string_from_range(&v, c, d))
    } else {
        None
    }
}

/// Read the output of `id -u <name>`: `Ok(None)` when the command failed
/// (no such user), the UID when the trimmed output is one, an error otherwise.
pub fn parse_uid_output(success: bool, stdout: &str) -> (res: Result<Option<u32>, LinuxUserError>)
    ensures
        !success ==> res == Ok::<Option<u32>, LinuxUserError>(None),
        success ==> match parse_u32_spec(trim(stdout@)) {
            Some(uid) => res == Ok::<Option<u32>, LinuxUserError>(Some(uid)),
            None => res == Err::<Option<u32>, LinuxUserError>(LinuxUserError::UidParse),
        },
{
    if !success {
        return Ok(None);
    }
    let v = chars_of(stdout);
    let (a, b) = trim_bounds(&v, 0, v.len());
    assert(v@.subrange(0, v@.len() as int) =~= v@);
    match parse_u32_range(&v, a, b) {
        Some(uid) => Ok(Some(uid)),
        None => Err(LinuxUserError::UidParse),
    }
}

impl LinuxUsersConfig {
    /// The UID of the platform user's Linux user, read from the output of
    /// `id -u <linux_username(user_id)>`.
    pub fn get_uid(&self, success: bool, stdout: &str) -> (res: Result<Option<u32>, LinuxUserError>)
        ensures
            !success ==> res == Ok::<Option<u32>, LinuxUserError>(None),
            success ==> match parse_u32_spec(trim(stdout@)) {
                Some(uid) => res == Ok::<Option<u32>, LinuxUserError>(Some(uid)),
                None => res == Err::<Option<u32>, LinuxUserError>(LinuxUserError::UidParse),
            },
    {
        parse_uid_output(success, stdout)
    }

    /// The home directory of the platform user's Linux user, read from the
    /// output of `getent passwd <linux_username(user_id)>` (sixth field).
    pub fn get_home_dir(&self, success: bool, stdout: &str) -> (res: Option<String>)
        ensures
            match res {
                Some(h) => success && passwd_field(stdout@, 5) == Some(h@),
                None => !success || passwd_field(stdout@, 5) is None,
            },
    {
        passwd_field_of(success, stdout, 5)
    }

    /// The home directory of a Linux username, read from the output of
    /// `getent passwd <linux_username>`.
    pub fn get_user_home(&self, linux_username: &str, success: bool, stdout: &str) -> (res: Result<
        String,
        LinuxUserError,
    >)
        ensures
            match res {
                Ok(h) => success && passwd_field(stdout@, 5) == Some(h@),
                Err(e) => (!success || passwd_field(stdout@, 5) is None) && (e matches LinuxUserError::HomeNotFound { username } && username@ == linux_username@),
            },
    {
        match passwd_field_of(success, stdout, 5) {
            Some(h) => Ok(h),
            None => Err(LinuxUserError::HomeNotFound { username: to_owned_string(linux_username) }),
        }
    }
}

/// The GECOS field of a Linux user from `getent passwd` output (fifth field).
pub fn gecos_of(success: bool, stdout: &str) -> (res: Option<String>)
    ensures
        match res {
            Some(g) => success && passwd_field(stdout@, 4) == Some(g@),
            None => !success || passwd_field(stdout@, 4) is None,
        },
{
    passwd_field_of(success, stdout, 4)
}

} // verus!

verus! {

// ---------------------------------------------------------------------------
// Privileged commands and account decisions
// ---------------------------------------------------------------------------

/// A command to run with root privileges: a program and its arguments.
#[derive(Debug, Clone, PartialEq, Eq)]
pub struct PrivilegedCommand {
    pub program: String,
    pub args: Vec<String>,
}

/// The views of the arguments of a command.
pub open spec fn args_view(args: Seq<String>) -> Seq<Seq<char>> {
    args.map_values(|a: String| a@)
}

/// Build a command from a program and a list of arguments.
fn command(program: &str, args: Vec<String>) -> (r: PrivilegedCommand)
    ensures
        r.program@ == program@,
        r.args@ == args@,
{
    PrivilegedCommand { program: to_owned_string(program), args }
}

/// `owner:group` for chown.
fn owner_spec(username: &str, group: &String) -> (r: String)
    ensures
        r@ == username@ + ":"@ + group@,
{
    let mut r = to_owned_string(username);
    push_str(&mut r, ":");
    push_str(&mut r, group.as_str());
    r
}

/// What an existing Linux user means for `create_user`.
#[derive(Debug, Clone, PartialEq, Eq)]
pub enum CreateUserOutcome {
    /// The Linux user exists and belongs to this platform user.
    Reuse { uid: u32, username: String },
    /// No Linux user of that name exists: create it.
    Create { username: String },
}

/// One step of `generate_unique_user_id`.
#[derive(Debug, Clone, PartialEq, Eq)]
pub enum UniqueIdStep {
    /// Use this user ID.
    Use(String),
    /// Generate another candidate.
    Retry,
}

/// How `ensure_user_with_verification` proceeds.
#[derive(Debug, Clone, PartialEq, Eq)]
pub enum EnsureUserPlan {
    /// Isolation is off: the current process user (its real UID) stands
    /// in, named by the platform user's id.
    Disabled { uid: u32, username: String },
    /// Check the stored Linux user by UID, then make sure its runner runs.
    VerifyExisting { username: String, uid: u32 },
    /// Create the Linux user if needed, then make sure its runner runs.
    CreateOrReuse,
}

/// Which account `ensure_effective_user` makes sure of.
#[derive(Debug, Clone, PartialEq, Eq)]
pub enum EffectiveUserPlan {
    /// The shared project's account, with the project directory to hand
    /// to it where one was given.
    Project { project_id: String, project_path: Option<String> },
    /// The platform user's own account, as [`LinuxUsersConfig::ensure_user`]
    /// plans it.
    Platform(EnsureUserPlan),
}

/// Wraps `rustix::process::getuid`: the real user ID of this process, as a
/// raw number. Nothing is stated of it.
#[verifier::external_body]
fn real_uid() -> (uid: u32) {
    rustix::process::getuid().as_raw()
}

/// Whether `plan` is how [`LinuxUsersConfig::ensure_user`] ensures the
/// account of `user_id`: with isolation off, the current process user named
/// by the user id; with it on, found or created.
pub open spec fn plain_user_plan(enabled: bool, user_id: Seq<char>, plan: EnsureUserPlan) -> bool {
    if enabled {
        plan == EnsureUserPlan::CreateOrReuse
    } else {
        plan matches EnsureUserPlan::Disabled { username, .. } && username@ == user_id
    }
}

/// Most candidate user IDs `generate_unique_user_id` tries.
pub const MAX_UNIQUE_ID_ATTEMPTS: u32 = 10;

impl LinuxUsersConfig {
    /// The `groupadd` command that creates the shared group, when isolation
    /// is enabled and the group does not exist yet.
    pub fn ensure_group(&self, group_exists: bool) -> (res: Option<PrivilegedCommand>)
        ensures
            (!self.enabled || group_exists) ==> res is None,
            (self.enabled && !group_exists) ==> (res matches Some(c) && c.program@
                == "/usr/sbin/groupadd"@ && args_view(c.args@) == seq![self.group@]),
    {
        if !self.enabled || group_exists {
            return None;
        }
        let mut args: Vec<String> = Vec::new();
        args.push(self.group.clone());
        let c = command("/usr/sbin/groupadd", args);
        assert(args_view(c.args@) =~= seq![self.group@]);
        Some(c)
    }

    /// The `chown -R` command that gives a directory to a Linux username,
    /// when isolation is enabled.
    pub fn chown_directory_to_user(&self, path: &str, username: &str) -> (res: Option<PrivilegedCommand>)
        ensures
            !self.enabled ==> res is None,
            self.enabled ==> (res matches Some(c) && c.program@ == "/usr/bin/chown"@ && args_view(
                c.args@,
            ) == seq!["-R"@, username@ + ":"@ + self.group@, path@]),
    {
        if !self.enabled {
            return None;
        }
        let mut args: Vec<String> = Vec::new();
        args.push(to_owned_string("-R"));
        args.push(owner_spec(username, &self.group));
        args.push(to_owned_string(path));
        let c = command("/usr/bin/chown", args);
        assert(args_view(c.args@) =~= seq!["-R"@, username@ + ":"@ + self.group@, path@]);
        Some(c)
    }

    /// The `useradd` command for a new Linux user with the given UID and
    /// comment.
    pub fn useradd_command(&self, uid: u32, comment: &str, username: &str) -> (res: PrivilegedCommand)
        ensures
            res.program@ == "/usr/sbin/useradd"@,
            args_view(res.args@) == seq![
                "-u"@,
                decimal(uid as nat),
                "-g"@,
                self.group@,
                "-s"@,
                self.shell@,
                if self.create_home {
                    "-m"@
                } else {
                    "-M"@
                },
                "-c"@,
                sanitized_gecos(comment@),
                username@,
            ],
    {
        let mut args: Vec<String> = Vec::new();
        args.push(to_owned_string("-u"));
        args.push(decimal_string(uid as u64));
        args.push(to_owned_string("-g"));
        args.push(self.group.clone());
        args.push(to_owned_string("-s"));
        args.push(self.shell.clone());
        if self.create_home {
            args.push(to_owned_string("-m"));
        } else {
            args.push(to_owned_string("-M"));
        }
        args.push(to_owned_string("-c"));
        args.push(sanitize_gecos(comment));
        args.push(to_owned_string(username));
        let c = command("/usr/sbin/useradd", args);
        assert(args_view(c.args@) =~= seq![
            "-u"@,
            decimal(uid as nat),
            "-g"@,
            self.group@,
            "-s"@,
            self.shell@,
            if self.create_home {
                "-m"@
            } else {
                "-M"@
            },
            "-c"@,
            sanitized_gecos(comment@),
            username@,
        ]);
        c
    }

    /// The `useradd` command that creates the Linux user of a platform user;
    /// its comment records the platform user ID so that ownership can be
    /// checked later.
    pub fn create_linux_user_internal(&self, user_id: &str, username: &str, uid: u32) -> (res:
        PrivilegedCommand)
        ensures
            res.program@ == "/usr/sbin/useradd"@,
            args_view(res.args@) == seq![
                "-u"@,
                decimal(uid as nat),
                "-g"@,
                self.group@,
                "-s"@,
                self.shell@,
                if self.create_home {
                    "-m"@
                } else {
                    "-M"@
                },
                "-c"@,
                sanitized_gecos("Oqto platform user "@ + user_id@),
                username@,
            ],
    {
        let mut comment = to_owned_string("Oqto platform user ");
        push_str(&mut comment, user_id);
        self.useradd_command(uid, comment.as_str(), username)
    }

    /// The `useradd` command that creates the Linux user of a shared project.
    pub fn project_useradd_command(&self, project_id: &str, username: &str, uid: u32) -> (res:
        PrivilegedCommand)
        ensures
            res.program@ == "/usr/sbin/useradd"@,
            args_view(res.args@) == seq![
                "-u"@,
                decimal(uid as nat),
                "-g"@,
                self.group@,
                "-s"@,
                self.shell@,
                if self.create_home {
                    "-m"@
                } else {
                    "-M"@
                },
                "-c"@,
                sanitized_gecos("Oqto shared project: "@ + project_id@),
                username@,
            ],
    {
        let mut comment = to_owned_string("Oqto shared project: ");
        push_str(&mut comment, project_id);
        self.useradd_command(uid, comment.as_str(), username)
    }

    /// Decide whether a platform user's Linux user is created or reused.
    ///
    /// `username` is `linux_username(user_id)`; `existing_uid` is its UID when
    /// a Linux user of that name exists, and `existing_gecos` its GECOS field.
    /// An existing user is reused only when its GECOS names this platform
    /// user: a UID that may belong to someone else is never handed out.
    pub fn create_user(
        &self,
        user_id: &str,
        username: &str,
        existing_uid: Option<u32>,
        existing_gecos: Option<&str>,
    ) -> (res: Result<CreateUserOutcome, LinuxUserError>)
        ensures
            !self.enabled ==> res == Err::<CreateUserOutcome, LinuxUserError>(
                LinuxUserError::NotEnabled,
            ),
            self.enabled && existing_uid is None ==> (res matches Ok(CreateUserOutcome::Create {
                username: u,
            }) && u@ == username@),
            self.enabled && existing_uid is Some ==> match existing_gecos {
                Some(g) => match gecos_owner(g@) {
                    Some(owner) => if owner == user_id@ {
                        res matches Ok(CreateUserOutcome::Reuse { uid, username: u }) && uid
                            == existing_uid->0 && u@ == username@
                    } else {
                        res matches Err(LinuxUserError::OwnedByOtherUser {
                            username: u,
                            owner_id: o,
                            user_id: id,
                        }) && u@ == username@ && o@ == owner && id@ == user_id@
                    },
                    None => res matches Err(LinuxUserError::OwnershipUnverifiable {
                        username: u,
                        user_id: id,
                    }) && u@ == username@ && id@ == user_id@,
                },
                None => res matches Err(LinuxUserError::OwnershipUnverifiable {
                    username: u,
                    user_id: id,
                }) && u@ == username@ && id@ == user_id@,
            },
    {
        if !self.enabled {
            return Err(LinuxUserError::NotEnabled);
        }
        match existing_uid {
            None => Ok(CreateUserOutcome::Create { username: to_owned_string(username) }),
            Some(uid) => {
                if let Some(gecos) = existing_gecos {
                    if let Some(owner_id) = extract_user_id_from_gecos(gecos) {
                        if str_eq(owner_id, user_id) {
                            return Ok(
                                CreateUserOutcome::Reuse { uid, username: to_owned_string(username) },
                            );
                        }
                        return Err(
                            LinuxUserError::OwnedByOtherUser {
                                username: to_owned_string(username),
                                owner_id: to_owned_string(owner_id),
                                user_id: to_owned_string(user_id),
                            },
                        );
                    }
                }
                Err(
                    LinuxUserError::OwnershipUnverifiable {
                        username: to_owned_string(username),
                        user_id: to_owned_string(user_id),
                    },
                )
            },
        }
    }

    /// Verify that a Linux user matches the expected UID from the database.
    ///
    /// SECURITY: This is the primary ownership verification. UID is immutable
    /// by non-root users (unlike GECOS which can be changed via chfn), so this
    /// check cannot be bypassed. `actual_uid` is the UID the host reports for
    /// the name, `None` when no such user exists.
    pub fn verify_linux_user_uid(
        &self,
        linux_username: &str,
        expected_uid: u32,
        actual_uid: Option<u32>,
    ) -> (res: Result<(), LinuxUserError>)
        ensures
            !self.enabled ==> res is Ok,
            self.enabled ==> match actual_uid {
                None => res matches Err(LinuxUserError::UserMissing { username: u }) && u@
                    == linux_username@,
                Some(actual) => if actual == expected_uid {
                    res is Ok
                } else {
                    res matches Err(LinuxUserError::UidMismatch { username: u, expected, actual: a })
                        && u@ == linux_username@ && expected == expected_uid && a == actual
                },
            },
    {
        if !self.enabled {
            return Ok(());
        }
        match actual_uid {
            None => Err(LinuxUserError::UserMissing { username: to_owned_string(linux_username) }),
            Some(actual) => {
                if actual != expected_uid {
                    Err(
                        LinuxUserError::UidMismatch {
                            username: to_owned_string(linux_username),
                            expected: expected_uid,
                            actual,
                        },
                    )
                } else {
                    Ok(())
                }
            },
        }
    }

    /// One attempt of generating a user ID whose Linux username is free.
    ///
    /// `attempt` counts from 0; `candidate` is the generated user ID,
    /// `existing_uid` the UID of a Linux user already named after it (if
    /// any) and `existing_gecos` that user's GECOS field. The candidate is
    /// used when its Linux username is free or already belongs to it;
    /// otherwise another is tried, up to ten attempts in all.
    pub fn generate_unique_user_id(
        &self,
        username: &str,
        attempt: u32,
        candidate: &str,
        existing_uid: Option<u32>,
        existing_gecos: Option<&str>,
    ) -> (res: Result<UniqueIdStep, LinuxUserError>)
        requires
            attempt < MAX_UNIQUE_ID_ATTEMPTS,
        ensures
            ({
                let owned = existing_gecos matches Some(g) && gecos_owner(g@) == Some(candidate@);
                if existing_uid is None || owned {
                    res matches Ok(UniqueIdStep::Use(id)) && id@ == candidate@
                } else if attempt + 1 < MAX_UNIQUE_ID_ATTEMPTS {
                    res == Ok::<UniqueIdStep, LinuxUserError>(UniqueIdStep::Retry)
                } else {
                    res matches Err(LinuxUserError::UniqueIdExhausted { username: u, attempts })
                        && u@ == username@ && attempts == MAX_UNIQUE_ID_ATTEMPTS
                }
            }),
    {
        let mut owned = false;
        if let Some(gecos) = existing_gecos {
            if let Some(owner_id) = extract_user_id_from_gecos(gecos) {
                owned = str_eq(owner_id, candidate);
            }
        }
        if existing_uid.is_none() || owned {
            return Ok(UniqueIdStep::Use(to_owned_string(candidate)));
        }
        if attempt + 1 < MAX_UNIQUE_ID_ATTEMPTS {
            Ok(UniqueIdStep::Retry)
        } else {
            Err(
                LinuxUserError::UniqueIdExhausted {
                    username: to_owned_string(username),
                    attempts: MAX_UNIQUE_ID_ATTEMPTS,
                },
            )
        }
    }

    /// How to ensure a Linux user exists, with optional UID verification,
    /// where `current_uid` is the real UID of this process.
    ///
    /// With isolation off the current process user stands in, under the
    /// platform user's id: nothing is created or checked. If
    /// `expected_linux_username` and `expected_uid` are provided (from DB),
    /// the existing Linux user is verified by UID before it is used.
    pub fn plan_ensure_user(
        &self,
        user_id: &str,
        expected_linux_username: Option<&str>,
        expected_uid: Option<u32>,
        current_uid: u32,
    ) -> (res: EnsureUserPlan)
        ensures
            !self.enabled ==> (res matches EnsureUserPlan::Disabled { uid, username } && uid == current_uid
                && username@ == user_id@),
            self.enabled ==> match (expected_linux_username, expected_uid) {
                (Some(name), Some(uid)) => res matches EnsureUserPlan::VerifyExisting {
                    username: u,
                    uid: id,
                } && u@ == name@ && id == uid,
                _ => res == EnsureUserPlan::CreateOrReuse,
            },
    {
        if !self.enabled {
            return EnsureUserPlan::Disabled { uid: current_uid, username: to_owned_string(user_id) };
        }
        match (expected_linux_username, expected_uid) {
            (Some(name), Some(uid)) => EnsureUserPlan::VerifyExisting {
                username: to_owned_string(name),
                uid,
            },
            _ => EnsureUserPlan::CreateOrReuse,
        }
    }

    /// How to ensure a Linux user exists, with optional UID verification:
    /// [`LinuxUsersConfig::plan_ensure_user`] with the real UID of this
    /// process, which is read only where isolation is off.
    pub fn ensure_user_with_verification(
        &self,
        user_id: &str,
        expected_linux_username: Option<&str>,
        expected_uid: Option<u32>,
    ) -> (res: EnsureUserPlan)
        ensures
            !self.enabled ==> (res matches EnsureUserPlan::Disabled { username, .. } && username@ == user_id@),
            self.enabled ==> match (expected_linux_username, expected_uid) {
                (Some(name), Some(uid)) => res matches EnsureUserPlan::VerifyExisting {
                    username: u,
                    uid: id,
                } && u@ == name@ && id == uid,
                _ => res == EnsureUserPlan::CreateOrReuse,
            },
    {
        let current_uid = if self.enabled {
            0
        } else {
            real_uid()
        };
        self.plan_ensure_user(user_id, expected_linux_username, expected_uid, current_uid)
    }

    /// How to ensure a platform user's Linux account when nothing is stored
    /// for it yet.
    pub fn ensure_user(&self, user_id: &str) -> (res: EnsureUserPlan)
        ensures
            plain_user_plan(self.enabled, user_id@, res),
    {
        self.ensure_user_with_verification(user_id, None, None)
    }

    /// Which account to ensure for a session: the project user when a
    /// project is given (with its directory, where one is given), the
    /// platform user's own account otherwise.
    pub fn ensure_effective_user(&self, user_id: &str, project_id: Option<&str>, project_path: Option<&str>) -> (res:
        EffectiveUserPlan)
        ensures
            match project_id {
                Some(pid) => res matches EffectiveUserPlan::Project { project_id: p, project_path: pp } && p@
                    == pid@ && match (pp, project_path) {
                    (Some(a), Some(b)) => a@ == b@,
                    (None, None) => true,
                    _ => false,
                },
                None => res matches EffectiveUserPlan::Platform(plan) && plain_user_plan(
                    self.enabled,
                    user_id@,
                    plan,
                ),
            },
    {
        match project_id {
            Some(pid) => EffectiveUserPlan::Project {
                project_id: to_owned_string(pid),
                project_path: match project_path {
                    Some(p) => Some(to_owned_string(p)),
                    None => None,
                },
            },
            None => EffectiveUserPlan::Platform(self.ensure_user(user_id)),
        }
    }
}

} // verus!

verus! {

// ---------------------------------------------------------------------------
// Routing privileged commands through oqto-usermgr
// ---------------------------------------------------------------------------

/// A request to the privileged oqto-usermgr daemon.
#[derive(Debug, Clone, PartialEq, Eq)]
pub enum UsermgrCall {
    CreateGroup { group: String },
    CreateUser {
        username: String,
        uid: u32,
        group: String,
        shell: String,
        gecos: String,
        create_home: bool,
    },
    DeleteUser { username: String },
    Mkdir { path: String },
    Chown { owner: String, path: String, recursive: bool },
    Chmod { mode: String, path: String },
    EnableLinger { username: String },
    StartUserService { uid: u32 },
}

/// The mathematical content of a [`UsermgrCall`].
pub enum UsermgrCallView {
    CreateGroup { group: Seq<char> },
    CreateUser {
        username: Seq<char>,
        uid: u32,
        group: Seq<char>,
        shell: Seq<char>,
        gecos: Seq<char>,
        create_home: bool,
    },
    DeleteUser { username: Seq<char> },
    Mkdir { path: Seq<char> },
    Chown { owner: Seq<char>, path: Seq<char>, recursive: bool },
    Chmod { mode: Seq<char>, path: Seq<char> },
    EnableLinger { username: Seq<char> },
    StartUserService { uid: u32 },
}

impl View for UsermgrCall {
    type V = UsermgrCallView;

    open spec fn view(&self) -> UsermgrCallView {
        match self {
            UsermgrCall::CreateGroup { group } => UsermgrCallView::CreateGroup { group: group@ },
            UsermgrCall::CreateUser { username, uid, group, shell, gecos, create_home } =>
                UsermgrCallView::CreateUser {
                username: username@,
                uid: *uid,
                group: group@,
                shell: shell@,
                gecos: gecos@,
                create_home: *create_home,
            },
            UsermgrCall::DeleteUser { username } => UsermgrCallView::DeleteUser {
                username: username@,
            },
            UsermgrCall::Mkdir { path } => UsermgrCallView::Mkdir { path: path@ },
            UsermgrCall::Chown { owner, path, recursive } => UsermgrCallView::Chown {
                owner: owner@,
                path: path@,
                recursive: *recursive,
            },
            UsermgrCall::Chmod { mode, path } => UsermgrCallView::Chmod { mode: mode@, path: path@ },
            UsermgrCall::EnableLinger { username } => UsermgrCallView::EnableLinger {
                username: username@,
            },
            UsermgrCall::StartUserService { uid } => UsermgrCallView::StartUserService { uid: *uid },
        }
    }
}

/// The views of a slice of string slices.
pub open spec fn strs_view(args: Seq<&str>) -> Seq<Seq<char>> {
    args.map_values(|a: &str| a@)
}

/// What the `useradd` argument scan has found so far.
pub struct UseraddScan {
    pub uid: Option<u32>,
    pub group: Option<Seq<char>>,
    pub shell: Option<Seq<char>>,
    pub gecos: Option<Seq<char>>,
    pub username: Option<Seq<char>>,
    pub create_home: bool,
}

/// The argument after position `i`, if there is one.
pub open spec fn arg_after(args: Seq<Seq<char>>, i: int) -> Option<Seq<char>> {
    if i + 1 < args.len() {
        Some(args[i + 1])
    } else {
        None
    }
}

/// Read `useradd` arguments from position `i` on: `-u`, `-g`, `-s` and `-c`
/// take the next argument as their value, `-m`/`-M` set whether a home is
/// created, and any other argument is the username. Later flags override
/// earlier ones.
pub open spec fn useradd_scan(args: Seq<Seq<char>>, i: int, st: UseraddScan) -> UseraddScan
    decreases args.len() + 1 - i,
{
    if i < 0 || i >= args.len() {
        st
    } else {
        let a = args[i];
        if a == "-u"@ {
            useradd_scan(
                args,
                i + 2,
                UseraddScan {
                    uid: match arg_after(args, i) {
                        Some(v) => parse_u32_spec(v),
                        None => None,
                    },
                    ..st
                },
            )
        } else if a == "-g"@ {
            useradd_scan(args, i + 2, UseraddScan { group: arg_after(args, i), ..st })
        } else if a == "-s"@ {
            useradd_scan(args, i + 2, UseraddScan { shell: arg_after(args, i), ..st })
        } else if a == "-c"@ {
            useradd_scan(args, i + 2, UseraddScan { gecos: arg_after(args, i), ..st })
        } else if a == "-m"@ {
            useradd_scan(args, i + 1, UseraddScan { create_home: true, ..st })
        } else if a == "-M"@ {
            useradd_scan(args, i + 1, UseraddScan { create_home: false, ..st })
        } else {
            useradd_scan(args, i + 1, UseraddScan { username: Some(a), ..st })
        }
    }
}

/// The state the `useradd` scan starts from.
pub open spec fn useradd_start() -> UseraddScan {
    UseraddScan {
        uid: None,
        group: None,
        shell: None,
        gecos: None,
        username: None,
        create_home: true,
    }
}

/// The UID named by a `user@<uid>.service` unit.
pub open spec fn user_service_uid(unit: Seq<char>) -> Option<u32> {
    if starts_with(unit, "user@"@) {
        let rest = unit.skip(5);
        if rest.len() >= 8 && rest.skip(rest.len() - 8) == ".service"@ {
            parse_u32_spec(rest.take(rest.len() - 8))
        } else {
            None
        }
    } else {
        None
    }
}

/// Which oqto-usermgr request stands for a system command, if any.
pub open spec fn usermgr_call_spec(cmd: Seq<char>, args: Seq<Seq<char>>) -> Option<UsermgrCallView> {
    if cmd == "/usr/sbin/groupadd"@ {
        if args.len() > 0 {
            Some(UsermgrCallView::CreateGroup { group: args[0] })
        } else {
            None
        }
    } else if cmd == "/usr/sbin/useradd"@ {
        let st = useradd_scan(args, 0, useradd_start());
        if st.username is Some && st.uid is Some && st.group is Some && st.shell is Some
            && st.gecos is Some {
            Some(
                UsermgrCallView::CreateUser {
                    username: st.username->0,
                    uid: st.uid->0,
                    group: st.group->0,
                    shell: st.shell->0,
                    gecos: st.gecos->0,
                    create_home: st.create_home,
                },
            )
        } else {
            None
        }
    } else if cmd == "/usr/sbin/userdel"@ {
        if args.len() > 0 {
            Some(UsermgrCallView::DeleteUser { username: args[0] })
        } else {
            None
        }
    } else if (cmd == "mkdir"@ || cmd == "/bin/mkdir"@) && args.len() > 0 && args[0] == "-p"@ {
        if args.len() > 1 {
            Some(UsermgrCallView::Mkdir { path: args[1] })
        } else {
            None
        }
    } else if cmd == "chown"@ || cmd == "/usr/bin/chown"@ {
        if args.len() == 3 && args[0] == "-R"@ {
            Some(UsermgrCallView::Chown { owner: args[1], path: args[2], recursive: true })
        } else if args.len() == 2 {
            Some(UsermgrCallView::Chown { owner: args[0], path: args[1], recursive: false })
        } else {
            None
        }
    } else if (cmd == "chmod"@ || cmd == "/usr/bin/chmod"@) && args.len() == 2 {
        Some(UsermgrCallView::Chmod { mode: args[0], path: args[1] })
    } else if (cmd == "loginctl"@ || cmd == "/usr/bin/loginctl"@) && args.len() == 2 && args[0]
        == "enable-linger"@ {
        Some(UsermgrCallView::EnableLinger { username: args[1] })
    } else if cmd == "/usr/bin/systemctl"@ && args.len() == 2 && args[0] == "start"@ {
        match user_service_uid(args[1]) {
            Some(uid) => Some(UsermgrCallView::StartUserService { uid }),
            None => None,
        }
    } else {
        None
    }
}

/// The view of an optional string slice.
pub open spec fn opt_str_view(o: Option<&str>) -> Option<Seq<char>> {
    match o {
        Some(s) => Some(s@),
        None => None,
    }
}

fn start_user_service_uid(unit: &str) -> (r: Option<u32>)
    ensures
        r == user_service_uid(unit@),
{
    let v = chars_of(unit);
    let pre = chars_of("user@");
    let suf = chars_of(".service");
    assert(pre@.len() == 5) by {
        reveal_strlit("user@");
    }
    assert(suf@.len() == 8) by {
        reveal_strlit(".service");
    }
    if v.len() < 5 || !range_eq(&v, 0, 5, &pre) {
        proof {
            if starts_with(unit@, "user@"@) {
                assert(v@.subrange(0, 5) == "user@"@);
            }
        }
        return None;
    }
    assert(starts_with(unit@, "user@"@));
    let ghost rest = unit@.skip(5);
    if v.len() - 5 < 8 || !range_eq(&v, v.len() - 8, v.len(), &suf) {
        proof {
            if rest.len() >= 8 {
                assert(rest.skip(rest.len() - 8) =~= v@.subrange(v@.len() - 8, v@.len() as int));
            }
        }
        return None;
    }
    assert(rest.skip(rest.len() - 8) =~= v@.subrange(v@.len() - 8, v@.len() as int));
    assert(rest.take(rest.len() - 8) =~= v@.subrange(5, v@.len() - 8));
    parse_u32_range(&v, 5, v.len() - 8)
}

/// Translate a system command into an oqto-usermgr request, or `None` when
/// the daemon does not handle it.
pub fn try_usermgr(cmd: &str, args: &[&str]) -> (res: Option<UsermgrCall>)
    ensures
        match res {
            Some(c) => usermgr_call_spec(cmd@, strs_view(args@)) == Some(c@),
            None => usermgr_call_spec(cmd@, strs_view(args@)) is None,
        },
{
    let ghost av = strs_view(args@);
    let n = args.len();
    assert(av.len() == n);
    if str_eq(cmd, "/usr/sbin/groupadd") {
        if n > 0 {
            return Some(UsermgrCall::CreateGroup { group: to_owned_string(args[0]) });
        }
        return None;
    }
    if str_eq(cmd, "/usr/sbin/useradd") {
        let mut uid: Option<u32> = None;
        let mut group: Option<&str> = None;
        let mut shell: Option<&str> = None;
        let mut gecos: Option<&str> = None;
        let mut username: Option<&str> = None;
        let mut create_home = true;
        let mut i: usize = 0;
        while i < n
            invariant
                n == args@.len(),
                av == strs_view(args@),
                i <= n,
                useradd_scan(av, 0, useradd_start()) == useradd_scan(
                    av,
                    i as int,
                    UseraddScan {
                        uid,
                        group: opt_str_view(group),
                        shell: opt_str_view(shell),
                        gecos: opt_str_view(gecos),
                        username: opt_str_view(username),
                        create_home,
                    },
                ),
            decreases n - i,
        {
            let a = args[i];
            assert(av[i as int] == a@);
            let next: Option<&str> = if i + 1 < n {
                Some(args[i + 1])
            } else {
                None
            };
            assert(opt_str_view(next) == arg_after(av, i as int));
            let ghost old_i = i;
            let ghost old_st = UseraddScan {
                uid,
                group: opt_str_view(group),
                shell: opt_str_view(shell),
                gecos: opt_str_view(gecos),
                username: opt_str_view(username),
                create_home,
            };
            if str_eq(a, "-u") {
                uid = match next {
                    Some(v) => crate::num::parse_u32(v),
                    None => None,
                };
                i = if i + 1 < n { i + 2 } else { n };
            } else if str_eq(a, "-g") {
                group = next;
                i = if i + 1 < n { i + 2 } else { n };
            } else if str_eq(a, "-s") {
                shell = next;
                i = if i + 1 < n { i + 2 } else { n };
            } else if str_eq(a, "-c") {
                gecos = next;
                i = if i + 1 < n { i + 2 } else { n };
            } else if str_eq(a, "-m") {
                create_home = true;
                i += 1;
            } else if str_eq(a, "-M") {
                create_home = false;
                i += 1;
            } else {
                username = Some(a);
                i += 1;
            }
            proof {
                let new_st = UseraddScan {
                    uid,
                    group: opt_str_view(group),
                    shell: opt_str_view(shell),
                    gecos: opt_str_view(gecos),
                    username: opt_str_view(username),
                    create_home,
                };
                assert(av[old_i as int] == a@);
                reveal_with_fuel(useradd_scan, 2);
                if i == n {
                    assert(useradd_scan(av, i as int, new_st) == new_st);
                }
                assert(useradd_scan(av, old_i as int, old_st) == useradd_scan(av, i as int, new_st));
            }
        }
        let ghost st = useradd_scan(av, 0, useradd_start());
        match (username, uid, group, shell, gecos) {
            (Some(u), Some(id), Some(g), Some(s), Some(c)) => {
                return Some(
                    UsermgrCall::CreateUser {
                        username: to_owned_string(u),
                        uid: id,
                        group: to_owned_string(g),
                        shell: to_owned_string(s),
                        gecos: to_owned_string(c),
                        create_home,
                    },
                );
            },
            _ => {
                return None;
            },
        }
    }
    if str_eq(cmd, "/usr/sbin/userdel") {
        if n > 0 {
            return Some(UsermgrCall::DeleteUser { username: to_owned_string(args[0]) });
        }
        return None;
    }
    if (str_eq(cmd, "mkdir") || str_eq(cmd, "/bin/mkdir")) && n > 0 && str_eq(args[0], "-p") {
        if n > 1 {
            return Some(UsermgrCall::Mkdir { path: to_owned_string(args[1]) });
        }
        return None;
    }
    if str_eq(cmd, "chown") || str_eq(cmd, "/usr/bin/chown") {
        if n == 3 && str_eq(args[0], "-R") {
            return Some(
                UsermgrCall::Chown {
                    owner: to_owned_string(args[1]),
                    path: to_owned_string(args[2]),
                    recursive: true,
                },
            );
        } else if n == 2 {
            return Some(
                UsermgrCall::Chown {
                    owner: to_owned_string(args[0]),
                    path: to_owned_string(args[1]),
                    recursive: false,
                },
            );
        }
        return None;
    }
    if (str_eq(cmd, "chmod") || str_eq(cmd, "/usr/bin/chmod")) && n == 2 {
        return Some(
            UsermgrCall::Chmod { mode: to_owned_string(args[0]), path: to_owned_string(args[1]) },
        );
    }
    if (str_eq(cmd, "loginctl") || str_eq(cmd, "/usr/bin/loginctl")) && n == 2 && str_eq(
        args[0],
        "enable-linger",
    ) {
        return Some(UsermgrCall::EnableLinger { username: to_owned_string(args[1]) });
    }
    if str_eq(cmd, "/usr/bin/systemctl") && n == 2 && str_eq(args[0], "start") {
        return match start_user_service_uid(args[1]) {
            Some(uid) => Some(UsermgrCall::StartUserService { uid }),
            None => None,
        };
    }
    None
}

} // verus!

verus! {

/// How a privileged command is run.
#[derive(Debug, Clone, PartialEq, Eq)]
pub enum PrivilegedRoute {
    /// Running as root: execute the command directly.
    Direct,
    /// Send this request to the oqto-usermgr daemon.
    Usermgr(UsermgrCall),
    /// Run the command through `sudo -n`.
    Sudo,
    /// Not root, not handled by the daemon, and sudo disabled.
    Unavailable,
}

/// Run a privileged command via oqto-usermgr daemon (preferred) or sudo
/// fallback: root runs it directly; otherwise the daemon takes what it
/// handles; otherwise sudo when enabled.
pub fn privileged_route(is_root: bool, use_sudo: bool, cmd: &str, args: &[&str]) -> (res:
    PrivilegedRoute)
    ensures
        is_root ==> res == PrivilegedRoute::Direct,
        !is_root ==> match usermgr_call_spec(cmd@, strs_view(args@)) {
            Some(call) => res matches PrivilegedRoute::Usermgr(c) && c@ == call,
            None => res == if use_sudo {
                PrivilegedRoute::Sudo
            } else {
                PrivilegedRoute::Unavailable
            },
        },
{
    if is_root {
        return PrivilegedRoute::Direct;
    }
    match try_usermgr(cmd, args) {
        Some(call) => PrivilegedRoute::Usermgr(call),
        None => if use_sudo {
            PrivilegedRoute::Sudo
        } else {
            PrivilegedRoute::Unavailable
        },
    }
}

/// `K=V` for each environment override.
pub open spec fn env_assignments(env: Seq<(&str, &str)>) -> Seq<Seq<char>> {
    env.map_values(|p: (&str, &str)| p.0@ + "="@ + p.1@)
}

/// The command line that runs `cmd args...` as another user: `runuser` when
/// root, `sudo -n` otherwise, with `env K=V...` in front of the command when
/// there are environment overrides.
pub open spec fn run_as_user_argv_spec(
    is_root: bool,
    username: Seq<char>,
    cmd: Seq<char>,
    args: Seq<Seq<char>>,
    env: Seq<Seq<char>>,
) -> Seq<Seq<char>> {
    let launcher = if is_root {
        seq!["runuser"@, "-u"@, username, "--"@]
    } else {
        seq!["sudo"@, "-n"@, "-u"@, username, "--"@]
    };
    let env_part = if env.len() > 0 {
        seq!["env"@] + env
    } else {
        Seq::<Seq<char>>::empty()
    };
    launcher + env_part + seq![cmd] + args
}

/// The argument vector (program first) of running a command as a specific
/// Linux user. Environment variables are passed with `env VAR=value`
/// because sudo/runuser don't propagate the parent environment.
pub fn run_as_user_argv(
    is_root: bool,
    use_sudo: bool,
    username: &str,
    cmd: &str,
    args: &[&str],
    env: &[(&str, &str)],
) -> (res: Result<Vec<String>, LinuxUserError>)
    ensures
        (!is_root && !use_sudo) ==> res == Err::<Vec<String>, LinuxUserError>(
            LinuxUserError::RunAsUserUnavailable,
        ),
        (is_root || use_sudo) ==> (res matches Ok(v) && args_view(v@) == run_as_user_argv_spec(
            is_root,
            username@,
            cmd@,
            strs_view(args@),
            env_assignments(env@),
        )),
{
    let mut out: Vec<String> = Vec::new();
    if is_root {
        out.push(to_owned_string("runuser"));
        out.push(to_owned_string("-u"));
        out.push(to_owned_string(username));
        out.push(to_owned_string("--"));
    } else if use_sudo {
        out.push(to_owned_string("sudo"));
        out.push(to_owned_string("-n"));
        out.push(to_owned_string("-u"));
        out.push(to_owned_string(username));
        out.push(to_owned_string("--"));
    } else {
        return Err(LinuxUserError::RunAsUserUnavailable);
    }
    let ghost launcher = args_view(out@);
    let ghost envs = env_assignments(env@);
    if env.len() > 0 {
        out.push(to_owned_string("env"));
        let mut k: usize = 0;
        while k < env.len()
            invariant
                k <= env@.len(),
                envs == env_assignments(env@),
                args_view(out@) == launcher + seq!["env"@] + envs.take(k as int),
            decreases env.len() - k,
        {
            let (key, val) = env[k];
            let mut kv = to_owned_string(key);
            push_str(&mut kv, "=");
            push_str(&mut kv, val);
            let ghost old_out = out@;
            out.push(kv);
            assert(env@[k as int] == (key, val));
            assert(envs[k as int] == key@ + "="@ + val@);
            assert(args_view(out@) =~= args_view(old_out).push(kv@));
            assert(envs.take(k + 1) =~= envs.take(k as int).push(envs[k as int]));
            assert(args_view(out@) =~= launcher + seq!["env"@] + envs.take(k + 1));
            k += 1;
        }
        assert(envs.take(env@.len() as int) =~= envs);
    }
    let ghost before_cmd = args_view(out@);
    out.push(to_owned_string(cmd));
    let mut j: usize = 0;
    let ghost av = strs_view(args@);
    while j < args.len()
        invariant
            j <= args@.len(),
            av == strs_view(args@),
            args_view(out@) == before_cmd + seq![cmd@] + av.take(j as int),
        decreases args.len() - j,
    {
        let ghost old_out = out@;
        let aj = to_owned_string(args[j]);
        out.push(aj);
        assert(args_view(out@) =~= args_view(old_out).push(aj@));
        assert(av[j as int] == args@[j as int]@);
        assert(av.take(j + 1) =~= av.take(j as int).push(av[j as int]));
        assert(args_view(out@) =~= before_cmd + seq![cmd@] + av.take(j + 1));
        j += 1;
    }
    proof {
        assert(av.take(args@.len() as int) =~= av);
        let env_part = if envs.len() > 0 {
            seq!["env"@] + envs
        } else {
            Seq::<Seq<char>>::empty()
        };
        assert(before_cmd =~= launcher + env_part);
        assert(args_view(out@) =~= run_as_user_argv_spec(is_root, username@, cmd@, av, envs));
    }
    Ok(out)
}

// ---------------------------------------------------------------------------
// UID allocation
// ---------------------------------------------------------------------------

/// Highest UID handed to managed users (65534 is typically nobody).
pub const UID_MAX: u32 = 60000;

/// The UID in the third field of a passwd line, if it parses.
pub open spec fn line_uid(line: Seq<char>) -> Option<u32> {
    let parts = split_on(line, ':');
    if parts.len() >= 3 {
        parse_u32_spec(parts[2])
    } else {
        None
    }
}

/// Whether some line of `/etc/passwd` content has this UID.
pub open spec fn uid_in_use(passwd: Seq<char>, uid: u32) -> bool {
    exists|k: int| 0 <= k < lines(passwd).len() && line_uid(#[trigger] lines(passwd)[k]) == Some(uid)
}

/// The UIDs that `/etc/passwd` content lists.
pub open spec fn passwd_uids(passwd: Seq<char>) -> Set<u32> {
    Set::new(|uid: u32| uid_in_use(passwd, uid))
}

fn vec_contains_u32(v: &Vec<u32>, x: u32) -> (r: bool)
    ensures
        r == v@.contains(x),
{
    let mut i: usize = 0;
    while i < v.len()
        invariant
            i <= v@.len(),
            forall|j: int| 0 <= j < i ==> v@[j] != x,
        decreases v.len() - i,
    {
        if v[i] == x {
            assert(v@[i as int] == x);
            return true;
        }
        i += 1;
    }
    false
}

impl LinuxUsersConfig {
    /// Find the next available UID starting from `uid_start`, given the
    /// content of `/etc/passwd`: the least UID from `uid_start` to
    /// [`UID_MAX`] that no passwd line lists.
    pub fn next_uid_from_passwd(&self, passwd: &str) -> (res: Result<u32, LinuxUserError>)
        ensures
            match res {
                Ok(uid) => self.uid_start <= uid <= UID_MAX && !uid_in_use(passwd@, uid) && forall|
                    u: u32,
                | self.uid_start <= u < uid ==> uid_in_use(passwd@, u),
                Err(e) => (forall|u: u32| self.uid_start <= u <= UID_MAX ==> uid_in_use(passwd@, u))
                    && (e matches LinuxUserError::NoAvailableUid { start, max, in_use } && start
                    == self.uid_start && max == UID_MAX && in_use == passwd_uids(passwd@).len()),
            },
    {
        let v = chars_of(passwd);
        let lb = line_bounds(&v);
        let ghost ls = lines(passwd@);
        let mut used: Vec<u32> = Vec::new();
        let mut k: usize = 0;
        while k < lb.len()
            invariant
                v@ == passwd@,
                ls == lines(passwd@),
                lb@.len() == ls.len(),
                forall|j: int|
                    0 <= j < lb@.len() ==> {
                        &&& (#[trigger] lb@[j]).0 <= lb@[j].1 <= v@.len()
                        &&& v@.subrange(lb@[j].0 as int, lb@[j].1 as int) == ls[j]
                    },
                k <= lb@.len(),
                used@.no_duplicates(),
                forall|u: u32|
                    used@.contains(u) <==> exists|j: int|
                        0 <= j < k && line_uid(#[trigger] ls[j]) == Some(u),
            decreases lb.len() - k,
        {
            let (a, b) = lb[k];
            let parts = split_bounds(&v, a, b, ':');
            let mut found: Option<u32> = None;
            if parts.len() >= 3 {
                let (c, d) = parts[2];
                found = parse_u32_range(&v, c, d);
            }
            assert(found == line_uid(ls[k as int]));
            let ghost old_used = used@;
            match found {
                Some(u) => {
                    if !vec_contains_u32(&used, u) {
                        used.push(u);
                        proof {
                            assert forall|x: u32| used@.contains(x) <==> (old_used.contains(x) || x == u) by {
                                if used@.contains(x) {
                                    let i = choose|i: int| 0 <= i < used@.len() && used@[i] == x;
                                    if i < old_used.len() {
                                        assert(old_used[i] == x);
                                    }
                                }
                                if old_used.contains(x) {
                                    let i = choose|i: int| 0 <= i < old_used.len() && old_used[i] == x;
                                    assert(used@[i] == x);
                                }
                                if x == u {
                                    assert(used@[used@.len() - 1] == x);
                                }
                            }
                            assert forall|i: int, j: int| 0 <= i < used@.len() && 0 <= j < used@.len() && i != j implies used@[i] != used@[j] by {
                                if i < old_used.len() && j < old_used.len() {
                                } else if i < old_used.len() {
                                    assert(old_used.contains(used@[i]));
                                } else if j < old_used.len() {
                                    assert(old_used.contains(used@[j]));
                                }
                            }
                        }
                    }
                },
                None => {},
            }
            proof {
                assert forall|x: u32|
                    used@.contains(x) <==> exists|j: int|
                        0 <= j < k + 1 && line_uid(#[trigger] ls[j]) == Some(x) by {
                    if used@.contains(x) {
                        if old_used.contains(x) {
                            let j = choose|j: int| 0 <= j < k && line_uid(#[trigger] ls[j]) == Some(x);
                            assert(0 <= j < k + 1 && line_uid(ls[j]) == Some(x));
                        } else {
                            assert(line_uid(ls[k as int]) == Some(x));
                        }
                    }
                    if exists|j: int| 0 <= j < k + 1 && line_uid(#[trigger] ls[j]) == Some(x) {
                        let j = choose|j: int| 0 <= j < k + 1 && line_uid(#[trigger] ls[j]) == Some(x);
                        if j < k {
                            assert(old_used.contains(x));
                        }
                    }
                }
            }
            k += 1;
        }
        proof {
            assert(used@.to_set() =~= passwd_uids(passwd@));
            used@.unique_seq_to_set();
        }
        let mut uid = self.uid_start;
        while uid <= UID_MAX
            invariant
                self.uid_start <= uid,
                forall|u: u32| used@.contains(u) <==> uid_in_use(passwd@, u),
                forall|u: u32| self.uid_start <= u < uid ==> uid_in_use(passwd@, u),
            decreases UID_MAX + 1 - uid,
        {
            if !vec_contains_u32(&used, uid) {
                return Ok(uid);
            }
            uid += 1;
        }
        Err(LinuxUserError::NoAvailableUid { start: self.uid_start, max: UID_MAX, in_use: used.len() })
    }
}

} // verus!

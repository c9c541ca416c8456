//! Shared workspaces: names, slugs, member roles and the USERS.md document.
//!
//! The database, the file system and the Linux user creation stay with the
//! caller; this module decides what they are asked to do.
use vstd::prelude::*;
use vstd::string::StringSliceAdditionalSpecFns;
use vstd::utf8::encode_utf8;
use crate::text::{
    chars_of, ends_with, is_cc, is_control, push_char, push_str, starts_with, str_eq,
    str_starts_with, to_lowercase, to_owned_string, trim, trim_str, trimmed, lowercase, all_ascii, ascii_lower,
    trim_start, trim_end,
};

verus! {

// ---------------------------------------------------------------------------
// Roles
// ---------------------------------------------------------------------------

/// Role of a member in a shared workspace. There is one owner.
#[derive(Debug, Clone, Copy, PartialEq, Eq, Structural)]
pub enum MemberRole {
    Owner,
    Admin,
    Member,
}

/// The name of a role as it is shown and stored.
pub open spec fn role_name(r: MemberRole) -> Seq<char> {
    match r {
        MemberRole::Owner => "owner"@,
        MemberRole::Admin => "admin"@,
        MemberRole::Member => "member"@,
    }
}

impl MemberRole {
    /// The name of the role: `owner`, `admin` or `member`.
    pub fn as_str(&self) -> (r: &'static str)
        ensures
            r@ == role_name(*self),
    {
        match self {
            MemberRole::Owner => "owner",
            MemberRole::Admin => "admin",
            MemberRole::Member => "member",
        }
    }

    /// The name of the role as an owned string.
    pub fn to_string(&self) -> (r: String)
        ensures
            r@ == role_name(*self),
    {
        to_owned_string(self.as_str())
    }

    /// Owners and admins manage members and update the workspace.
    pub fn can_manage_members(&self) -> (r: bool)
        ensures
            r == (*self == MemberRole::Owner || *self == MemberRole::Admin),
    {
        match self {
            MemberRole::Owner | MemberRole::Admin => true,
            MemberRole::Member => false,
        }
    }

    /// Only the owner deletes the workspace.
    pub fn can_delete_workspace(&self) -> (r: bool)
        ensures
            r == (*self == MemberRole::Owner),
    {
        match self {
            MemberRole::Owner => true,
            _ => false,
        }
    }

    /// Every member may add workdirs.
    pub fn can_write(&self) -> (r: bool)
        ensures
            r,
    {
        true
    }
}

/// A member as listed for a workspace.
#[derive(Debug, Clone)]
pub struct SharedWorkspaceMemberInfo {
    pub user_id: String,
    pub username: String,
    pub display_name: String,
    pub avatar_url: Option<String>,
    pub role: MemberRole,
    pub added_at: String,
}

/// Why a shared workspace operation is refused.
#[derive(Debug, Clone, Copy, PartialEq, Eq, Structural)]
pub enum SharedWorkspaceError {
    /// The caller's role does not allow the operation.
    InsufficientPermissions,
    /// Nobody is added as owner: there is one owner.
    CannotAddOwner,
    /// Only the owner adds or promotes admins.
    OnlyOwnerManagesAdmins,
    /// The owner's role does not change.
    CannotChangeOwnerRole,
    /// Nobody is made owner by a role change.
    CannotSetOwnerRole,
    /// The owner is not removed.
    CannotRemoveOwner,
    /// Only the owner transfers ownership.
    OnlyOwnerTransfers,
    /// The workspace name is empty after trimming.
    EmptyName,
    /// The workspace name is longer than 64 bytes.
    NameTooLong,
    /// The workdir name is empty after trimming.
    EmptyWorkdirName,
    /// The workdir name is `.` or `..`.
    InvalidWorkdirName,
    /// The workdir name holds `/` or `\`.
    WorkdirNameHasSeparator,
    /// The source path of a workdir is blank.
    EmptySourcePath,
    /// The source path has no last component to name the workdir by.
    SourceHasNoName,
}

// ---------------------------------------------------------------------------
// Permission rules
// ---------------------------------------------------------------------------

/// Whether `caller` may update the workspace's name and description.
pub fn check_update(caller: MemberRole) -> (r: Result<(), SharedWorkspaceError>)
    ensures
        r is Ok <==> (caller == MemberRole::Owner || caller == MemberRole::Admin),
        r is Err ==> r == Err::<(), _>(SharedWorkspaceError::InsufficientPermissions),
{
    if !caller.can_manage_members() {
        return Err(SharedWorkspaceError::InsufficientPermissions);
    }
    Ok(())
}

/// Whether `caller` may delete the workspace.
pub fn check_delete(caller: MemberRole) -> (r: Result<(), SharedWorkspaceError>)
    ensures
        r is Ok <==> caller == MemberRole::Owner,
        r is Err ==> r == Err::<(), _>(SharedWorkspaceError::InsufficientPermissions),
{
    if !caller.can_delete_workspace() {
        return Err(SharedWorkspaceError::InsufficientPermissions);
    }
    Ok(())
}

/// The verdict on adding a member with role `role`, asked by `caller`.
pub open spec fn add_member_verdict(caller: MemberRole, role: MemberRole) -> Result<
    (),
    SharedWorkspaceError,
> {
    if !(caller == MemberRole::Owner || caller == MemberRole::Admin) {
        Err(SharedWorkspaceError::InsufficientPermissions)
    } else if role == MemberRole::Owner {
        Err(SharedWorkspaceError::CannotAddOwner)
    } else if role == MemberRole::Admin && caller != MemberRole::Owner {
        Err(SharedWorkspaceError::OnlyOwnerManagesAdmins)
    } else {
        Ok(())
    }
}

/// Whether `caller` may add a member with role `role`.
pub fn check_add_member(caller: MemberRole, role: MemberRole) -> (r: Result<(), SharedWorkspaceError>)
    ensures
        r == add_member_verdict(caller, role),
{
    if !caller.can_manage_members() {
        return Err(SharedWorkspaceError::InsufficientPermissions);
    }
    if role == MemberRole::Owner {
        return Err(SharedWorkspaceError::CannotAddOwner);
    }
    if role == MemberRole::Admin && caller != MemberRole::Owner {
        return Err(SharedWorkspaceError::OnlyOwnerManagesAdmins);
    }
    Ok(())
}

/// The verdict on changing `target`'s role to `new_role`, asked by `caller`.
pub open spec fn update_role_verdict(
    caller: MemberRole,
    target: MemberRole,
    new_role: MemberRole,
) -> Result<(), SharedWorkspaceError> {
    if !(caller == MemberRole::Owner || caller == MemberRole::Admin) {
        Err(SharedWorkspaceError::InsufficientPermissions)
    } else if target == MemberRole::Owner {
        Err(SharedWorkspaceError::CannotChangeOwnerRole)
    } else if new_role == MemberRole::Owner {
        Err(SharedWorkspaceError::CannotSetOwnerRole)
    } else if new_role == MemberRole::Admin && caller != MemberRole::Owner {
        Err(SharedWorkspaceError::OnlyOwnerManagesAdmins)
    } else {
        Ok(())
    }
}

/// Whether `caller` may change the role of a member whose role is `target`
/// to `new_role`.
pub fn check_update_member_role(caller: MemberRole, target: MemberRole, new_role: MemberRole) -> (r:
    Result<(), SharedWorkspaceError>)
    ensures
        r == update_role_verdict(caller, target, new_role),
{
    if !caller.can_manage_members() {
        return Err(SharedWorkspaceError::InsufficientPermissions);
    }
    if target == MemberRole::Owner {
        return Err(SharedWorkspaceError::CannotChangeOwnerRole);
    }
    if new_role == MemberRole::Owner {
        return Err(SharedWorkspaceError::CannotSetOwnerRole);
    }
    if new_role == MemberRole::Admin && caller != MemberRole::Owner {
        return Err(SharedWorkspaceError::OnlyOwnerManagesAdmins);
    }
    Ok(())
}

/// The verdict on removing a member whose role is `target`; `is_self` is
/// whether the caller removes themselves.
pub open spec fn remove_member_verdict(caller: MemberRole, target: MemberRole, is_self: bool) -> Result<
    (),
    SharedWorkspaceError,
> {
    if target == MemberRole::Owner {
        Err(SharedWorkspaceError::CannotRemoveOwner)
    } else if !is_self && !(caller == MemberRole::Owner || caller == MemberRole::Admin) {
        Err(SharedWorkspaceError::InsufficientPermissions)
    } else if target == MemberRole::Admin && caller != MemberRole::Owner && !is_self {
        Err(SharedWorkspaceError::OnlyOwnerManagesAdmins)
    } else {
        Ok(())
    }
}

/// Whether `caller_id`, whose role is `caller`, may remove `target_id`,
/// whose role is `target`. A member may remove themselves; admins cannot
/// remove other admins, only the owner can.
pub fn check_remove_member(
    caller_id: &str,
    caller: MemberRole,
    target_id: &str,
    target: MemberRole,
) -> (r: Result<(), SharedWorkspaceError>)
    ensures
        r == remove_member_verdict(caller, target, caller_id@ == target_id@),
{
    if target == MemberRole::Owner {
        return Err(SharedWorkspaceError::CannotRemoveOwner);
    }
    if !str_eq(target_id, caller_id) && !caller.can_manage_members() {
        return Err(SharedWorkspaceError::InsufficientPermissions);
    }
    if target == MemberRole::Admin && caller != MemberRole::Owner && !str_eq(target_id, caller_id) {
        return Err(SharedWorkspaceError::OnlyOwnerManagesAdmins);
    }
    Ok(())
}

/// Whether `caller` may hand the workspace to another member.
pub fn check_transfer_ownership(caller: MemberRole) -> (r: Result<(), SharedWorkspaceError>)
    ensures
        r is Ok <==> caller == MemberRole::Owner,
        r is Err ==> r == Err::<(), _>(SharedWorkspaceError::OnlyOwnerTransfers),
{
    if caller != MemberRole::Owner {
        return Err(SharedWorkspaceError::OnlyOwnerTransfers);
    }
    Ok(())
}

/// The owner stays the owner: no member operation that is allowed adds an
/// owner, makes someone owner, or changes or removes the owner; and only the
/// owner gives the admin role or takes it away from another member (an
/// admin may still leave).
pub proof fn law_single_owner(caller: MemberRole, target: MemberRole, new_role: MemberRole, is_self: bool)
    ensures
        add_member_verdict(caller, new_role) is Ok ==> new_role != MemberRole::Owner,
        update_role_verdict(caller, target, new_role) is Ok ==> target != MemberRole::Owner
            && new_role != MemberRole::Owner,
        remove_member_verdict(caller, target, is_self) is Ok ==> target != MemberRole::Owner,
        add_member_verdict(caller, MemberRole::Admin) is Ok ==> caller == MemberRole::Owner,
        update_role_verdict(caller, target, MemberRole::Admin) is Ok ==> caller == MemberRole::Owner,
        remove_member_verdict(caller, MemberRole::Admin, is_self) is Ok && !is_self ==> caller
            == MemberRole::Owner,
        caller != MemberRole::Owner && caller != MemberRole::Member ==> remove_member_verdict(
            caller,
            caller,
            true,
        ) is Ok,
{
}

/// Who may give which role: the owner may make any member other than the
/// owner an admin or a plain member; an admin may only make a non-owner a
/// plain member; a plain member changes no role. Nobody is made owner and
/// the owner's role never changes.
pub proof fn law_role_changes(target: MemberRole, new_role: MemberRole)
    ensures
        update_role_verdict(MemberRole::Owner, target, new_role) is Ok <==> (target != MemberRole::Owner
            && new_role != MemberRole::Owner),
        update_role_verdict(MemberRole::Admin, target, new_role) is Ok <==> (target != MemberRole::Owner
            && new_role == MemberRole::Member),
        update_role_verdict(MemberRole::Member, target, new_role) is Err,
        update_role_verdict(MemberRole::Member, target, new_role) == Err::<(), SharedWorkspaceError>(
            SharedWorkspaceError::InsufficientPermissions,
        ),
        update_role_verdict(MemberRole::Admin, MemberRole::Owner, new_role) == Err::<(), SharedWorkspaceError>(
            SharedWorkspaceError::CannotChangeOwnerRole,
        ),
        target != MemberRole::Owner ==> update_role_verdict(MemberRole::Owner, target, MemberRole::Owner) == Err::<
            (),
            SharedWorkspaceError,
        >(SharedWorkspaceError::CannotSetOwnerRole),
        target != MemberRole::Owner ==> update_role_verdict(MemberRole::Admin, target, MemberRole::Admin) == Err::<
            (),
            SharedWorkspaceError,
        >(SharedWorkspaceError::OnlyOwnerManagesAdmins),
{
}

/// Who may add whom: the owner adds admins and plain members, an admin
/// only plain members, a plain member nobody; nobody is added as owner.
pub proof fn law_member_additions(role: MemberRole)
    ensures
        add_member_verdict(MemberRole::Owner, role) is Ok <==> role != MemberRole::Owner,
        add_member_verdict(MemberRole::Admin, role) is Ok <==> role == MemberRole::Member,
        add_member_verdict(MemberRole::Member, role) == Err::<(), SharedWorkspaceError>(
            SharedWorkspaceError::InsufficientPermissions,
        ),
        add_member_verdict(MemberRole::Owner, MemberRole::Owner) == Err::<(), SharedWorkspaceError>(
            SharedWorkspaceError::CannotAddOwner,
        ),
        add_member_verdict(MemberRole::Admin, MemberRole::Admin) == Err::<(), SharedWorkspaceError>(
            SharedWorkspaceError::OnlyOwnerManagesAdmins,
        ),
{
}

/// Who may remove whom: nobody removes the owner; the owner removes any
/// other member; an admin removes plain members and themselves; a plain
/// member only themselves (`is_self` means the caller is the target).
pub proof fn law_member_removals(target: MemberRole, is_self: bool)
    ensures
        remove_member_verdict(MemberRole::Owner, target, is_self) is Ok <==> target != MemberRole::Owner,
        remove_member_verdict(MemberRole::Admin, target, is_self) is Ok <==> (target == MemberRole::Member || (
        target == MemberRole::Admin && is_self)),
        remove_member_verdict(MemberRole::Member, target, is_self) is Ok <==> (is_self && target
            != MemberRole::Owner),
        remove_member_verdict(MemberRole::Member, target, false) == (if target == MemberRole::Owner {
            Err::<(), SharedWorkspaceError>(SharedWorkspaceError::CannotRemoveOwner)
        } else {
            Err::<(), SharedWorkspaceError>(SharedWorkspaceError::InsufficientPermissions)
        }),
        remove_member_verdict(MemberRole::Admin, MemberRole::Owner, is_self) == Err::<(), SharedWorkspaceError>(
            SharedWorkspaceError::CannotRemoveOwner,
        ),
{
}

/// A plain member never changes anyone's membership but their own.
pub proof fn law_members_only_leave(target: MemberRole, new_role: MemberRole)
    ensures
        add_member_verdict(MemberRole::Member, new_role) is Err,
        update_role_verdict(MemberRole::Member, target, new_role) is Err,
        remove_member_verdict(MemberRole::Member, target, false) is Err,
        remove_member_verdict(MemberRole::Member, MemberRole::Member, true) is Ok,
{
}

// ---------------------------------------------------------------------------
// Names, slugs and paths
// ---------------------------------------------------------------------------

/// What `str::len` gives for a string: the length of its UTF-8 encoding.
pub open spec fn byte_len(s: Seq<char>) -> usize {
    encode_utf8(s).len() as usize
}

/// Check a workspace name: trimmed, it is not empty and has at most 64 bytes.
/// Returns the trimmed name.
pub fn validate_workspace_name(name: &str) -> (r: Result<&str, SharedWorkspaceError>)
    ensures
        match r {
            Ok(t) => t@ == trim(name@) && t@.len() > 0 && byte_len(t@) <= 64,
            Err(e) => (trim(name@).len() == 0 && e == SharedWorkspaceError::EmptyName) || (
            trim(name@).len() > 0 && byte_len(trim(name@)) > 64 && e
                == SharedWorkspaceError::NameTooLong),
        },
{
    let t = trim_str(name);
    if t.is_empty() {
        return Err(SharedWorkspaceError::EmptyName);
    }
    if t.len() > 64 {
        return Err(SharedWorkspaceError::NameTooLong);
    }
    Ok(t)
}

/// Check the name of a workdir inside a shared workspace.
pub fn validate_workdir_name(name: &str) -> (r: Result<(), SharedWorkspaceError>)
    ensures
        match r {
            Ok(_) => {
                &&& trim(name@).len() > 0
                &&& trim(name@) != "."@ && trim(name@) != ".."@
                &&& !trim(name@).contains('/') && !trim(name@).contains('\\')
            },
            Err(e) => {
                ||| trim(name@).len() == 0 && e == SharedWorkspaceError::EmptyWorkdirName
                ||| trim(name@).len() > 0 && (trim(name@) == "."@ || trim(name@) == ".."@) && e
                    == SharedWorkspaceError::InvalidWorkdirName
                ||| trim(name@).len() > 0 && trim(name@) != "."@ && trim(name@) != ".."@ && (trim(
                    name@,
                ).contains('/') || trim(name@).contains('\\')) && e
                    == SharedWorkspaceError::WorkdirNameHasSeparator
            },
        },
{
    let t = trim_str(name);
    if t.is_empty() {
        return Err(SharedWorkspaceError::EmptyWorkdirName);
    }
    if str_eq(t, ".") || str_eq(t, "..") {
        return Err(SharedWorkspaceError::InvalidWorkdirName);
    }
    let v = chars_of(t);
    let mut i: usize = 0;
    while i < v.len()
        invariant
            v@ == t@,
            t@ == trim(name@),
            t@.len() > 0,
            t@ != "."@ && t@ != ".."@,
            0 <= i <= v@.len(),
            forall|j: int| 0 <= j < i ==> v@[j] != '/' && v@[j] != '\\',
        decreases v.len() - i,
    {
        if v[i] == '/' || v[i] == '\\' {
            proof {
                if v@[i as int] == '/' {
                    assert(t@.contains('/'));
                } else {
                    assert(t@.contains('\\'));
                }
            }
            return Err(SharedWorkspaceError::WorkdirNameHasSeparator);
        }
        i += 1;
    }
    Ok(())
}

/// Whether a color is `#` and six more bytes.
pub fn is_valid_color(c: &str) -> (r: bool)
    ensures
        r == (c@.len() > 0 && c@[0] == '#' && byte_len(c@) == 7),
{
    let v = chars_of(c);
    v.len() > 0 && v[0] == '#' && c.len() == 7
}

/// A character that a slug keeps.
pub open spec fn is_slug_char(c: char) -> bool {
    ('a' <= c && c <= 'z') || ('0' <= c && c <= '9')
}

/// Every character that is not a lowercase ASCII letter or digit becomes `-`.
pub open spec fn slug_map(s: Seq<char>) -> Seq<char> {
    s.map_values(|c: char| if is_slug_char(c) { c } else { '-' })
}

/// Runs of `-` collapse to one, and no `-` starts the result.
pub open spec fn collapse_hyphens(s: Seq<char>) -> Seq<char>
    decreases s.len(),
{
    if s.len() == 0 {
        s
    } else {
        let prev = collapse_hyphens(s.drop_last());
        if s.last() != '-' {
            prev.push(s.last())
        } else if prev.len() == 0 || (s.len() >= 2 && s[s.len() - 2] == '-') {
            prev
        } else {
            prev.push('-')
        }
    }
}

/// `trim_end_matches('-')`.
pub open spec fn trim_end_hyphens(s: Seq<char>) -> Seq<char>
    decreases s.len(),
{
    if s.len() > 0 && s.last() == '-' {
        trim_end_hyphens(s.drop_last())
    } else {
        s
    }
}

/// The slug of a workspace name: the trimmed name in Unicode lowercase, each
/// character outside `a-z0-9` turned into `-`, runs of `-` collapsed, no
/// `-` at either end; `workspace` where nothing is left.
pub open spec fn slug_of(name: Seq<char>) -> Seq<char> {
    let core = trim_end_hyphens(collapse_hyphens(slug_map(lowercase(trim(name)))));
    if core.len() == 0 {
        "workspace"@
    } else {
        core
    }
}

/// What a well-formed slug looks like: not empty, only `a-z`, `0-9` and
/// `-`, no `-` at either end and no two in a row.
pub open spec fn well_formed_slug(s: Seq<char>) -> bool {
    &&& s.len() > 0
    &&& forall|i: int| 0 <= i < s.len() ==> is_slug_char(#[trigger] s[i]) || s[i] == '-'
    &&& s[0] != '-'
    &&& s.last() != '-'
    &&& forall|i: int| 0 <= i < s.len() - 1 ==> !(#[trigger] s[i] == '-' && s[i + 1] == '-')
}

proof fn lemma_collapse_shape(s: Seq<char>)
    requires
        forall|i: int| 0 <= i < s.len() ==> is_slug_char(#[trigger] s[i]) || s[i] == '-',
    ensures
        ({
            let c = collapse_hyphens(s);
            &&& forall|i: int| 0 <= i < c.len() ==> is_slug_char(#[trigger] c[i]) || c[i] == '-'
            &&& c.len() > 0 ==> c[0] != '-'
            &&& forall|i: int| 0 <= i < c.len() - 1 ==> !(#[trigger] c[i] == '-' && c[i + 1] == '-')
            &&& (c.len() > 0 && c.last() == '-') ==> (s.len() > 0 && s.last() == '-')
        }),
    decreases s.len(),
{
    if s.len() > 0 {
        let p = s.drop_last();
        assert forall|i: int| 0 <= i < p.len() implies is_slug_char(#[trigger] p[i]) || p[i]
            == '-' by {
            assert(p[i] == s[i]);
        }
        lemma_collapse_shape(p);
        let prev = collapse_hyphens(p);
        let c = collapse_hyphens(s);
        if s.last() != '-' {
            assert(c == prev.push(s.last()));
            assert forall|i: int| 0 <= i < c.len() - 1 implies !(#[trigger] c[i] == '-' && c[i + 1]
                == '-') by {
                if i < prev.len() - 1 {
                    assert(c[i] == prev[i] && c[i + 1] == prev[i + 1]);
                }
            }
        } else if prev.len() == 0 || (s.len() >= 2 && s[s.len() - 2] == '-') {
            assert(c == prev);
        } else {
            assert(c == prev.push('-'));
            // The last character of `prev` is not `-`: had it been, the last
            // character of `p` would be `-` too.
            assert(p.last() == s[s.len() - 2]);
            assert forall|i: int| 0 <= i < c.len() - 1 implies !(#[trigger] c[i] == '-' && c[i + 1]
                == '-') by {
                if i < prev.len() - 1 {
                    assert(c[i] == prev[i] && c[i + 1] == prev[i + 1]);
                } else {
                    assert(c[i] == prev.last());
                }
            }
        }
    }
}

proof fn lemma_trim_end_hyphens_shape(s: Seq<char>)
    requires
        forall|i: int| 0 <= i < s.len() ==> is_slug_char(#[trigger] s[i]) || s[i] == '-',
        s.len() > 0 ==> s[0] != '-',
        forall|i: int| 0 <= i < s.len() - 1 ==> !(#[trigger] s[i] == '-' && s[i + 1] == '-'),
    ensures
        trim_end_hyphens(s).len() > 0 ==> well_formed_slug(trim_end_hyphens(s)),
    decreases s.len(),
{
    if s.len() > 0 && s.last() == '-' {
        let p = s.drop_last();
        assert forall|i: int| 0 <= i < p.len() implies is_slug_char(#[trigger] p[i]) || p[i]
            == '-' by {
            assert(p[i] == s[i]);
        }
        assert forall|i: int| 0 <= i < p.len() - 1 implies !(#[trigger] p[i] == '-' && p[i + 1]
            == '-') by {
            assert(p[i] == s[i] && p[i + 1] == s[i + 1]);
        }
        lemma_trim_end_hyphens_shape(p);
    }
}

/// Every slug is well formed, whatever the name.
pub proof fn law_slug_well_formed(name: Seq<char>)
    ensures
        well_formed_slug(slug_of(name)),
{
    let m = slug_map(lowercase(trim(name)));
    assert forall|i: int| 0 <= i < m.len() implies is_slug_char(#[trigger] m[i]) || m[i]
        == '-' by {}
    lemma_collapse_shape(m);
    lemma_trim_end_hyphens_shape(collapse_hyphens(m));
    let core = trim_end_hyphens(collapse_hyphens(m));
    if core.len() == 0 {
        reveal_strlit("workspace");
        assert(is_slug_char("workspace"@[0]));
    }
}

proof fn lemma_collapse_identity(s: Seq<char>)
    requires
        well_formed_slug(s) || s.len() == 0 || (forall|i: int| 0 <= i < s.len() ==> is_slug_char(#[trigger] s[i])
            || s[i] == '-') && s[0] != '-' && forall|i: int| 0 <= i < s.len() - 1 ==> !(#[trigger] s[i] == '-' && s[i
            + 1] == '-'),
    ensures
        collapse_hyphens(s) == s,
    decreases s.len(),
{
    if s.len() > 0 {
        let p = s.drop_last();
        assert(p.len() == 0 || (forall|i: int| 0 <= i < p.len() ==> is_slug_char(#[trigger] p[i]) || p[i] == '-')
            && p[0] != '-' && forall|i: int| 0 <= i < p.len() - 1 ==> !(#[trigger] p[i] == '-' && p[i + 1] == '-'))
            by {
            if p.len() > 0 {
                assert(p[0] == s[0]);
                assert forall|i: int| 0 <= i < p.len() implies is_slug_char(#[trigger] p[i]) || p[i] == '-' by {
                    assert(p[i] == s[i]);
                }
                assert forall|i: int| 0 <= i < p.len() - 1 implies !(#[trigger] p[i] == '-' && p[i + 1] == '-') by {
                    assert(p[i] == s[i] && p[i + 1] == s[i + 1]);
                }
            }
        }
        lemma_collapse_identity(p);
        if s.last() == '-' {
            assert(s.len() >= 2) by {
                if s.len() == 1 {
                    assert(s[0] == s.last());
                }
            }
            assert(s[s.len() - 2] != '-');
            assert(p.len() > 0);
        }
        assert(p.push(s.last()) =~= s);
    }
}

/// A slug is its own slug: slugifying twice gives what slugifying once
/// gives.
pub proof fn law_slug_idempotent(name: Seq<char>)
    ensures
        slug_of(slug_of(name)) == slug_of(name),
{
    law_slug_well_formed(name);
    let s = slug_of(name);
    assert(trim_start(s) == s);
    assert(trim_end(s) == s);
    assert(trim(s) == s);
    assert(all_ascii(s)) by {
        assert forall|i: int| 0 <= i < s.len() implies (#[trigger] s[i] as u32) < 128 by {
            assert(is_slug_char(s[i]) || s[i] == '-');
        }
    }
    assert(lowercase(s) =~= s) by {
        assert forall|i: int| 0 <= i < s.len() implies ascii_lower(s[i]) == s[i] by {
            assert(is_slug_char(s[i]) || s[i] == '-');
        }
    }
    assert(slug_map(s) =~= s) by {
        assert forall|i: int| 0 <= i < s.len() implies (if is_slug_char(s[i]) { s[i] } else { '-' }) == s[i] by {
            assert(is_slug_char(s[i]) || s[i] == '-');
        }
    }
    lemma_collapse_identity(s);
    assert(trim_end_hyphens(s) == s);
}

/// Generate a slug from a workspace name.
pub fn slugify(name: &str) -> (res: String)
    ensures
        res@ == slug_of(name@),
{
    let lowered = to_lowercase(trim_str(name));
    let v = chars_of(lowered.as_str());
    let ghost m = slug_map(v@);
    let mut result = String::new();
    let mut prev_hyphen = false;
    let mut i: usize = 0;
    while i < v.len()
        invariant
            m == slug_map(v@),
            0 <= i <= v@.len(),
            result@ == collapse_hyphens(m.take(i as int)),
            prev_hyphen == (i > 0 && m[i - 1] == '-'),
        decreases v.len() - i,
    {
        let c = v[i];
        let mapped = if ('a' <= c && c <= 'z') || ('0' <= c && c <= '9') {
            c
        } else {
            '-'
        };
        proof {
            let t = m.take(i + 1);
            assert(t.drop_last() =~= m.take(i as int));
            assert(t.last() == mapped);
            if i > 0 {
                assert(t[t.len() - 2] == m[i - 1]);
            }
        }
        if mapped == '-' {
            if !prev_hyphen && !result.as_str().is_empty() {
                push_char(&mut result, '-');
            }
            prev_hyphen = true;
        } else {
            push_char(&mut result, mapped);
            prev_hyphen = false;
        }
        i += 1;
    }
    assert(m.take(v@.len() as int) =~= m);
    let mut w = chars_of(result.as_str());
    while w.len() > 0 && w[w.len() - 1] == '-'
        invariant
            trim_end_hyphens(collapse_hyphens(m)) == trim_end_hyphens(w@),
        decreases w.len(),
    {
        w.pop();
    }
    if w.len() == 0 {
        to_owned_string("workspace")
    } else {
        crate::text::string_from_chars(&w)
    }
}

/// Whether `path` is the workspace directory `root` or lies inside it.
pub open spec fn path_in_workspace(path: Seq<char>, root: Seq<char>) -> bool {
    path == root || starts_with(path, root + seq!['/'])
}

/// Whether `path` is `root` or below it.
pub fn is_path_in_workspace(path: &str, root: &str) -> (r: bool)
    ensures
        r == path_in_workspace(path@, root@),
{
    if str_eq(path, root) {
        return true;
    }
    let mut prefix = to_owned_string(root);
    push_char(&mut prefix, '/');
    assert(prefix@ =~= root@ + seq!['/']);
    str_starts_with(path, prefix.as_str())
}

/// The index of the first workspace, among those whose directories are
/// `roots`, that holds `path`.
pub fn find_workspace_for_path(path: &str, roots: &Vec<String>) -> (r: Option<usize>)
    ensures
        match r {
            Some(k) => k < roots@.len() && path_in_workspace(path@, roots@[k as int]@) && forall|
                j: int,
            | 0 <= j < k ==> !path_in_workspace(path@, #[trigger] roots@[j]@),
            None => forall|j: int|
                0 <= j < roots@.len() ==> !path_in_workspace(path@, #[trigger] roots@[j]@),
        },
{
    let mut k: usize = 0;
    while k < roots.len()
        invariant
            0 <= k <= roots@.len(),
            forall|j: int| 0 <= j < k ==> !path_in_workspace(path@, #[trigger] roots@[j]@),
        decreases roots.len() - k,
    {
        if is_path_in_workspace(path, roots[k].as_str()) {
            return Some(k);
        }
        k += 1;
    }
    None
}

/// Where a shared workspace lives: its Linux user, that user's home, and
/// the workspace root.
pub struct SharedWorkspaceLayout {
    pub linux_user: String,
    pub home: String,
    pub path: String,
}

/// The layout of the shared workspace with slug `slug`:
/// `oqto_shared_<slug>`, `/home/oqto_shared_<slug>`, and `<home>/oqto`.
pub fn workspace_layout(slug: &str) -> (r: SharedWorkspaceLayout)
    ensures
        r.linux_user@ == "oqto_shared_"@ + slug@,
        r.home@ == "/home/"@ + r.linux_user@,
        r.path@ == r.home@ + "/oqto"@,
{
    let mut linux_user = to_owned_string("oqto_shared_");
    push_str(&mut linux_user, slug);
    let mut home = to_owned_string("/home/");
    push_str(&mut home, linux_user.as_str());
    let mut path = to_owned_string(home.as_str());
    push_str(&mut path, "/oqto");
    SharedWorkspaceLayout { linux_user, home, path }
}

/// The name a workdir copied from `source` gets: the requested name,
/// trimmed, when it is not blank; otherwise the source directory's own
/// name (`source_dir_name`, the last component of the source path, as the
/// caller read it).
pub open spec fn workdir_name_choice(requested: Option<Seq<char>>, source_dir_name: Option<Seq<char>>) -> Option<
    Seq<char>,
> {
    if requested is Some && trim(requested->0).len() > 0 {
        Some(trim(requested->0))
    } else {
        source_dir_name
    }
}

/// Picks and checks the name of a workdir added from a source directory.
/// The source path must not be blank; the name is the requested one or the
/// source directory's, and must pass [`validate_workdir_name`].
pub fn choose_workdir_name(source_path: &str, requested: Option<&str>, source_dir_name: Option<&str>) -> (r: Result<
    String,
    SharedWorkspaceError,
>)
    ensures
        ({
            let choice = workdir_name_choice(
                match requested {
                    Some(x) => Some(x@),
                    None => None,
                },
                match source_dir_name {
                    Some(x) => Some(x@),
                    None => None,
                },
            );
            match r {
                Ok(name) => trim(source_path@).len() > 0 && choice == Some(name@) && trim(name@).len() > 0
                    && trim(name@) != "."@ && trim(name@) != ".."@ && !trim(name@).contains('/') && !trim(
                    name@,
                ).contains('\\'),
                Err(e) => trim(source_path@).len() == 0 && e == SharedWorkspaceError::EmptySourcePath || trim(
                    source_path@,
                ).len() > 0 && choice is None && e == SharedWorkspaceError::SourceHasNoName || trim(
                    source_path@,
                ).len() > 0 && choice is Some && validate_workdir_name_fails(choice->0, e),
            }
        }),
{
    let source = trim_str(source_path);
    if source.is_empty() {
        return Err(SharedWorkspaceError::EmptySourcePath);
    }
    let name: String = match requested {
        Some(n) => {
            let t = trimmed(n);
            if !t.as_str().is_empty() {
                t
            } else {
                match source_dir_name {
                    Some(d) => to_owned_string(d),
                    None => return Err(SharedWorkspaceError::SourceHasNoName),
                }
            }
        },
        None => match source_dir_name {
            Some(d) => to_owned_string(d),
            None => return Err(SharedWorkspaceError::SourceHasNoName),
        },
    };
    match validate_workdir_name(name.as_str()) {
        Ok(()) => Ok(name),
        Err(e) => Err(e),
    }
}

/// Whether [`validate_workdir_name`] refuses `name` with `e`.
pub open spec fn validate_workdir_name_fails(name: Seq<char>, e: SharedWorkspaceError) -> bool {
    ||| trim(name).len() == 0 && e == SharedWorkspaceError::EmptyWorkdirName
    ||| trim(name).len() > 0 && (trim(name) == "."@ || trim(name) == ".."@) && e
        == SharedWorkspaceError::InvalidWorkdirName
    ||| trim(name).len() > 0 && trim(name) != "."@ && trim(name) != ".."@ && (trim(name).contains('/') || trim(
        name,
    ).contains('\\')) && e == SharedWorkspaceError::WorkdirNameHasSeparator
}

/// The members added when a workspace is created, besides its creator
/// (who becomes owner): the requested ones other than the creator, in
/// order.
pub open spec fn initial_members_spec(creator_id: Seq<char>, member_ids: Seq<Seq<char>>) -> Seq<Seq<char>>
    decreases member_ids.len(),
{
    if member_ids.len() == 0 {
        Seq::<Seq<char>>::empty()
    } else if member_ids.last() == creator_id {
        initial_members_spec(creator_id, member_ids.drop_last())
    } else {
        initial_members_spec(creator_id, member_ids.drop_last()).push(member_ids.last())
    }
}

/// The requested members of a new workspace other than its creator.
pub fn initial_members(creator_id: &str, member_ids: &Vec<String>) -> (r: Vec<String>)
    ensures
        r@.map_values(|x: String| x@) == initial_members_spec(creator_id@, member_ids@.map_values(|x: String| x@)),
{
    let ghost ids = member_ids@.map_values(|x: String| x@);
    let mut r: Vec<String> = Vec::new();
    let mut i: usize = 0;
    while i < member_ids.len()
        invariant
            0 <= i <= member_ids@.len(),
            ids == member_ids@.map_values(|x: String| x@),
            r@.map_values(|x: String| x@) == initial_members_spec(creator_id@, ids.take(i as int)),
        decreases member_ids.len() - i,
    {
        assert(ids.take(i + 1).drop_last() == ids.take(i as int));
        assert(ids.take(i + 1).last() == member_ids@[i as int]@);
        if !str_eq(member_ids[i].as_str(), creator_id) {
            let ghost before = r@;
            r.push(to_owned_string(member_ids[i].as_str()));
            assert(r@.map_values(|x: String| x@) =~= before.map_values(|x: String| x@).push(member_ids@[i as int]@)) by {
                assert(r@ == before.push(r@.last()));
            }
        }
        i = i + 1;
    }
    assert(ids.take(member_ids@.len() as int) == ids);
    r
}

/// The destination of a workdir `name` in the workspace at `root`.
pub fn workdir_path(root: &str, name: &str) -> (r: String)
    ensures
        r@ == root@ + seq!['/'] + name@,
{
    let mut r = to_owned_string(root);
    push_char(&mut r, '/');
    push_str(&mut r, name);
    r
}

/// The GECOS comment of a shared workspace's Linux user.
pub fn shared_user_gecos(username: &str) -> (r: String)
    ensures
        r@ == "Oqto platform user shared workspace "@ + username@,
{
    let mut r = to_owned_string("Oqto platform user shared workspace ");
    push_str(&mut r, username);
    r
}

// ---------------------------------------------------------------------------
// Display names in prompts
// ---------------------------------------------------------------------------

/// A character kept in a display name: no brackets, no control characters.
pub open spec fn display_char(c: char) -> bool {
    c != '[' && c != ']' && !is_cc(c)
}

/// The characters of `s` that `display_char` keeps, in order.
pub open spec fn keep_display_chars(s: Seq<char>) -> Seq<char>
    decreases s.len(),
{
    if s.len() == 0 {
        s
    } else if display_char(s.last()) {
        keep_display_chars(s.drop_last()).push(s.last())
    } else {
        keep_display_chars(s.drop_last())
    }
}

/// Sanitize a display name for safe use in bracketed prompt prefixes: the
/// name is trimmed, then brackets and control characters are dropped.
pub fn sanitize_display_name(name: &str) -> (res: String)
    ensures
        res@ == keep_display_chars(trim(name@)),
{
    let t = trim_str(name);
    let v = chars_of(t);
    let mut res = String::new();
    let mut i: usize = 0;
    while i < v.len()
        invariant
            0 <= i <= v@.len(),
            res@ == keep_display_chars(v@.take(i as int)),
        decreases v.len() - i,
    {
        let c = v[i];
        proof {
            assert(v@.take(i + 1).drop_last() =~= v@.take(i as int));
        }
        if c != '[' && c != ']' && !is_control(c) {
            push_char(&mut res, c);
        }
        i += 1;
    }
    assert(v@.take(v@.len() as int) =~= v@);
    res
}

/// A sanitized display name holds no bracket and no control character, so
/// the `[name]` prefix of a prompt cannot be closed or faked by it.
pub proof fn law_sanitized_name_is_safe(name: Seq<char>)
    ensures
        forall|i: int|
            0 <= i < keep_display_chars(trim(name)).len() ==> display_char(
                #[trigger] keep_display_chars(trim(name))[i],
            ),
{
    lemma_keep_display_chars(trim(name));
}

proof fn lemma_keep_display_chars(s: Seq<char>)
    ensures
        forall|i: int|
            0 <= i < keep_display_chars(s).len() ==> display_char(#[trigger] keep_display_chars(s)[i]),
    decreases s.len(),
{
    if s.len() > 0 {
        let p = s.drop_last();
        lemma_keep_display_chars(p);
        let k = keep_display_chars(s);
        let kp = keep_display_chars(p);
        if display_char(s.last()) {
            assert(k == kp.push(s.last()));
            assert forall|i: int| 0 <= i < k.len() implies display_char(#[trigger] k[i]) by {
                if i < kp.len() {
                    assert(k[i] == kp[i]);
                }
            }
        }
    }
}

/// The prompt sent for a message in a shared workspace: `[name] message`,
/// with the sanitized display name; elsewhere the message unchanged.
pub fn prepend_user_name(in_shared_workspace: bool, user_display_name: &str, message: &str) -> (res:
    String)
    ensures
        in_shared_workspace ==> res@ == seq!['['] + keep_display_chars(trim(user_display_name@))
            + seq![']', ' '] + message@,
        !in_shared_workspace ==> res@ == message@,
{
    if !in_shared_workspace {
        return to_owned_string(message);
    }
    let safe = sanitize_display_name(user_display_name);
    let mut res = String::new();
    push_char(&mut res, '[');
    push_str(&mut res, safe.as_str());
    push_char(&mut res, ']');
    push_char(&mut res, ' ');
    push_str(&mut res, message);
    res
}

// ---------------------------------------------------------------------------
// USERS.md
// ---------------------------------------------------------------------------

/// The section that explains the sender tags to the agent.
pub const USERS_MD_PROTOCOL: &'static str = "## IMPORTANT: This is a multi-user conversation\n\n\
Multiple people send messages in this chat. Each user message starts with a sender tag on its own line:\n\n\
```\n@sender: Alice\nCan you review the script?\n```\n\n\
The `@sender:` line is injected automatically by the system. It is NOT typed by the user. Treat it as metadata identifying who is speaking.\n\n";

/// The head of the member table.
pub const USERS_MD_TABLE_HEAD: &'static str = "## Team members\n\n| Name | Role |\n|------|------|\n";

/// The rules for the agent.
pub const USERS_MD_RULES: &'static str = "\n## Rules\n\n\
1. When you see `@sender: Name`, that tells you WHO sent the message that follows.\n\
2. Address users by their name. Say \"Hi Wismut\" not \"Hi there\".\n\
3. NEVER write `@sender:` in your own responses. Only the system adds that.\n\
4. Different people may ask different things. Keep track of who asked what.\n\
5. If two users give conflicting instructions, name both and ask for clarification.\n\
6. All team members see the full conversation.\n";

/// One row of the member table: `| name | role |`.
pub open spec fn member_row(m: SharedWorkspaceMemberInfo) -> Seq<char> {
    "| "@ + m.display_name@ + " | "@ + role_name(m.role) + " |\n"@
}

/// The rows of the member table, in the order of the members.
pub open spec fn member_rows(ms: Seq<SharedWorkspaceMemberInfo>) -> Seq<char>
    decreases ms.len(),
{
    if ms.len() == 0 {
        Seq::<char>::empty()
    } else {
        member_rows(ms.drop_last()) + member_row(ms.last())
    }
}

/// The USERS.md document of a workspace.
pub open spec fn users_md(name: Seq<char>, ms: Seq<SharedWorkspaceMemberInfo>) -> Seq<char> {
    "# "@ + name + " - Multi-User Chat\n\n"@ + USERS_MD_PROTOCOL@ + USERS_MD_TABLE_HEAD@
        + member_rows(ms) + USERS_MD_RULES@
}

/// Generate USERS.md content for a shared workspace workdir.
pub fn generate_users_md(workspace_name: &str, members: &[SharedWorkspaceMemberInfo]) -> (res:
    String)
    ensures
        res@ == users_md(workspace_name@, members@),
{
    let mut md = String::new();
    push_str(&mut md, "# ");
    push_str(&mut md, workspace_name);
    push_str(&mut md, " - Multi-User Chat\n\n");
    push_str(&mut md, USERS_MD_PROTOCOL);
    push_str(&mut md, USERS_MD_TABLE_HEAD);
    let ghost head = md@;
    let mut i: usize = 0;
    while i < members.len()
        invariant
            0 <= i <= members@.len(),
            md@ == head + member_rows(members@.take(i as int)),
        decreases members.len() - i,
    {
        let m = &members[i];
        push_str(&mut md, "| ");
        push_str(&mut md, m.display_name.as_str());
        push_str(&mut md, " | ");
        push_str(&mut md, m.role.as_str());
        push_str(&mut md, " |\n");
        proof {
            let t = members@.take(i + 1);
            assert(t.drop_last() =~= members@.take(i as int));
            assert(t.last() == members@[i as int]);
        }
        i += 1;
    }
    assert(members@.take(members@.len() as int) =~= members@);
    push_str(&mut md, USERS_MD_RULES);
    md
}


/// The Pi context-file settings of a shared workdir: `USERS.md` is always
/// loaded.
pub const CONTEXT_FILES_JSON: &'static str = "{\"contextFiles\":[{\"names\":[\"USERS.md\"],\"optional\":false}]}";

/// Generate the context-files JSON that makes Pi load `USERS.md`.
pub fn generate_context_json() -> (res: String)
    ensures
        res@ == CONTEXT_FILES_JSON@,
{
    to_owned_string(CONTEXT_FILES_JSON)
}


/// A character of nanoid's URL-safe alphabet: `_`, `-`, digits and ASCII
/// letters.
pub open spec fn nanoid_char(c: char) -> bool {
    c == '_' || c == '-' || ('0' <= c && c <= '9') || ('a' <= c && c <= 'z') || ('A' <= c && c <= 'Z')
}

/// Wraps `nanoid::format` with the default random source and the URL-safe
/// alphabet (what `nanoid!(size)` expands to): `size` characters drawn from
/// that alphabet. Which characters come out is not stated.
#[verifier::external_body]
fn random_nanoid(size: usize) -> (id: String)
    ensures
        id@.len() == size,
        forall|i: int| 0 <= i < id@.len() ==> nanoid_char(#[trigger] id@[i]),
{
    nanoid::format(nanoid::rngs::default, &nanoid::alphabet::SAFE, size)
}

/// A new shared workspace id: `sw_` and twelve random URL-safe characters.
pub fn new_workspace_id() -> (id: String)
    ensures
        id@.len() == 15,
        id@.subrange(0, 3) == "sw_"@,
        forall|i: int| 3 <= i < 15 ==> nanoid_char(#[trigger] id@[i]),
{
    proof {
        reveal_strlit("sw_");
    }
    let suffix = random_nanoid(12);
    let mut id = to_owned_string("sw_");
    push_str(&mut id, suffix.as_str());
    assert(id@.subrange(0, 3) =~= "sw_"@);
    assert forall|i: int| 3 <= i < 15 implies nanoid_char(#[trigger] id@[i]) by {
        assert(id@[i] == suffix@[i - 3]);
    }
    id
}

} // verus!

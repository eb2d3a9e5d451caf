//! What the library knows of the host: its users, groups, privileges and release.

use crate::error::Error;
use crate::text::{find_from, first_in, CharClass};
use users::os::unix::UserExt;
use vstd::prelude::*;

verus! {

/// A user of the host, copied into a new jail.
#[derive(Debug, Clone)]
pub struct Identity {
    /// The user's login name.
    pub user_name: String,
    /// The user's numeric id.
    pub uid: u32,
    /// The name of the user's primary group.
    pub group_name: String,
    /// The numeric id of the user's primary group.
    pub gid: u32,
    /// The path of the user's login shell.
    pub shell: String,
}

/// An entry of the host's user database, as far as provisioning reads it.
#[derive(Debug, Clone)]
pub struct HostUser {
    pub name: String,
    pub uid: u32,
    pub primary_gid: u32,
    pub shell: String,
}

/// An entry of the host's group database, as far as provisioning reads it.
#[derive(Debug, Clone)]
pub struct HostGroup {
    pub name: String,
    pub gid: u32,
}

/// Relies on `users::get_effective_uid`: the effective user id of this
/// process. Nothing is known of its value.
#[verifier::external_body]
fn effective_uid() -> (r: u32) {
    users::get_effective_uid()
}

/// Relies on `users::get_user_by_name`: the host's entry for a user name, if
/// there is one. What it finds depends on the host.
#[verifier::external_body]
fn lookup_user(name: &str) -> (r: Option<HostUser>) {
    let u = users::get_user_by_name(name)?;
    Some(HostUser {
        name: u.name().to_string_lossy().into_owned(),
        uid: u.uid(),
        primary_gid: u.primary_group_id(),
        shell: u.shell().to_string_lossy().into_owned(),
    })
}

/// Relies on `users::get_group_by_gid`: the host's entry for a group id, if
/// there is one. What it finds depends on the host.
#[verifier::external_body]
fn lookup_group(gid: u32) -> (r: Option<HostGroup>) {
    let g = users::get_group_by_gid(gid)?;
    Some(HostGroup { name: g.name().to_string_lossy().into_owned(), gid: g.gid() })
}

/// Relies on `nix::sys::utsname::uname` and `UtsName::release`: the release
/// of the host's kernel, or nothing where `uname` fails.
#[verifier::external_body]
fn kernel_release() -> (r: Option<String>) {
    let u = nix::sys::utsname::uname().ok()?;
    Some(u.release().to_string_lossy().into_owned())
}

/// Succeeds exactly when `uid` is root's.
pub fn check_root(uid: u32) -> (r: Result<(), Error>)
    ensures
        r is Ok <==> uid == 0,
        r is Err ==> r->Err_0 is NotRoot,
{
    if uid != 0 {
        Err(Error::NotRoot)
    } else {
        Ok(())
    }
}

/// Ensures that the effective user of this process is root.
pub fn ensure_root() -> (r: Result<(), Error>)
    ensures
        r is Err ==> r->Err_0 is NotRoot,
{
    check_root(effective_uid())
}

/// The result of looking up the user `requested`: the entry found, or
/// `NoUser` where there is none.
pub fn user_or_error(requested: &str, found: Option<HostUser>) -> (r: Result<HostUser, Error>)
    ensures
        found is Some ==> r == Ok::<HostUser, Error>(found->0),
        found is None ==> r is Err && r->Err_0 is NoUser && r->Err_0->NoUser_0@ == requested@,
{
    match found {
        Some(u) => Ok(u),
        None => Err(Error::NoUser(String::from_str(requested))),
    }
}

/// Returns the host's entry for the user name, if one is asked for.
pub fn find_user(user: Option<&str>) -> (r: Result<Option<HostUser>, Error>)
    ensures
        user is None ==> r == Ok::<Option<HostUser>, Error>(None),
        user is Some ==> match r {
            Ok(found) => found is Some,
            Err(e) => e is NoUser && e->NoUser_0@ == user->0@,
        },
{
    match user {
        None => Ok(None),
        Some(name) => match user_or_error(name, lookup_user(name)) {
            Ok(u) => Ok(Some(u)),
            Err(e) => Err(e),
        },
    }
}

/// The result of looking up the group `gid`: the entry found, or `NoGid`
/// where there is none.
pub fn group_or_error(gid: u32, found: Option<HostGroup>) -> (r: Result<HostGroup, Error>)
    ensures
        found is Some ==> r == Ok::<HostGroup, Error>(found->0),
        found is None ==> r == Err::<HostGroup, Error>(Error::NoGid(gid)),
{
    match found {
        Some(g) => Ok(g),
        None => Err(Error::NoGid(gid)),
    }
}

/// Returns the host's entry for the group id.
pub fn find_group(gid: u32) -> (r: Result<HostGroup, Error>)
    ensures
        r is Err ==> r == Err::<HostGroup, Error>(Error::NoGid(gid)),
{
    group_or_error(gid, lookup_group(gid))
}

/// The identity that copies `user`, whose primary group is `group`.
pub fn identity_of(user: HostUser, group: HostGroup) -> (r: Identity)
    ensures
        r.user_name == user.name,
        r.uid == user.uid,
        r.group_name == group.name,
        r.gid == group.gid,
        r.shell == user.shell,
{
    Identity {
        user_name: user.name,
        uid: user.uid,
        group_name: group.name,
        gid: group.gid,
        shell: user.shell,
    }
}

/// Resolves the user asked for, and its primary group, on the host, before
/// anything is run. No user asked for gives no identity.
pub fn resolve_identity(user: Option<&str>) -> (r: Result<Option<Identity>, Error>)
    ensures
        user is None ==> r == Ok::<Option<Identity>, Error>(None),
        user is Some ==> match r {
            Ok(found) => found is Some,
            Err(e) => (e is NoUser && e->NoUser_0@ == user->0@) || e is NoGid,
        },
{
    match find_user(user) {
        Err(e) => Err(e),
        Ok(None) => Ok(None),
        Ok(Some(u)) => match find_group(u.primary_gid) {
            Err(e) => Err(e),
            Ok(g) => Ok(Some(identity_of(u, g))),
        },
    }
}

/// A part of a release name, with `STABLE` read as `RELEASE`.
pub open spec fn release_part(p: Seq<char>) -> Seq<char> {
    if p == "STABLE"@ {
        "RELEASE"@
    } else {
        p
    }
}

/// The release that a jail on a host with kernel release `k` is based on:
/// the first two `-`-separated parts of `k`, with `STABLE` read as `RELEASE`
/// (`11.2-STABLE-p9` gives `11.2-RELEASE`).
pub open spec fn release_text(k: Seq<char>) -> Seq<char> {
    let i = first_in(k, CharClass::Dash);
    if i >= k.len() {
        release_part(k)
    } else {
        let rest = k.skip(i + 1);
        release_part(k.take(i)) + "-"@ + release_part(rest.take(first_in(rest, CharClass::Dash)))
    }
}

fn release_part_of(p: &str) -> (r: String)
    ensures
        r@ == release_part(p@),
{
    let p = String::from_str(p);
    if p == String::from_str("STABLE") {
        String::from_str("RELEASE")
    } else {
        p
    }
}

/// Returns the release for a jail on a host with the kernel release `kernel`.
pub fn release_from_kernel(kernel: &str) -> (r: String)
    ensures
        r@ == release_text(kernel@),
{
    let n = kernel.unicode_len();
    let i = find_from(kernel, 0, CharClass::Dash);
    assert(kernel@.skip(0) =~= kernel@);
    if i >= n {
        release_part_of(kernel)
    } else {
        let j = find_from(kernel, i + 1, CharClass::Dash);
        let first = release_part_of(kernel.substring_char(0, i));
        let second = release_part_of(kernel.substring_char(i + 1, j));
        let ghost rest = kernel@.skip(i + 1);
        assert(rest.take(first_in(rest, CharClass::Dash)) =~= kernel@.subrange(i + 1, j as int));
        assert(kernel@.take(i as int) =~= kernel@.subrange(0, i as int));
        first.concat("-").concat(second.as_str())
    }
}

/// Returns the release of the host, as a default for the jail's release;
/// nothing where the host's kernel release cannot be read.
pub fn default_release() -> (r: Option<String>)
    ensures
        r is Some ==> exists|k: Seq<char>| r->0@ == release_text(k),
{
    match kernel_release() {
        Some(k) => Some(release_from_kernel(k.as_str())),
        None => None,
    }
}

} // verus!

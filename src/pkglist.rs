//! The package list that a new jail is created with.

use crate::host::Identity;
use vstd::prelude::*;

verus! {

/// The characters of `p` after its last `/`.
pub open spec fn last_segment(p: Seq<char>) -> Seq<char>
    decreases p.len(),
{
    if p.len() == 0 || p.last() == '/' {
        Seq::empty()
    } else {
        last_segment(p.drop_last()).push(p.last())
    }
}

proof fn lemma_last_segment_len(p: Seq<char>)
    ensures
        last_segment(p).len() <= p.len(),
    decreases p.len(),
{
    if p.len() > 0 && p.last() != '/' {
        lemma_last_segment_len(p.drop_last());
    }
}

/// The file name of the Unix path `p`: its last component once empty and
/// `.` components are skipped, or nothing where that component is `..` or
/// there is none.
pub open spec fn file_name_of(p: Seq<char>) -> Seq<char>
    decreases p.len(),
    via file_name_of_decreases
{
    let seg = last_segment(p);
    if p.len() == 0 || seg == ".."@ {
        Seq::empty()
    } else if seg.len() == 0 || seg == "."@ {
        if seg.len() >= p.len() {
            Seq::empty()
        } else {
            file_name_of(p.take(p.len() - seg.len() - 1))
        }
    } else {
        seg
    }
}

#[via_fn]
proof fn file_name_of_decreases(p: Seq<char>) {
    lemma_last_segment_len(p);
}

/// Relies on `std::path::Path::file_name` on Unix: the final component of
/// the path once `Path::components` has skipped repeated separators and `.`
/// components, or `None` (then the empty string) where the path ends in `..`
/// or has no such component.
#[verifier::external_body]
fn path_file_name(path: &str) -> (r: String)
    ensures
        r@ == file_name_of(path@),
{
    std::path::Path::new(path).file_name().map(|n| n.to_string_lossy().into_owned()).unwrap_or_default()
}

/// The package list JSON for a jail: no packages without a user, `sudo` for a
/// user, and `bash` as well for a user whose login shell is named `bash`.
pub open spec fn pkglist_text(shell_name: Option<Seq<char>>) -> Seq<char> {
    match shell_name {
        None => "{\"pkgs\":[]}"@,
        Some(name) => if name == "bash"@ {
            "{\"pkgs\":[\"sudo\",\"bash\"]}"@
        } else {
            "{\"pkgs\":[\"sudo\"]}"@
        },
    }
}

/// Returns the package list JSON for a user whose login shell has the file
/// name `shell_name`, or for no user.
pub fn pkglist_for_shell_name(shell_name: Option<&str>) -> (r: String)
    ensures
        r@ == pkglist_text(
            match shell_name {
                Some(s) => Some(s@),
                None => None,
            },
        ),
{
    match shell_name {
        None => String::from_str("{\"pkgs\":[]}"),
        Some(name) => {
            let name = String::from_str(name);
            let bash = String::from_str("bash");
            if name == bash {
                String::from_str("{\"pkgs\":[\"sudo\",\"bash\"]}")
            } else {
                String::from_str("{\"pkgs\":[\"sudo\"]}")
            }
        },
    }
}

/// The package list JSON for a jail created for `identity`.
pub open spec fn pkglist_for(identity: Option<Identity>) -> Seq<char> {
    pkglist_text(
        match identity {
            Some(id) => Some(file_name_of(id.shell@)),
            None => None,
        },
    )
}

/// Returns the package list JSON for a jail created for `identity`.
pub fn create_pkglist_json(identity: Option<&Identity>) -> (r: String)
    ensures
        r@ == pkglist_for(
            match identity {
                Some(id) => Some(*id),
                None => None,
            },
        ),
{
    match identity {
        None => pkglist_for_shell_name(None),
        Some(id) => {
            let name = path_file_name(id.shell.as_str());
            pkglist_for_shell_name(Some(name.as_str()))
        },
    }
}

} // verus!

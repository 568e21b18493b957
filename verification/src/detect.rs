//! Whether the running executable is an installed copy.

use crate::paths::{installed_exe, installed_exe_path, EnvRoots, InstallScope};
use crate::text::{lowercase, optional_text, same_text, to_lowercase};
use vstd::prelude::*;
use vstd::string::*;

verus! {

/// The canonical forms of the three paths that install detection compares,
/// as the file system resolves them. A field is `None` where the path does
/// not exist or cannot be resolved.
#[derive(Clone, Debug, PartialEq, Eq)]
pub struct CanonicalPaths {
    /// The running executable.
    pub current: Option<String>,
    /// The executable of the user's install.
    pub user_copy: Option<String>,
    /// The executable of the machine's install.
    pub machine_copy: Option<String>,
}

/// `current` is `copy`, where both are known.
pub open spec fn known_and_equal(current: Option<Seq<char>>, copy: Option<Seq<char>>) -> bool {
    current is Some && copy is Some && current->0 == copy->0
}

/// The verdict on paths that are all given in lowercase: the path of the
/// running executable is known, and it is one of the two install paths as
/// written, or its resolved form is the resolved form of one of them.
pub open spec fn installed_lowered(
    current: Option<Seq<char>>,
    user_copy: Seq<char>,
    machine_copy: Seq<char>,
    resolved_current: Option<Seq<char>>,
    resolved_user_copy: Option<Seq<char>>,
    resolved_machine_copy: Option<Seq<char>>,
) -> bool {
    current is Some && (current->0 == user_copy || current->0 == machine_copy || known_and_equal(
        resolved_current,
        resolved_user_copy,
    ) || known_and_equal(resolved_current, resolved_machine_copy))
}

/// The lowercase form of a path that may be unknown.
pub open spec fn lowered(path: Option<Seq<char>>) -> Option<Seq<char>> {
    match path {
        Some(p) => Some(lowercase(p)),
        None => None,
    }
}

/// The process runs as an installed copy: the verdict on the lowercase
/// forms of the path of its executable, of the executables of the user's
/// and the machine's install, and of what the three resolve to.
pub open spec fn installed(
    current_exe: Option<Seq<char>>,
    env: EnvRoots,
    canonical: CanonicalPaths,
) -> bool {
    installed_lowered(
        lowered(current_exe),
        lowercase(installed_exe(InstallScope::PerUser, env)),
        lowercase(installed_exe(InstallScope::Machine, env)),
        lowered(optional_text(canonical.current)),
        lowered(optional_text(canonical.user_copy)),
        lowered(optional_text(canonical.machine_copy)),
    )
}

/// A process whose executable lies outside both install locations, as
/// written and as resolved, is no installed copy; nor is one whose
/// executable is unknown.
pub proof fn outside_both_locations_is_not_installed(
    current: Option<Seq<char>>,
    user_copy: Seq<char>,
    machine_copy: Seq<char>,
    resolved_current: Option<Seq<char>>,
    resolved_user_copy: Option<Seq<char>>,
    resolved_machine_copy: Option<Seq<char>>,
)
    requires
        current is None || (current->0 != user_copy && current->0 != machine_copy
            && !known_and_equal(resolved_current, resolved_user_copy) && !known_and_equal(
            resolved_current,
            resolved_machine_copy,
        )),
    ensures
        !installed_lowered(
            current,
            user_copy,
            machine_copy,
            resolved_current,
            resolved_user_copy,
            resolved_machine_copy,
        ),
{
}

/// The characters of an optional string slice.
pub open spec fn slice_text(value: Option<&str>) -> Option<Seq<char>> {
    match value {
        Some(s) => Some(s@),
        None => None,
    }
}

/// Whether `current` is `copy`, where both are known.
fn both_known_and_equal(current: Option<&str>, copy: Option<&str>) -> (r: bool)
    ensures
        r == known_and_equal(slice_text(current), slice_text(copy)),
{
    match (current, copy) {
        (Some(a), Some(b)) => same_text(a, b),
        _ => false,
    }
}

/// Decides whether the process runs as an installed copy, from paths that
/// are all given in lowercase: the running executable, the executables of
/// the user's and of the machine's install, and what the file system
/// resolves each of the three to. An unknown path matches nothing. The
/// paths are compared as written first, then as resolved.
pub fn decide_installed(
    current: Option<&str>,
    user_copy: &str,
    machine_copy: &str,
    resolved_current: Option<&str>,
    resolved_user_copy: Option<&str>,
    resolved_machine_copy: Option<&str>,
) -> (r: bool)
    ensures
        r == installed_lowered(
            slice_text(current),
            user_copy@,
            machine_copy@,
            slice_text(resolved_current),
            slice_text(resolved_user_copy),
            slice_text(resolved_machine_copy),
        ),
{
    match current {
        None => false,
        Some(path) => {
            if same_text(path, user_copy) || same_text(path, machine_copy) {
                true
            } else {
                both_known_and_equal(resolved_current, resolved_user_copy) || both_known_and_equal(
                    resolved_current,
                    resolved_machine_copy,
                )
            }
        },
    }
}

/// The lowercase form of a path that may be unknown.
fn lowered_path(path: &Option<String>) -> (r: Option<String>)
    ensures
        optional_text(r) == lowered(optional_text(*path)),
{
    match path {
        Some(p) => Some(to_lowercase(p.as_str())),
        None => None,
    }
}

/// The string slice of an optional string.
fn as_slice(value: &Option<String>) -> (r: Option<&str>)
    ensures
        slice_text(r) == optional_text(*value),
{
    match value {
        Some(s) => Some(s.as_str()),
        None => None,
    }
}

/// Whether the process runs as an installed copy. `current_exe` is the
/// path of the running executable, `None` where it cannot be determined;
/// `canonical` holds what the file system resolves the compared paths to.
/// Paths are compared without regard to letter case; whatever is unknown
/// counts as no match, so that the answer is `false` where nothing can be
/// told.
pub fn is_installed(current_exe: Option<&str>, env: &EnvRoots, canonical: &CanonicalPaths) -> (r:
    bool)
    ensures
        r == installed(slice_text(current_exe), *env, *canonical),
{
    let current = match current_exe {
        Some(path) => Some(to_lowercase(path)),
        None => None,
    };
    let user_copy = to_lowercase(installed_exe_path(InstallScope::PerUser, env).as_str());
    let machine_copy = to_lowercase(installed_exe_path(InstallScope::Machine, env).as_str());
    let resolved_current = lowered_path(&canonical.current);
    let resolved_user_copy = lowered_path(&canonical.user_copy);
    let resolved_machine_copy = lowered_path(&canonical.machine_copy);
    decide_installed(
        as_slice(&current),
        user_copy.as_str(),
        machine_copy.as_str(),
        as_slice(&resolved_current),
        as_slice(&resolved_user_copy),
        as_slice(&resolved_machine_copy),
    )
}

} // verus!

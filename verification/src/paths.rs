//! Where the product lives on disk: the install directory of each scope and
//! the shell folders that hold its shortcuts, by Windows conventions.

use crate::text::append_to;
use vstd::prelude::*;
use vstd::string::*;

verus! {

/// Folder name of the product below the install root, and stem of its
/// registry keys and shortcuts.
pub const APP_NAME: &'static str = "MarkdownViewer";

/// File name of the installed executable.
pub const EXE_NAME: &'static str = "MarkdownViewer.exe";

/// Whom an install or uninstall is for.
#[derive(Clone, Copy, Debug, PartialEq, Eq, Structural)]
pub enum InstallScope {
    /// The current user only.
    PerUser,
    /// Every user of the machine.
    Machine,
}

impl InstallScope {
    /// The scope that the choice "for all users" stands for.
    pub open spec fn of_choice(all_users: bool) -> InstallScope {
        if all_users {
            InstallScope::Machine
        } else {
            InstallScope::PerUser
        }
    }

    /// The scope of an install for all users, or for the current user only.
    pub fn for_all_users(all_users: bool) -> (scope: InstallScope)
        ensures
            scope == InstallScope::of_choice(all_users),
    {
        if all_users {
            InstallScope::Machine
        } else {
            InstallScope::PerUser
        }
    }
}

/// The environment roots that the path rules consume. A field is `None`
/// where the variable is unset or holds no valid Unicode.
#[derive(Clone, Debug)]
pub struct EnvRoots {
    /// `LOCALAPPDATA`: per-user application data.
    pub local_app_data: Option<String>,
    /// `USERPROFILE`: the user's profile folder.
    pub user_profile: Option<String>,
    /// `PUBLIC`: the profile shared by all users.
    pub public_profile: Option<String>,
    /// `ProgramData`: machine-wide application data.
    pub program_data: Option<String>,
    /// `ProgramFiles`: machine-wide programs.
    pub program_files: Option<String>,
    /// `APPDATA`: roaming per-user application data.
    pub roaming_app_data: Option<String>,
}

/// A path separator.
pub open spec fn is_separator(c: char) -> bool {
    c == '\\' || c == '/'
}

/// A drive letter and a colon, nothing else: a path relative to that drive's
/// current directory.
pub open spec fn is_bare_drive(base: Seq<char>) -> bool {
    base.len() == 2 && base[1] == ':' && (('a' <= base[0] && base[0] <= 'z') || ('A' <= base[0]
        && base[0] <= 'Z'))
}

/// `leaf`, a relative name, placed below `base`: a backslash goes between
/// them unless `base` is empty, already ends in a separator, or is a bare
/// drive.
pub open spec fn joined(base: Seq<char>, leaf: Seq<char>) -> Seq<char> {
    if base.len() == 0 || is_separator(base.last()) || is_bare_drive(base) {
        base + leaf
    } else {
        base + seq!['\\'] + leaf
    }
}

/// The value of a root, or `fallback` where it is absent.
pub open spec fn root_or(value: Option<String>, fallback: Seq<char>) -> Seq<char> {
    match value {
        Some(s) => s@,
        None => fallback,
    }
}

/// The user's profile folder.
pub open spec fn user_profile_root(env: EnvRoots) -> Seq<char> {
    root_or(env.user_profile, "C:\\Users\\Default"@)
}

/// The folder of per-user application data.
pub open spec fn local_app_data_root(env: EnvRoots) -> Seq<char> {
    root_or(env.local_app_data, user_profile_root(env) + "\\AppData\\Local"@)
}

/// The folder of roaming per-user application data.
pub open spec fn roaming_app_data_root(env: EnvRoots) -> Seq<char> {
    root_or(env.roaming_app_data, user_profile_root(env) + "\\AppData\\Roaming"@)
}

/// The install directory of `scope`.
pub open spec fn install_dir(scope: InstallScope, env: EnvRoots) -> Seq<char> {
    match scope {
        InstallScope::Machine => joined(
            root_or(env.program_files, "C:\\Program Files"@),
            APP_NAME@,
        ),
        InstallScope::PerUser => joined(local_app_data_root(env), APP_NAME@),
    }
}

/// Where the executable of an install of `scope` lies.
pub open spec fn installed_exe(scope: InstallScope, env: EnvRoots) -> Seq<char> {
    joined(install_dir(scope, env), EXE_NAME@)
}

/// The desktop folder of `scope`.
pub open spec fn desktop_dir(scope: InstallScope, env: EnvRoots) -> Seq<char> {
    match scope {
        InstallScope::Machine => root_or(env.public_profile, "C:\\Users\\Public"@) + "\\Desktop"@,
        InstallScope::PerUser => user_profile_root(env) + "\\Desktop"@,
    }
}

/// The start-menu programs folder of `scope`.
pub open spec fn start_menu_dir(scope: InstallScope, env: EnvRoots) -> Seq<char> {
    match scope {
        InstallScope::Machine => root_or(env.program_data, "C:\\ProgramData"@)
            + "\\Microsoft\\Windows\\Start Menu\\Programs"@,
        InstallScope::PerUser => roaming_app_data_root(env)
            + "\\Microsoft\\Windows\\Start Menu\\Programs"@,
    }
}

/// The product's shortcut file inside `dir`.
pub open spec fn shortcut_in(dir: Seq<char>) -> Seq<char> {
    joined(dir, APP_NAME@ + ".lnk"@)
}

/// Whether `c` separates path components.
fn separator(c: char) -> (r: bool)
    ensures
        r == is_separator(c),
{
    c == '\\' || c == '/'
}

/// Whether `base` is a drive letter and a colon.
fn bare_drive(base: &Vec<char>) -> (r: bool)
    ensures
        r == is_bare_drive(base@),
{
    base.len() == 2 && base[1] == ':' && (('a' <= base[0] && base[0] <= 'z') || ('A' <= base[0]
        && base[0] <= 'Z'))
}

/// Places the relative name `leaf` below `base`.
pub fn join_path(base: &str, leaf: &str) -> (r: String)
    ensures
        r@ == joined(base@, leaf@),
{
    let chars = crate::text::chars_of(base);
    let n = chars.len();
    if n == 0 || separator(chars[n - 1]) || bare_drive(&chars) {
        append_to(base, leaf)
    } else {
        proof {
            reveal_strlit("\\");
        }
        let with_separator = append_to(base, "\\");
        append_to(with_separator.as_str(), leaf)
    }
}

/// The value of a root, or `fallback` where it is absent.
fn value_or(value: &Option<String>, fallback: &str) -> (r: String)
    ensures
        r@ == root_or(*value, fallback@),
{
    match value {
        Some(s) => s.clone(),
        None => String::from_str(fallback),
    }
}

/// The user's profile folder: `USERPROFILE`, else `C:\Users\Default`.
pub fn user_profile(env: &EnvRoots) -> (r: String)
    ensures
        r@ == user_profile_root(*env),
{
    value_or(&env.user_profile, "C:\\Users\\Default")
}

/// The folder of per-user application data: `LOCALAPPDATA`, else
/// `AppData\Local` below the user's profile.
pub fn local_app_data(env: &EnvRoots) -> (r: String)
    ensures
        r@ == local_app_data_root(*env),
{
    match &env.local_app_data {
        Some(s) => s.clone(),
        None => append_to(user_profile(env).as_str(), "\\AppData\\Local"),
    }
}

/// The folder of roaming application data: `APPDATA`, else
/// `AppData\Roaming` below the user's profile.
pub fn roaming_app_data(env: &EnvRoots) -> (r: String)
    ensures
        r@ == roaming_app_data_root(*env),
{
    match &env.roaming_app_data {
        Some(s) => s.clone(),
        None => append_to(user_profile(env).as_str(), "\\AppData\\Roaming"),
    }
}

/// The directory that an install of `scope` lives in: the product's folder
/// below `ProgramFiles` for the machine, below the per-user application data
/// for one user.
pub fn get_install_path(scope: InstallScope, env: &EnvRoots) -> (r: String)
    ensures
        r@ == install_dir(scope, *env),
{
    match scope {
        InstallScope::Machine => {
            let root = value_or(&env.program_files, "C:\\Program Files");
            join_path(root.as_str(), APP_NAME)
        },
        InstallScope::PerUser => {
            let root = local_app_data(env);
            join_path(root.as_str(), APP_NAME)
        },
    }
}

/// Where the executable of an install of `scope` lies.
pub fn installed_exe_path(scope: InstallScope, env: &EnvRoots) -> (r: String)
    ensures
        r@ == installed_exe(scope, *env),
{
    let dir = get_install_path(scope, env);
    join_path(dir.as_str(), EXE_NAME)
}

/// The desktop folder that a shortcut of `scope` goes to.
pub fn desktop_path(scope: InstallScope, env: &EnvRoots) -> (r: String)
    ensures
        r@ == desktop_dir(scope, *env),
{
    match scope {
        InstallScope::Machine => {
            let root = value_or(&env.public_profile, "C:\\Users\\Public");
            append_to(root.as_str(), "\\Desktop")
        },
        InstallScope::PerUser => append_to(user_profile(env).as_str(), "\\Desktop"),
    }
}

/// The start-menu folder that a shortcut of `scope` goes to.
pub fn start_menu_path(scope: InstallScope, env: &EnvRoots) -> (r: String)
    ensures
        r@ == start_menu_dir(scope, *env),
{
    match scope {
        InstallScope::Machine => {
            let root = value_or(&env.program_data, "C:\\ProgramData");
            append_to(root.as_str(), "\\Microsoft\\Windows\\Start Menu\\Programs")
        },
        InstallScope::PerUser => append_to(
            roaming_app_data(env).as_str(),
            "\\Microsoft\\Windows\\Start Menu\\Programs",
        ),
    }
}

/// The product's shortcut file inside the folder `dir`.
pub fn shortcut_path(dir: &str) -> (r: String)
    ensures
        r@ == shortcut_in(dir@),
{
    let name = append_to(APP_NAME, ".lnk");
    join_path(dir, name.as_str())
}

} // verus!

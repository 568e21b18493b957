//! What the process is started as: the mode it runs in, the window it
//! opens, and the files that its arguments name.

use crate::text::{
    chars_of, contains, has_substring, is_flag, lowercase, starts_with_hyphen, to_lowercase,
};
use vstd::prelude::*;
use vstd::string::*;

verus! {

/// The event that hands the user interface the path of a file to open.
pub const FILE_PATH_EVENT: &'static str = "file-path";

/// The flow that the process presents.
#[derive(Clone, Copy, Debug, PartialEq, Eq, Structural)]
pub enum RunMode {
    /// The viewer.
    App,
    /// The first-run installer.
    Installer,
    /// The hand-off to the uninstaller.
    Uninstall,
}

/// The characters of each argument.
pub open spec fn arg_texts(args: Seq<String>) -> Seq<Seq<char>> {
    args.map_values(|a: String| a@)
}

/// The process is asked to install: `--install` is among the arguments, or
/// the name of the executable, given in lowercase, holds `installer`.
pub open spec fn wants_installer(args: Seq<Seq<char>>, lowered_exe_name: Seq<char>) -> bool {
    args.contains("--install"@) || has_substring(lowered_exe_name, "installer"@)
}

/// The mode of a process started with `args` from an executable whose name
/// in lowercase is `lowered_exe_name`: `--uninstall` decides before all
/// else; a process asked to install runs the installer unless it is an
/// installed copy; everything else is the viewer.
pub open spec fn mode_for(
    args: Seq<Seq<char>>,
    lowered_exe_name: Seq<char>,
    is_installed: bool,
) -> RunMode {
    if args.contains("--uninstall"@) {
        RunMode::Uninstall
    } else if wants_installer(args, lowered_exe_name) && !is_installed {
        RunMode::Installer
    } else {
        RunMode::App
    }
}

/// The process is asked to install, by its arguments or by the name of its
/// executable in any letter case.
pub open spec fn asks_for_installer(args: Seq<Seq<char>>, exe_name: Seq<char>) -> bool {
    wants_installer(args, lowercase(exe_name))
}

/// The mode of a process started with `args` from an executable named
/// `exe_name`, in any letter case.
pub open spec fn resolved_mode(
    args: Seq<Seq<char>>,
    exe_name: Seq<char>,
    is_installed: bool,
) -> RunMode {
    mode_for(args, lowercase(exe_name), is_installed)
}

/// The label of the start-up window of a process that is asked to install,
/// or is not.
pub open spec fn label_text(installer: bool) -> Seq<char> {
    if installer {
        "installer"@
    } else {
        "main"@
    }
}

/// The name under which the user interface knows `mode`.
pub open spec fn mode_text(mode: RunMode) -> Seq<char> {
    match mode {
        RunMode::App => "app"@,
        RunMode::Installer => "installer"@,
        RunMode::Uninstall => "uninstall"@,
    }
}

/// The arguments after the program's own name that are no flags, in order.
pub open spec fn positional(args: Seq<Seq<char>>) -> Seq<Seq<char>> {
    if args.len() == 0 {
        args
    } else {
        args.drop_first().filter(|a: Seq<char>| !is_flag(a))
    }
}

/// The argument at `i` is the first after the program's own name that is
/// no flag.
pub open spec fn first_file_at(args: Seq<Seq<char>>, i: int) -> bool {
    1 <= i < args.len() && !is_flag(args[i]) && forall|k: int|
        1 <= k < i ==> is_flag(#[trigger] args[k])
}

/// Every argument after the program's own name is a flag.
pub open spec fn names_no_file(args: Seq<Seq<char>>) -> bool {
    forall|k: int| 1 <= k < args.len() ==> is_flag(#[trigger] args[k])
}

/// The files to open: the positional arguments, with `startup` in front
/// where it is given and not among them.
pub open spec fn files_to_open(args: Seq<Seq<char>>, startup: Option<Seq<char>>) -> Seq<Seq<char>> {
    match startup {
        Some(file) => if positional(args).contains(file) {
            positional(args)
        } else {
            seq![file] + positional(args)
        },
        None => positional(args),
    }
}

/// Whatever else the arguments hold, and whatever the executable is named,
/// `--uninstall` among the arguments makes the process an uninstaller.
pub proof fn uninstall_flag_decides(args: Seq<Seq<char>>, exe_name: Seq<char>, is_installed: bool)
    requires
        args.contains("--uninstall"@),
    ensures
        mode_for(args, exe_name, is_installed) == RunMode::Uninstall,
        resolved_mode(args, exe_name, is_installed) == RunMode::Uninstall,
{
}

/// An installed copy never runs the installer, whatever it is asked and
/// whatever it is named: with `--install` among its arguments, and
/// `--uninstall` not, it is the viewer.
pub proof fn installed_copy_never_installs(args: Seq<Seq<char>>, exe_name: Seq<char>)
    ensures
        mode_for(args, exe_name, true) != RunMode::Installer,
        resolved_mode(args, exe_name, true) != RunMode::Installer,
        args.contains("--install"@) && !args.contains("--uninstall"@) ==> mode_for(
            args,
            exe_name,
            true,
        ) == RunMode::App && resolved_mode(args, exe_name, true) == RunMode::App,
{
}

/// Whether `flag` is among `args`.
pub fn has_argument(args: &Vec<String>, flag: &str) -> (r: bool)
    ensures
        r == arg_texts(args@).contains(flag@),
{
    let wanted = String::from_str(flag);
    let mut i: usize = 0;
    while i < args.len()
        invariant
            i <= args.len(),
            wanted@ == flag@,
            forall|k: int| 0 <= k < i ==> arg_texts(args@)[k] != flag@,
        decreases args.len() - i,
    {
        if args[i] == wanted {
            assert(arg_texts(args@)[i as int] == flag@);
            return true;
        }
        i = i + 1;
    }
    false
}

/// Whether the name of an executable, given in lowercase, marks it as an
/// installer: it holds `installer`.
pub fn names_installer(lowered_exe_name: &str) -> (r: bool)
    ensures
        r == has_substring(lowered_exe_name@, "installer"@),
{
    let name = chars_of(lowered_exe_name);
    let token = chars_of("installer");
    contains(&name, &token)
}

/// Whether the process is asked to install, where the name of its
/// executable is given in lowercase.
pub fn wants_install(args: &Vec<String>, lowered_exe_name: &str) -> (r: bool)
    ensures
        r == wants_installer(arg_texts(args@), lowered_exe_name@),
{
    has_argument(args, "--install") || names_installer(lowered_exe_name)
}

/// Decides the mode of the process from its arguments, the file name of
/// its executable in lowercase, and whether it runs as an installed copy.
pub fn resolve_lowered(args: &Vec<String>, lowered_exe_name: &str, is_installed: bool) -> (mode:
    RunMode)
    ensures
        mode == mode_for(arg_texts(args@), lowered_exe_name@, is_installed),
{
    if has_argument(args, "--uninstall") {
        RunMode::Uninstall
    } else if is_installed {
        RunMode::App
    } else if wants_install(args, lowered_exe_name) {
        RunMode::Installer
    } else {
        RunMode::App
    }
}

/// Whether the process is asked to install. The name of the executable
/// counts in any letter case.
pub fn is_installer_mode(args: &Vec<String>, exe_name: &str) -> (r: bool)
    ensures
        r == asks_for_installer(arg_texts(args@), exe_name@),
{
    let lowered = to_lowercase(exe_name);
    wants_install(args, lowered.as_str())
}

/// Decides the mode of the process from its arguments, the file name of
/// its executable, and whether it runs as an installed copy.
pub fn resolve(args: &Vec<String>, exe_name: &str, is_installed: bool) -> (mode: RunMode)
    ensures
        mode == resolved_mode(arg_texts(args@), exe_name@, is_installed),
{
    let lowered = to_lowercase(exe_name);
    resolve_lowered(args, lowered.as_str(), is_installed)
}

/// The name under which the user interface knows `mode`.
pub fn mode_name(mode: RunMode) -> (name: String)
    ensures
        name@ == mode_text(mode),
{
    match mode {
        RunMode::App => String::from_str("app"),
        RunMode::Installer => String::from_str("installer"),
        RunMode::Uninstall => String::from_str("uninstall"),
    }
}

/// The mode of the process, by the name under which the user interface
/// knows it.
pub fn get_app_mode(args: &Vec<String>, exe_name: &str, is_installed: bool) -> (name: String)
    ensures
        name@ == mode_text(resolved_mode(arg_texts(args@), exe_name@, is_installed)),
{
    mode_name(resolve(args, exe_name, is_installed))
}

/// The label of the window to open at start-up: `installer` for a process
/// asked to install, and `main` otherwise.
pub fn label_of(installer: bool) -> (label: String)
    ensures
        label@ == label_text(installer),
{
    if installer {
        String::from_str("installer")
    } else {
        String::from_str("main")
    }
}

/// The label of the window to open at start-up. A process asked to install
/// opens the installer's window, installed copy or not.
pub fn window_label(args: &Vec<String>, exe_name: &str) -> (label: String)
    ensures
        label@ == label_text(asks_for_installer(arg_texts(args@), exe_name@)),
{
    label_of(is_installer_mode(args, exe_name))
}

/// The file that the arguments ask to open: the first argument after the
/// program's own name that is no flag.
pub fn first_file_argument(args: &Vec<String>) -> (file: Option<String>)
    ensures
        match file {
            Some(path) => exists|i: int|
                first_file_at(arg_texts(args@), i) && #[trigger] arg_texts(args@)[i] == path@,
            None => names_no_file(arg_texts(args@)),
        },
{
    let mut i: usize = 1;
    while i < args.len()
        invariant
            1 <= i,
            forall|k: int| 1 <= k < i && k < args.len() ==> is_flag(#[trigger] arg_texts(args@)[k]),
        decreases args.len() - i,
    {
        if !starts_with_hyphen(args[i].as_str()) {
            let path = args[i].clone();
            assert(arg_texts(args@)[i as int] == path@);
            return Some(path);
        }
        i = i + 1;
    }
    None
}

/// The path that a second start of the program hands to the running one:
/// the file that its arguments ask to open, and the empty path where they
/// name none.
pub fn forwarded_path(args: &Vec<String>) -> (path: String)
    ensures
        (exists|i: int|
            first_file_at(arg_texts(args@), i) && #[trigger] arg_texts(args@)[i] == path@) || (
        names_no_file(arg_texts(args@)) && path@ == Seq::<char>::empty()),
{
    match first_file_argument(args) {
        Some(path) => path,
        None => String::new(),
    }
}

/// The files that the user interface opens at start-up: the positional
/// arguments, with the file `startup` that the system handed over in front
/// where it is not among them.
pub fn send_markdown_path(args: &Vec<String>, startup: Option<&String>) -> (files: Vec<String>)
    ensures
        arg_texts(files@) == files_to_open(
            arg_texts(args@),
            match startup {
                Some(file) => Some(file@),
                None => None,
            },
        ),
{
    let ghost texts = arg_texts(args@);
    let ghost keep = |a: Seq<char>| !is_flag(a);
    let mut files: Vec<String> = Vec::new();
    if args.len() > 0 {
        let mut i: usize = 1;
        while i < args.len()
            invariant
                1 <= i <= args.len(),
                texts == arg_texts(args@),
                keep == |a: Seq<char>| !is_flag(a),
                arg_texts(files@) == texts.drop_first().take(i - 1).filter(keep),
            decreases args.len() - i,
        {
            let ghost seen = texts.drop_first().take(i - 1);
            assert(texts.drop_first().take(i as int) =~= seen.push(texts[i as int]));
            assert(seen.push(texts[i as int]).drop_last() =~= seen);
            proof {
                reveal(Seq::filter);
            }
            if !starts_with_hyphen(args[i].as_str()) {
                files.push(args[i].clone());
            }
            i = i + 1;
        }
        assert(texts.drop_first().take(args.len() - 1) =~= texts.drop_first());
    }
    match startup {
        Some(file) => {
            let mut found = false;
            let mut k: usize = 0;
            while k < files.len()
                invariant
                    k <= files.len(),
                    !found ==> forall|j: int| 0 <= j < k ==> arg_texts(files@)[j] != file@,
                    found ==> arg_texts(files@).contains(file@),
                decreases files.len() - k,
            {
                if files[k] == *file {
                    assert(arg_texts(files@)[k as int] == file@);
                    found = true;
                }
                k = k + 1;
            }
            if !found {
                files.insert(0, file.clone());
            }
        },
        None => {},
    }
    files
}

} // verus!

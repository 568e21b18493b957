//! The uninstall plan: remove the shortcuts and the registry entries of
//! both scopes, then hand the removal of the running executable and of its
//! directory to a detached helper script, and leave.

use crate::install::{
    exit_steps, install_steps, FILE_CLASS_KEY, MARKDOWN_KEY, MD_KEY, UNINSTALL_KEY,
};
use crate::paths::{
    desktop_dir, desktop_path, get_install_path, install_dir, join_path, joined, shortcut_in,
    shortcut_path, start_menu_dir, start_menu_path, EnvRoots, InstallScope, EXE_NAME,
};
use crate::plan::{attempted, required, Action, ActionView, Hive, Plan, StepView};
use crate::registry::{
    keys_after, keys_after_concat, keys_after_push, keys_only_shrink, nothing_below,
    short_creates_put_nothing_below, within, KeyId,
};
use crate::text::{append_to, chars_of, has_prefix, lowercase, starts_with, to_lowercase};
use vstd::prelude::*;
use vstd::string::*;

verus! {

/// File name of the helper script inside the temporary directory.
pub const SCRIPT_NAME: &'static str = "uninstall_markdown_viewer.bat";

/// The scope of the install that an executable belongs to, from its path
/// and the machine's install directory, both in lowercase: the machine's
/// where the path begins with that directory; the user's otherwise.
pub open spec fn scope_where(
    lowered_exe: Seq<char>,
    lowered_machine_dir: Seq<char>,
) -> InstallScope {
    if has_prefix(lowered_exe, lowered_machine_dir) {
        InstallScope::Machine
    } else {
        InstallScope::PerUser
    }
}

/// The scope of the install that `current_exe` belongs to, the paths
/// compared without regard to letter case.
pub open spec fn scope_of(current_exe: Seq<char>, env: EnvRoots) -> InstallScope {
    scope_where(lowercase(current_exe), lowercase(install_dir(InstallScope::Machine, env)))
}

/// Tells the scope of an install from the path of its executable and the
/// machine's install directory, both given in lowercase.
pub fn scope_from_lowered(lowered_exe: &str, lowered_machine_dir: &str) -> (scope: InstallScope)
    ensures
        scope == scope_where(lowered_exe@, lowered_machine_dir@),
{
    let current = chars_of(lowered_exe);
    let machine = chars_of(lowered_machine_dir);
    if starts_with(&current, &machine) {
        InstallScope::Machine
    } else {
        InstallScope::PerUser
    }
}

/// Tells from the path of the running executable which scope it was
/// installed for.
pub fn detect_scope(current_exe: &str, env: &EnvRoots) -> (scope: InstallScope)
    ensures
        scope == scope_of(current_exe@, *env),
{
    let machine_dir = get_install_path(InstallScope::Machine, env);
    let current = to_lowercase(current_exe);
    let machine = to_lowercase(machine_dir.as_str());
    scope_from_lowered(current.as_str(), machine.as_str())
}

/// The helper script: it kills the product's process and deletes the
/// executable `exe` until the file is gone, then removes the directory
/// `dir` with all it holds, then deletes itself.
pub open spec fn script_text(exe: Seq<char>, dir: Seq<char>) -> Seq<char> {
    "@echo off\r\n:loop\r\ntaskkill /F /IM "@ + EXE_NAME@
        + " > nul 2>&1\r\ntimeout /t 1 /nobreak > nul\r\ndel /f /q \""@ + exe
        + "\" > nul 2>&1\r\nif exist \""@ + exe + "\" goto loop\r\nrmdir /s /q \""@ + dir
        + "\" > nul 2>&1\r\n(goto) 2>nul & del \"%~f0\""@
}

/// Writes the helper script for the executable `exe` installed in `dir`.
pub fn uninstall_script(exe: &str, dir: &str) -> (script: String)
    ensures
        script@ == script_text(exe@, dir@),
{
    let s = append_to("@echo off\r\n:loop\r\ntaskkill /F /IM ", EXE_NAME);
    let s = append_to(s.as_str(), " > nul 2>&1\r\ntimeout /t 1 /nobreak > nul\r\ndel /f /q \"");
    let s = append_to(s.as_str(), exe);
    let s = append_to(s.as_str(), "\" > nul 2>&1\r\nif exist \"");
    let s = append_to(s.as_str(), exe);
    let s = append_to(s.as_str(), "\" goto loop\r\nrmdir /s /q \"");
    let s = append_to(s.as_str(), dir);
    append_to(s.as_str(), "\" > nul 2>&1\r\n(goto) 2>nul & del \"%~f0\"")
}

/// The attempt to delete the file `path`.
pub open spec fn remove_file(path: Seq<char>) -> StepView {
    attempted(ActionView::RemoveFile { path })
}

/// The attempts to delete the shortcuts of both scopes: the two desktop
/// shortcuts, then the two start-menu entries, the user's first.
pub open spec fn shortcut_removal_steps(env: EnvRoots) -> Seq<StepView> {
    seq![
        remove_file(shortcut_in(desktop_dir(InstallScope::PerUser, env))),
        remove_file(shortcut_in(desktop_dir(InstallScope::Machine, env))),
        remove_file(shortcut_in(start_menu_dir(InstallScope::PerUser, env))),
        remove_file(shortcut_in(start_menu_dir(InstallScope::Machine, env))),
    ]
}

/// The attempts to delete the product's keys of `hive`: its entry in the
/// list of installed programs, then both extensions and the file class with
/// all below them.
pub open spec fn key_removal_steps(hive: Hive) -> Seq<StepView> {
    seq![
        attempted(ActionView::DeleteKey { hive, path: UNINSTALL_KEY@ }),
        attempted(ActionView::DeleteTree { hive, path: MD_KEY@ }),
        attempted(ActionView::DeleteTree { hive, path: MARKDOWN_KEY@ }),
        attempted(ActionView::DeleteTree { hive, path: FILE_CLASS_KEY@ }),
    ]
}

/// Writing the helper script `script` with `content` and starting it,
/// minimised and detached, through the command interpreter.
pub open spec fn helper_steps(script: Seq<char>, content: Seq<char>) -> Seq<StepView> {
    seq![
        required(ActionView::WriteFile { path: script, content }),
        required(
            ActionView::Spawn {
                program: "cmd"@,
                args: seq!["/c"@, "start"@, "/min"@, script],
            },
        ),
    ]
}

/// The whole uninstall of the copy `current_exe` of an install of `scope`,
/// in order: the shortcuts, the keys of the user's hive, the keys of the
/// machine's hive, the helper script, the exit. The removals are
/// best-effort and cover both scopes; the helper's two steps and the exit
/// are steps that the rest depends on.
pub open spec fn uninstall_steps_for(
    scope: InstallScope,
    env: EnvRoots,
    current_exe: Seq<char>,
    temp_dir: Seq<char>,
) -> Seq<StepView> {
    let dir = install_dir(scope, env);
    shortcut_removal_steps(env) + key_removal_steps(Hive::CurrentUser) + key_removal_steps(
        Hive::LocalMachine,
    ) + helper_steps(joined(temp_dir, SCRIPT_NAME@), script_text(current_exe, dir)) + exit_steps()
}

/// The whole uninstall of the running copy `current_exe`, whose scope its
/// path tells.
pub open spec fn uninstall_steps(env: EnvRoots, current_exe: Seq<char>, temp_dir: Seq<char>) -> Seq<
    StepView,
> {
    uninstall_steps_for(scope_of(current_exe, env), env, current_exe, temp_dir)
}

/// Adds the attempt to delete the product's shortcut inside `folder`.
fn push_shortcut_removal(plan: &mut Plan, folder: &str)
    ensures
        final(plan)@ == old(plan)@.push(remove_file(shortcut_in(folder@))),
{
    plan.attempt(Action::RemoveFile { path: shortcut_path(folder) });
}

/// Adds the attempts to delete the product's keys of `hive`.
fn push_key_removal(plan: &mut Plan, hive: Hive)
    ensures
        final(plan)@ == old(plan)@ + key_removal_steps(hive),
{
    plan.attempt(Action::DeleteKey { hive, path: String::from_str(UNINSTALL_KEY) });
    plan.attempt(Action::DeleteTree { hive, path: String::from_str(MD_KEY) });
    plan.attempt(Action::DeleteTree { hive, path: String::from_str(MARKDOWN_KEY) });
    plan.attempt(Action::DeleteTree { hive, path: String::from_str(FILE_CLASS_KEY) });
}

/// Plans the uninstall of the copy `current_exe` of an install of `scope`,
/// with the helper script placed in `temp_dir`: see `uninstall_steps_for`.
pub fn uninstall_plan(
    scope: InstallScope,
    env: &EnvRoots,
    current_exe: &str,
    temp_dir: &str,
) -> (plan: Plan)
    ensures
        plan@ == uninstall_steps_for(scope, *env, current_exe@, temp_dir@),
{
    let dir = get_install_path(scope, env);
    let mut plan = Plan::new();
    push_shortcut_removal(&mut plan, desktop_path(InstallScope::PerUser, env).as_str());
    push_shortcut_removal(&mut plan, desktop_path(InstallScope::Machine, env).as_str());
    push_shortcut_removal(&mut plan, start_menu_path(InstallScope::PerUser, env).as_str());
    push_shortcut_removal(&mut plan, start_menu_path(InstallScope::Machine, env).as_str());
    push_key_removal(&mut plan, Hive::CurrentUser);
    push_key_removal(&mut plan, Hive::LocalMachine);
    let script = join_path(temp_dir, SCRIPT_NAME);
    let content = uninstall_script(current_exe, dir.as_str());
    let mut args: Vec<String> = Vec::new();
    args.push(String::from_str("/c"));
    args.push(String::from_str("start"));
    args.push(String::from_str("/min"));
    args.push(script.clone());
    assert(args@.map_values(|a: String| a@) =~= seq!["/c"@, "start"@, "/min"@, script@]);
    plan.require(Action::WriteFile { path: script, content });
    plan.require(Action::Spawn { program: String::from_str("cmd"), args });
    plan.require(Action::Exit { code: 0 });
    plan
}

/// Plans the uninstall of the running executable `current_exe`, with the
/// helper script placed in `temp_dir`. The caller performs the steps in
/// order and lets `Plan::advance` decide after each how the run goes on.
pub fn uninstall_app(env: &EnvRoots, current_exe: &str, temp_dir: &str) -> (plan: Plan)
    ensures
        plan@ == uninstall_steps(*env, current_exe@, temp_dir@),
{
    let scope = detect_scope(current_exe, env);
    uninstall_plan(scope, env, current_exe, temp_dir)
}

/// What every uninstall has in common: it has fifteen steps; the twelve
/// removals are best-effort, so that no leftover that is missing stops the
/// uninstall; writing the helper script, starting it and leaving are steps
/// that the rest depends on; and the last step leaves with exit code 0.
pub proof fn uninstall_shape(
    scope: InstallScope,
    env: EnvRoots,
    current_exe: Seq<char>,
    temp_dir: Seq<char>,
)
    ensures
        uninstall_steps_for(scope, env, current_exe, temp_dir).len() == 15,
        forall|i: int|
            0 <= i < 15 ==> ((#[trigger] uninstall_steps_for(
                scope,
                env,
                current_exe,
                temp_dir,
            )[i]).best_effort <==> i < 12),
        uninstall_steps_for(scope, env, current_exe, temp_dir)[12].action is WriteFile,
        uninstall_steps_for(scope, env, current_exe, temp_dir)[13].action is Spawn,
        uninstall_steps_for(scope, env, current_exe, temp_dir)[14] == required(
            ActionView::Exit { code: 0 },
        ),
{
}

/// No shortcut outlives the product: every shortcut that an install
/// creates, whatever its scope and options, is a file that every uninstall
/// in the same environment attempts to delete.
pub proof fn uninstall_removes_every_shortcut(
    scope: InstallScope,
    register_md: bool,
    desktop_shortcut: bool,
    start_menu: bool,
    launch_after: bool,
    env: EnvRoots,
    installer_exe: Seq<char>,
    date: Seq<char>,
    uninstall_scope: InstallScope,
    installed_copy: Seq<char>,
    temp_dir: Seq<char>,
    i: int,
)
    requires
        0 <= i < install_steps(
            scope,
            register_md,
            desktop_shortcut,
            start_menu,
            launch_after,
            env,
            installer_exe,
            date,
        ).len(),
        install_steps(
            scope,
            register_md,
            desktop_shortcut,
            start_menu,
            launch_after,
            env,
            installer_exe,
            date,
        )[i].action is CreateShortcut,
    ensures
        exists|j: int|
            0 <= j < uninstall_steps_for(uninstall_scope, env, installed_copy, temp_dir).len()
                && #[trigger] uninstall_steps_for(uninstall_scope, env, installed_copy, temp_dir)[j]
                == remove_file(
                install_steps(
                    scope,
                    register_md,
                    desktop_shortcut,
                    start_menu,
                    launch_after,
                    env,
                    installer_exe,
                    date,
                )[i].action->link,
            ),
{
    let install = install_steps(
        scope,
        register_md,
        desktop_shortcut,
        start_menu,
        launch_after,
        env,
        installer_exe,
        date,
    );
    let link = install[i].action->link;
    let uninstall = uninstall_steps_for(uninstall_scope, env, installed_copy, temp_dir);
    match scope {
        InstallScope::PerUser => {
            if link == shortcut_in(desktop_dir(scope, env)) {
                assert(uninstall[0] == remove_file(link));
            } else {
                assert(uninstall[2] == remove_file(link));
            }
        },
        InstallScope::Machine => {
            if link == shortcut_in(desktop_dir(scope, env)) {
                assert(uninstall[1] == remove_file(link));
            } else {
                assert(uninstall[3] == remove_file(link));
            }
        },
    }
}

/// `path` names one of the product's keys: its entry in the list of
/// installed programs, one of its two extensions, its file class, or a key
/// below one of these.
pub open spec fn product_key(path: Seq<char>) -> bool {
    within(path, UNINSTALL_KEY@) || within(path, MD_KEY@) || within(path, MARKDOWN_KEY@) || within(
        path,
        FILE_CLASS_KEY@,
    )
}

/// No product key is left in `keys`, in either hive.
pub open spec fn no_product_keys(keys: Set<KeyId>) -> bool {
    forall|k: KeyId| keys.contains(k) ==> !product_key(#[trigger] k.path)
}

/// The key removal of one hive adds no key and, where nothing lay below the
/// product's entry in the list of installed programs, leaves none of the
/// product's keys in that hive.
pub proof fn key_removal_clears_hive(keys: Set<KeyId>, hive: Hive)
    requires
        nothing_below(keys, UNINSTALL_KEY@),
    ensures
        keys_after(keys, key_removal_steps(hive)).subset_of(keys),
        forall|k: KeyId|
            keys_after(keys, key_removal_steps(hive)).contains(k) && k.hive == hive
                ==> !product_key(#[trigger] k.path),
{
    let entry = attempted(ActionView::DeleteKey { hive, path: UNINSTALL_KEY@ });
    let md = attempted(ActionView::DeleteTree { hive, path: MD_KEY@ });
    let markdown = attempted(ActionView::DeleteTree { hive, path: MARKDOWN_KEY@ });
    let class = attempted(ActionView::DeleteTree { hive, path: FILE_CLASS_KEY@ });
    let none = Seq::<StepView>::empty();
    assert(key_removal_steps(hive) =~= none.push(entry).push(md).push(markdown).push(class));
    keys_after_push(keys, none, entry);
    keys_after_push(keys, none.push(entry), md);
    keys_after_push(keys, none.push(entry).push(md), markdown);
    keys_after_push(keys, none.push(entry).push(md).push(markdown), class);
}

/// An install puts no key strictly below the product's entry in the list of
/// installed programs.
pub proof fn install_puts_nothing_below_entry(
    keys: Set<KeyId>,
    scope: InstallScope,
    register_md: bool,
    desktop_shortcut: bool,
    start_menu: bool,
    launch_after: bool,
    env: EnvRoots,
    current_exe: Seq<char>,
    date: Seq<char>,
)
    requires
        nothing_below(keys, UNINSTALL_KEY@),
    ensures
        nothing_below(
            keys_after(
                keys,
                install_steps(
                    scope,
                    register_md,
                    desktop_shortcut,
                    start_menu,
                    launch_after,
                    env,
                    current_exe,
                    date,
                ),
            ),
            UNINSTALL_KEY@,
        ),
{
    reveal_strlit("Software\\Microsoft\\Windows\\CurrentVersion\\Uninstall\\MarkdownViewer");
    reveal_strlit("Software\\Classes\\.md");
    reveal_strlit("Software\\Classes\\.markdown");
    reveal_strlit("Software\\Classes\\MarkdownViewer.File");
    reveal_strlit("Software\\Classes\\MarkdownViewer.File\\DefaultIcon");
    reveal_strlit("Software\\Classes\\MarkdownViewer.File\\shell\\open\\command");
    short_creates_put_nothing_below(
        keys,
        install_steps(
            scope,
            register_md,
            desktop_shortcut,
            start_menu,
            launch_after,
            env,
            current_exe,
            date,
        ),
        UNINSTALL_KEY@,
    );
}

/// An uninstall adds no key and, where nothing lay below the product's
/// entry in the list of installed programs, leaves none of the product's
/// keys in either hive.
pub proof fn uninstall_leaves_no_product_keys(
    keys: Set<KeyId>,
    env: EnvRoots,
    current_exe: Seq<char>,
    temp_dir: Seq<char>,
)
    requires
        nothing_below(keys, UNINSTALL_KEY@),
    ensures
        keys_after(keys, uninstall_steps(env, current_exe, temp_dir)).subset_of(keys),
        no_product_keys(keys_after(keys, uninstall_steps(env, current_exe, temp_dir))),
{
    let dir = install_dir(scope_of(current_exe, env), env);
    let a = shortcut_removal_steps(env);
    let b = key_removal_steps(Hive::CurrentUser);
    let c = key_removal_steps(Hive::LocalMachine);
    let d = helper_steps(joined(temp_dir, SCRIPT_NAME@), script_text(current_exe, dir));
    let e = exit_steps();
    keys_after_concat(keys, a + b + c + d, e);
    keys_after_concat(keys, a + b + c, d);
    keys_after_concat(keys, a + b, c);
    keys_after_concat(keys, a, b);
    let k1 = keys_after(keys, a);
    keys_only_shrink(keys, a);
    let k2 = keys_after(k1, b);
    key_removal_clears_hive(k1, Hive::CurrentUser);
    let k3 = keys_after(k2, c);
    key_removal_clears_hive(k2, Hive::LocalMachine);
    let k4 = keys_after(k3, d);
    keys_only_shrink(k3, d);
    let k5 = keys_after(k4, e);
    keys_only_shrink(k4, e);
}

/// Install, then uninstall: whatever the scope and the options of the
/// install, none of the product's keys is left in either hive, neither its
/// entry in the list of installed programs nor the keys of its file
/// association. This holds of every registry in which nothing lay below the
/// product's entry beforehand: the entry is deleted as a single key, which
/// fails where it has subkeys.
pub proof fn install_then_uninstall_leaves_no_keys(
    keys: Set<KeyId>,
    scope: InstallScope,
    register_md: bool,
    desktop_shortcut: bool,
    start_menu: bool,
    launch_after: bool,
    env: EnvRoots,
    installer_exe: Seq<char>,
    date: Seq<char>,
    installed_copy: Seq<char>,
    temp_dir: Seq<char>,
)
    requires
        nothing_below(keys, UNINSTALL_KEY@),
    ensures
        no_product_keys(
            keys_after(
                keys_after(
                    keys,
                    install_steps(
                        scope,
                        register_md,
                        desktop_shortcut,
                        start_menu,
                        launch_after,
                        env,
                        installer_exe,
                        date,
                    ),
                ),
                uninstall_steps(env, installed_copy, temp_dir),
            ),
        ),
{
    install_puts_nothing_below_entry(
        keys,
        scope,
        register_md,
        desktop_shortcut,
        start_menu,
        launch_after,
        env,
        installer_exe,
        date,
    );
    let installed = keys_after(
        keys,
        install_steps(
            scope,
            register_md,
            desktop_shortcut,
            start_menu,
            launch_after,
            env,
            installer_exe,
            date,
        ),
    );
    uninstall_leaves_no_product_keys(installed, env, installed_copy, temp_dir);
}

} // verus!

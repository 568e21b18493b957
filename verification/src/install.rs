//! The install plan: copy the running executable to the install directory,
//! create the shortcuts asked for, enter the product in the list of
//! installed programs, register its file types, start the installed copy and
//! leave.

use crate::paths::{
    desktop_dir, desktop_path, get_install_path, install_dir, installed_exe, installed_exe_path,
    shortcut_in, shortcut_path, start_menu_dir, start_menu_path, EnvRoots, InstallScope,
    APP_NAME,
};
use crate::plan::{
    attempted, best_effort_iff_deletion, every_step, every_step_concat,
    only_deletions_are_best_effort, required, stays_in, touches_only, Action, ActionView, Hive,
    Plan, RegistryValue, RegistryValueView, StepView,
};
use crate::registry::{
    created_first_and_kept, keys_after, keys_after_concat, keys_only_grow, KeyId,
};
use crate::text::append_to;
use vstd::prelude::*;
use vstd::string::*;

verus! {

/// The key that enters the product in the list of installed programs.
pub const UNINSTALL_KEY: &'static str =
    "Software\\Microsoft\\Windows\\CurrentVersion\\Uninstall\\MarkdownViewer";

/// The key of the `.md` extension.
pub const MD_KEY: &'static str = "Software\\Classes\\.md";

/// The key of the `.markdown` extension.
pub const MARKDOWN_KEY: &'static str = "Software\\Classes\\.markdown";

/// The name of the file class that both extensions point to.
pub const FILE_CLASS: &'static str = "MarkdownViewer.File";

/// The key of the file class.
pub const FILE_CLASS_KEY: &'static str = "Software\\Classes\\MarkdownViewer.File";

/// The key that names the icon of the file class.
pub const ICON_KEY: &'static str = "Software\\Classes\\MarkdownViewer.File\\DefaultIcon";

/// The key that names the command which opens a file of the class.
pub const COMMAND_KEY: &'static str =
    "Software\\Classes\\MarkdownViewer.File\\shell\\open\\command";

/// The hive that an install of `scope` writes to.
pub open spec fn scope_hive(scope: InstallScope) -> Hive {
    match scope {
        InstallScope::Machine => Hive::LocalMachine,
        InstallScope::PerUser => Hive::CurrentUser,
    }
}

/// The hive that an install of `scope` writes to.
pub fn hive_of(scope: InstallScope) -> (hive: Hive)
    ensures
        hive == scope_hive(scope),
{
    match scope {
        InstallScope::Machine => Hive::LocalMachine,
        InstallScope::PerUser => Hive::CurrentUser,
    }
}

/// The step that stores the string `value` as `name` under `path`.
pub open spec fn set_text(
    hive: Hive,
    path: Seq<char>,
    name: Seq<char>,
    value: Seq<char>,
) -> StepView {
    required(ActionView::SetValue { hive, path, name, value: RegistryValueView::Text(value) })
}

/// The step that stores the number `value` as `name` under `path`.
pub open spec fn set_number(hive: Hive, path: Seq<char>, name: Seq<char>, value: u32) -> StepView {
    required(ActionView::SetValue { hive, path, name, value: RegistryValueView::Number(value) })
}

/// The step that creates the key `path`.
pub open spec fn create_key(hive: Hive, path: Seq<char>) -> StepView {
    required(ActionView::CreateKey { hive, path })
}

/// The command line that uninstalls the copy at `target`.
pub open spec fn uninstall_command(target: Seq<char>) -> Seq<char> {
    "\""@ + target + "\" --uninstall"@
}

/// The icon of the file class: the first icon of the executable `target`.
pub open spec fn icon_value(target: Seq<char>) -> Seq<char> {
    "\""@ + target + "\",0"@
}

/// The command that opens a file with the executable `target`.
pub open spec fn open_command(target: Seq<char>) -> Seq<char> {
    "\""@ + target + "\" \"%1\""@
}

/// Creating the install directory `dir` and copying `current_exe` to
/// `target`.
pub open spec fn copy_steps(dir: Seq<char>, current_exe: Seq<char>, target: Seq<char>) -> Seq<
    StepView,
> {
    seq![
        required(ActionView::EnsureDir { path: dir }),
        required(ActionView::CopyFile { from: current_exe, to: target }),
    ]
}

/// The shortcut to `target` inside `folder`, if `wanted`.
pub open spec fn shortcut_steps(wanted: bool, folder: Seq<char>, target: Seq<char>) -> Seq<
    StepView,
> {
    if wanted {
        seq![required(ActionView::CreateShortcut { link: shortcut_in(folder), target })]
    } else {
        Seq::empty()
    }
}

/// Before a machine-wide install, the attempt to remove the machine's entry
/// that an earlier installer may have left; its failure is passed over.
pub open spec fn legacy_cleanup_steps(scope: InstallScope) -> Seq<StepView> {
    match scope {
        InstallScope::Machine => seq![
            attempted(ActionView::DeleteKey { hive: Hive::LocalMachine, path: UNINSTALL_KEY@ }),
        ],
        InstallScope::PerUser => Seq::empty(),
    }
}

/// The entry in the list of installed programs for the copy at `target`
/// inside `dir`, installed on `date`.
pub open spec fn uninstall_entry_steps(
    hive: Hive,
    target: Seq<char>,
    dir: Seq<char>,
    date: Seq<char>,
) -> Seq<StepView> {
    seq![
        create_key(hive, UNINSTALL_KEY@),
        set_text(hive, UNINSTALL_KEY@, "DisplayName"@, APP_NAME@),
        set_text(hive, UNINSTALL_KEY@, "UninstallString"@, uninstall_command(target)),
        set_text(hive, UNINSTALL_KEY@, "QuietUninstallString"@, uninstall_command(target)),
        set_text(hive, UNINSTALL_KEY@, "DisplayIcon"@, target),
        set_text(hive, UNINSTALL_KEY@, "Publisher"@, "alecdotdev"@),
        set_text(hive, UNINSTALL_KEY@, "DisplayVersion"@, "2.0.0"@),
        set_text(hive, UNINSTALL_KEY@, "InstallLocation"@, dir),
        set_number(hive, UNINSTALL_KEY@, "NoModify"@, 1),
        set_number(hive, UNINSTALL_KEY@, "NoRepair"@, 1),
        set_text(hive, UNINSTALL_KEY@, "InstallDate"@, date),
        required(ActionView::RecordSize { hive, path: UNINSTALL_KEY@, file: target }),
    ]
}

/// The file association: both extensions name the file class, and the file
/// class names its icon and its open command, both at `target`.
pub open spec fn association_steps(hive: Hive, target: Seq<char>) -> Seq<StepView> {
    seq![
        create_key(hive, MD_KEY@),
        set_text(hive, MD_KEY@, ""@, FILE_CLASS@),
        create_key(hive, MARKDOWN_KEY@),
        set_text(hive, MARKDOWN_KEY@, ""@, FILE_CLASS@),
        create_key(hive, FILE_CLASS_KEY@),
        set_text(hive, FILE_CLASS_KEY@, ""@, "Markdown File"@),
        create_key(hive, ICON_KEY@),
        set_text(hive, ICON_KEY@, ""@, icon_value(target)),
        create_key(hive, COMMAND_KEY@),
        set_text(hive, COMMAND_KEY@, ""@, open_command(target)),
    ]
}

/// The file association, if `wanted`.
pub open spec fn optional_association_steps(wanted: bool, hive: Hive, target: Seq<char>) -> Seq<
    StepView,
> {
    if wanted {
        association_steps(hive, target)
    } else {
        Seq::empty()
    }
}

/// Starting the installed copy, if `wanted`.
pub open spec fn launch_steps(wanted: bool, target: Seq<char>) -> Seq<StepView> {
    if wanted {
        seq![required(ActionView::Spawn { program: target, args: Seq::empty() })]
    } else {
        Seq::empty()
    }
}

/// Leaving with exit code 0.
pub open spec fn exit_steps() -> Seq<StepView> {
    seq![required(ActionView::Exit { code: 0 })]
}

/// The whole install, in order: directory and copy, shortcuts, the entry in
/// the list of installed programs, the file association, the launch, the
/// exit. Every step but the legacy cleanup is one that the rest depends on.
pub open spec fn install_steps(
    scope: InstallScope,
    register_md: bool,
    desktop_shortcut: bool,
    start_menu: bool,
    launch_after: bool,
    env: EnvRoots,
    current_exe: Seq<char>,
    date: Seq<char>,
) -> Seq<StepView> {
    let dir = install_dir(scope, env);
    let target = installed_exe(scope, env);
    copy_steps(dir, current_exe, target) + shortcut_steps(
        desktop_shortcut,
        desktop_dir(scope, env),
        target,
    ) + shortcut_steps(start_menu, start_menu_dir(scope, env), target) + legacy_cleanup_steps(
        scope,
    ) + uninstall_entry_steps(scope_hive(scope), target, dir, date) + optional_association_steps(
        register_md,
        scope_hive(scope),
        target,
    ) + launch_steps(launch_after, target) + exit_steps()
}

/// What every install has in common, whatever its scope and options: its
/// registry steps touch the hive of its scope and no other; the one
/// best-effort step is the legacy cleanup, so that any other failure ends
/// the run; and the last step leaves with exit code 0.
pub proof fn install_shape(
    scope: InstallScope,
    register_md: bool,
    desktop_shortcut: bool,
    start_menu: bool,
    launch_after: bool,
    env: EnvRoots,
    current_exe: Seq<char>,
    date: Seq<char>,
)
    ensures
        touches_only(
            install_steps(
                scope,
                register_md,
                desktop_shortcut,
                start_menu,
                launch_after,
                env,
                current_exe,
                date,
            ),
            scope_hive(scope),
        ),
        only_deletions_are_best_effort(
            install_steps(
                scope,
                register_md,
                desktop_shortcut,
                start_menu,
                launch_after,
                env,
                current_exe,
                date,
            ),
        ),
        install_steps(
            scope,
            register_md,
            desktop_shortcut,
            start_menu,
            launch_after,
            env,
            current_exe,
            date,
        ).last() == required(ActionView::Exit { code: 0 }),
{
    let hive = scope_hive(scope);
    let dir = install_dir(scope, env);
    let target = installed_exe(scope, env);
    let a = copy_steps(dir, current_exe, target);
    let b = shortcut_steps(desktop_shortcut, desktop_dir(scope, env), target);
    let c = shortcut_steps(start_menu, start_menu_dir(scope, env), target);
    let d = legacy_cleanup_steps(scope);
    let e = uninstall_entry_steps(hive, target, dir, date);
    let f = optional_association_steps(register_md, hive, target);
    let g = launch_steps(launch_after, target);
    let h = exit_steps();
    let in_hive = |step: StepView| stays_in(step, hive);
    let firm = |step: StepView| best_effort_iff_deletion(step);
    assert(every_step(a, in_hive) && every_step(a, firm));
    assert(every_step(b, in_hive) && every_step(b, firm));
    assert(every_step(c, in_hive) && every_step(c, firm));
    assert(every_step(d, in_hive) && every_step(d, firm));
    assert(every_step(e, in_hive) && every_step(e, firm));
    assert(every_step(f, in_hive) && every_step(f, firm));
    assert(every_step(g, in_hive) && every_step(g, firm));
    assert(every_step(h, in_hive) && every_step(h, firm));
    every_step_concat(a, b, in_hive);
    every_step_concat(a + b, c, in_hive);
    every_step_concat(a + b + c, d, in_hive);
    every_step_concat(a + b + c + d, e, in_hive);
    every_step_concat(a + b + c + d + e, f, in_hive);
    every_step_concat(a + b + c + d + e + f, g, in_hive);
    every_step_concat(a + b + c + d + e + f + g, h, in_hive);
    every_step_concat(a, b, firm);
    every_step_concat(a + b, c, firm);
    every_step_concat(a + b + c, d, firm);
    every_step_concat(a + b + c + d, e, firm);
    every_step_concat(a + b + c + d + e, f, firm);
    every_step_concat(a + b + c + d + e + f, g, firm);
    every_step_concat(a + b + c + d + e + f + g, h, firm);
}

/// An install whose steps all take effect enters the product in the list
/// of installed programs of its scope's hive, whatever the registry held
/// before; and where the file types are registered, both extensions and
/// the file class are there too.
pub proof fn install_creates_its_keys(
    keys: Set<KeyId>,
    scope: InstallScope,
    register_md: bool,
    desktop_shortcut: bool,
    start_menu: bool,
    launch_after: bool,
    env: EnvRoots,
    current_exe: Seq<char>,
    date: Seq<char>,
)
    ensures
        ({
            let after = keys_after(
                keys,
                install_steps(
                    scope,
                    register_md,
                    desktop_shortcut,
                    start_menu,
                    launch_after,
                    env,
                    current_exe,
                    date,
                ),
            );
            let hive = scope_hive(scope);
            &&& after.contains(KeyId { hive, path: UNINSTALL_KEY@ })
            &&& register_md ==> {
                &&& after.contains(KeyId { hive, path: MD_KEY@ })
                &&& after.contains(KeyId { hive, path: MARKDOWN_KEY@ })
                &&& after.contains(KeyId { hive, path: FILE_CLASS_KEY@ })
            }
        }),
{
    let hive = scope_hive(scope);
    let dir = install_dir(scope, env);
    let target = installed_exe(scope, env);
    let a = copy_steps(dir, current_exe, target);
    let b = shortcut_steps(desktop_shortcut, desktop_dir(scope, env), target);
    let c = shortcut_steps(start_menu, start_menu_dir(scope, env), target);
    let d = legacy_cleanup_steps(scope);
    let e = uninstall_entry_steps(hive, target, dir, date);
    let f = optional_association_steps(register_md, hive, target);
    let g = launch_steps(launch_after, target);
    let h = exit_steps();
    let before = a + b + c + d;
    keys_after_concat(keys, before + e + f + g, h);
    keys_after_concat(keys, before + e + f, g);
    keys_after_concat(keys, before + e, f);
    keys_after_concat(keys, before, e);
    let k0 = keys_after(keys, before);
    let k1 = keys_after(k0, e);
    let k2 = keys_after(k1, f);
    let k3 = keys_after(k2, g);
    created_first_and_kept(k0, e, hive, UNINSTALL_KEY@);
    keys_only_grow(k1, f);
    keys_only_grow(k2, g);
    keys_only_grow(k3, h);
    if register_md {
        let md = f.subrange(0, 2);
        let markdown = f.subrange(2, 4);
        let class = f.subrange(4, 10);
        assert(f =~= md + markdown + class);
        keys_after_concat(k1, md + markdown, class);
        keys_after_concat(k1, md, markdown);
        created_first_and_kept(k1, md, hive, MD_KEY@);
        let m1 = keys_after(k1, md);
        created_first_and_kept(m1, markdown, hive, MARKDOWN_KEY@);
        let m2 = keys_after(m1, markdown);
        created_first_and_kept(m2, class, hive, FILE_CLASS_KEY@);
        keys_only_grow(m1, markdown);
        keys_only_grow(m2, class);
    }
}

/// The size estimate that the list of installed programs shows for a file
/// of `len` bytes: whole kibibytes, of which the low 32 bits are kept.
pub open spec fn size_kb(len: u64) -> u32 {
    ((len / 1024) % 0x1_0000_0000) as u32
}

/// The size estimate for a file of `len` bytes.
pub fn estimated_size_kb(len: u64) -> (kb: u32)
    ensures
        kb == size_kb(len),
{
    ((len / 1024) % 0x1_0000_0000) as u32
}

/// What a `RecordSize` step stores once the size query is answered: nothing
/// where the query failed, else the estimate as `EstimatedSize`.
pub open spec fn size_record_of(hive: Hive, path: Seq<char>, len: Option<u64>) -> Option<
    ActionView,
> {
    match len {
        Some(n) => Some(
            ActionView::SetValue {
                hive,
                path,
                name: "EstimatedSize"@,
                value: RegistryValueView::Number(size_kb(n)),
            },
        ),
        None => None,
    }
}

/// Resolves a `RecordSize` step: `len` is the size of the step's file, or
/// `None` where it could not be had. Gives the registry write to perform,
/// and none where the size is unknown, which is no failure.
pub fn size_record(hive: Hive, path: &str, len: Option<u64>) -> (r: Option<Action>)
    ensures
        match r {
            Some(action) => size_record_of(hive, path@, len) == Some(action@),
            None => size_record_of(hive, path@, len) is None,
        },
{
    match len {
        Some(n) => Some(
            Action::SetValue {
                hive,
                path: String::from_str(path),
                name: String::from_str("EstimatedSize"),
                value: RegistryValue::Number(estimated_size_kb(n)),
            },
        ),
        None => None,
    }
}

/// `value` as an owned string.
fn text(value: &str) -> (r: String)
    ensures
        r@ == value@,
{
    String::from_str(value)
}

/// Adds the step that stores the string `value` as `name` under `path`.
fn push_text(plan: &mut Plan, hive: Hive, path: &str, name: &str, value: &str)
    ensures
        final(plan)@ == old(plan)@.push(set_text(hive, path@, name@, value@)),
{
    plan.require(
        Action::SetValue {
            hive,
            path: text(path),
            name: text(name),
            value: RegistryValue::Text(text(value)),
        },
    );
}

/// Adds the step that stores the number `value` as `name` under `path`.
fn push_number(plan: &mut Plan, hive: Hive, path: &str, name: &str, value: u32)
    ensures
        final(plan)@ == old(plan)@.push(set_number(hive, path@, name@, value)),
{
    plan.require(
        Action::SetValue {
            hive,
            path: text(path),
            name: text(name),
            value: RegistryValue::Number(value),
        },
    );
}

/// Adds the step that creates the key `path`.
fn push_key(plan: &mut Plan, hive: Hive, path: &str)
    ensures
        final(plan)@ == old(plan)@.push(create_key(hive, path@)),
{
    plan.require(Action::CreateKey { hive, path: text(path) });
}

/// `target` between double quotes, followed by `tail`.
fn quoted_then(target: &str, tail: &str) -> (r: String)
    ensures
        r@ == "\""@ + target@ + tail@,
{
    let opened = append_to("\"", target);
    append_to(opened.as_str(), tail)
}

/// The steps that enter the copy at `target` inside `dir`, installed on
/// `date`, in the list of installed programs of `hive`.
pub fn uninstall_entry(hive: Hive, target: &str, dir: &str, date: &str) -> (plan: Plan)
    ensures
        plan@ == uninstall_entry_steps(hive, target@, dir@, date@),
{
    let command = quoted_then(target, "\" --uninstall");
    let mut plan = Plan::new();
    push_key(&mut plan, hive, UNINSTALL_KEY);
    push_text(&mut plan, hive, UNINSTALL_KEY, "DisplayName", APP_NAME);
    push_text(&mut plan, hive, UNINSTALL_KEY, "UninstallString", command.as_str());
    push_text(&mut plan, hive, UNINSTALL_KEY, "QuietUninstallString", command.as_str());
    push_text(&mut plan, hive, UNINSTALL_KEY, "DisplayIcon", target);
    push_text(&mut plan, hive, UNINSTALL_KEY, "Publisher", "alecdotdev");
    push_text(&mut plan, hive, UNINSTALL_KEY, "DisplayVersion", "2.0.0");
    push_text(&mut plan, hive, UNINSTALL_KEY, "InstallLocation", dir);
    push_number(&mut plan, hive, UNINSTALL_KEY, "NoModify", 1);
    push_number(&mut plan, hive, UNINSTALL_KEY, "NoRepair", 1);
    push_text(&mut plan, hive, UNINSTALL_KEY, "InstallDate", date);
    plan.require(Action::RecordSize { hive, path: text(UNINSTALL_KEY), file: text(target) });
    plan
}

/// The steps that register the `.md` and `.markdown` extensions under
/// `hive` and point their shared file class at the executable `exe_path`.
pub fn register_file_association(exe_path: &str, hive: Hive) -> (plan: Plan)
    ensures
        plan@ == association_steps(hive, exe_path@),
{
    let icon = quoted_then(exe_path, "\",0");
    let command = quoted_then(exe_path, "\" \"%1\"");
    let mut plan = Plan::new();
    push_key(&mut plan, hive, MD_KEY);
    push_text(&mut plan, hive, MD_KEY, "", FILE_CLASS);
    push_key(&mut plan, hive, MARKDOWN_KEY);
    push_text(&mut plan, hive, MARKDOWN_KEY, "", FILE_CLASS);
    push_key(&mut plan, hive, FILE_CLASS_KEY);
    push_text(&mut plan, hive, FILE_CLASS_KEY, "", "Markdown File");
    push_key(&mut plan, hive, ICON_KEY);
    push_text(&mut plan, hive, ICON_KEY, "", icon.as_str());
    push_key(&mut plan, hive, COMMAND_KEY);
    push_text(&mut plan, hive, COMMAND_KEY, "", command.as_str());
    plan
}

/// Adds the shortcut to `target` inside `folder`, if `wanted`.
fn push_shortcut(plan: &mut Plan, wanted: bool, folder: &str, target: &str)
    ensures
        final(plan)@ == old(plan)@ + shortcut_steps(wanted, folder@, target@),
{
    if wanted {
        plan.require(Action::CreateShortcut { link: shortcut_path(folder), target: text(target) });
    }
}

/// The install plan for a copy installed on `date`: see `install_steps`.
pub fn install_plan(
    scope: InstallScope,
    register_md: bool,
    desktop_shortcut: bool,
    start_menu: bool,
    launch_after: bool,
    env: &EnvRoots,
    current_exe: &str,
    date: &str,
) -> (plan: Plan)
    ensures
        plan@ == install_steps(
            scope,
            register_md,
            desktop_shortcut,
            start_menu,
            launch_after,
            *env,
            current_exe@,
            date@,
        ),
{
    let dir = get_install_path(scope, env);
    let target = installed_exe_path(scope, env);
    let hive = hive_of(scope);
    let mut plan = Plan::new();
    plan.require(Action::EnsureDir { path: dir.clone() });
    plan.require(Action::CopyFile { from: text(current_exe), to: target.clone() });
    push_shortcut(&mut plan, desktop_shortcut, desktop_path(scope, env).as_str(), target.as_str());
    push_shortcut(&mut plan, start_menu, start_menu_path(scope, env).as_str(), target.as_str());
    match scope {
        InstallScope::Machine => {
            plan.attempt(Action::DeleteKey { hive: Hive::LocalMachine, path: text(UNINSTALL_KEY) });
        },
        InstallScope::PerUser => {},
    }
    plan.extend(uninstall_entry(hive, target.as_str(), dir.as_str(), date));
    if register_md {
        plan.extend(register_file_association(target.as_str(), hive));
    }
    if launch_after {
        plan.require(Action::Spawn { program: target.clone(), args: Vec::new() });
        assert(Seq::<String>::empty().map_values(|a: String| a@) =~= Seq::<Seq<char>>::empty());
    }
    plan.require(Action::Exit { code: 0 });
    plan
}

/// Calls `chrono::Local::now` and formats the date with `%Y%m%d`: the local
/// calendar date as year, month and day. Trusted, and nothing is claimed of
/// the result, which depends on the clock and the time zone of the machine.
#[verifier::external_body]
fn local_date_stamp() -> String {
    chrono::Local::now().format("%Y%m%d").to_string()
}

/// Plans the install of the running executable `current_exe` for `scope`,
/// dated today. The caller performs the steps in order and lets
/// `Plan::advance` decide after each how the run goes on.
///
/// The plan is `install_steps` with today's date stamp as the install date;
/// `install_plan` gives the plan for a date of the caller's choice.
pub fn install_app(
    scope: InstallScope,
    register_md: bool,
    desktop_shortcut: bool,
    start_menu: bool,
    launch_after: bool,
    env: &EnvRoots,
    current_exe: &str,
) -> (plan: Plan)
    ensures
        exists|date: Seq<char>|
            plan@ == #[trigger] install_steps(
                scope,
                register_md,
                desktop_shortcut,
                start_menu,
                launch_after,
                *env,
                current_exe@,
                date,
            ),
{
    let date = local_date_stamp();
    install_plan(
        scope,
        register_md,
        desktop_shortcut,
        start_menu,
        launch_after,
        env,
        current_exe,
        date.as_str(),
    )
}

} // verus!

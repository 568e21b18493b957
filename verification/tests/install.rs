use markpad::install::{
    estimated_size_kb, hive_of, install_app, install_plan, register_file_association, size_record,
    uninstall_entry, COMMAND_KEY, FILE_CLASS, FILE_CLASS_KEY, ICON_KEY, MARKDOWN_KEY, MD_KEY,
    UNINSTALL_KEY,
};
use markpad::paths::{EnvRoots, InstallScope};
use markpad::plan::{Action, Hive, Plan, RegistryValue, Step};

const ENTRY: &str = "Software\\Microsoft\\Windows\\CurrentVersion\\Uninstall\\MarkdownViewer";

fn roots() -> EnvRoots {
    EnvRoots {
        local_app_data: Some("C:\\Users\\ann\\AppData\\Local".to_string()),
        user_profile: Some("C:\\Users\\ann".to_string()),
        public_profile: Some("C:\\Users\\Public".to_string()),
        program_data: Some("C:\\ProgramData".to_string()),
        program_files: Some("C:\\Program Files".to_string()),
        roaming_app_data: Some("C:\\Users\\ann\\AppData\\Roaming".to_string()),
    }
}

fn required(action: Action) -> Step {
    Step { action, best_effort: false }
}

fn attempted(action: Action) -> Step {
    Step { action, best_effort: true }
}

fn key(hive: Hive, path: &str) -> Step {
    required(Action::CreateKey { hive, path: path.to_string() })
}

fn text(hive: Hive, path: &str, name: &str, value: &str) -> Step {
    required(Action::SetValue {
        hive,
        path: path.to_string(),
        name: name.to_string(),
        value: RegistryValue::Text(value.to_string()),
    })
}

fn number(hive: Hive, path: &str, name: &str, value: u32) -> Step {
    required(Action::SetValue {
        hive,
        path: path.to_string(),
        name: name.to_string(),
        value: RegistryValue::Number(value),
    })
}

fn entry_steps(hive: Hive, target: &str, dir: &str, date: &str) -> Vec<Step> {
    let command = format!("\"{}\" --uninstall", target);
    vec![
        key(hive, ENTRY),
        text(hive, ENTRY, "DisplayName", "MarkdownViewer"),
        text(hive, ENTRY, "UninstallString", &command),
        text(hive, ENTRY, "QuietUninstallString", &command),
        text(hive, ENTRY, "DisplayIcon", target),
        text(hive, ENTRY, "Publisher", "alecdotdev"),
        text(hive, ENTRY, "DisplayVersion", "2.0.0"),
        text(hive, ENTRY, "InstallLocation", dir),
        number(hive, ENTRY, "NoModify", 1),
        number(hive, ENTRY, "NoRepair", 1),
        text(hive, ENTRY, "InstallDate", date),
        required(Action::RecordSize {
            hive,
            path: ENTRY.to_string(),
            file: target.to_string(),
        }),
    ]
}

fn association(hive: Hive, target: &str) -> Vec<Step> {
    vec![
        key(hive, "Software\\Classes\\.md"),
        text(hive, "Software\\Classes\\.md", "", "MarkdownViewer.File"),
        key(hive, "Software\\Classes\\.markdown"),
        text(hive, "Software\\Classes\\.markdown", "", "MarkdownViewer.File"),
        key(hive, "Software\\Classes\\MarkdownViewer.File"),
        text(hive, "Software\\Classes\\MarkdownViewer.File", "", "Markdown File"),
        key(hive, "Software\\Classes\\MarkdownViewer.File\\DefaultIcon"),
        text(
            hive,
            "Software\\Classes\\MarkdownViewer.File\\DefaultIcon",
            "",
            &format!("\"{}\",0", target),
        ),
        key(hive, "Software\\Classes\\MarkdownViewer.File\\shell\\open\\command"),
        text(
            hive,
            "Software\\Classes\\MarkdownViewer.File\\shell\\open\\command",
            "",
            &format!("\"{}\" \"%1\"", target),
        ),
    ]
}

#[test]
fn registry_key_names() {
    assert_eq!(UNINSTALL_KEY, ENTRY);
    assert_eq!(MD_KEY, "Software\\Classes\\.md");
    assert_eq!(MARKDOWN_KEY, "Software\\Classes\\.markdown");
    assert_eq!(FILE_CLASS, "MarkdownViewer.File");
    assert_eq!(FILE_CLASS_KEY, "Software\\Classes\\MarkdownViewer.File");
    assert_eq!(ICON_KEY, "Software\\Classes\\MarkdownViewer.File\\DefaultIcon");
    assert_eq!(COMMAND_KEY, "Software\\Classes\\MarkdownViewer.File\\shell\\open\\command");
}

#[test]
fn scope_picks_the_hive() {
    assert_eq!(hive_of(InstallScope::Machine), Hive::LocalMachine);
    assert_eq!(hive_of(InstallScope::PerUser), Hive::CurrentUser);
}

#[test]
fn full_machine_install() {
    let plan = install_plan(
        InstallScope::Machine,
        true,
        true,
        true,
        true,
        &roots(),
        "D:\\Downloads\\markpad-installer.exe",
        "20240131",
    );
    let dir = "C:\\Program Files\\MarkdownViewer";
    let target = "C:\\Program Files\\MarkdownViewer\\MarkdownViewer.exe";
    let hive = Hive::LocalMachine;
    let mut expected = vec![
        required(Action::EnsureDir { path: dir.to_string() }),
        required(Action::CopyFile {
            from: "D:\\Downloads\\markpad-installer.exe".to_string(),
            to: target.to_string(),
        }),
        required(Action::CreateShortcut {
            link: "C:\\Users\\Public\\Desktop\\MarkdownViewer.lnk".to_string(),
            target: target.to_string(),
        }),
        required(Action::CreateShortcut {
            link: "C:\\ProgramData\\Microsoft\\Windows\\Start Menu\\Programs\\MarkdownViewer.lnk"
                .to_string(),
            target: target.to_string(),
        }),
        attempted(Action::DeleteKey { hive: Hive::LocalMachine, path: ENTRY.to_string() }),
    ];
    expected.extend(entry_steps(hive, target, dir, "20240131"));
    expected.extend(association(hive, target));
    expected.push(required(Action::Spawn { program: target.to_string(), args: vec![] }));
    expected.push(required(Action::Exit { code: 0 }));
    assert_eq!(plan, Plan { steps: expected });
}

#[test]
fn bare_user_install() {
    let plan = install_plan(
        InstallScope::PerUser,
        false,
        false,
        false,
        false,
        &roots(),
        "D:\\x.exe",
        "19991231",
    );
    let dir = "C:\\Users\\ann\\AppData\\Local\\MarkdownViewer";
    let target = "C:\\Users\\ann\\AppData\\Local\\MarkdownViewer\\MarkdownViewer.exe";
    let mut expected = vec![
        required(Action::EnsureDir { path: dir.to_string() }),
        required(Action::CopyFile { from: "D:\\x.exe".to_string(), to: target.to_string() }),
    ];
    expected.extend(entry_steps(Hive::CurrentUser, target, dir, "19991231"));
    expected.push(required(Action::Exit { code: 0 }));
    assert_eq!(plan, Plan { steps: expected });
}

#[test]
fn user_install_with_shortcuts_and_association() {
    let plan = install_plan(
        InstallScope::PerUser,
        true,
        true,
        true,
        false,
        &roots(),
        "D:\\x.exe",
        "20250101",
    );
    let dir = "C:\\Users\\ann\\AppData\\Local\\MarkdownViewer";
    let target = "C:\\Users\\ann\\AppData\\Local\\MarkdownViewer\\MarkdownViewer.exe";
    let mut expected = vec![
        required(Action::EnsureDir { path: dir.to_string() }),
        required(Action::CopyFile { from: "D:\\x.exe".to_string(), to: target.to_string() }),
        required(Action::CreateShortcut {
            link: "C:\\Users\\ann\\Desktop\\MarkdownViewer.lnk".to_string(),
            target: target.to_string(),
        }),
        required(Action::CreateShortcut {
            link:
                "C:\\Users\\ann\\AppData\\Roaming\\Microsoft\\Windows\\Start Menu\\Programs\\MarkdownViewer.lnk"
                    .to_string(),
            target: target.to_string(),
        }),
    ];
    expected.extend(entry_steps(Hive::CurrentUser, target, dir, "20250101"));
    expected.extend(association(Hive::CurrentUser, target));
    expected.push(required(Action::Exit { code: 0 }));
    assert_eq!(plan, Plan { steps: expected });
}

#[test]
fn each_option_adds_its_own_steps() {
    let env = roots();
    let base = install_plan(InstallScope::PerUser, false, false, false, false, &env, "x", "d").len();
    assert_eq!(base, 15);
    assert_eq!(install_plan(InstallScope::PerUser, true, false, false, false, &env, "x", "d").len(), base + 10);
    assert_eq!(install_plan(InstallScope::PerUser, false, true, false, false, &env, "x", "d").len(), base + 1);
    assert_eq!(install_plan(InstallScope::PerUser, false, false, true, false, &env, "x", "d").len(), base + 1);
    assert_eq!(install_plan(InstallScope::PerUser, false, false, false, true, &env, "x", "d").len(), base + 1);
    assert_eq!(install_plan(InstallScope::Machine, false, false, false, false, &env, "x", "d").len(), base + 1);
}

#[test]
fn only_the_legacy_cleanup_is_best_effort() {
    let plan = install_plan(InstallScope::Machine, true, true, true, true, &roots(), "x", "d");
    for step in &plan.steps {
        let legacy = matches!(step.action, Action::DeleteKey { .. });
        assert_eq!(step.best_effort, legacy);
    }
    let user = install_plan(InstallScope::PerUser, true, true, true, true, &roots(), "x", "d");
    assert!(user.steps.iter().all(|s| !s.best_effort));
}

#[test]
fn association_points_at_the_installed_copy() {
    let plan = register_file_association("C:\\Apps\\MarkdownViewer.exe", Hive::CurrentUser);
    assert_eq!(plan, Plan { steps: association(Hive::CurrentUser, "C:\\Apps\\MarkdownViewer.exe") });
    let machine = register_file_association("E:\\m.exe", Hive::LocalMachine);
    assert_eq!(machine, Plan { steps: association(Hive::LocalMachine, "E:\\m.exe") });
}

#[test]
fn entry_in_the_list_of_installed_programs() {
    let plan = uninstall_entry(Hive::LocalMachine, "C:\\a b\\m.exe", "C:\\a b", "20240229");
    assert_eq!(
        plan,
        Plan { steps: entry_steps(Hive::LocalMachine, "C:\\a b\\m.exe", "C:\\a b", "20240229") }
    );
    assert_eq!(
        plan.steps[2],
        text(Hive::LocalMachine, ENTRY, "UninstallString", "\"C:\\a b\\m.exe\" --uninstall")
    );
}

#[test]
fn size_estimate_counts_whole_kibibytes() {
    assert_eq!(estimated_size_kb(0), 0);
    assert_eq!(estimated_size_kb(1023), 0);
    assert_eq!(estimated_size_kb(1024), 1);
    assert_eq!(estimated_size_kb(2047), 1);
    assert_eq!(estimated_size_kb(12_345_678), 12056);
    assert_eq!(estimated_size_kb(4_398_046_511_103), 4_294_967_295);
}

#[test]
fn size_estimate_keeps_the_low_32_bits() {
    assert_eq!(estimated_size_kb(4_398_046_511_104), 0);
    assert_eq!(estimated_size_kb(4_398_046_511_104 + 5 * 1024), 5);
    assert_eq!(estimated_size_kb(u64::MAX), 4_294_967_295);
}

#[test]
fn size_record_follows_the_query() {
    assert_eq!(size_record(Hive::CurrentUser, ENTRY, None), None);
    assert_eq!(
        size_record(Hive::CurrentUser, ENTRY, Some(3 * 1024 * 1024)),
        Some(Action::SetValue {
            hive: Hive::CurrentUser,
            path: ENTRY.to_string(),
            name: "EstimatedSize".to_string(),
            value: RegistryValue::Number(3072),
        })
    );
    assert_eq!(
        size_record(Hive::LocalMachine, "K", Some(0)),
        Some(Action::SetValue {
            hive: Hive::LocalMachine,
            path: "K".to_string(),
            name: "EstimatedSize".to_string(),
            value: RegistryValue::Number(0),
        })
    );
}

#[test]
fn install_is_dated_today() {
    let env = roots();
    let plan = install_app(InstallScope::PerUser, true, false, true, true, &env, "D:\\x.exe");
    let date = plan
        .steps
        .iter()
        .find_map(|s| match &s.action {
            Action::SetValue { name, value: RegistryValue::Text(v), .. } if name == "InstallDate" => {
                Some(v.clone())
            }
            _ => None,
        })
        .expect("an install date");
    assert_eq!(date.len(), 8);
    assert!(date.chars().all(|c| c.is_ascii_digit()));
    let year: u32 = date[0..4].parse().unwrap();
    let month: u32 = date[4..6].parse().unwrap();
    let day: u32 = date[6..8].parse().unwrap();
    assert!(year >= 2024);
    assert!((1..=12).contains(&month));
    assert!((1..=31).contains(&day));
    assert_eq!(
        plan,
        install_plan(InstallScope::PerUser, true, false, true, true, &env, "D:\\x.exe", &date)
    );
}

use markpad::install::install_plan;
use markpad::paths::{EnvRoots, InstallScope};
use markpad::plan::{Action, Hive, Plan, Progress, Step};
use markpad::uninstall::uninstall_app;
use std::collections::BTreeSet;

fn roots() -> EnvRoots {
    EnvRoots {
        local_app_data: None,
        user_profile: None,
        public_profile: None,
        program_data: None,
        program_files: None,
        roaming_app_data: None,
    }
}

fn sample() -> Plan {
    let mut plan = Plan::new();
    plan.require(Action::EnsureDir { path: "d".to_string() });
    plan.attempt(Action::RemoveFile { path: "f".to_string() });
    plan.require(Action::Exit { code: 0 });
    plan
}

fn hive_name(hive: Hive) -> u8 {
    match hive {
        Hive::CurrentUser => 0,
        Hive::LocalMachine => 1,
    }
}

fn below(path: &str, root: &str) -> bool {
    path.len() > root.len() && path.starts_with(root) && path[root.len()..].starts_with('\\')
}

fn apply(keys: &mut BTreeSet<(u8, String)>, plan: &Plan) {
    for step in &plan.steps {
        match &step.action {
            Action::CreateKey { hive, path } => {
                let h = hive_name(*hive);
                keys.insert((h, path.clone()));
                for (i, c) in path.char_indices() {
                    if c == '\\' {
                        keys.insert((h, path[..i].to_string()));
                    }
                }
            }
            Action::DeleteKey { hive, path } => {
                let h = hive_name(*hive);
                if !keys.iter().any(|(kh, kp)| *kh == h && below(kp, path)) {
                    keys.remove(&(h, path.clone()));
                }
            }
            Action::DeleteTree { hive, path } => {
                let h = hive_name(*hive);
                keys.retain(|(kh, kp)| !(*kh == h && (kp == path || below(kp, path))));
            }
            _ => {}
        }
    }
}

fn product_keys(keys: &BTreeSet<(u8, String)>) -> Vec<(u8, String)> {
    let roots = [
        "Software\\Microsoft\\Windows\\CurrentVersion\\Uninstall\\MarkdownViewer",
        "Software\\Classes\\.md",
        "Software\\Classes\\.markdown",
        "Software\\Classes\\MarkdownViewer.File",
    ];
    keys.iter()
        .filter(|(_, p)| roots.iter().any(|r| p == r || below(p, r)))
        .cloned()
        .collect()
}

#[test]
fn plans_are_built_step_by_step() {
    let plan = sample();
    assert_eq!(plan.len(), 3);
    assert_eq!(
        plan.steps,
        vec![
            Step { action: Action::EnsureDir { path: "d".to_string() }, best_effort: false },
            Step { action: Action::RemoveFile { path: "f".to_string() }, best_effort: true },
            Step { action: Action::Exit { code: 0 }, best_effort: false },
        ]
    );
    assert_eq!(Plan::new().len(), 0);
    let mut joined = Plan::new();
    joined.attempt(Action::Exit { code: 3 });
    joined.extend(sample());
    assert_eq!(joined.len(), 4);
    assert_eq!(joined.steps[0], Step { action: Action::Exit { code: 3 }, best_effort: true });
    assert_eq!(joined.steps[1..], sample().steps[..]);
}

#[test]
fn success_moves_to_the_next_step() {
    let plan = sample();
    assert_eq!(plan.advance(0, Ok(())), Progress::Continue { next: 1 });
    assert_eq!(plan.advance(1, Ok(())), Progress::Continue { next: 2 });
    assert_eq!(plan.advance(2, Ok(())), Progress::Finished);
}

#[test]
fn failure_of_a_required_step_ends_the_run() {
    let plan = sample();
    assert_eq!(
        plan.advance(0, Err("access denied".to_string())),
        Progress::Aborted { message: "access denied".to_string() }
    );
    assert_eq!(
        plan.advance(2, Err("late".to_string())),
        Progress::Aborted { message: "late".to_string() }
    );
}

#[test]
fn failure_of_a_best_effort_step_is_passed_over() {
    let plan = sample();
    assert_eq!(plan.advance(1, Err("no such file".to_string())), Progress::Continue { next: 2 });
    let mut last = Plan::new();
    last.attempt(Action::RemoveFile { path: "f".to_string() });
    assert_eq!(last.advance(0, Err("gone".to_string())), Progress::Finished);
}

#[test]
fn past_the_end_the_run_is_finished() {
    let plan = sample();
    assert_eq!(plan.advance(3, Ok(())), Progress::Finished);
    assert_eq!(plan.advance(3, Err("x".to_string())), Progress::Finished);
    assert_eq!(plan.advance(usize::MAX, Err("x".to_string())), Progress::Finished);
    assert_eq!(Plan::new().advance(0, Ok(())), Progress::Finished);
}

#[test]
fn run_stops_at_the_first_required_failure() {
    let plan = install_plan(InstallScope::Machine, true, true, true, true, &roots(), "x", "d");
    let failing = [4usize, 7, 9];
    let mut ran = Vec::new();
    let mut index = 0;
    let result = loop {
        ran.push(index);
        let outcome = if failing.contains(&index) { Err(format!("step {}", index)) } else { Ok(()) };
        match plan.advance(index, outcome) {
            Progress::Continue { next } => index = next,
            Progress::Aborted { message } => break Err(message),
            Progress::Finished => break Ok(()),
        }
    };
    assert!(plan.steps[4].best_effort);
    assert_eq!(result, Err("step 7".to_string()));
    assert_eq!(ran, vec![0, 1, 2, 3, 4, 5, 6, 7]);
}

#[test]
fn install_then_uninstall_leaves_no_registry_keys() {
    for scope in [InstallScope::PerUser, InstallScope::Machine] {
        for register in [false, true] {
            let mut keys: BTreeSet<(u8, String)> = BTreeSet::new();
            keys.insert((0, "Software".to_string()));
            keys.insert((1, "Software\\Classes\\.md\\OpenWithProgids".to_string()));
            keys.insert((0, "Software\\Classes\\.mdx".to_string()));
            let install = install_plan(scope, register, true, true, true, &roots(), "x", "d");
            apply(&mut keys, &install);
            let hive = match scope {
                InstallScope::PerUser => 0,
                InstallScope::Machine => 1,
            };
            assert!(keys.contains(&(
                hive,
                "Software\\Microsoft\\Windows\\CurrentVersion\\Uninstall\\MarkdownViewer".to_string()
            )));
            assert_eq!(
                keys.contains(&(hive, "Software\\Classes\\MarkdownViewer.File\\shell\\open".to_string())),
                register
            );
            let uninstall = uninstall_app(&roots(), "x", "t");
            apply(&mut keys, &uninstall);
            assert_eq!(product_keys(&keys), Vec::new());
            assert!(keys.contains(&(0, "Software\\Classes\\.mdx".to_string())));
            assert!(keys.contains(&(0, "Software".to_string())));
        }
    }
}

#[test]
fn entry_with_subkeys_survives_the_uninstall() {
    let mut keys: BTreeSet<(u8, String)> = BTreeSet::new();
    let entry = "Software\\Microsoft\\Windows\\CurrentVersion\\Uninstall\\MarkdownViewer";
    keys.insert((0, entry.to_string()));
    keys.insert((0, format!("{}\\Leftover", entry)));
    apply(&mut keys, &uninstall_app(&roots(), "x", "t"));
    assert_eq!(product_keys(&keys).len(), 2);
}

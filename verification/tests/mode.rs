use markpad::mode::{
    first_file_argument, forwarded_path, get_app_mode, has_argument, is_installer_mode, label_of,
    mode_name, names_installer, resolve, resolve_lowered, send_markdown_path, wants_install,
    window_label, RunMode, FILE_PATH_EVENT,
};

fn args(items: &[&str]) -> Vec<String> {
    items.iter().map(|s| s.to_string()).collect()
}

#[test]
fn document_argument_starts_the_app() {
    let a = args(&["app.exe", "notes.md"]);
    assert_eq!(resolve(&a, "app.exe", false), RunMode::App);
    assert_eq!(first_file_argument(&a), Some("notes.md".to_string()));
    assert_eq!(forwarded_path(&a), "notes.md");
    assert_eq!(FILE_PATH_EVENT, "file-path");
}

#[test]
fn installer_name_starts_the_installer() {
    let a = args(&["installer.exe"]);
    assert_eq!(resolve(&a, "installer.exe", false), RunMode::Installer);
    assert_eq!(get_app_mode(&a, "installer.exe", false), "installer");
}

#[test]
fn installer_name_counts_in_any_letter_case() {
    let a = args(&["Markpad-INSTALLER-x64.exe"]);
    assert_eq!(resolve(&a, "Markpad-INSTALLER-x64.exe", false), RunMode::Installer);
    assert!(is_installer_mode(&a, "MarkpadInStAlLeR.exe"));
    assert!(!is_installer_mode(&a, "Markpad.exe"));
}

#[test]
fn lowered_name_is_searched_as_given() {
    assert!(names_installer("installer"));
    assert!(names_installer("my-installer.exe"));
    assert!(!names_installer("INSTALLER.exe"));
    assert!(!names_installer("install.exe"));
    assert!(!names_installer("installe"));
    assert!(!names_installer(""));
    let a = args(&["x.exe"]);
    assert_eq!(resolve_lowered(&a, "installer.exe", false), RunMode::Installer);
    assert_eq!(resolve_lowered(&a, "INSTALLER.exe", false), RunMode::App);
}

#[test]
fn uninstall_flag_wins_over_everything() {
    let a = args(&["installer.exe", "--install", "--uninstall", "notes.md"]);
    assert_eq!(resolve(&a, "installer.exe", false), RunMode::Uninstall);
    assert_eq!(resolve(&a, "installer.exe", true), RunMode::Uninstall);
    assert_eq!(resolve(&a, "app.exe", true), RunMode::Uninstall);
    assert_eq!(get_app_mode(&a, "app.exe", true), "uninstall");
    let first = args(&["--uninstall"]);
    assert_eq!(resolve(&first, "app.exe", false), RunMode::Uninstall);
}

#[test]
fn installed_copy_opens_the_app_when_asked_to_install() {
    let a = args(&["MarkdownViewer.exe", "--install"]);
    assert_eq!(resolve(&a, "MarkdownViewer.exe", true), RunMode::App);
    assert_eq!(resolve(&a, "MarkdownViewer.exe", false), RunMode::Installer);
    let named = args(&["installer.exe"]);
    assert_eq!(resolve(&named, "installer.exe", true), RunMode::App);
    assert_eq!(get_app_mode(&a, "MarkdownViewer.exe", true), "app");
}

#[test]
fn no_arguments_start_the_app() {
    let a: Vec<String> = Vec::new();
    assert_eq!(resolve(&a, "", false), RunMode::App);
    assert_eq!(first_file_argument(&a), None);
    assert_eq!(forwarded_path(&a), "");
    assert_eq!(send_markdown_path(&a, None), Vec::<String>::new());
}

#[test]
fn flags_match_whole_arguments_only() {
    let a = args(&["app.exe", "--installx", "x--install", "--uninstalled"]);
    assert!(!has_argument(&a, "--install"));
    assert!(!has_argument(&a, "--uninstall"));
    assert!(has_argument(&a, "--installx"));
    assert!(!wants_install(&a, "app.exe"));
    assert_eq!(resolve(&a, "app.exe", false), RunMode::App);
}

#[test]
fn mode_names_are_those_of_the_user_interface() {
    assert_eq!(mode_name(RunMode::App), "app");
    assert_eq!(mode_name(RunMode::Installer), "installer");
    assert_eq!(mode_name(RunMode::Uninstall), "uninstall");
}

#[test]
fn window_label_follows_the_request_not_the_install_state() {
    assert_eq!(label_of(true), "installer");
    assert_eq!(label_of(false), "main");
    assert_eq!(window_label(&args(&["a.exe", "--install"]), "a.exe"), "installer");
    assert_eq!(window_label(&args(&["a.exe"]), "Setup-Installer.exe"), "installer");
    assert_eq!(window_label(&args(&["a.exe", "doc.md"]), "a.exe"), "main");
}

#[test]
fn first_file_argument_skips_the_program_and_flags() {
    assert_eq!(first_file_argument(&args(&["notes.md"])), None);
    assert_eq!(first_file_argument(&args(&["app.exe", "--install", "-v"])), None);
    assert_eq!(
        first_file_argument(&args(&["app.exe", "--flag", "a.md", "b.md"])),
        Some("a.md".to_string())
    );
    assert_eq!(first_file_argument(&args(&["app.exe", ""])), Some(String::new()));
    assert_eq!(forwarded_path(&args(&["app.exe", "-x"])), "");
    assert_eq!(forwarded_path(&args(&["app.exe", "-x", "b.md"])), "b.md");
}

#[test]
fn files_to_open_are_the_positional_arguments() {
    let a = args(&["app.exe", "a.md", "--install", "b.md", "-", "c.md"]);
    assert_eq!(send_markdown_path(&a, None), args(&["a.md", "b.md", "c.md"]));
    assert_eq!(send_markdown_path(&args(&["a.md"]), None), Vec::<String>::new());
}

#[test]
fn startup_file_comes_first_unless_already_named() {
    let a = args(&["app.exe", "a.md", "b.md"]);
    let fresh = "z.md".to_string();
    assert_eq!(send_markdown_path(&a, Some(&fresh)), args(&["z.md", "a.md", "b.md"]));
    let named = "b.md".to_string();
    assert_eq!(send_markdown_path(&a, Some(&named)), args(&["a.md", "b.md"]));
    let only_flags = args(&["app.exe", "--install"]);
    assert_eq!(send_markdown_path(&only_flags, Some(&fresh)), args(&["z.md"]));
    let program = "app.exe".to_string();
    assert_eq!(send_markdown_path(&a, Some(&program)), args(&["app.exe", "a.md", "b.md"]));
}

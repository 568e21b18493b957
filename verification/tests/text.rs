use markpad::text::{append_to, chars_of, contains, same_text, starts_with, starts_with_hyphen};

fn chars(s: &str) -> Vec<char> {
    s.chars().collect()
}

#[test]
fn characters_come_in_order() {
    assert_eq!(chars_of(""), Vec::<char>::new());
    assert_eq!(chars_of("a\\b"), vec!['a', '\\', 'b']);
    assert_eq!(chars_of("né"), vec!['n', 'é']);
}

#[test]
fn prefix_test() {
    assert!(starts_with(&chars("c:\\program files\\x"), &chars("c:\\program files")));
    assert!(starts_with(&chars("abc"), &chars("abc")));
    assert!(starts_with(&chars("abc"), &chars("")));
    assert!(!starts_with(&chars("ab"), &chars("abc")));
    assert!(!starts_with(&chars("xbc"), &chars("ab")));
    assert!(!starts_with(&chars("abx"), &chars("abc")));
}

#[test]
fn substring_test() {
    assert!(contains(&chars("my installer.exe"), &chars("installer")));
    assert!(contains(&chars("installer"), &chars("installer")));
    assert!(contains(&chars("xinstaller"), &chars("installer")));
    assert!(contains(&chars("ininstaller"), &chars("installer")));
    assert!(contains(&chars("abc"), &chars("")));
    assert!(contains(&chars(""), &chars("")));
    assert!(!contains(&chars(""), &chars("a")));
    assert!(!contains(&chars("installe"), &chars("installer")));
    assert!(!contains(&chars("install er"), &chars("installer")));
}

#[test]
fn flags_begin_with_a_hyphen() {
    assert!(starts_with_hyphen("-"));
    assert!(starts_with_hyphen("--install"));
    assert!(!starts_with_hyphen(""));
    assert!(!starts_with_hyphen("a-b"));
    assert!(!starts_with_hyphen(" -a"));
}

#[test]
fn concatenation_and_equality() {
    assert_eq!(append_to("ab", "cd"), "abcd");
    assert_eq!(append_to("", ""), "");
    assert!(same_text("tab", "tab"));
    assert!(!same_text("tab", "tab_bar"));
    assert!(!same_text("Tab", "tab"));
}

use conch::path::Pathname;
use conch::repo::{GitContext, JujutsuContext, RepoContext};
use conch::util::format_repo;

fn path(comps: &[&str]) -> Pathname {
    Pathname::from_components(comps.iter().map(|c| c.to_string()).collect())
}

fn green(text: &str) -> String {
    nu_ansi_term::Style::new()
        .fg(nu_ansi_term::Color::Green)
        .paint(text)
        .to_string()
}

fn yellow_bold(text: &str) -> String {
    nu_ansi_term::Style::new()
        .fg(nu_ansi_term::Color::Yellow)
        .bold()
        .paint(text)
        .to_string()
}

fn gray_bold(text: &str) -> String {
    nu_ansi_term::Style::new()
        .fg(nu_ansi_term::Color::DarkGray)
        .bold()
        .paint(text)
        .to_string()
}

#[test]
fn git_reference_is_painted_branch() {
    let repo = RepoContext::Git(GitContext::new("main".to_string(), path(&["r"]), false));
    let reference = repo.reference();
    assert_eq!(reference, green("main"));
    assert_ne!(reference, "main");
}

#[test]
fn dirty_marker_appended_iff_dirty() {
    let clean = RepoContext::Git(GitContext::new("main".to_string(), path(&["r"]), false));
    let dirty = RepoContext::Git(GitContext::new("main".to_string(), path(&["r"]), true));
    assert_eq!(format_repo(&clean), clean.reference());
    assert_eq!(format_repo(&dirty), format!("{}*", dirty.reference()));
}

#[test]
fn dirty_marker_for_jujutsu_too() {
    let dirty = RepoContext::Jujutsu(JujutsuContext::new(
        "wxyzabcd1234".to_string(),
        2,
        path(&["r"]),
        true,
    ));
    assert_eq!(format_repo(&dirty), format!("{}*", dirty.reference()));
    assert!(format_repo(&dirty).ends_with('*'));
}

#[test]
fn jujutsu_reference_splits_unique_prefix() {
    let repo = RepoContext::Jujutsu(JujutsuContext::new(
        "0123456789abcdef".to_string(),
        2,
        path(&["r"]),
        false,
    ));
    let expected = format!("{}{}", yellow_bold("01"), gray_bold("234567"));
    assert_eq!(repo.reference(), expected);
}

#[test]
fn jujutsu_reference_clamps_to_short_identifier() {
    let repo = RepoContext::Jujutsu(JujutsuContext::new(
        "abc".to_string(),
        99,
        path(&["r"]),
        false,
    ));
    let expected = format!("{}{}", yellow_bold("abc"), gray_bold(""));
    assert_eq!(repo.reference(), expected);
}

#[test]
fn repo_accessors() {
    let repo = RepoContext::Jujutsu(JujutsuContext::new(
        "abcd1234".to_string(),
        1,
        path(&["home", "u", "ws"]),
        true,
    ));
    assert!(repo.dirty());
    assert_eq!(repo.root().rel_string(), "home/u/ws");
}

use conch::path::Pathname;
use conch::repo::{GitContext, RepoContext};
use conch::util::format_path;

fn path(comps: &[&str]) -> Pathname {
    Pathname::from_components(comps.iter().map(|c| c.to_string()).collect())
}

fn git_repo(root: &[&str]) -> RepoContext {
    RepoContext::Git(GitContext::new("main".to_string(), path(root), false))
}

#[test]
fn display_at_repo_root() {
    let cwd = path(&["home", "u", "proj"]);
    let repo = git_repo(&["home", "u", "proj"]);
    assert_eq!(format_path(&cwd, Some(&repo), None), "proj");
}

#[test]
fn display_below_repo_root() {
    let cwd = path(&["home", "u", "proj", "sub", "dir"]);
    let repo = git_repo(&["home", "u", "proj"]);
    let home = path(&["home", "u"]);
    assert_eq!(format_path(&cwd, Some(&repo), Some(&home)), "proj/sub/dir");
}

#[test]
fn display_below_repo_root_is_not_abbreviated() {
    let cwd = path(&["home", "u", "proj", "subdir", "deeper", "leaf"]);
    let repo = git_repo(&["home", "u", "proj"]);
    assert_eq!(
        format_path(&cwd, Some(&repo), None),
        "proj/subdir/deeper/leaf"
    );
}

#[test]
fn display_at_home() {
    let cwd = path(&["home", "u"]);
    let home = path(&["home", "u"]);
    assert_eq!(format_path(&cwd, None, Some(&home)), "~");
}

#[test]
fn display_below_home_abbreviated() {
    let cwd = path(&["home", "u", "a", "bb", "ccc"]);
    let home = path(&["home", "u"]);
    assert_eq!(format_path(&cwd, None, Some(&home)), "~/a/b/ccc");
}

#[test]
fn display_raw_when_not_under_home() {
    let cwd = path(&["tmp", "project"]);
    let home = path(&["home", "u"]);
    assert_eq!(format_path(&cwd, None, Some(&home)), "/tmp/project");
}

#[test]
fn display_raw_without_home_or_repo() {
    let cwd = path(&["tmp", "project"]);
    assert_eq!(format_path(&cwd, None, None), "/tmp/project");
}

#[test]
fn repo_at_filesystem_root_falls_back() {
    let cwd = path(&["x"]);
    let repo = git_repo(&[]);
    assert_eq!(format_path(&cwd, Some(&repo), None), "/x");
}

#[test]
fn repo_not_an_ancestor_falls_back_to_home() {
    let cwd = path(&["tmp", "p"]);
    let repo = git_repo(&["other"]);
    let home = path(&["tmp"]);
    assert_eq!(format_path(&cwd, Some(&repo), Some(&home)), "~/p");
}

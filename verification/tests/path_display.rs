use conch::path::Pathname;
use conch::util::abbreviate_path;

fn path(comps: &[&str]) -> Pathname {
    Pathname::from_components(comps.iter().map(|c| c.to_string()).collect())
}

#[test]
fn abbrev_empty_path_identity() {
    let p = path(&[]);
    assert_eq!(abbreviate_path(&p), "");
    assert_eq!(p.rel_string(), "");
}

#[test]
fn abbrev_single_component_identity() {
    let p = path(&["project"]);
    assert_eq!(abbreviate_path(&p), "project");
    assert_eq!(abbreviate_path(&p), p.rel_string());
}

#[test]
fn abbrev_multi_component() {
    let p = path(&["a", "bb", "ccc", "dddd"]);
    assert_eq!(abbreviate_path(&p), "a/b/c/dddd");
}

#[test]
fn abbrev_two_components() {
    let p = path(&["alpha", "beta"]);
    assert_eq!(abbreviate_path(&p), "a/beta");
}

#[test]
fn abbrev_skips_empty_interior_component() {
    let p = path(&["a", "", "dddd"]);
    assert_eq!(abbreviate_path(&p), "a/dddd");
}

#[test]
fn abbrev_unicode_first_char() {
    let p = path(&["żółć", "x"]);
    assert_eq!(abbreviate_path(&p), "ż/x");
}

#[test]
fn absolute_and_relative_display() {
    assert_eq!(path(&["tmp", "project"]).abs_string(), "/tmp/project");
    assert_eq!(path(&["tmp", "project"]).rel_string(), "tmp/project");
    assert_eq!(path(&[]).abs_string(), "/");
}

#[test]
fn prefix_and_suffix_paths() {
    let p = path(&["a", "b", "c"]);
    assert_eq!(p.prefix_path(2).rel_string(), "a/b");
    assert_eq!(p.suffix_path(1).rel_string(), "b/c");
    assert_eq!(p.suffix_string(2), "c");
}

#[test]
fn path_comparisons() {
    let p = path(&["a", "b"]);
    let q = path(&["a", "b", "c"]);
    assert!(p.is_prefix_of(&q));
    assert!(!q.is_prefix_of(&p));
    assert!(p.same_as(&path(&["a", "b"])));
    assert!(!p.same_as(&q));
}

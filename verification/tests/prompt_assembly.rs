use conch::env::{build_prompt, EnvInput};
use conch::path::Pathname;
use conch::prompt::{Part, Prompt, Segment};
use conch::repo::{GitContext, RepoContext};
use conch::style::{Color, Style};

fn path(comps: &[&str]) -> Pathname {
    Pathname::from_components(comps.iter().map(|c| c.to_string()).collect())
}

fn absent_env() -> EnvInput {
    EnvInput {
        plain: None,
        multiline: None,
        in_nix_shell: false,
        direnv_file: false,
        duration_ms: None,
        last_exit_code: None,
    }
}

#[test]
fn prompt_without_vcs_or_env_is_just_the_path() {
    let cwd = path(&["tmp", "project"]);
    let home = path(&["home", "user"]);
    let env = absent_env();
    let prompt = build_prompt(&cwd, None, Some(&home), &env);
    let segments = prompt.segments();
    assert_eq!(segments.0.len(), 1);
    assert_eq!(segments.0[0].text, "/tmp/project");
    assert_eq!(segments.0[0].style.fg, Some(Color::Cyan));
    assert!(segments.0[0].style.bold);
}

#[test]
fn prompt_orders_all_segments() {
    let cwd = path(&["home", "u", "proj"]);
    let home = path(&["home", "u"]);
    let repo = RepoContext::Git(GitContext::new(
        "main".to_string(),
        path(&["home", "u", "proj"]),
        true,
    ));
    let env = EnvInput {
        plain: None,
        multiline: None,
        in_nix_shell: true,
        direnv_file: true,
        duration_ms: Some("1500".to_string()),
        last_exit_code: Some("1".to_string()),
    };
    let prompt = build_prompt(&cwd, Some(&repo), Some(&home), &env);
    let segments = prompt.segments();
    assert_eq!(segments.0.len(), 6);
    assert_eq!(segments.0[0].text, "proj");
    assert_eq!(segments.0[1].text, format!("{}*", repo.reference()));
    assert_eq!(segments.0[2].text, "nix");
    assert_eq!(segments.0[3].text, "direnv");
    assert_eq!(segments.0[4].text, "1.5s");
    assert_eq!(segments.0[5].text, "1");
}

#[test]
fn prompt_suppresses_zero_exit_code() {
    let cwd = path(&["tmp"]);
    let env = EnvInput {
        last_exit_code: Some("0".to_string()),
        ..absent_env()
    };
    let prompt = build_prompt(&cwd, None, None, &env);
    assert_eq!(prompt.segments().0.len(), 1);
}

#[test]
fn plain_render_is_the_painted_path() {
    let cwd = path(&["tmp", "project"]);
    let env = EnvInput {
        plain: Some("1".to_string()),
        ..absent_env()
    };
    let prompt = build_prompt(&cwd, None, None, &env);
    let expected = nu_ansi_term::Style::new()
        .fg(nu_ansi_term::Color::Cyan)
        .bold()
        .paint("/tmp/project")
        .to_string();
    assert_eq!(prompt.render(), expected);
}

#[test]
fn render_joins_with_separator_and_decoration() {
    let mut prompt = Prompt::new()
        .with_separator(" | ")
        .with_prefix("[")
        .with_suffix("]");
    prompt.push("a".to_string(), Style::new());
    prompt.push("b".to_string(), Style::new());
    assert_eq!(prompt.render(), "[a | b]");
}

#[test]
fn render_defaults_to_space_separator() {
    let mut prompt = Prompt::new();
    prompt.push("a".to_string(), Style::new());
    prompt.push("b".to_string(), Style::new());
    assert_eq!(prompt.render(), "a b");
}

#[test]
fn push_if_absent_is_a_noop() {
    let mut prompt = Prompt::new();
    prompt.push_if(None, Style::new());
    prompt.push_if_segment(None);
    prompt.push_if_segments(None);
    assert_eq!(prompt.segments().0.len(), 0);
    assert_eq!(prompt.render(), "");
}

#[test]
fn push_segments_keeps_order() {
    let mut prompt = Prompt::new();
    prompt.push_segment(Segment {
        text: "one".to_string(),
        style: Style::new(),
    });
    prompt.push_segments(vec![
        Segment {
            text: "two".to_string(),
            style: Style::new(),
        },
        Segment {
            text: "three".to_string(),
            style: Style::new(),
        },
    ]);
    assert_eq!(prompt.render(), "one two three");
}

#[test]
fn part_renders_back_to_back() {
    let mut part = Part::new();
    part.push(Segment {
        text: "ab".to_string(),
        style: Style::new(),
    });
    part.push(Segment {
        text: "cd".to_string(),
        style: Style::new(),
    });
    assert_eq!(part.render(), "abcd");
}

#[test]
fn decorated_prompt_keeps_decoration_unstyled_text() {
    let cwd = path(&["tmp"]);
    let env = absent_env();
    let prompt = build_prompt(&cwd, None, None, &env);
    let rendered = prompt.render();
    assert!(rendered.contains("\u{256d}\u{2500} "));
    assert!(rendered.ends_with(&nu_ansi_term::Style::new()
        .fg(nu_ansi_term::Color::Yellow)
        .paint("\n\u{2502}")
        .to_string()));
}

//! Interpretation of the environment state the shell hands over, and the
//! assembly of the whole prompt from it.

use vstd::prelude::*;

use crate::path::Pathname;
use crate::prompt::Prompt;
use crate::repo::RepoContext;
use crate::style::{Color, Style};
use crate::text::{parse_u64, parse_u64_spec};
use crate::util::{duration_spec, format_duration, format_path, format_path_spec, format_repo, format_repo_spec};

verus! {

/// What the shell's environment said, handed over as plain values: the raw
/// toggle texts, whether the badge variables were present at all, and the
/// raw duration and exit-code texts.
pub struct EnvInput {
    pub plain: Option<String>,
    pub multiline: Option<String>,
    pub in_nix_shell: bool,
    pub direnv_file: bool,
    pub duration_ms: Option<String>,
    pub last_exit_code: Option<String>,
}

/// The view of an optional text.
pub open spec fn opt_view(v: Option<String>) -> Option<Seq<char>> {
    match v {
        Some(s) => Some(s@),
        None => None,
    }
}

/// Whether decoration is disabled: the toggle is present and reads `1` or
/// `true`.
pub open spec fn plain_spec(v: Option<Seq<char>>) -> bool {
    match v {
        Some(s) => s == "1"@ || s == "true"@,
        None => false,
    }
}

/// Whether multi-line framing is enabled: anything but a present `0` or
/// `false` (so enabled by default).
pub open spec fn multiline_spec(v: Option<Seq<char>>) -> bool {
    match v {
        Some(s) => s != "0"@ && s != "false"@,
        None => true,
    }
}

/// The duration badge for the raw millisecond text: the text `0823` is
/// filtered out before parsing (a known quirk of the embedding shell), and
/// anything unparsable yields no badge.
pub open spec fn duration_badge_spec(v: Option<Seq<char>>) -> Option<Seq<char>> {
    match v {
        Some(s) => if s == "0823"@ {
            None
        } else {
            match parse_u64_spec(s) {
                Some(ms) => duration_spec(ms),
                None => None,
            }
        },
        None => None,
    }
}

/// The exit-code badge: the stored text itself, unless it is absent or `0`.
pub open spec fn exit_badge_spec(v: Option<Seq<char>>) -> Option<Seq<char>> {
    match v {
        Some(s) => if s == "0"@ {
            None
        } else {
            Some(s)
        },
        None => None,
    }
}

/// Reads the plain-mode toggle.
pub fn plain_enabled(v: &Option<String>) -> (r: bool)
    ensures
        r == plain_spec(opt_view(*v)),
{
    match v {
        Some(s) => *s == "1".to_owned() || *s == "true".to_owned(),
        None => false,
    }
}

/// Reads the multi-line toggle.
pub fn multiline_enabled(v: &Option<String>) -> (r: bool)
    ensures
        r == multiline_spec(opt_view(*v)),
{
    match v {
        Some(s) => !(*s == "0".to_owned() || *s == "false".to_owned()),
        None => true,
    }
}

/// Computes the duration badge from the raw millisecond text.
pub fn duration_badge(v: &Option<String>) -> (r: Option<String>)
    ensures
        (r is Some) == (duration_badge_spec(opt_view(*v)) is Some),
        r is Some ==> r->0@ == duration_badge_spec(opt_view(*v))->0,
{
    match v {
        Some(s) => {
            if *s == "0823".to_owned() {
                None
            } else {
                match parse_u64(s.as_str()) {
                    Some(ms) => format_duration(ms),
                    None => None,
                }
            }
        },
        None => None,
    }
}

/// Computes the exit-code badge from the stored exit-code text.
pub fn exit_code_badge(v: &Option<String>) -> (r: Option<String>)
    ensures
        (r is Some) == (exit_badge_spec(opt_view(*v)) is Some),
        r is Some ==> r->0@ == exit_badge_spec(opt_view(*v))->0,
{
    match v {
        Some(s) => {
            if *s == "0".to_owned() {
                None
            } else {
                Some(s.clone())
            }
        },
        None => None,
    }
}

/// The style of the working-directory segment.
pub open spec fn path_style() -> Style {
    Style { fg: Some(Color::Cyan), bold: true }
}

/// The style the repository reference segment is pushed with. The reference
/// text carries its own coloring, so the segment itself is unstyled.
pub open spec fn reference_seg_style() -> Style {
    Style { fg: None, bold: false }
}

/// The style of the environment badges.
pub open spec fn badge_style() -> Style {
    Style { fg: Some(Color::LightBlue), bold: false }
}

/// The style of the duration badge.
pub open spec fn duration_style() -> Style {
    Style { fg: Some(Color::Red), bold: false }
}

/// The style of the exit-code badge.
pub open spec fn exit_style() -> Style {
    Style { fg: Some(Color::Red), bold: true }
}

/// The style of the decoration (prefix, separator, suffix).
pub open spec fn decoration_style() -> Style {
    Style { fg: Some(Color::Yellow), bold: false }
}

/// The segments the prompt shows, in their fixed order: the
/// working-directory display, then the repository reference, then the `nix`
/// and `direnv` badges, then the duration badge, then the exit-code badge —
/// each of the latter five only when it applies.
pub open spec fn expected_segments(
    path_text: Seq<char>,
    repo_text: Option<Seq<char>>,
    nix: bool,
    direnv: bool,
    duration: Option<Seq<char>>,
    exit: Option<Seq<char>>,
) -> Seq<(Seq<char>, Style)> {
    seq![(path_text, path_style())] + (match repo_text {
        Some(t) => seq![(t, reference_seg_style())],
        None => Seq::empty(),
    }) + (if nix {
        seq![("nix"@, badge_style())]
    } else {
        Seq::empty()
    }) + (if direnv {
        seq![("direnv"@, badge_style())]
    } else {
        Seq::empty()
    }) + (match duration {
        Some(t) => seq![(t, duration_style())],
        None => Seq::empty(),
    }) + (match exit {
        Some(t) => seq![(t, exit_style())],
        None => Seq::empty(),
    })
}

/// Assembles the whole prompt from the working directory, the discovered
/// version-control context, the home directory and the environment state.
pub fn build_prompt(
    cwd: &Pathname,
    repo: Option<&RepoContext>,
    home: Option<&Pathname>,
    env: &EnvInput,
) -> (p: Prompt)
    ensures
        p.segments_view() =~= expected_segments(
            format_path_spec(
                cwd@,
                match repo {
                    Some(rc) => Some(rc.root_view()),
                    None => None,
                },
                match home {
                    Some(h) => Some(h@),
                    None => None,
                },
            ),
            match repo {
                Some(rc) => Some(format_repo_spec(rc)),
                None => None,
            },
            env.in_nix_shell,
            env.direnv_file,
            duration_badge_spec(opt_view(env.duration_ms)),
            exit_badge_spec(opt_view(env.last_exit_code)),
        ),
        p.style_view() == decoration_style(),
        p.prefix_view() == (if !plain_spec(opt_view(env.plain)) && multiline_spec(
            opt_view(env.multiline),
        ) {
            Some("\u{256d}\u{2500} "@)
        } else {
            None::<Seq<char>>
        }),
        p.suffix_view() == (if !plain_spec(opt_view(env.plain)) && multiline_spec(
            opt_view(env.multiline),
        ) {
            Some("\n\u{2502}"@)
        } else {
            None::<Seq<char>>
        }),
        p.separator_view() == (if plain_spec(opt_view(env.plain)) {
            None::<Seq<char>>
        } else if multiline_spec(opt_view(env.multiline)) {
            Some(" \u{2022} "@)
        } else {
            Some(" \u{2235} "@)
        }),
{
    let plain = plain_enabled(&env.plain);
    let multiline = multiline_enabled(&env.multiline);
    let base = if plain {
        Prompt::new()
    } else if multiline {
        Prompt::new().with_separator(" \u{2022} ").with_prefix("\u{256d}\u{2500} ").with_suffix(
            "\n\u{2502}",
        )
    } else {
        Prompt::new().with_separator(" \u{2235} ")
    };
    let mut p = base.with_style(Style::new().with_fg(Color::Yellow));

    p.push(format_path(cwd, repo, home), Style::new().with_fg(Color::Cyan).with_bold());

    let repo_text = match repo {
        Some(rc) => Some(format_repo(rc)),
        None => None,
    };
    p.push_if(repo_text, Style::new());

    let nix_text = if env.in_nix_shell {
        Some("nix".to_owned())
    } else {
        None
    };
    p.push_if(nix_text, Style::new().with_fg(Color::LightBlue));

    let direnv_text = if env.direnv_file {
        Some("direnv".to_owned())
    } else {
        None
    };
    p.push_if(direnv_text, Style::new().with_fg(Color::LightBlue));

    p.push_if(duration_badge(&env.duration_ms), Style::new().with_fg(Color::Red));

    p.push_if(exit_code_badge(&env.last_exit_code), Style::new().with_fg(Color::Red).with_bold());

    p
}

} // verus!

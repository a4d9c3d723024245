//! Display helpers: compact path abbreviation and elapsed-duration badges.

use vstd::prelude::*;
use vstd::string::*;

use crate::path::{abbrev_spec, abs_display, first_chars, join_slash, Pathname};
use crate::repo::RepoContext;
use crate::text::{dec_spec, u64_to_string};

verus! {

/// The reference text with the dirty marker: a `*` is appended exactly when
/// the working copy is dirty.
pub open spec fn format_repo_spec(repo: &RepoContext) -> Seq<char> {
    repo.reference_display() + if repo.dirty_view() {
        seq!['*']
    } else {
        Seq::<char>::empty()
    }
}

/// The version-control reference, with a trailing `*` exactly when the
/// working copy is dirty.
pub fn format_repo(repo: &RepoContext) -> (r: String)
    ensures
        r@ == format_repo_spec(repo),
{
    let mut reference = repo.reference();
    if repo.dirty() {
        reference.append("*");
        proof {
            reveal_strlit("*");
            assert(reference@ =~= format_repo_spec(repo));
        }
    } else {
        proof {
            assert(reference@ =~= format_repo_spec(repo));
        }
    }
    reference
}

/// Whether the working directory is shown relative to a repository root:
/// there is one, it is not the filesystem root, and it is an ancestor.
pub open spec fn repo_path_applies(cwd: Seq<Seq<char>>, root: Option<Seq<Seq<char>>>) -> bool {
    match root {
        Some(rt) => rt.len() > 0 && rt.is_prefix_of(cwd),
        None => false,
    }
}

/// The display inside a repository: the root's directory name, then the
/// path below the root in full.
pub open spec fn repo_path_display(cwd: Seq<Seq<char>>, rt: Seq<Seq<char>>) -> Seq<char> {
    rt.last() + if cwd.len() == rt.len() {
        Seq::<char>::empty()
    } else {
        seq!['/'] + join_slash(cwd.skip(rt.len() as int))
    }
}

/// The display under the home directory: `~` alone at home itself, else
/// `~/` and the abbreviated path below home; a path not under home is shown
/// absolute and in full.
pub open spec fn home_path_display(cwd: Seq<Seq<char>>, home: Seq<Seq<char>>) -> Seq<char> {
    if cwd == home {
        seq!['~']
    } else if home.is_prefix_of(cwd) {
        seq!['~', '/'] + abbrev_spec(cwd.skip(home.len() as int))
    } else {
        abs_display(cwd)
    }
}

/// The working-directory display: relative to the repository root when
/// inside a repository, else relative to home, else absolute and in full.
pub open spec fn format_path_spec(
    cwd: Seq<Seq<char>>,
    root: Option<Seq<Seq<char>>>,
    home: Option<Seq<Seq<char>>>,
) -> Seq<char> {
    if repo_path_applies(cwd, root) {
        repo_path_display(
            cwd,
            match root {
                Some(rt) => rt,
                None => Seq::empty(),
            },
        )
    } else {
        match home {
            Some(h) => home_path_display(cwd, h),
            None => abs_display(cwd),
        }
    }
}

/// Law: standing at a repository's root, the display is the root
/// directory's name alone.
pub proof fn lemma_display_at_repo_root(root: Seq<Seq<char>>, home: Option<Seq<Seq<char>>>)
    requires
        root.len() > 0,
    ensures
        format_path_spec(root, Some(root), home) == root.last(),
{
    assert(root.subrange(0, root.len() as int) =~= root);
    assert(root.last() + Seq::<char>::empty() =~= root.last());
}

/// Law: below a repository's root, the display is the root directory's
/// name, then the path below the root, in full.
pub proof fn lemma_display_below_repo_root(
    root: Seq<Seq<char>>,
    rest: Seq<Seq<char>>,
    home: Option<Seq<Seq<char>>>,
)
    requires
        root.len() > 0,
        rest.len() > 0,
    ensures
        format_path_spec(root + rest, Some(root), home) == root.last() + seq!['/'] + join_slash(
            rest,
        ),
{
    let cwd = root + rest;
    assert(cwd.subrange(0, root.len() as int) =~= root);
    assert(cwd.skip(root.len() as int) =~= rest);
    assert(root.last() + (seq!['/'] + join_slash(rest)) =~= root.last() + seq!['/'] + join_slash(
        rest,
    ));
}

/// Law: standing at the home directory, outside any repository, the display
/// is `~` alone.
pub proof fn lemma_display_at_home(home: Seq<Seq<char>>, root: Option<Seq<Seq<char>>>)
    requires
        !repo_path_applies(home, root),
    ensures
        format_path_spec(home, root, Some(home)) == seq!['~'],
{
}

/// Law: below the home directory, outside any repository, the display is
/// `~/` and the abbreviated path below home.
pub proof fn lemma_display_below_home(
    home: Seq<Seq<char>>,
    rest: Seq<Seq<char>>,
    root: Option<Seq<Seq<char>>>,
)
    requires
        rest.len() > 0,
        !repo_path_applies(home + rest, root),
    ensures
        format_path_spec(home + rest, root, Some(home)) == seq!['~', '/'] + abbrev_spec(rest),
{
    let cwd = home + rest;
    assert(cwd.len() != home.len());
    assert(cwd.subrange(0, home.len() as int) =~= home);
    assert(home.is_prefix_of(cwd));
    assert(cwd.skip(home.len() as int) =~= rest);
}

/// Renders the working directory for display.
pub fn format_path(cwd: &Pathname, repo: Option<&RepoContext>, home: Option<&Pathname>) -> (r:
    String)
    ensures
        r@ == format_path_spec(
            cwd@,
            match repo {
                Some(rc) => Some(rc.root_view()),
                None => None,
            },
            match home {
                Some(h) => Some(h@),
                None => None,
            },
        ),
{
    if let Some(rc) = repo {
        let root = rc.root();
        if root.len() > 0 && root.is_prefix_of(cwd) {
            let name = root.components()[root.len() - 1].clone();
            proof {
                assert(name@ == rc.root_view().last());
            }
            let mut out = name;
            if cwd.len() > root.len() {
                out.append("/");
                let rest = cwd.suffix_string(root.len());
                out = out.concat(rest.as_str());
            } else {
                proof {
                    assert(cwd@.len() == root@.len());
                }
            }
            proof {
                reveal_strlit("/");
                assert(out@ =~= repo_path_display(cwd@, rc.root_view()));
            }
            return out;
        }
    }
    if let Some(h) = home {
        if h.same_as(cwd) {
            let r = "~".to_owned();
            proof {
                reveal_strlit("~");
                assert(r@ =~= seq!['~']);
            }
            return r;
        }
        if h.is_prefix_of(cwd) {
            let rel = cwd.suffix_path(h.len());
            let abbreviated = abbreviate_path(&rel);
            let prefix = "~/".to_owned();
            let out = prefix.concat(abbreviated.as_str());
            proof {
                reveal_strlit("~/");
                assert("~/"@ =~= seq!['~', '/']);
                assert(out@ =~= seq!['~', '/'] + abbrev_spec(cwd@.skip(h@.len() as int)));
            }
            return out;
        }
    }
    cwd.abs_string()
}

/// Collapses a path for compact display: every component but the last is
/// shortened to its first character, the last is kept in full. Empty
/// components are skipped; a path of at most one component is unchanged.
pub fn abbreviate_path(path: &Pathname) -> (r: String)
    ensures
        r@ == abbrev_spec(path@),
{
    let n = path.len();
    if n <= 1 {
        return path.rel_string();
    }
    let comps = path.components();
    let ghost all = path@;
    let mut r = String::new();
    let mut any = false;
    let mut i: usize = 0;
    while i < n - 1
        invariant
            0 <= i <= n - 1,
            2 <= n == all.len(),
            n == comps@.len(),
            all == crate::path::views_of(comps@),
            r@ == join_slash(first_chars(all.take(i as int))),
            any == (first_chars(all.take(i as int)).len() > 0),
        decreases n - 1 - i,
    {
        let ghost fc = first_chars(all.take(i as int));
        if comps[i].as_str().unicode_len() > 0 {
            if any {
                r.append("/");
            }
            let first = comps[i].as_str().substring_char(0, 1);
            r.append(first);
            any = true;
            proof {
                reveal_strlit("/");
                assert(first@ =~= seq![all[i as int][0]]);
                assert(all.take(i + 1).drop_last() =~= all.take(i as int));
                let fc1 = first_chars(all.take(i + 1));
                assert(fc1 == fc.push(seq![all[i as int][0]]));
                if fc.len() == 0 {
                    assert(join_slash(fc1) == fc1[0]);
                    assert(r@ =~= join_slash(fc1));
                } else {
                    assert(fc1.drop_last() =~= fc);
                    assert(r@ =~= join_slash(fc1));
                }
            }
        } else {
            proof {
                assert(all.take(i + 1).drop_last() =~= all.take(i as int));
                assert(first_chars(all.take(i + 1)) == fc);
            }
        }
        i = i + 1;
    }
    r.append("/");
    r.append(comps[n - 1].as_str());
    proof {
        reveal_strlit("/");
        assert(all.take(n - 1 as int) =~= all.drop_last());
        assert(r@ =~= abbrev_spec(all));
    }
    r
}

/// The badge text for an elapsed duration of `ms` milliseconds: nothing below
/// a tenth of a second, whole milliseconds below a second, seconds with one
/// decimal below a minute (rounded to the nearest tenth, ties upward, so
/// 59950 ms and above show as `60.0s`), minutes and seconds below an hour,
/// and hours and minutes beyond that.
pub open spec fn duration_spec(ms: u64) -> Option<Seq<char>> {
    if ms < 100 {
        None
    } else if ms < 1000 {
        Some(dec_spec(ms as nat) + seq!['m', 's'])
    } else if ms < 60_000 {
        let tenths = (ms + 50) / 100;
        Some(
            dec_spec((tenths / 10) as nat) + seq!['.'] + dec_spec((tenths % 10) as nat)
                + seq!['s'],
        )
    } else if ms < 3_600_000 {
        Some(
            dec_spec((ms / 1000 / 60) as nat) + seq!['m'] + dec_spec((ms / 1000 % 60) as nat)
                + seq!['s'],
        )
    } else {
        Some(
            dec_spec((ms / 1000 / 3600) as nat) + seq!['h'] + dec_spec(
                (ms / 1000 % 3600 / 60) as nat,
            ) + seq!['m'],
        )
    }
}

/// Formats an elapsed duration as a badge, or nothing when it is too short
/// to be worth showing.
pub fn format_duration(ms: u64) -> (r: Option<String>)
    ensures
        r is Some <==> duration_spec(ms) is Some,
        r is Some ==> r->0@ == duration_spec(ms)->0,
{
    if ms < 100 {
        return None;
    }
    let r = if ms < 1000 {
        let mut t = u64_to_string(ms);
        t.append("ms");
        proof {
            reveal_strlit("ms");
            assert(t@ =~= duration_spec(ms)->0);
        }
        t
    } else if ms < 60_000 {
        let tenths = (ms + 50) / 100;
        let mut t = u64_to_string(tenths / 10);
        t.append(".");
        let tenth_digit = u64_to_string(tenths % 10);
        let mut t = t.concat(tenth_digit.as_str());
        t.append("s");
        proof {
            reveal_strlit(".");
            reveal_strlit("s");
            assert(t@ =~= duration_spec(ms)->0);
        }
        t
    } else if ms < 3_600_000 {
        let secs = ms / 1000;
        let mut t = u64_to_string(secs / 60);
        t.append("m");
        let rest = u64_to_string(secs % 60);
        let mut t = t.concat(rest.as_str());
        t.append("s");
        proof {
            reveal_strlit("m");
            reveal_strlit("s");
            assert(t@ =~= duration_spec(ms)->0);
        }
        t
    } else {
        let secs = ms / 1000;
        let mut t = u64_to_string(secs / 3600);
        t.append("h");
        let rest = u64_to_string(secs % 3600 / 60);
        let mut t = t.concat(rest.as_str());
        t.append("m");
        proof {
            reveal_strlit("h");
            reveal_strlit("m");
            assert(t@ =~= duration_spec(ms)->0);
        }
        t
    };
    Some(r)
}

} // verus!

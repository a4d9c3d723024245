//! Version-control context discovery.
//!
//! Two backends are probed: a jujutsu workspace (found by scanning the
//! working directory's ancestors for a `.jj` directory) and, failing that, a
//! git repository (found through `gix`). The probes themselves read the
//! filesystem and so live behind trusted wrappers; everything their results
//! feed into — ancestor scanning, root bookkeeping, reference display — is
//! verified.

use vstd::prelude::*;
use vstd::string::*;

use crate::path::Pathname;
use crate::style::{paint, painted, Color, Style};

use jj_lib::repo::Repo;

verus! {

#[verifier::external_type_specification]
#[verifier::external_body]
pub struct ExGixRepository(gix::Repository);

#[verifier::external_type_specification]
#[verifier::external_body]
pub struct ExJjWorkspace(jj_lib::workspace::Workspace);

#[verifier::external_type_specification]
#[verifier::external_body]
pub struct ExJjReadonlyRepo(jj_lib::repo::ReadonlyRepo);

#[verifier::external_type_specification]
#[verifier::external_body]
pub struct ExJjCommit(jj_lib::commit::Commit);

/// Relies on `std::path::Path::is_dir`: whether the path names an existing
/// directory. The answer depends on the filesystem, so nothing is promised
/// of it.
#[verifier::external_body]
fn is_directory(path: &String) -> bool {
    std::path::Path::new(path).is_dir()
}

/// Relies on `gix::discover`: opens the git repository that contains the
/// given directory, if there is one.
#[verifier::external_body]
fn git_open(path: &String) -> Option<gix::Repository> {
    gix::discover(path.as_str()).ok()
}

/// Relies on `gix::Repository::head` and `gix::Head::referent_name`: the
/// short name of the currently checked-out branch, when `HEAD` is a symbolic
/// reference; nothing otherwise.
#[verifier::external_body]
fn git_branch(repo: &gix::Repository) -> Option<String> {
    let head = repo.head().ok()?;
    let name = head.referent_name()?;
    Some(name.shorten().to_string())
}

/// Relies on `gix::Repository::workdir` and `std::path::Path::canonicalize`:
/// the canonicalized working-directory root, handed over as its decoded
/// components (normal components only). A component that is not decodable
/// as text is silently skipped.
#[verifier::external_body]
fn git_workdir(repo: &gix::Repository) -> Option<Vec<String>> {
    let canon = repo.workdir()?.canonicalize().ok()?;
    let components = canon
        .components()
        .filter_map(|c| match c {
            std::path::Component::Normal(os) => os.to_str().map(|s| s.to_owned()),
            _ => None,
        })
        .collect();
    Some(components)
}

/// Relies on `gix::Repository::is_dirty`: whether the working tree or index
/// differ from `HEAD`. The answer depends on the filesystem, so nothing is
/// promised of it.
#[verifier::external_body]
fn git_is_dirty(repo: &gix::Repository) -> Option<bool> {
    repo.is_dirty().ok()
}

/// Relies on `jj_lib::workspace::Workspace::load`, with default settings
/// (`UserSettings::from_config` of the default stacked config) and the
/// default store and working-copy factories.
#[verifier::external_body]
fn jj_load_workspace(root: &String) -> Option<jj_lib::workspace::Workspace> {
    let config = jj_lib::config::StackedConfig::with_defaults();
    let settings = jj_lib::settings::UserSettings::from_config(config).ok()?;
    let store_factories = jj_lib::repo::StoreFactories::default();
    let wc_factories = jj_lib::workspace::default_working_copy_factories();
    jj_lib::workspace::Workspace::load(
        &settings,
        std::path::Path::new(root),
        &store_factories,
        &wc_factories,
    )
    .ok()
}

/// Relies on `jj_lib::repo::RepoLoader::load_at_head`: the repository loaded
/// at the current operation head.
#[verifier::external_body]
fn jj_repo_at_head(
    ws: &jj_lib::workspace::Workspace,
) -> Option<std::sync::Arc<jj_lib::repo::ReadonlyRepo>> {
    ws.repo_loader().load_at_head().ok()
}

/// Relies on `jj_lib::op_store::View::get_wc_commit_id` and
/// `jj_lib::store::Store::get_commit`: the working-copy commit of this
/// workspace, if the repository view has one.
#[verifier::external_body]
fn jj_wc_commit(
    ws: &jj_lib::workspace::Workspace,
    repo: &std::sync::Arc<jj_lib::repo::ReadonlyRepo>,
) -> Option<jj_lib::commit::Commit> {
    let id = repo.view().get_wc_commit_id(ws.workspace_name())?;
    repo.store().get_commit(id).ok()
}

/// Relies on `jj_lib::object_id::ObjectId::reverse_hex` of the commit's
/// change id: the change identifier in reverse-hex digits.
#[verifier::external_body]
fn jj_change_hex(commit: &jj_lib::commit::Commit) -> String {
    commit.change_id().reverse_hex()
}

/// Relies on `jj_lib::id_prefix::IdPrefixIndex::shortest_change_prefix_len`
/// on an empty index: the shortest prefix of the change id that is unique.
/// The empty index makes the answer range over the entire repository rather
/// than some more relevant subset of its history; that matches how the
/// prompt has always shown it.
#[verifier::external_body]
fn jj_prefix_len(
    repo: &std::sync::Arc<jj_lib::repo::ReadonlyRepo>,
    commit: &jj_lib::commit::Commit,
) -> usize {
    let index = jj_lib::id_prefix::IdPrefixIndex::empty();
    index.shortest_change_prefix_len(repo.as_ref(), commit.change_id())
}

/// Relies on `jj_lib::commit::Commit::is_discardable`: whether the
/// working-copy commit has no meaningful change relative to its parent.
/// The answer depends on the repository state, so nothing is promised of it.
#[verifier::external_body]
fn jj_is_discardable(
    commit: &jj_lib::commit::Commit,
    repo: &std::sync::Arc<jj_lib::repo::ReadonlyRepo>,
) -> Option<bool> {
    commit.is_discardable(repo.as_ref()).ok()
}

/// A git checkout: the branch name, the repository root and the dirty state.
pub struct GitContext {
    branch: String,
    root: Pathname,
    dirty: bool,
}

impl GitContext {
    /// The short name of the checked-out branch.
    pub closed spec fn branch_view(&self) -> Seq<char> {
        self.branch@
    }

    /// The repository root's components.
    pub closed spec fn root_view(&self) -> Seq<Seq<char>> {
        self.root@
    }

    /// Whether the working tree or index differ from `HEAD`.
    pub closed spec fn dirty_spec(&self) -> bool {
        self.dirty
    }

    /// A context from its parts.
    pub fn new(branch: String, root: Pathname, dirty: bool) -> (r: GitContext)
        ensures
            r.branch_view() == branch@,
            r.root_view() == root@,
            r.dirty_spec() == dirty,
    {
        GitContext { branch, root, dirty }
    }

    /// Probes for a git repository containing `cwd`. A failed dirty check
    /// counts as clean; any other failure means no context. A discovered
    /// root is always an ancestor (component-prefix) of the probed
    /// directory: a canonicalized root that is not — as can happen under a
    /// symlinked working directory — counts as a discovery failure and
    /// yields no context.
    fn discover(cwd: &Pathname) -> (r: Option<GitContext>)
        ensures
            match r {
                Some(ctx) => ctx.root_view().is_prefix_of(cwd@),
                None => true,
            },
    {
        let path = cwd.abs_string();
        let repo = match git_open(&path) {
            Some(repo) => repo,
            None => {
                return None;
            },
        };
        let branch = match git_branch(&repo) {
            Some(branch) => branch,
            None => {
                return None;
            },
        };
        let root_components = match git_workdir(&repo) {
            Some(components) => components,
            None => {
                return None;
            },
        };
        let root = Pathname::from_components(root_components);
        if !root.is_prefix_of(cwd) {
            return None;
        }
        let dirty = match git_is_dirty(&repo) {
            Some(dirty) => dirty,
            None => false,
        };
        Some(GitContext { branch, root, dirty })
    }
}

/// A jujutsu workspace: the working-copy commit's change identifier (in
/// reverse-hex digits), the length of its shortest unique prefix, the
/// workspace root and the dirty state.
pub struct JujutsuContext {
    change_hex: String,
    prefix_len: usize,
    root: Pathname,
    dirty: bool,
}

impl JujutsuContext {
    /// The change identifier's reverse-hex digits.
    pub closed spec fn change_hex_view(&self) -> Seq<char> {
        self.change_hex@
    }

    /// The length of the shortest unique prefix of the change identifier.
    pub closed spec fn prefix_len_spec(&self) -> int {
        self.prefix_len as int
    }

    /// The workspace root's components.
    pub closed spec fn root_view(&self) -> Seq<Seq<char>> {
        self.root@
    }

    /// Whether the working-copy commit holds meaningful changes.
    pub closed spec fn dirty_spec(&self) -> bool {
        self.dirty
    }

    /// A context from its parts.
    pub fn new(change_hex: String, prefix_len: usize, root: Pathname, dirty: bool) -> (r:
        JujutsuContext)
        ensures
            r.change_hex_view() == change_hex@,
            r.prefix_len_spec() == prefix_len as int,
            r.root_view() == root@,
            r.dirty_spec() == dirty,
    {
        JujutsuContext { change_hex, prefix_len, root, dirty }
    }

    /// Probes for a jujutsu workspace: the nearest ancestor of `cwd` that
    /// holds a `.jj` directory. Any failure while loading the workspace
    /// means no context; a failed dirty check counts as clean.
    fn discover_jj(cwd: &Pathname) -> (r: Option<JujutsuContext>)
        ensures
            match r {
                Some(ctx) => ctx.root_view().is_prefix_of(cwd@),
                None => true,
            },
    {
        let mut k = cwd.len();
        loop
            invariant
                k <= cwd@.len(),
            decreases k,
        {
            let mut marker = cwd.abs_prefix_string(k);
            if k > 0 {
                marker.append("/");
            }
            marker.append(".jj");
            if is_directory(&marker) {
                let root = cwd.prefix_path(k);
                proof {
                    assert(cwd@.take(k as int) =~= cwd@.subrange(0, k as int));
                }
                return Self::load_at(root, cwd);
            }
            if k == 0 {
                return None;
            }
            k = k - 1;
        }
    }

    /// Loads the workspace rooted at `root` and reads the working-copy
    /// commit's identifiers and dirty state.
    fn load_at(root: Pathname, cwd: &Pathname) -> (r: Option<JujutsuContext>)
        requires
            root@.is_prefix_of(cwd@),
        ensures
            match r {
                Some(ctx) => ctx.root_view().is_prefix_of(cwd@),
                None => true,
            },
    {
        let root_string = root.abs_string();
        let ws = match jj_load_workspace(&root_string) {
            Some(ws) => ws,
            None => {
                return None;
            },
        };
        let repo = match jj_repo_at_head(&ws) {
            Some(repo) => repo,
            None => {
                return None;
            },
        };
        let commit = match jj_wc_commit(&ws, &repo) {
            Some(commit) => commit,
            None => {
                return None;
            },
        };
        let change_hex = jj_change_hex(&commit);
        let prefix_len = jj_prefix_len(&repo, &commit);
        let dirty = match jj_is_discardable(&commit, &repo) {
            Some(discardable) => !discardable,
            None => false,
        };
        Some(JujutsuContext { change_hex, prefix_len, root, dirty })
    }
}

/// The version-control context of the working directory, whichever backend
/// claimed it.
pub enum RepoContext {
    Git(GitContext),
    Jujutsu(JujutsuContext),
}

/// How many characters of the change identifier the prompt shows at most.
pub const MAX_REFERENCE_LEN: usize = 8;

/// The style of a git branch reference.
pub open spec fn branch_style() -> Style {
    Style { fg: Some(Color::Green), bold: false }
}

/// The style of the unique leading part of a change identifier.
pub open spec fn change_prefix_style() -> Style {
    Style { fg: Some(Color::Yellow), bold: true }
}

/// The style of the residue of a change identifier.
pub open spec fn change_rest_style() -> Style {
    Style { fg: Some(Color::DarkGray), bold: true }
}

impl RepoContext {
    /// The repository root's components.
    pub open spec fn root_view(&self) -> Seq<Seq<char>> {
        match self {
            RepoContext::Git(ctx) => ctx.root_view(),
            RepoContext::Jujutsu(ctx) => ctx.root_view(),
        }
    }

    /// Whether the working copy holds uncommitted changes.
    pub open spec fn dirty_view(&self) -> bool {
        match self {
            RepoContext::Git(ctx) => ctx.dirty_spec(),
            RepoContext::Jujutsu(ctx) => ctx.dirty_spec(),
        }
    }

    /// The displayed reference: a git branch painted green, or a change
    /// identifier cut to its first characters — at most
    /// `MAX_REFERENCE_LEN`, clamped to the identifier's length — with the
    /// unique prefix and the residue painted differently.
    pub open spec fn reference_display(&self) -> Seq<char> {
        match self {
            RepoContext::Git(ctx) => painted(ctx.branch_view(), branch_style()),
            RepoContext::Jujutsu(ctx) => {
                let hex = ctx.change_hex_view();
                let shown = if hex.len() < MAX_REFERENCE_LEN as int {
                    hex.len() as int
                } else {
                    MAX_REFERENCE_LEN as int
                };
                let cut = if ctx.prefix_len_spec() < shown {
                    ctx.prefix_len_spec()
                } else {
                    shown
                };
                painted(hex.subrange(0, cut), change_prefix_style()) + painted(
                    hex.subrange(cut, shown),
                    change_rest_style(),
                )
            },
        }
    }

    /// Probes for a version-control context: a jujutsu workspace first, then
    /// a git repository. Whichever backend claims the directory, the
    /// discovered root is an ancestor (component-prefix) of the directory
    /// that was probed.
    pub fn discover(cwd: &Pathname) -> (r: Option<RepoContext>)
        ensures
            match r {
                Some(ctx) => ctx.root_view().is_prefix_of(cwd@),
                None => true,
            },
    {
        match JujutsuContext::discover_jj(cwd) {
            Some(ctx) => Some(RepoContext::Jujutsu(ctx)),
            None => match GitContext::discover(cwd) {
                Some(ctx) => Some(RepoContext::Git(ctx)),
                None => None,
            },
        }
    }

    /// The repository root.
    pub fn root(&self) -> (r: &Pathname)
        ensures
            r@ == self.root_view(),
    {
        match self {
            RepoContext::Git(ctx) => &ctx.root,
            RepoContext::Jujutsu(ctx) => &ctx.root,
        }
    }

    /// Whether the working copy holds uncommitted changes.
    pub fn dirty(&self) -> (r: bool)
        ensures
            r == self.dirty_view(),
    {
        match self {
            RepoContext::Git(ctx) => ctx.dirty,
            RepoContext::Jujutsu(ctx) => ctx.dirty,
        }
    }

    /// The styled reference text.
    pub fn reference(&self) -> (r: String)
        ensures
            r@ == self.reference_display(),
    {
        match self {
            RepoContext::Git(ctx) => paint(
                ctx.branch.as_str(),
                Style::new().with_fg(Color::Green),
            ),
            RepoContext::Jujutsu(ctx) => {
                let hex_len = ctx.change_hex.as_str().unicode_len();
                let shown = if hex_len < MAX_REFERENCE_LEN {
                    hex_len
                } else {
                    MAX_REFERENCE_LEN
                };
                let cut = if ctx.prefix_len < shown {
                    ctx.prefix_len
                } else {
                    shown
                };
                let unique = ctx.change_hex.as_str().substring_char(0, cut);
                let rest = ctx.change_hex.as_str().substring_char(cut, shown);
                let painted_unique = paint(unique, Style::new().with_fg(Color::Yellow).with_bold());
                let painted_rest = paint(rest, Style::new().with_fg(Color::DarkGray).with_bold());
                painted_unique.concat(painted_rest.as_str())
            },
        }
    }
}

} // verus!

//! The provisioner of the language-server launcher.
//!
//! A resolution alternates between work that only the host can do (a lookup
//! on the search path, a look at a file, a query to the release source, a
//! download) and decisions. The decisions are
//! [`ElixirLs::language_server_binary_path`]: from the state of a resolution
//! and the outcome of the host's last piece of work it gives the next state
//! and the next piece of work, until that is [`ResolveAction::Finish`].

use crate::error::{ErrorKind, ResolveError};
use crate::prune::{
    lemma_prune_leaves_installed_version, prune_targets, spec_prune_targets, spec_same_name,
};
use crate::release::{plan_install, spec_plan_install, InstallPlan, Os, Release, Script};
use vstd::prelude::*;
use vstd::string::*;

verus! {

/// What the host is told of an installation under way.
#[derive(Clone, Copy, Debug, PartialEq, Eq, Structural)]
pub enum InstallationStatus {
    CheckingForUpdate,
    Downloading,
}

/// Where a resolution stands.
#[derive(Debug)]
pub enum ResolveState {
    /// Nothing has been asked yet.
    Unresolved,
    /// The search path is being asked for a launcher.
    SystemLookup,
    /// The remembered path is being looked at.
    CacheCheck,
    /// The release source is being asked for the latest release.
    VersionCheck,
    /// The launcher of the planned version is being looked for on disk.
    InstallCheck(InstallPlan),
    /// The archive is being downloaded and unpacked.
    Downloading(InstallPlan),
    /// The given script is being made executable.
    Installing(InstallPlan, Script),
    /// The working directory is being listed.
    Listing(InstallPlan),
    /// What is stale in the working directory is being removed.
    Pruning(InstallPlan),
    /// The resolution gave a path.
    Ready,
    /// The resolution failed.
    Error,
}

/// The outcome of the host's last piece of work.
#[derive(Debug)]
pub enum ResolveEvent {
    /// A resolution is asked for.
    Begin,
    /// The launcher that the search path holds, if any.
    Which(Option<String>),
    /// Whether the path asked about names a file.
    IsFile(bool),
    /// The latest release and the host's system, or why there is no
    /// release.
    LatestRelease(Result<(Release, Os), String>),
    /// The archive was downloaded and unpacked, or why not.
    Downloaded(Result<(), String>),
    /// The script was made executable, or why not.
    MadeExecutable(Result<(), String>),
    /// The names of the working directory's entries, `None` for a name that
    /// is not Unicode; or why the directory could not be listed.
    Listed(Result<Vec<Option<String>>, String>),
    /// The removals were tried; whether each succeeded does not matter.
    Removed,
}

/// The host's next piece of work.
#[derive(Debug)]
pub enum ResolveAction {
    /// Look the name up on the search path; answer with `Which`.
    Which(String),
    /// Look whether the path names a file; answer with `IsFile`.
    IsFile(String),
    /// Ask for the latest release of the repository; answer with
    /// `LatestRelease`.
    FetchLatestRelease { repository: String, require_assets: bool, pre_release: bool },
    /// Download the zip archive at `url` and unpack it into `directory`;
    /// answer with `Downloaded`.
    Download { url: String, directory: String },
    /// Make the file executable; answer with `MadeExecutable`.
    MakeExecutable(String),
    /// List the working directory; answer with `Listed`.
    ListWorkingDirectory,
    /// Remove the entries of the listing at these indices, going on after a
    /// removal that fails; answer with `Removed`.
    Remove(Vec<usize>),
    /// The resolution is over, with this path or this error.
    Finish(Result<String, ResolveError>),
    /// The event was not what the state awaits: nothing changed.
    Ignored,
}

/// A `ResolveAction` with its strings as sequences of characters.
pub enum ActionView {
    Which(Seq<char>),
    IsFile(Seq<char>),
    FetchLatestRelease { repository: Seq<char>, require_assets: bool, pre_release: bool },
    Download { url: Seq<char>, directory: Seq<char> },
    MakeExecutable(Seq<char>),
    ListWorkingDirectory,
    Remove(Seq<usize>),
    Finish(Result<Seq<char>, ResolveError>),
    Ignored,
}

impl View for ResolveAction {
    type V = ActionView;

    open spec fn view(&self) -> ActionView {
        match self {
            ResolveAction::Which(name) => ActionView::Which(name@),
            ResolveAction::IsFile(path) => ActionView::IsFile(path@),
            ResolveAction::FetchLatestRelease { repository, require_assets, pre_release } =>
                ActionView::FetchLatestRelease {
                    repository: repository@,
                    require_assets: *require_assets,
                    pre_release: *pre_release,
                },
            ResolveAction::Download { url, directory } => ActionView::Download {
                url: url@,
                directory: directory@,
            },
            ResolveAction::MakeExecutable(path) => ActionView::MakeExecutable(path@),
            ResolveAction::ListWorkingDirectory => ActionView::ListWorkingDirectory,
            ResolveAction::Remove(targets) => ActionView::Remove(targets@),
            ResolveAction::Finish(Ok(path)) => ActionView::Finish(Ok(path@)),
            ResolveAction::Finish(Err(error)) => ActionView::Finish(Err(*error)),
            ResolveAction::Ignored => ActionView::Ignored,
        }
    }
}

impl ActionView {
    /// What the host reports before it does the work, if anything.
    pub open spec fn spec_status(self) -> Option<InstallationStatus> {
        match self {
            ActionView::FetchLatestRelease { .. } => Some(InstallationStatus::CheckingForUpdate),
            ActionView::Download { .. } => Some(InstallationStatus::Downloading),
            _ => None,
        }
    }

    /// The work goes over the network.
    pub open spec fn spec_uses_network(self) -> bool {
        self is FetchLatestRelease || self is Download
    }
}

impl ResolveAction {
    /// The status to report to the host before the work is done: checking
    /// for an update before the release source is asked, downloading before
    /// a download, nothing otherwise.
    pub fn status(&self) -> (status: Option<InstallationStatus>)
        ensures
            status == self@.spec_status(),
    {
        match self {
            ResolveAction::FetchLatestRelease { .. } => Some(InstallationStatus::CheckingForUpdate),
            ResolveAction::Download { .. } => Some(InstallationStatus::Downloading),
            _ => None,
        }
    }
}

/// What a step gives: the remembered path after it, the next state and the
/// next action.
pub struct Transition {
    pub cached: Option<Seq<char>>,
    pub state: ResolveState,
    pub action: ActionView,
}

/// The lookup that opens every resolution.
pub open spec fn spec_system_lookup() -> ActionView {
    ActionView::Which("elixir-ls"@)
}

/// The query to the release source.
pub open spec fn spec_fetch_latest_release() -> ActionView {
    ActionView::FetchLatestRelease {
        repository: "elixir-lsp/elixir-ls"@,
        require_assets: true,
        pre_release: false,
    }
}

/// The end of a resolution that installed, or found installed, what `plan`
/// names: the launcher's path is remembered and returned.
pub open spec fn spec_installed(plan: InstallPlan) -> Transition {
    Transition {
        cached: Some(plan.spec_binary_path()),
        state: ResolveState::Ready,
        action: ActionView::Finish(Ok(plan.spec_binary_path())),
    }
}

/// The end of a resolution that failed: what is remembered stays.
pub open spec fn spec_failed(cached: Option<Seq<char>>, error: ResolveError) -> Transition {
    Transition { cached, state: ResolveState::Error, action: ActionView::Finish(Err(error)) }
}

/// The script that is made executable after `script`, if any.
pub open spec fn spec_next_script(script: Script) -> Option<Script> {
    match script {
        Script::LanguageServer => Some(Script::Launch),
        Script::Launch => Some(Script::DebugAdapter),
        Script::DebugAdapter => None,
    }
}

/// One step of a resolution.
///
/// * A resolution begins, from rest, with the lookup on the search path; a
///   launcher found there is the result, and nothing is remembered of it.
/// * Otherwise a remembered path is looked at and, if it names a file, is the
///   result.
/// * Otherwise the latest release is asked for. A failure of the release
///   source, or a release without the archive, ends the resolution with the
///   error.
/// * If the launcher of that release is on disk already, it is the result.
/// * Otherwise the archive is downloaded, the three scripts are made
///   executable in turn, and the working directory is listed and pruned. A
///   failed download or script ends the resolution with the error; a
///   directory that cannot be listed is left as it is.
/// * An event that the state does not await changes nothing.
pub open spec fn spec_step(cached: Option<Seq<char>>, state: ResolveState, event: ResolveEvent) -> Transition {
    match (state, event) {
        (ResolveState::Unresolved, ResolveEvent::Begin)
        | (ResolveState::Ready, ResolveEvent::Begin)
        | (ResolveState::Error, ResolveEvent::Begin) => Transition {
            cached,
            state: ResolveState::SystemLookup,
            action: spec_system_lookup(),
        },
        (ResolveState::SystemLookup, ResolveEvent::Which(Some(path))) => Transition {
            cached,
            state: ResolveState::Ready,
            action: ActionView::Finish(Ok(path@)),
        },
        (ResolveState::SystemLookup, ResolveEvent::Which(None)) => match cached {
            Some(path) => Transition {
                cached,
                state: ResolveState::CacheCheck,
                action: ActionView::IsFile(path),
            },
            None => Transition {
                cached,
                state: ResolveState::VersionCheck,
                action: spec_fetch_latest_release(),
            },
        },
        (ResolveState::CacheCheck, ResolveEvent::IsFile(is_file)) => match cached {
            Some(path) if is_file => Transition {
                cached,
                state: ResolveState::Ready,
                action: ActionView::Finish(Ok(path)),
            },
            _ => Transition {
                cached,
                state: ResolveState::VersionCheck,
                action: spec_fetch_latest_release(),
            },
        },
        (ResolveState::VersionCheck, ResolveEvent::LatestRelease(Err(reason))) => spec_failed(
            cached,
            ResolveError::ReleaseLookup(reason),
        ),
        (ResolveState::VersionCheck, ResolveEvent::LatestRelease(Ok((release, os)))) => {
            match spec_plan_install(release, os) {
                Ok(plan) => Transition {
                    cached,
                    state: ResolveState::InstallCheck(plan),
                    action: ActionView::IsFile(plan.spec_binary_path()),
                },
                Err(error) => spec_failed(cached, error),
            }
        },
        (ResolveState::InstallCheck(plan), ResolveEvent::IsFile(is_file)) => if is_file {
            spec_installed(plan)
        } else {
            Transition {
                cached,
                state: ResolveState::Downloading(plan),
                action: ActionView::Download {
                    url: plan.download_url@,
                    directory: plan.spec_version_dir(),
                },
            }
        },
        (ResolveState::Downloading(plan), ResolveEvent::Downloaded(Ok(_))) => Transition {
            cached,
            state: ResolveState::Installing(plan, Script::LanguageServer),
            action: ActionView::MakeExecutable(plan.spec_script_path(Script::LanguageServer)),
        },
        (ResolveState::Downloading(_), ResolveEvent::Downloaded(Err(reason))) => spec_failed(
            cached,
            ResolveError::Download(reason),
        ),
        (ResolveState::Installing(plan, script), ResolveEvent::MadeExecutable(Ok(_))) => {
            match spec_next_script(script) {
                Some(next) => Transition {
                    cached,
                    state: ResolveState::Installing(plan, next),
                    action: ActionView::MakeExecutable(plan.spec_script_path(next)),
                },
                None => Transition {
                    cached,
                    state: ResolveState::Listing(plan),
                    action: ActionView::ListWorkingDirectory,
                },
            }
        },
        (ResolveState::Installing(_, _), ResolveEvent::MadeExecutable(Err(reason))) => spec_failed(
            cached,
            ResolveError::MarkExecutable(reason),
        ),
        (ResolveState::Listing(plan), ResolveEvent::Listed(Ok(entries))) => Transition {
            cached,
            state: ResolveState::Pruning(plan),
            action: ActionView::Remove(spec_prune_targets(entries@, plan.spec_version_dir())),
        },
        (ResolveState::Listing(plan), ResolveEvent::Listed(Err(_))) => spec_installed(plan),
        (ResolveState::Pruning(plan), ResolveEvent::Removed) => spec_installed(plan),
        (state, _) => Transition { cached, state, action: ActionView::Ignored },
    }
}

/// A state in which no resolution is under way.
pub open spec fn spec_at_rest(state: ResolveState) -> bool {
    state is Unresolved || state is Ready || state is Error
}

/// A launcher on the search path wins: whatever is remembered, a resolution
/// that finds one ends with it after the lookup alone, asks for nothing over
/// the network, and leaves what is remembered as it was.
pub proof fn lemma_system_binary_wins(cached: Option<Seq<char>>, rest: ResolveState, path: String)
    requires
        spec_at_rest(rest),
    ensures
        ({
            let begun = spec_step(cached, rest, ResolveEvent::Begin);
            let found = spec_step(begun.cached, begun.state, ResolveEvent::Which(Some(path)));
            &&& begun.action == spec_system_lookup()
            &&& found.action == ActionView::Finish(Ok(path@))
            &&& found.state == ResolveState::Ready
            &&& found.cached == cached
            &&& !begun.action.spec_uses_network()
        }),
{
}

/// Only a resolution that ends with an installed launcher changes what is
/// remembered, and it remembers the path that it returns: a step that ends
/// with a path either took it from the search path, or from what was
/// remembered, or remembers it now; every other step remembers what was
/// remembered before.
pub proof fn lemma_remembers_what_it_returns(
    cached: Option<Seq<char>>,
    state: ResolveState,
    event: ResolveEvent,
)
    ensures
        ({
            let step = spec_step(cached, state, event);
            match step.action {
                ActionView::Finish(Ok(path)) => {
                    ||| (state is SystemLookup && step.cached == cached)
                    ||| step.cached == Some(path)
                },
                _ => step.cached == cached,
            }
        }),
{
}

/// Resolving again is free: with `path` remembered, no launcher on the
/// search path and the file still there, a resolution ends with `path`
/// after a lookup and a look at the file, asks for nothing over the
/// network, and goes on remembering `path`.
pub proof fn lemma_second_resolution_uses_cache(path: Seq<char>, rest: ResolveState)
    requires
        spec_at_rest(rest),
    ensures
        ({
            let begun = spec_step(Some(path), rest, ResolveEvent::Begin);
            let looked = spec_step(begun.cached, begun.state, ResolveEvent::Which(None));
            let found = spec_step(looked.cached, looked.state, ResolveEvent::IsFile(true));
            &&& begun.action == spec_system_lookup()
            &&& looked.action == ActionView::IsFile(path)
            &&& found.action == ActionView::Finish(Ok(path))
            &&& found.state == ResolveState::Ready
            &&& found.cached == Some(path)
            &&& !begun.action.spec_uses_network()
            &&& !looked.action.spec_uses_network()
            &&& !found.action.spec_uses_network()
        }),
{
}

/// Resolving twice gives the same path, the second time without the network:
/// once a resolution has found the launcher of `plan` installed, the next
/// one (no launcher on the search path, the file still there) ends with the
/// same path after a lookup and a look at the file.
pub proof fn lemma_resolving_twice(cached: Option<Seq<char>>, plan: InstallPlan)
    ensures
        ({
            let first = spec_step(cached, ResolveState::InstallCheck(plan), ResolveEvent::IsFile(true));
            let begun = spec_step(first.cached, first.state, ResolveEvent::Begin);
            let looked = spec_step(begun.cached, begun.state, ResolveEvent::Which(None));
            let second = spec_step(looked.cached, looked.state, ResolveEvent::IsFile(true));
            &&& first.action == ActionView::Finish(Ok(plan.spec_binary_path()))
            &&& second.action == first.action
            &&& second.cached == first.cached
            &&& !begun.action.spec_uses_network()
            &&& !looked.action.spec_uses_network()
            &&& !second.action.spec_uses_network()
        }),
{
}

/// An installation leaves one version on disk: where the listing of the
/// working directory names each entry once and names the directory of the
/// installed version at `installed`, the removal that follows the listing
/// takes every other entry and leaves that one.
pub proof fn lemma_install_prunes_other_versions(
    cached: Option<Seq<char>>,
    plan: InstallPlan,
    entries: Vec<Option<String>>,
    installed: int,
)
    requires
        0 <= installed < entries@.len(),
        entries@[installed] matches Some(name) && name@ == plan.spec_version_dir(),
        forall|a: int, b: int|
            0 <= a < b < entries@.len() ==> !#[trigger] spec_same_name(entries@[a], entries@[b]),
    ensures
        spec_step(cached, ResolveState::Listing(plan), ResolveEvent::Listed(Ok(entries))).action
            matches ActionView::Remove(targets) && forall|i: usize|
            i < entries@.len() ==> (#[trigger] targets.contains(i) <==> i != installed),
{
    vstd::std_specs::vec::axiom_spec_len(&entries);
    lemma_prune_leaves_installed_version(entries@, plan.spec_version_dir(), installed);
}

/// A release source that fails ends the resolution with its reason, as a
/// transport failure, and nothing is remembered that was not before: a
/// provisioner that remembered nothing still remembers nothing.
pub proof fn lemma_failed_lookup_remembers_nothing(rest: ResolveState, reason: String)
    requires
        spec_at_rest(rest),
    ensures
        ({
            let begun = spec_step(None, rest, ResolveEvent::Begin);
            let looked = spec_step(begun.cached, begun.state, ResolveEvent::Which(None));
            let failed = spec_step(
                looked.cached,
                looked.state,
                ResolveEvent::LatestRelease(Err(reason)),
            );
            &&& looked.action == spec_fetch_latest_release()
            &&& looked.action.spec_status() == Some(InstallationStatus::CheckingForUpdate)
            &&& failed.action == ActionView::Finish(Err(ResolveError::ReleaseLookup(reason)))
            &&& ResolveError::ReleaseLookup(reason).spec_kind() == ErrorKind::TransportFailure
            &&& failed.state == ResolveState::Error
            &&& failed.cached.is_none()
        }),
{
}

/// The provisioner: it remembers the launcher path that it last installed or
/// found installed.
pub struct ElixirLs {
    cached_binary_path: Option<String>,
}

impl ElixirLs {
    /// The name of the language server: the launcher is looked up on the
    /// search path, and the server's settings are kept, under it.
    pub const LANGUAGE_SERVER_ID: &'static str = "elixir-ls";

    /// The remembered path, as a sequence of characters.
    pub closed spec fn spec_cached(&self) -> Option<Seq<char>> {
        match self.cached_binary_path {
            Some(path) => Some(path@),
            None => None,
        }
    }

    /// A provisioner that remembers nothing.
    pub fn new() -> (this: Self)
        ensures
            this.spec_cached().is_none(),
    {
        ElixirLs { cached_binary_path: None }
    }

    /// The remembered path, if any.
    pub fn cached_binary_path(&self) -> (path: Option<String>)
        ensures
            match path {
                Some(path) => self.spec_cached() == Some(path@),
                None => self.spec_cached().is_none(),
            },
    {
        match &self.cached_binary_path {
            Some(path) => Some(path.clone()),
            None => None,
        }
    }

    /// Ends a resolution with the launcher of `plan`, which it remembers.
    fn installed(&mut self, plan: InstallPlan) -> (next: (ResolveState, ResolveAction))
        ensures
            final(self).spec_cached() == spec_installed(plan).cached,
            next.0 == spec_installed(plan).state,
            next.1@ == spec_installed(plan).action,
    {
        let path = plan.binary_path();
        self.cached_binary_path = Some(path.clone());
        (ResolveState::Ready, ResolveAction::Finish(Ok(path)))
    }

    /// The query to the release source.
    fn fetch_latest_release() -> (action: ResolveAction)
        ensures
            action@ == spec_fetch_latest_release(),
    {
        ResolveAction::FetchLatestRelease {
            repository: String::from_str("elixir-lsp/elixir-ls"),
            require_assets: true,
            pre_release: false,
        }
    }

    /// One step of resolving the launcher's path: takes the state of the
    /// resolution and the outcome of the host's last piece of work, and gives
    /// the next state and the host's next piece of work, as `spec_step` says.
    /// The remembered path changes only where a resolution ends with an
    /// installed launcher.
    pub fn language_server_binary_path(&mut self, state: ResolveState, event: ResolveEvent) -> (next: (
        ResolveState,
        ResolveAction,
    ))
        ensures
            final(self).spec_cached() == spec_step(old(self).spec_cached(), state, event).cached,
            next.0 == spec_step(old(self).spec_cached(), state, event).state,
            next.1@ == spec_step(old(self).spec_cached(), state, event).action,
    {
        match (state, event) {
            (ResolveState::Unresolved, ResolveEvent::Begin)
            | (ResolveState::Ready, ResolveEvent::Begin)
            | (ResolveState::Error, ResolveEvent::Begin) => (
                ResolveState::SystemLookup,
                ResolveAction::Which(String::from_str("elixir-ls")),
            ),
            (ResolveState::SystemLookup, ResolveEvent::Which(Some(path))) => (
                ResolveState::Ready,
                ResolveAction::Finish(Ok(path)),
            ),
            (ResolveState::SystemLookup, ResolveEvent::Which(None)) => {
                match &self.cached_binary_path {
                    Some(path) => (ResolveState::CacheCheck, ResolveAction::IsFile(path.clone())),
                    None => (ResolveState::VersionCheck, Self::fetch_latest_release()),
                }
            },
            (ResolveState::CacheCheck, ResolveEvent::IsFile(is_file)) => {
                match &self.cached_binary_path {
                    Some(path) if is_file => (
                        ResolveState::Ready,
                        ResolveAction::Finish(Ok(path.clone())),
                    ),
                    _ => (ResolveState::VersionCheck, Self::fetch_latest_release()),
                }
            },
            (ResolveState::VersionCheck, ResolveEvent::LatestRelease(Err(reason))) => (
                ResolveState::Error,
                ResolveAction::Finish(Err(ResolveError::ReleaseLookup(reason))),
            ),
            (ResolveState::VersionCheck, ResolveEvent::LatestRelease(Ok((release, os)))) => {
                match plan_install(release, os) {
                    Ok(plan) => {
                        let path = plan.binary_path();
                        (ResolveState::InstallCheck(plan), ResolveAction::IsFile(path))
                    },
                    Err(error) => (ResolveState::Error, ResolveAction::Finish(Err(error))),
                }
            },
            (ResolveState::InstallCheck(plan), ResolveEvent::IsFile(is_file)) => {
                if is_file {
                    self.installed(plan)
                } else {
                    let url = plan.download_url.clone();
                    let directory = plan.version_dir();
                    (ResolveState::Downloading(plan), ResolveAction::Download { url, directory })
                }
            },
            (ResolveState::Downloading(plan), ResolveEvent::Downloaded(Ok(_))) => {
                let path = plan.script_path(Script::LanguageServer);
                (
                    ResolveState::Installing(plan, Script::LanguageServer),
                    ResolveAction::MakeExecutable(path),
                )
            },
            (ResolveState::Downloading(_), ResolveEvent::Downloaded(Err(reason))) => (
                ResolveState::Error,
                ResolveAction::Finish(Err(ResolveError::Download(reason))),
            ),
            (ResolveState::Installing(plan, script), ResolveEvent::MadeExecutable(Ok(_))) => {
                let next = match script {
                    Script::LanguageServer => Some(Script::Launch),
                    Script::Launch => Some(Script::DebugAdapter),
                    Script::DebugAdapter => None,
                };
                match next {
                    Some(next) => {
                        let path = plan.script_path(next);
                        (ResolveState::Installing(plan, next), ResolveAction::MakeExecutable(path))
                    },
                    None => (ResolveState::Listing(plan), ResolveAction::ListWorkingDirectory),
                }
            },
            (ResolveState::Installing(_, _), ResolveEvent::MadeExecutable(Err(reason))) => (
                ResolveState::Error,
                ResolveAction::Finish(Err(ResolveError::MarkExecutable(reason))),
            ),
            (ResolveState::Listing(plan), ResolveEvent::Listed(Ok(entries))) => {
                let directory = plan.version_dir();
                let targets = prune_targets(&entries, directory.as_str());
                (ResolveState::Pruning(plan), ResolveAction::Remove(targets))
            },
            (ResolveState::Listing(plan), ResolveEvent::Listed(Err(_))) => self.installed(plan),
            (ResolveState::Pruning(plan), ResolveEvent::Removed) => self.installed(plan),
            (state, _) => (state, ResolveAction::Ignored),
        }
    }
}

} // verus!

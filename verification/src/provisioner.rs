//! The provisioning state machine.
//!
//! A [`Provisioner`] never touches the file system or the network itself.
//! Each call of [`Provisioner::step`] takes the outcome of the previous
//! [`Action`] as an [`Event`] and answers with the next action, until it
//! answers [`Action::Finish`]. What it decides is given by [`transition`].
use vstd::prelude::*;
use crate::error::{
    entry_failure_text, listing_failure_text, resolve_error, ProvisionError, ProvisionErrorView,
    ResolveFailure, ResolveFailureView,
};
use crate::platform::{archive_kind, ArchiveKind, PlatformTag};
use crate::prune::{entry_names, positions, stale_entries, stale_indices};
use crate::release::{
    binary_path, selection, stable_with_assets, version_dir, version_directory, Release, ReleaseFilter,
    ReleaseView, Tool, ToolView,
};
use crate::text::{join_text, opt_text};

verus! {

/// Where a provisioner stands between two steps.
#[derive(Clone, Copy, Debug, PartialEq, Eq, Structural)]
pub enum Phase {
    /// Nothing was asked yet.
    Idle,
    /// Waiting to learn whether the remembered path still names a file.
    CheckingCache,
    /// Waiting for the search path lookup.
    SearchingPath,
    /// Waiting for the release feed.
    Resolving,
    /// Waiting to learn whether the resolved version is already installed.
    CheckingInstalled,
    /// Waiting for the archive to be fetched and unpacked.
    Downloading,
    /// Waiting for the binary to be marked executable.
    MakingExecutable,
    /// Waiting for the listing of the working directory.
    Listing,
    /// Waiting for the stale entries to be deleted.
    Pruning,
    /// The last request ended with a path.
    Ready,
    /// The last request ended with an error.
    Failed,
}

/// Coarse progress shown to the user.
#[derive(Clone, Copy, Debug, PartialEq, Eq, Structural)]
pub enum Status {
    CheckingForUpdate,
    Downloading,
}

/// What happened outside since the last step.
#[derive(Clone, Debug, PartialEq, Eq)]
pub enum Event {
    /// A caller asks for a runnable path.
    Requested,
    /// Answer to [`Action::CheckFile`]: whether the path names a file.
    FileChecked(bool),
    /// Answer to [`Action::FindOnPath`].
    PathSearched(Option<String>),
    /// The feed's latest eligible release.
    Resolved(Release),
    /// The feed gave no release.
    ResolveFailed(ResolveFailure),
    /// The archive was fetched and unpacked.
    Downloaded,
    /// Fetching or unpacking failed, with the cause.
    DownloadFailed(String),
    /// The binary is executable now.
    MadeExecutable,
    /// Marking the binary executable failed, with the cause.
    MakeExecutableFailed(String),
    /// The entries of the working directory, each by name where the name is
    /// valid text.
    Listed(Vec<Option<String>>),
    /// The working directory could not be listed, with the cause.
    ListingFailed(String),
    /// One entry of the working directory could not be read, with the cause.
    EntryFailed(String),
    /// Answer to [`Action::Remove`]: how many deletions failed.
    Removed(usize),
}

pub enum EventView {
    Requested,
    FileChecked(bool),
    PathSearched(Option<Seq<char>>),
    Resolved(ReleaseView),
    ResolveFailed(ResolveFailureView),
    Downloaded,
    DownloadFailed(Seq<char>),
    MadeExecutable,
    MakeExecutableFailed(Seq<char>),
    Listed(Seq<Option<Seq<char>>>),
    ListingFailed(Seq<char>),
    EntryFailed(Seq<char>),
    Removed(nat),
}

impl View for Event {
    type V = EventView;

    open spec fn view(&self) -> EventView {
        match self {
            Event::Requested => EventView::Requested,
            Event::FileChecked(b) => EventView::FileChecked(*b),
            Event::PathSearched(p) => EventView::PathSearched(opt_text(*p)),
            Event::Resolved(r) => EventView::Resolved(r@),
            Event::ResolveFailed(f) => EventView::ResolveFailed(f@),
            Event::Downloaded => EventView::Downloaded,
            Event::DownloadFailed(m) => EventView::DownloadFailed(m@),
            Event::MadeExecutable => EventView::MadeExecutable,
            Event::MakeExecutableFailed(m) => EventView::MakeExecutableFailed(m@),
            Event::Listed(entries) => EventView::Listed(entry_names(entries@)),
            Event::ListingFailed(m) => EventView::ListingFailed(m@),
            Event::EntryFailed(m) => EventView::EntryFailed(m@),
            Event::Removed(n) => EventView::Removed(*n as nat),
        }
    }
}

/// What the embedding program is to do next. It answers each action but
/// `Finish` and `Ignore` with the matching [`Event`].
#[derive(Debug, PartialEq, Eq)]
pub enum Action {
    /// Tell whether a file exists at the path.
    CheckFile(String),
    /// Search the ambient search path for an executable of this name.
    FindOnPath(String),
    /// Announce [`Status::CheckingForUpdate`], then ask the feed for the
    /// latest release of `repository` that passes `filter`.
    ResolveLatest { repository: String, filter: ReleaseFilter },
    /// Announce [`Status::Downloading`], then fetch the file at `url` and
    /// unpack it, as an archive of the given kind, into `directory`.
    Download { url: String, directory: String, archive: ArchiveKind },
    /// Mark the file at the path executable.
    MakeExecutable(String),
    /// List the entries of the working directory.
    ListEntries,
    /// Delete the entries at these positions of the listing, each on its own;
    /// a deletion that fails is counted and otherwise ignored.
    Remove(Vec<usize>),
    /// The request is over, with the binary's path or the reason it failed.
    Finish(Result<String, ProvisionError>),
    /// The event was not the answer the provisioner waits for; nothing
    /// changed.
    Ignore,
}

pub enum ActionView {
    CheckFile(Seq<char>),
    FindOnPath(Seq<char>),
    ResolveLatest { repository: Seq<char>, filter: ReleaseFilter },
    Download { url: Seq<char>, directory: Seq<char>, archive: ArchiveKind },
    MakeExecutable(Seq<char>),
    ListEntries,
    Remove(Seq<int>),
    Finish(Result<Seq<char>, ProvisionErrorView>),
    Ignore,
}

impl View for Action {
    type V = ActionView;

    open spec fn view(&self) -> ActionView {
        match self {
            Action::CheckFile(p) => ActionView::CheckFile(p@),
            Action::FindOnPath(n) => ActionView::FindOnPath(n@),
            Action::ResolveLatest { repository, filter } => ActionView::ResolveLatest {
                repository: repository@,
                filter: *filter,
            },
            Action::Download { url, directory, archive } => ActionView::Download {
                url: url@,
                directory: directory@,
                archive: *archive,
            },
            Action::MakeExecutable(p) => ActionView::MakeExecutable(p@),
            Action::ListEntries => ActionView::ListEntries,
            Action::Remove(indices) => ActionView::Remove(positions(indices@)),
            Action::Finish(Ok(p)) => ActionView::Finish(Ok(p@)),
            Action::Finish(Err(e)) => ActionView::Finish(Err(e@)),
            Action::Ignore => ActionView::Ignore,
        }
    }
}

/// Whether carrying out the action contacts the release feed or a download
/// server.
pub open spec fn uses_network(a: ActionView) -> bool {
    a is ResolveLatest || a is Download
}

/// The status to announce before carrying out the action, if any.
pub open spec fn announced(a: ActionView) -> Option<Status> {
    match a {
        ActionView::ResolveLatest { .. } => Some(Status::CheckingForUpdate),
        ActionView::Download { .. } => Some(Status::Downloading),
        _ => None,
    }
}

impl Action {
    /// The status to announce before carrying out this action, if any.
    pub fn status(&self) -> (r: Option<Status>)
        ensures
            r == announced(self@),
    {
        match self {
            Action::ResolveLatest { .. } => Some(Status::CheckingForUpdate),
            Action::Download { .. } => Some(Status::Downloading),
            _ => None,
        }
    }

    /// Whether carrying out this action contacts the release feed or a
    /// download server.
    pub fn contacts_network(&self) -> (r: bool)
        ensures
            r == uses_network(self@),
    {
        match self {
            Action::ResolveLatest { .. } => true,
            Action::Download { .. } => true,
            _ => false,
        }
    }
}

/// Memory of the last path that was handed out. A remembered path counts only
/// while a file still exists there, which is asked anew on every use.
#[derive(Debug)]
pub struct BinaryCache {
    path: Option<String>,
}

impl View for BinaryCache {
    type V = Option<Seq<char>>;

    closed spec fn view(&self) -> Option<Seq<char>> {
        opt_text(self.path)
    }
}

impl BinaryCache {
    /// A cache that remembers nothing.
    pub fn new() -> (r: BinaryCache)
        ensures
            r@ is None,
    {
        BinaryCache { path: None }
    }

    /// Remembers `path`, forgetting what was remembered before.
    pub fn set(&mut self, path: String)
        ensures
            final(self)@ == Some(path@),
    {
        self.path = Some(path);
    }

    /// The remembered path, whether or not a file still exists there.
    pub fn recorded(&self) -> (r: Option<String>)
        ensures
            opt_text(r) == self@,
    {
        match &self.path {
            Some(p) => Some(p.clone()),
            None => None,
        }
    }

    /// The remembered path, given whether a file still exists there: nothing
    /// if it does not, or if nothing is remembered.
    pub fn get(&self, still_a_file: bool) -> (r: Option<String>)
        ensures
            opt_text(r) == if still_a_file {
                self@
            } else {
                None
            },
    {
        if still_a_file {
            self.recorded()
        } else {
            None
        }
    }
}

/// Decides, step by step, how to obtain a runnable copy of one tool.
#[derive(Debug)]
pub struct Provisioner {
    tool: Tool,
    platform: PlatformTag,
    cache: BinaryCache,
    phase: Phase,
    release: Option<Release>,
    leftover: usize,
    prune_error: Option<String>,
}

pub struct ProvisionerView {
    pub tool: ToolView,
    pub platform: PlatformTag,
    /// The remembered path.
    pub cache: Option<Seq<char>>,
    pub phase: Phase,
    /// The release the current request resolved, once it has.
    pub release: Option<ReleaseView>,
    /// How many deletions failed in the last pruning that got to delete.
    pub leftover: nat,
    /// Why the last pruning could not start, if it could not.
    pub prune_error: Option<Seq<char>>,
}

impl View for Provisioner {
    type V = ProvisionerView;

    closed spec fn view(&self) -> ProvisionerView {
        ProvisionerView {
            tool: self.tool@,
            platform: self.platform,
            cache: self.cache@,
            phase: self.phase,
            release: match self.release {
                Some(r) => Some(r@),
                None => None,
            },
            leftover: self.leftover as nat,
            prune_error: opt_text(self.prune_error),
        }
    }
}

/// A provisioner that was asked nothing yet and remembers nothing.
pub open spec fn initial(tool: ToolView, platform: PlatformTag) -> ProvisionerView {
    ProvisionerView {
        tool,
        platform,
        cache: None,
        phase: Phase::Idle,
        release: None,
        leftover: 0,
        prune_error: None,
    }
}

/// Whether a new request is accepted in this phase.
pub open spec fn at_rest(phase: Phase) -> bool {
    phase == Phase::Idle || phase == Phase::Ready || phase == Phase::Failed
}

/// Whether the state holds what its phase needs: while the remembered path
/// is being checked there is one, and from the install check to the end of
/// pruning the resolved release is at hand.
pub open spec fn well_formed(s: ProvisionerView) -> bool {
    &&& s.phase == Phase::CheckingCache ==> s.cache is Some
    &&& (s.phase == Phase::CheckingInstalled || s.phase == Phase::Downloading || s.phase
        == Phase::MakingExecutable || s.phase == Phase::Listing || s.phase == Phase::Pruning)
        ==> s.release is Some
}

/// Whether `e` is an answer the provisioner waits for in `phase`.
pub open spec fn awaited(phase: Phase, e: EventView) -> bool {
    match phase {
        Phase::Idle | Phase::Ready | Phase::Failed => e is Requested,
        Phase::CheckingCache | Phase::CheckingInstalled => e is FileChecked,
        Phase::SearchingPath => e is PathSearched,
        Phase::Resolving => e is Resolved || e is ResolveFailed,
        Phase::Downloading => e is Downloaded || e is DownloadFailed,
        Phase::MakingExecutable => e is MadeExecutable || e is MakeExecutableFailed,
        Phase::Listing => e is Listed || e is ListingFailed || e is EntryFailed,
        Phase::Pruning => e is Removed,
    }
}

/// The request ends with `path`, which is remembered.
pub open spec fn succeed(s: ProvisionerView, path: Seq<char>) -> (ProvisionerView, ActionView) {
    (ProvisionerView { cache: Some(path), phase: Phase::Ready, ..s }, ActionView::Finish(Ok(path)))
}

/// The request ends with `error`. What is remembered stays as it was.
pub open spec fn fail(s: ProvisionerView, error: ProvisionErrorView) -> (ProvisionerView, ActionView) {
    (ProvisionerView { phase: Phase::Failed, ..s }, ActionView::Finish(Err(error)))
}

/// The provisioner moves to `phase` and asks for `action`.
pub open spec fn proceed(s: ProvisionerView, phase: Phase, action: ActionView) -> (
    ProvisionerView,
    ActionView,
) {
    (ProvisionerView { phase, ..s }, action)
}

/// The end of a cycle that went to the feed: the binary's path is remembered
/// and handed out, however the pruning went.
pub open spec fn finish_cycle(s: ProvisionerView, leftover: nat, prune_error: Option<Seq<char>>) -> (
    ProvisionerView,
    ActionView,
) {
    match s.release {
        Some(release) => {
            let path = binary_path(s.tool, release.version, s.platform.os);
            (
                ProvisionerView { cache: Some(path), phase: Phase::Ready, leftover, prune_error, ..s },
                ActionView::Finish(Ok(path)),
            )
        },
        None => (s, ActionView::Ignore),
    }
}

/// The search of the path that follows a miss of the cache.
pub open spec fn search_path(s: ProvisionerView) -> (ProvisionerView, ActionView) {
    proceed(s, Phase::SearchingPath, ActionView::FindOnPath(s.tool.name))
}

/// The pruning that ends every cycle which went to the feed.
pub open spec fn list_entries(s: ProvisionerView) -> (ProvisionerView, ActionView) {
    proceed(s, Phase::Listing, ActionView::ListEntries)
}

/// What follows once it is known whether the resolved version is installed.
pub open spec fn after_install_check(s: ProvisionerView, release: ReleaseView, installed: bool) -> (
    ProvisionerView,
    ActionView,
) {
    if installed {
        list_entries(s)
    } else {
        match selection(release, s.tool.name, s.platform) {
            Ok(asset) => proceed(
                s,
                Phase::Downloading,
                ActionView::Download {
                    url: asset.download_url,
                    directory: version_directory(s.tool.name, release.version),
                    archive: archive_kind(s.platform.os),
                },
            ),
            Err(e) => fail(s, e),
        }
    }
}

/// The state and the action that follow when `e` arrives in state `s`.
///
/// A request first trusts the remembered path if a file is still there, then
/// an executable on the search path, and only then the release feed. Once
/// the binary is in place nothing fails any more: a pruning that cannot list
/// the working directory, or cannot delete an entry, is noted and the path is
/// handed out all the same. An event that is not the answer awaited changes
/// nothing.
pub open spec fn transition(s: ProvisionerView, e: EventView) -> (ProvisionerView, ActionView) {
    match (s.phase, e) {
        (Phase::Idle, EventView::Requested) | (Phase::Ready, EventView::Requested) | (
            Phase::Failed,
            EventView::Requested,
        ) => match s.cache {
            Some(path) => proceed(s, Phase::CheckingCache, ActionView::CheckFile(path)),
            None => search_path(s),
        },
        (Phase::CheckingCache, EventView::FileChecked(exists)) => match s.cache {
            Some(path) => if exists {
                succeed(s, path)
            } else {
                search_path(s)
            },
            None => search_path(s),
        },
        (Phase::SearchingPath, EventView::PathSearched(found)) => match found {
            Some(path) => succeed(s, path),
            None => proceed(
                s,
                Phase::Resolving,
                ActionView::ResolveLatest { repository: s.tool.repository, filter: stable_with_assets() },
            ),
        },
        (Phase::Resolving, EventView::Resolved(release)) => (
            ProvisionerView { phase: Phase::CheckingInstalled, release: Some(release), ..s },
            ActionView::CheckFile(binary_path(s.tool, release.version, s.platform.os)),
        ),
        (Phase::Resolving, EventView::ResolveFailed(failure)) => fail(s, resolve_error(failure)),
        (Phase::CheckingInstalled, EventView::FileChecked(installed)) => match s.release {
            Some(release) => after_install_check(s, release, installed),
            None => (s, ActionView::Ignore),
        },
        (Phase::Downloading, EventView::Downloaded) => match s.release {
            Some(release) => proceed(
                s,
                Phase::MakingExecutable,
                ActionView::MakeExecutable(binary_path(s.tool, release.version, s.platform.os)),
            ),
            None => (s, ActionView::Ignore),
        },
        (Phase::Downloading, EventView::DownloadFailed(cause)) => fail(
            s,
            ProvisionErrorView::Download(cause),
        ),
        (Phase::MakingExecutable, EventView::MadeExecutable) => list_entries(s),
        (Phase::MakingExecutable, EventView::MakeExecutableFailed(cause)) => fail(
            s,
            ProvisionErrorView::Filesystem(cause),
        ),
        (Phase::Listing, EventView::Listed(names)) => match s.release {
            Some(release) => proceed(
                s,
                Phase::Pruning,
                ActionView::Remove(stale_indices(names, version_directory(s.tool.name, release.version))),
            ),
            None => (s, ActionView::Ignore),
        },
        (Phase::Listing, EventView::ListingFailed(cause)) => finish_cycle(
            s,
            s.leftover,
            Some(listing_failure_text(cause)),
        ),
        (Phase::Listing, EventView::EntryFailed(cause)) => finish_cycle(
            s,
            s.leftover,
            Some(entry_failure_text(cause)),
        ),
        (Phase::Pruning, EventView::Removed(failed)) => finish_cycle(s, failed, None),
        _ => (s, ActionView::Ignore),
    }
}

impl Provisioner {
    /// A provisioner for `tool` on `platform` that was asked nothing yet and
    /// remembers nothing.
    pub fn new(tool: Tool, platform: PlatformTag) -> (r: Provisioner)
        ensures
            r@ == initial(tool@, platform),
    {
        Provisioner {
            tool,
            platform,
            cache: BinaryCache::new(),
            phase: Phase::Idle,
            release: None,
            leftover: 0,
            prune_error: None,
        }
    }

    /// Whether `event` is an answer the provisioner waits for right now.
    /// Any other event is ignored by [`Provisioner::step`].
    pub fn awaits(&self, event: &Event) -> (r: bool)
        ensures
            r == awaited(self@.phase, event@),
    {
        match self.phase {
            Phase::Idle | Phase::Ready | Phase::Failed => matches!(event, Event::Requested),
            Phase::CheckingCache | Phase::CheckingInstalled => matches!(event, Event::FileChecked(_)),
            Phase::SearchingPath => matches!(event, Event::PathSearched(_)),
            Phase::Resolving => matches!(event, Event::Resolved(_) | Event::ResolveFailed(_)),
            Phase::Downloading => matches!(event, Event::Downloaded | Event::DownloadFailed(_)),
            Phase::MakingExecutable => matches!(
                event,
                Event::MadeExecutable | Event::MakeExecutableFailed(_)
            ),
            Phase::Listing => matches!(
                event,
                Event::Listed(_) | Event::ListingFailed(_) | Event::EntryFailed(_)
            ),
            Phase::Pruning => matches!(event, Event::Removed(_)),
        }
    }

    /// Where the provisioner stands.
    pub fn phase(&self) -> (r: Phase)
        ensures
            r == self@.phase,
    {
        self.phase
    }

    /// The remembered path, whether or not a file still exists there.
    pub fn cached_path(&self) -> (r: Option<String>)
        ensures
            opt_text(r) == self@.cache,
    {
        self.cache.recorded()
    }

    /// How many deletions failed in the last pruning.
    pub fn leftover(&self) -> (r: usize)
        ensures
            r == self@.leftover,
    {
        self.leftover
    }

    /// Why the last pruning could not start, if it could not.
    pub fn prune_error(&self) -> (r: Option<String>)
        ensures
            opt_text(r) == self@.prune_error,
    {
        match &self.prune_error {
            Some(text) => Some(text.clone()),
            None => None,
        }
    }

    /// Takes in what happened since the last step and answers with what to
    /// do next, as [`transition`] gives it.
    pub fn step(&mut self, event: Event) -> (action: Action)
        ensures
            (final(self)@, action@) == transition(old(self)@, event@),
            well_formed(old(self)@) ==> well_formed(final(self)@),
    {
        match event {
            Event::Requested => match self.phase {
                Phase::Idle | Phase::Ready | Phase::Failed => match self.cache.recorded() {
                    Some(path) => {
                        self.phase = Phase::CheckingCache;
                        Action::CheckFile(path)
                    },
                    None => self.search_path(),
                },
                _ => Action::Ignore,
            },
            Event::FileChecked(exists) => match self.phase {
                Phase::CheckingCache => match self.cache.get(exists) {
                    Some(path) => {
                        self.phase = Phase::Ready;
                        Action::Finish(Ok(path))
                    },
                    None => self.search_path(),
                },
                Phase::CheckingInstalled => self.after_install_check(exists),
                _ => Action::Ignore,
            },
            Event::PathSearched(found) => match self.phase {
                Phase::SearchingPath => match found {
                    Some(path) => self.succeed(path),
                    None => {
                        self.phase = Phase::Resolving;
                        Action::ResolveLatest {
                            repository: self.tool.repository.clone(),
                            filter: ReleaseFilter::stable_with_assets(),
                        }
                    },
                },
                _ => Action::Ignore,
            },
            Event::Resolved(release) => match self.phase {
                Phase::Resolving => {
                    let path = self.tool.binary_path(release.version.as_str(), self.platform.os);
                    self.release = Some(release);
                    self.phase = Phase::CheckingInstalled;
                    Action::CheckFile(path)
                },
                _ => Action::Ignore,
            },
            Event::ResolveFailed(failure) => match self.phase {
                Phase::Resolving => self.fail(failure.into_error()),
                _ => Action::Ignore,
            },
            Event::Downloaded => match self.phase {
                Phase::Downloading => match &self.release {
                    Some(release) => {
                        let path = self.tool.binary_path(release.version.as_str(), self.platform.os);
                        self.phase = Phase::MakingExecutable;
                        Action::MakeExecutable(path)
                    },
                    None => Action::Ignore,
                },
                _ => Action::Ignore,
            },
            Event::DownloadFailed(cause) => match self.phase {
                Phase::Downloading => self.fail(ProvisionError::Download(cause)),
                _ => Action::Ignore,
            },
            Event::MadeExecutable => match self.phase {
                Phase::MakingExecutable => {
                    self.phase = Phase::Listing;
                    Action::ListEntries
                },
                _ => Action::Ignore,
            },
            Event::MakeExecutableFailed(cause) => match self.phase {
                Phase::MakingExecutable => self.fail(ProvisionError::Filesystem(cause)),
                _ => Action::Ignore,
            },
            Event::Listed(entries) => match self.phase {
                Phase::Listing => match &self.release {
                    Some(release) => {
                        let keep = version_dir(self.tool.name.as_str(), release.version.as_str());
                        let stale = stale_entries(&entries, &keep);
                        self.phase = Phase::Pruning;
                        Action::Remove(stale)
                    },
                    None => Action::Ignore,
                },
                _ => Action::Ignore,
            },
            Event::ListingFailed(cause) => match self.phase {
                Phase::Listing => {
                    let text = join_text("failed to list working directory ", cause.as_str());
                    let leftover = self.leftover;
                    self.finish_cycle(leftover, Some(text))
                },
                _ => Action::Ignore,
            },
            Event::EntryFailed(cause) => match self.phase {
                Phase::Listing => {
                    let text = join_text("failed to load directory entry ", cause.as_str());
                    let leftover = self.leftover;
                    self.finish_cycle(leftover, Some(text))
                },
                _ => Action::Ignore,
            },
            Event::Removed(failed) => match self.phase {
                Phase::Pruning => self.finish_cycle(failed, None),
                _ => Action::Ignore,
            },
        }
    }

    fn search_path(&mut self) -> (action: Action)
        ensures
            (final(self)@, action@) == search_path(old(self)@),
    {
        self.phase = Phase::SearchingPath;
        Action::FindOnPath(self.tool.name.clone())
    }

    fn succeed(&mut self, path: String) -> (action: Action)
        ensures
            (final(self)@, action@) == succeed(old(self)@, path@),
    {
        self.cache.set(path.clone());
        self.phase = Phase::Ready;
        Action::Finish(Ok(path))
    }

    fn finish_cycle(&mut self, leftover: usize, prune_error: Option<String>) -> (action: Action)
        ensures
            (final(self)@, action@) == finish_cycle(old(self)@, leftover as nat, opt_text(prune_error)),
    {
        match &self.release {
            Some(release) => {
                let path = self.tool.binary_path(release.version.as_str(), self.platform.os);
                self.leftover = leftover;
                self.prune_error = prune_error;
                self.succeed(path)
            },
            None => Action::Ignore,
        }
    }

    fn fail(&mut self, error: ProvisionError) -> (action: Action)
        ensures
            (final(self)@, action@) == fail(old(self)@, error@),
    {
        self.phase = Phase::Failed;
        Action::Finish(Err(error))
    }

    fn after_install_check(&mut self, installed: bool) -> (action: Action)
        requires
            old(self)@.phase == Phase::CheckingInstalled,
        ensures
            (final(self)@, action@) == transition(old(self)@, EventView::FileChecked(installed)),
    {
        match &self.release {
            Some(release) => {
                if installed {
                    self.phase = Phase::Listing;
                    Action::ListEntries
                } else {
                    match release.select_asset(self.tool.name.as_str(), self.platform) {
                        Ok(asset) => {
                            let url = asset.download_url.clone();
                            let directory = version_dir(self.tool.name.as_str(), release.version.as_str());
                            self.phase = Phase::Downloading;
                            Action::Download { url, directory, archive: self.platform.os.archive_kind() }
                        },
                        Err(e) => self.fail(e),
                    }
                }
            },
            None => Action::Ignore,
        }
    }
}

} // verus!

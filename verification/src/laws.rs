//! Properties of the provisioning state machine, proved of [`transition`].
use vstd::prelude::*;
use crate::error::{ProvisionErrorView, ResolveFailureView};
use crate::platform::{archive_kind, PlatformTag};
use crate::provisioner::{
    at_rest, awaited, initial, transition, uses_network, well_formed, ActionView, EventView, Phase,
    ProvisionerView,
};
use crate::prune::stale_indices;
use crate::release::{
    binary_path, selection, stable_with_assets, version_directory, AssetView, ReleaseView, ToolView,
};

verus! {

/// A new provisioner is well formed, and no event makes a well-formed one
/// ill formed.
pub proof fn lemma_well_formed_is_invariant(
    tool: ToolView,
    platform: PlatformTag,
    s: ProvisionerView,
    e: EventView,
)
    ensures
        well_formed(initial(tool, platform)),
        well_formed(s) ==> well_formed(transition(s, e).0),
{
}

/// A well-formed provisioner acts on every answer it waits for, and on no
/// other event: those leave it as it is.
pub proof fn lemma_exactly_the_awaited_is_taken(s: ProvisionerView, e: EventView)
    requires
        well_formed(s),
    ensures
        awaited(s.phase, e) ==> !(transition(s, e).1 is Ignore),
        !awaited(s.phase, e) ==> transition(s, e) == (s, ActionView::Ignore),
{
}

/// A step that hands out a path remembers exactly that path, and leaves the
/// provisioner ready.
pub proof fn lemma_success_is_remembered(s: ProvisionerView, e: EventView, path: Seq<char>)
    requires
        transition(s, e).1 == ActionView::Finish(Ok(path)),
    ensures
        transition(s, e).0.cache == Some(path),
        transition(s, e).0.phase == Phase::Ready,
{
}

/// A step that ends a request with an error leaves what is remembered as it
/// was: a failed attempt caches nothing.
pub proof fn lemma_failure_remembers_nothing(s: ProvisionerView, e: EventView)
    requires
        transition(s, e).1 is Finish,
        transition(s, e).1->Finish_0 is Err,
    ensures
        transition(s, e).0.cache == s.cache,
        transition(s, e).0.phase == Phase::Failed,
{
}

/// After a request was answered with a path, the next request is answered
/// with the same path as long as a file is still there, and neither of its
/// two steps uses the network.
pub proof fn lemma_repeated_request_is_served_from_memory(
    s: ProvisionerView,
    e: EventView,
    path: Seq<char>,
)
    requires
        transition(s, e).1 == ActionView::Finish(Ok(path)),
    ensures
        ({
            let ready = transition(s, e).0;
            let (checking, first) = transition(ready, EventView::Requested);
            let (again, second) = transition(checking, EventView::FileChecked(true));
            &&& first == ActionView::CheckFile(path)
            &&& second == ActionView::Finish(Ok(path))
            &&& !uses_network(first)
            &&& !uses_network(second)
            &&& again == ready
        }),
{
}

/// The release feed is asked only after the cache missed and the search
/// path held no executable; a download starts only after the resolved
/// version was found not to be installed.
pub proof fn lemma_network_is_the_last_resort(s: ProvisionerView, e: EventView)
    requires
        uses_network(transition(s, e).1),
    ensures
        transition(s, e).1 is ResolveLatest ==> s.phase == Phase::SearchingPath && e
            == EventView::PathSearched(None),
        transition(s, e).1 is Download ==> s.phase == Phase::CheckingInstalled && e
            == EventView::FileChecked(false),
{
}

/// When the search path holds an executable, a request never reaches the
/// release feed: it ends with the remembered path if a file is still there,
/// and with the path of that executable otherwise, which is then remembered.
pub proof fn lemma_path_executable_takes_precedence(
    s: ProvisionerView,
    cached_exists: bool,
    found: Seq<char>,
)
    requires
        at_rest(s.phase),
    ensures
        ({
            let (s1, a1) = transition(s, EventView::Requested);
            let (s2, a2) = transition(s1, EventView::FileChecked(cached_exists));
            let searching = if s.cache is Some {
                s2
            } else {
                s1
            };
            let (s3, a3) = transition(searching, EventView::PathSearched(Some(found)));
            &&& !uses_network(a1)
            &&& s.cache is Some ==> !uses_network(a2)
            &&& s.cache is Some && cached_exists ==> a2 == ActionView::Finish(Ok(s.cache->Some_0))
            &&& s.cache is Some && !cached_exists ==> a2 == ActionView::FindOnPath(s.tool.name)
            &&& s.cache is None ==> a1 == ActionView::FindOnPath(s.tool.name)
            &&& !(s.cache is Some && cached_exists) ==> a3 == ActionView::Finish(Ok(found)) && s3.cache
                == Some(found)
        }),
{
}

/// When the resolved version is already installed, the request ends with
/// its path after pruning, and no step on the way uses the network.
pub proof fn lemma_installed_version_is_reused(
    s: ProvisionerView,
    release: ReleaseView,
    names: Seq<Option<Seq<char>>>,
    failed: nat,
)
    requires
        s.phase == Phase::CheckingInstalled,
        s.release == Some(release),
    ensures
        ({
            let path = binary_path(s.tool, release.version, s.platform.os);
            let (s1, a1) = transition(s, EventView::FileChecked(true));
            let (s2, a2) = transition(s1, EventView::Listed(names));
            let (s3, a3) = transition(s2, EventView::Removed(failed));
            &&& a1 == ActionView::ListEntries
            &&& a2 == ActionView::Remove(
                stale_indices(names, version_directory(s.tool.name, release.version)),
            )
            &&& a3 == ActionView::Finish(Ok(path))
            &&& s3.cache == Some(path)
        }),
{
}

/// When the resolved version is not installed and the release holds the
/// asset for the platform, that asset is downloaded into the version's
/// directory as a gzip-compressed tarball, the binary is made executable, the
/// other entries of the working directory are removed, and the request ends
/// with the binary's path.
pub proof fn lemma_fresh_install_runs_to_the_path(
    s: ProvisionerView,
    release: ReleaseView,
    asset: AssetView,
    names: Seq<Option<Seq<char>>>,
    failed: nat,
)
    requires
        s.phase == Phase::CheckingInstalled,
        s.release == Some(release),
        selection(release, s.tool.name, s.platform) == Ok::<AssetView, ProvisionErrorView>(asset),
    ensures
        ({
            let directory = version_directory(s.tool.name, release.version);
            let path = binary_path(s.tool, release.version, s.platform.os);
            let (s1, a1) = transition(s, EventView::FileChecked(false));
            let (s2, a2) = transition(s1, EventView::Downloaded);
            let (s3, a3) = transition(s2, EventView::MadeExecutable);
            let (s4, a4) = transition(s3, EventView::Listed(names));
            let (s5, a5) = transition(s4, EventView::Removed(failed));
            &&& a1 == (ActionView::Download {
                url: asset.download_url,
                directory,
                archive: archive_kind(s.platform.os),
            })
            &&& a2 == ActionView::MakeExecutable(path)
            &&& a3 == ActionView::ListEntries
            &&& a4 == ActionView::Remove(stale_indices(names, directory))
            &&& a5 == ActionView::Finish(Ok(path))
            &&& s5.cache == Some(path)
        }),
{
}

/// When the resolved version is not installed and no asset carries the name
/// expected for the platform, the request fails with that name and nothing
/// is downloaded.
pub proof fn lemma_missing_asset_is_fatal(s: ProvisionerView, release: ReleaseView)
    requires
        s.phase == Phase::CheckingInstalled,
        s.release == Some(release),
        selection(release, s.tool.name, s.platform) is Err,
    ensures
        transition(s, EventView::FileChecked(false)).1 == ActionView::Finish(
            Err(selection(release, s.tool.name, s.platform)->Err_0),
        ),
        transition(s, EventView::FileChecked(false)).0.cache == s.cache,
{
}

/// Once the binary is in place, nothing that goes wrong while pruning keeps
/// the request from ending with its path: neither deletions that fail nor a
/// working directory that cannot be listed.
pub proof fn lemma_pruning_failures_are_swallowed(
    s: ProvisionerView,
    release: ReleaseView,
    failed: nat,
    cause: Seq<char>,
)
    requires
        s.release == Some(release),
    ensures
        ({
            let done = ActionView::Finish(Ok(binary_path(s.tool, release.version, s.platform.os)));
            &&& s.phase == Phase::Pruning ==> transition(s, EventView::Removed(failed)).1 == done
                && transition(s, EventView::Removed(failed)).0.leftover == failed
            &&& s.phase == Phase::Listing ==> transition(s, EventView::ListingFailed(cause)).1 == done
                && transition(s, EventView::EntryFailed(cause)).1 == done
        }),
{
}

/// When the feed cannot be reached, the request ends with that failure and
/// nothing new is remembered; with nothing remembered and nothing on the
/// search path, the next request asks the feed again.
pub proof fn lemma_failed_resolution_is_retried(s: ProvisionerView, cause: Seq<char>)
    requires
        s.phase == Phase::Resolving,
    ensures
        ({
            let (failed, a0) = transition(
                s,
                EventView::ResolveFailed(ResolveFailureView::Network(cause)),
            );
            let (s1, a1) = transition(failed, EventView::Requested);
            let (s2, a2) = transition(s1, EventView::PathSearched(None));
            &&& a0 == ActionView::Finish(Err(ProvisionErrorView::Network(cause)))
            &&& failed.cache == s.cache
            &&& failed.phase == Phase::Failed
            &&& s.cache is None ==> a1 == ActionView::FindOnPath(s.tool.name) && a2
                == (ActionView::ResolveLatest {
                repository: s.tool.repository,
                filter: stable_with_assets(),
            })
        }),
{
}

} // verus!

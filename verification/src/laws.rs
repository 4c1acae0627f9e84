//! What holds of every resolution, proved from the resolver's step function.

use vstd::prelude::*;
use crate::cleanup::{stale_positions, stale_positions_are_exact};
use crate::driver::{answer_makes_progress, answers, is_answered_run, progress, run};
use crate::error::FailureModel;
use crate::platform::{asset_name, tool_name, version_dir, Architecture, Os};
use crate::protocol::{ActionModel, EventModel, Status};
use crate::resolver::{PhaseModel, ResolverModel};

verus! {

/// The asset name of each of the nine platforms, written out.
pub open spec fn asset_name_table(os: Os, arch: Architecture) -> Seq<char> {
    match (arch, os) {
        (Architecture::Aarch64, Os::Mac) => "crates-lsp-aarch64-apple-darwin.tar.gz"@,
        (Architecture::X86, Os::Mac) => "crates-lsp-x86-apple-darwin.tar.gz"@,
        (Architecture::X8664, Os::Mac) => "crates-lsp-x86_64-apple-darwin.tar.gz"@,
        (Architecture::Aarch64, Os::Linux) => "crates-lsp-aarch64-unknown-linux-gnu.tar.gz"@,
        (Architecture::X86, Os::Linux) => "crates-lsp-x86-unknown-linux-gnu.tar.gz"@,
        (Architecture::X8664, Os::Linux) => "crates-lsp-x86_64-unknown-linux-gnu.tar.gz"@,
        (Architecture::Aarch64, Os::Windows) => "crates-lsp-aarch64-pc-windows-msvc.zip"@,
        (Architecture::X86, Os::Windows) => "crates-lsp-x86-pc-windows-msvc.zip"@,
        (Architecture::X8664, Os::Windows) => "crates-lsp-x86_64-pc-windows-msvc.zip"@,
    }
}

/// The asset name built from the tokens is, for every platform, the name that
/// the table gives.
pub proof fn asset_name_follows_the_table(os: Os, arch: Architecture)
    ensures
        asset_name(os, arch) == asset_name_table(os, arch),
{
    reveal_strlit("crates-lsp");
    reveal_strlit("-");
    reveal_strlit("aarch64");
    reveal_strlit("x86");
    reveal_strlit("x86_64");
    reveal_strlit("apple-darwin.tar.gz");
    reveal_strlit("unknown-linux-gnu.tar.gz");
    reveal_strlit("pc-windows-msvc.zip");
    reveal_strlit("crates-lsp-aarch64-apple-darwin.tar.gz");
    reveal_strlit("crates-lsp-x86-apple-darwin.tar.gz");
    reveal_strlit("crates-lsp-x86_64-apple-darwin.tar.gz");
    reveal_strlit("crates-lsp-aarch64-unknown-linux-gnu.tar.gz");
    reveal_strlit("crates-lsp-x86-unknown-linux-gnu.tar.gz");
    reveal_strlit("crates-lsp-x86_64-unknown-linux-gnu.tar.gz");
    reveal_strlit("crates-lsp-aarch64-pc-windows-msvc.zip");
    reveal_strlit("crates-lsp-x86-pc-windows-msvc.zip");
    reveal_strlit("crates-lsp-x86_64-pc-windows-msvc.zip");
    assert(asset_name(os, arch) =~= asset_name_table(os, arch));
}

/// A resolution that succeeded is repeated at no cost. If a step ends a
/// resolution with `path`, and the file is still there at the next request, then
/// that request is answered by one probe of `path` and the same path again:
/// no action reaches the network or changes the file system, and the resolver
/// is left as it was.
pub proof fn repeated_resolution_is_idempotent(
    before: ResolverModel,
    event: EventModel,
    path: Seq<char>,
)
    requires
        before.step(event).1 == (ActionModel::Finish { outcome: Ok(path) }),
    ensures
        ({
            let resolved = before.step(event).0;
            let (probing, first) = resolved.step(EventModel::Requested);
            let (again, second) = probing.step(EventModel::Probed { is_file: true });
            &&& resolved.cached == Some(path)
            &&& resolved.phase is Idle
            &&& first == (ActionModel::ProbeFile { path })
            &&& second == (ActionModel::Finish { outcome: Ok(path) })
            &&& !first.has_effect()
            &&& !second.has_effect()
            &&& again == resolved
        }),
{
}

/// A remembered path is never handed out unprobed, and never when its file is
/// gone. An idle resolver that remembers `path` answers a request by probing
/// `path`; when the probe finds no file, it announces the check for an update
/// and then fetches the release, instead of finishing.
pub proof fn dangling_cache_is_resolved_afresh(idle: ResolverModel, path: Seq<char>)
    requires
        idle.phase is Idle,
        idle.cached == Some(path),
    ensures
        ({
            let (probing, first) = idle.step(EventModel::Requested);
            let (announcing, second) = probing.step(EventModel::Probed { is_file: false });
            let (fetching, third) = announcing.step(EventModel::Notified);
            &&& first == (ActionModel::ProbeFile { path })
            &&& second == (ActionModel::Notify { status: Status::CheckingForUpdate })
            &&& third is FetchRelease
            &&& fetching.phase is FetchingRelease
        }),
{
}

/// A release without the asset expected for the platform ends the resolution
/// at once. The failure names the asset that was sought, nothing is downloaded,
/// and the remembered path stays as it was.
pub proof fn missing_asset_ends_resolution(resolver: ResolverModel, os: Os, arch: Architecture)
    requires
        resolver.phase is QueryingPlatform,
        forall|i: int|
            0 <= i < resolver.phase->release.assets.len()
                ==> resolver.phase->release.assets[i].name != asset_name(os, arch),
    ensures
        ({
            let (after, action) = resolver.step(EventModel::Platform { os, arch });
            &&& action == (ActionModel::Finish {
                outcome: Err(FailureModel::AssetNotFound { name: asset_name(os, arch) }),
            })
            &&& !action.has_effect()
            &&& after.phase is Idle
            &&& after.cached == resolver.cached
        }),
{
}

/// Two versions never share a directory.
pub proof fn version_dir_is_injective(first: Seq<char>, second: Seq<char>)
    requires
        version_dir(first) == version_dir(second),
    ensures
        first == second,
{
    let prefix = tool_name() + "-"@;
    assert(version_dir(first) == prefix + first);
    assert(version_dir(second) == prefix + second);
    assert((prefix + first).subrange(prefix.len() as int, (prefix + first).len() as int) == first);
    assert((prefix + second).subrange(prefix.len() as int, (prefix + second).len() as int)
        == second);
}

/// The removal asked for leaves one version, whether the version was installed
/// in this resolution or found in place. Of the entries
/// listed, exactly those whose name is not the installed version's directory
/// are to be removed: that directory itself never is, and the directory of any
/// other version always is.
pub proof fn cleanup_leaves_installed_version_only(
    resolver: ResolverModel,
    names: Seq<Option<Seq<char>>>,
)
    requires
        resolver.phase is Listing,
        names.len() <= usize::MAX,
    ensures
        ({
            let installed = resolver.phase->Listing_plan.version_dir;
            let (after, action) = resolver.step(EventModel::Listed { entries: Some(names) });
            &&& action is RemoveEntries
            &&& forall|p: int|
                0 <= p < names.len() ==> (action->positions.contains(p as usize) <==> #[trigger] names[p]
                    != Some(installed))
            &&& forall|k: int|
                0 <= k < action->positions.len() ==> (#[trigger] action->positions[k]) < names.len()
        }),
{
    let installed = resolver.phase->Listing_plan.version_dir;
    let stale = stale_positions(names, installed);
    stale_positions_are_exact(names, installed);
    assert forall|p: int| 0 <= p < names.len() && stale.contains(p as usize) implies #[trigger] names[p]
        != Some(installed) by {
        let k = choose|k: int| 0 <= k < stale.len() && stale[k] == p as usize;
        assert(stale[k] as int == p);
    }
}

/// Once a newer version is in place, the directory of an older one goes. If
/// the listing shows the directory of a version other than the installed one,
/// its position is among those to remove, and the position of the installed
/// version's directory is not.
pub proof fn older_version_is_removed(
    resolver: ResolverModel,
    names: Seq<Option<Seq<char>>>,
    older: Seq<char>,
    newer: Seq<char>,
    at: int,
)
    requires
        resolver.phase is Listing,
        resolver.phase->Listing_plan.version_dir == version_dir(newer),
        names.len() <= usize::MAX,
        0 <= at < names.len(),
        older != newer,
        names[at] == Some(version_dir(older)),
    ensures
        ({
            let action = resolver.step(EventModel::Listed { entries: Some(names) }).1;
            &&& action is RemoveEntries
            &&& action->positions.contains(at as usize)
            &&& forall|p: int|
                0 <= p < names.len() && #[trigger] names[p] == Some(version_dir(newer))
                    ==> !action->positions.contains(p as usize)
        }),
{
    if version_dir(older) == version_dir(newer) {
        version_dir_is_injective(older, newer);
    }
    cleanup_leaves_installed_version_only(resolver, names);
}

/// The events of a resolution that is answered from the memo: the request, and
/// a probe that finds the file.
pub open spec fn memo_run() -> Seq<EventModel> {
    seq![EventModel::Requested, EventModel::Probed { is_file: true }]
}

/// A resolution answered from the memo is a run of two answers. It ends with
/// the remembered path, leaves the resolver as it was, and none of the actions
/// asked for along it reaches the network or changes the file system.
pub proof fn memo_run_has_no_effect(idle: ResolverModel, path: Seq<char>)
    requires
        idle.phase is Idle,
        idle.cached == Some(path),
    ensures
        is_answered_run(idle, memo_run()),
        run(idle, memo_run()) == (idle, ActionModel::Finish { outcome: Ok(path) }),
        forall|k: int|
            0 <= k <= memo_run().len() ==> !(#[trigger] run(idle, memo_run().take(k))).1.has_effect(),
{
    let events = memo_run();
    let none = Seq::<EventModel>::empty();
    let one = seq![EventModel::Requested];
    assert(events.take(0) == none);
    assert(events.take(1) == one);
    assert(events.take(2) == events);
    assert(one.drop_last() == none);
    assert(events.drop_last() == one);
    assert(run(idle, none) == (idle, ActionModel::AwaitRequest));
    assert(run(idle, one) == run(idle, none).0.step(EventModel::Requested));
    assert(run(idle, events) == run(idle, one).0.step(EventModel::Probed { is_file: true }));
    assert forall|k: int| 0 <= k < events.len() implies answers(
        events[k],
        #[trigger] run(idle, events.take(k)).1,
    ) by {
        if k == 0 {
            assert(events.take(k) == none);
        } else {
            assert(events.take(k) == one);
        }
    }
    assert forall|k: int| 0 <= k <= events.len() implies !(#[trigger] run(
        idle,
        events.take(k),
    )).1.has_effect() by {
        if k == 0 {
            assert(events.take(k) == none);
        } else if k == 1 {
            assert(events.take(k) == one);
        } else {
            assert(events.take(k) == events);
        }
    }
}

/// A version that is already installed is not downloaded again, and the
/// cleanup is not skipped for it. When the probe finds the binary in its
/// version directory, the next action is the listing of the working directory,
/// under the same plan; when it does not, the download is announced.
pub proof fn installed_binary_goes_on_to_cleanup(resolver: ResolverModel, is_file: bool)
    requires
        resolver.phase is ProbingBinary,
    ensures
        ({
            let plan = resolver.phase->ProbingBinary_plan;
            let (after, action) = resolver.step(EventModel::Probed { is_file });
            &&& after.cached == resolver.cached
            &&& is_file ==> action == ActionModel::ListWorkingDir && after.phase
                == (PhaseModel::Listing { plan })
            &&& !is_file ==> action == (ActionModel::Notify { status: Status::Downloading })
                && after.phase == (PhaseModel::AnnouncingDownload { plan })
        }),
{
}

/// A removal that fails does not fail the resolution. Whatever number of
/// entries could not be removed, and also where the listing itself failed, the
/// resolution ends with the path of the installed binary and remembers it.
pub proof fn failed_cleanup_is_ignored(resolver: ResolverModel, failures: usize)
    requires
        resolver.phase is Removing || resolver.phase is Listing,
    ensures
        resolver.phase matches PhaseModel::Removing { plan, stale } ==> {
            let (after, action) = resolver.step(EventModel::Removed { failures });
            &&& action == (ActionModel::Finish { outcome: Ok(plan.binary_path) })
            &&& after.cached == Some(plan.binary_path)
        },
        resolver.phase matches PhaseModel::Listing { plan } ==> {
            let (after, action) = resolver.step(EventModel::Listed { entries: None });
            &&& action == (ActionModel::Finish { outcome: Ok(plan.binary_path) })
            &&& after.cached == Some(plan.binary_path)
        },
{
}

/// Every resolution that ends well remembers the path it gave, and one that
/// fails leaves the remembered path alone.
pub proof fn finish_settles_the_cache(before: ResolverModel, event: EventModel)
    requires
        before.step(event).1 is Finish,
    ensures
        before.step(event).0.phase is Idle,
        match before.step(event).1->outcome {
            Ok(path) => before.step(event).0.cached == Some(path),
            Err(_) => before.step(event).0.cached == before.cached,
        },
{
}

/// A run that is answered throughout stays so when it is cut short.
pub proof fn answered_run_prefix(start: ResolverModel, events: Seq<EventModel>, n: int)
    requires
        is_answered_run(start, events),
        0 <= n <= events.len(),
    ensures
        is_answered_run(start, events.take(n)),
{
    let shorter = events.take(n);
    assert forall|k: int| 0 <= k < shorter.len() implies answers(
        shorter[k],
        #[trigger] run(start, shorter.take(k)).1,
    ) by {
        assert(shorter.take(k) == events.take(k));
    }
}

/// In an answered run every answer leads on. Until the run finishes, the
/// resolver waits on the action it asked for last, and has advanced by at least
/// one phase for each event; when it finishes, it is idle.
pub proof fn answered_run_advances(start: ResolverModel, events: Seq<EventModel>)
    requires
        is_answered_run(start, events),
    ensures
        ({
            let (at, action) = run(start, events);
            if action is Finish {
                at.phase is Idle && events.len() > 0
            } else {
                action == at.phase.pending() && progress(at.phase) >= progress(start.phase)
                    + events.len()
            }
        }),
    decreases events.len(),
{
    if events.len() > 0 {
        let shorter = events.drop_last();
        assert(events.take(events.len() - 1) == shorter);
        answered_run_prefix(start, events, events.len() - 1);
        answered_run_advances(start, shorter);
        assert(answers(events.last(), run(start, events.take(events.len() - 1)).1));
        answer_makes_progress(run(start, shorter).0, events.last());
    }
}

/// Every resolution ends: no answered run is longer than twelve events.
pub proof fn resolution_is_bounded(start: ResolverModel, events: Seq<EventModel>)
    requires
        is_answered_run(start, events),
    ensures
        events.len() <= 12,
{
    answered_run_advances(start, events);
    if events.len() > 0 {
        assert(events.take(events.len() - 1) == events.drop_last());
        answered_run_prefix(start, events, events.len() - 1);
        answered_run_advances(start, events.drop_last());
    }
}

/// Whether a run stands before the choice of an asset, or has ended for want
/// of a release or of an asset.
pub open spec fn before_install(at: ResolverModel, action: ActionModel) -> bool {
    match action {
        ActionModel::Finish { outcome } => outcome matches Err(failure) && (failure
            is ReleaseFetch || failure is AssetNotFound),
        _ => progress(at.phase) <= 4,
    }
}

/// Nothing is written before an asset is chosen. In an answered run from an
/// idle resolver that has not passed the query for the platform, or that has
/// ended because the release or the asset was missing, no action asked for
/// created a directory, downloaded, set a permission or removed an entry.
pub proof fn nothing_is_written_before_install(start: ResolverModel, events: Seq<EventModel>)
    requires
        start.phase is Idle,
        is_answered_run(start, events),
        before_install(run(start, events).0, run(start, events).1),
    ensures
        forall|k: int|
            0 <= k <= events.len() ==> !(#[trigger] run(start, events.take(k))).1.is_write(),
    decreases events.len(),
{
    answered_run_advances(start, events);
    if events.len() > 0 {
        let shorter = events.drop_last();
        assert(events.take(events.len() - 1) == shorter);
        answered_run_prefix(start, events, events.len() - 1);
        answered_run_advances(start, shorter);
        assert(answers(events.last(), run(start, events.take(events.len() - 1)).1));
        answer_makes_progress(run(start, shorter).0, events.last());
        nothing_is_written_before_install(start, shorter);
        assert forall|k: int| 0 <= k <= events.len() implies !(#[trigger] run(
            start,
            events.take(k),
        )).1.is_write() by {
            if k < events.len() {
                assert(events.take(k) == shorter.take(k));
            } else {
                assert(events.take(k) == events);
            }
        }
    } else {
        assert forall|k: int| 0 <= k <= events.len() implies !(#[trigger] run(
            start,
            events.take(k),
        )).1.is_write() by {
            assert(events.take(k) == events);
        }
    }
}

} // verus!

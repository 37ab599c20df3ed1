use vstd::prelude::*;
use crate::installer::{
    after_check, names_of, other_than, stage_accepts, stepped, Action, Event, InstallerView, Stage,
};
use crate::paths::file_in;
use crate::platform::asset_file_name;
use crate::release::{error_text, has_named, listed_names, LaunchError, Release};

verus! {

/// Every step from a well-formed state reaches a well-formed state.
pub proof fn lemma_step_keeps_wf(s: InstallerView, e: Event, t: InstallerView, a: Action)
    requires
        s.wf(),
        stage_accepts(s.stage, e),
        stepped(s, e, t, a),
    ensures
        t.wf(),
{
}

/// `states`, `events` and `actions` record a run of an installer: each event
/// is the one its state waits on, and moves it to the next state with the
/// recorded action.
pub open spec fn is_run(states: Seq<InstallerView>, events: Seq<Event>, actions: Seq<Action>) -> bool {
    &&& states.len() == events.len() + 1
    &&& actions.len() == events.len()
    &&& forall|k: int|
        0 <= k < events.len() ==> stage_accepts(states[k].stage, #[trigger] events[k])
            && stepped(states[k], events[k], states[k + 1], actions[k])
}

proof fn lemma_cached_run_state(
    states: Seq<InstallerView>,
    events: Seq<Event>,
    actions: Seq<Action>,
    k: int,
)
    requires
        is_run(states, events, actions),
        states[0].wf(),
        states[0].stage == Stage::AwaitRelease,
        forall|j: int|
            0 <= j < events.len() && (#[trigger] events[j]) is AssetChecked ==> events[j]
                == Event::AssetChecked(true),
        0 <= k <= events.len(),
    ensures
        states[k].wf(),
        after_check(states[k].stage) ==> states[k].asset_present,
    decreases k,
{
    if k > 0 {
        lemma_cached_run_state(states, events, actions, k - 1);
        lemma_step_keeps_wf(states[k - 1], events[k - 1], states[k], actions[k - 1]);
    }
}

/// When the asset is already on disk, a run never downloads it: if every
/// asset check of a run from the start reports the asset present, no action
/// of the run is a download or an executable-flag fix-up.
pub proof fn cached_asset_is_never_downloaded(
    states: Seq<InstallerView>,
    events: Seq<Event>,
    actions: Seq<Action>,
)
    requires
        is_run(states, events, actions),
        states[0].wf(),
        states[0].stage == Stage::AwaitRelease,
        forall|j: int|
            0 <= j < events.len() && (#[trigger] events[j]) is AssetChecked ==> events[j]
                == Event::AssetChecked(true),
    ensures
        forall|k: int|
            0 <= k < actions.len() ==> !(#[trigger] actions[k] is Download) && !(
            actions[k] is MakeExecutable),
{
    assert forall|k: int| 0 <= k < actions.len() implies !(#[trigger] actions[k] is Download)
        && !(actions[k] is MakeExecutable) by {
        lemma_cached_run_state(states, events, actions, k);
        assert(stage_accepts(states[k].stage, events[k]));
    }
}

/// Eviction removes every listed entry but the current cache directory, and
/// never that one: what the listing held and the removal spares is at most
/// the current cache directory.
pub proof fn eviction_spares_only_current(
    s: InstallerView,
    entries: Vec<String>,
    t: InstallerView,
    a: Action,
)
    requires
        stage_accepts(s.stage, Event::DirectoryListed(Ok(entries))),
        stepped(s, Event::DirectoryListed(Ok(entries)), t, a),
    ensures
        t.stage == Stage::AwaitEviction,
        match a {
            Action::RemoveEntries { names } => {
                &&& forall|x: Seq<char>|
                    names_of(entries@).contains(x) && !names_of(names@).contains(x) ==> x
                        == s.directory
                &&& forall|x: Seq<char>|
                    names_of(names@).contains(x) ==> x != s.directory && names_of(
                        entries@,
                    ).contains(x)
            },
            _ => false,
        },
{
    broadcast use vstd::seq_lib::group_filter_ensures;

    let p = other_than(s.directory);
    let all = names_of(entries@);
    if let Action::RemoveEntries { names } = a {
        assert(names_of(names@) == all.filter(p));
        assert forall|x: Seq<char>| all.contains(x) && !names_of(names@).contains(x) implies x
            == s.directory by {
            let i = choose|i: int| 0 <= i < all.len() && all[i] == x;
            if x != s.directory {
                assert(all.filter(p).contains(all[i]));
            }
        }
        assert forall|x: Seq<char>| names_of(names@).contains(x) implies x != s.directory
            && all.contains(x) by {
            let i = choose|i: int| 0 <= i < all.filter(p).len() && all.filter(p)[i] == x;
            assert(p(all.filter(p)[i]));
            all.lemma_filter_contains_rev(p, x);
        }
    }
}

/// A failed download or executable-flag fix-up leaves nothing cached: the
/// installer first asks for the asset path to be removed, waits for nothing
/// but that removal, and then ends with the failure's error. A later run thus
/// finds no asset and downloads it again.
pub proof fn failed_install_is_rolled_back(
    s: InstallerView,
    e: Event,
    t: InstallerView,
    a: Action,
    u: InstallerView,
    b: Action,
)
    requires
        s.wf(),
        stage_accepts(s.stage, e),
        stepped(s, e, t, a),
        (e is Downloaded && e->Downloaded_0 is Err) || (e is MadeExecutable
            && e->MadeExecutable_0 is Err),
        stepped(t, Event::AssetRemoved, u, b),
    ensures
        match a {
            Action::RemoveAsset { path } => path@ == file_in(s.directory, s.asset_name),
            _ => false,
        },
        forall|e2: Event| stage_accepts(t.stage, e2) <==> e2 is AssetRemoved,
        u.stage == Stage::Finished,
        match e {
            Event::Downloaded(Err(m)) => b == Action::Finish(
                Err(LaunchError::Download { message: m }),
            ),
            Event::MadeExecutable(Err(m)) => b == Action::Finish(
                Err(LaunchError::ExecutableFlag { message: m }),
            ),
            _ => false,
        },
{
}

/// A failed release lookup ends the run at once with a release-fetch error
/// that carries the lookup's message; the finished installer accepts no more
/// events, so no directory is ever created.
pub proof fn failed_release_lookup_ends_run(
    s: InstallerView,
    message: String,
    t: InstallerView,
    a: Action,
)
    requires
        stage_accepts(s.stage, Event::ReleaseFetched(Err(message))),
        stepped(s, Event::ReleaseFetched(Err(message)), t, a),
    ensures
        t.stage == Stage::Finished,
        a == Action::Finish(Err(LaunchError::ReleaseFetch { message })),
        forall|e: Event| !stage_accepts(t.stage, e),
{
}

/// A release without an asset of the expected name ends the run with an
/// asset-not-found error whose text names the expected asset and lists the
/// assets the release offers.
pub proof fn missing_asset_reports_expected_and_offered(
    s: InstallerView,
    release: Release,
    t: InstallerView,
    a: Action,
)
    requires
        stage_accepts(s.stage, Event::ReleaseFetched(Ok(release))),
        stepped(s, Event::ReleaseFetched(Ok(release)), t, a),
        !has_named(release.assets@, asset_file_name(s.tool, s.platform)),
    ensures
        t.stage == Stage::Finished,
        match a {
            Action::Finish(Err(err)) => {
                &&& err is AssetNotFound
                &&& error_text(err) == "could not find asset "@ + asset_file_name(
                    s.tool,
                    s.platform,
                ) + " in ["@ + listed_names(release.assets@) + "]"@
            },
            _ => false,
        },
{
}

} // verus!

//! What holds of every run of the launcher.
//!
//! A run is a launcher at its start and the events it was given. Beside it
//! stands the identity that was in effect before and after each event. Two
//! assumptions about the system are considered. An honest system does what
//! it reports. Of a merely truthful system only the queries are relied on;
//! its calls may report success and do something else.

use crate::config::ProfileView;
use crate::identity::{honest, truthful, Identity};
use crate::launcher::{Action, EventView, LauncherView, Stage, StepView};
use vstd::prelude::*;

verus! {

/// The state of the run that began at `start` and was given `events` one
/// after the other.
pub open spec fn run(start: LauncherView, events: Seq<EventView>) -> LauncherView
    decreases events.len(),
{
    if events.len() == 0 {
        start
    } else {
        run(start, events.drop_last()).next(events.last())
    }
}

/// Whether `stage` lies behind the drop of privileges: the launcher is
/// about to act, or has acted, on behalf of the profile.
pub open spec fn acts(stage: Stage) -> bool {
    stage is EnteringWorkdir || stage is ReadingEnvironment || stage is Executing
        || stage is Signalling || stage is Finished
}

/// One step served by an honest system. Only a request of the identity
/// transition can change the identity. Of an event that does not answer
/// such a request nothing is assumed: it ends the run.
pub open spec fn honest_step(before: Identity, step: StepView, event: EventView, after: Identity) -> bool {
    match step {
        StepView::Identity(request) => match event {
            EventView::Identity(reply) => honest(before, request, reply, after),
            _ => true,
        },
        _ => after == before,
    }
}

/// One step served by a system of which only the queries are relied on.
pub open spec fn truthful_step(before: Identity, step: StepView, event: EventView, after: Identity) -> bool {
    match step {
        StepView::Identity(request) => match event {
            EventView::Identity(reply) => truthful(before, request, reply, after),
            _ => true,
        },
        _ => after == before,
    }
}

/// A run on an honest system: `identities[i]` is in effect when the event
/// `events[i]` answers the step that is then pending, and
/// `identities[i + 1]` right after.
pub open spec fn honest_history(
    start: LauncherView,
    events: Seq<EventView>,
    identities: Seq<Identity>,
) -> bool {
    &&& identities.len() == events.len() + 1
    &&& forall|i: int|
        0 <= i < events.len() ==> honest_step(
            identities[i],
            (#[trigger] run(start, events.take(i))).step(),
            events[i],
            identities[i + 1],
        )
}

/// A run on a system of which only the queries are relied on.
pub open spec fn truthful_history(
    start: LauncherView,
    events: Seq<EventView>,
    identities: Seq<Identity>,
) -> bool {
    &&& identities.len() == events.len() + 1
    &&& forall|i: int|
        0 <= i < events.len() ==> truthful_step(
            identities[i],
            (#[trigger] run(start, events.take(i))).step(),
            events[i],
            identities[i + 1],
        )
}

/// What an honest system guarantees at each stage of a run: the calls made
/// so far have their effect in place, the drop aims at the profile's
/// identity, and behind the drop that identity is in effect.
pub open spec fn on_course(launcher: LauncherView, identity: Identity) -> bool {
    match launcher.stage {
        Stage::Elevating(transition) => transition.established(identity),
        Stage::Dropping(transition) => {
            &&& transition.uid == launcher.profile.uid
            &&& transition.gid == launcher.profile.gid
            &&& transition.established(identity)
        },
        Stage::Failed(_) => true,
        _ => identity == Identity::target(launcher.profile.uid, launcher.profile.gid),
    }
}

/// What a strict run guarantees at each stage, whatever the calls did: every
/// transition is strict, the drop aims at the profile's identity, and
/// behind the drop that identity is in effect.
pub open spec fn checked(launcher: LauncherView, identity: Identity) -> bool {
    &&& launcher.strict
    &&& match launcher.stage {
        Stage::Elevating(transition) => transition.strict,
        Stage::Dropping(transition) => {
            &&& transition.strict
            &&& transition.uid == launcher.profile.uid
            &&& transition.gid == launcher.profile.gid
            &&& transition.progress is Settled ==> identity == Identity::target(
                launcher.profile.uid,
                launcher.profile.gid,
            )
        },
        Stage::Failed(_) => true,
        _ => identity == Identity::target(launcher.profile.uid, launcher.profile.gid),
    }
}

/// One honest step keeps a run on course.
pub proof fn lemma_honest_step(
    launcher: LauncherView,
    before: Identity,
    event: EventView,
    after: Identity,
)
    requires
        on_course(launcher, before),
        honest_step(before, launcher.step(), event, after),
    ensures
        on_course(launcher.next(event), after),
{
    match launcher.stage {
        Stage::Elevating(transition) => {
            if let EventView::Identity(reply) = event {
                transition.lemma_honest_exchange(before, reply, after);
            }
        },
        Stage::Dropping(transition) => {
            if let EventView::Identity(reply) = event {
                transition.lemma_honest_exchange(before, reply, after);
            }
        },
        _ => {},
    }
}

/// One truthful step keeps a strict run checked.
pub proof fn lemma_truthful_step(
    launcher: LauncherView,
    before: Identity,
    event: EventView,
    after: Identity,
)
    requires
        checked(launcher, before),
        truthful_step(before, launcher.step(), event, after),
    ensures
        checked(launcher.next(event), after),
{
    match launcher.stage {
        Stage::Dropping(transition) => {
            if let EventView::Identity(reply) = event {
                transition.lemma_strict_exchange(before, reply, after);
            }
        },
        _ => {},
    }
}

/// The first `n` events of an honest history leave the run on course.
proof fn lemma_honest_prefix(
    start: LauncherView,
    events: Seq<EventView>,
    identities: Seq<Identity>,
    n: int,
)
    requires
        honest_history(start, events, identities),
        on_course(start, identities[0]),
        0 <= n <= events.len(),
    ensures
        on_course(run(start, events.take(n)), identities[n]),
    decreases n,
{
    if n == 0 {
        assert(events.take(0) =~= Seq::empty());
    } else {
        lemma_honest_prefix(start, events, identities, n - 1);
        let earlier = run(start, events.take(n - 1));
        assert(events.take(n).drop_last() =~= events.take(n - 1));
        assert(events.take(n).last() == events[n - 1]);
        assert(run(start, events.take(n)) == earlier.next(events[n - 1]));
        lemma_honest_step(earlier, identities[n - 1], events[n - 1], identities[n]);
    }
}

/// The first `n` events of a truthful history leave a strict run checked.
proof fn lemma_truthful_prefix(
    start: LauncherView,
    events: Seq<EventView>,
    identities: Seq<Identity>,
    n: int,
)
    requires
        truthful_history(start, events, identities),
        checked(start, identities[0]),
        0 <= n <= events.len(),
    ensures
        checked(run(start, events.take(n)), identities[n]),
    decreases n,
{
    if n == 0 {
        assert(events.take(0) =~= Seq::empty());
    } else {
        lemma_truthful_prefix(start, events, identities, n - 1);
        let earlier = run(start, events.take(n - 1));
        assert(events.take(n).drop_last() =~= events.take(n - 1));
        assert(events.take(n).last() == events[n - 1]);
        assert(run(start, events.take(n)) == earlier.next(events[n - 1]));
        lemma_truthful_step(earlier, identities[n - 1], events[n - 1], identities[n]);
    }
}

/// After a successful drop the process has the profile's identity: on an
/// honest system, whenever a run has come behind the drop, the effective
/// user id is the profile's `uid`, the effective group id is its `gid`, and
/// there is no supplementary group. This holds in strict and in lenient
/// runs, for every profile and from every identity the launcher may have
/// been started with.
pub proof fn theorem_drop_reaches_profile_identity(
    profile: ProfileView,
    action: Action,
    strict: bool,
    root_uid: u32,
    root_gid: u32,
    events: Seq<EventView>,
    identities: Seq<Identity>,
)
    requires
        honest_history(
            LauncherView::start(profile, action, strict, root_uid, root_gid),
            events,
            identities,
        ),
    ensures
        acts(run(LauncherView::start(profile, action, strict, root_uid, root_gid), events).stage)
            ==> identities.last() == Identity::target(profile.uid, profile.gid),
        run(LauncherView::start(profile, action, strict, root_uid, root_gid), events).profile
            == profile,
{
    let start = LauncherView::start(profile, action, strict, root_uid, root_gid);
    lemma_honest_prefix(start, events, identities, events.len() as int);
    assert(events.take(events.len() as int) =~= events);
    lemma_run_keeps_request(start, events);
}

/// Elevation followed by the drop ends in the same identity wherever it
/// began: two runs for the same profile on an honest system, started under
/// any two identities (as root, say, and as the profile's own user), that
/// both come behind the drop have the same user, the same group and no
/// supplementary groups.
pub proof fn theorem_outcome_independent_of_start(
    profile: ProfileView,
    action: Action,
    strict: bool,
    root_uid: u32,
    root_gid: u32,
    first_events: Seq<EventView>,
    first_identities: Seq<Identity>,
    second_events: Seq<EventView>,
    second_identities: Seq<Identity>,
)
    requires
        honest_history(
            LauncherView::start(profile, action, strict, root_uid, root_gid),
            first_events,
            first_identities,
        ),
        honest_history(
            LauncherView::start(profile, action, strict, root_uid, root_gid),
            second_events,
            second_identities,
        ),
        acts(
            run(
                LauncherView::start(profile, action, strict, root_uid, root_gid),
                first_events,
            ).stage,
        ),
        acts(
            run(
                LauncherView::start(profile, action, strict, root_uid, root_gid),
                second_events,
            ).stage,
        ),
    ensures
        first_identities.last() == second_identities.last(),
        first_identities.last() == Identity::target(profile.uid, profile.gid),
{
    theorem_drop_reaches_profile_identity(
        profile,
        action,
        strict,
        root_uid,
        root_gid,
        first_events,
        first_identities,
    );
    theorem_drop_reaches_profile_identity(
        profile,
        action,
        strict,
        root_uid,
        root_gid,
        second_events,
        second_identities,
    );
}

/// A strict run never acts under a wrong identity: even if a call reports
/// success and leaves another user, another group or some supplementary
/// groups behind, the run does not come behind the drop. Whenever a strict
/// run is about to change directory, read the environment, execute the
/// command or send the signal, the profile's identity is in effect.
pub proof fn theorem_strict_run_acts_only_under_profile_identity(
    profile: ProfileView,
    action: Action,
    root_uid: u32,
    root_gid: u32,
    events: Seq<EventView>,
    identities: Seq<Identity>,
)
    requires
        truthful_history(
            LauncherView::start(profile, action, true, root_uid, root_gid),
            events,
            identities,
        ),
    ensures
        acts(run(LauncherView::start(profile, action, true, root_uid, root_gid), events).stage)
            ==> identities.last() == Identity::target(profile.uid, profile.gid),
{
    let start = LauncherView::start(profile, action, true, root_uid, root_gid);
    lemma_truthful_prefix(start, events, identities, events.len() as int);
    assert(events.take(events.len() as int) =~= events);
    lemma_run_keeps_request(start, events);
}

/// A run never changes what it was asked for: the profile, the action and
/// the strictness are those it began with.
pub proof fn lemma_run_keeps_request(start: LauncherView, events: Seq<EventView>)
    ensures
        run(start, events).profile == start.profile,
        run(start, events).action == start.action,
        run(start, events).strict == start.strict,
    decreases events.len(),
{
    if events.len() > 0 {
        lemma_run_keeps_request(start, events.drop_last());
    }
}

/// How far along the run a stage lies. Launching and signalling part ways
/// behind the drop; a finished and a failed run are both at the end.
pub open spec fn rank(stage: Stage) -> nat {
    match stage {
        Stage::Elevating(_) => 0,
        Stage::Dropping(_) => 1,
        Stage::EnteringWorkdir | Stage::Signalling => 2,
        Stage::ReadingEnvironment => 3,
        Stage::Executing => 4,
        Stage::Finished | Stage::Failed(_) => 5,
    }
}

/// No event leads back to an earlier stage. In particular the drop is not
/// undone: once a run is behind it, no change of identity is asked for
/// again.
pub proof fn lemma_run_never_leads_back(launcher: LauncherView, events: Seq<EventView>)
    ensures
        rank(run(launcher, events).stage) >= rank(launcher.stage),
        acts(launcher.stage) ==> !(run(launcher, events).step() is Identity),
    decreases events.len(),
{
    if events.len() > 0 {
        lemma_run_never_leads_back(launcher, events.drop_last());
    }
}

/// Nothing is retried: a run that has failed or finished stays exactly as
/// it is, whatever it is given afterwards, and a failed run asks only to
/// abort with the error it failed on.
pub proof fn lemma_ended_run_is_final(launcher: LauncherView, events: Seq<EventView>)
    requires
        launcher.stage is Failed || launcher.stage is Finished,
    ensures
        run(launcher, events) == launcher,
        launcher.stage matches Stage::Failed(error) ==> launcher.step() == StepView::Abort(error),
    decreases events.len(),
{
    if events.len() > 0 {
        lemma_ended_run_is_final(launcher, events.drop_last());
    }
}

} // verus!

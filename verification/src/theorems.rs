//! What holds of every task, whatever the caller answers.

use vstd::prelude::*;
use crate::codec::spec_serialize;
use crate::error::ErrorView;
use crate::lock::spec_bump;
use crate::lock::spec_frozen;
use crate::lock::spec_tidy;
use crate::operations::plan_lock;
use crate::operations::plan_tidy;
use crate::project::spec_metadata;
use crate::operations::plan_inside;
use crate::operations::plan_install;
use crate::operations::spec_refused;
use crate::operations::spec_started;
use crate::project::CommandKind;
use crate::project::PostInstallAction;
use crate::project::ProjectView;
use crate::task::spec_action;
use crate::task::spec_advance;
use crate::task::spec_fresh;
use crate::task::ActionView;
use crate::task::EventView;
use crate::task::Phase;
use crate::task::Step;
use crate::task::TaskView;

verus! {

/// The task after a run of events, the first of them first.
pub open spec fn spec_replay(p: ProjectView, t: TaskView, events: Seq<EventView>) -> TaskView
    decreases events.len(),
{
    if events.len() == 0 {
        t
    } else {
        spec_advance(p, spec_replay(p, t, events.drop_last()), events.last())
    }
}

/// A task asks for `Finish` exactly when it is over, and the result it
/// then gives is its failure, or success where it has none.
pub proof fn lemma_finish_when_over(p: ProjectView, t: TaskView)
    ensures
        spec_action(p, t) is Finish <==> t.over(),
        t.over() ==> spec_action(p, t) == (ActionView::Finish {
            result: match t.failure {
                Some(e) => Err(e),
                None => Ok(()),
            },
        }),
{
}

/// A task that is over stays as it is, whatever events follow.
pub proof fn lemma_over_stays(p: ProjectView, t: TaskView, events: Seq<EventView>)
    requires
        t.over(),
    ensures
        spec_replay(p, t, events) == t,
    decreases events.len(),
{
    if events.len() > 0 {
        lemma_over_stays(p, t, events.drop_last());
    }
}

/// An event changes neither the steps of a task nor what the user gave it,
/// and never takes a task back.
pub proof fn lemma_advance_keeps(p: ProjectView, t: TaskView, e: EventView)
    ensures
        spec_advance(p, t, e).plan == t.plan,
        spec_advance(p, t, e).args == t.args,
        spec_advance(p, t, e).name == t.name,
        spec_advance(p, t, e).version == t.version,
        spec_advance(p, t, e).use_source_ref == t.use_source_ref,
        spec_advance(p, t, e).at >= t.at,
        t.failure is Some ==> spec_advance(p, t, e).failure == t.failure,
{
}

/// Nothing but the environment directory is ever removed.
pub proof fn lemma_removes_only_venv(p: ProjectView, t: TaskView)
    ensures
        spec_action(p, t) matches ActionView::RemoveTree { path } ==> path == p.paths.venv,
{
}

/// Nothing but the lock is ever written, and always as a whole.
pub proof fn lemma_writes_only_lock(p: ProjectView, t: TaskView)
    ensures
        spec_action(p, t) matches ActionView::WriteText { path, .. } ==> path == p.paths.lock,
{
}

/// Making sure of an environment that is there asks whether it is there
/// and for nothing else: no directory is made and no program is run.
pub proof fn lemma_ensure_reuses(p: ProjectView, later: Seq<EventView>)
    ensures
        spec_action(p, spec_started(seq![Step::EnsureVenv])) == (ActionView::Probe {
            path: p.paths.venv,
        }),
        spec_action(
            p,
            spec_replay(
                p,
                spec_advance(
                    p,
                    spec_started(seq![Step::EnsureVenv]),
                    EventView::Found { present: true },
                ),
                later,
            ),
        ) == (ActionView::Finish { result: Ok(()) }),
{
    let t = spec_advance(p, spec_started(seq![Step::EnsureVenv]), EventView::Found { present: true });
    assert(t.over());
    lemma_over_stays(p, t, later);
}

/// Cleaning where there is no environment asks whether it is there and for
/// nothing else, and succeeds.
pub proof fn lemma_clean_absent(p: ProjectView, later: Seq<EventView>)
    ensures
        spec_action(p, spec_started(seq![Step::RemoveVenv])) == (ActionView::Probe {
            path: p.paths.venv,
        }),
        spec_action(
            p,
            spec_replay(
                p,
                spec_advance(
                    p,
                    spec_started(seq![Step::RemoveVenv]),
                    EventView::Found { present: false },
                ),
                later,
            ),
        ) == (ActionView::Finish { result: Ok(()) }),
{
    let t = spec_advance(p, spec_started(seq![Step::RemoveVenv]), EventView::Found { present: false });
    assert(t.over());
    lemma_over_stays(p, t, later);
}

/// Cleaning never fails, whatever the caller answers.
pub proof fn lemma_clean_never_fails(p: ProjectView, events: Seq<EventView>)
    ensures
        spec_replay(p, spec_started(seq![Step::RemoveVenv]), events).failure is None,
        spec_replay(p, spec_started(seq![Step::RemoveVenv]), events).plan == seq![Step::RemoveVenv],
    decreases events.len(),
{
    if events.len() > 0 {
        lemma_clean_never_fails(p, events.drop_last());
    }
}

/// Installing without a lock asks whether the lock is there and for
/// nothing else, and fails with the lock's path: the environment is not
/// touched.
pub proof fn lemma_install_needs_lock(p: ProjectView, post: PostInstallAction, later: Seq<EventView>)
    ensures
        spec_action(p, spec_started(plan_install(post))) == (ActionView::Probe {
            path: p.paths.lock,
        }),
        spec_action(
            p,
            spec_replay(
                p,
                spec_advance(
                    p,
                    spec_started(plan_install(post)),
                    EventView::Found { present: false },
                ),
                later,
            ),
        ) == (ActionView::Finish { result: Err(ErrorView::MissingLock { path: p.paths.lock }) }),
{
    let t = spec_advance(p, spec_started(plan_install(post)), EventView::Found { present: false });
    assert(t.over());
    lemma_over_stays(p, t, later);
}

/// A command inside an environment that is not there asks whether the
/// environment is there and for nothing else, and fails with the
/// environment's path: no program is run.
pub proof fn lemma_inside_needs_venv(
    p: ProjectView,
    kind: CommandKind,
    args: Seq<Seq<char>>,
    later: Seq<EventView>,
)
    ensures
        spec_action(
            p,
            spec_fresh(plan_inside(kind), args, Seq::empty(), Seq::empty(), false),
        ) == (ActionView::Probe { path: p.paths.venv }),
        spec_action(
            p,
            spec_replay(
                p,
                spec_advance(
                    p,
                    spec_fresh(plan_inside(kind), args, Seq::empty(), Seq::empty(), false),
                    EventView::Found { present: false },
                ),
                later,
            ),
        ) == (ActionView::Finish {
            result: Err(ErrorView::MissingEnvironment { path: p.paths.venv }),
        }),
{
    let t = spec_advance(
        p,
        spec_fresh(plan_inside(kind), args, Seq::empty(), Seq::empty(), false),
        EventView::Found { present: false },
    );
    assert(t.over());
    lemma_over_stays(p, t, later);
}

/// Tidying from a shell with an activated environment fails before
/// anything is asked for.
pub proof fn lemma_tidy_refused(p: ProjectView, later: Seq<EventView>)
    ensures
        spec_action(
            p,
            spec_replay(p, spec_refused(ErrorView::ActiveEnvironmentConflict), later),
        ) == (ActionView::Finish { result: Err(ErrorView::ActiveEnvironmentConflict) }),
{
    lemma_over_stays(p, spec_refused(ErrorView::ActiveEnvironmentConflict), later);
}

/// The event that a path is there, or is not.
pub open spec fn found(present: bool) -> EventView {
    EventView::Found { present }
}

/// The event that a program ended well, with this output.
pub open spec fn succeeded(stdout: Seq<char>) -> EventView {
    EventView::Exited { code: 0, stdout, stderr: Seq::empty() }
}

/// One more event at the end is one more step of the task.
pub proof fn lemma_replay_push(p: ProjectView, t: TaskView, events: Seq<EventView>, e: EventView)
    ensures
        spec_replay(p, t, events.push(e)) == spec_advance(p, spec_replay(p, t, events), e),
{
    assert(events.push(e).drop_last() == events);
}

/// Generating a lock without a descriptor asks whether the descriptor is
/// there and for nothing else, and fails.
pub proof fn lemma_lock_needs_descriptor(p: ProjectView, later: Seq<EventView>)
    ensures
        spec_action(p, spec_started(plan_lock())) == (ActionView::Probe { path: p.paths.setup_py }),
        spec_action(
            p,
            spec_replay(p, spec_advance(p, spec_started(plan_lock()), found(false)), later),
        ) == (ActionView::Finish { result: Err(ErrorView::MissingSetupDescriptor) }),
{
    let t = spec_advance(p, spec_started(plan_lock()), found(false));
    assert(t.over());
    lemma_over_stays(p, t, later);
}

/// The events of a lock generation in which all is there and every
/// program ends well, up to the installer's freeze output.
pub open spec fn lock_events(output: Seq<char>) -> Seq<EventView> {
    seq![
        found(true),
        found(true),
        found(true),
        succeeded(Seq::empty()),
        found(true),
        succeeded(Seq::empty()),
        found(true),
        succeeded(output),
    ]
}

/// When all is there and every program ends well, generating a lock asks
/// to write, as the lock, the text of what the freeze output lists, under
/// a header of this project; and once that is written it has succeeded.
/// Freeze output that cannot be read fails it, and nothing is written.
pub proof fn lemma_lock_writes_frozen(p: ProjectView, output: Seq<char>)
    ensures
        spec_action(p, spec_replay(p, spec_started(plan_lock()), lock_events(output))) == (
        match spec_frozen(output) {
            Ok(records) => ActionView::WriteText {
                path: p.paths.lock,
                text: spec_serialize(records, spec_metadata(p)),
            },
            Err(e) => ActionView::Finish { result: Err(e) },
        }),
        spec_frozen(output) is Ok ==> spec_action(
            p,
            spec_replay(p, spec_started(plan_lock()), lock_events(output).push(EventView::Done)),
        ) == (ActionView::Finish { result: Ok(()) }),
{
    let t = spec_started(plan_lock());
    let none = Seq::<EventView>::empty();
    let e1 = none.push(found(true));
    let e2 = e1.push(found(true));
    let e3 = e2.push(found(true));
    let e4 = e3.push(succeeded(Seq::empty()));
    let e5 = e4.push(found(true));
    let e6 = e5.push(succeeded(Seq::empty()));
    let e7 = e6.push(found(true));
    let e8 = e7.push(succeeded(output));
    assert(e8 == lock_events(output));
    assert(spec_replay(p, t, none) == t);
    lemma_replay_push(p, t, none, found(true));
    let t1 = spec_replay(p, t, e1);
    assert(t1 == t.next_step());
    lemma_replay_push(p, t, e1, found(true));
    let t2 = spec_replay(p, t, e2);
    assert(t2 == t1.next_step());
    lemma_replay_push(p, t, e2, found(true));
    let t3 = spec_replay(p, t, e3);
    assert(t3 == t2.in_phase(Phase::Second));
    lemma_replay_push(p, t, e3, succeeded(Seq::empty()));
    let t4 = spec_replay(p, t, e4);
    assert(t4 == t3.next_step());
    lemma_replay_push(p, t, e4, found(true));
    let t5 = spec_replay(p, t, e5);
    assert(t5 == t4.in_phase(Phase::Second));
    lemma_replay_push(p, t, e5, succeeded(Seq::empty()));
    let t6 = spec_replay(p, t, e6);
    assert(t6 == t5.next_step());
    lemma_replay_push(p, t, e6, found(true));
    let t7 = spec_replay(p, t, e7);
    assert(t7 == t6.in_phase(Phase::Second));
    lemma_replay_push(p, t, e7, succeeded(output));
    let t8 = spec_replay(p, t, e8);
    lemma_replay_push(p, t, e8, EventView::Done);
}

/// When the installer cannot upgrade itself, generating a lock fails with
/// that, whatever follows.
pub proof fn lemma_lock_upgrade_is_fatal(
    p: ProjectView,
    code: i32,
    stdout: Seq<char>,
    stderr: Seq<char>,
    later: Seq<EventView>,
)
    requires
        code != 0,
    ensures
        spec_action(
            p,
            spec_replay(
                p,
                spec_replay(
                    p,
                    spec_started(plan_lock()),
                    seq![
                        found(true),
                        found(true),
                        found(true),
                        EventView::Exited { code, stdout, stderr },
                    ],
                ),
                later,
            ),
        ) == (ActionView::Finish { result: Err(ErrorView::PipUpgradeFailed) }),
{
    let t = spec_started(plan_lock());
    let none = Seq::<EventView>::empty();
    let last = EventView::Exited { code, stdout, stderr };
    let e1 = none.push(found(true));
    let e2 = e1.push(found(true));
    let e3 = e2.push(found(true));
    let e4 = e3.push(last);
    assert(e4 == seq![found(true), found(true), found(true), last]);
    assert(spec_replay(p, t, none) == t);
    lemma_replay_push(p, t, none, found(true));
    assert(spec_replay(p, t, e1) == t.next_step());
    lemma_replay_push(p, t, e1, found(true));
    assert(spec_replay(p, t, e2) == t.next_step().next_step());
    lemma_replay_push(p, t, e2, found(true));
    assert(spec_replay(p, t, e3) == t.next_step().next_step().in_phase(Phase::Second));
    lemma_replay_push(p, t, e3, last);
    let t4 = spec_replay(p, t, e4);
    assert(t4.failure == Some(ErrorView::PipUpgradeFailed));
    lemma_over_stays(p, t4, later);
}

/// The events of a tidy in which the environment is there and every
/// program ends well, up to the old lock's text.
pub open spec fn tidy_events(output: Seq<char>, old_lock: Seq<char>) -> Seq<EventView> {
    seq![
        found(true),
        EventView::Done,
        EventView::Done,
        succeeded(Seq::empty()),
        found(true),
        succeeded(Seq::empty()),
        found(true),
        succeeded(output),
        EventView::Text { text: old_lock },
    ]
}

/// When every program ends well, tidying first asks to remove the
/// environment, and in the end asks to write, as the lock, what the freeze
/// output lists cut down to the names of the old lock. Freeze output or an
/// old lock that cannot be read fails it, and nothing is written.
pub proof fn lemma_tidy_writes_tracked(p: ProjectView, output: Seq<char>, old_lock: Seq<char>)
    ensures
        spec_action(p, spec_advance(p, spec_started(plan_tidy()), found(true))) == (
        ActionView::RemoveTree { path: p.paths.venv }),
        spec_action(
            p,
            spec_replay(p, spec_started(plan_tidy()), tidy_events(output, old_lock)),
        ) == (match spec_frozen(output) {
            Err(e) => ActionView::Finish { result: Err(e) },
            Ok(fresh) => match spec_tidy(old_lock, fresh, spec_metadata(p)) {
                Ok(text) => ActionView::WriteText { path: p.paths.lock, text },
                Err(e) => ActionView::Finish { result: Err(e) },
            },
        }),
{
    let t = spec_started(plan_tidy());
    let none = Seq::<EventView>::empty();
    let e1 = none.push(found(true));
    let e2 = e1.push(EventView::Done);
    let e3 = e2.push(EventView::Done);
    let e4 = e3.push(succeeded(Seq::empty()));
    let e5 = e4.push(found(true));
    let e6 = e5.push(succeeded(Seq::empty()));
    let e7 = e6.push(found(true));
    let e8 = e7.push(succeeded(output));
    let e9 = e8.push(EventView::Text { text: old_lock });
    assert(e9 == tidy_events(output, old_lock));
    assert(spec_replay(p, t, none) == t);
    lemma_replay_push(p, t, none, found(true));
    let t1 = spec_replay(p, t, e1);
    assert(t1 == t.in_phase(Phase::Second));
    lemma_replay_push(p, t, e1, EventView::Done);
    let t2 = spec_replay(p, t, e2);
    assert(t2 == t1.next_step());
    lemma_replay_push(p, t, e2, EventView::Done);
    let t3 = spec_replay(p, t, e3);
    assert(t3 == t2.in_phase(Phase::Second));
    lemma_replay_push(p, t, e3, succeeded(Seq::empty()));
    let t4 = spec_replay(p, t, e4);
    assert(t4 == t3.next_step());
    lemma_replay_push(p, t, e4, found(true));
    let t5 = spec_replay(p, t, e5);
    assert(t5 == t4.in_phase(Phase::Second));
    lemma_replay_push(p, t, e5, succeeded(Seq::empty()));
    let t6 = spec_replay(p, t, e6);
    assert(t6 == t5.next_step());
    lemma_replay_push(p, t, e6, found(true));
    let t7 = spec_replay(p, t, e7);
    assert(t7 == t6.in_phase(Phase::Second));
    lemma_replay_push(p, t, e7, succeeded(output));
    let t8 = spec_replay(p, t, e8);
    lemma_replay_push(p, t, e8, EventView::Text { text: old_lock });
    if spec_frozen(output) is Err {
        assert(t8.over());
    }
}

/// Bumping a lock that is there asks to read it, and then to write it with
/// the one dependency pinned anew; a name that the lock does not have
/// fails it, and nothing is written.
pub proof fn lemma_bump_rewrites(
    p: ProjectView,
    name: Seq<char>,
    version: Seq<char>,
    use_source_ref: bool,
    lock: Seq<char>,
)
    ensures
        spec_action(
            p,
            spec_replay(
                p,
                spec_fresh(
                    seq![Step::RequireLock, Step::BumpLock],
                    Seq::empty(),
                    name,
                    version,
                    use_source_ref,
                ),
                seq![found(true), EventView::Text { text: lock }],
            ),
        ) == (match spec_bump(lock, name, version, use_source_ref, spec_metadata(p)) {
            Ok(text) => ActionView::WriteText { path: p.paths.lock, text },
            Err(e) => ActionView::Finish { result: Err(e) },
        }),
{
    let t = spec_fresh(
        seq![Step::RequireLock, Step::BumpLock],
        Seq::empty(),
        name,
        version,
        use_source_ref,
    );
    let none = Seq::<EventView>::empty();
    let e1 = none.push(found(true));
    let e2 = e1.push(EventView::Text { text: lock });
    assert(e2 == seq![found(true), EventView::Text { text: lock }]);
    assert(spec_replay(p, t, none) == t);
    lemma_replay_push(p, t, none, found(true));
    assert(spec_replay(p, t, e1) == t.next_step());
    lemma_replay_push(p, t, e1, EventView::Text { text: lock });
}

} // verus!

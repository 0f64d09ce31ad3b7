//! Whole runs of the build pipeline, and what holds of every one of them.
//!
//! A run is the start state of a declaration followed by steps on the
//! events that arrive. The statements below are about the model that the
//! executable pipeline is proved to follow.

use crate::backend::{canonical_artifact, signed_artifact, rust_artifact};
use crate::config::ProjectConfigView;
use crate::outcome::{PipelineErrorView, PipelineOutcomeView, UnsupportedKind};
use crate::pipeline::{
    start, unsigned_status, ActionView, BuildCli, EventView, JobView, PipelineView, Stage,
};
use vstd::prelude::*;

verus! {

/// The state reached from `from` when `events` arrive in order; `None` if
/// one of them is refused.
pub open spec fn run(from: PipelineView, events: Seq<EventView>) -> Option<PipelineView>
    decreases events.len(),
{
    if events.len() == 0 {
        Some(from)
    } else {
        match run(from, events.drop_last()) {
            Some(state) => state.step(events.last()),
            None => None,
        }
    }
}

/// The job that a declaration of an actor project starts.
pub open spec fn job_of(command: BuildCli, config: ProjectConfigView) -> JobView
    recommends
        config.kind is Actor,
{
    JobView {
        common: config.common,
        language: config.language,
        actor: config.kind->Actor_0,
        command,
    }
}

/// The place of a stage in the order of a run.
pub open spec fn rank(stage: Stage) -> nat {
    match stage {
        Stage::Compiling => 0,
        Stage::Locating => 1,
        Stage::Normalizing => 2,
        Stage::Signing => 3,
        Stage::Pushing => 4,
    }
}

/// Whether `event` reports that the unsigned module is in place at `path`,
/// in answer to what `before` waited for: a check of `path` that found the
/// file, or a move to `path` that went through.
pub open spec fn confirms_artifact(before: PipelineView, event: EventView, path: Seq<char>) -> bool {
    ||| (before.pending() matches ActionView::CheckArtifact { path: checked } && checked == path
        && event == (EventView::ArtifactChecked { present: true }))
    ||| (before.pending() matches ActionView::MoveArtifact { to, .. } && to == path && (
    event matches EventView::ArtifactMoved(moved) && moved is Ok))
}

/// A run never goes back: a step leads to a later stage or ends the run,
/// and a finished run takes no further event.
pub proof fn lemma_runs_are_linear(state: PipelineView, event: EventView)
    ensures
        state is Finished ==> state.step(event) is None,
        (state matches PipelineView::Running { job, stage } ==> (state.step(event) matches Some(
            PipelineView::Running { job: kept, stage: next },
        ) ==> kept == job && rank(stage) < rank(next))),
{
}

/// A run is over after five events at most: a run that is under way has
/// taken no more events than its stage has stages before it. So a caller
/// that performs what is pending and reports it comes to an end.
pub proof fn lemma_runs_are_short(command: BuildCli, config: ProjectConfigView, events: Seq<EventView>)
    requires
        run(start(command, config), events) is Some,
    ensures
        events.len() <= 5,
        run(start(command, config), events) matches Some(PipelineView::Running { stage, .. })
            ==> events.len() <= rank(stage),
    decreases events.len(),
{
    if events.len() > 0 {
        lemma_runs_are_short(command, config, events.drop_last());
        lemma_runs_are_linear(
            run(start(command, config), events.drop_last()).unwrap(),
            events.last(),
        );
    }
}

/// Whatever arrives, a run that is under way still works on the
/// declaration it was started with.
pub proof fn lemma_job_is_kept(command: BuildCli, config: ProjectConfigView, events: Seq<EventView>)
    requires
        config.kind is Actor,
    ensures
        run(start(command, config), events) matches Some(PipelineView::Running { job, .. }) ==> job
            == job_of(command, config),
    decreases events.len(),
{
    if events.len() > 0 {
        lemma_job_is_kept(command, config, events.drop_last());
    }
}

/// A project that is no actor gets its fixed answer and nothing else: the
/// run is finished from the start, the only action ever pending is to
/// finish with that answer, and no event is taken, so no toolchain is
/// ever asked for.
pub proof fn lemma_other_kinds_are_answered_at_once(
    command: BuildCli,
    config: ProjectConfigView,
    events: Seq<EventView>,
)
    requires
        !(config.kind is Actor),
    ensures
        start(command, config) == PipelineView::Finished(
            PipelineOutcomeView::Failure(
                PipelineErrorView::UnsupportedProjectKind(
                    if config.kind is Provider {
                        UnsupportedKind::Provider
                    } else {
                        UnsupportedKind::Interface
                    },
                ),
            ),
        ),
        start(command, config).pending() is Finish,
        events.len() > 0 ==> run(start(command, config), events) is None,
        run(start(command, config), events) matches Some(state) ==> !(state.pending() is RunToolchain),
    decreases events.len(),
{
    if events.len() > 0 {
        lemma_other_kinds_are_answered_at_once(command, config, events.drop_last());
    }
}

/// When the compiler has reported success and its output is then found
/// missing, the run ends there, with `ArtifactNotFound` naming the path
/// that was looked at. This holds for whichever backend, and whatever the
/// exit status said.
pub proof fn lemma_missing_artifact_is_reported(
    command: BuildCli,
    config: ProjectConfigView,
    events: Seq<EventView>,
)
    requires
        config.kind is Actor,
        run(start(command, config), events) is Some,
        events.len() > 0,
        events.last() == (EventView::ArtifactChecked { present: false }),
    ensures
        run(start(command, config), events) == Some(
            PipelineView::Finished(
                PipelineOutcomeView::Failure(
                    PipelineErrorView::ArtifactNotFound {
                        expected: job_of(command, config).plan().produced,
                    },
                ),
            ),
        ),
        run(start(command, config), events.drop_last()).unwrap().pending()
            == (ActionView::CheckArtifact { path: job_of(command, config).plan().produced }),
{
    lemma_job_is_kept(command, config, events.drop_last());
}

/// Signing is asked for only when the unsigned module has just been
/// confirmed in its canonical place, `build/<name>.wasm`: by a check that
/// found it there, or by a move there that went through. The request
/// names that file as its source and `build/<name>_s.wasm` as its
/// destination.
pub proof fn lemma_signing_follows_the_artifact(
    command: BuildCli,
    config: ProjectConfigView,
    events: Seq<EventView>,
)
    requires
        config.kind is Actor,
        run(start(command, config), events) matches Some(state) && state.pending() is Sign,
    ensures
        run(start(command, config), events).unwrap().pending() == ActionView::Sign(
            job_of(command, config).sign_request(),
        ),
        job_of(command, config).sign_request().source == canonical_artifact(config.common.name),
        job_of(command, config).sign_request().destination == signed_artifact(config.common.name),
        events.len() >= 2,
        run(start(command, config), events.drop_last()) matches Some(before) && confirms_artifact(
            before,
            events.last(),
            canonical_artifact(config.common.name),
        ),
{
    lemma_job_is_kept(command, config, events);
    lemma_job_is_kept(command, config, events.drop_last());
    assert(events.len() > 0);
    let before = run(start(command, config), events.drop_last()).unwrap();
    assert(before.step(events.last()) == run(start(command, config), events));
    assert(before is Running);
    match events.last() {
        EventView::ArtifactChecked { present } => {
            assert(present);
            assert(before.pending() == (ActionView::CheckArtifact {
                path: canonical_artifact(config.common.name),
            }));
        },
        _ => {},
    }
}

/// In a run that ended in success, the place of the event that reported
/// the signing: the last one, or the last but one where a push followed.
pub open spec fn signed_at(events: Seq<EventView>) -> int {
    if events.len() > 0 && events.last() is Pushed {
        events.len() - 2
    } else {
        events.len() - 1
    }
}

/// Unless signing is skipped, a run that ends in success has built and
/// then signed: the unsigned module was confirmed at
/// `build/<name>.wasm`, the very next thing reported was the signing of
/// exactly that file into `build/<name>_s.wasm`, after which the run
/// ended or pushed and ended, and the path the run hands back is that of
/// the signed module.
pub proof fn lemma_success_is_built_then_signed(
    command: BuildCli,
    config: ProjectConfigView,
    events: Seq<EventView>,
)
    requires
        config.kind is Actor,
        !command.no_sign,
        run(start(command, config), events) matches Some(PipelineView::Finished(outcome))
            && outcome is Success,
    ensures
        run(start(command, config), events) matches Some(
            PipelineView::Finished(PipelineOutcomeView::Success { artifact, .. }),
        ) && artifact == signed_artifact(config.common.name),
        2 <= signed_at(events) < events.len(),
        run(start(command, config), events.take(signed_at(events) - 1)) matches Some(before)
            && confirms_artifact(
            before,
            events[signed_at(events) - 1],
            canonical_artifact(config.common.name),
        ),
        run(start(command, config), events.take(signed_at(events))) matches Some(state)
            && state.pending() == ActionView::Sign(job_of(command, config).sign_request()),
        events[signed_at(events)] matches EventView::Signed(reported) && reported is Ok,
{
    let origin = start(command, config);
    let signed = signed_at(events);
    let last_but_one = events.drop_last();
    lemma_job_is_kept(command, config, last_but_one);
    let before_end = run(origin, last_but_one).unwrap();
    assert(before_end.step(events.last()) == run(origin, events));
    assert(before_end is Running);
    if events.last() is Pushed {
        assert(before_end matches PipelineView::Running { stage, .. } && stage == Stage::Pushing);
        assert(last_but_one.len() > 0);
        lemma_job_is_kept(command, config, last_but_one.drop_last());
        let before_push = run(origin, last_but_one.drop_last()).unwrap();
        assert(before_push.step(last_but_one.last()) == Some(before_end));
        assert(last_but_one.drop_last() =~= events.take(signed));
        assert(last_but_one.last() == events[signed]);
    } else {
        assert(last_but_one =~= events.take(signed));
    }
    let until_signed = events.take(signed);
    lemma_signing_follows_the_artifact(command, config, until_signed);
    assert(until_signed.drop_last() =~= events.take(signed - 1));
    assert(until_signed.last() == events[signed - 1]);
}

/// Where signing is skipped it is never asked for, nor is a push: a run
/// that ends in success ends when the unsigned module is confirmed at
/// `build/<name>.wasm`, hands back that path, and says so.
pub proof fn lemma_skipped_signing_is_never_asked_for(
    command: BuildCli,
    config: ProjectConfigView,
    events: Seq<EventView>,
)
    requires
        config.kind is Actor,
        command.no_sign,
        run(start(command, config), events) is Some,
    ensures
        !(run(start(command, config), events).unwrap().pending() is Sign),
        !(run(start(command, config), events).unwrap().pending() is Push),
        (run(start(command, config), events) matches Some(PipelineView::Finished(outcome)) ==> (
        outcome is Success ==> ({
            &&& outcome == (PipelineOutcomeView::Success {
                status: unsigned_status(canonical_artifact(config.common.name)),
                artifact: canonical_artifact(config.common.name),
            })
            &&& events.len() >= 2
            &&& run(start(command, config), events.drop_last()) matches Some(before)
                && confirms_artifact(
                before,
                events.last(),
                canonical_artifact(config.common.name),
            )
        }))),
    decreases events.len(),
{
    lemma_job_is_kept(command, config, events);
    if events.len() > 0 {
        lemma_skipped_signing_is_never_asked_for(command, config, events.drop_last());
        lemma_job_is_kept(command, config, events.drop_last());
        let before = run(start(command, config), events.drop_last()).unwrap();
        assert(before.step(events.last()) == run(start(command, config), events));
        if events.drop_last().len() == 0 {
            assert(before == start(command, config));
        }
    }
}

/// Runs on the same declaration ask for the same things. Whatever
/// happened before and whatever the stages reported, two runs that stand
/// at the same stage wait for the same action, letter for letter, and
/// two runs that succeed hand back the same path. Nothing is numbered,
/// dated or otherwise made to differ from one run to the next.
pub proof fn lemma_reruns_ask_the_same(
    command: BuildCli,
    config: ProjectConfigView,
    first: Seq<EventView>,
    second: Seq<EventView>,
)
    requires
        config.kind is Actor,
        run(start(command, config), first) is Some,
        run(start(command, config), second) is Some,
    ensures
        ({
            let a = run(start(command, config), first).unwrap();
            let b = run(start(command, config), second).unwrap();
            &&& (a matches PipelineView::Running { stage: here, .. }
                && b matches PipelineView::Running { stage: there, .. } && here == there)
                ==> a.pending() == b.pending()
            &&& a matches PipelineView::Finished(PipelineOutcomeView::Success { artifact: one, .. })
                ==> (b matches PipelineView::Finished(
                PipelineOutcomeView::Success { artifact: other, .. },
            ) ==> one == other)
        }),
{
    lemma_job_is_kept(command, config, first);
    lemma_job_is_kept(command, config, second);
    if command.no_sign {
        lemma_skipped_signing_is_never_asked_for(command, config, first);
        lemma_skipped_signing_is_never_asked_for(command, config, second);
    } else {
        if run(start(command, config), first).unwrap() matches PipelineView::Finished(outcome)
            && outcome is Success {
            lemma_success_is_built_then_signed(command, config, first);
        }
        if run(start(command, config), second).unwrap() matches PipelineView::Finished(outcome)
            && outcome is Success {
            lemma_success_is_built_then_signed(command, config, second);
        }
    }
}

/// The canonical paths are made of the project's name alone. Two
/// declarations of the same name, whatever their backends, versions or
/// options, are signed from the same file into the same file.
pub proof fn lemma_paths_depend_on_the_name_alone(one: JobView, other: JobView)
    requires
        one.common.name == other.common.name,
    ensures
        one.plan().artifact == other.plan().artifact,
        one.plan().artifact == canonical_artifact(one.common.name),
        one.sign_request().source == other.sign_request().source,
        one.sign_request().destination == other.sign_request().destination,
        one.sign_request().destination == signed_artifact(one.common.name),
{
}

/// A backend that writes in place is never asked to move anything: the
/// TinyGo compiler is told, by `-o`, to write to `build/<name>.wasm`,
/// that is where the module is looked for, and no run on such a project
/// waits for a move.
pub proof fn lemma_tinygo_writes_in_place(
    command: BuildCli,
    config: ProjectConfigView,
    events: Seq<EventView>,
)
    requires
        config.kind is Actor,
        config.language is TinyGo,
    ensures
        job_of(command, config).plan().invocation.args[1] == "-o"@,
        job_of(command, config).plan().invocation.args[2] == canonical_artifact(config.common.name),
        job_of(command, config).plan().produced == canonical_artifact(config.common.name),
        run(start(command, config), events) matches Some(state) ==> !(state.pending() is MoveArtifact),
    decreases events.len(),
{
    lemma_job_is_kept(command, config, events);
    if events.len() > 0 {
        lemma_tinygo_writes_in_place(command, config, events.drop_last());
        lemma_job_is_kept(command, config, events.drop_last());
    }
}

/// A move never has the canonical file as its source: what the Rust
/// compiler leaves lies under `<root>/<triple>/release/`, which is no
/// path of the form `build/<name>.wasm` for the same name. So removing
/// the source after the copy cannot remove the copy.
pub proof fn lemma_move_leaves_its_copy(
    target_path: Option<Seq<char>>,
    wasm_target: Seq<char>,
    name: Seq<char>,
)
    ensures
        rust_artifact(target_path, wasm_target, name) != canonical_artifact(name),
{
    reveal_strlit("build");
    reveal_strlit(".wasm");
    reveal_strlit("/");
    reveal_strlit("/release/");
    assert(rust_artifact(target_path, wasm_target, name).len() >= name.len() + 15);
    assert(canonical_artifact(name).len() == name.len() + 11);
}

/// A failed push ends a run that has signed: the failure names the
/// signed module, `build/<name>_s.wasm`, which the run asked to be
/// written before and asks nobody to touch again.
pub proof fn lemma_push_failure_keeps_the_signed_module(
    command: BuildCli,
    config: ProjectConfigView,
    events: Seq<EventView>,
    reason: Seq<char>,
)
    requires
        config.kind is Actor,
        run(start(command, config), events) is Some,
        events.len() > 0,
        events.last() == EventView::Pushed(Err(reason)),
    ensures
        run(start(command, config), events) == Some(
            PipelineView::Finished(
                PipelineOutcomeView::Failure(
                    PipelineErrorView::PushFailed {
                        artifact: signed_artifact(config.common.name),
                        reason,
                    },
                ),
            ),
        ),
        events.len() >= 2,
        events[events.len() - 2] matches EventView::Signed(reported) && reported is Ok,
        run(start(command, config), events.take(events.len() - 2)) matches Some(state)
            && state.pending() == ActionView::Sign(job_of(command, config).sign_request()),
{
    let origin = start(command, config);
    let before_end = events.drop_last();
    lemma_job_is_kept(command, config, before_end);
    let pushing = run(origin, before_end).unwrap();
    assert(pushing.step(events.last()) == run(origin, events));
    assert(pushing matches PipelineView::Running { stage, .. } && stage == Stage::Pushing);
    assert(before_end.len() > 0);
    lemma_job_is_kept(command, config, before_end.drop_last());
    let signing = run(origin, before_end.drop_last()).unwrap();
    assert(signing.step(before_end.last()) == Some(pushing));
    assert(before_end.drop_last() =~= events.take(events.len() - 2));
    assert(before_end.last() == events[events.len() - 2]);
}

/// A run has a build result only for a file that was confirmed: the
/// result is `build/<name>.wasm`, and that very path was found by a
/// check or reached by a move, as the last thing reported or, where the
/// signing has been reported since, the last but one. A path that was
/// never confirmed is never handed on.
pub proof fn lemma_build_result_was_confirmed(
    command: BuildCli,
    config: ProjectConfigView,
    events: Seq<EventView>,
)
    requires
        config.kind is Actor,
        run(start(command, config), events) matches Some(state) && state.build_result() is Some,
    ensures
        run(start(command, config), events).unwrap().build_result() == Some(
            canonical_artifact(config.common.name),
        ),
        ({
            let built = if events.last() is Signed {
                events.len() - 2
            } else {
                events.len() - 1
            };
            &&& 0 < built < events.len()
            &&& run(start(command, config), events.take(built)) matches Some(before)
                && confirms_artifact(
                before,
                events[built],
                canonical_artifact(config.common.name),
            )
        }),
{
    let origin = start(command, config);
    lemma_job_is_kept(command, config, events);
    let state = run(origin, events).unwrap();
    assert(events.len() > 0);
    lemma_job_is_kept(command, config, events.drop_last());
    let before = run(origin, events.drop_last()).unwrap();
    assert(before.step(events.last()) == Some(state));
    let until_signing = if events.last() is Signed {
        events.drop_last()
    } else {
        events
    };
    lemma_signing_follows_the_artifact(command, config, until_signing);
    let built = until_signing.len() - 1;
    assert(until_signing.drop_last() =~= events.take(built));
    assert(until_signing.last() == events[built]);
}

} // verus!

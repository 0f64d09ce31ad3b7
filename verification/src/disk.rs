//! The build pipeline among honest collaborators.
//!
//! The pipeline never sees the disk; it sees what its collaborators
//! report. This module says what it means for them to keep their side:
//! a check reports what is there, a move and a signing leave the file
//! they were asked for, and nobody removes what the pipeline did not ask
//! to have removed. Under that assumption, and no other, the statements
//! about runs become statements about files.

use crate::backend::{canonical_artifact, signed_artifact};
use crate::config::{BackendOptionsView, ProjectConfigView};
use crate::outcome::{PipelineErrorView, PipelineOutcomeView};
use crate::pipeline::{start, ActionView, BuildCli, EventView, PipelineView};
use crate::runs::{
    job_of, lemma_job_is_kept, lemma_move_leaves_its_copy,
    lemma_push_failure_keeps_the_signed_module, lemma_signing_follows_the_artifact,
    lemma_skipped_signing_is_never_asked_for, lemma_success_is_built_then_signed, run, signed_at,
};
use vstd::prelude::*;

verus! {

/// The disk as far as a run is concerned: the paths at which a file
/// exists.
pub type Disk = Set<Seq<char>>;

/// One action performed: what was reported of it, and the disk it left.
pub struct Performed {
    pub event: EventView,
    pub disk: Disk,
}

/// Whether reporting `event` and leaving `after` is an honest way to
/// perform `action` on `before`.
///
/// A compiler may leave the disk in any state; that is why its output is
/// looked for. A check changes nothing and reports what is there. A move
/// that goes through leaves its destination and removes its source. A
/// signing that goes through adds its destination; one that fails
/// removes nothing. A push changes nothing on disk.
pub open spec fn honest(action: ActionView, before: Disk, event: EventView, after: Disk) -> bool {
    match action {
        ActionView::RunToolchain(_) => event is Toolchain,
        ActionView::CheckArtifact { path } => {
            &&& event == (EventView::ArtifactChecked { present: before.contains(path) })
            &&& after == before
        },
        ActionView::MoveArtifact { from, to, .. } => {
            &&& event matches EventView::ArtifactMoved(moved)
            &&& moved is Ok ==> after == before.insert(to).remove(from)
        },
        ActionView::Sign(request) => {
            &&& event matches EventView::Signed(signed)
            &&& signed is Ok ==> after == before.insert(request.destination)
            &&& signed is Err ==> before.subset_of(after)
        },
        ActionView::Push { .. } => {
            &&& event is Pushed
            &&& after == before
        },
        ActionView::Finish(_) => false,
    }
}

/// The events of a history, in order.
pub open spec fn events_of(history: Seq<Performed>) -> Seq<EventView> {
    history.map_values(|step: Performed| step.event)
}

/// The disk at the end of a history that began on `disk`.
pub open spec fn disk_after(disk: Disk, history: Seq<Performed>) -> Disk {
    if history.len() == 0 {
        disk
    } else {
        history.last().disk
    }
}

/// Whether `history` is a run from `from` on `disk` in which every action
/// the pipeline waited for was performed honestly.
pub open spec fn honest_run(from: PipelineView, disk: Disk, history: Seq<Performed>) -> bool
    decreases history.len(),
{
    if history.len() == 0 {
        true
    } else {
        let earlier = history.drop_last();
        &&& honest_run(from, disk, earlier)
        &&& run(from, events_of(earlier)) matches Some(state) && honest(
            state.pending(),
            disk_after(disk, earlier),
            history.last().event,
            history.last().disk,
        )
    }
}

/// An honest history is a run: each of its events answers the action
/// that was pending, and its beginnings are honest histories too.
pub proof fn lemma_honest_runs_are_runs(from: PipelineView, disk: Disk, history: Seq<Performed>)
    requires
        honest_run(from, disk, history),
    ensures
        run(from, events_of(history)) is Some,
        forall|k: int|
            0 <= k <= history.len() ==> honest_run(from, disk, #[trigger] history.take(k)),
    decreases history.len(),
{
    if history.len() > 0 {
        let earlier = history.drop_last();
        lemma_honest_runs_are_runs(from, disk, earlier);
        assert(events_of(history).drop_last() =~= events_of(earlier));
        assert(events_of(history).last() == history.last().event);
        assert forall|k: int| 0 <= k <= history.len() implies honest_run(
            from,
            disk,
            #[trigger] history.take(k),
        ) by {
            if k == history.len() {
                assert(history.take(k) =~= history);
            } else {
                assert(history.take(k) =~= earlier.take(k));
            }
        }
    } else {
        assert forall|k: int| 0 <= k <= history.len() implies honest_run(
            from,
            disk,
            #[trigger] history.take(k),
        ) by {
            assert(history.take(k) =~= history);
        }
    }
}

/// Among honest collaborators, when a run waits for signing the unsigned
/// module is on disk.
pub proof fn lemma_unsigned_module_is_there(
    command: BuildCli,
    config: ProjectConfigView,
    disk: Disk,
    history: Seq<Performed>,
)
    requires
        config.kind is Actor,
        honest_run(start(command, config), disk, history),
        run(start(command, config), events_of(history)) matches Some(state) && state.pending() is Sign,
    ensures
        disk_after(disk, history).contains(canonical_artifact(config.common.name)),
{
    let origin = start(command, config);
    let name = config.common.name;
    let events = events_of(history);
    lemma_signing_follows_the_artifact(command, config, events);
    let earlier = history.drop_last();
    assert(events.drop_last() =~= events_of(earlier));
    assert(events.last() == history.last().event);
    let confirming = run(origin, events_of(earlier)).unwrap();
    lemma_job_is_kept(command, config, events_of(earlier));
    if confirming.pending() is MoveArtifact {
        match config.language {
            BackendOptionsView::Rust(rust) => {
                lemma_move_leaves_its_copy(
                    rust.target_path,
                    job_of(command, config).actor.wasm_target,
                    name,
                );
            },
            _ => {},
        }
    }
}

/// Among honest collaborators, and unless signing is skipped, a run that
/// ends in success leaves both modules on disk, `build/<name>.wasm` and `build/<name>_s.wasm`, and
/// the unsigned one was there first: the signed module was written onto a
/// disk that already held the unsigned one.
pub proof fn lemma_success_leaves_both_modules(
    command: BuildCli,
    config: ProjectConfigView,
    disk: Disk,
    history: Seq<Performed>,
)
    requires
        config.kind is Actor,
        !command.no_sign,
        honest_run(start(command, config), disk, history),
        run(start(command, config), events_of(history)) matches Some(
            PipelineView::Finished(outcome),
        ) && outcome is Success,
    ensures
        disk_after(disk, history).contains(canonical_artifact(config.common.name)),
        disk_after(disk, history).contains(signed_artifact(config.common.name)),
        ({
            let signed = signed_at(events_of(history));
            &&& 0 < signed < history.len()
            &&& disk_after(disk, history.take(signed)).contains(
                canonical_artifact(config.common.name),
            )
            &&& history[signed].disk == disk_after(disk, history.take(signed)).insert(
                signed_artifact(config.common.name),
            )
        }),
{
    let origin = start(command, config);
    let name = config.common.name;
    let events = events_of(history);
    lemma_honest_runs_are_runs(origin, disk, history);
    lemma_success_is_built_then_signed(command, config, events);
    let signed = signed_at(events);
    // When signing was asked for, the unsigned module was on disk.
    let before_signing = history.take(signed);
    assert(events_of(before_signing) =~= events.take(signed));
    lemma_unsigned_module_is_there(command, config, disk, before_signing);
    // The next step signed it.
    let until_signed = history.take(signed + 1);
    assert(honest_run(origin, disk, until_signed));
    assert(until_signed.drop_last() =~= history.take(signed));
    assert(until_signed.last() == history[signed]);
    assert(events[signed] == history[signed].event);
    assert(history[signed].disk == disk_after(disk, before_signing).insert(signed_artifact(name)));
    // A push, if one followed, changed nothing.
    if signed == history.len() - 2 {
        assert(history.drop_last() =~= history.take(signed + 1));
        assert(events_of(history.drop_last()) =~= events.take(signed + 1));
        lemma_job_is_kept(command, config, events.take(signed + 1));
        let pushing = run(origin, events.take(signed + 1)).unwrap();
        assert(run(origin, events.take(signed + 1)) == run(origin, events.take(signed)).unwrap().step(
            events[signed],
        )) by {
            assert(events.take(signed + 1).drop_last() =~= events.take(signed));
        }
        assert(pushing.pending() is Push);
    } else {
        assert(history =~= history.take(signed + 1));
    }
}

/// Among honest collaborators a run that skips signing and ends in
/// success leaves the unsigned module on disk, at `build/<name>.wasm`.
pub proof fn lemma_unsigned_success_leaves_the_module(
    command: BuildCli,
    config: ProjectConfigView,
    disk: Disk,
    history: Seq<Performed>,
)
    requires
        config.kind is Actor,
        command.no_sign,
        honest_run(start(command, config), disk, history),
        run(start(command, config), events_of(history)) matches Some(
            PipelineView::Finished(outcome),
        ) && outcome is Success,
    ensures
        disk_after(disk, history).contains(canonical_artifact(config.common.name)),
{
    let origin = start(command, config);
    let name = config.common.name;
    let events = events_of(history);
    lemma_honest_runs_are_runs(origin, disk, history);
    lemma_skipped_signing_is_never_asked_for(command, config, events);
    let earlier = history.drop_last();
    assert(events.drop_last() =~= events_of(earlier));
    assert(events.last() == history.last().event);
    let confirming = run(origin, events_of(earlier)).unwrap();
    lemma_job_is_kept(command, config, events_of(earlier));
    if confirming.pending() is MoveArtifact {
        match config.language {
            BackendOptionsView::Rust(rust) => {
                lemma_move_leaves_its_copy(
                    rust.target_path,
                    job_of(command, config).actor.wasm_target,
                    name,
                );
            },
            _ => {},
        }
    }
}

/// Among honest collaborators, a compiler that reports success and
/// leaves nothing where its output belongs is found out at once: the
/// check that follows ends the run with `ArtifactNotFound`, naming the
/// path, and the disk is as the compiler left it.
pub proof fn lemma_missing_output_is_found_out(
    command: BuildCli,
    config: ProjectConfigView,
    disk: Disk,
    history: Seq<Performed>,
)
    requires
        config.kind is Actor,
        honest_run(start(command, config), disk, history),
        history.len() == 2,
        history[0].event matches EventView::Toolchain(report) && report.succeeded(),
        !history[0].disk.contains(job_of(command, config).plan().produced),
    ensures
        run(start(command, config), events_of(history)) == Some(
            PipelineView::Finished(
                PipelineOutcomeView::Failure(
                    PipelineErrorView::ArtifactNotFound {
                        expected: job_of(command, config).plan().produced,
                    },
                ),
            ),
        ),
        disk_after(disk, history) == history[0].disk,
{
    let origin = start(command, config);
    let events = events_of(history);
    lemma_honest_runs_are_runs(origin, disk, history);
    let first = history.drop_last();
    assert(events.drop_last() =~= events_of(first));
    assert(events_of(first).drop_last() =~= Seq::<EventView>::empty());
    assert(run(origin, events_of(first).drop_last()) == Some(origin));
    assert(first.last() == history[0]);
}

/// Among honest collaborators a failed signing leaves the unsigned module
/// where it was: the run ends with `SigningFailed`, and
/// `build/<name>.wasm` is still on disk.
pub proof fn lemma_signing_failure_leaves_the_unsigned_module(
    command: BuildCli,
    config: ProjectConfigView,
    disk: Disk,
    history: Seq<Performed>,
    reason: Seq<char>,
)
    requires
        config.kind is Actor,
        honest_run(start(command, config), disk, history),
        history.len() > 0,
        history.last().event == EventView::Signed(Err(reason)),
    ensures
        run(start(command, config), events_of(history)) == Some(
            PipelineView::Finished(
                PipelineOutcomeView::Failure(PipelineErrorView::SigningFailed { reason }),
            ),
        ),
        disk_after(disk, history).contains(canonical_artifact(config.common.name)),
{
    let origin = start(command, config);
    let name = config.common.name;
    let events = events_of(history);
    lemma_honest_runs_are_runs(origin, disk, history);
    let until_signing = history.drop_last();
    assert(events.drop_last() =~= events_of(until_signing));
    assert(events.last() == history.last().event);
    let signing = run(origin, events_of(until_signing)).unwrap();
    assert(signing.pending() is Sign);
    lemma_signing_follows_the_artifact(command, config, events_of(until_signing));
    lemma_unsigned_module_is_there(command, config, disk, until_signing);
}

/// Among honest collaborators a failed push takes nothing back: the run
/// ends with `PushFailed`, and the signed module it names,
/// `build/<name>_s.wasm`, is on disk.
pub proof fn lemma_push_failure_leaves_the_signed_module(
    command: BuildCli,
    config: ProjectConfigView,
    disk: Disk,
    history: Seq<Performed>,
    reason: Seq<char>,
)
    requires
        config.kind is Actor,
        honest_run(start(command, config), disk, history),
        history.len() > 0,
        history.last().event == EventView::Pushed(Err(reason)),
    ensures
        run(start(command, config), events_of(history)) == Some(
            PipelineView::Finished(
                PipelineOutcomeView::Failure(
                    PipelineErrorView::PushFailed {
                        artifact: signed_artifact(config.common.name),
                        reason,
                    },
                ),
            ),
        ),
        disk_after(disk, history).contains(signed_artifact(config.common.name)),
{
    let origin = start(command, config);
    let events = events_of(history);
    lemma_honest_runs_are_runs(origin, disk, history);
    assert(events.last() == history.last().event);
    lemma_push_failure_keeps_the_signed_module(command, config, events, reason);
    let n = history.len() as int;
    // The signing, two steps before the end, wrote the signed module.
    let until_signed = history.take(n - 1);
    assert(honest_run(origin, disk, until_signed));
    assert(until_signed.drop_last() =~= history.take(n - 2));
    assert(until_signed.last() == history[n - 2]);
    assert(events_of(history.take(n - 2)) =~= events.take(n - 2));
    assert(events[n - 2] == history[n - 2].event);
    assert(history[n - 2].disk.contains(signed_artifact(config.common.name)));
    // The push, at the end, changed nothing.
    assert(history.drop_last() =~= until_signed);
    assert(events_of(until_signed) =~= events.drop_last());
    lemma_job_is_kept(command, config, events.drop_last());
    let pushing = run(origin, events.drop_last()).unwrap();
    assert(pushing.step(events.last()) == run(origin, events));
    assert(pushing.pending() is Push);
}

} // verus!

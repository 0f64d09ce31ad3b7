//! The build pipeline: compile, locate the module, move it into the output
//! directory where the backend needs that, sign unless told not to, and
//! push on request.
//!
//! The pipeline is a state machine that does no work itself. Each state
//! names the one action it waits for; the caller performs the action and
//! reports the result as an event, which moves the machine on. A run is
//! linear and nothing is retried.

use crate::backend::{
    dispatch, plan_for, signed_artifact, signed_artifact_path, BuildPlanView, OUTPUT_DIRECTORY,
};
use crate::config::{
    ActorConfig, ActorConfigView, BackendOptions, BackendOptionsView, CommonConfig,
    CommonConfigView, ProjectConfig, ProjectConfigView, ProjectKind, ProjectKindView,
};
use crate::outcome::{
    PipelineError, PipelineErrorView, PipelineOutcome, PipelineOutcomeView, UnsupportedKind,
};
use crate::text::{clone_optional, clone_strings};
use crate::toolchain::{Invocation, InvocationView, ToolchainReport, ToolchainReportView};
use vstd::prelude::*;

verus! {

/// What the user asked of the build command.
#[derive(Clone, Copy, Debug, PartialEq, Eq)]
pub struct BuildCli {
    /// Push the signed module to the registry once it is signed.
    pub push: bool,
    /// Stop once the module is built, without signing it. A module that
    /// is not signed is not pushed either.
    pub no_sign: bool,
}

/// The claims metadata embedded when a module is signed.
#[derive(Clone, Debug, PartialEq, Eq)]
pub struct ActorMetadata {
    pub name: String,
    pub ver: Option<String>,
    pub custom_caps: Vec<String>,
    pub call_alias: Option<String>,
}

/// An `ActorMetadata` as contracts see it.
pub struct ActorMetadataView {
    pub name: Seq<char>,
    pub ver: Option<Seq<char>>,
    pub custom_caps: Seq<Seq<char>>,
    pub call_alias: Option<Seq<char>>,
}

impl View for ActorMetadata {
    type V = ActorMetadataView;

    open spec fn view(&self) -> ActorMetadataView {
        ActorMetadataView {
            name: self.name@,
            ver: self.ver.deep_view(),
            custom_caps: self.custom_caps.deep_view(),
            call_alias: self.call_alias.deep_view(),
        }
    }
}

/// A request to the signing stage.
#[derive(Clone, Debug, PartialEq, Eq)]
pub struct SignRequest {
    /// The unsigned module.
    pub source: String,
    /// Where the signed module is to be written.
    pub destination: String,
    pub metadata: ActorMetadata,
}

/// A `SignRequest` as contracts see it.
pub struct SignRequestView {
    pub source: Seq<char>,
    pub destination: Seq<char>,
    pub metadata: ActorMetadataView,
}

impl View for SignRequest {
    type V = SignRequestView;

    open spec fn view(&self) -> SignRequestView {
        SignRequestView {
            source: self.source@,
            destination: self.destination@,
            metadata: self.metadata@,
        }
    }
}

/// The one thing the pipeline waits for.
#[derive(Clone, Debug, PartialEq, Eq)]
pub enum Action {
    /// Run the compiler and wait for it to exit.
    RunToolchain(Invocation),
    /// Look whether a file exists at `path`.
    CheckArtifact { path: String },
    /// Create `directory` if it is missing, copy `from` to `to`, then
    /// remove `from`.
    MoveArtifact { from: String, directory: String, to: String },
    /// Sign a module.
    Sign(SignRequest),
    /// Push the signed module at `artifact` to the registry.
    Push { artifact: String },
    /// Nothing is left to do.
    Finish(PipelineOutcome),
}

/// An `Action` as contracts see it.
pub enum ActionView {
    RunToolchain(InvocationView),
    CheckArtifact { path: Seq<char> },
    MoveArtifact { from: Seq<char>, directory: Seq<char>, to: Seq<char> },
    Sign(SignRequestView),
    Push { artifact: Seq<char> },
    Finish(PipelineOutcomeView),
}

impl View for Action {
    type V = ActionView;

    open spec fn view(&self) -> ActionView {
        match self {
            Action::RunToolchain(invocation) => ActionView::RunToolchain(invocation@),
            Action::CheckArtifact { path } => ActionView::CheckArtifact { path: path@ },
            Action::MoveArtifact { from, directory, to } => ActionView::MoveArtifact {
                from: from@,
                directory: directory@,
                to: to@,
            },
            Action::Sign(request) => ActionView::Sign(request@),
            Action::Push { artifact } => ActionView::Push { artifact: artifact@ },
            Action::Finish(outcome) => ActionView::Finish(outcome@),
        }
    }
}

/// The result of an action, as the caller reports it. A stage's own words
/// travel as text: a status on success, a reason on failure.
#[derive(Debug, PartialEq, Eq)]
pub enum Event {
    /// Answers `RunToolchain`.
    Toolchain(ToolchainReport),
    /// Answers `CheckArtifact`.
    ArtifactChecked { present: bool },
    /// Answers `MoveArtifact`.
    ArtifactMoved(Result<(), String>),
    /// Answers `Sign`.
    Signed(Result<String, String>),
    /// Answers `Push`.
    Pushed(Result<String, String>),
}

/// An `Event` as contracts see it.
pub enum EventView {
    Toolchain(ToolchainReportView),
    ArtifactChecked { present: bool },
    ArtifactMoved(Result<(), Seq<char>>),
    Signed(Result<Seq<char>, Seq<char>>),
    Pushed(Result<Seq<char>, Seq<char>>),
}

/// A result whose texts are taken by their characters.
pub open spec fn text_result(result: Result<String, String>) -> Result<Seq<char>, Seq<char>> {
    match result {
        Ok(status) => Ok(status@),
        Err(reason) => Err(reason@),
    }
}

impl View for Event {
    type V = EventView;

    open spec fn view(&self) -> EventView {
        match self {
            Event::Toolchain(report) => EventView::Toolchain(report@),
            Event::ArtifactChecked { present } => EventView::ArtifactChecked { present: *present },
            Event::ArtifactMoved(result) => EventView::ArtifactMoved(
                match result {
                    Ok(_) => Ok(()),
                    Err(reason) => Err(reason@),
                },
            ),
            Event::Signed(result) => EventView::Signed(text_result(*result)),
            Event::Pushed(result) => EventView::Pushed(text_result(*result)),
        }
    }
}

/// How far a run has come.
#[derive(Clone, Copy, Debug, PartialEq, Eq, Structural)]
pub enum Stage {
    /// The backend is chosen and its compiler runs.
    Compiling,
    /// The compiler reported success; its output is being looked for.
    Locating,
    /// The output exists and is being moved into the output directory.
    Normalizing,
    /// The module is built and in its canonical place; it is being signed.
    /// A run that is to skip signing ends in place of entering this stage.
    Signing,
    /// The module is signed; it is being pushed.
    Pushing,
}

/// What a run works from: the declaration of an actor project, and what
/// the user asked for.
pub struct JobView {
    pub common: CommonConfigView,
    pub language: BackendOptionsView,
    pub actor: ActorConfigView,
    pub command: BuildCli,
}

/// What a run says of a module it built and did not sign.
pub open spec fn unsigned_status(artifact: Seq<char>) -> Seq<char> {
    "Unsigned actor built at "@ + artifact
}

impl JobView {
    /// The plan of the backend that the declaration names.
    pub open spec fn plan(self) -> BuildPlanView {
        plan_for(self.language, self.common, self.actor)
    }

    /// Where a run goes once its module is confirmed in the canonical
    /// place: on to signing, or, where signing is to be skipped, to its
    /// end, with the unsigned module as its result.
    pub open spec fn built(self) -> PipelineView {
        if self.command.no_sign {
            PipelineView::Finished(
                PipelineOutcomeView::Success {
                    status: unsigned_status(self.plan().artifact),
                    artifact: self.plan().artifact,
                },
            )
        } else {
            PipelineView::Running { job: self, stage: Stage::Signing }
        }
    }

    /// The request to sign the module that the build left. Name, version,
    /// claims and call alias are the declaration's.
    pub open spec fn sign_request(self) -> SignRequestView {
        SignRequestView {
            source: self.plan().artifact,
            destination: signed_artifact(self.common.name),
            metadata: ActorMetadataView {
                name: self.common.name,
                ver: Some(self.common.version.text()),
                custom_caps: self.common.claims,
                call_alias: self.common.call_alias,
            },
        }
    }
}

/// The state of a run, as contracts see it.
pub enum PipelineView {
    Running { job: JobView, stage: Stage },
    Finished(PipelineOutcomeView),
}

impl PipelineView {
    /// The action this state waits for.
    pub open spec fn pending(self) -> ActionView {
        match self {
            PipelineView::Finished(outcome) => ActionView::Finish(outcome),
            PipelineView::Running { job, stage } => match stage {
                Stage::Compiling => ActionView::RunToolchain(job.plan().invocation),
                Stage::Locating => ActionView::CheckArtifact { path: job.plan().produced },
                Stage::Normalizing => ActionView::MoveArtifact {
                    from: job.plan().produced,
                    directory: OUTPUT_DIRECTORY@,
                    to: job.plan().artifact,
                },
                Stage::Signing => ActionView::Sign(job.sign_request()),
                Stage::Pushing => ActionView::Push { artifact: signed_artifact(job.common.name) },
            },
        }
    }

    /// The unsigned module of the build, once the run has one: from the
    /// moment the module is confirmed in its canonical place until the
    /// run ends.
    pub open spec fn build_result(self) -> Option<Seq<char>> {
        match self {
            PipelineView::Running { job, stage } if stage == Stage::Signing || stage
                == Stage::Pushing => Some(job.plan().artifact),
            _ => None,
        }
    }

    /// Whether `event` answers the action this state waits for.
    pub open spec fn awaits(self, event: EventView) -> bool {
        match self {
            PipelineView::Finished(_) => false,
            PipelineView::Running { stage, .. } => match stage {
                Stage::Compiling => event is Toolchain,
                Stage::Locating => event is ArtifactChecked,
                Stage::Normalizing => event is ArtifactMoved,
                Stage::Signing => event is Signed,
                Stage::Pushing => event is Pushed,
            },
        }
    }

    /// The state that follows when `event` answers the pending action.
    /// Meaningful where `self.awaits(event)`.
    pub open spec fn after(self, event: EventView) -> PipelineView {
        match self {
            PipelineView::Finished(_) => self,
            PipelineView::Running { job, stage } => match event {
                EventView::Toolchain(report) => if report.succeeded() {
                    PipelineView::Running { job, stage: Stage::Locating }
                } else {
                    PipelineView::Finished(
                        PipelineOutcomeView::Failure(
                            PipelineErrorView::ToolchainInvocationFailed {
                                status: report.complaint(),
                            },
                        ),
                    )
                },
                EventView::ArtifactChecked { present } => if !present {
                    PipelineView::Finished(
                        PipelineOutcomeView::Failure(
                            PipelineErrorView::ArtifactNotFound { expected: job.plan().produced },
                        ),
                    )
                } else if job.plan().relocate {
                    PipelineView::Running { job, stage: Stage::Normalizing }
                } else {
                    job.built()
                },
                EventView::ArtifactMoved(result) => match result {
                    Ok(_) => job.built(),
                    Err(reason) => PipelineView::Finished(
                        PipelineOutcomeView::Failure(
                            PipelineErrorView::FilesystemNormalizationFailed { reason },
                        ),
                    ),
                },
                EventView::Signed(result) => match result {
                    Ok(status) => if job.command.push {
                        PipelineView::Running { job, stage: Stage::Pushing }
                    } else {
                        PipelineView::Finished(
                            PipelineOutcomeView::Success {
                                status,
                                artifact: signed_artifact(job.common.name),
                            },
                        )
                    },
                    Err(reason) => PipelineView::Finished(
                        PipelineOutcomeView::Failure(PipelineErrorView::SigningFailed { reason }),
                    ),
                },
                EventView::Pushed(result) => match result {
                    Ok(status) => PipelineView::Finished(
                        PipelineOutcomeView::Success {
                            status,
                            artifact: signed_artifact(job.common.name),
                        },
                    ),
                    Err(reason) => PipelineView::Finished(
                        PipelineOutcomeView::Failure(
                            PipelineErrorView::PushFailed {
                                artifact: signed_artifact(job.common.name),
                                reason,
                            },
                        ),
                    ),
                },
            },
        }
    }

    /// One step of the machine: the next state where `event` answers the
    /// pending action, and `None` where it does not.
    pub open spec fn step(self, event: EventView) -> Option<PipelineView> {
        if self.awaits(event) {
            Some(self.after(event))
        } else {
            None
        }
    }
}

/// The state a run starts in. An actor project starts compiling; any other
/// kind is finished at once, as unsupported.
pub open spec fn start(command: BuildCli, config: ProjectConfigView) -> PipelineView {
    match config.kind {
        ProjectKindView::Actor(actor) => PipelineView::Running {
            job: JobView { common: config.common, language: config.language, actor, command },
            stage: Stage::Compiling,
        },
        ProjectKindView::Provider => PipelineView::Finished(
            PipelineOutcomeView::Failure(
                PipelineErrorView::UnsupportedProjectKind(UnsupportedKind::Provider),
            ),
        ),
        ProjectKindView::Interface => PipelineView::Finished(
            PipelineOutcomeView::Failure(
                PipelineErrorView::UnsupportedProjectKind(UnsupportedKind::Interface),
            ),
        ),
    }
}

#[derive(Debug)]
struct Job {
    common: CommonConfig,
    language: BackendOptions,
    actor: ActorConfig,
    command: BuildCli,
}

impl View for Job {
    type V = JobView;

    closed spec fn view(&self) -> JobView {
        JobView {
            common: self.common@,
            language: self.language@,
            actor: self.actor@,
            command: self.command,
        }
    }
}

#[derive(Debug)]
enum State {
    Running { job: Job, stage: Stage },
    Finished(PipelineOutcome),
}

/// A run of the pipeline. It can only be started by `handle_command` and
/// moved on by `step`, so every state a caller holds was reached by
/// answering the actions in order.
#[derive(Debug)]
pub struct Pipeline {
    state: State,
}

impl View for State {
    type V = PipelineView;

    closed spec fn view(&self) -> PipelineView {
        match self {
            State::Running { job, stage } => PipelineView::Running { job: job@, stage: *stage },
            State::Finished(outcome) => PipelineView::Finished(outcome@),
        }
    }
}

impl View for Pipeline {
    type V = PipelineView;

    closed spec fn view(&self) -> PipelineView {
        self.state@
    }
}

/// The result of a build: the path of the unsigned module, in its
/// canonical place. A run hands one out only after the file was confirmed
/// to be there.
#[derive(Clone, Debug, PartialEq, Eq)]
pub struct BuildResult {
    pub path: String,
}

/// A step taken: the state reached and the action it waits for.
#[derive(Debug)]
pub struct Transition {
    pub next: Pipeline,
    pub action: Action,
}

/// A step refused: the event does not answer the pending action. Both are
/// handed back as they came.
#[derive(Debug)]
pub struct Rejected {
    pub pipeline: Pipeline,
    pub event: Event,
}

fn sign_request(job: &Job) -> (request: SignRequest)
    ensures
        request@ == job@.sign_request(),
{
    let plan = dispatch(&job.language, &job.common, &job.actor);
    SignRequest {
        source: plan.artifact,
        destination: signed_artifact_path(job.common.name.as_str()),
        metadata: ActorMetadata {
            name: job.common.name.clone(),
            ver: Some(job.common.version.to_string()),
            custom_caps: clone_strings(&job.common.claims),
            call_alias: clone_optional(&job.common.call_alias),
        },
    }
}

fn built(job: Job) -> (state: State)
    ensures
        state@ == job@.built(),
{
    if job.command.no_sign {
        let plan = dispatch(&job.language, &job.common, &job.actor);
        let mut status = String::from_str("Unsigned actor built at ");
        status.append(plan.artifact.as_str());
        State::Finished(PipelineOutcome::Success { status, artifact: plan.artifact })
    } else {
        State::Running { job, stage: Stage::Signing }
    }
}

fn failed(error: PipelineError) -> (state: State)
    ensures
        state@ == PipelineView::Finished(PipelineOutcomeView::Failure(error@)),
{
    State::Finished(PipelineOutcome::Failure(error))
}

impl Pipeline {
    /// The action this run waits for. Asking again gives the same answer.
    pub fn pending(&self) -> (action: Action)
        ensures
            action@ == self@.pending(),
    {
        match &self.state {
            State::Finished(outcome) => Action::Finish(outcome.duplicate()),
            State::Running { job, stage } => match stage {
                Stage::Compiling => {
                    let plan = dispatch(&job.language, &job.common, &job.actor);
                    Action::RunToolchain(plan.invocation)
                },
                Stage::Locating => {
                    let plan = dispatch(&job.language, &job.common, &job.actor);
                    Action::CheckArtifact { path: plan.produced }
                },
                Stage::Normalizing => {
                    let plan = dispatch(&job.language, &job.common, &job.actor);
                    Action::MoveArtifact {
                        from: plan.produced,
                        directory: String::from_str(OUTPUT_DIRECTORY),
                        to: plan.artifact,
                    }
                },
                Stage::Signing => Action::Sign(sign_request(job)),
                Stage::Pushing => Action::Push {
                    artifact: signed_artifact_path(job.common.name.as_str()),
                },
            },
        }
    }

    /// The stage of a run that is under way, `None` once it is finished.
    pub fn stage(&self) -> (stage: Option<Stage>)
        ensures
            (stage == match self@ {
                PipelineView::Running { stage, .. } => Some(stage),
                PipelineView::Finished(_) => None,
            }),
    {
        match &self.state {
            State::Running { stage, .. } => Some(*stage),
            State::Finished(_) => None,
        }
    }

    /// The result of the build, once the run has one.
    pub fn build_result(&self) -> (built: Option<BuildResult>)
        ensures
            (match self@.build_result() {
                Some(path) => built matches Some(result) && result.path@ == path,
                None => built is None,
            }),
    {
        match &self.state {
            State::Running { job, stage } => match stage {
                Stage::Signing | Stage::Pushing => {
                    let plan = dispatch(&job.language, &job.common, &job.actor);
                    Some(BuildResult { path: plan.artifact })
                },
                _ => None,
            },
            State::Finished(_) => None,
        }
    }

    /// The outcome of a finished run, `None` while it is under way.
    pub fn outcome(&self) -> (outcome: Option<PipelineOutcome>)
        ensures
            (match self@ {
                PipelineView::Running { .. } => outcome is None,
                PipelineView::Finished(reached) => outcome matches Some(o) && o@ == reached,
            }),
    {
        match &self.state {
            State::Running { .. } => None,
            State::Finished(outcome) => Some(outcome.duplicate()),
        }
    }

    /// Moves the run on by the result of its pending action.
    ///
    /// An event that answers the pending action is always taken; the
    /// state that follows and the action it waits for are returned. Any
    /// other event, and any event once the run is finished, is refused
    /// and changes nothing.
    pub fn step(self, event: Event) -> (result: Result<Transition, Rejected>)
        ensures
            (match self@.step(event@) {
                Some(next) => result matches Ok(taken) && taken.next@ == next && taken.action@
                    == next.pending(),
                None => result matches Err(refused) && refused.pipeline@ == self@
                    && refused.event@ == event@,
            }),
    {
        let state = match self.state {
            State::Finished(outcome) => {
                return Err(Rejected { pipeline: Pipeline { state: State::Finished(outcome) }, event });
            },
            State::Running { job, stage } => match (stage, event) {
                (Stage::Compiling, Event::Toolchain(report)) => match report {
                    ToolchainReport::Exited { success, status } => {
                        if success {
                            State::Running { job, stage: Stage::Locating }
                        } else {
                            failed(PipelineError::ToolchainInvocationFailed { status })
                        }
                    },
                    ToolchainReport::Unavailable { reason } => {
                        failed(PipelineError::ToolchainInvocationFailed { status: reason })
                    },
                },
                (Stage::Locating, Event::ArtifactChecked { present }) => {
                    let plan = dispatch(&job.language, &job.common, &job.actor);
                    if !present {
                        failed(PipelineError::ArtifactNotFound { expected: plan.produced })
                    } else if plan.relocate {
                        State::Running { job, stage: Stage::Normalizing }
                    } else {
                        built(job)
                    }
                },
                (Stage::Normalizing, Event::ArtifactMoved(result)) => match result {
                    Ok(_) => built(job),
                    Err(reason) => failed(
                        PipelineError::FilesystemNormalizationFailed { reason },
                    ),
                },
                (Stage::Signing, Event::Signed(result)) => match result {
                    Ok(status) => {
                        if job.command.push {
                            State::Running { job, stage: Stage::Pushing }
                        } else {
                            State::Finished(
                                PipelineOutcome::Success {
                                    status,
                                    artifact: signed_artifact_path(job.common.name.as_str()),
                                },
                            )
                        }
                    },
                    Err(reason) => failed(PipelineError::SigningFailed { reason }),
                },
                (Stage::Pushing, Event::Pushed(result)) => match result {
                    Ok(status) => State::Finished(
                        PipelineOutcome::Success {
                            status,
                            artifact: signed_artifact_path(job.common.name.as_str()),
                        },
                    ),
                    Err(reason) => failed(
                        PipelineError::PushFailed {
                            artifact: signed_artifact_path(job.common.name.as_str()),
                            reason,
                        },
                    ),
                },
                (stage, event) => {
                    return Err(
                        Rejected { pipeline: Pipeline { state: State::Running { job, stage } }, event },
                    );
                },
            },
        };
        let next = Pipeline { state };
        let action = next.pending();
        Ok(Transition { next, action })
    }
}

/// Starts a run for an actor project: the backend is chosen and the first
/// action is its compiler run.
pub fn build_actor(
    command: BuildCli,
    actor_config: ActorConfig,
    language_config: BackendOptions,
    common_config: CommonConfig,
) -> (begun: Transition)
    ensures
        begun.next@ == (PipelineView::Running {
            job: JobView {
                common: common_config@,
                language: language_config@,
                actor: actor_config@,
                command,
            },
            stage: Stage::Compiling,
        }),
        begun.action@ == begun.next@.pending(),
{
    let next = Pipeline {
        state: State::Running {
            job: Job {
                common: common_config,
                language: language_config,
                actor: actor_config,
                command,
            },
            stage: Stage::Compiling,
        },
    };
    let action = next.pending();
    Transition { next, action }
}

fn unsupported(kind: UnsupportedKind) -> (begun: Transition)
    ensures
        begun.next@ == PipelineView::Finished(
            PipelineOutcomeView::Failure(PipelineErrorView::UnsupportedProjectKind(kind)),
        ),
        begun.action@ == begun.next@.pending(),
{
    let next = Pipeline { state: failed(PipelineError::UnsupportedProjectKind(kind)) };
    let action = next.pending();
    Transition { next, action }
}

/// Answers a build request for a provider project: such projects are not
/// built, and the run is finished before it began.
pub fn build_provider() -> (begun: Transition)
    ensures
        begun.next@ == PipelineView::Finished(
            PipelineOutcomeView::Failure(
                PipelineErrorView::UnsupportedProjectKind(UnsupportedKind::Provider),
            ),
        ),
        begun.action@ == begun.next@.pending(),
{
    unsupported(UnsupportedKind::Provider)
}

/// Answers a build request for an interface project: such projects are not
/// built, and the run is finished before it began.
pub fn build_interface() -> (begun: Transition)
    ensures
        begun.next@ == PipelineView::Finished(
            PipelineOutcomeView::Failure(
                PipelineErrorView::UnsupportedProjectKind(UnsupportedKind::Interface),
            ),
        ),
        begun.action@ == begun.next@.pending(),
{
    unsupported(UnsupportedKind::Interface)
}

/// Starts a run of the build command on a project declaration.
pub fn handle_command(command: BuildCli, config: ProjectConfig) -> (begun: Transition)
    ensures
        begun.next@ == start(command, config@),
        begun.action@ == begun.next@.pending(),
{
    match config.kind {
        ProjectKind::Actor(actor_config) => build_actor(
            command,
            actor_config,
            config.language,
            config.common,
        ),
        ProjectKind::Provider => build_provider(),
        ProjectKind::Interface => build_interface(),
    }
}

} // verus!

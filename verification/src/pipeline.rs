//! One run, stage by stage.
//!
//! A run passes through its stages in a fixed order: the backend's directory
//! is made ready, the code is fetched, the backend's fixed text is put around
//! it, the result is written to the artifact, and the backend's program is run
//! on it. The run ends in `Done` with the program's output, or in `Failed`.
//!
//! The pipeline never touches the host. In every state it has one request
//! pending, an [`Action`]; the host performs it and answers with an
//! [`Event`], and [`Pipeline::step`] moves on. An event that does not answer
//! the pending request changes nothing.

use crate::error::{FailureKind, Outcome, Verdict};
use crate::interpreter::{fetched, Artifact, ArtifactView, Instance, Interpreter};
use crate::process::{run_verdict, Invocation, InvocationView, ProcessReport, Report};
use crate::workspace::workspace_of;
use vstd::prelude::*;

verus! {

/// Where a run stands.
#[derive(Debug, PartialEq, Eq)]
pub enum Stage {
    /// The backend's directory is being made ready.
    Workspace,
    /// The code is about to be taken from the request.
    Fetch,
    /// The backend's fixed text is about to be put around the code.
    Augment,
    /// The code is being written to the artifact.
    Build,
    /// The backend's program is running on the artifact.
    Run,
    /// The program succeeded; the text is its standard output.
    Done(String),
    /// The run failed, in the given way and with the given diagnostics.
    Failed(FailureKind, String),
}

/// The mathematical content of a [`Stage`].
pub enum StageView {
    Workspace,
    Fetch,
    Augment,
    Build,
    Run,
    Done(Seq<char>),
    Failed(FailureKind, Seq<char>),
}

impl View for Stage {
    type V = StageView;

    open spec fn view(&self) -> StageView {
        match self {
            Stage::Workspace => StageView::Workspace,
            Stage::Fetch => StageView::Fetch,
            Stage::Augment => StageView::Augment,
            Stage::Build => StageView::Build,
            Stage::Run => StageView::Run,
            Stage::Done(text) => StageView::Done(text@),
            Stage::Failed(kind, detail) => StageView::Failed(*kind, detail@),
        }
    }
}

impl StageView {
    /// Whether the run is over.
    pub open spec fn is_terminal(self) -> bool {
        self is Done || self is Failed
    }

    /// Position of the stage in the order of a run; the two ends share the
    /// last position.
    pub open spec fn position(self) -> nat {
        match self {
            StageView::Workspace => 0,
            StageView::Fetch => 1,
            StageView::Augment => 2,
            StageView::Build => 3,
            StageView::Run => 4,
            StageView::Done(_) => 5,
            StageView::Failed(_, _) => 5,
        }
    }
}

/// What the host reports.
#[derive(Debug, PartialEq, Eq)]
pub enum Event {
    /// Nothing happened outside; the pipeline may go on.
    Proceed,
    /// The backend's directory exists, newly created or found in place.
    WorkspaceReady,
    /// The directory could not be created; the text says why.
    WorkspaceDenied(String),
    /// The artifact holds the code, and nothing else.
    ArtifactWritten,
    /// The artifact could not be written; the text says why.
    ArtifactWriteFailed(String),
    /// The program ran to its end.
    ProcessExited(ProcessReport),
    /// The program could not be found or started; the text says why.
    LaunchFailed(String),
    /// The program was stopped because it ran too long; the text says so.
    TimedOut(String),
}

/// The mathematical content of an [`Event`].
pub enum EventView {
    Proceed,
    WorkspaceReady,
    WorkspaceDenied(Seq<char>),
    ArtifactWritten,
    ArtifactWriteFailed(Seq<char>),
    ProcessExited(Report),
    LaunchFailed(Seq<char>),
    TimedOut(Seq<char>),
}

impl View for Event {
    type V = EventView;

    open spec fn view(&self) -> EventView {
        match self {
            Event::Proceed => EventView::Proceed,
            Event::WorkspaceReady => EventView::WorkspaceReady,
            Event::WorkspaceDenied(detail) => EventView::WorkspaceDenied(detail@),
            Event::ArtifactWritten => EventView::ArtifactWritten,
            Event::ArtifactWriteFailed(detail) => EventView::ArtifactWriteFailed(detail@),
            Event::ProcessExited(report) => EventView::ProcessExited(report@),
            Event::LaunchFailed(detail) => EventView::LaunchFailed(detail@),
            Event::TimedOut(detail) => EventView::TimedOut(detail@),
        }
    }
}

/// What the pipeline asks of the host.
#[derive(Debug, PartialEq, Eq)]
pub enum Action {
    /// Nothing; answer with `Proceed`.
    Continue,
    /// Create the directory with its parents; one that exists counts as
    /// created. Answer with `WorkspaceReady` or `WorkspaceDenied`.
    CreateWorkspace(String),
    /// Write the content to the path in place of whatever is there. Answer
    /// with `ArtifactWritten` or `ArtifactWriteFailed`.
    WriteArtifact(Artifact),
    /// Start the program, wait for it and capture both of its streams
    /// whole. Answer with `ProcessExited`, `LaunchFailed` or `TimedOut`.
    Launch(Invocation),
    /// The run is over; this is its outcome.
    Finish(Outcome),
}

/// The mathematical content of an [`Action`].
pub enum ActionView {
    Continue,
    CreateWorkspace(Seq<char>),
    WriteArtifact(ArtifactView),
    Launch(InvocationView),
    Finish(Verdict),
}

impl View for Action {
    type V = ActionView;

    open spec fn view(&self) -> ActionView {
        match self {
            Action::Continue => ActionView::Continue,
            Action::CreateWorkspace(path) => ActionView::CreateWorkspace(path@),
            Action::WriteArtifact(artifact) => ActionView::WriteArtifact(artifact@),
            Action::Launch(invocation) => ActionView::Launch(invocation@),
            Action::Finish(outcome) => ActionView::Finish(outcome@),
        }
    }
}

/// The mathematical content of a [`Pipeline`]: the state of the backend's
/// instance and the stage of the run.
pub struct PipelineView {
    pub backend: Instance,
    pub stage: StageView,
}

impl PipelineView {
    /// The same run at another stage.
    pub open spec fn at(self, stage: StageView) -> PipelineView {
        PipelineView { stage, ..self }
    }

    /// The same run with other code.
    pub open spec fn with_code(self, code: Seq<char>) -> PipelineView {
        PipelineView { backend: Instance { code, ..self.backend }, ..self }
    }
}

/// The stage that ends a run with `verdict`.
pub open spec fn ended(verdict: Verdict) -> StageView {
    match verdict {
        Verdict::Success(text) => StageView::Done(text),
        Verdict::Failure(kind, detail) => StageView::Failed(kind, detail),
    }
}

/// The state after `event` arrives in the state `p` of a run of the backend
/// `I`.
pub open spec fn next<I: Interpreter>(p: PipelineView, event: EventView) -> PipelineView {
    match (p.stage, event) {
        (StageView::Workspace, EventView::WorkspaceReady) => p.at(StageView::Fetch),
        (StageView::Workspace, EventView::WorkspaceDenied(detail)) => p.at(
            StageView::Failed(FailureKind::WorkspaceCreationError, detail),
        ),
        (StageView::Fetch, EventView::Proceed) => PipelineView {
            backend: p.backend.after_fetch(),
            stage: StageView::Augment,
        },
        (StageView::Augment, EventView::Proceed) => p.with_code(I::wrapped(p.backend.code)).at(
            StageView::Build,
        ),
        (StageView::Build, EventView::ArtifactWritten) => p.at(StageView::Run),
        (StageView::Build, EventView::ArtifactWriteFailed(detail)) => p.at(
            StageView::Failed(FailureKind::ArtifactWriteError, detail),
        ),
        (StageView::Run, EventView::ProcessExited(report)) => p.at(ended(run_verdict(report))),
        (StageView::Run, EventView::LaunchFailed(detail)) => p.at(
            StageView::Failed(FailureKind::ProcessLaunchError, detail),
        ),
        (StageView::Run, EventView::TimedOut(detail)) => p.at(
            StageView::Failed(FailureKind::Timeout, detail),
        ),
        _ => p,
    }
}

/// What a run of the backend `I` asks of the host in the state `p`.
pub open spec fn pending<I: Interpreter>(p: PipelineView) -> ActionView {
    match p.stage {
        StageView::Workspace => ActionView::CreateWorkspace(
            workspace_of(p.backend.data.work_dir@, I::profile().name),
        ),
        StageView::Fetch => ActionView::Continue,
        StageView::Augment => ActionView::Continue,
        StageView::Build => ActionView::WriteArtifact(
            ArtifactView {
                path: I::profile().artifact(p.backend.data.work_dir@),
                content: p.backend.code,
            },
        ),
        StageView::Run => ActionView::Launch(I::profile().invocation(p.backend.data.work_dir@)),
        StageView::Done(text) => ActionView::Finish(Verdict::Success(text)),
        StageView::Failed(kind, detail) => ActionView::Finish(Verdict::Failure(kind, detail)),
    }
}

/// One run of the backend `I`.
pub struct Pipeline<I: Interpreter> {
    backend: I,
    stage: Stage,
}

impl<I: Interpreter> View for Pipeline<I> {
    type V = PipelineView;

    closed spec fn view(&self) -> PipelineView {
        PipelineView { backend: self.backend.state(), stage: self.stage@ }
    }
}

impl<I: Interpreter> Pipeline<I> {
    /// The pipeline is valid: its backend's instance is.
    pub closed spec fn wf(&self) -> bool {
        self.backend.wf()
    }

    /// A run of `backend`, before anything is done.
    pub fn new(backend: Box<I>) -> (pipeline: Pipeline<I>)
        requires
            backend.wf(),
        ensures
            pipeline.wf(),
            pipeline@ == (PipelineView { backend: backend.state(), stage: StageView::Workspace }),
    {
        Pipeline { backend: *backend, stage: Stage::Workspace }
    }

    /// The stage of the run.
    pub fn stage(&self) -> (stage: &Stage)
        ensures
            stage@ == self@.stage,
    {
        &self.stage
    }

    /// The backend's instance.
    pub fn backend(&self) -> (backend: &I)
        ensures
            backend.wf() == self.wf(),
            backend.state() == self@.backend,
    {
        &self.backend
    }

    /// Ends the run where it stands and gives the instance back, as the run
    /// left it.
    pub fn into_backend(self) -> (backend: Box<I>)
        ensures
            backend.wf() == self.wf(),
            backend.state() == self@.backend,
    {
        Box::new(self.backend)
    }

    /// What the host is asked to do now.
    pub fn pending(&self) -> (action: Action)
        requires
            self.wf(),
        ensures
            action@ == pending::<I>(self@),
    {
        match &self.stage {
            Stage::Workspace => Action::CreateWorkspace(self.backend.get_workspace()),
            Stage::Fetch => Action::Continue,
            Stage::Augment => Action::Continue,
            Stage::Build => Action::WriteArtifact(self.backend.build()),
            Stage::Run => Action::Launch(self.backend.command()),
            Stage::Done(text) => Action::Finish(Outcome::Success(text.clone())),
            Stage::Failed(kind, detail) => Action::Finish(Outcome::Failure(*kind, detail.clone())),
        }
    }

    /// Takes in what the host reports and says what it is to do next.
    pub fn step(&mut self, event: Event) -> (action: Action)
        requires
            old(self).wf(),
        ensures
            final(self).wf(),
            final(self)@ == next::<I>(old(self)@, event@),
            action@ == pending::<I>(final(self)@),
    {
        match self.stage {
            Stage::Workspace => match event {
                Event::WorkspaceReady => {
                    self.stage = Stage::Fetch;
                },
                Event::WorkspaceDenied(detail) => {
                    self.stage = Stage::Failed(FailureKind::WorkspaceCreationError, detail);
                },
                _ => {},
            },
            Stage::Fetch => match event {
                Event::Proceed => {
                    let _ = self.backend.fetch_code();
                    self.stage = Stage::Augment;
                },
                _ => {},
            },
            Stage::Augment => match event {
                Event::Proceed => {
                    let _ = self.backend.add_boilerplate();
                    self.stage = Stage::Build;
                },
                _ => {},
            },
            Stage::Build => match event {
                Event::ArtifactWritten => {
                    self.stage = Stage::Run;
                },
                Event::ArtifactWriteFailed(detail) => {
                    self.stage = Stage::Failed(FailureKind::ArtifactWriteError, detail);
                },
                _ => {},
            },
            Stage::Run => match event {
                Event::ProcessExited(report) => match self.backend.execute(report) {
                    Ok(text) => {
                        self.stage = Stage::Done(text);
                    },
                    Err(e) => {
                        let (kind, detail) = e.into_parts();
                        self.stage = Stage::Failed(kind, detail);
                    },
                },
                Event::LaunchFailed(detail) => {
                    self.stage = Stage::Failed(FailureKind::ProcessLaunchError, detail);
                },
                Event::TimedOut(detail) => {
                    self.stage = Stage::Failed(FailureKind::Timeout, detail);
                },
                _ => {},
            },
            Stage::Done(_) => {},
            Stage::Failed(_, _) => {},
        }
        self.pending()
    }
}

/// Whether `event` is an answer to the request `action`.
pub open spec fn answers(action: ActionView, event: EventView) -> bool {
    match action {
        ActionView::Continue => event is Proceed,
        ActionView::CreateWorkspace(_) => event is WorkspaceReady || event is WorkspaceDenied,
        ActionView::WriteArtifact(_) => event is ArtifactWritten || event is ArtifactWriteFailed,
        ActionView::Launch(_) => event is ProcessExited || event is LaunchFailed
            || event is TimedOut,
        ActionView::Finish(_) => false,
    }
}

/// Only an answer to the pending request moves a run, and every answer moves
/// it forward: a run is over after five answers at most.
pub proof fn only_answers_move_the_run<I: Interpreter>(p: PipelineView, event: EventView)
    ensures
        !answers(pending::<I>(p), event) ==> next::<I>(p, event) == p,
        answers(pending::<I>(p), event) ==> next::<I>(p, event).stage.position()
            > p.stage.position(),
        p.stage.position() <= 5,
{
}

/// A run never goes back: every event leaves it where it is, takes it to the
/// stage that follows, or ends it in failure. A run that is over stays as it
/// is. The request and the level in force are never touched.
pub proof fn stages_follow_in_order<I: Interpreter>(p: PipelineView, event: EventView)
    ensures
        next::<I>(p, event).stage == p.stage || next::<I>(p, event).stage is Failed || next::<I>(
            p,
            event,
        ).stage.position() == p.stage.position() + 1,
        next::<I>(p, event).stage is Done ==> p.stage is Done || p.stage is Run,
        p.stage.is_terminal() ==> next::<I>(p, event) == p,
        next::<I>(p, event).backend.data == p.backend.data,
        next::<I>(p, event).backend.level == p.backend.level,
{
}

/// The backend's directory is a function of the cache root and the backend:
/// two runs of one backend under one cache root ask for the same directory.
/// Asking again changes nothing, and a directory that is there already is
/// reported like one that was created, so that it is no failure.
pub proof fn workspace_request_is_repeatable<I: Interpreter>(p: PipelineView, q: PipelineView)
    requires
        p.stage is Workspace,
        q.stage is Workspace,
        p.backend.data.work_dir@ == q.backend.data.work_dir@,
    ensures
        pending::<I>(p) == pending::<I>(q),
        pending::<I>(p) == ActionView::CreateWorkspace(
            workspace_of(p.backend.data.work_dir@, I::profile().name),
        ),
        next::<I>(p, EventView::Proceed) == p,
        next::<I>(p, EventView::WorkspaceReady) == p.at(StageView::Fetch),
        forall|event: EventView|
            (#[trigger] next::<I>(p, event)).stage is Failed ==> event is WorkspaceDenied,
{
}

/// What Build hands out to be written is what comes back: if the artifact is
/// written and the program succeeds with the artifact's content, encoded as
/// UTF-8, on its standard output, the run is done with exactly that content.
pub proof fn echoed_artifact_comes_back<I: Interpreter>(p: PipelineView, stderr: Seq<u8>)
    requires
        p.stage is Build,
    ensures
        pending::<I>(p) matches ActionView::WriteArtifact(artifact) && artifact.content
            == p.backend.code && next::<I>(
            next::<I>(p, EventView::ArtifactWritten),
            EventView::ProcessExited(
                Report { success: true, stdout: vstd::utf8::encode_utf8(artifact.content), stderr },
            ),
        ).stage == StageView::Done(artifact.content),
{
    crate::process::output_round_trip(p.backend.code, stderr);
}

/// A run that the host reports no failure of goes through every stage and
/// hands out what the request holds. The directory asked for is the
/// backend's, what is written is the fetched code with the backend's text
/// around it, and the run ends with the verdict on the program's report: its
/// output, where the program succeeded and wrote valid UTF-8.
pub proof fn a_smooth_run_is_done<I: Interpreter>(p: PipelineView, report: Report)
    requires
        p.stage is Workspace,
    ensures
        ({
            let code = I::wrapped(fetched(p.backend.data, p.backend.level));
            let ready = next::<I>(p, EventView::WorkspaceReady);
            let taken = next::<I>(ready, EventView::Proceed);
            let augmented = next::<I>(taken, EventView::Proceed);
            let built = next::<I>(augmented, EventView::ArtifactWritten);
            let over = next::<I>(built, EventView::ProcessExited(report));
            &&& pending::<I>(ready) == ActionView::Continue
            &&& pending::<I>(taken) == ActionView::Continue
            &&& pending::<I>(augmented) == ActionView::WriteArtifact(
                ArtifactView { path: I::profile().artifact(p.backend.data.work_dir@), content: code },
            )
            &&& pending::<I>(built) == ActionView::Launch(
                I::profile().invocation(p.backend.data.work_dir@),
            )
            &&& pending::<I>(over) == ActionView::Finish(run_verdict(report))
            &&& over.backend == p.backend.with_code(code)
            &&& report.success && vstd::utf8::valid_utf8(report.stdout) ==> over.stage
                == StageView::Done(vstd::utf8::decode_utf8(report.stdout))
        }),
{
}

/// A request without code is run like any other. Fetch yields the empty
/// text and goes on to Augment, Augment goes on to Build, and once the
/// artifact is written the outcome is whatever the program reports: a run of
/// a blank request fails only where the host says so.
pub proof fn blank_request_is_run<I: Interpreter>(p: PipelineView, report: Report)
    requires
        p.stage is Fetch,
        crate::text::without_whitespace(p.backend.data.current_bloc@).len() == 0,
        crate::text::without_spaces(p.backend.data.current_line@).len() == 0,
    ensures
        ({
            let taken = next::<I>(p, EventView::Proceed);
            let augmented = next::<I>(taken, EventView::Proceed);
            let built = next::<I>(augmented, EventView::ArtifactWritten);
            let over = next::<I>(built, EventView::ProcessExited(report));
            &&& taken.stage is Augment
            &&& taken.backend.code == Seq::<char>::empty()
            &&& augmented.stage is Build
            &&& augmented.backend.code == I::wrapped(Seq::<char>::empty())
            &&& built.stage is Run
            &&& pending::<I>(over) == ActionView::Finish(run_verdict(report))
            &&& report.success && vstd::utf8::valid_utf8(report.stdout) ==> over.stage
                == StageView::Done(vstd::utf8::decode_utf8(report.stdout))
        }),
{
    crate::interpreter::blank_request_yields_no_code(p.backend.data, p.backend.level);
}

} // verus!

//! The course of one command.
//!
//! A command is carried out as a run: the run names the request to send, the
//! caller sends it and hands back what the service answered, and the run
//! moves on. Requests are sent one at a time, in the order of the payloads,
//! and the first failure that the command does not provide for ends the run.

use vstd::prelude::*;

use crate::cli::PipelineCommands;
use crate::endpoints::{
    create_pipeline_request, update_pipeline_yaml_request, validate_pipelines_request, ApiRequest,
    ApiRequestView, DeepsetCloudApi, DeepsetCloudApiView,
};
use crate::loader::LoadError;
use crate::types::{payload_views, DeepsetCloudVersion, PipelineIn, PipelineInView};

verus! {

/// Status with which the service says that a resource of the given name
/// already exists.
pub const CONFLICT: i32 = 409;

/// Protocol revision that pipelines are validated against.
pub const VALIDATED_VERSION: DeepsetCloudVersion = DeepsetCloudVersion::V2;

/// What the service answered to a request.
#[derive(Clone, Copy, Debug, PartialEq, Eq, Structural)]
pub enum Reply {
    Success,
    /// The request failed; `status` is the error code of the failure.
    Failure { status: i32 },
}

/// How a run ended.
#[derive(Clone, Copy, Debug, PartialEq, Eq, Structural)]
pub enum Outcome {
    /// Every request of the command succeeded.
    Completed,
    /// The command is not implemented: nothing was read and nothing was
    /// sent.
    NotImplemented,
    /// The payloads could not be loaded; nothing was sent.
    LoadFailed(LoadError),
    /// Creating the pipeline at `index` failed.
    CreateFailed { index: usize, status: i32 },
    /// Updating the pipeline at `index` failed.
    UpdateFailed { index: usize, status: i32 },
    /// The validation failed.
    ValidationFailed { status: i32 },
}

impl Outcome {
    /// Only a run whose every request succeeded is a success; a command
    /// that is not implemented is an error like any other.
    pub open spec fn succeeded(self) -> bool {
        self is Completed
    }

    pub fn is_success(&self) -> (r: bool)
        ensures
            r == self.succeeded(),
    {
        match self {
            Outcome::Completed => true,
            _ => false,
        }
    }

    /// Exit status of the process: zero on success, one on any failure.
    pub fn exit_code(&self) -> (r: i32)
        ensures
            r == if self.succeeded() { 0i32 } else { 1i32 },
    {
        if self.is_success() {
            0
        } else {
            1
        }
    }
}

/// Where a run stands.
#[derive(Clone, Copy, Debug, PartialEq, Eq, Structural)]
pub enum Stage {
    /// The pipeline at this index is to be created.
    Creating(usize),
    /// The pipeline at this index is to be updated.
    Updating(usize),
    /// The workspace is to be validated.
    Validating,
    /// Nothing is left to do.
    Finished(Outcome),
}

/// The stage at which a batch over `count` pipelines takes up the pipeline
/// at `index`: its creation or its update, by the command, and the end of
/// the run once the pipelines are used up.
pub open spec fn batch_stage(command: PipelineCommands, index: int, count: int) -> Stage {
    if 0 <= index < count {
        match command {
            PipelineCommands::Create { .. } => Stage::Creating(index as usize),
            _ => Stage::Updating(index as usize),
        }
    } else {
        Stage::Finished(Outcome::Completed)
    }
}

/// The stage at which a command over `count` pipelines begins. Creation and
/// update begin at the first pipeline; validation is one request for the
/// whole workspace, however many pipelines there are; deployment is not
/// implemented and ends at once.
pub open spec fn first_stage(command: PipelineCommands, count: int) -> Stage {
    match command {
        PipelineCommands::Create { .. } => batch_stage(command, 0, count),
        PipelineCommands::Update => batch_stage(command, 0, count),
        PipelineCommands::Validate => Stage::Validating,
        PipelineCommands::Deploy => Stage::Finished(Outcome::NotImplemented),
    }
}

/// The stage that follows `stage` on `reply`.
///
/// A success moves a batch on to the next pipeline. A failed creation is
/// made good by an update of the same pipeline if the command asks for it
/// and the failure is a conflict; every other failure ends the run. A run
/// that has ended stays as it is.
pub open spec fn next_stage(
    command: PipelineCommands,
    count: int,
    stage: Stage,
    reply: Reply,
) -> Stage {
    match stage {
        Stage::Creating(index) => match reply {
            Reply::Success => batch_stage(command, index + 1, count),
            Reply::Failure { status } => if command == (PipelineCommands::Create { update: true })
                && status == CONFLICT {
                Stage::Updating(index)
            } else {
                Stage::Finished(Outcome::CreateFailed { index, status })
            },
        },
        Stage::Updating(index) => match reply {
            Reply::Success => batch_stage(command, index + 1, count),
            Reply::Failure { status } => Stage::Finished(Outcome::UpdateFailed { index, status }),
        },
        Stage::Validating => match reply {
            Reply::Success => Stage::Finished(Outcome::Completed),
            Reply::Failure { status } => Stage::Finished(Outcome::ValidationFailed { status }),
        },
        Stage::Finished(outcome) => Stage::Finished(outcome),
    }
}

/// The stage that a run reaches from `stage` on a sequence of replies.
pub open spec fn stage_after(
    command: PipelineCommands,
    count: int,
    stage: Stage,
    replies: Seq<Reply>,
) -> Stage
    decreases replies.len(),
{
    if replies.len() == 0 {
        stage
    } else {
        next_stage(
            command,
            count,
            stage_after(command, count, stage, replies.drop_last()),
            replies.last(),
        )
    }
}

/// A batch in which every request succeeds takes up the pipelines one after
/// the other, and completes once each has had its turn.
pub proof fn lemma_successes_complete_batch(command: PipelineCommands, count: int, done: int)
    requires
        command is Create || command is Update,
        0 <= done <= count <= usize::MAX,
    ensures
        stage_after(
            command,
            count,
            first_stage(command, count),
            Seq::new(done as nat, |i: int| Reply::Success),
        ) == batch_stage(command, done, count),
    decreases done,
{
    let replies = Seq::new(done as nat, |i: int| Reply::Success);
    if done > 0 {
        lemma_successes_complete_batch(command, count, done - 1);
        assert(replies.drop_last() == Seq::new((done - 1) as nat, |i: int| Reply::Success));
    }
}

/// Once a run has ended, no reply moves it: nothing more is sent after the
/// first failure that ends a batch.
pub proof fn lemma_finished_stays(
    command: PipelineCommands,
    count: int,
    outcome: Outcome,
    replies: Seq<Reply>,
)
    ensures
        stage_after(command, count, Stage::Finished(outcome), replies) == Stage::Finished(outcome),
    decreases replies.len(),
{
    if replies.len() > 0 {
        lemma_finished_stays(command, count, outcome, replies.drop_last());
    }
}

/// What the caller is to do next.
#[derive(Debug)]
pub enum Step<'a> {
    /// Send this request, and hand back the reply.
    Send(ApiRequest<'a>),
    /// Stop: the run has ended.
    Finish(Outcome),
}

/// What a [`Step`] holds.
pub enum StepView {
    Send(ApiRequestView),
    Finish(Outcome),
}

impl<'a> View for Step<'a> {
    type V = StepView;

    open spec fn view(&self) -> StepView {
        match *self {
            Step::Send(request) => StepView::Send(request@),
            Step::Finish(outcome) => StepView::Finish(outcome),
        }
    }
}

/// The step that a stage calls for, in a workspace and over the payloads of
/// the run.
pub open spec fn step_at(
    workspace: Seq<char>,
    pipelines: Seq<PipelineInView>,
    stage: Stage,
) -> StepView {
    match stage {
        Stage::Creating(index) => StepView::Send(
            create_pipeline_request(workspace, pipelines[index as int]),
        ),
        Stage::Updating(index) => StepView::Send(
            update_pipeline_yaml_request(workspace, pipelines[index as int]),
        ),
        Stage::Validating => StepView::Send(
            validate_pipelines_request(workspace, VALIDATED_VERSION),
        ),
        Stage::Finished(outcome) => StepView::Finish(outcome),
    }
}

/// One command under way.
#[derive(Debug)]
pub struct SyncRun {
    api: DeepsetCloudApi,
    command: PipelineCommands,
    workspace_name: String,
    pipelines: Vec<PipelineIn>,
    stage: Stage,
}

/// What a [`SyncRun`] holds.
pub struct SyncRunView {
    pub api: DeepsetCloudApiView,
    pub command: PipelineCommands,
    pub workspace_name: Seq<char>,
    pub pipelines: Seq<PipelineInView>,
    pub stage: Stage,
}

impl SyncRunView {
    /// The step that the run calls for.
    pub open spec fn step(self) -> StepView {
        step_at(self.workspace_name, self.pipelines, self.stage)
    }

    /// The run after `reply`: only its stage moves.
    pub open spec fn after(self, reply: Reply) -> SyncRunView {
        SyncRunView {
            stage: next_stage(self.command, self.pipelines.len() as int, self.stage, reply),
            ..self
        }
    }
}

impl View for SyncRun {
    type V = SyncRunView;

    closed spec fn view(&self) -> SyncRunView {
        SyncRunView {
            api: self.api@,
            command: self.command,
            workspace_name: self.workspace_name@,
            pipelines: payload_views(self.pipelines@),
            stage: self.stage,
        }
    }
}

impl SyncRun {
    /// A pipeline that is being created or updated is one of the run's.
    #[verifier::type_invariant]
    spec fn in_range(&self) -> bool {
        match self.stage {
            Stage::Creating(index) => index < self.pipelines.len(),
            Stage::Updating(index) => index < self.pipelines.len(),
            _ => true,
        }
    }

    /// Sets out on `command` in a workspace. Where the payloads were loaded,
    /// the run begins at the first stage of the command; where they were
    /// not, it has ended before anything is sent.
    pub fn new(
        api: DeepsetCloudApi,
        command: PipelineCommands,
        workspace_name: String,
        loaded: Result<Vec<PipelineIn>, LoadError>,
    ) -> (r: SyncRun)
        ensures
            r@ == (SyncRunView {
                api: api@,
                command,
                workspace_name: workspace_name@,
                pipelines: match loaded {
                    Ok(pipelines) => payload_views(pipelines@),
                    Err(_) => Seq::empty(),
                },
                stage: match loaded {
                    Ok(pipelines) => first_stage(command, pipelines@.len() as int),
                    Err(error) => Stage::Finished(Outcome::LoadFailed(error)),
                },
            }),
    {
        match loaded {
            Ok(pipelines) => {
                let stage = match command {
                    PipelineCommands::Create { .. } => if pipelines.len() > 0 {
                        Stage::Creating(0)
                    } else {
                        Stage::Finished(Outcome::Completed)
                    },
                    PipelineCommands::Update => if pipelines.len() > 0 {
                        Stage::Updating(0)
                    } else {
                        Stage::Finished(Outcome::Completed)
                    },
                    PipelineCommands::Validate => Stage::Validating,
                    PipelineCommands::Deploy => Stage::Finished(Outcome::NotImplemented),
                };
                SyncRun { api, command, workspace_name, pipelines, stage }
            },
            Err(error) => {
                let pipelines: Vec<PipelineIn> = Vec::new();
                proof {
                    assert(payload_views(pipelines@) == Seq::<PipelineInView>::empty());
                }
                SyncRun {
                    api,
                    command,
                    workspace_name,
                    pipelines,
                    stage: Stage::Finished(Outcome::LoadFailed(error)),
                }
            },
        }
    }

    pub fn api(&self) -> (r: &DeepsetCloudApi)
        ensures
            r@ == self@.api,
    {
        &self.api
    }

    pub fn command(&self) -> (r: PipelineCommands)
        ensures
            r == self@.command,
    {
        self.command
    }

    pub fn workspace_name(&self) -> (r: &String)
        ensures
            r@ == self@.workspace_name,
    {
        &self.workspace_name
    }

    pub fn pipelines(&self) -> (r: &Vec<PipelineIn>)
        ensures
            payload_views(r@) == self@.pipelines,
    {
        &self.pipelines
    }

    pub fn stage(&self) -> (r: Stage)
        ensures
            r == self@.stage,
    {
        self.stage
    }

    /// How the run ended, once it has.
    pub fn outcome(&self) -> (r: Option<Outcome>)
        ensures
            r == match self@.stage {
                Stage::Finished(outcome) => Some(outcome),
                _ => None,
            },
    {
        match self.stage {
            Stage::Finished(outcome) => Some(outcome),
            _ => None,
        }
    }

    /// Names what is to be done at the present stage.
    pub fn pending(&self) -> (r: Step<'_>)
        ensures
            r@ == self@.step(),
    {
        proof {
            use_type_invariant(self);
        }
        match self.stage {
            Stage::Creating(index) => Step::Send(
                self.api.create_pipeline(self.workspace_name.as_str(), &self.pipelines[index]),
            ),
            Stage::Updating(index) => Step::Send(
                self.api.update_pipeline_yaml(self.workspace_name.as_str(), &self.pipelines[index]),
            ),
            Stage::Validating => Step::Send(
                self.api.validate_pipelines(self.workspace_name.as_str(), &VALIDATED_VERSION),
            ),
            Stage::Finished(outcome) => Step::Finish(outcome),
        }
    }

    /// Takes the reply to the request of the present stage, and moves on.
    pub fn resume(&mut self, reply: Reply)
        ensures
            final(self)@ == old(self)@.after(reply),
    {
        proof {
            use_type_invariant(&*self);
        }
        let count = self.pipelines.len();
        let stage = match self.stage {
            Stage::Creating(index) => match reply {
                Reply::Success => self.batch(index + 1),
                Reply::Failure { status } => match self.command {
                    PipelineCommands::Create { update: true } if status == CONFLICT => {
                        Stage::Updating(index)
                    },
                    _ => Stage::Finished(Outcome::CreateFailed { index, status }),
                },
            },
            Stage::Updating(index) => match reply {
                Reply::Success => self.batch(index + 1),
                Reply::Failure { status } => Stage::Finished(
                    Outcome::UpdateFailed { index, status },
                ),
            },
            Stage::Validating => match reply {
                Reply::Success => Stage::Finished(Outcome::Completed),
                Reply::Failure { status } => Stage::Finished(Outcome::ValidationFailed { status }),
            },
            Stage::Finished(outcome) => Stage::Finished(outcome),
        };
        self.stage = stage;
    }

    fn batch(&self, index: usize) -> (r: Stage)
        ensures
            r == batch_stage(self.command, index as int, self.pipelines.len() as int),
    {
        if index < self.pipelines.len() {
            match self.command {
                PipelineCommands::Create { .. } => Stage::Creating(index),
                _ => Stage::Updating(index),
            }
        } else {
            Stage::Finished(Outcome::Completed)
        }
    }
}

} // verus!

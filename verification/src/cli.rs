//! The command line, as plain values.

use vstd::prelude::*;

use crate::endpoints::{DeepsetCloudApi, DeepsetCloudApiView};
use crate::loader::{payloads, DirListing};
use crate::settings::{DeepsetCloudSettings, EnvValue, DEFAULT_BASE_URL, DEFAULT_WORKSPACE_NAME};
use crate::sync::{first_stage, Outcome, Reply, Stage, SyncRun, SyncRunView};
use crate::types::PipelineInView;

verus! {

/// Directory that holds the pipeline artifacts when none is given.
pub const DEFAULT_PIPELINE_DIR: &'static str = "./pipelines";

/// What the user asked for.
#[derive(Debug)]
pub struct Cli {
    /// Directory where the pipeline artifacts are stored.
    pub pipeline_dir: Option<String>,
    pub command: Option<Commands>,
}

#[derive(Clone, Copy, Debug, PartialEq, Eq, Structural)]
pub enum Commands {
    /// Pipeline related subcommands.
    Pipelines { command: PipelineCommands },
}

#[derive(Clone, Copy, Debug, PartialEq, Eq, Structural)]
pub enum PipelineCommands {
    /// Create new pipelines from the stored artifacts; with `update`, a
    /// pipeline that already exists is updated instead.
    Create { update: bool },
    /// Update existing pipelines with the stored artifacts.
    Update,
    /// Validate the pipelines of the workspace.
    Validate,
    /// Deploy the pipelines.
    Deploy,
}

impl Cli {
    /// The pipeline subcommand that was given, if any.
    pub open spec fn selected(&self) -> Option<PipelineCommands> {
        match self.command {
            Some(Commands::Pipelines { command }) => Some(command),
            None => None,
        }
    }

    /// The directory to load from, as given or by default. It is resolved
    /// against the file system by the caller.
    pub fn path(&self) -> (r: String)
        ensures
            r@ == match self.pipeline_dir {
                Some(dir) => dir@,
                None => DEFAULT_PIPELINE_DIR@,
            },
    {
        match &self.pipeline_dir {
            Some(dir) => dir.clone(),
            None => DEFAULT_PIPELINE_DIR.to_owned(),
        }
    }

    pub fn pipeline_command(&self) -> (r: Option<PipelineCommands>)
        ensures
            r == self.selected(),
    {
        match &self.command {
            Some(Commands::Pipelines { command }) => Some(*command),
            None => None,
        }
    }

    /// The settings that the environment gives. The caller makes sure first
    /// that it gives any.
    pub fn settings(&self, api_key: EnvValue, base_url: EnvValue, workspace_name: EnvValue) -> (r:
        DeepsetCloudSettings)
        requires
            DeepsetCloudSettings::rejection(api_key, base_url, workspace_name) is None,
        ensures
            api_key matches EnvValue::Text(key) && r.api_key@ == key@,
            r.base_url@ == base_url.or_default(DEFAULT_BASE_URL@),
            r.workspace_name@ == workspace_name.or_default(DEFAULT_WORKSPACE_NAME@),
    {
        DeepsetCloudSettings::init(api_key, base_url, workspace_name).unwrap()
    }

    /// The client for a run: it works against the production endpoint and
    /// authenticates with the access token of the settings.
    pub fn deepset_cloud_api(&self, settings: &DeepsetCloudSettings) -> (r: DeepsetCloudApi)
        ensures
            r@ == (DeepsetCloudApiView {
                base_url: DEFAULT_BASE_URL@,
                access_token: settings.api_key@,
            }),
    {
        DeepsetCloudApi::new(settings.api_key.clone())
    }

    /// `run` is what a command sets out as, with these settings and this
    /// listing of the pipeline root: a run in the workspace of the settings,
    /// over one payload for each subdirectory, at the first stage of the
    /// command; or, where the listing cannot be loaded, a run that has ended
    /// with the error of the load.
    pub open spec fn sets_out(
        command: PipelineCommands,
        settings: DeepsetCloudSettings,
        listing: DirListing,
        run: SyncRunView,
    ) -> bool {
        &&& run.api == (DeepsetCloudApiView {
            base_url: DEFAULT_BASE_URL@,
            access_token: settings.api_key@,
        })
        &&& run.command == command
        &&& run.workspace_name == settings.workspace_name@
        &&& if listing.loadable() {
            &&& listing matches DirListing::Entries(entries)
            &&& run.pipelines == payloads(entries@)
            &&& run.stage == first_stage(command, run.pipelines.len() as int)
        } else {
            &&& run.pipelines == Seq::<PipelineInView>::empty()
            &&& run.stage matches Stage::Finished(Outcome::LoadFailed(error))
            &&& listing.fails_with(error)
        }
    }

    /// What a command sends depends on the listing by the names and the
    /// documents of its subdirectories alone: over two listings that load
    /// and give the same payloads, a command sets out as one and the same
    /// run, and so names the same requests at every stage. A command that is
    /// repeated over unchanged documents sends again what it sent before.
    pub proof fn lemma_same_documents_same_run(
        command: PipelineCommands,
        settings: DeepsetCloudSettings,
        first: DirListing,
        second: DirListing,
        a: SyncRunView,
        b: SyncRunView,
    )
        requires
            first.loadable(),
            second.loadable(),
            first matches DirListing::Entries(e1) && second matches DirListing::Entries(e2)
                && payloads(e1@) == payloads(e2@),
            Cli::sets_out(command, settings, first, a),
            Cli::sets_out(command, settings, second, b),
        ensures
            a == b,
            a.step() == b.step(),
            forall|reply: Reply| a.after(reply) == b.after(reply),
    {
    }

    fn set_out(
        &self,
        command: PipelineCommands,
        settings: &DeepsetCloudSettings,
        listing: &DirListing,
    ) -> (r: SyncRun)
        ensures
            Cli::sets_out(command, *settings, *listing, r@),
    {
        let api = self.deepset_cloud_api(settings);
        let loaded = self.load_pipelines(listing);
        SyncRun::new(api, command, settings.workspace_name.clone(), loaded)
    }

    /// Sets out to create one pipeline for each subdirectory of the listing.
    /// With `update`, a pipeline that already exists is updated instead.
    pub fn create_pipelines(
        &self,
        update: bool,
        settings: &DeepsetCloudSettings,
        listing: &DirListing,
    ) -> (r: SyncRun)
        ensures
            Cli::sets_out(PipelineCommands::Create { update }, *settings, *listing, r@),
    {
        self.set_out(PipelineCommands::Create { update }, settings, listing)
    }

    /// Sets out to update the pipeline of each subdirectory of the listing.
    pub fn update_pipelines(&self, settings: &DeepsetCloudSettings, listing: &DirListing) -> (r:
        SyncRun)
        ensures
            Cli::sets_out(PipelineCommands::Update, *settings, *listing, r@),
    {
        self.set_out(PipelineCommands::Update, settings, listing)
    }

    /// Sets out to validate the workspace. The listing must load; the
    /// request does not depend on what it holds.
    pub fn validate_pipelines(&self, settings: &DeepsetCloudSettings, listing: &DirListing) -> (r:
        SyncRun)
        ensures
            Cli::sets_out(PipelineCommands::Validate, *settings, *listing, r@),
    {
        self.set_out(PipelineCommands::Validate, settings, listing)
    }

    /// Deployment is not implemented: nothing is read, nothing is sent, and
    /// the outcome says so.
    pub fn deploy_pipelines(&self) -> (r: Outcome)
        ensures
            r == Outcome::NotImplemented,
    {
        Outcome::NotImplemented
    }
}

} // verus!

//! The REST surface of the service, as descriptions of requests.
//!
//! Each operation of the client gives the request to send: its method, its
//! path below the endpoint of the service, what is serialised as its JSON
//! body, and what the response is decoded as. Sending is left to the caller.

use vstd::prelude::*;

use crate::settings::DEFAULT_BASE_URL;
use crate::types::{DeepsetCloudVersion, PipelineIn, PipelineInView};

pub mod pipeline;
pub mod workspace;

verus! {

#[derive(Clone, Copy, Debug, PartialEq, Eq, Structural)]
pub enum HttpMethod {
    Get,
    Post,
    Put,
}

/// What a request carries as its JSON body.
#[derive(Debug)]
pub enum Payload<'a> {
    /// No body.
    Empty,
    /// The pipeline, serialised as it stands.
    Pipeline(&'a PipelineIn),
    /// An object with the single member `deepset_cloud_version`.
    Version(DeepsetCloudVersion),
}

/// What a [`Payload`] holds.
pub enum PayloadView {
    Empty,
    Pipeline(PipelineInView),
    Version(DeepsetCloudVersion),
}

impl<'a> View for Payload<'a> {
    type V = PayloadView;

    open spec fn view(&self) -> PayloadView {
        match *self {
            Payload::Empty => PayloadView::Empty,
            Payload::Pipeline(pipeline) => PayloadView::Pipeline(pipeline@),
            Payload::Version(version) => PayloadView::Version(version),
        }
    }
}

/// What the body of a successful response is decoded as.
#[derive(Clone, Copy, Debug, PartialEq, Eq, Structural)]
pub enum ResponseKind {
    /// A `Pipeline`.
    Pipeline,
    /// A `PipelineOut`.
    PipelineOut,
    /// A `Workspace`.
    Workspace,
    /// A list of `Workspace`, unwrapped from its envelope.
    Workspaces,
    /// Nothing is read from the body.
    Nothing,
}

/// One request to the service.
#[derive(Debug)]
pub struct ApiRequest<'a> {
    pub method: HttpMethod,
    /// Path below the endpoint of the service.
    pub path: String,
    pub payload: Payload<'a>,
    pub response: ResponseKind,
}

/// What an [`ApiRequest`] holds.
pub struct ApiRequestView {
    pub method: HttpMethod,
    pub path: Seq<char>,
    pub payload: PayloadView,
    pub response: ResponseKind,
}

impl<'a> View for ApiRequest<'a> {
    type V = ApiRequestView;

    open spec fn view(&self) -> ApiRequestView {
        ApiRequestView {
            method: self.method,
            path: self.path@,
            payload: self.payload@,
            response: self.response,
        }
    }
}

/// Path of the collection of workspaces.
pub open spec fn workspaces_path() -> Seq<char> {
    "/api/v1/workspaces"@
}

/// Path of one workspace.
pub open spec fn workspace_path(workspace: Seq<char>) -> Seq<char> {
    "/api/v1/workspaces/"@ + workspace
}

/// Path of the pipelines of a workspace.
pub open spec fn pipelines_path(workspace: Seq<char>) -> Seq<char> {
    workspace_path(workspace) + "/pipelines"@
}

/// Path of one pipeline of a workspace.
pub open spec fn pipeline_path(workspace: Seq<char>, name: Seq<char>) -> Seq<char> {
    workspace_path(workspace) + "/pipelines/"@ + name
}

/// Path of the YAML documents of one pipeline.
pub open spec fn pipeline_yaml_path(workspace: Seq<char>, name: Seq<char>) -> Seq<char> {
    pipeline_path(workspace, name) + "/yaml"@
}

/// Path of the validations of a workspace.
pub open spec fn pipeline_validations_path(workspace: Seq<char>) -> Seq<char> {
    workspace_path(workspace) + "/pipeline_validations"@
}

/// The request that reads the pipeline `name` of a workspace.
pub open spec fn get_pipeline_request(name: Seq<char>, workspace: Seq<char>) -> ApiRequestView {
    ApiRequestView {
        method: HttpMethod::Get,
        path: pipeline_path(workspace, name),
        payload: PayloadView::Empty,
        response: ResponseKind::Pipeline,
    }
}

/// The request that creates a pipeline in a workspace.
pub open spec fn create_pipeline_request(
    workspace: Seq<char>,
    payload: PipelineInView,
) -> ApiRequestView {
    ApiRequestView {
        method: HttpMethod::Post,
        path: pipelines_path(workspace),
        payload: PayloadView::Pipeline(payload),
        response: ResponseKind::PipelineOut,
    }
}

/// The request that replaces the YAML documents of the pipeline that the
/// payload names.
pub open spec fn update_pipeline_yaml_request(
    workspace: Seq<char>,
    payload: PipelineInView,
) -> ApiRequestView {
    ApiRequestView {
        method: HttpMethod::Put,
        path: pipeline_yaml_path(workspace, payload.name),
        payload: PayloadView::Pipeline(payload),
        response: ResponseKind::PipelineOut,
    }
}

/// The request that validates the pipelines of a workspace against a
/// protocol revision.
pub open spec fn validate_pipelines_request(
    workspace: Seq<char>,
    version: DeepsetCloudVersion,
) -> ApiRequestView {
    ApiRequestView {
        method: HttpMethod::Post,
        path: pipeline_validations_path(workspace),
        payload: PayloadView::Version(version),
        response: ResponseKind::Nothing,
    }
}

/// The request that reads the workspace `name`.
pub open spec fn get_workspace_request(name: Seq<char>) -> ApiRequestView {
    ApiRequestView {
        method: HttpMethod::Get,
        path: workspace_path(name),
        payload: PayloadView::Empty,
        response: ResponseKind::Workspace,
    }
}

/// The request that lists the workspaces.
pub open spec fn list_workspaces_request() -> ApiRequestView {
    ApiRequestView {
        method: HttpMethod::Get,
        path: workspaces_path(),
        payload: PayloadView::Empty,
        response: ResponseKind::Workspaces,
    }
}

/// The client of the service: where it is, and what it authenticates with.
#[derive(Debug)]
pub struct DeepsetCloudApi {
    base_url: String,
    access_token: String,
}

/// What a [`DeepsetCloudApi`] holds.
pub struct DeepsetCloudApiView {
    pub base_url: Seq<char>,
    pub access_token: Seq<char>,
}

impl View for DeepsetCloudApi {
    type V = DeepsetCloudApiView;

    closed spec fn view(&self) -> DeepsetCloudApiView {
        DeepsetCloudApiView { base_url: self.base_url@, access_token: self.access_token@ }
    }
}

impl DeepsetCloudApi {
    /// A client of the production endpoint that presents `access_token`
    /// with every request.
    pub fn new(access_token: String) -> (r: DeepsetCloudApi)
        ensures
            r@ == (DeepsetCloudApiView {
                base_url: DEFAULT_BASE_URL@,
                access_token: access_token@,
            }),
    {
        DeepsetCloudApi { base_url: DEFAULT_BASE_URL.to_owned(), access_token }
    }

    pub fn base_url(&self) -> (r: &String)
        ensures
            r@ == self@.base_url,
    {
        &self.base_url
    }

    pub fn access_token(&self) -> (r: &String)
        ensures
            r@ == self@.access_token,
    {
        &self.access_token
    }
}

} // verus!

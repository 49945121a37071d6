//! Operations on pipelines.

use vstd::prelude::*;

use super::{
    create_pipeline_request, get_pipeline_request, update_pipeline_yaml_request,
    validate_pipelines_request, ApiRequest, DeepsetCloudApi, HttpMethod, Payload, ResponseKind,
};
use crate::types::{DeepsetCloudVersion, PipelineIn};

verus! {

impl DeepsetCloudApi {
    /// Reads the pipeline `name` of a workspace.
    pub fn get_pipeline<'a>(&self, name: &str, workspace_name: &str) -> (r: ApiRequest<'a>)
        ensures
            r@ == get_pipeline_request(name@, workspace_name@),
    {
        let mut path = "/api/v1/workspaces/".to_owned();
        path.append(workspace_name);
        path.append("/pipelines/");
        path.append(name);
        ApiRequest {
            method: HttpMethod::Get,
            path,
            payload: Payload::Empty,
            response: ResponseKind::Pipeline,
        }
    }

    /// Creates a pipeline in a workspace. The service answers with a
    /// conflict where a pipeline of that name exists.
    pub fn create_pipeline<'a>(&self, workspace_name: &str, payload: &'a PipelineIn) -> (r:
        ApiRequest<'a>)
        ensures
            r@ == create_pipeline_request(workspace_name@, payload@),
    {
        let mut path = "/api/v1/workspaces/".to_owned();
        path.append(workspace_name);
        path.append("/pipelines");
        ApiRequest {
            method: HttpMethod::Post,
            path,
            payload: Payload::Pipeline(payload),
            response: ResponseKind::PipelineOut,
        }
    }

    /// Replaces the YAML documents of the pipeline that the payload names.
    pub fn update_pipeline_yaml<'a>(&self, workspace_name: &str, payload: &'a PipelineIn) -> (r:
        ApiRequest<'a>)
        ensures
            r@ == update_pipeline_yaml_request(workspace_name@, payload@),
    {
        let mut path = "/api/v1/workspaces/".to_owned();
        path.append(workspace_name);
        path.append("/pipelines/");
        path.append(payload.name().as_str());
        path.append("/yaml");
        ApiRequest {
            method: HttpMethod::Put,
            path,
            payload: Payload::Pipeline(payload),
            response: ResponseKind::PipelineOut,
        }
    }

    /// Validates the pipelines of a workspace against a protocol revision.
    pub fn validate_pipelines<'a>(
        &self,
        workspace_name: &str,
        version: &DeepsetCloudVersion,
    ) -> (r: ApiRequest<'a>)
        ensures
            r@ == validate_pipelines_request(workspace_name@, *version),
    {
        let mut path = "/api/v1/workspaces/".to_owned();
        path.append(workspace_name);
        path.append("/pipeline_validations");
        ApiRequest {
            method: HttpMethod::Post,
            path,
            payload: Payload::Version(*version),
            response: ResponseKind::Nothing,
        }
    }
}

} // verus!

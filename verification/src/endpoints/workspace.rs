//! Operations on workspaces.

use vstd::prelude::*;

use super::{
    get_workspace_request, list_workspaces_request, ApiRequest, DeepsetCloudApi, HttpMethod,
    Payload, ResponseKind,
};

verus! {

impl DeepsetCloudApi {
    /// Reads the workspace `name`. The service answers with "not found"
    /// where there is none.
    pub fn get_workspace<'a>(&self, name: &str) -> (r: ApiRequest<'a>)
        ensures
            r@ == get_workspace_request(name@),
    {
        let mut path = "/api/v1/workspaces/".to_owned();
        path.append(name);
        ApiRequest {
            method: HttpMethod::Get,
            path,
            payload: Payload::Empty,
            response: ResponseKind::Workspace,
        }
    }

    /// Lists the workspaces.
    pub fn list_workspaces<'a>(&self) -> (r: ApiRequest<'a>)
        ensures
            r@ == list_workspaces_request(),
    {
        ApiRequest {
            method: HttpMethod::Get,
            path: "/api/v1/workspaces".to_owned(),
            payload: Payload::Empty,
            response: ResponseKind::Workspaces,
        }
    }
}

} // verus!

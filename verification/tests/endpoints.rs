use deepset_cloud::endpoints::{HttpMethod, Payload, ResponseKind};
use deepset_cloud::types::{DeepsetCloudVersion, PipelineIn};
use deepset_cloud::DeepsetCloudApi;

fn api() -> DeepsetCloudApi {
    DeepsetCloudApi::new("token".to_string())
}

fn payload() -> PipelineIn {
    PipelineIn::builder().name("search").indexing_yaml("i: 1").query_yaml("q: 2").build()
}

#[test]
fn the_client_points_at_production() {
    let api = DeepsetCloudApi::new("secret".to_string());
    assert_eq!(api.base_url(), "https://api.cloud.deepset.ai/");
    assert_eq!(api.access_token(), "secret");
}

#[test]
fn get_workspace_request() {
    let request = api().get_workspace("default");
    assert_eq!(request.method, HttpMethod::Get);
    assert_eq!(request.path, "/api/v1/workspaces/default");
    assert!(matches!(request.payload, Payload::Empty));
    assert_eq!(request.response, ResponseKind::Workspace);
}

#[test]
fn list_workspaces_request() {
    let request = api().list_workspaces();
    assert_eq!(request.method, HttpMethod::Get);
    assert_eq!(request.path, "/api/v1/workspaces");
    assert!(matches!(request.payload, Payload::Empty));
    assert_eq!(request.response, ResponseKind::Workspaces);
}

#[test]
fn get_pipeline_request() {
    let request = api().get_pipeline("search", "research");
    assert_eq!(request.method, HttpMethod::Get);
    assert_eq!(request.path, "/api/v1/workspaces/research/pipelines/search");
    assert!(matches!(request.payload, Payload::Empty));
    assert_eq!(request.response, ResponseKind::Pipeline);
}

#[test]
fn create_pipeline_request() {
    let payload = payload();
    let request = api().create_pipeline("research", &payload);
    assert_eq!(request.method, HttpMethod::Post);
    assert_eq!(request.path, "/api/v1/workspaces/research/pipelines");
    assert_eq!(request.response, ResponseKind::PipelineOut);
    match request.payload {
        Payload::Pipeline(sent) => {
            assert_eq!(sent.name(), "search");
            assert_eq!(sent.indexing_yaml(), &Some("i: 1".to_string()));
            assert_eq!(sent.query_yaml(), &Some("q: 2".to_string()));
            assert_eq!(sent.config(), &None);
            assert_eq!(sent.deepset_cloud_version(), &DeepsetCloudVersion::V2);
        }
        other => panic!("unexpected payload {:?}", other),
    }
}

#[test]
fn update_pipeline_yaml_request() {
    let payload = payload();
    let request = api().update_pipeline_yaml("research", &payload);
    assert_eq!(request.method, HttpMethod::Put);
    assert_eq!(request.path, "/api/v1/workspaces/research/pipelines/search/yaml");
    assert_eq!(request.response, ResponseKind::PipelineOut);
    match request.payload {
        Payload::Pipeline(sent) => {
            assert_eq!(sent.name(), "search");
            assert_eq!(sent.indexing_yaml(), &Some("i: 1".to_string()));
            assert_eq!(sent.query_yaml(), &Some("q: 2".to_string()));
        }
        other => panic!("unexpected payload {:?}", other),
    }
}

#[test]
fn validate_pipelines_request() {
    let request = api().validate_pipelines("research", &DeepsetCloudVersion::V1);
    assert_eq!(request.method, HttpMethod::Post);
    assert_eq!(request.path, "/api/v1/workspaces/research/pipeline_validations");
    assert!(matches!(request.payload, Payload::Version(DeepsetCloudVersion::V1)));
    assert_eq!(request.response, ResponseKind::Nothing);
}

#[test]
fn names_go_into_the_path_as_they_are() {
    let request = api().get_pipeline("", "");
    assert_eq!(request.path, "/api/v1/workspaces//pipelines/");
    let request = api().get_workspace("my space/x");
    assert_eq!(request.path, "/api/v1/workspaces/my space/x");
}

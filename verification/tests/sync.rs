use deepset_cloud::endpoints::{HttpMethod, Payload, ResponseKind};
use deepset_cloud::loader::{DirEntry, DirListing, DirProblem, LoadError, YamlFile};
use deepset_cloud::settings::EnvValue;
use deepset_cloud::sync::{Outcome, Reply, Stage, Step, SyncRun, CONFLICT, VALIDATED_VERSION};
use deepset_cloud::types::{DeepsetCloudVersion, PipelineIn};
use deepset_cloud::{Cli, Commands, DeepsetCloudApi, DeepsetCloudSettings, PipelineCommands};

fn cli() -> Cli {
    Cli { pipeline_dir: None, command: None }
}

fn settings() -> DeepsetCloudSettings {
    DeepsetCloudSettings::init(
        EnvValue::Text("secret".to_string()),
        EnvValue::Unset,
        EnvValue::Text("research".to_string()),
    )
    .unwrap()
}

fn dir(name: &str) -> DirEntry {
    DirEntry {
        name: name.to_string(),
        is_dir: true,
        indexing_yaml: YamlFile::Text(format!("indexing of {}", name)),
        query_yaml: YamlFile::Text(format!("query of {}", name)),
    }
}

fn listing(names: &[&str]) -> DirListing {
    DirListing::Entries(names.iter().map(|name| dir(name)).collect())
}

/// Method, path and name of the payload of the request that is pending.
fn pending_request(run: &SyncRun) -> (HttpMethod, String, Option<String>) {
    match run.pending() {
        Step::Send(request) => {
            let name = match request.payload {
                Payload::Pipeline(pipeline) => Some(pipeline.name().clone()),
                _ => None,
            };
            (request.method, request.path, name)
        }
        Step::Finish(outcome) => panic!("the run has ended: {:?}", outcome),
    }
}

fn finished(run: &SyncRun) -> Outcome {
    match run.pending() {
        Step::Finish(outcome) => outcome,
        Step::Send(request) => panic!("a request is pending: {:?}", request),
    }
}

#[test]
fn the_conflict_status() {
    assert_eq!(CONFLICT, 409);
    assert_eq!(VALIDATED_VERSION, DeepsetCloudVersion::V2);
}

#[test]
fn create_sends_one_request_for_each_pipeline_in_order() {
    let mut run = cli().create_pipelines(false, &settings(), &listing(&["a", "b", "c"]));
    assert_eq!(run.command(), PipelineCommands::Create { update: false });
    assert_eq!(run.workspace_name(), "research");
    assert_eq!(run.pipelines().len(), 3);
    assert_eq!(run.api().access_token(), "secret");
    assert_eq!(run.api().base_url(), "https://api.cloud.deepset.ai/");
    for (index, name) in ["a", "b", "c"].iter().enumerate() {
        assert_eq!(run.stage(), Stage::Creating(index));
        assert_eq!(run.outcome(), None);
        assert_eq!(
            pending_request(&run),
            (
                HttpMethod::Post,
                "/api/v1/workspaces/research/pipelines".to_string(),
                Some(name.to_string())
            )
        );
        run.resume(Reply::Success);
    }
    assert_eq!(run.stage(), Stage::Finished(Outcome::Completed));
    assert_eq!(run.outcome(), Some(Outcome::Completed));
    assert_eq!(finished(&run), Outcome::Completed);
    assert_eq!(finished(&run).exit_code(), 0);
}

#[test]
fn create_without_update_stops_at_a_conflict() {
    let mut run = cli().create_pipelines(false, &settings(), &listing(&["search", "other"]));
    assert_eq!(pending_request(&run).0, HttpMethod::Post);
    run.resume(Reply::Failure { status: 409 });
    let outcome = finished(&run);
    assert_eq!(outcome, Outcome::CreateFailed { index: 0, status: 409 });
    assert!(!outcome.is_success());
    assert_eq!(outcome.exit_code(), 1);
}

#[test]
fn create_with_update_falls_back_on_a_conflict() {
    let mut run = cli().create_pipelines(true, &settings(), &listing(&["search", "other"]));
    assert_eq!(pending_request(&run).0, HttpMethod::Post);
    run.resume(Reply::Failure { status: 409 });
    assert_eq!(run.stage(), Stage::Updating(0));
    assert_eq!(
        pending_request(&run),
        (
            HttpMethod::Put,
            "/api/v1/workspaces/research/pipelines/search/yaml".to_string(),
            Some("search".to_string())
        )
    );
    run.resume(Reply::Success);
    assert_eq!(run.stage(), Stage::Creating(1));
    assert_eq!(
        pending_request(&run),
        (
            HttpMethod::Post,
            "/api/v1/workspaces/research/pipelines".to_string(),
            Some("other".to_string())
        )
    );
    run.resume(Reply::Success);
    assert_eq!(finished(&run), Outcome::Completed);
    assert_eq!(finished(&run).exit_code(), 0);
}

#[test]
fn create_with_update_stops_at_any_other_failure() {
    let mut run = cli().create_pipelines(true, &settings(), &listing(&["a", "b"]));
    run.resume(Reply::Success);
    run.resume(Reply::Failure { status: 500 });
    assert_eq!(finished(&run), Outcome::CreateFailed { index: 1, status: 500 });
    assert_eq!(finished(&run).exit_code(), 1);
}

#[test]
fn a_failed_fallback_ends_the_run() {
    let mut run = cli().create_pipelines(true, &settings(), &listing(&["a", "b"]));
    run.resume(Reply::Failure { status: 409 });
    run.resume(Reply::Failure { status: 409 });
    assert_eq!(finished(&run), Outcome::UpdateFailed { index: 0, status: 409 });
    assert_eq!(finished(&run).exit_code(), 1);
}

#[test]
fn a_run_that_has_ended_stays_ended() {
    let mut run = cli().create_pipelines(false, &settings(), &listing(&["a", "b"]));
    run.resume(Reply::Failure { status: 403 });
    let outcome = Outcome::CreateFailed { index: 0, status: 403 };
    assert_eq!(finished(&run), outcome);
    run.resume(Reply::Success);
    assert_eq!(finished(&run), outcome);
    run.resume(Reply::Failure { status: 409 });
    assert_eq!(finished(&run), outcome);
}

#[test]
fn update_sends_one_request_for_each_pipeline_in_order() {
    let mut run = cli().update_pipelines(&settings(), &listing(&["a", "b"]));
    assert_eq!(run.command(), PipelineCommands::Update);
    assert_eq!(run.stage(), Stage::Updating(0));
    assert_eq!(
        pending_request(&run),
        (
            HttpMethod::Put,
            "/api/v1/workspaces/research/pipelines/a/yaml".to_string(),
            Some("a".to_string())
        )
    );
    run.resume(Reply::Success);
    assert_eq!(run.stage(), Stage::Updating(1));
    assert_eq!(
        pending_request(&run),
        (
            HttpMethod::Put,
            "/api/v1/workspaces/research/pipelines/b/yaml".to_string(),
            Some("b".to_string())
        )
    );
    run.resume(Reply::Success);
    assert_eq!(finished(&run), Outcome::Completed);
}

#[test]
fn update_stops_at_the_first_failure() {
    let mut run = cli().update_pipelines(&settings(), &listing(&["a", "b", "c"]));
    run.resume(Reply::Success);
    run.resume(Reply::Failure { status: 404 });
    assert_eq!(finished(&run), Outcome::UpdateFailed { index: 1, status: 404 });
    assert_eq!(finished(&run).exit_code(), 1);
}

#[test]
fn update_treats_a_conflict_as_any_failure() {
    let mut run = cli().update_pipelines(&settings(), &listing(&["a"]));
    run.resume(Reply::Failure { status: 409 });
    assert_eq!(finished(&run), Outcome::UpdateFailed { index: 0, status: 409 });
}

#[test]
fn updating_twice_with_the_same_documents_sends_the_same_requests() {
    let mut seen: Vec<Vec<(HttpMethod, String, Option<String>, Option<String>)>> = Vec::new();
    for _ in 0..2 {
        let mut run = cli().update_pipelines(&settings(), &listing(&["a", "b"]));
        let mut requests = Vec::new();
        while run.outcome().is_none() {
            match run.pending() {
                Step::Send(request) => match request.payload {
                    Payload::Pipeline(pipeline) => requests.push((
                        request.method,
                        request.path,
                        pipeline.indexing_yaml().clone(),
                        pipeline.query_yaml().clone(),
                    )),
                    other => panic!("unexpected payload {:?}", other),
                },
                Step::Finish(_) => unreachable!(),
            }
            run.resume(Reply::Success);
        }
        assert_eq!(run.outcome(), Some(Outcome::Completed));
        seen.push(requests);
    }
    assert_eq!(seen[0].len(), 2);
    assert_eq!(seen[0], seen[1]);
    assert_eq!(seen[0][0].2, Some("indexing of a".to_string()));
    assert_eq!(seen[0][1].3, Some("query of b".to_string()));
}

#[test]
fn validate_with_no_subfolders_still_validates_the_workspace() {
    let mut run = cli().validate_pipelines(&settings(), &DirListing::Entries(vec![]));
    assert!(run.pipelines().is_empty());
    assert_eq!(run.stage(), Stage::Validating);
    match run.pending() {
        Step::Send(request) => {
            assert_eq!(request.method, HttpMethod::Post);
            assert_eq!(request.path, "/api/v1/workspaces/research/pipeline_validations");
            assert!(matches!(request.payload, Payload::Version(DeepsetCloudVersion::V2)));
            assert_eq!(request.response, ResponseKind::Nothing);
        }
        Step::Finish(outcome) => panic!("the run has ended: {:?}", outcome),
    }
    run.resume(Reply::Success);
    assert_eq!(finished(&run), Outcome::Completed);
    assert_eq!(finished(&run).exit_code(), 0);
}

#[test]
fn validate_sends_one_request_however_many_pipelines_there_are() {
    let mut run = cli().validate_pipelines(&settings(), &listing(&["a", "b", "c"]));
    assert_eq!(pending_request(&run).1, "/api/v1/workspaces/research/pipeline_validations");
    run.resume(Reply::Success);
    assert_eq!(finished(&run), Outcome::Completed);
}

#[test]
fn a_failed_validation_ends_the_run() {
    let mut run = cli().validate_pipelines(&settings(), &listing(&["a"]));
    run.resume(Reply::Failure { status: 422 });
    assert_eq!(finished(&run), Outcome::ValidationFailed { status: 422 });
    assert_eq!(finished(&run).exit_code(), 1);
}

#[test]
fn a_missing_root_ends_every_command_before_anything_is_sent() {
    let runs = [
        cli().create_pipelines(false, &settings(), &DirListing::Unreadable),
        cli().create_pipelines(true, &settings(), &DirListing::Unreadable),
        cli().update_pipelines(&settings(), &DirListing::Unreadable),
        cli().validate_pipelines(&settings(), &DirListing::Unreadable),
    ];
    for run in runs.iter() {
        let outcome = finished(run);
        assert_eq!(outcome, Outcome::LoadFailed(LoadError::RootUnreadable));
        assert!(!outcome.is_success());
        assert_eq!(outcome.exit_code(), 1);
        assert!(run.pipelines().is_empty());
    }
}

#[test]
fn a_bad_subfolder_ends_the_command_before_anything_is_sent() {
    let bad = DirListing::Entries(vec![
        dir("good"),
        DirEntry {
            name: "half".to_string(),
            is_dir: true,
            indexing_yaml: YamlFile::Text("a".to_string()),
            query_yaml: YamlFile::Missing,
        },
    ]);
    let run = cli().create_pipelines(true, &settings(), &bad);
    let error = LoadError::PipelineDir { index: 1, problem: DirProblem::MissingFiles };
    assert_eq!(finished(&run), Outcome::LoadFailed(error));
    assert_eq!(finished(&run).exit_code(), 1);
    assert!(run.pipelines().is_empty());
}

#[test]
fn a_batch_over_nothing_is_complete_at_once() {
    let run = cli().create_pipelines(true, &settings(), &DirListing::Entries(vec![]));
    assert_eq!(finished(&run), Outcome::Completed);
    let run = cli().update_pipelines(&settings(), &DirListing::Entries(vec![]));
    assert_eq!(finished(&run), Outcome::Completed);
}

#[test]
fn deploy_is_not_implemented() {
    let outcome = cli().deploy_pipelines();
    assert_eq!(outcome, Outcome::NotImplemented);
    assert!(!outcome.is_success());
    assert_eq!(outcome.exit_code(), 1);
}

#[test]
fn a_run_can_be_set_out_directly() {
    let api = DeepsetCloudApi::new("t".to_string());
    let payload = PipelineIn::builder().name("p").build();
    let mut run = SyncRun::new(
        api,
        PipelineCommands::Create { update: true },
        "w".to_string(),
        Ok(vec![payload]),
    );
    assert_eq!(run.stage(), Stage::Creating(0));
    run.resume(Reply::Failure { status: CONFLICT });
    assert_eq!(run.stage(), Stage::Updating(0));

    let api = DeepsetCloudApi::new("t".to_string());
    let run = SyncRun::new(api, PipelineCommands::Deploy, "w".to_string(), Ok(vec![]));
    assert_eq!(run.stage(), Stage::Finished(Outcome::NotImplemented));

    let api = DeepsetCloudApi::new("t".to_string());
    let run = SyncRun::new(
        api,
        PipelineCommands::Validate,
        "w".to_string(),
        Err(LoadError::RootUnreadable),
    );
    assert_eq!(run.stage(), Stage::Finished(Outcome::LoadFailed(LoadError::RootUnreadable)));
}

#[test]
fn exit_codes() {
    assert_eq!(Outcome::Completed.exit_code(), 0);
    assert_eq!(Outcome::NotImplemented.exit_code(), 1);
    assert!(Outcome::Completed.is_success());
    assert!(!Outcome::NotImplemented.is_success());
    assert_eq!(Outcome::LoadFailed(LoadError::RootUnreadable).exit_code(), 1);
    assert_eq!(Outcome::CreateFailed { index: 0, status: 409 }.exit_code(), 1);
    assert_eq!(Outcome::UpdateFailed { index: 2, status: 500 }.exit_code(), 1);
    assert_eq!(Outcome::ValidationFailed { status: 400 }.exit_code(), 1);
}

#[test]
fn the_pipeline_directory_defaults() {
    assert_eq!(cli().path(), "./pipelines");
    let cli = Cli { pipeline_dir: Some("/srv/pipelines".to_string()), command: None };
    assert_eq!(cli.path(), "/srv/pipelines");
}

#[test]
fn the_subcommand_is_read_from_the_command_line() {
    assert_eq!(cli().pipeline_command(), None);
    for command in [
        PipelineCommands::Create { update: false },
        PipelineCommands::Create { update: true },
        PipelineCommands::Update,
        PipelineCommands::Validate,
        PipelineCommands::Deploy,
    ] {
        let cli = Cli { pipeline_dir: None, command: Some(Commands::Pipelines { command }) };
        assert_eq!(cli.pipeline_command(), Some(command));
    }
}

#[test]
fn the_client_of_a_run_takes_the_key_of_the_settings() {
    let settings = settings();
    let api = cli().deepset_cloud_api(&settings);
    assert_eq!(api.access_token(), "secret");
    assert_eq!(api.base_url(), "https://api.cloud.deepset.ai/");
}

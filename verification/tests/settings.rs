use deepset_cloud::settings::{
    EnvValue, Setting, SettingsError, API_KEY, BASE_URL, DEFAULT_BASE_URL, DEFAULT_WORKSPACE_NAME,
    ENV_PREFIX, ENV_PREFIX_SEPARATOR, WORKSPACE_NAME,
};
use deepset_cloud::{Cli, DeepsetCloudSettings};

fn text(value: &str) -> EnvValue {
    EnvValue::Text(value.to_string())
}

#[test]
fn api_key_alone_is_enough() {
    let settings =
        DeepsetCloudSettings::init(text("secret"), EnvValue::Unset, EnvValue::Unset).unwrap();
    assert_eq!(settings.api_key, "secret");
    assert_eq!(settings.base_url, "https://api.cloud.deepset.ai/");
    assert_eq!(settings.workspace_name, "default");
}

#[test]
fn given_values_replace_the_defaults() {
    let settings = DeepsetCloudSettings::init(
        text("secret"),
        text("https://staging.example.org/"),
        text("research"),
    )
    .unwrap();
    assert_eq!(settings.api_key, "secret");
    assert_eq!(settings.base_url, "https://staging.example.org/");
    assert_eq!(settings.workspace_name, "research");
}

#[test]
fn workspace_defaults_while_the_endpoint_is_given() {
    let settings =
        DeepsetCloudSettings::init(text("k"), text("http://localhost:8000/"), EnvValue::Unset)
            .unwrap();
    assert_eq!(settings.base_url, "http://localhost:8000/");
    assert_eq!(settings.workspace_name, DEFAULT_WORKSPACE_NAME);
}

#[test]
fn an_empty_api_key_is_still_a_key() {
    let settings = DeepsetCloudSettings::init(text(""), EnvValue::Unset, EnvValue::Unset).unwrap();
    assert_eq!(settings.api_key, "");
}

#[test]
fn missing_api_key_is_an_error() {
    let result = DeepsetCloudSettings::init(EnvValue::Unset, text("http://x/"), text("w"));
    assert_eq!(result.unwrap_err(), SettingsError::MissingApiKey);
}

#[test]
fn malformed_api_key_is_an_error() {
    let result = DeepsetCloudSettings::init(EnvValue::Malformed, EnvValue::Unset, EnvValue::Unset);
    assert_eq!(result.unwrap_err(), SettingsError::Malformed(Setting::ApiKey));
}

#[test]
fn malformed_base_url_is_an_error() {
    let result = DeepsetCloudSettings::init(text("k"), EnvValue::Malformed, EnvValue::Unset);
    assert_eq!(result.unwrap_err(), SettingsError::Malformed(Setting::BaseUrl));
}

#[test]
fn malformed_workspace_name_is_an_error() {
    let result = DeepsetCloudSettings::init(text("k"), EnvValue::Unset, EnvValue::Malformed);
    assert_eq!(result.unwrap_err(), SettingsError::Malformed(Setting::WorkspaceName));
}

#[test]
fn a_malformed_value_is_reported_before_the_missing_key() {
    let result = DeepsetCloudSettings::init(EnvValue::Unset, EnvValue::Unset, EnvValue::Malformed);
    assert_eq!(result.unwrap_err(), SettingsError::Malformed(Setting::WorkspaceName));
    let result =
        DeepsetCloudSettings::init(EnvValue::Unset, EnvValue::Malformed, EnvValue::Malformed);
    assert_eq!(result.unwrap_err(), SettingsError::Malformed(Setting::BaseUrl));
}

#[test]
fn names_of_the_variables() {
    assert_eq!(ENV_PREFIX, "deepset_cloud");
    assert_eq!(ENV_PREFIX_SEPARATOR, "_");
    assert_eq!(API_KEY, "api_key");
    assert_eq!(BASE_URL, "base_url");
    assert_eq!(WORKSPACE_NAME, "workspace_name");
    assert_eq!(DEFAULT_BASE_URL, "https://api.cloud.deepset.ai/");
    assert_eq!(DEFAULT_WORKSPACE_NAME, "default");
    let variable = format!("{}{}{}", ENV_PREFIX, ENV_PREFIX_SEPARATOR, API_KEY).to_uppercase();
    assert_eq!(variable, "DEEPSET_CLOUD_API_KEY");
}

#[test]
fn the_command_line_takes_the_same_settings() {
    let cli = Cli { pipeline_dir: None, command: None };
    let settings = cli.settings(text("secret"), EnvValue::Unset, text("research"));
    assert_eq!(settings.api_key, "secret");
    assert_eq!(settings.base_url, "https://api.cloud.deepset.ai/");
    assert_eq!(settings.workspace_name, "research");
}

#[test]
fn the_values_can_be_examined_without_being_taken() {
    let key = text("k");
    assert_eq!(DeepsetCloudSettings::examine(&key, &EnvValue::Unset, &EnvValue::Unset), None);
    assert_eq!(
        DeepsetCloudSettings::examine(&EnvValue::Unset, &EnvValue::Unset, &EnvValue::Unset),
        Some(SettingsError::MissingApiKey)
    );
    assert_eq!(
        DeepsetCloudSettings::examine(&key, &EnvValue::Malformed, &EnvValue::Unset),
        Some(SettingsError::Malformed(Setting::BaseUrl))
    );
}

//! Settings of a run, taken from the environment.
//!
//! Three options are recognised. Each is given by the environment variable
//! whose name is the prefix, the separator and the option's key, in any
//! case. The caller reads the variables; this module decides what they
//! amount to.

use vstd::prelude::*;

verus! {

/// Prefix of the names of the environment variables.
pub const ENV_PREFIX: &'static str = "deepset_cloud";

/// What stands between the prefix and an option's key.
pub const ENV_PREFIX_SEPARATOR: &'static str = "_";

/// Key of the access token. It has no default.
pub const API_KEY: &'static str = "api_key";

/// Key of the endpoint of the service.
pub const BASE_URL: &'static str = "base_url";

/// Key of the workspace to work in.
pub const WORKSPACE_NAME: &'static str = "workspace_name";

/// Production endpoint of the service.
pub const DEFAULT_BASE_URL: &'static str = "https://api.cloud.deepset.ai/";

/// Workspace that is used when none is named.
pub const DEFAULT_WORKSPACE_NAME: &'static str = "default";

/// What the environment holds for one option.
#[derive(Debug)]
pub enum EnvValue {
    /// No variable is set for the option.
    Unset,
    /// A variable is set and its value cannot be taken as text.
    Malformed,
    /// The value of the variable.
    Text(String),
}

impl EnvValue {
    /// The text that the option gets: the value that is set, or else the
    /// default.
    pub open spec fn or_default(self, default: Seq<char>) -> Seq<char> {
        match self {
            EnvValue::Text(t) => t@,
            _ => default,
        }
    }
}

/// The options, in the order in which they are examined.
#[derive(Clone, Copy, Debug, PartialEq, Eq, Structural)]
pub enum Setting {
    ApiKey,
    BaseUrl,
    WorkspaceName,
}

/// Why no settings could be determined.
#[derive(Clone, Copy, Debug, PartialEq, Eq, Structural)]
pub enum SettingsError {
    /// The access token is not set.
    MissingApiKey,
    /// The value of an option cannot be taken as text.
    Malformed(Setting),
}

#[derive(Debug)]
pub struct DeepsetCloudSettings {
    pub api_key: String,
    pub base_url: String,
    pub workspace_name: String,
}

impl DeepsetCloudSettings {
    /// The error that the three values give rise to, if any: the first
    /// malformed option, or else the missing access token.
    pub open spec fn rejection(
        api_key: EnvValue,
        base_url: EnvValue,
        workspace_name: EnvValue,
    ) -> Option<SettingsError> {
        if api_key is Malformed {
            Some(SettingsError::Malformed(Setting::ApiKey))
        } else if base_url is Malformed {
            Some(SettingsError::Malformed(Setting::BaseUrl))
        } else if workspace_name is Malformed {
            Some(SettingsError::Malformed(Setting::WorkspaceName))
        } else if api_key is Unset {
            Some(SettingsError::MissingApiKey)
        } else {
            None
        }
    }

    /// Examines what the environment holds for the three options, and says
    /// what stands in the way of settings, if anything does.
    pub fn examine(api_key: &EnvValue, base_url: &EnvValue, workspace_name: &EnvValue) -> (r: Option<
        SettingsError,
    >)
        ensures
            r == DeepsetCloudSettings::rejection(*api_key, *base_url, *workspace_name),
    {
        if let EnvValue::Malformed = api_key {
            Some(SettingsError::Malformed(Setting::ApiKey))
        } else if let EnvValue::Malformed = base_url {
            Some(SettingsError::Malformed(Setting::BaseUrl))
        } else if let EnvValue::Malformed = workspace_name {
            Some(SettingsError::Malformed(Setting::WorkspaceName))
        } else if let EnvValue::Unset = api_key {
            Some(SettingsError::MissingApiKey)
        } else {
            None
        }
    }

    /// Determines the settings from what the environment holds for the three
    /// options. The access token is required; the endpoint and the workspace
    /// fall back on their defaults.
    pub fn init(api_key: EnvValue, base_url: EnvValue, workspace_name: EnvValue) -> (r: Result<
        DeepsetCloudSettings,
        SettingsError,
    >)
        ensures
            api_key is Text && !(base_url is Malformed) && !(workspace_name is Malformed) ==> r is Ok,
            workspace_name is Unset ==> (r matches Ok(settings) ==> settings.workspace_name@
                == DEFAULT_WORKSPACE_NAME@),
            match r {
                Ok(settings) => {
                    &&& DeepsetCloudSettings::rejection(api_key, base_url, workspace_name) is None
                    &&& api_key matches EnvValue::Text(key)
                    &&& settings.api_key@ == key@
                    &&& settings.base_url@ == base_url.or_default(DEFAULT_BASE_URL@)
                    &&& settings.workspace_name@ == workspace_name.or_default(
                        DEFAULT_WORKSPACE_NAME@,
                    )
                },
                Err(error) => DeepsetCloudSettings::rejection(api_key, base_url, workspace_name)
                    == Some(error),
            },
    {
        if let Some(error) = DeepsetCloudSettings::examine(&api_key, &base_url, &workspace_name) {
            return Err(error);
        }
        let base_url = match base_url {
            EnvValue::Text(url) => url,
            _ => DEFAULT_BASE_URL.to_owned(),
        };
        let workspace_name = match workspace_name {
            EnvValue::Text(name) => name,
            _ => DEFAULT_WORKSPACE_NAME.to_owned(),
        };
        match api_key {
            EnvValue::Text(api_key) => Ok(DeepsetCloudSettings { api_key, base_url, workspace_name }),
            _ => Err(SettingsError::MissingApiKey),
        }
    }
}

} // verus!

//! Data exchanged with the service.

use vstd::prelude::*;

pub mod pipeline;

pub use self::pipeline::{
    payload_views, text_view, user_view, Pipeline, PipelineIn, PipelineInBuilder, PipelineInView, PipelineIndexingStatus,
    PipelineIndexingStatusView, PipelineOut, PipelineView,
};

verus! {

/// `uuid::Uuid`, carried through as an opaque identifier.
#[verifier::external_type_specification]
#[verifier::external_body]
pub struct ExUuid(uuid::Uuid);

/// `chrono::NaiveDateTime`, carried through as an opaque timestamp. Every
/// timestamp of the service is in UTC, so no offset is kept beside it.
#[verifier::external_type_specification]
#[verifier::external_body]
pub struct ExNaiveDateTime(chrono::NaiveDateTime);

/// Compares two string slices by their characters.
fn same_text(a: &str, b: &str) -> (r: bool)
    ensures
        r == (a@ == b@),
{
    let left: String = a.to_owned();
    let right: String = b.to_owned();
    left == right
}

/// Author reference, embedded by value in the resources it belongs to.
#[derive(Debug)]
pub struct User {
    user_id: uuid::Uuid,
    given_name: String,
    family_name: String,
}

/// What a [`User`] holds.
pub struct UserView {
    pub user_id: uuid::Uuid,
    pub given_name: Seq<char>,
    pub family_name: Seq<char>,
}

impl View for User {
    type V = UserView;

    closed spec fn view(&self) -> UserView {
        UserView {
            user_id: self.user_id,
            given_name: self.given_name@,
            family_name: self.family_name@,
        }
    }
}

impl User {
    pub fn new(user_id: uuid::Uuid, given_name: String, family_name: String) -> (r: User)
        ensures
            r@ == (UserView {
                user_id,
                given_name: given_name@,
                family_name: family_name@,
            }),
    {
        User { user_id, given_name, family_name }
    }

    pub fn user_id(&self) -> (r: &uuid::Uuid)
        ensures
            *r == self@.user_id,
    {
        &self.user_id
    }

    pub fn given_name(&self) -> (r: &String)
        ensures
            r@ == self@.given_name,
    {
        &self.given_name
    }

    pub fn family_name(&self) -> (r: &String)
        ensures
            r@ == self@.family_name,
    {
        &self.family_name
    }
}

/// Service tier of a deployed pipeline.
#[allow(non_camel_case_types)]
#[derive(Clone, Copy, Debug, PartialEq, Eq, Structural)]
pub enum ServiceLevel {
    DRAFT,
    DEVELOPMENT,
    PRODUCTION,
}

impl Default for ServiceLevel {
    fn default() -> (r: ServiceLevel)
        ensures
            r == ServiceLevel::DEVELOPMENT,
    {
        ServiceLevel::DEVELOPMENT
    }
}

impl ServiceLevel {
    /// The token that stands for this level on the wire: the variant's name
    /// in upper case.
    pub open spec fn wire(self) -> Seq<char> {
        match self {
            ServiceLevel::DRAFT => "DRAFT"@,
            ServiceLevel::DEVELOPMENT => "DEVELOPMENT"@,
            ServiceLevel::PRODUCTION => "PRODUCTION"@,
        }
    }

    /// The level that a wire token stands for, if any.
    pub open spec fn parse(token: Seq<char>) -> Option<ServiceLevel> {
        if token == "DRAFT"@ {
            Some(ServiceLevel::DRAFT)
        } else if token == "DEVELOPMENT"@ {
            Some(ServiceLevel::DEVELOPMENT)
        } else if token == "PRODUCTION"@ {
            Some(ServiceLevel::PRODUCTION)
        } else {
            None
        }
    }

    pub fn wire_name(&self) -> (r: &'static str)
        ensures
            r@ == self.wire(),
    {
        match self {
            ServiceLevel::DRAFT => "DRAFT",
            ServiceLevel::DEVELOPMENT => "DEVELOPMENT",
            ServiceLevel::PRODUCTION => "PRODUCTION",
        }
    }

    pub fn from_wire_name(token: &str) -> (r: Option<ServiceLevel>)
        ensures
            r == ServiceLevel::parse(token@),
    {
        if same_text(token, "DRAFT") {
            Some(ServiceLevel::DRAFT)
        } else if same_text(token, "DEVELOPMENT") {
            Some(ServiceLevel::DEVELOPMENT)
        } else if same_text(token, "PRODUCTION") {
            Some(ServiceLevel::PRODUCTION)
        } else {
            None
        }
    }

    /// Every level is read back from its own wire token.
    pub proof fn lemma_wire_round_trip(level: ServiceLevel)
        ensures
            ServiceLevel::parse(level.wire()) == Some(level),
    {
        reveal_strlit("DRAFT");
        reveal_strlit("DEVELOPMENT");
        reveal_strlit("PRODUCTION");
        assert("DRAFT"@.len() == 5);
        assert("DEVELOPMENT"@.len() == 11);
        assert("PRODUCTION"@.len() == 10);
    }

    /// A token that is read as a level is that level's wire token.
    pub proof fn lemma_parse_is_exact(token: Seq<char>)
        ensures
            ServiceLevel::parse(token) matches Some(level) ==> level.wire() == token,
    {
    }
}

/// Protocol revision of the service that a pipeline is written for.
#[derive(Clone, Copy, Debug, PartialEq, Eq, Structural)]
pub enum DeepsetCloudVersion {
    V1,
    V2,
}

impl Default for DeepsetCloudVersion {
    fn default() -> (r: DeepsetCloudVersion)
        ensures
            r == DeepsetCloudVersion::V2,
    {
        DeepsetCloudVersion::V2
    }
}

impl DeepsetCloudVersion {
    /// The token that stands for this revision on the wire: the variant's
    /// name in lower case.
    pub open spec fn wire(self) -> Seq<char> {
        match self {
            DeepsetCloudVersion::V1 => "v1"@,
            DeepsetCloudVersion::V2 => "v2"@,
        }
    }

    /// The revision that a wire token stands for, if any.
    pub open spec fn parse(token: Seq<char>) -> Option<DeepsetCloudVersion> {
        if token == "v1"@ {
            Some(DeepsetCloudVersion::V1)
        } else if token == "v2"@ {
            Some(DeepsetCloudVersion::V2)
        } else {
            None
        }
    }

    pub fn wire_name(&self) -> (r: &'static str)
        ensures
            r@ == self.wire(),
    {
        match self {
            DeepsetCloudVersion::V1 => "v1",
            DeepsetCloudVersion::V2 => "v2",
        }
    }

    pub fn from_wire_name(token: &str) -> (r: Option<DeepsetCloudVersion>)
        ensures
            r == DeepsetCloudVersion::parse(token@),
    {
        if same_text(token, "v1") {
            Some(DeepsetCloudVersion::V1)
        } else if same_text(token, "v2") {
            Some(DeepsetCloudVersion::V2)
        } else {
            None
        }
    }

    /// Every revision is read back from its own wire token.
    pub proof fn lemma_wire_round_trip(version: DeepsetCloudVersion)
        ensures
            DeepsetCloudVersion::parse(version.wire()) == Some(version),
    {
        reveal_strlit("v1");
        reveal_strlit("v2");
        assert("v1"@[1] == '1');
        assert("v2"@[1] == '2');
    }

    /// A token that is read as a revision is that revision's wire token.
    pub proof fn lemma_parse_is_exact(token: Seq<char>)
        ensures
            DeepsetCloudVersion::parse(token) matches Some(version) ==> version.wire() == token,
    {
    }
}

/// A remote container for pipelines.
#[derive(Debug)]
pub struct Workspace {
    name: String,
    workspace_id: uuid::Uuid,
    languages: Vec<String>,
    default_idle_timeout_in_seconds: u64,
}

/// What a [`Workspace`] holds.
pub struct WorkspaceView {
    pub name: Seq<char>,
    pub workspace_id: uuid::Uuid,
    pub languages: Seq<Seq<char>>,
    pub default_idle_timeout_in_seconds: u64,
}

impl View for Workspace {
    type V = WorkspaceView;

    closed spec fn view(&self) -> WorkspaceView {
        WorkspaceView {
            name: self.name@,
            workspace_id: self.workspace_id,
            languages: self.languages.deep_view(),
            default_idle_timeout_in_seconds: self.default_idle_timeout_in_seconds,
        }
    }
}

impl Workspace {
    pub fn new(
        name: String,
        workspace_id: uuid::Uuid,
        languages: Vec<String>,
        default_idle_timeout_in_seconds: u64,
    ) -> (r: Workspace)
        ensures
            r@ == (WorkspaceView {
                name: name@,
                workspace_id,
                languages: languages.deep_view(),
                default_idle_timeout_in_seconds,
            }),
    {
        Workspace { name, workspace_id, languages, default_idle_timeout_in_seconds }
    }

    pub fn name(&self) -> (r: &String)
        ensures
            r@ == self@.name,
    {
        &self.name
    }

    pub fn workspace_id(&self) -> (r: &uuid::Uuid)
        ensures
            *r == self@.workspace_id,
    {
        &self.workspace_id
    }

    pub fn languages(&self) -> (r: &Vec<String>)
        ensures
            r.deep_view() == self@.languages,
    {
        &self.languages
    }

    pub fn default_idle_timeout_in_seconds(&self) -> (r: &u64)
        ensures
            *r == self@.default_idle_timeout_in_seconds,
    {
        &self.default_idle_timeout_in_seconds
    }
}

} // verus!

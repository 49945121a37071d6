//! Pipelines as the service reports them, and as they are submitted to it.

use vstd::prelude::*;

use super::{DeepsetCloudVersion, ServiceLevel, User, UserView};

verus! {

/// The characters of an optional text.
pub open spec fn text_view(text: Option<String>) -> Option<Seq<char>> {
    match text {
        Some(t) => Some(t@),
        None => None,
    }
}

/// What an optional author reference holds.
pub open spec fn user_view(user: Option<User>) -> Option<UserView> {
    match user {
        Some(u) => Some(u@),
        None => None,
    }
}

/// Snapshot of the indexing queue of a pipeline.
#[derive(Debug)]
pub struct PipelineIndexingStatus {
    pending_file_count: u64,
    failed_file_count: u64,
}

/// What a [`PipelineIndexingStatus`] holds.
pub struct PipelineIndexingStatusView {
    pub pending_file_count: u64,
    pub failed_file_count: u64,
}

impl View for PipelineIndexingStatus {
    type V = PipelineIndexingStatusView;

    closed spec fn view(&self) -> PipelineIndexingStatusView {
        PipelineIndexingStatusView {
            pending_file_count: self.pending_file_count,
            failed_file_count: self.failed_file_count,
        }
    }
}

impl PipelineIndexingStatus {
    pub fn new(pending_file_count: u64, failed_file_count: u64) -> (r: PipelineIndexingStatus)
        ensures
            r@ == (PipelineIndexingStatusView { pending_file_count, failed_file_count }),
    {
        PipelineIndexingStatus { pending_file_count, failed_file_count }
    }

    pub fn pending_file_count(&self) -> (r: &u64)
        ensures
            *r == self@.pending_file_count,
    {
        &self.pending_file_count
    }

    pub fn failed_file_count(&self) -> (r: &u64)
        ensures
            *r == self@.failed_file_count,
    {
        &self.failed_file_count
    }
}

/// A deployed pipeline, as the service reports it.
#[derive(Debug)]
pub struct Pipeline {
    name: String,
    pipeline_id: uuid::Uuid,
    status: String,
    desired_status: String,
    created_at: chrono::NaiveDateTime,
    deleted: bool,
    is_default: bool,
    created_by: Option<User>,
    last_edited_by: Option<User>,
    last_edited_at: Option<chrono::NaiveDateTime>,
    supports_prompt: bool,
    output_type: String,
    last_deployed_at: Option<chrono::NaiveDateTime>,
    service_level: ServiceLevel,
    idle_timeout_in_seconds: Option<u64>,
    deepset_cloud_version: DeepsetCloudVersion,
    indexing: PipelineIndexingStatus,
}

/// What a [`Pipeline`] holds.
pub struct PipelineView {
    pub name: Seq<char>,
    pub pipeline_id: uuid::Uuid,
    pub status: Seq<char>,
    pub desired_status: Seq<char>,
    pub created_at: chrono::NaiveDateTime,
    pub deleted: bool,
    pub is_default: bool,
    pub created_by: Option<UserView>,
    pub last_edited_by: Option<UserView>,
    pub last_edited_at: Option<chrono::NaiveDateTime>,
    pub supports_prompt: bool,
    pub output_type: Seq<char>,
    pub last_deployed_at: Option<chrono::NaiveDateTime>,
    pub service_level: ServiceLevel,
    pub idle_timeout_in_seconds: Option<u64>,
    pub deepset_cloud_version: DeepsetCloudVersion,
    pub indexing: PipelineIndexingStatusView,
}

impl View for Pipeline {
    type V = PipelineView;

    closed spec fn view(&self) -> PipelineView {
        PipelineView {
            name: self.name@,
            pipeline_id: self.pipeline_id,
            status: self.status@,
            desired_status: self.desired_status@,
            created_at: self.created_at,
            deleted: self.deleted,
            is_default: self.is_default,
            created_by: user_view(self.created_by),
            last_edited_by: user_view(self.last_edited_by),
            last_edited_at: self.last_edited_at,
            supports_prompt: self.supports_prompt,
            output_type: self.output_type@,
            last_deployed_at: self.last_deployed_at,
            service_level: self.service_level,
            idle_timeout_in_seconds: self.idle_timeout_in_seconds,
            deepset_cloud_version: self.deepset_cloud_version,
            indexing: self.indexing@,
        }
    }
}

impl Pipeline {
    pub fn new(
        name: String,
        pipeline_id: uuid::Uuid,
        status: String,
        desired_status: String,
        created_at: chrono::NaiveDateTime,
        deleted: bool,
        is_default: bool,
        created_by: Option<User>,
        last_edited_by: Option<User>,
        last_edited_at: Option<chrono::NaiveDateTime>,
        supports_prompt: bool,
        output_type: String,
        last_deployed_at: Option<chrono::NaiveDateTime>,
        service_level: ServiceLevel,
        idle_timeout_in_seconds: Option<u64>,
        deepset_cloud_version: DeepsetCloudVersion,
        indexing: PipelineIndexingStatus,
    ) -> (r: Pipeline)
        ensures
            r@ == (PipelineView {
                name: name@,
                pipeline_id,
                status: status@,
                desired_status: desired_status@,
                created_at,
                deleted,
                is_default,
                created_by: user_view(created_by),
                last_edited_by: user_view(last_edited_by),
                last_edited_at,
                supports_prompt,
                output_type: output_type@,
                last_deployed_at,
                service_level,
                idle_timeout_in_seconds,
                deepset_cloud_version,
                indexing: indexing@,
            }),
    {
        Pipeline {
            name,
            pipeline_id,
            status,
            desired_status,
            created_at,
            deleted,
            is_default,
            created_by,
            last_edited_by,
            last_edited_at,
            supports_prompt,
            output_type,
            last_deployed_at,
            service_level,
            idle_timeout_in_seconds,
            deepset_cloud_version,
            indexing,
        }
    }

    pub fn name(&self) -> (r: &String)
        ensures
            r@ == self@.name,
    {
        &self.name
    }

    pub fn pipeline_id(&self) -> (r: &uuid::Uuid)
        ensures
            *r == self@.pipeline_id,
    {
        &self.pipeline_id
    }

    pub fn status(&self) -> (r: &String)
        ensures
            r@ == self@.status,
    {
        &self.status
    }

    pub fn desired_status(&self) -> (r: &String)
        ensures
            r@ == self@.desired_status,
    {
        &self.desired_status
    }

    pub fn created_at(&self) -> (r: &chrono::NaiveDateTime)
        ensures
            *r == self@.created_at,
    {
        &self.created_at
    }

    pub fn deleted(&self) -> (r: &bool)
        ensures
            *r == self@.deleted,
    {
        &self.deleted
    }

    pub fn is_default(&self) -> (r: &bool)
        ensures
            *r == self@.is_default,
    {
        &self.is_default
    }

    pub fn created_by(&self) -> (r: &Option<User>)
        ensures
            user_view(*r) == self@.created_by,
    {
        &self.created_by
    }

    pub fn last_edited_by(&self) -> (r: &Option<User>)
        ensures
            user_view(*r) == self@.last_edited_by,
    {
        &self.last_edited_by
    }

    pub fn last_edited_at(&self) -> (r: &Option<chrono::NaiveDateTime>)
        ensures
            *r == self@.last_edited_at,
    {
        &self.last_edited_at
    }

    pub fn supports_prompt(&self) -> (r: &bool)
        ensures
            *r == self@.supports_prompt,
    {
        &self.supports_prompt
    }

    pub fn output_type(&self) -> (r: &String)
        ensures
            r@ == self@.output_type,
    {
        &self.output_type
    }

    pub fn last_deployed_at(&self) -> (r: &Option<chrono::NaiveDateTime>)
        ensures
            *r == self@.last_deployed_at,
    {
        &self.last_deployed_at
    }

    pub fn service_level(&self) -> (r: &ServiceLevel)
        ensures
            *r == self@.service_level,
    {
        &self.service_level
    }

    pub fn idle_timeout_in_seconds(&self) -> (r: &Option<u64>)
        ensures
            *r == self@.idle_timeout_in_seconds,
    {
        &self.idle_timeout_in_seconds
    }

    pub fn deepset_cloud_version(&self) -> (r: &DeepsetCloudVersion)
        ensures
            *r == self@.deepset_cloud_version,
    {
        &self.deepset_cloud_version
    }

    pub fn indexing(&self) -> (r: &PipelineIndexingStatus)
        ensures
            r@ == self@.indexing,
    {
        &self.indexing
    }
}

/// Payload of a create or update call, assembled on the client.
///
/// The service expects either `config`, or `indexing_yaml` together with
/// `query_yaml`; the payload itself accepts any combination.
#[derive(Debug)]
pub struct PipelineIn {
    name: String,
    config: Option<String>,
    indexing_yaml: Option<String>,
    query_yaml: Option<String>,
    deepset_cloud_version: DeepsetCloudVersion,
}

/// What a [`PipelineIn`] holds.
pub struct PipelineInView {
    pub name: Seq<char>,
    pub config: Option<Seq<char>>,
    pub indexing_yaml: Option<Seq<char>>,
    pub query_yaml: Option<Seq<char>>,
    pub deepset_cloud_version: DeepsetCloudVersion,
}

impl PipelineInView {
    /// The payload that nothing has been set on: no name, no documents, the
    /// current protocol revision.
    pub open spec fn blank() -> PipelineInView {
        PipelineInView {
            name: Seq::empty(),
            config: None,
            indexing_yaml: None,
            query_yaml: None,
            deepset_cloud_version: DeepsetCloudVersion::V2,
        }
    }
}

impl View for PipelineIn {
    type V = PipelineInView;

    closed spec fn view(&self) -> PipelineInView {
        PipelineInView {
            name: self.name@,
            config: text_view(self.config),
            indexing_yaml: text_view(self.indexing_yaml),
            query_yaml: text_view(self.query_yaml),
            deepset_cloud_version: self.deepset_cloud_version,
        }
    }
}

impl Default for PipelineIn {
    fn default() -> (r: PipelineIn)
        ensures
            r@ == PipelineInView::blank(),
    {
        PipelineIn {
            name: String::new(),
            config: None,
            indexing_yaml: None,
            query_yaml: None,
            deepset_cloud_version: DeepsetCloudVersion::V2,
        }
    }
}

impl PipelineIn {
    /// Starts a payload with nothing set.
    pub fn builder() -> (r: PipelineInBuilder)
        ensures
            r@ == PipelineInView::blank(),
    {
        PipelineInBuilder { item: PipelineIn::default() }
    }

    pub fn name(&self) -> (r: &String)
        ensures
            r@ == self@.name,
    {
        &self.name
    }

    pub fn config(&self) -> (r: &Option<String>)
        ensures
            text_view(*r) == self@.config,
    {
        &self.config
    }

    pub fn indexing_yaml(&self) -> (r: &Option<String>)
        ensures
            text_view(*r) == self@.indexing_yaml,
    {
        &self.indexing_yaml
    }

    pub fn query_yaml(&self) -> (r: &Option<String>)
        ensures
            text_view(*r) == self@.query_yaml,
    {
        &self.query_yaml
    }

    pub fn deepset_cloud_version(&self) -> (r: &DeepsetCloudVersion)
        ensures
            *r == self@.deepset_cloud_version,
    {
        &self.deepset_cloud_version
    }
}

/// What each payload of a list holds, in order.
pub open spec fn payload_views(payloads: Seq<PipelineIn>) -> Seq<PipelineInView> {
    payloads.map_values(|p: PipelineIn| p@)
}

/// Fluent construction of a [`PipelineIn`]: each setter replaces one field
/// and keeps the others.
pub struct PipelineInBuilder {
    item: PipelineIn,
}

impl View for PipelineInBuilder {
    type V = PipelineInView;

    closed spec fn view(&self) -> PipelineInView {
        self.item@
    }
}

impl PipelineInBuilder {
    pub fn name(self, name: &str) -> (r: PipelineInBuilder)
        ensures
            r@ == (PipelineInView { name: name@, ..self@ }),
    {
        let mut item = self.item;
        item.name = name.to_owned();
        PipelineInBuilder { item }
    }

    pub fn config(self, config: &str) -> (r: PipelineInBuilder)
        ensures
            r@ == (PipelineInView { config: Some(config@), ..self@ }),
    {
        let mut item = self.item;
        item.config = Some(config.to_owned());
        PipelineInBuilder { item }
    }

    pub fn indexing_yaml(self, yaml: &str) -> (r: PipelineInBuilder)
        ensures
            r@ == (PipelineInView { indexing_yaml: Some(yaml@), ..self@ }),
    {
        let mut item = self.item;
        item.indexing_yaml = Some(yaml.to_owned());
        PipelineInBuilder { item }
    }

    pub fn query_yaml(self, yaml: &str) -> (r: PipelineInBuilder)
        ensures
            r@ == (PipelineInView { query_yaml: Some(yaml@), ..self@ }),
    {
        let mut item = self.item;
        item.query_yaml = Some(yaml.to_owned());
        PipelineInBuilder { item }
    }

    pub fn deepset_cloud_version(self, version: DeepsetCloudVersion) -> (r: PipelineInBuilder)
        ensures
            r@ == (PipelineInView { deepset_cloud_version: version, ..self@ }),
    {
        let mut item = self.item;
        item.deepset_cloud_version = version;
        PipelineInBuilder { item }
    }

    pub fn build(self) -> (r: PipelineIn)
        ensures
            r@ == self@,
    {
        self.item
    }
}

/// Response to a create or update call.
#[derive(Debug)]
pub struct PipelineOut {
    name: String,
}

impl View for PipelineOut {
    type V = Seq<char>;

    closed spec fn view(&self) -> Seq<char> {
        self.name@
    }
}

impl PipelineOut {
    pub fn new(name: String) -> (r: PipelineOut)
        ensures
            r@ == name@,
    {
        PipelineOut { name }
    }

    pub fn name(&self) -> (r: &String)
        ensures
            r@ == self@,
    {
        &self.name
    }
}

} // verus!

//! From a directory listing to payloads.
//!
//! A pipeline is stored as a subdirectory of the pipeline root that holds two
//! YAML documents. The caller lists the root and reads the documents; this
//! module decides which entries are pipelines and what is submitted for them.
//! One subdirectory that cannot be loaded fails the whole batch.

use vstd::prelude::*;

use crate::cli::Cli;
use crate::types::{payload_views, DeepsetCloudVersion, PipelineIn, PipelineInView};

verus! {

/// Name of the document that describes the indexing stage.
pub const INDEXING_FILE: &'static str = "indexing.yaml";

/// Name of the document that describes the query stage.
pub const QUERY_FILE: &'static str = "query.yaml";

/// What the file system reported of one document.
#[derive(Debug)]
pub enum YamlFile {
    /// No regular file of that name exists.
    Missing,
    /// The file exists and could not be read as UTF-8 text.
    Unreadable,
    /// The file's text.
    Text(String),
}

impl YamlFile {
    /// The text of the document, where it was read.
    pub open spec fn text(self) -> Option<Seq<char>> {
        match self {
            YamlFile::Text(t) => Some(t@),
            _ => None,
        }
    }
}

/// One entry of the pipeline root.
#[derive(Debug)]
pub struct DirEntry {
    /// Base name of the entry.
    pub name: String,
    /// Whether the entry is a directory.
    pub is_dir: bool,
    pub indexing_yaml: YamlFile,
    pub query_yaml: YamlFile,
}

/// Why a subdirectory gives no payload.
#[derive(Clone, Copy, Debug, PartialEq, Eq, Structural)]
pub enum DirProblem {
    /// One of the two documents does not exist.
    MissingFiles,
    /// Both exist, and the indexing document could not be read.
    IndexingUnreadable,
    /// Both exist, the indexing document was read, and the query document
    /// could not be.
    QueryUnreadable,
}

impl DirEntry {
    /// What stands in the way of a payload, if anything does.
    pub open spec fn problem(self) -> Option<DirProblem> {
        if self.indexing_yaml is Missing || self.query_yaml is Missing {
            Some(DirProblem::MissingFiles)
        } else if self.indexing_yaml is Unreadable {
            Some(DirProblem::IndexingUnreadable)
        } else if self.query_yaml is Unreadable {
            Some(DirProblem::QueryUnreadable)
        } else {
            None
        }
    }

    /// Both documents were read.
    pub open spec fn complete(self) -> bool {
        self.problem() is None
    }

    /// The payload of a complete subdirectory: named after the directory,
    /// carrying the exact text of both documents, with no raw configuration
    /// and the current protocol revision.
    pub open spec fn payload(self) -> PipelineInView {
        PipelineInView {
            name: self.name@,
            config: None,
            indexing_yaml: self.indexing_yaml.text(),
            query_yaml: self.query_yaml.text(),
            deepset_cloud_version: DeepsetCloudVersion::V2,
        }
    }
}

/// What the file system reported of the pipeline root.
#[derive(Debug)]
pub enum DirListing {
    /// The root is missing or cannot be read.
    Unreadable,
    /// The entries of the root, in the order of enumeration.
    Entries(Vec<DirEntry>),
}

/// Why nothing was loaded.
#[derive(Clone, Copy, Debug, PartialEq, Eq, Structural)]
pub enum LoadError {
    /// The pipeline root is missing or cannot be read.
    RootUnreadable,
    /// The entry at `index` of the listing is a subdirectory that gives no
    /// payload.
    PipelineDir { index: usize, problem: DirProblem },
}

/// The entries that are directories, in order.
pub open spec fn subdirectories(entries: Seq<DirEntry>) -> Seq<DirEntry> {
    entries.filter(|e: DirEntry| e.is_dir)
}

/// One payload for each subdirectory, in order.
pub open spec fn payloads(entries: Seq<DirEntry>) -> Seq<PipelineInView> {
    subdirectories(entries).map_values(|e: DirEntry| e.payload())
}

/// Every subdirectory among the first `n` entries is complete.
pub open spec fn complete_up_to(entries: Seq<DirEntry>, n: int) -> bool {
    forall|i: int|
        0 <= i < n && i < entries.len() && (#[trigger] entries[i]).is_dir
            ==> entries[i].complete()
}

impl DirListing {
    /// The root was listed and each of its subdirectories is complete.
    pub open spec fn loadable(self) -> bool {
        match self {
            DirListing::Unreadable => false,
            DirListing::Entries(entries) => complete_up_to(entries@, entries@.len() as int),
        }
    }

    /// `error` names what stops the load: the unreadable root, or the first
    /// subdirectory that is not complete, with its problem.
    pub open spec fn fails_with(self, error: LoadError) -> bool {
        match self {
            DirListing::Unreadable => error == LoadError::RootUnreadable,
            DirListing::Entries(entries) => {
                &&& error matches LoadError::PipelineDir { index, problem }
                &&& index < entries@.len()
                &&& entries@[index as int].is_dir
                &&& entries@[index as int].problem() == Some(problem)
                &&& complete_up_to(entries@, index as int)
            },
        }
    }
}

impl Cli {
    /// Builds the payload of one subdirectory, or says why there is none.
    pub fn into_pipeline(&self, dir: &DirEntry) -> (r: Result<PipelineIn, DirProblem>)
        ensures
            match r {
                Ok(pipeline) => dir.complete() && pipeline@ == dir.payload(),
                Err(problem) => dir.problem() == Some(problem),
            },
    {
        match (&dir.indexing_yaml, &dir.query_yaml) {
            (YamlFile::Missing, _) => Err(DirProblem::MissingFiles),
            (_, YamlFile::Missing) => Err(DirProblem::MissingFiles),
            (YamlFile::Unreadable, _) => Err(DirProblem::IndexingUnreadable),
            (_, YamlFile::Unreadable) => Err(DirProblem::QueryUnreadable),
            (YamlFile::Text(indexing), YamlFile::Text(query)) => Ok(
                PipelineIn::builder().name(dir.name.as_str()).indexing_yaml(
                    indexing.as_str(),
                ).query_yaml(query.as_str()).build(),
            ),
        }
    }

    /// Loads the payloads of a listing: one for each subdirectory, in the
    /// order of the listing. Entries that are not directories are passed
    /// over. Nothing is loaded unless every subdirectory is complete.
    pub fn load_pipelines(&self, listing: &DirListing) -> (r: Result<Vec<PipelineIn>, LoadError>)
        ensures
            r is Ok <==> listing.loadable(),
            match r {
                Ok(pipelines) => listing matches DirListing::Entries(entries) && payload_views(
                    pipelines@,
                ) == payloads(entries@),
                Err(error) => listing.fails_with(error),
            },
    {
        match listing {
            DirListing::Unreadable => Err(LoadError::RootUnreadable),
            DirListing::Entries(entries) => {
                let mut pipelines: Vec<PipelineIn> = Vec::new();
                let mut i: usize = 0;
                while i < entries.len()
                    invariant
                        *listing == DirListing::Entries(*entries),
                        i <= entries.len(),
                        complete_up_to(entries@, i as int),
                        payload_views(pipelines@) == payloads(entries@.take(i as int)),
                    decreases entries.len() - i,
                {
                    let entry = &entries[i];
                    proof {
                        lemma_payloads_step(entries@, i as int);
                    }
                    if entry.is_dir {
                        match self.into_pipeline(entry) {
                            Ok(pipeline) => {
                                proof {
                                    assert(payload_views(pipelines@.push(pipeline))
                                        == payload_views(pipelines@).push(pipeline@));
                                }
                                pipelines.push(pipeline);
                            },
                            Err(problem) => {
                                return Err(LoadError::PipelineDir { index: i, problem });
                            },
                        }
                    }
                    i += 1;
                }
                proof {
                    assert(entries@.take(entries@.len() as int) == entries@);
                }
                Ok(pipelines)
            },
        }
    }
}

/// A listing that loads gives exactly one payload for each subdirectory, in
/// the order of the listing: it bears the name of the subdirectory and the
/// exact text of its two documents, and nothing else is set on it. Every
/// directory of the listing is among the subdirectories, and nothing else
/// is.
pub proof fn lemma_one_payload_per_subdirectory(entries: Seq<DirEntry>)
    requires
        complete_up_to(entries, entries.len() as int),
    ensures
        payloads(entries).len() == subdirectories(entries).len(),
        forall|k: int|
            0 <= k < payloads(entries).len() ==> {
                let dir = subdirectories(entries)[k];
                &&& entries.contains(dir)
                &&& dir.is_dir
                &&& dir.indexing_yaml matches YamlFile::Text(indexing)
                &&& dir.query_yaml matches YamlFile::Text(query)
                &&& (#[trigger] payloads(entries)[k]) == (PipelineInView {
                    name: dir.name@,
                    config: None,
                    indexing_yaml: Some(indexing@),
                    query_yaml: Some(query@),
                    deepset_cloud_version: DeepsetCloudVersion::V2,
                })
            },
        forall|i: int|
            0 <= i < entries.len() && (#[trigger] entries[i]).is_dir ==> subdirectories(
                entries,
            ).contains(entries[i]),
{
    assert forall|k: int| 0 <= k < payloads(entries).len() implies {
        let dir = subdirectories(entries)[k];
        &&& entries.contains(dir)
        &&& dir.is_dir
        &&& dir.indexing_yaml matches YamlFile::Text(indexing)
        &&& dir.query_yaml matches YamlFile::Text(query)
        &&& (#[trigger] payloads(entries)[k]) == (PipelineInView {
            name: dir.name@,
            config: None,
            indexing_yaml: Some(indexing@),
            query_yaml: Some(query@),
            deepset_cloud_version: DeepsetCloudVersion::V2,
        })
    } by {
        let dir = subdirectories(entries)[k];
        lemma_filtered_is_member(entries, k);
        let i = choose|i: int| 0 <= i < entries.len() && entries[i] == dir;
        assert(entries[i].complete());
    }
    assert forall|i: int| 0 <= i < entries.len() && (#[trigger] entries[i]).is_dir implies subdirectories(
        entries,
    ).contains(entries[i]) by {
        entries.lemma_filter_contains(|e: DirEntry| e.is_dir, i);
    }
}

/// A subdirectory that lacks one of the two documents gives no payload, and
/// a listing that holds one does not load.
pub proof fn lemma_missing_file_fails_load(entries: Seq<DirEntry>, i: int)
    requires
        0 <= i < entries.len(),
        entries[i].is_dir,
        entries[i].indexing_yaml is Missing || entries[i].query_yaml is Missing,
    ensures
        entries[i].problem() == Some(DirProblem::MissingFiles),
        !complete_up_to(entries, entries.len() as int),
{
}

/// Each of the subdirectories is an entry of the listing, and a directory.
proof fn lemma_filtered_is_member(entries: Seq<DirEntry>, k: int)
    requires
        0 <= k < subdirectories(entries).len(),
    ensures
        entries.contains(subdirectories(entries)[k]),
        subdirectories(entries)[k].is_dir,
    decreases entries.len(),
{
    reveal(Seq::filter);
    if entries.len() > 0 {
        let shorter = entries.drop_last();
        if k < subdirectories(shorter).len() {
            lemma_filtered_is_member(shorter, k);
            let dir = subdirectories(shorter)[k];
            let j = choose|j: int| 0 <= j < shorter.len() && shorter[j] == dir;
            assert(entries[j] == dir);
        } else {
            assert(entries[entries.len() - 1] == entries.last());
        }
    }
}

/// Taking one more entry adds its payload if it is a directory, and nothing
/// otherwise.
proof fn lemma_payloads_step(entries: Seq<DirEntry>, i: int)
    requires
        0 <= i < entries.len(),
    ensures
        payloads(entries.take(i + 1)) == if entries[i].is_dir {
            payloads(entries.take(i)).push(entries[i].payload())
        } else {
            payloads(entries.take(i))
        },
{
    let longer = entries.take(i + 1);
    assert(longer.drop_last() == entries.take(i));
    assert(longer.last() == entries[i]);
    reveal_with_fuel(Seq::filter, 2);
}

} // verus!

//! What happens when the catalog is built: each provider's answer is turned
//! into a snapshot, and the snapshot writer decides what is written where.

use crate::providers::Provider;
use vstd::prelude::*;

pub mod laws;
pub mod providers;

verus! {

/// The environment variable whose presence asks for every catalog to be
/// fetched anew.
pub const REBUILD_TRIGGER: &'static str = "MODELS_REPOSITORY_BUILD";

/// The directory, below the project, in which snapshots persist from one
/// build to the next.
pub const PERSISTENT_DIRECTORY: &'static str = "model_data";

/// The text of the snapshot without records.
pub const EMPTY_SNAPSHOT: &'static str = "{}";

/// One source of a catalog: its name, the file that holds its snapshot, and
/// the provider whose answer it reads.
#[derive(Debug, Clone, Copy)]
pub struct ProviderSpec {
    pub name: &'static str,
    pub file_name: &'static str,
    pub provider: Provider,
}

/// What a provider is asked: the address, and the bearer credential if there
/// is one.
#[derive(Debug)]
pub struct Request {
    pub url: String,
    pub bearer: Option<String>,
}

/// What a provider answered: the status code, the status as it is shown
/// (the code and its reason), and the body.
#[derive(Debug)]
pub struct HttpResponse {
    pub code: u16,
    pub status: String,
    pub body: String,
}

/// Why a catalog could not be fetched.
#[derive(Debug)]
pub enum FetchError {
    /// The request failed on the way.
    Transport { detail: String },
    /// The provider answered with a status outside the 2xx range.
    Status { status: String, url: String },
    /// The body is no JSON.
    Syntax { detail: String },
    /// The body is JSON, but no catalog.
    Shape,
    /// The snapshot could not be written as text.
    Render { detail: String },
}

/// Why the build stopped: the message names the provider and the cause.
#[derive(Debug)]
pub struct BuildFailure {
    pub message: String,
}

/// Where a file is written.
#[derive(Debug, Clone, Copy, PartialEq, Eq, Structural)]
pub enum Place {
    /// The project's own directory of snapshots, which lasts across builds.
    Persistent,
    /// The directory of the build's output, from which the program takes its
    /// snapshot.
    BuildOutput,
}

/// A file to write.
#[derive(Debug)]
pub struct FileWrite {
    pub place: Place,
    pub file_name: String,
    pub content: String,
}

/// Where a provider's snapshot comes from.
#[derive(Debug, Clone, Copy, PartialEq, Eq, Structural)]
pub enum Source {
    /// It is fetched from the provider.
    Upstream,
    /// The persisted snapshot is used again.
    Persisted,
}

/// A status in the 2xx range.
pub open spec fn success(code: u16) -> bool {
    200 <= code < 300
}

/// Tells whether a status code stands for success.
pub fn is_success(code: u16) -> (r: bool)
    ensures
        r == success(code),
{
    200 <= code && code < 300
}

impl FetchError {
    /// The message of the error.
    pub open spec fn message_text(self) -> Seq<char> {
        match self {
            FetchError::Transport { detail } => detail@,
            FetchError::Status { status, url } => "HTTP "@ + status@ + " from "@ + url@,
            FetchError::Syntax { detail } => detail@,
            FetchError::Shape => "the answer does not hold a catalog"@,
            FetchError::Render { detail } => detail@,
        }
    }

    /// Writes the message of the error.
    pub fn message(&self) -> (r: String)
        ensures
            r@ == self.message_text(),
    {
        match self {
            FetchError::Transport { detail } => detail.clone(),
            FetchError::Status { status, url } => {
                String::from_str("HTTP ").concat(status.as_str()).concat(" from ").concat(
                    url.as_str(),
                )
            },
            FetchError::Syntax { detail } => detail.clone(),
            FetchError::Shape => String::from_str("the answer does not hold a catalog"),
            FetchError::Render { detail } => detail.clone(),
        }
    }
}

/// The message with which the build stops when a provider's catalog cannot
/// be fetched.
pub open spec fn failure_text(name: Seq<char>, cause: Seq<char>) -> Seq<char> {
    "Failed to fetch "@ + name + ": "@ + cause
}

/// Decides where a provider's snapshot comes from: from the provider where
/// the rebuild is asked for, else from the persisted snapshot.
pub fn source(rebuild: bool) -> (r: Source)
    ensures
        r == (if rebuild {
            Source::Upstream
        } else {
            Source::Persisted
        }),
{
    if rebuild {
        Source::Upstream
    } else {
        Source::Persisted
    }
}

/// The placeholder of a provider: the empty snapshot in the build's output,
/// written before anything else so that the file is always there.
pub fn placeholder(spec: &ProviderSpec) -> (r: FileWrite)
    ensures
        r.place == Place::BuildOutput,
        r.file_name@ == spec.file_name@,
        r.content@ == EMPTY_SNAPSHOT@,
{
    FileWrite {
        place: Place::BuildOutput,
        file_name: spec.file_name.to_owned(),
        content: EMPTY_SNAPSHOT.to_owned(),
    }
}

/// The placeholders of all providers, one for each, in their order.
pub fn placeholders(specs: &Vec<ProviderSpec>) -> (r: Vec<FileWrite>)
    ensures
        r@.len() == specs@.len(),
        forall|i: int|
            0 <= i < specs@.len() ==> {
                &&& (#[trigger] r@[i]).place == Place::BuildOutput
                &&& r@[i].file_name@ == specs@[i].file_name@
                &&& r@[i].content@ == EMPTY_SNAPSHOT@
            },
{
    let mut writes: Vec<FileWrite> = Vec::new();
    let mut i: usize = 0;
    while i < specs.len()
        invariant
            i <= specs.len(),
            writes@.len() == i,
            forall|k: int|
                0 <= k < i ==> {
                    &&& (#[trigger] writes@[k]).place == Place::BuildOutput
                    &&& writes@[k].file_name@ == specs@[k].file_name@
                    &&& writes@[k].content@ == EMPTY_SNAPSHOT@
                },
        decreases specs.len() - i,
    {
        writes.push(placeholder(&specs[i]));
        i += 1;
    }
    writes
}

/// What the rebuild of a provider leads to. A fetched snapshot is written
/// twice, first to the persistent directory and then to the build's output;
/// a failed fetch stops the build with a message that names the provider.
pub fn rebuilt(spec: &ProviderSpec, fetched: Result<String, FetchError>) -> (r: Result<
    Vec<FileWrite>,
    BuildFailure,
>)
    ensures
        match fetched {
            Ok(text) => {
                &&& r matches Ok(writes)
                &&& writes@.len() == 2
                &&& writes@[0].place == Place::Persistent
                &&& writes@[0].file_name@ == spec.file_name@
                &&& writes@[0].content@ == text@
                &&& writes@[1].place == Place::BuildOutput
                &&& writes@[1].file_name@ == spec.file_name@
                &&& writes@[1].content@ == text@
            },
            Err(error) => {
                &&& r matches Err(failure)
                &&& failure.message@ == failure_text(spec.name@, error.message_text())
            },
        },
{
    match fetched {
        Ok(text) => {
            let mut writes: Vec<FileWrite> = Vec::new();
            writes.push(
                FileWrite {
                    place: Place::Persistent,
                    file_name: spec.file_name.to_owned(),
                    content: text.clone(),
                },
            );
            writes.push(
                FileWrite {
                    place: Place::BuildOutput,
                    file_name: spec.file_name.to_owned(),
                    content: text,
                },
            );
            Ok(writes)
        },
        Err(error) => {
            let cause = error.message();
            let message = String::from_str("Failed to fetch ").concat(spec.name).concat(
                ": ",
            ).concat(cause.as_str());
            Err(BuildFailure { message })
        },
    }
}

/// What using the persisted snapshot again leads to: its text, unchanged, is
/// written to the build's output; where there is none, the empty snapshot is.
/// This never fails.
pub fn reused(spec: &ProviderSpec, persisted: Option<String>) -> (r: FileWrite)
    ensures
        r.place == Place::BuildOutput,
        r.file_name@ == spec.file_name@,
        r.content@ == (match persisted {
            Some(text) => text@,
            None => EMPTY_SNAPSHOT@,
        }),
{
    let content = match persisted {
        Some(text) => text,
        None => EMPTY_SNAPSHOT.to_owned(),
    };
    FileWrite { place: Place::BuildOutput, file_name: spec.file_name.to_owned(), content }
}

} // verus!

//! From the JSON that a service answered with to the result of an operation.
//!
//! No member of a reply is taken to be there. Each one is read by its name,
//! with a stated default for the case that it is absent or of another type.

use crate::error::{BridgeError, Failure};
use crate::json::{trees, Json, Tree};
use crate::operation::Operation;
use vstd::prelude::*;

verus! {

/// Whether a service is up, and whether what it depends on is.
#[derive(Clone, Debug, PartialEq, Eq)]
pub struct StatusResult {
    pub connected: bool,
    pub dependency_connected: bool,
    pub error_message: Option<String>,
}

/// The mathematical model of a `StatusResult`.
pub struct StatusView {
    pub connected: bool,
    pub dependency_connected: bool,
    pub error_message: Option<Seq<char>>,
}

impl View for StatusResult {
    type V = StatusView;

    open spec fn view(&self) -> StatusView {
        StatusView {
            connected: self.connected,
            dependency_connected: self.dependency_connected,
            error_message: self.error_message.deep_view(),
        }
    }
}

/// The three states that a status can stand for.
#[derive(Clone, Copy, Debug, PartialEq, Eq, Structural)]
pub enum Health {
    /// The service is not up.
    Unreachable,
    /// The service is up; what it depends on is not.
    Degraded,
    Healthy,
}

impl StatusView {
    /// The state that the status stands for.
    pub open spec fn health(self) -> Health {
        if !self.connected {
            Health::Unreachable
        } else if !self.dependency_connected {
            Health::Degraded
        } else {
            Health::Healthy
        }
    }

    /// Whether the three members agree: nothing depends on a service that
    /// is down, and a message is there unless all is well.
    pub open spec fn coherent(self) -> bool {
        &&& self.dependency_connected ==> self.connected
        &&& self.error_message is None <==> self.health() == Health::Healthy
    }
}

impl StatusResult {
    /// The state that the status stands for.
    pub fn health(&self) -> (r: Health)
        ensures
            r == self@.health(),
    {
        if !self.connected {
            Health::Unreachable
        } else if !self.dependency_connected {
            Health::Degraded
        } else {
            Health::Healthy
        }
    }
}

/// The tags that the backend found for one file.
#[derive(Clone, Debug, PartialEq, Eq)]
pub struct TagResult {
    pub success: bool,
    pub tags: Vec<String>,
    pub error: Option<String>,
    pub file_type: Option<String>,
    pub model_used: Option<String>,
}

/// The mathematical model of a `TagResult`.
pub struct TagView {
    pub success: bool,
    pub tags: Seq<Seq<char>>,
    pub error: Option<Seq<char>>,
    pub file_type: Option<Seq<char>>,
    pub model_used: Option<Seq<char>>,
}

impl View for TagResult {
    type V = TagView;

    open spec fn view(&self) -> TagView {
        TagView {
            success: self.success,
            tags: self.tags.deep_view(),
            error: self.error.deep_view(),
            file_type: self.file_type.deep_view(),
            model_used: self.model_used.deep_view(),
        }
    }
}

/// What the backend reports of a whole folder. The records under `results`
/// and `summary` are handed on as they came.
#[derive(Clone, Debug, PartialEq, Eq)]
pub struct FolderResult {
    pub success: bool,
    pub error: Option<String>,
    pub results: Vec<Json>,
    pub summary: Json,
    pub folder_path: Option<String>,
    pub message: Option<String>,
}

/// The mathematical model of a `FolderResult`.
pub struct FolderView {
    pub success: bool,
    pub error: Option<Seq<char>>,
    pub results: Seq<Tree>,
    pub summary: Tree,
    pub folder_path: Option<Seq<char>>,
    pub message: Option<Seq<char>>,
}

impl View for FolderResult {
    type V = FolderView;

    open spec fn view(&self) -> FolderView {
        FolderView {
            success: self.success,
            error: self.error.deep_view(),
            results: trees(self.results@),
            summary: self.summary@,
            folder_path: self.folder_path.deep_view(),
            message: self.message.deep_view(),
        }
    }
}

/// The result of an operation that succeeded.
#[derive(Clone, Debug, PartialEq, Eq)]
pub enum OperationResult {
    Status(StatusResult),
    /// The listing of a folder, as the backend gave it.
    FolderFiles(Json),
    Folder(FolderResult),
    Tags(TagResult),
    /// The text that the model completed the prompt with.
    Prompt(String),
}

/// The mathematical model of an `OperationResult`.
pub enum ResultView {
    Status(StatusView),
    FolderFiles(Tree),
    Folder(FolderView),
    Tags(TagView),
    Prompt(Seq<char>),
}

impl View for OperationResult {
    type V = ResultView;

    open spec fn view(&self) -> ResultView {
        match self {
            OperationResult::Status(status) => ResultView::Status(status@),
            OperationResult::FolderFiles(listing) => ResultView::FolderFiles(listing@),
            OperationResult::Folder(folder) => ResultView::Folder(folder@),
            OperationResult::Tags(tags) => ResultView::Tags(tags@),
            OperationResult::Prompt(text) => ResultView::Prompt(text@),
        }
    }
}

/// The truth value under `name`; `false` where there is none.
pub open spec fn flag(reply: Tree, name: Seq<char>) -> bool {
    match reply.member(name) {
        Some(value) => match value.truth() {
            Some(b) => b,
            None => false,
        },
        None => false,
    }
}

/// The text under `name`; nothing where there is none.
pub open spec fn optional_text(reply: Tree, name: Seq<char>) -> Option<Seq<char>> {
    match reply.member(name) {
        Some(value) => value.text(),
        None => None,
    }
}

/// The elements of the array under `name`; none where there is no array.
pub open spec fn records(reply: Tree, name: Seq<char>) -> Seq<Tree> {
    match reply.member(name) {
        Some(value) => match value.items() {
            Some(items) => items,
            None => seq![],
        },
        None => seq![],
    }
}

/// The value under `name`, whatever it is; `null` where there is none.
pub open spec fn record(reply: Tree, name: Seq<char>) -> Tree {
    match reply.member(name) {
        Some(value) => value,
        None => Tree::Null,
    }
}

/// The strings among `items`, in their order. What is no string is left out.
pub open spec fn texts(items: Seq<Tree>) -> Seq<Seq<char>> {
    items.filter_map(|item: Tree| item.text())
}

/// What is said of a backend that is up while the inference server is not.
pub open spec fn dependency_down() -> Seq<char> {
    "Ollama is not running. Please start Ollama and try again."@
}

/// The status that a reply of the backend's health endpoint stands for. The
/// backend is up, since it replied; its member `ollama_connected` says
/// whether it reaches the inference server.
pub open spec fn backend_status(reply: Tree) -> StatusView {
    let dependency = flag(reply, "ollama_connected"@);
    StatusView {
        connected: true,
        dependency_connected: dependency,
        error_message: if dependency {
            None
        } else {
            Some(dependency_down())
        },
    }
}

/// The status that a reply of the inference server stands for. It is up,
/// and it depends on nothing that could be down.
pub open spec fn inference_status() -> StatusView {
    StatusView { connected: true, dependency_connected: true, error_message: None }
}

/// The tags that a reply of the backend holds for one file.
pub open spec fn tag_view(reply: Tree) -> TagView {
    TagView {
        success: flag(reply, "success"@),
        tags: texts(records(reply, "tags"@)),
        error: optional_text(reply, "error"@),
        file_type: optional_text(reply, "file_type"@),
        model_used: optional_text(reply, "model_used"@),
    }
}

/// What a reply of the backend reports of a folder.
pub open spec fn folder_view(reply: Tree) -> FolderView {
    FolderView {
        success: flag(reply, "success"@),
        error: optional_text(reply, "error"@),
        results: records(reply, "results"@),
        summary: record(reply, "summary"@),
        folder_path: optional_text(reply, "folder_path"@),
        message: optional_text(reply, "message"@),
    }
}

/// What the caller is told of a body that is of no use, for the given reason.
pub open spec fn malformed_message(reason: Seq<char>) -> Seq<char> {
    "Failed to parse response: "@ + reason
}

/// Why a completion without text is of no use.
pub open spec fn no_completion() -> Seq<char> {
    "no text under `response`"@
}

/// The text that the model completed a prompt with: what stands under
/// `response`. Without it there is nothing to hand back, and the reply is
/// of no use.
pub open spec fn completion(reply: Tree) -> Result<Seq<char>, Failure> {
    match optional_text(reply, "response"@) {
        Some(text) => Ok(text),
        None => Err(Failure::MalformedResponse { message: malformed_message(no_completion()) }),
    }
}

/// The result of `op` for the reply `reply`. Only a completion can fail
/// here; every other member has its default.
pub open spec fn normalized(op: Operation, reply: Tree) -> Result<ResultView, Failure> {
    match op {
        Operation::CheckInferenceStatus => Ok(ResultView::Status(inference_status())),
        Operation::CheckBackendStatus => Ok(ResultView::Status(backend_status(reply))),
        Operation::ListFolderFiles => Ok(ResultView::FolderFiles(reply)),
        Operation::ProcessFolderForTags => Ok(ResultView::Folder(folder_view(reply))),
        Operation::ProcessFileForTags => Ok(ResultView::Tags(tag_view(reply))),
        Operation::SendPrompt => match completion(reply) {
            Ok(text) => Ok(ResultView::Prompt(text)),
            Err(failure) => Err(failure),
        },
    }
}

/// The view of what a normalizer hands back.
pub open spec fn outcome_view(r: Result<OperationResult, BridgeError>) -> Result<
    ResultView,
    Failure,
> {
    match r {
        Ok(result) => Ok(result@),
        Err(e) => Err(e@),
    }
}

/// The truth value under `name`; `false` where there is none.
pub fn read_flag(reply: &Json, name: &str) -> (r: bool)
    ensures
        r == flag(reply@, name@),
{
    match reply.get(name) {
        Some(value) => match value.as_bool() {
            Some(b) => b,
            None => false,
        },
        None => false,
    }
}

/// The text under `name`; nothing where there is none.
pub fn read_text(reply: &Json, name: &str) -> (r: Option<String>)
    ensures
        r.deep_view() == optional_text(reply@, name@),
{
    match reply.get(name) {
        Some(value) => match value.as_str() {
            Some(text) => Some(text.clone()),
            None => None,
        },
        None => None,
    }
}

/// The elements of the array under `name`; none where there is no array.
pub fn read_records(reply: &Json, name: &str) -> (r: Vec<Json>)
    ensures
        trees(r@) == records(reply@, name@),
{
    let mut out: Vec<Json> = Vec::new();
    match reply.get(name) {
        Some(value) => match value.as_array() {
            Some(items) => {
                let mut i: usize = 0;
                while i < items.len()
                    invariant
                        i <= items.len(),
                        out.len() == i,
                        forall|k: int| 0 <= k < i ==> (#[trigger] out[k])@ == items[k]@,
                    decreases items.len() - i,
                {
                    out.push(items[i].clone());
                    i += 1;
                }
            },
            None => {},
        },
        None => {},
    }
    out
}

/// The value under `name`, whatever it is; `null` where there is none.
pub fn read_record(reply: &Json, name: &str) -> (r: Json)
    ensures
        r@ == record(reply@, name@),
{
    match reply.get(name) {
        Some(value) => value.clone(),
        None => Json::Null,
    }
}

/// The strings among `items`, in their order. What is no string is left out.
pub fn read_texts(items: &Vec<Json>) -> (r: Vec<String>)
    ensures
        r.deep_view() == texts(trees(items@)),
{
    let ghost all = trees(items@);
    let ghost pick = |item: Tree| item.text();
    let mut out: Vec<String> = Vec::new();
    let mut i: usize = 0;
    while i < items.len()
        invariant
            i <= items.len(),
            all == trees(items@),
            pick == |item: Tree| item.text(),
            out.deep_view() == all.take(i as int).filter_map(pick),
        decreases items.len() - i,
    {
        proof {
            all.lemma_filter_map_take_succ(pick, i as int);
        }
        match items[i].as_str() {
            Some(text) => out.push(text.clone()),
            None => {},
        }
        i += 1;
    }
    assert(all.take(items.len() as int) == all);
    out
}

/// The tags under `tags`; none where there is no array.
fn read_tags(reply: &Json) -> (r: Vec<String>)
    ensures
        r.deep_view() == texts(records(reply@, "tags"@)),
{
    match reply.get("tags") {
        Some(value) => match value.as_array() {
            Some(items) => read_texts(items),
            None => Vec::new(),
        },
        None => Vec::new(),
    }
}

/// The status that a reply of the backend's health endpoint stands for.
pub fn status_of_backend(reply: &Json) -> (r: StatusResult)
    ensures
        r@ == backend_status(reply@),
{
    let dependency = read_flag(reply, "ollama_connected");
    let error_message = if dependency {
        None
    } else {
        Some(String::from_str("Ollama is not running. Please start Ollama and try again."))
    };
    StatusResult { connected: true, dependency_connected: dependency, error_message }
}

/// The status that a reply of the inference server stands for.
pub fn status_of_inference() -> (r: StatusResult)
    ensures
        r@ == inference_status(),
{
    StatusResult { connected: true, dependency_connected: true, error_message: None }
}

/// The tags that a reply of the backend holds for one file.
pub fn tags_of(reply: &Json) -> (r: TagResult)
    ensures
        r@ == tag_view(reply@),
{
    TagResult {
        success: read_flag(reply, "success"),
        tags: read_tags(reply),
        error: read_text(reply, "error"),
        file_type: read_text(reply, "file_type"),
        model_used: read_text(reply, "model_used"),
    }
}

/// What a reply of the backend reports of a folder.
pub fn folder_of(reply: &Json) -> (r: FolderResult)
    ensures
        r@ == folder_view(reply@),
{
    FolderResult {
        success: read_flag(reply, "success"),
        error: read_text(reply, "error"),
        results: read_records(reply, "results"),
        summary: read_record(reply, "summary"),
        folder_path: read_text(reply, "folder_path"),
        message: read_text(reply, "message"),
    }
}

/// The text that the model completed a prompt with.
pub fn completion_of(reply: &Json) -> (r: Result<String, BridgeError>)
    ensures
        completion(reply@) == match r {
            Ok(text) => Ok::<Seq<char>, Failure>(text@),
            Err(e) => Err::<Seq<char>, Failure>(e@),
        },
{
    match read_text(reply, "response") {
        Some(text) => Ok(text),
        None => {
            let mut message = String::from_str("Failed to parse response: ");
            message.append("no text under `response`");
            Err(BridgeError::MalformedResponse { message })
        },
    }
}

/// The result of `op` for the reply `reply`.
pub fn normalize(op: Operation, reply: Json) -> (r: Result<OperationResult, BridgeError>)
    ensures
        outcome_view(r) == normalized(op, reply@),
{
    match op {
        Operation::CheckInferenceStatus => Ok(OperationResult::Status(status_of_inference())),
        Operation::CheckBackendStatus => Ok(OperationResult::Status(status_of_backend(&reply))),
        Operation::ListFolderFiles => Ok(OperationResult::FolderFiles(reply)),
        Operation::ProcessFolderForTags => Ok(OperationResult::Folder(folder_of(&reply))),
        Operation::ProcessFileForTags => Ok(OperationResult::Tags(tags_of(&reply))),
        Operation::SendPrompt => match completion_of(&reply) {
            Ok(text) => Ok(OperationResult::Prompt(text)),
            Err(e) => Err(e),
        },
    }
}

} // verus!

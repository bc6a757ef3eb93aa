//! From what came of sending a request to what the caller is told.
//!
//! The caller of this module sends the request and reports what happened as a
//! `Transport`. Every path from there ends in a result or in a `BridgeError`.

use crate::error::{BridgeError, Failure};
use crate::json::{parse, parsed, Json, Tree};
use crate::operation::{target_of, Operation, Target};
use crate::reply::{
    completion_of, folder_of, malformed_message, normalize, normalized, outcome_view,
    status_of_backend, status_of_inference, tags_of, FolderResult, OperationResult, ResultView,
    StatusResult, StatusView, TagResult,
};
use crate::text::{decimal, decimal_text};
use vstd::prelude::*;

verus! {

/// What came of sending one request.
#[derive(Clone, Debug, PartialEq, Eq)]
pub enum Transport {
    /// No reply: the connection failed, the time ran out, or the transport
    /// broke. The text is the transport's own account of it.
    Failed(String),
    /// A reply, with whatever status and body.
    Replied { status: u16, body: Vec<u8> },
}

/// The mathematical model of a `Transport`.
pub enum TransportView {
    Failed(Seq<char>),
    Replied { status: u16, body: Seq<u8> },
}

impl View for Transport {
    type V = TransportView;

    open spec fn view(&self) -> TransportView {
        match self {
            Transport::Failed(reason) => TransportView::Failed(reason@),
            Transport::Replied { status, body } => TransportView::Replied {
                status: *status,
                body: body@,
            },
        }
    }
}

/// Whether a status reports success: 200 to 299.
pub open spec fn is_success(status: u16) -> bool {
    200 <= status <= 299
}

/// What the caller is told of a request that got no reply.
pub open spec fn connection_message(reason: Seq<char>) -> Seq<char> {
    "Request failed: "@ + reason
}

/// What the caller is told of a reply with a status that is no success.
pub open spec fn upstream_message(target: Target, status: u16) -> Seq<char> {
    match target {
        Target::Backend => "Backend error: "@ + decimal(status as nat),
        Target::InferenceServer => "Inference server error: "@ + decimal(status as nat),
    }
}

/// The failure that a reply with the status `status` stands for, if it is
/// one. The body has no part in it.
pub open spec fn refusal(op: Operation, status: u16) -> Option<Failure> {
    if is_success(status) {
        None
    } else {
        Some(
            Failure::UpstreamError { status, message: upstream_message(target_of(op), status) },
        )
    }
}

/// The reply to read, given what the parser made of a body.
pub open spec fn accepted(document: Result<Tree, Seq<char>>) -> Result<Tree, Failure> {
    match document {
        Ok(reply) => Ok(reply),
        Err(reason) => Err(Failure::MalformedResponse { message: malformed_message(reason) }),
    }
}

/// The JSON that `op` got for an answer, or the failure that stands in its
/// place: no reply, a status that is no success, or a body that is no JSON.
/// The body is parsed only under a status of success.
pub open spec fn received(op: Operation, transport: TransportView) -> Result<Tree, Failure> {
    match transport {
        TransportView::Failed(reason) => Err(
            Failure::ConnectionFailure { message: connection_message(reason) },
        ),
        TransportView::Replied { status, body } => match refusal(op, status) {
            Some(failure) => Err(failure),
            None => accepted(parsed(body)),
        },
    }
}

/// What the caller of `op` is told, given what came of sending its request.
pub open spec fn outcome(op: Operation, transport: TransportView) -> Result<ResultView, Failure> {
    match received(op, transport) {
        Ok(reply) => normalized(op, reply),
        Err(failure) => Err(failure),
    }
}

/// The view of what the parser hands back.
pub open spec fn document_view(document: Result<Json, String>) -> Result<Tree, Seq<char>> {
    match document {
        Ok(reply) => Ok(reply@),
        Err(reason) => Err(reason@),
    }
}

/// The view of a reply or the failure in its place.
pub open spec fn reply_view(r: Result<Json, BridgeError>) -> Result<Tree, Failure> {
    match r {
        Ok(reply) => Ok(reply@),
        Err(e) => Err(e@),
    }
}

/// Whether a status reports success.
pub fn status_is_success(status: u16) -> (r: bool)
    ensures
        r == is_success(status),
{
    200 <= status && status <= 299
}

/// The failure that a reply with the status `status` stands for, if it is one.
pub fn refuse(op: Operation, status: u16) -> (r: Option<BridgeError>)
    ensures
        match r {
            Some(e) => refusal(op, status) == Some(e@),
            None => refusal(op, status) is None,
        },
{
    if status_is_success(status) {
        None
    } else {
        let mut message = match op.target() {
            Target::Backend => String::from_str("Backend error: "),
            Target::InferenceServer => String::from_str("Inference server error: "),
        };
        let digits = decimal_text(status);
        message.append(digits.as_str());
        Some(BridgeError::UpstreamError { status, message })
    }
}

/// The reply to read, given what the parser made of a body: the document,
/// or the failure that carries the parser's reason.
pub fn accept(document: Result<Json, String>) -> (r: Result<Json, BridgeError>)
    ensures
        reply_view(r) == accepted(document_view(document)),
{
    match document {
        Ok(reply) => Ok(reply),
        Err(reason) => {
            let mut message = String::from_str("Failed to parse response: ");
            message.append(reason.as_str());
            Err(BridgeError::MalformedResponse { message })
        },
    }
}

/// The JSON that `op` got for an answer, or the failure that stands in its
/// place. A body under a status that is no success is not parsed.
pub fn receive(op: Operation, transport: &Transport) -> (r: Result<Json, BridgeError>)
    ensures
        reply_view(r) == received(op, transport@),
{
    match transport {
        Transport::Failed(reason) => {
            let mut message = String::from_str("Request failed: ");
            message.append(reason.as_str());
            Err(BridgeError::ConnectionFailure { message })
        },
        Transport::Replied { status, body } => match refuse(op, *status) {
            Some(e) => Err(e),
            None => accept(parse(body.as_slice())),
        },
    }
}

/// What the caller of `op` is told, given what came of sending its request:
/// the result, or else the one failure that stands in its place.
pub fn complete(op: Operation, transport: &Transport) -> (r: Result<OperationResult, BridgeError>)
    ensures
        outcome_view(r) == outcome(op, transport@),
{
    match receive(op, transport) {
        Ok(reply) => normalize(op, reply),
        Err(e) => Err(e),
    }
}

/// Whether the inference server is up.
pub fn check_inference_status(transport: &Transport) -> (r: Result<StatusResult, BridgeError>)
    ensures
        outcome(Operation::CheckInferenceStatus, transport@) == match r {
            Ok(status) => Ok::<ResultView, Failure>(ResultView::Status(status@)),
            Err(e) => Err::<ResultView, Failure>(e@),
        },
{
    match receive(Operation::CheckInferenceStatus, transport) {
        Ok(_) => Ok(status_of_inference()),
        Err(e) => Err(e),
    }
}

/// Whether the backend is up, and whether it reaches the inference server.
pub fn check_backend_status(transport: &Transport) -> (r: Result<StatusResult, BridgeError>)
    ensures
        outcome(Operation::CheckBackendStatus, transport@) == match r {
            Ok(status) => Ok::<ResultView, Failure>(ResultView::Status(status@)),
            Err(e) => Err::<ResultView, Failure>(e@),
        },
{
    match receive(Operation::CheckBackendStatus, transport) {
        Ok(reply) => Ok(status_of_backend(&reply)),
        Err(e) => Err(e),
    }
}

/// The supported files of a folder, as the backend lists them.
pub fn get_folder_files(transport: &Transport) -> (r: Result<Json, BridgeError>)
    ensures
        outcome(Operation::ListFolderFiles, transport@) == match r {
            Ok(listing) => Ok::<ResultView, Failure>(ResultView::FolderFiles(listing@)),
            Err(e) => Err::<ResultView, Failure>(e@),
        },
{
    receive(Operation::ListFolderFiles, transport)
}

/// The tags that the backend found for the files of a folder.
pub fn process_folder_for_tags(transport: &Transport) -> (r: Result<FolderResult, BridgeError>)
    ensures
        outcome(Operation::ProcessFolderForTags, transport@) == match r {
            Ok(folder) => Ok::<ResultView, Failure>(ResultView::Folder(folder@)),
            Err(e) => Err::<ResultView, Failure>(e@),
        },
{
    match receive(Operation::ProcessFolderForTags, transport) {
        Ok(reply) => Ok(folder_of(&reply)),
        Err(e) => Err(e),
    }
}

/// The tags that the backend found for one file.
pub fn process_file_for_tags(transport: &Transport) -> (r: Result<TagResult, BridgeError>)
    ensures
        outcome(Operation::ProcessFileForTags, transport@) == match r {
            Ok(tags) => Ok::<ResultView, Failure>(ResultView::Tags(tags@)),
            Err(e) => Err::<ResultView, Failure>(e@),
        },
{
    match receive(Operation::ProcessFileForTags, transport) {
        Ok(reply) => Ok(tags_of(&reply)),
        Err(e) => Err(e),
    }
}

/// The text that the model completed a prompt with.
pub fn send_prompt(transport: &Transport) -> (r: Result<String, BridgeError>)
    ensures
        outcome(Operation::SendPrompt, transport@) == match r {
            Ok(text) => Ok::<ResultView, Failure>(ResultView::Prompt(text@)),
            Err(e) => Err::<ResultView, Failure>(e@),
        },
{
    match receive(Operation::SendPrompt, transport) {
        Ok(reply) => completion_of(&reply),
        Err(e) => Err(e),
    }
}

/// What is said of a service whose status could not be had.
pub open spec fn unreachable_message(target: Target, failure: Failure) -> Seq<char> {
    match failure {
        Failure::ConnectionFailure { .. } => match target {
            Target::Backend => "Cannot connect to backend. Make sure the Python API is running."@,
            Target::InferenceServer =>
                "Cannot connect to the inference server. Make sure Ollama is running."@,
        },
        Failure::MalformedResponse { .. } => match target {
            Target::Backend => "Backend responded but returned invalid data."@,
            Target::InferenceServer => "Inference server responded but returned invalid data."@,
        },
        Failure::UpstreamError { message, .. } => message,
        Failure::ValidationError { message } => message,
    }
}

/// The status to show for a probe of `target`. A probe that failed shows a
/// service that is down, with the reason in place of the failure.
pub open spec fn reported(target: Target, probe: Result<StatusView, Failure>) -> StatusView {
    match probe {
        Ok(status) => status,
        Err(failure) => StatusView {
            connected: false,
            dependency_connected: false,
            error_message: Some(unreachable_message(target, failure)),
        },
    }
}

/// The view of a probe's result.
pub open spec fn probe_view(probe: Result<StatusResult, BridgeError>) -> Result<
    StatusView,
    Failure,
> {
    match probe {
        Ok(status) => Ok(status@),
        Err(e) => Err(e@),
    }
}

/// The status to show for a probe of `target`, whether or not it failed.
pub fn status_report(target: Target, probe: Result<StatusResult, BridgeError>) -> (r:
    StatusResult)
    ensures
        r@ == reported(target, probe_view(probe)),
{
    match probe {
        Ok(status) => status,
        Err(e) => {
            let text = match e {
                BridgeError::ConnectionFailure { .. } => match target {
                    Target::Backend => String::from_str(
                        "Cannot connect to backend. Make sure the Python API is running.",
                    ),
                    Target::InferenceServer => String::from_str(
                        "Cannot connect to the inference server. Make sure Ollama is running.",
                    ),
                },
                BridgeError::MalformedResponse { .. } => match target {
                    Target::Backend => String::from_str(
                        "Backend responded but returned invalid data.",
                    ),
                    Target::InferenceServer => String::from_str(
                        "Inference server responded but returned invalid data.",
                    ),
                },
                BridgeError::UpstreamError { message, .. } => message,
                BridgeError::ValidationError { message } => message,
            };
            StatusResult {
                connected: false,
                dependency_connected: false,
                error_message: Some(text),
            }
        },
    }
}

} // verus!

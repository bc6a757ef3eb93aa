//! From an operation and its arguments to the request that is sent.

use crate::error::{BridgeError, Failure};
use crate::json::{Field, Json, Tree};
use crate::operation::{method_of, timeout_of, url_of, Method, Operation};
use crate::text::{trim, trimmed};
use vstd::prelude::*;

verus! {

/// What a caller hands over with an operation. An argument that the
/// operation does not read is ignored.
#[derive(Clone, Debug, PartialEq, Eq)]
pub struct Arguments {
    pub folder_path: Option<String>,
    pub file_path: Option<String>,
    pub context: Option<String>,
    pub model: Option<String>,
    pub prompt: Option<String>,
}

/// The mathematical model of `Arguments`.
pub struct ArgumentsView {
    pub folder_path: Option<Seq<char>>,
    pub file_path: Option<Seq<char>>,
    pub context: Option<Seq<char>>,
    pub model: Option<Seq<char>>,
    pub prompt: Option<Seq<char>>,
}

impl View for Arguments {
    type V = ArgumentsView;

    open spec fn view(&self) -> ArgumentsView {
        ArgumentsView {
            folder_path: self.folder_path.deep_view(),
            file_path: self.file_path.deep_view(),
            context: self.context.deep_view(),
            model: self.model.deep_view(),
            prompt: self.prompt.deep_view(),
        }
    }
}

impl Default for Arguments {
    /// No argument at all.
    fn default() -> (r: Arguments)
        ensures
            r@ == (ArgumentsView {
                folder_path: None,
                file_path: None,
                context: None,
                model: None,
                prompt: None,
            }),
    {
        Arguments { folder_path: None, file_path: None, context: None, model: None, prompt: None }
    }
}

/// One HTTP request, ready to be sent.
#[derive(Clone, Debug, PartialEq, Eq)]
pub struct Request {
    pub operation: Operation,
    pub method: Method,
    pub url: String,
    pub timeout_secs: u64,
    /// The JSON body; a request without one carries no body at all.
    pub body: Option<Json>,
}

/// The mathematical model of a `Request`.
pub struct RequestView {
    pub operation: Operation,
    pub method: Method,
    pub url: Seq<char>,
    pub timeout_secs: nat,
    pub body: Option<Tree>,
}

impl View for Request {
    type V = RequestView;

    open spec fn view(&self) -> RequestView {
        RequestView {
            operation: self.operation,
            method: self.method,
            url: self.url@,
            timeout_secs: self.timeout_secs as nat,
            body: match self.body {
                Some(body) => Some(body@),
                None => None,
            },
        }
    }
}

/// Whether a required argument was given: it is there and it is not empty.
pub open spec fn given(argument: Option<Seq<char>>) -> bool {
    argument matches Some(value) && value.len() > 0
}

/// The name of the first required argument of `op` that was not given.
pub open spec fn missing_argument(op: Operation, args: ArgumentsView) -> Option<Seq<char>> {
    match op {
        Operation::CheckInferenceStatus | Operation::CheckBackendStatus => None,
        Operation::ListFolderFiles | Operation::ProcessFolderForTags => if given(
            args.folder_path,
        ) {
            None
        } else {
            Some("folder_path"@)
        },
        Operation::ProcessFileForTags => if given(args.file_path) {
            None
        } else {
            Some("file_path"@)
        },
        Operation::SendPrompt => if !given(args.model) {
            Some("model"@)
        } else if !given(args.prompt) {
            Some("prompt"@)
        } else {
            None
        },
    }
}

/// What the caller is told when the argument called `name` was not given.
pub open spec fn validation_message(name: Seq<char>) -> Seq<char> {
    "Missing required argument: "@ + name
}

/// Whether an optional text is sent: it is there, and something is left of
/// it once it is trimmed.
pub open spec fn is_sent(optional: Option<Seq<char>>) -> bool {
    optional matches Some(value) && trimmed(value).len() > 0
}

/// The member that holds the text `value` under `name`.
pub open spec fn text_field(name: Seq<char>, value: Seq<char>) -> Field {
    Field { name, value: Tree::Text(value) }
}

/// The members of the body of `op`. An optional argument is sent trimmed;
/// one that is not sent has no member, which the receiver can tell from an
/// empty text.
pub open spec fn members_of(op: Operation, args: ArgumentsView) -> Seq<Field>
    recommends
        missing_argument(op, args) is None,
{
    match op {
        Operation::CheckInferenceStatus | Operation::CheckBackendStatus => seq![],
        Operation::ListFolderFiles | Operation::ProcessFolderForTags => seq![
            text_field("folder_path"@, args.folder_path->0),
        ],
        Operation::ProcessFileForTags => if is_sent(args.context) {
            seq![
                text_field("file_path"@, args.file_path->0),
                text_field("context"@, trimmed(args.context->0)),
            ]
        } else {
            seq![text_field("file_path"@, args.file_path->0)]
        },
        Operation::SendPrompt => seq![
            text_field("model"@, args.model->0),
            text_field("prompt"@, args.prompt->0),
            Field { name: "stream"@, value: Tree::Bool(false) },
        ],
    }
}

/// The body of the request for `op`: a JSON object where something is
/// posted, nothing where the operation only reads.
pub open spec fn payload_of(op: Operation, args: ArgumentsView) -> Option<Tree>
    recommends
        missing_argument(op, args) is None,
{
    match method_of(op) {
        Method::Get => None,
        Method::Post => Some(Tree::Object(members_of(op, args))),
    }
}

/// The request for `op` with the arguments `args`.
pub open spec fn request_of(op: Operation, args: ArgumentsView) -> RequestView
    recommends
        missing_argument(op, args) is None,
{
    RequestView {
        operation: op,
        method: method_of(op),
        url: url_of(op),
        timeout_secs: timeout_of(op),
        body: payload_of(op, args),
    }
}

/// The argument, where it was given; else the failure that names it.
fn required(argument: &Option<String>, name: &str) -> (r: Result<String, BridgeError>)
    ensures
        match r {
            Ok(value) => given(argument.deep_view()) && Some(value@) == argument.deep_view(),
            Err(e) => !given(argument.deep_view()) && e@ == (Failure::ValidationError {
                message: validation_message(name@),
            }),
        },
{
    match argument {
        Some(value) => {
            if !value.as_str().is_empty() {
                return Ok(value.clone());
            }
        },
        None => {},
    }
    let mut message = String::from_str("Missing required argument: ");
    message.append(name);
    Err(BridgeError::ValidationError { message })
}

/// The member that holds the text `value` under `name`.
fn text_member(name: &str, value: String) -> (r: (String, Json))
    ensures
        r.0@ == name@,
        r.1@ == Tree::Text(value@),
{
    (String::from_str(name), Json::Text(value))
}

/// The object whose members are `members`, in their order.
fn object(members: Vec<(String, Json)>) -> (r: Json)
    ensures
        r@ == Tree::Object(
            Seq::new(
                members@.len(),
                |i: int| Field { name: members@[i].0@, value: members@[i].1@ },
            ),
        ),
{
    let r = Json::Object(members);
    assert(r@->Object_0 =~= Seq::new(
        members@.len(),
        |i: int| Field { name: members@[i].0@, value: members@[i].1@ },
    ));
    r
}

/// The body of the request for `op`, or the failure that names the first
/// required argument that was not given.
pub fn build_payload(op: Operation, args: &Arguments) -> (r: Result<Option<Json>, BridgeError>)
    ensures
        match missing_argument(op, args@) {
            Some(name) => r matches Err(e) && e@ == (Failure::ValidationError {
                message: validation_message(name),
            }),
            None => r matches Ok(body) && match body {
                Some(body) => payload_of(op, args@) == Some(body@),
                None => payload_of(op, args@) is None,
            },
        },
{
    match op {
        Operation::CheckInferenceStatus | Operation::CheckBackendStatus => Ok(None),
        Operation::ListFolderFiles | Operation::ProcessFolderForTags => {
            match required(&args.folder_path, "folder_path") {
                Ok(path) => {
                    let members = vec![text_member("folder_path", path)];
                    let body = object(members);
                    assert(body@->Object_0 =~= members_of(op, args@));
                    Ok(Some(body))
                },
                Err(e) => Err(e),
            }
        },
        Operation::ProcessFileForTags => {
            match required(&args.file_path, "file_path") {
                Ok(path) => {
                    let mut members = vec![text_member("file_path", path)];
                    match &args.context {
                        Some(context) => {
                            let kept = trim(context.as_str());
                            if !kept.as_str().is_empty() {
                                members.push(text_member("context", kept));
                            }
                        },
                        None => {},
                    }
                    let body = object(members);
                    assert(body@->Object_0 =~= members_of(op, args@));
                    Ok(Some(body))
                },
                Err(e) => Err(e),
            }
        },
        Operation::SendPrompt => {
            match required(&args.model, "model") {
                Ok(model) => match required(&args.prompt, "prompt") {
                    Ok(prompt) => {
                        let members = vec![
                            text_member("model", model),
                            text_member("prompt", prompt),
                            (String::from_str("stream"), Json::Bool(false)),
                        ];
                        let body = object(members);
                        assert(body@->Object_0 =~= members_of(op, args@));
                        Ok(Some(body))
                    },
                    Err(e) => Err(e),
                },
                Err(e) => Err(e),
            }
        },
    }
}

/// The request for `op`, or the failure that names the first required
/// argument that was not given. Whether a path exists is not looked at.
pub fn build_request(op: Operation, args: &Arguments) -> (r: Result<Request, BridgeError>)
    ensures
        match missing_argument(op, args@) {
            Some(name) => r matches Err(e) && e@ == (Failure::ValidationError {
                message: validation_message(name),
            }),
            None => r matches Ok(request) && request@ == request_of(op, args@),
        },
{
    match build_payload(op, args) {
        Ok(body) => Ok(
            Request {
                operation: op,
                method: op.method(),
                url: op.url(),
                timeout_secs: op.timeout_secs(),
                body,
            },
        ),
        Err(e) => Err(e),
    }
}

} // verus!

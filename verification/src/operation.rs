//! The operations of the bridge, and the one table that says where each goes
//! and how long it may take.

use vstd::prelude::*;

verus! {

/// What a caller can ask of the bridge.
#[derive(Clone, Copy, Debug, PartialEq, Eq, Hash, Structural)]
pub enum Operation {
    CheckInferenceStatus,
    CheckBackendStatus,
    ListFolderFiles,
    ProcessFolderForTags,
    ProcessFileForTags,
    SendPrompt,
}

/// The two local services.
#[derive(Clone, Copy, Debug, PartialEq, Eq, Hash, Structural)]
pub enum Target {
    InferenceServer,
    Backend,
}

/// How a request is made.
#[derive(Clone, Copy, Debug, PartialEq, Eq, Hash, Structural)]
pub enum Method {
    Get,
    Post,
}

/// The service that answers `op`.
pub open spec fn target_of(op: Operation) -> Target {
    match op {
        Operation::CheckInferenceStatus | Operation::SendPrompt => Target::InferenceServer,
        _ => Target::Backend,
    }
}

/// Liveness probes are read with GET; every other operation posts a body.
pub open spec fn method_of(op: Operation) -> Method {
    match op {
        Operation::CheckInferenceStatus | Operation::CheckBackendStatus => Method::Get,
        _ => Method::Post,
    }
}

/// The seconds after which `op` is given up: a few for a probe, some tens for
/// a listing or a completion, minutes where the backend runs a model over one
/// file or over a whole folder.
pub open spec fn timeout_of(op: Operation) -> nat {
    match op {
        Operation::CheckInferenceStatus => 5,
        Operation::CheckBackendStatus => 5,
        Operation::ListFolderFiles => 30,
        Operation::SendPrompt => 30,
        Operation::ProcessFileForTags => 360,
        Operation::ProcessFolderForTags => 600,
    }
}

/// Host and port of a service.
pub open spec fn address_of(target: Target) -> Seq<char> {
    match target {
        Target::InferenceServer => "127.0.0.1:11434"@,
        Target::Backend => "127.0.0.1:5000"@,
    }
}

/// The path of the endpoint of `op` on its service.
pub open spec fn path_of(op: Operation) -> Seq<char> {
    match op {
        Operation::CheckInferenceStatus => "/api/tags"@,
        Operation::CheckBackendStatus => "/api/health"@,
        Operation::ListFolderFiles => "/api/get-folder-files"@,
        Operation::ProcessFolderForTags => "/api/process-folder"@,
        Operation::ProcessFileForTags => "/api/process-file"@,
        Operation::SendPrompt => "/api/generate"@,
    }
}

/// The address that a request for `op` is sent to: plain HTTP, no TLS.
pub open spec fn url_of(op: Operation) -> Seq<char> {
    "http://"@ + address_of(target_of(op)) + path_of(op)
}

impl Target {
    /// Host and port of the service.
    pub fn address(&self) -> (r: &'static str)
        ensures
            r@ == address_of(*self),
    {
        match self {
            Target::InferenceServer => "127.0.0.1:11434",
            Target::Backend => "127.0.0.1:5000",
        }
    }
}

impl Operation {
    /// The service that answers the operation.
    pub fn target(&self) -> (r: Target)
        ensures
            r == target_of(*self),
    {
        match self {
            Operation::CheckInferenceStatus | Operation::SendPrompt => Target::InferenceServer,
            _ => Target::Backend,
        }
    }

    /// How the request is made.
    pub fn method(&self) -> (r: Method)
        ensures
            r == method_of(*self),
    {
        match self {
            Operation::CheckInferenceStatus | Operation::CheckBackendStatus => Method::Get,
            _ => Method::Post,
        }
    }

    /// The seconds after which the request is given up.
    pub fn timeout_secs(&self) -> (r: u64)
        ensures
            r == timeout_of(*self),
    {
        match self {
            Operation::CheckInferenceStatus => 5,
            Operation::CheckBackendStatus => 5,
            Operation::ListFolderFiles => 30,
            Operation::SendPrompt => 30,
            Operation::ProcessFileForTags => 360,
            Operation::ProcessFolderForTags => 600,
        }
    }

    /// The path of the endpoint on its service.
    pub fn path(&self) -> (r: &'static str)
        ensures
            r@ == path_of(*self),
    {
        match self {
            Operation::CheckInferenceStatus => "/api/tags",
            Operation::CheckBackendStatus => "/api/health",
            Operation::ListFolderFiles => "/api/get-folder-files",
            Operation::ProcessFolderForTags => "/api/process-folder",
            Operation::ProcessFileForTags => "/api/process-file",
            Operation::SendPrompt => "/api/generate",
        }
    }

    /// The address that the request is sent to.
    pub fn url(&self) -> (r: String)
        ensures
            r@ == url_of(*self),
    {
        let mut r = String::from_str("http://");
        r.append(self.target().address());
        r.append(self.path());
        r
    }
}

} // verus!

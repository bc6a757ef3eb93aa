//! What holds of the bridge as a whole, proved from the definitions that the
//! contracts of its functions are stated over.

use crate::bridge::{
    connection_message, is_success, outcome, reported, upstream_message, TransportView,
};
use crate::error::{ErrorKind, Failure};
use crate::json::{find, parsed, Tree};
use crate::operation::{method_of, target_of, timeout_of, Method, Operation};
use crate::reply::{
    backend_status, dependency_down, flag, folder_view, normalized, optional_text, record,
    records, tag_view, texts, FolderView, ResultView, StatusView, TagView,
};
use crate::request::{
    given, members_of, missing_argument, payload_of, text_field, ArgumentsView,
};
use crate::text::{is_blank, lemma_trimmed, trimmed};
use vstd::prelude::*;

verus! {

/// Whether a reply came under a status of success.
pub open spec fn replied_with_success(transport: TransportView) -> bool {
    match transport {
        TransportView::Replied { status, .. } => is_success(status),
        TransportView::Failed(_) => false,
    }
}

/// Whether a reply came under a status that is no success.
pub open spec fn replied_with_error(transport: TransportView) -> bool {
    match transport {
        TransportView::Replied { status, .. } => !is_success(status),
        TransportView::Failed(_) => false,
    }
}

/// Whether a reply of success came whose body is JSON of use to `op`.
pub open spec fn replied_with_result(op: Operation, transport: TransportView) -> bool {
    match transport {
        TransportView::Replied { status, body } => is_success(status) && match parsed(body) {
            Ok(reply) => normalized(op, reply) is Ok,
            Err(_) => false,
        },
        TransportView::Failed(_) => false,
    }
}

/// An operation ends in exactly one of four ways, and what came of sending
/// its request says in which: a result, where a reply of success held JSON
/// of use; a connection failure, where there was no reply; an upstream
/// error, where the status was no success; a malformed response, where the
/// body under a status of success was of no use. No other failure comes
/// from a request that was sent.
pub proof fn lemma_one_outcome(op: Operation, transport: TransportView)
    ensures
        outcome(op, transport) is Ok <==> replied_with_result(op, transport),
        outcome(op, transport) matches Err(failure) ==> {
            &&& failure.kind() == ErrorKind::ConnectionFailure <==> transport is Failed
            &&& failure.kind() == ErrorKind::UpstreamError <==> replied_with_error(transport)
            &&& failure.kind() == ErrorKind::MalformedResponse <==> replied_with_success(
                transport,
            )
            &&& failure.kind() != ErrorKind::ValidationError
        },
{
}

/// A member that is absent, or of another type than the one that is read,
/// has its default: `false`, no text, no elements, `null`.
pub proof fn lemma_member_defaults(reply: Tree, name: Seq<char>)
    ensures
        reply.member(name) is None ==> {
            &&& !flag(reply, name)
            &&& optional_text(reply, name) is None
            &&& records(reply, name) == Seq::<Tree>::empty()
            &&& record(reply, name) == Tree::Null
        },
        reply.member(name) matches Some(value) && value.truth() is None ==> !flag(reply, name),
        reply.member(name) matches Some(value) && value.text() is None ==> optional_text(
            reply,
            name,
        ) is None,
        reply.member(name) matches Some(value) && value.items() is None ==> records(reply, name)
            == Seq::<Tree>::empty(),
{
}

/// A reply that holds none of the members that are read yields the result
/// in which each has its default.
pub proof fn lemma_empty_reply_yields_defaults(reply: Tree)
    requires
        forall|name: Seq<char>| reply.member(name) is None,
    ensures
        tag_view(reply) == (TagView {
            success: false,
            tags: seq![],
            error: None,
            file_type: None,
            model_used: None,
        }),
        folder_view(reply) == (FolderView {
            success: false,
            error: None,
            results: seq![],
            summary: Tree::Null,
            folder_path: None,
            message: None,
        }),
        backend_status(reply) == (StatusView {
            connected: true,
            dependency_connected: false,
            error_message: Some(dependency_down()),
        }),
{
}

/// Whatever a reply of success holds or lacks, it yields a result and no
/// failure, as long as it is JSON. A completion is the one exception: it is
/// the text under `response`, and fails without it.
pub proof fn lemma_reply_of_success_yields_result(
    op: Operation,
    status: u16,
    body: Seq<u8>,
    reply: Tree,
)
    requires
        is_success(status),
        parsed(body) == Ok::<Tree, Seq<char>>(reply),
        op != Operation::SendPrompt || optional_text(reply, "response"@) is Some,
    ensures
        outcome(op, TransportView::Replied { status, body }) == normalized(op, reply),
        outcome(op, TransportView::Replied { status, body }) is Ok,
{
}

/// A status that is no success yields an upstream error with that status,
/// whatever the body is.
pub proof fn lemma_error_status_ignores_body(op: Operation, status: u16, body: Seq<u8>)
    requires
        !is_success(status),
    ensures
        outcome(op, TransportView::Replied { status, body }) == Err::<ResultView, Failure>(
            Failure::UpstreamError { status, message: upstream_message(target_of(op), status) },
        ),
{
}

/// A request that got no reply, be it for a timeout or for a connection
/// that failed, yields a connection failure that carries the transport's
/// reason. This holds of every operation; a folder is given ten minutes.
pub proof fn lemma_no_reply_is_connection_failure(op: Operation, reason: Seq<char>)
    ensures
        outcome(op, TransportView::Failed(reason)) == Err::<ResultView, Failure>(
            Failure::ConnectionFailure { message: connection_message(reason) },
        ),
        timeout_of(Operation::ProcessFolderForTags) == 600,
{
}

/// A context that is absent, empty or all white space has no member in the
/// body of a request to tag a file: the body holds the path and no more.
pub proof fn lemma_blank_context_is_omitted(args: ArgumentsView)
    requires
        given(args.file_path),
        args.context matches Some(context) ==> is_blank(context),
    ensures
        missing_argument(Operation::ProcessFileForTags, args) is None,
        payload_of(Operation::ProcessFileForTags, args) == Some(
            Tree::Object(seq![text_field("file_path"@, args.file_path->0)]),
        ),
        payload_of(Operation::ProcessFileForTags, args)->0.member("context"@) is None,
{
    reveal_strlit("file_path");
    reveal_strlit("context");
    reveal_with_fuel(find, 2);
    if args.context is Some {
        lemma_trimmed(args.context->0);
    }
    let members = members_of(Operation::ProcessFileForTags, args);
    assert(members[0].name.len() != "context"@.len());
}

/// A context that holds more than white space is sent, without the white
/// space at its ends.
pub proof fn lemma_context_is_sent_trimmed(args: ArgumentsView)
    requires
        given(args.file_path),
        args.context matches Some(context) && !is_blank(context),
    ensures
        payload_of(Operation::ProcessFileForTags, args)->0.member("context"@) == Some(
            Tree::Text(trimmed(args.context->0)),
        ),
{
    lemma_trimmed(args.context->0);
    reveal_strlit("file_path");
    reveal_strlit("context");
    reveal_with_fuel(find, 2);
    let members = members_of(Operation::ProcessFileForTags, args);
    assert(members[0].name.len() != "context"@.len());
}

/// A probe carries no body, and every other operation carries one.
pub proof fn lemma_body_goes_with_post(op: Operation, args: ArgumentsView)
    ensures
        payload_of(op, args) is Some <==> method_of(op) == Method::Post,
        method_of(op) == Method::Get <==> (op == Operation::CheckInferenceStatus || op
            == Operation::CheckBackendStatus),
{
}

/// The strings of a list are kept in their order: those of a list that is
/// made of two parts are those of the first part, then those of the second.
pub proof fn lemma_texts_keep_order(front: Seq<Tree>, back: Seq<Tree>)
    ensures
        texts(front + back) == texts(front) + texts(back),
    decreases back.len(),
{
    if back.len() > 0 {
        assert((front + back).drop_last() =~= front + back.drop_last());
        lemma_texts_keep_order(front, back.drop_last());
    }
}

/// A list of one element has that element for its strings if it is a
/// string, and none if it is not.
pub proof fn lemma_texts_of_one(item: Tree)
    ensures
        texts(seq![item]) == match item {
            Tree::Text(text) => seq![text],
            _ => Seq::<Seq<char>>::empty(),
        },
{
    let one = seq![item];
    assert(texts(one.drop_last()) =~= Seq::<Seq<char>>::empty());
    assert(texts(one) =~= match item {
        Tree::Text(text) => seq![text],
        _ => Seq::<Seq<char>>::empty(),
    });
}

/// The status that is shown for a probe is coherent, whatever came of the
/// probe: nothing depends on a service that is down, and a message is there
/// unless all is well.
pub proof fn lemma_shown_status_is_coherent(op: Operation, transport: TransportView)
    requires
        op == Operation::CheckInferenceStatus || op == Operation::CheckBackendStatus,
    ensures
        reported(
            target_of(op),
            match outcome(op, transport) {
                Ok(ResultView::Status(status)) => Ok(status),
                Ok(_) => Err(Failure::MalformedResponse { message: seq![] }),
                Err(failure) => Err(failure),
            },
        ).coherent(),
        outcome(op, transport) matches Ok(result) ==> result is Status,
{
}

} // verus!

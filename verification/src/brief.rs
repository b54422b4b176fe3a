//! Where an author-confirmed writing brief may come from: a completed
//! author-room request of the project conversation, bound to this project,
//! target, selection and text, or a message of the chapter's own discussion.
use vstd::prelude::*;
use vstd::utf8::encode_utf8;
use crate::digest::{lower_hex, sha256_hex, sha256_of};
use crate::error::{CoreError, ErrorCode};
use crate::request::{ProjectBriefOrigin, SafeBriefInput};
use crate::retry::same_head;
use crate::vocab::{str_eq, DiscussionMessageRole, Head, ProjectAccess};

verus! {

broadcast use vstd::string::group_string_axioms;

/// A project-conversation brief is bound to this project identity, this
/// exact target head, this brief text and this selection scope.
/// `scope_json` is the serialized selection scope of the request.
pub open spec fn project_brief_bound(access: ProjectAccess, expected: Head, text: Seq<char>, origin: ProjectBriefOrigin, scope_json: Seq<u8>) -> bool {
    &&& origin.version@ == "project-conversation-brief.v1"@
    &&& origin.project_id@ == access.project_id@
    &&& origin.operation_namespace@ == access.operation_namespace@
    &&& origin.conversation_id@.len() > 0
    &&& origin.message_id@.len() > 0
    &&& same_head(origin.target, expected)
    &&& origin.text_hash@ == lower_hex(sha256_of(encode_utf8(text)))
    &&& origin.scope_hash@ == lower_hex(sha256_of(scope_json))
}

pub fn check_project_brief_binding(
    access: &ProjectAccess,
    expected: &Head,
    brief: &SafeBriefInput,
    origin: &ProjectBriefOrigin,
    scope_json: &[u8],
) -> (r: Result<(), CoreError>)
    ensures
        r is Ok <==> project_brief_bound(*access, *expected, brief.text@, *origin, scope_json@),
        r matches Err(e) ==> e.code == ErrorCode::InvalidSafeBrief,
{
    proof {
        reveal_strlit("project-conversation-brief.v1");
    }
    let text_hash = sha256_hex(brief.text.as_str().as_bytes());
    if !str_eq(origin.version.as_str(), "project-conversation-brief.v1")
        || !str_eq(origin.project_id.as_str(), access.project_id.as_str())
        || !str_eq(origin.operation_namespace.as_str(), access.operation_namespace.as_str())
        || origin.conversation_id.as_str().is_empty() || origin.message_id.as_str().is_empty()
        || !str_eq(origin.target.document_id.as_str(), expected.document_id.as_str())
        || !str_eq(origin.target.version.as_str(), expected.version.as_str())
        || !str_eq(origin.target.body_hash.as_str(), expected.body_hash.as_str())
        || !str_eq(origin.text_hash.as_str(), text_hash.as_str()) {
        return Err(CoreError::new(ErrorCode::InvalidSafeBrief, "The project conversation brief is bound to another project, target, or text."));
    }
    let scope_hash = sha256_hex(scope_json);
    if !str_eq(origin.scope_hash.as_str(), scope_hash.as_str()) {
        return Err(CoreError::new(ErrorCode::InvalidSafeBrief, "The project conversation brief is bound to another selection scope."));
    }
    Ok(())
}

/// The retained request a project brief names: its item kind and run status.
#[derive(Debug)]
pub struct BriefSource {
    pub item_kind: String,
    pub run_status: String,
}

pub open spec fn project_brief_source_ok(source: Option<BriefSource>, author_room: bool, same_conversation: bool) -> bool {
    source matches Some(s) && s.item_kind@ == "request"@ && s.run_status@ == "completed"@ && author_room && same_conversation
}

/// A project brief comes from a completed author-room request of the same
/// conversation. `author_room` and `same_conversation` say whether that
/// request's frozen context is author-room and belongs to the brief's
/// conversation.
pub fn check_project_brief_source(source: &Option<BriefSource>, author_room: bool, same_conversation: bool) -> (r: Result<(), CoreError>)
    ensures
        r is Ok <==> project_brief_source_ok(*source, author_room, same_conversation),
        r matches Err(e) ==> e.code == ErrorCode::InvalidSafeBrief,
{
    proof {
        reveal_strlit("request");
        reveal_strlit("completed");
    }
    let s = match source {
        None => return Err(CoreError::new(ErrorCode::InvalidSafeBrief, "The project conversation brief origin message is not retained in this project.")),
        Some(s) => s,
    };
    if !str_eq(s.item_kind.as_str(), "request") || !str_eq(s.run_status.as_str(), "completed") || !author_room || !same_conversation {
        return Err(CoreError::new(ErrorCode::InvalidSafeBrief, "A project conversation brief must come from a completed author-room request."));
    }
    Ok(())
}

/// The chapter-discussion message a brief names as its origin.
#[derive(Debug)]
pub struct BriefOriginMessage {
    pub project_id: String,
    pub operation_namespace: String,
    pub document_id: String,
    pub role: DiscussionMessageRole,
    pub packet_id: Option<String>,
}

pub open spec fn origin_message_ok(access: ProjectAccess, document_id: Seq<char>, m: Option<BriefOriginMessage>) -> bool {
    m matches Some(x) && x.project_id@ == access.project_id@ && x.operation_namespace@ == access.operation_namespace@
        && x.document_id@ == document_id && x.packet_id is Some
}

/// A brief taken from a chapter discussion names a message of this
/// project's discussion of the same chapter, with a readable packet.
pub fn check_brief_origin_message(access: &ProjectAccess, document_id: &str, m: &Option<BriefOriginMessage>) -> (r: Result<(), CoreError>)
    ensures
        r is Ok <==> origin_message_ok(*access, document_id@, *m),
        r matches Err(e) ==> e.code == ErrorCode::InvalidSafeBrief,
{
    let x = match m {
        None => return Err(CoreError::new(ErrorCode::InvalidSafeBrief, "The writing brief origin message is not available.")),
        Some(x) => x,
    };
    if !str_eq(x.project_id.as_str(), access.project_id.as_str())
        || !str_eq(x.operation_namespace.as_str(), access.operation_namespace.as_str())
        || !str_eq(x.document_id.as_str(), document_id)
        || (x.role == DiscussionMessageRole::Assistant && x.packet_id.is_none()) {
        return Err(CoreError::new(ErrorCode::InvalidSafeBrief, "The writing brief origin message does not belong to this chapter discussion."));
    }
    if x.packet_id.is_none() {
        return Err(CoreError::new(ErrorCode::InvalidSafeBrief, "The writing brief origin message has no readable discussion context."));
    }
    Ok(())
}

/// The origin's discussion context is readable in the current author-room
/// policy and targets this chapter.
pub fn check_brief_origin_context(snapshot_found: bool, author_room: bool, target_document: &str, document_id: &str) -> (r: Result<(), CoreError>)
    ensures
        r is Ok <==> (snapshot_found && author_room && target_document@ == document_id@),
        r matches Err(e) ==> e.code == ErrorCode::InvalidSafeBrief,
{
    if !snapshot_found {
        return Err(CoreError::new(ErrorCode::InvalidSafeBrief, "The writing brief origin message has no readable discussion context."));
    }
    if !author_room || !str_eq(target_document, document_id) {
        return Err(CoreError::new(ErrorCode::InvalidSafeBrief, "The writing brief origin message is not readable in the current AuthorRoom policy."));
    }
    Ok(())
}

} // verus!

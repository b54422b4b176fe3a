//! Starting a discussion: the operation-ID replay rule, the context policy a
//! request is frozen under, the mandatory packet sources, and the response
//! contract a packet carries.
use vstd::prelude::*;
use crate::error::{CoreError, ErrorCode, fails_with};
use crate::pins::{texts, FrozenSource};
use crate::request::{start_error, start_refusal_message, validate_start, DiscussionScopeInput, FeedbackIntent, ScopeKind, StartDiscussion};
use crate::text::{check_id, decimal_chars, push_decimal, valid_id};
use crate::vocab::{clone_opt_allowance, clone_opt_string, str_eq, DiscussionRun, DiscussionRunStatus, DispatchState, Head, ProviderBinding, RunOwner};

verus! {

broadcast use vstd::string::group_string_axioms;

// ------------------------------------------------------------------- replay

/// Where a start request stands once its operation ID is looked up.
#[derive(Debug)]
pub enum StartStep {
    /// The operation already started this run with the same payload.
    Replayed(String),
    /// A new discussion is to be prepared.
    Proceed,
}

/// Checks a start request and decides whether its operation ID replays an
/// earlier start. `payload_hash` is the request's logical hash and `existing`
/// the read of the run (and its payload hash) already started under the
/// operation ID, if any. The caller has already checked `request.access`.
pub fn start_discussion(
    request: &StartDiscussion,
    payload_hash: &str,
    existing: Result<Option<(String, String)>, CoreError>,
) -> (r: Result<StartStep, CoreError>)
    ensures
        match start_error(*request) {
            Some(code) => r matches Err(e) && e.code == code && e.message@ == start_refusal_message(*request),
            None => match existing {
                Err(e) => r == Err::<StartStep, CoreError>(e),
                Ok(found) => match start_decision(payload_hash@, found) {
                    Some(None) => r == Ok::<StartStep, CoreError>(StartStep::Proceed),
                    Some(Some(run_id)) => r == Ok::<StartStep, CoreError>(StartStep::Replayed(run_id)),
                    None => fails_with(r, ErrorCode::OperationIdReusedWithDifferentPayload),
                },
            },
        },
{
    if let Err(e) = validate_start(request) {
        return Err(e);
    }
    match existing {
        Err(e) => Err(e),
        Ok(None) => Ok(StartStep::Proceed),
        Ok(Some((run_id, saved))) => {
            if str_eq(saved.as_str(), payload_hash) {
                Ok(StartStep::Replayed(run_id))
            } else {
                Err(CoreError::new(ErrorCode::OperationIdReusedWithDifferentPayload, "This discussion operation was already used for a different request."))
            }
        },
    }
}

/// A project-chat start is a plain author-room discussion: no writing
/// scope, lookup, brief or basis, and a well-formed conversation ID.
pub fn check_project_chat_start(request: &StartDiscussion, conversation_id: &str) -> (r: Result<(), CoreError>)
    ensures
        (request.intent != FeedbackIntent::Discuss || request.scope is Some || request.safe_brief is Some
            || request.lookup is Some || request.basis is Some) ==> fails_with(r, ErrorCode::InvalidProjectChatRequest),
        !(request.intent != FeedbackIntent::Discuss || request.scope is Some || request.safe_brief is Some
            || request.lookup is Some || request.basis is Some) ==> if valid_id(conversation_id@) {
            r is Ok
        } else {
            fails_with(r, ErrorCode::InvalidRequest)
        },
{
    if request.intent != FeedbackIntent::Discuss || request.scope.is_some() || request.safe_brief.is_some()
        || request.lookup.is_some() || request.basis.is_some() {
        return Err(CoreError::new(ErrorCode::InvalidProjectChatRequest, "Project chat uses a plain author-room discussion without a writing scope, lookup, or brief."));
    }
    check_id(conversation_id)
}

// ------------------------------------------------------------------- policy

/// Who a frozen context is written for.
#[derive(Debug, Clone, Copy, PartialEq, Eq, Structural)]
pub enum Audience {
    /// The author's own room: nothing is withheld.
    AuthorRoom,
    /// Writing for the reader: only what a reader knows at the chapter.
    RestrictedWriting,
}

/// The disclosure policy a discussion's context is frozen under.
#[derive(Debug)]
pub struct ContextPolicy {
    /// The disclosure-policy epoch, as decimal text.
    pub version: String,
    pub audience: Audience,
    /// The chapter position the reader has reached, for restricted writing.
    pub reader_frontier: Option<String>,
}

/// The decimal text of a signed integer.
pub open spec fn signed_decimal(v: int) -> Seq<char> {
    if v < 0 { "-"@ + decimal_chars((-v) as nat) } else { decimal_chars(v as nat) }
}

/// The decimal text of `v`, with a leading minus when negative.
pub fn signed_decimal_text(v: i64) -> (r: String)
    ensures
        r@ == signed_decimal(v as int),
{
    let mut out = String::new();
    if v < 0 {
        out.append("-");
        proof {
            reveal_strlit("-");
        }
        let magnitude: u64 = if v == i64::MIN { 9223372036854775808u64 } else { (-v) as u64 };
        push_decimal(&mut out, magnitude);
    } else {
        push_decimal(&mut out, v as u64);
    }
    assert(out@ =~= signed_decimal(v as int));
    out
}

/// The target document of a writing request, as stored.
#[derive(Debug)]
pub struct TargetDocument {
    pub kind: String,
    pub position: i64,
}

pub open spec fn is_chapter(kind: Seq<char>) -> bool {
    kind == "chapter"@
}

pub open spec fn block_scope(request: StartDiscussion) -> bool {
    request.scope matches Some(s) && (s.kind == ScopeKind::Blocks || s.kind == ScopeKind::WholeDocument)
}

pub open spec fn passage_scope(request: StartDiscussion) -> bool {
    request.scope matches Some(s) && (s.kind == ScopeKind::Passage || s.kind == ScopeKind::Blocks
        || s.kind == ScopeKind::WholeDocument)
}

pub open spec fn policy_error(request: StartDiscussion, target: Option<TargetDocument>) -> Option<ErrorCode> {
    match request.intent {
        FeedbackIntent::Discuss | FeedbackIntent::WorkshopExplore => None,
        _ => if request.intent == FeedbackIntent::ProposeEdits && !passage_scope(request) {
            Some(ErrorCode::InvalidScope)
        } else {
            match target {
                None => Some(ErrorCode::DocumentNotFound),
                Some(t) => if request.intent == FeedbackIntent::Continue && !is_chapter(t.kind@) {
                    Some(ErrorCode::InvalidRequest)
                } else if request.intent == FeedbackIntent::ProposeEdits && !is_chapter(t.kind@) && !block_scope(request) {
                    Some(ErrorCode::InvalidScope)
                } else if is_chapter(t.kind@) && t.position < 0 {
                    Some(ErrorCode::InvalidProject)
                } else {
                    None
                },
            }
        },
    }
}

/// The policy a valid request is frozen under: author-room for discussion
/// and for writing on a non-chapter document, and for writing on a chapter
/// a restricted policy whose reader frontier is the chapter's position.
pub open spec fn policy_of(policy: ContextPolicy, request: StartDiscussion, epoch: i64, target: Option<TargetDocument>) -> bool {
    &&& policy.version@ == signed_decimal(epoch as int)
    &&& match request.intent {
        FeedbackIntent::Discuss | FeedbackIntent::WorkshopExplore => policy.audience == Audience::AuthorRoom
            && policy.reader_frontier is None,
        _ => match target {
            Some(t) => if is_chapter(t.kind@) {
                policy.audience == Audience::RestrictedWriting
                    && (policy.reader_frontier matches Some(f) && f@ == signed_decimal(t.position as int))
            } else {
                policy.audience == Audience::AuthorRoom && policy.reader_frontier is None
            },
            None => false,
        },
    }
}

/// Chooses the disclosure policy a start request's context is frozen under.
/// Proposed edits need an explicit passage, block or whole-document scope
/// (a block or whole-document scope off a chapter); continuation needs a
/// chapter. `epoch` is the read of the disclosure-policy epoch and `target`
/// the read of the request's target document, if it is available.
pub fn discussion_context_policy(
    request: &StartDiscussion,
    epoch: Result<i64, CoreError>,
    target: Result<Option<TargetDocument>, CoreError>,
) -> (r: Result<ContextPolicy, CoreError>)
    ensures
        match epoch {
            Err(e) => r == Err::<ContextPolicy, CoreError>(e),
            Ok(ep) => if (request.intent == FeedbackIntent::ProposeEdits || request.intent == FeedbackIntent::Continue)
                && !(request.intent == FeedbackIntent::ProposeEdits && !passage_scope(*request)) && target is Err {
                r == Err::<ContextPolicy, CoreError>(target->Err_0)
            } else {
                let t = match target { Ok(t) => t, Err(_) => None };
                match policy_error(*request, t) {
                    Some(code) => fails_with(r, code),
                    None => r matches Ok(p) && policy_of(p, *request, ep, t),
                }
            },
        },
{
    let epoch = match epoch {
        Ok(v) => v,
        Err(e) => return Err(e),
    };
    let version = signed_decimal_text(epoch);
    if request.intent == FeedbackIntent::Discuss || request.intent == FeedbackIntent::WorkshopExplore {
        return Ok(ContextPolicy { version, audience: Audience::AuthorRoom, reader_frontier: None });
    }
    let scope_kind = match &request.scope {
        Some(s) => Some(s.kind),
        None => None,
    };
    let passage = scope_kind == Some(ScopeKind::Passage) || scope_kind == Some(ScopeKind::Blocks)
        || scope_kind == Some(ScopeKind::WholeDocument);
    let blocks = scope_kind == Some(ScopeKind::Blocks) || scope_kind == Some(ScopeKind::WholeDocument);
    if request.intent == FeedbackIntent::ProposeEdits && !passage {
        return Err(CoreError::new(ErrorCode::InvalidScope, "Propose edits requires an explicit passage selection."));
    }
    let target = match target {
        Err(e) => return Err(e),
        Ok(None) => return Err(CoreError::new(ErrorCode::DocumentNotFound, "The selected chapter is not available.")),
        Ok(Some(t)) => t,
    };
    proof {
        reveal_strlit("chapter");
    }
    let chapter = str_eq(target.kind.as_str(), "chapter");
    if request.intent == FeedbackIntent::Continue && !chapter {
        return Err(CoreError::new(ErrorCode::InvalidRequest, "Only chapter documents can continue prose at the end."));
    }
    if request.intent == FeedbackIntent::ProposeEdits && !chapter && !blocks {
        return Err(CoreError::new(ErrorCode::InvalidScope, "Document development requires an explicit block or whole-document scope."));
    }
    if chapter && target.position < 0 {
        return Err(CoreError::new(ErrorCode::InvalidProject, "The selected chapter has an invalid reader position."));
    }
    if !chapter {
        return Ok(ContextPolicy { version, audience: Audience::AuthorRoom, reader_frontier: None });
    }
    Ok(ContextPolicy { version, audience: Audience::RestrictedWriting, reader_frontier: Some(signed_decimal_text(target.position)) })
}

/// A chapter-range discussion is an unscoped discussion of an ordinary
/// chapter. `target_kind` is the read of the target document's kind.
pub fn check_chapter_range(request: &StartDiscussion, target_kind: &Option<String>) -> (r: Result<(), CoreError>)
    ensures
        r is Ok <==> (request.intent == FeedbackIntent::Discuss && request.scope is None
            && (target_kind matches Some(k) && is_chapter(k@))),
        r matches Err(e) ==> e.code == ErrorCode::InvalidChapterRequest,
{
    proof {
        reveal_strlit("chapter");
    }
    let chapter = match target_kind {
        Some(k) => str_eq(k.as_str(), "chapter"),
        None => false,
    };
    if request.intent != FeedbackIntent::Discuss || request.scope.is_some() || !chapter {
        return Err(CoreError::new(ErrorCode::InvalidChapterRequest, "The chapter range response contract requires an unscoped Discuss request targeting an ordinary chapter."));
    }
    Ok(())
}

// ---------------------------------------------------------------- handles

/// The handle of the first frozen source that is the context's target.
pub open spec fn target_handle_of(sources: Seq<FrozenSource>) -> Option<Seq<char>>
    decreases sources.len(),
{
    if sources.len() == 0 {
        None
    } else if sources[0].is_target {
        Some(sources[0].handle@)
    } else {
        target_handle_of(sources.drop_first())
    }
}

/// The frozen target's own handle; a context without it is invalid.
pub fn target_handle(sources: &Vec<FrozenSource>) -> (r: Result<String, CoreError>)
    ensures
        match target_handle_of(sources@) {
            Some(h) => r matches Ok(x) && x@ == h,
            None => fails_with(r, ErrorCode::InvalidContext),
        },
{
    let n = sources.len();
    let mut k: usize = 0;
    assert(sources@.skip(0) =~= sources@);
    while k < n
        invariant
            n == sources@.len(),
            0 <= k <= n,
            target_handle_of(sources@) == target_handle_of(sources@.skip(k as int)),
        decreases n - k,
    {
        assert(sources@.skip(k as int)[0] == sources@[k as int]);
        assert(sources@.skip(k as int).drop_first() =~= sources@.skip(k + 1));
        if sources[k].is_target {
            return Ok(sources[k].handle.clone());
        }
        k += 1;
    }
    Err(CoreError::new(ErrorCode::InvalidContext, "The frozen discussion target is missing from its source manifest."))
}

/// The handle of the first frozen source with this exact document head.
pub open spec fn head_handle(sources: Seq<FrozenSource>, document_id: Seq<char>, body_hash: Seq<char>) -> Option<Seq<char>>
    decreases sources.len(),
{
    if sources.len() == 0 {
        None
    } else if sources[0].document_id@ == document_id && sources[0].body_hash@ == body_hash {
        Some(sources[0].handle@)
    } else {
        head_handle(sources.drop_first(), document_id, body_hash)
    }
}

fn find_head_handle(sources: &Vec<FrozenSource>, head: &Head) -> (r: Option<String>)
    ensures
        match r { Some(h) => Some(h@), None => None::<Seq<char>> } == head_handle(sources@, head.document_id@, head.body_hash@),
{
    let n = sources.len();
    let mut k: usize = 0;
    assert(sources@.skip(0) =~= sources@);
    while k < n
        invariant
            n == sources@.len(),
            0 <= k <= n,
            head_handle(sources@, head.document_id@, head.body_hash@)
                == head_handle(sources@.skip(k as int), head.document_id@, head.body_hash@),
        decreases n - k,
    {
        assert(sources@.skip(k as int)[0] == sources@[k as int]);
        assert(sources@.skip(k as int).drop_first() =~= sources@.skip(k + 1));
        if str_eq(sources[k].document_id.as_str(), head.document_id.as_str())
            && str_eq(sources[k].body_hash.as_str(), head.body_hash.as_str()) {
            return Some(sources[k].handle.clone());
        }
        k += 1;
    }
    None
}


/// The mandatory handles once each project-chat source ref's frozen handle
/// is added (none twice), or `None` when a ref has no frozen source.
pub open spec fn with_chat_handles(all: Seq<Seq<char>>, sources: Seq<FrozenSource>, refs: Seq<Head>) -> Option<Seq<Seq<char>>>
    decreases refs.len(),
{
    if refs.len() == 0 {
        Some(all)
    } else {
        match head_handle(sources, refs[0].document_id@, refs[0].body_hash@) {
            None => None,
            Some(h) => with_chat_handles(if all.contains(h) { all } else { all.push(h) }, sources, refs.drop_first()),
        }
    }
}

/// Adds the frozen handle of each author-selected project-chat source to the
/// mandatory handles, in order and without repeats. A ref outside the frozen
/// context is refused.
#[verifier::loop_isolation(false)]
pub fn add_chat_source_handles(all: Vec<String>, sources: &Vec<FrozenSource>, refs: &Vec<Head>) -> (r: Result<Vec<String>, CoreError>)
    ensures
        match with_chat_handles(texts(all@), sources@, refs@) {
            Some(v) => r matches Ok(x) && texts(x@) == v,
            None => fails_with(r, ErrorCode::SourceOutsideFrozenContext),
        },
{
    let ghost goal = with_chat_handles(texts(all@), sources@, refs@);
    let mut current = all;
    let n = refs.len();
    let mut i: usize = 0;
    assert(refs@.skip(0) =~= refs@);
    while i < n
        invariant
            n == refs@.len(),
            0 <= i <= n,
            goal == with_chat_handles(texts(current@), sources@, refs@.skip(i as int)),
        decreases n - i,
    {
        assert(refs@.skip(i as int)[0] == refs@[i as int]);
        assert(refs@.skip(i as int).drop_first() =~= refs@.skip(i + 1));
        let handle = match find_head_handle(sources, &refs[i]) {
            Some(h) => h,
            None => return Err(CoreError::new(ErrorCode::SourceOutsideFrozenContext, "A project-chat source ref has no frozen source handle.")),
        };
        let mut present = false;
        let mut k: usize = 0;
        while k < current.len()
            invariant
                0 <= k <= current@.len(),
                present <==> exists|j: int| 0 <= j < k && (#[trigger] current@[j])@ == handle@,
            decreases current@.len() - k,
        {
            if str_eq(current[k].as_str(), handle.as_str()) {
                present = true;
            }
            k += 1;
        }
        proof {
            let t = texts(current@);
            if present {
                let j = choose|j: int| 0 <= j < k && (#[trigger] current@[j])@ == handle@;
                assert(t[j] == handle@);
            } else {
                assert forall|j: int| 0 <= j < t.len() implies t[j] != handle@ by {
                    assert(t[j] == current@[j]@);
                }
            }
        }
        if !present {
            let ghost before = texts(current@);
            current.push(handle);
            assert(texts(current@) =~= before.push(current@[current@.len() - 1]@));
        }
        i += 1;
    }
    assert(refs@.skip(n as int).len() == 0);
    Ok(current)
}

/// The handles with every copy of `target` removed.
pub open spec fn without(all: Seq<Seq<char>>, target: Seq<char>) -> Seq<Seq<char>>
    decreases all.len(),
{
    if all.len() == 0 {
        all
    } else if all.last() == target {
        without(all.drop_last(), target)
    } else {
        without(all.drop_last(), target).push(all.last())
    }
}

/// The mandatory sources the compiler is handed: all of them when the
/// request pinned the target itself, otherwise all but the target, which
/// the compiler reserves on its own.
pub open spec fn mandatory_of(all: Seq<Seq<char>>, transient: Seq<Seq<char>>, target: Seq<char>) -> Seq<Seq<char>> {
    if transient.contains(target) { all } else { without(all, target) }
}

pub fn mandatory_handles(all: &Vec<String>, transient: &Vec<String>, target: &str) -> (r: Vec<String>)
    ensures
        texts(r@) == mandatory_of(texts(all@), texts(transient@), target@),
{
    let mut pinned_target = false;
    let m = transient.len();
    let mut k: usize = 0;
    while k < m
        invariant
            m == transient@.len(),
            0 <= k <= m,
            pinned_target <==> exists|j: int| 0 <= j < k && (#[trigger] transient@[j])@ == target@,
        decreases m - k,
    {
        if str_eq(transient[k].as_str(), target) {
            pinned_target = true;
        }
        k += 1;
    }
    proof {
        let t = texts(transient@);
        if pinned_target {
            let j = choose|j: int| 0 <= j < m && (#[trigger] transient@[j])@ == target@;
            assert(t[j] == target@);
        } else {
            assert forall|j: int| 0 <= j < t.len() implies t[j] != target@ by {
                assert(t[j] == transient@[j]@);
            }
        }
    }
    let mut out: Vec<String> = Vec::new();
    let n = all.len();
    let mut i: usize = 0;
    assert(texts(all@).take(0) =~= Seq::<Seq<char>>::empty());
    while i < n
        invariant
            n == all@.len(),
            0 <= i <= n,
            pinned_target ==> texts(out@) == texts(all@).take(i as int),
            !pinned_target ==> texts(out@) == without(texts(all@).take(i as int), target@),
        decreases n - i,
    {
        let ghost before = texts(out@);
        assert(texts(all@).take(i + 1).drop_last() =~= texts(all@).take(i as int));
        assert(texts(all@).take(i + 1).last() == all@[i as int]@);
        if pinned_target || !str_eq(all[i].as_str(), target) {
            out.push(all[i].clone());
            assert(texts(out@) =~= before.push(all@[i as int]@));
        }
        assert(texts(all@).take(i + 1) =~= texts(all@).take(i as int).push(all@[i as int]@));
        i += 1;
    }
    assert(texts(all@).take(n as int) =~= texts(all@));
    out
}

// --------------------------------------------------------- response contract

/// The response contract a packet asks the provider to follow.
#[derive(Debug, Clone, Copy, PartialEq, Eq, Structural)]
pub enum ResponseContract {
    ProjectChat,
    ChapterDiscussion,
    Lookup,
    Continuation,
    StructuredProposal,
    Proposal,
    Workshop,
}

/// Derived from trusted intent and the live binding, never taken from the
/// renderer: project chat and chapter-range requests have their own; a
/// lookup discussion, a continuation and a workshop exploration theirs; live
/// proposed edits a structured contract for block or whole-document scopes
/// and a plain one otherwise; anything else none.
pub open spec fn contract_for(request: StartDiscussion, chat: bool, chapter_range: bool) -> Option<ResponseContract> {
    if chat {
        Some(ResponseContract::ProjectChat)
    } else if chapter_range {
        Some(ResponseContract::ChapterDiscussion)
    } else {
        match request.intent {
            FeedbackIntent::Discuss => if request.lookup is Some { Some(ResponseContract::Lookup) } else { None },
            FeedbackIntent::Continue => Some(ResponseContract::Continuation),
            FeedbackIntent::ProposeEdits => if request.provider_binding is Some {
                if block_scope(request) { Some(ResponseContract::StructuredProposal) } else { Some(ResponseContract::Proposal) }
            } else {
                None
            },
            FeedbackIntent::WorkshopExplore => Some(ResponseContract::Workshop),
        }
    }
}

pub fn response_contract(request: &StartDiscussion, chat: bool, chapter_range: bool) -> (r: Option<ResponseContract>)
    ensures
        r == contract_for(*request, chat, chapter_range),
{
    if chat {
        return Some(ResponseContract::ProjectChat);
    }
    if chapter_range {
        return Some(ResponseContract::ChapterDiscussion);
    }
    match request.intent {
        FeedbackIntent::Discuss => if request.lookup.is_some() { Some(ResponseContract::Lookup) } else { None },
        FeedbackIntent::Continue => Some(ResponseContract::Continuation),
        FeedbackIntent::ProposeEdits => {
            if request.provider_binding.is_some() {
                let blocks = match &request.scope {
                    Some(s) => s.kind == ScopeKind::Blocks || s.kind == ScopeKind::WholeDocument,
                    None => false,
                };
                if blocks { Some(ResponseContract::StructuredProposal) } else { Some(ResponseContract::Proposal) }
            } else {
                None
            }
        },
        FeedbackIntent::WorkshopExplore => Some(ResponseContract::Workshop),
    }
}

/// The instruction a packet carries: a chapter-range discussion appends the
/// target-head marker and the serialized target head to the author's text.
pub open spec fn packet_instruction_text(instruction: Seq<char>, contract: Option<ResponseContract>, marker: Seq<char>, target_json: Seq<char>) -> Seq<char> {
    if contract == Some(ResponseContract::ChapterDiscussion) {
        instruction + "\n\n"@ + marker + "\n"@ + target_json
    } else {
        instruction
    }
}

pub fn packet_instruction(request: &StartDiscussion, contract: Option<ResponseContract>, marker: &str, target_json: &str) -> (r: String)
    ensures
        r@ == packet_instruction_text(request.instruction@, contract, marker@, target_json@),
{
    if contract == Some(ResponseContract::ChapterDiscussion) {
        let mut text = request.instruction.clone();
        text.append("\n\n");
        text.append(marker);
        text.append("\n");
        text.append(target_json);
        text
    } else {
        request.instruction.clone()
    }
}

// -------------------------------------------------------------------- scope

/// A selection captured from the exact target revision: the revision's
/// body fingerprint and the quoted text.
#[derive(Debug)]
pub struct CapturedScope {
    pub source_hash: String,
    pub quote: String,
}

/// A request's selection is the one captured from the exact target
/// revision: the same body fingerprint and quote, and a valid selection of
/// that body. `captured` is the capture's outcome and `validation` the
/// selection check's, each with the refusal's detail. Returns the captured
/// selection, if the request has one.
pub fn capture_discussion_scope(
    input: Option<&DiscussionScopeInput>,
    captured: Result<CapturedScope, String>,
    validation: Result<(), String>,
) -> (r: Result<Option<CapturedScope>, CoreError>)
    ensures
        match input {
            None => r matches Ok(None),
            Some(s) => match captured {
                Err(_) => fails_with(r, ErrorCode::InvalidScope),
                Ok(c) => if c.source_hash@ != s.source_body_hash@ || c.quote@ != s.quote@ || validation is Err {
                    fails_with(r, ErrorCode::InvalidScope)
                } else {
                    r matches Ok(Some(x)) && x == c
                },
            },
        },
{
    let s = match input {
        None => return Ok(None),
        Some(s) => s,
    };
    let c = match captured {
        Ok(c) => c,
        Err(detail) => return Err(CoreError::new(ErrorCode::InvalidScope, detail.as_str())),
    };
    if !str_eq(c.source_hash.as_str(), s.source_body_hash.as_str()) || !str_eq(c.quote.as_str(), s.quote.as_str()) {
        return Err(CoreError::new(ErrorCode::InvalidScope, "The scope quote or source hash does not match the exact target revision."));
    }
    if let Err(detail) = validation {
        return Err(CoreError::new(ErrorCode::InvalidScope, detail.as_str()));
    }
    Ok(Some(c))
}

// ------------------------------------------------------------------ new run

/// The author's message that opens a discussion run.
#[derive(Debug)]
pub struct UserMessage {
    pub id: String,
    pub thread_id: String,
    pub run_id: String,
    pub content: String,
    pub packet_id: String,
}

/// What a new start writes: the queued run, the request it records, and the
/// author's message.
#[derive(Debug)]
pub struct DiscussionStartPlan {
    pub run: DiscussionRun,
    pub operation_id: String,
    pub payload_hash: String,
    pub target: Head,
    pub previous_run_id: Option<String>,
    pub user_message: UserMessage,
    /// The lookup chain's first invocation is prepared with the run.
    pub prepares_lookup: bool,
}

/// `plan` is the discussion a new start of `request` creates under the
/// given identities, frozen into `packet_id` with the packet's binding.
pub open spec fn start_plan(
    request: StartDiscussion,
    payload_hash: Seq<char>,
    run_id: String,
    thread_id: String,
    message_id: String,
    packet_id: String,
    packet_binding: Option<ProviderBinding>,
    plan: DiscussionStartPlan,
) -> bool {
    let run = plan.run;
    &&& run.id == run_id && run.thread_id == thread_id && run.packet_id == packet_id
    &&& run.owner.project_id@ == request.access.project_id@
    &&& run.owner.operation_namespace@ == request.access.operation_namespace@
    &&& run.owner.run_id == run_id
    &&& run.provider_binding == packet_binding
    &&& run.lookup == request.lookup
    &&& run.status == DiscussionRunStatus::Queued
    &&& run.dispatch_state == DispatchState::Pending
    &&& run.sequence == 0
    &&& run.output_text@.len() == 0
    &&& run.stop_reason is None
    &&& plan.operation_id@ == request.operation_id@
    &&& plan.payload_hash@ == payload_hash
    &&& plan.target == request.expected
    &&& plan.previous_run_id == request.previous_run_id
    &&& plan.user_message.id == message_id && plan.user_message.thread_id == thread_id
    &&& plan.user_message.run_id == run_id && plan.user_message.packet_id == packet_id
    &&& plan.user_message.content@ == request.instruction@
    &&& plan.prepares_lookup == (request.lookup is Some)
}

/// The discussion a new start creates: a queued, undispatched run at
/// sequence 0 with no output, owned by the request's project identity,
/// frozen into the packet; the request it records (operation ID, payload
/// fingerprint, target head, previous run); and the author's instruction as
/// the run's first message. A lookup opt-in prepares the chain's first
/// invocation with it.
pub fn new_discussion(
    request: &StartDiscussion,
    payload_hash: &str,
    run_id: String,
    thread_id: String,
    message_id: String,
    packet_id: String,
    packet_binding: Option<ProviderBinding>,
) -> (r: DiscussionStartPlan)
    ensures
        start_plan(*request, payload_hash@, run_id, thread_id, message_id, packet_id, packet_binding, r),
{
    let run = DiscussionRun {
        id: run_id.clone(),
        thread_id: thread_id.clone(),
        owner: RunOwner {
            project_id: request.access.project_id.clone(),
            operation_namespace: request.access.operation_namespace.clone(),
            run_id: run_id.clone(),
        },
        packet_id: packet_id.clone(),
        provider_binding: packet_binding,
        lookup: clone_opt_allowance(&request.lookup),
        status: DiscussionRunStatus::Queued,
        dispatch_state: DispatchState::Pending,
        sequence: 0,
        output_text: String::new(),
        stop_reason: None,
    };
    DiscussionStartPlan {
        run,
        operation_id: request.operation_id.clone(),
        payload_hash: payload_hash.to_string(),
        target: request.expected.clone(),
        previous_run_id: clone_opt_string(&request.previous_run_id),
        user_message: UserMessage {
            id: message_id,
            thread_id,
            run_id,
            content: request.instruction.clone(),
            packet_id,
        },
        prepares_lookup: request.lookup.is_some(),
    }
}

/// What `start_discussion` decides for a request whose checks pass, given
/// the run already stored under its operation ID (and that run's payload
/// fingerprint), if any: proceed, replay that run, or refuse.
pub open spec fn start_decision(payload_hash: Seq<char>, existing: Option<(String, String)>) -> Option<Option<String>> {
    match existing {
        None => Some(None),
        Some((run_id, saved)) => if saved@ == payload_hash { Some(Some(run_id)) } else { None },
    }
}

/// A start delivered twice creates one discussion: once a start has
/// written its plan, the same request (same payload fingerprint) finds the
/// plan's run under its operation ID and replays that run instead of
/// creating another.
pub proof fn law_start_replays(
    request: StartDiscussion,
    payload_hash: String,
    run_id: String,
    thread_id: String,
    message_id: String,
    packet_id: String,
    packet_binding: Option<ProviderBinding>,
    plan: DiscussionStartPlan,
)
    requires
        start_plan(request, payload_hash@, run_id, thread_id, message_id, packet_id, packet_binding, plan),
    ensures
        start_decision(payload_hash@, Some((plan.run.id, plan.payload_hash))) == Some(Some(run_id)),
{
}

/// Outside project chat and chapter ranges, a valid request's packet asks
/// for the lookup envelope exactly when the request opted into lookup: a
/// lookup discussion is always compiled so its chain can run, and no other
/// request is.
pub proof fn law_lookup_contract_iff_opted_in(request: StartDiscussion)
    requires
        start_error(request) is None,
    ensures
        (contract_for(request, false, false) == Some(ResponseContract::Lookup)) == (request.lookup is Some),
        request.intent == FeedbackIntent::Discuss && request.lookup is Some
            ==> contract_for(request, false, false) == Some(ResponseContract::Lookup),
        request.intent == FeedbackIntent::Discuss && request.lookup is None ==> contract_for(request, false, false) is None,
        request.intent == FeedbackIntent::Continue ==> contract_for(request, false, false) == Some(ResponseContract::Continuation),
        request.intent == FeedbackIntent::WorkshopExplore ==> contract_for(request, false, false) == Some(ResponseContract::Workshop),
        forall|range: bool| contract_for(request, true, range) == Some(ResponseContract::ProjectChat),
        contract_for(request, false, true) == Some(ResponseContract::ChapterDiscussion),
{
}

} // verus!

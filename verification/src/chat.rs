//! The project conversation's own decisions: its activity count, the
//! identities of a materialization, when a finished run may be materialized,
//! and which frozen sources an adoption may target.
use vstd::prelude::*;
use vstd::utf8::encode_utf8;
use crate::digest::{lower_hex, sha256_hex, sha256_of};
use crate::error::{CoreError, ErrorCode, fails_with};
use crate::pins::{insert_sorted, strictly_sorted, texts};
use crate::vocab::{opt_view, str_eq, Head, ProjectInfo, RunOwner};
use crate::adoption::GroupEffectsOutput;
use crate::chapters::TaskDraftRef;
use crate::start::{signed_decimal, signed_decimal_text};
use crate::text::{check_id, valid_id};

verus! {

broadcast use vstd::string::group_string_axioms;

/// Read-only activity of the session's own namespace.
#[derive(Debug, Clone, Copy, PartialEq, Eq, Structural)]
pub struct ProjectChatActivity {
    pub pending_drafts: usize,
}

/// The activity for a stored count of pending drafts.
pub fn project_chat_activity(pending_drafts: i64) -> (r: Result<ProjectChatActivity, CoreError>)
    ensures
        0 <= pending_drafts <= usize::MAX ==> r == Ok::<ProjectChatActivity, CoreError>(ProjectChatActivity { pending_drafts: pending_drafts as usize }),
        !(0 <= pending_drafts <= usize::MAX) ==> fails_with(r, ErrorCode::InvalidProject),
{
    if pending_drafts < 0 || pending_drafts as u64 > usize::MAX as u64 {
        return Err(CoreError::new(ErrorCode::InvalidProject, "The project has an invalid pending-draft count."));
    }
    Ok(ProjectChatActivity { pending_drafts: pending_drafts as usize })
}

/// A proposed effect of adopting chat material on one document.
#[derive(Debug)]
pub struct ChatAdoptionImpact {
    pub target_document_id: String,
    pub kind: String,
    pub reason: String,
    pub relationship_id: Option<String>,
    pub relationship_key: Option<String>,
}

/// A document an adopted one replaces.
#[derive(Debug)]
pub struct ChatAdoptionSupersession {
    pub target_document_id: String,
    pub superseded_document_id: String,
    pub reason: String,
}

/// Where an adopted document is placed among its neighbours.
#[derive(Debug)]
pub struct ChatAdoptionPlacement {
    pub target_document_id: String,
    pub before_document_id: Option<String>,
    pub after_document_id: Option<String>,
}

// ---------------------------------------------------------- materialization

pub open spec fn materialize_operation(run_id: Seq<char>) -> Seq<char> {
    "chat-materialize-"@ + run_id
}

/// The operation ID under which a run's result is materialized once.
pub fn materialize_operation_id(run_id: &str) -> (r: String)
    ensures
        r@ == materialize_operation(run_id@),
{
    let mut out = "chat-materialize-".to_owned();
    out.append(run_id);
    out
}

pub open spec fn materialize_payload(owner: RunOwner) -> Seq<char> {
    "project-chat-materialize-v1:"@ + owner.project_id@ + ":"@ + owner.operation_namespace@ + ":"@ + owner.run_id@
}

/// The fingerprint of a materialization: the SHA-256 of the versioned
/// owner identity.
pub fn materialize_payload_hash(owner: &RunOwner) -> (r: String)
    ensures
        r@ == lower_hex(sha256_of(encode_utf8(materialize_payload(*owner)))),
{
    let mut text = "project-chat-materialize-v1:".to_owned();
    text.append(owner.project_id.as_str());
    text.append(":");
    text.append(owner.operation_namespace.as_str());
    text.append(":");
    text.append(owner.run_id.as_str());
    sha256_hex(text.as_str().as_bytes())
}

/// A finished run may be materialized once it is terminal, delivered, and
/// its terminal event carries exactly the run's output.
pub open spec fn run_ready(status: Seq<char>, dispatch_state: Seq<char>, terminal_chunk: Option<Seq<char>>, output: Seq<char>) -> bool {
    &&& status != "queued"@ && status != "running"@ && status != "stopping"@
    &&& dispatch_state == "delivered"@
    &&& terminal_chunk == Some(output)
}

/// Whether a stored run is ready to materialize. `terminal_chunk` is the
/// text of its terminal event at its current sequence, if there is one.
pub fn terminal_run_ready(status: &str, dispatch_state: &str, terminal_chunk: &Option<String>, output: &str) -> (r: bool)
    ensures
        r == run_ready(status@, dispatch_state@, match terminal_chunk { Some(c) => Some(c@), None => None }, output@),
{
    proof {
        reveal_strlit("queued");
        reveal_strlit("running");
        reveal_strlit("stopping");
        reveal_strlit("delivered");
    }
    if str_eq(status, "queued") || str_eq(status, "running") || str_eq(status, "stopping") || !str_eq(dispatch_state, "delivered") {
        return false;
    }
    match terminal_chunk {
        Some(c) => str_eq(c.as_str(), output),
        None => false,
    }
}

/// The provider receipt a live run's materialization rests on.
#[derive(Debug)]
pub struct ProviderTerminalRow {
    pub assistant_text: String,
    pub outcome: String,
    pub cleanup: String,
    pub expected_sequence: i64,
    pub terminal_event_id: String,
}

pub open spec fn provider_terminal_ok(has_binding: bool, row: Option<ProviderTerminalRow>, output: Seq<char>, sequence: i64, terminal_event_id: Seq<char>) -> bool {
    if !has_binding {
        true
    } else {
        match row {
            None => false,
            Some(p) => p.assistant_text@ == output && p.outcome@ == "completed"@ && p.cleanup@ == "settled"@
                && p.expected_sequence + 1 == sequence && p.terminal_event_id@ == terminal_event_id,
        }
    }
}

/// A mock run needs no receipt; a live run needs a completed, settled
/// receipt of exactly its output and terminal event, one step before it.
pub fn provider_terminal_matches(has_binding: bool, row: &Option<ProviderTerminalRow>, output: &str, sequence: i64, terminal_event_id: &str) -> (r: bool)
    requires
        row matches Some(p) ==> p.expected_sequence < i64::MAX,
    ensures
        r == provider_terminal_ok(has_binding, *row, output@, sequence, terminal_event_id@),
{
    if !has_binding {
        return true;
    }
    proof {
        reveal_strlit("completed");
        reveal_strlit("settled");
    }
    match row {
        None => false,
        Some(p) => str_eq(p.assistant_text.as_str(), output) && str_eq(p.outcome.as_str(), "completed")
            && str_eq(p.cleanup.as_str(), "settled") && p.expected_sequence + 1 == sequence
            && str_eq(p.terminal_event_id.as_str(), terminal_event_id),
    }
}

pub open spec fn replay_intact(payload_json: Seq<char>, stored_hash: Seq<char>, event_sequence: i64, event_output_hash: Seq<char>, run_sequence: i64, run_output: Seq<char>) -> bool {
    &&& lower_hex(sha256_of(encode_utf8(payload_json))) == stored_hash
    &&& event_sequence == run_sequence
    &&& event_output_hash == lower_hex(sha256_of(encode_utf8(run_output)))
}

/// A replayed materialization still matches its fingerprint and the run
/// output it was made from.
pub fn check_materialization_replay(
    payload_json: &str,
    stored_hash: &str,
    event_sequence: i64,
    event_output_hash: &str,
    run_sequence: i64,
    run_output: &str,
) -> (r: Result<(), CoreError>)
    ensures
        r is Ok <==> replay_intact(payload_json@, stored_hash@, event_sequence, event_output_hash@, run_sequence, run_output@),
        r matches Err(e) ==> e.code == ErrorCode::InvalidProjectChat,
{
    let digest = sha256_hex(payload_json.as_bytes());
    if !str_eq(digest.as_str(), stored_hash) {
        return Err(CoreError::new(ErrorCode::InvalidProjectChat, "The materialization event fingerprint changed."));
    }
    let output_hash = sha256_hex(run_output.as_bytes());
    if event_sequence != run_sequence || !str_eq(event_output_hash, output_hash.as_str()) {
        return Err(CoreError::new(ErrorCode::InvalidProjectChat, "The materialization event does not match the retained run output."));
    }
    Ok(())
}

// ------------------------------------------------------------------ targets

/// A frozen source with the stored role and kind of its document.
#[derive(Debug)]
pub struct SourceDocument {
    pub handle: String,
    pub role: String,
    pub kind: String,
}

pub open spec fn target_allowed(s: SourceDocument, chapters: bool) -> bool {
    s.role@ == "ordinary"@ && ((s.kind@ == "chapter"@) == chapters)
}

/// The frozen handles an adoption may target, sorted and without repeats:
/// ordinary chapter documents when `chapters`, otherwise ordinary documents
/// that are not chapters.
pub fn allowed_target_handles(sources: &Vec<SourceDocument>, chapters: bool) -> (r: Vec<String>)
    ensures
        strictly_sorted(texts(r@)),
        forall|h: Seq<char>| texts(r@).to_set().contains(h) <==> exists|i: int| 0 <= i < sources@.len()
            && target_allowed(#[trigger] sources@[i], chapters) && sources@[i].handle@ == h,
{
    proof {
        reveal_strlit("ordinary");
        reveal_strlit("chapter");
    }
    let mut handles: Vec<String> = Vec::new();
    let n = sources.len();
    let mut i: usize = 0;
    while i < n
        invariant
            n == sources@.len(),
            0 <= i <= n,
            strictly_sorted(texts(handles@)),
            forall|h: Seq<char>| texts(handles@).to_set().contains(h) <==> exists|j: int| 0 <= j < i
                && target_allowed(#[trigger] sources@[j], chapters) && sources@[j].handle@ == h,
        decreases n - i,
    {
        let source = &sources[i];
        let allowed = str_eq(source.role.as_str(), "ordinary") && (str_eq(source.kind.as_str(), "chapter") == chapters);
        let ghost before = texts(handles@).to_set();
        if allowed {
            insert_sorted(&mut handles, &source.handle);
        }
        assert forall|h: Seq<char>| texts(handles@).to_set().contains(h) <==> exists|j: int| 0 <= j < i + 1
            && target_allowed(#[trigger] sources@[j], chapters) && sources@[j].handle@ == h by {
            if exists|j: int| 0 <= j < i + 1 && target_allowed(#[trigger] sources@[j], chapters) && sources@[j].handle@ == h {
                let j = choose|j: int| 0 <= j < i + 1 && target_allowed(#[trigger] sources@[j], chapters) && sources@[j].handle@ == h;
                if j < i {
                    assert(before.contains(h));
                }
            }
            if before.contains(h) {
                let j = choose|j: int| 0 <= j < i && target_allowed(#[trigger] sources@[j], chapters) && sources@[j].handle@ == h;
                assert(0 <= j < i + 1);
            }
        }
        i += 1;
    }
    handles
}

/// Chapter and non-chapter targets are kept apart: when the frozen sources
/// carry distinct handles, no handle is both a chapter target and a
/// non-chapter target, so a chapter revision can never become a non-chapter
/// material target.
pub proof fn law_chapter_targets_are_separate(sources: Seq<SourceDocument>, h: Seq<char>)
    requires
        forall|i: int, j: int| 0 <= i < j < sources.len() ==> (#[trigger] sources[i]).handle@ != (#[trigger] sources[j]).handle@,
    ensures
        !((exists|i: int| 0 <= i < sources.len() && target_allowed(#[trigger] sources[i], true) && sources[i].handle@ == h)
            && (exists|j: int| 0 <= j < sources.len() && target_allowed(#[trigger] sources[j], false) && sources[j].handle@ == h)),
{
    if exists|i: int| 0 <= i < sources.len() && target_allowed(#[trigger] sources[i], true) && sources[i].handle@ == h {
        let i = choose|i: int| 0 <= i < sources.len() && target_allowed(#[trigger] sources[i], true) && sources[i].handle@ == h;
        assert forall|j: int| 0 <= j < sources.len() && sources[j].handle@ == h implies !target_allowed(#[trigger] sources[j], false) by {
            if j < i {
                assert(sources[j].handle@ != sources[i].handle@);
            } else if j > i {
                assert(sources[i].handle@ != sources[j].handle@);
            }
        }
    }
}

// ------------------------------------------------------------- predecessors

/// A frozen source as the draft rules read it: its handle, whether it was
/// frozen as an assistant draft, and the document, revision and body hash it
/// was frozen at.
#[derive(Debug)]
pub struct DraftSource {
    pub handle: String,
    pub is_assistant_draft: bool,
    pub document_id: String,
    pub revision_id: String,
    pub body_hash: String,
}

/// The author attached this source's document, at this body, to the request.
pub open spec fn attached(drafts: Seq<TaskDraftRef>, s: DraftSource) -> bool {
    exists|k: int| 0 <= k < drafts.len() && (#[trigger] drafts[k]).head.document_id@ == s.document_id@
        && drafts[k].head.body_hash@ == s.body_hash@
}

/// A source that may name a draft's predecessor: an assistant draft that the
/// author explicitly attached.
pub open spec fn predecessor_candidate(drafts: Seq<TaskDraftRef>, s: DraftSource) -> bool {
    s.is_assistant_draft && attached(drafts, s)
}

/// Whether the author attached this source's document at this body.
pub fn explicitly_attached(drafts: &Vec<TaskDraftRef>, source: &DraftSource) -> (r: bool)
    ensures
        r == attached(drafts@, *source),
{
    let n = drafts.len();
    let mut k: usize = 0;
    while k < n
        invariant
            n == drafts@.len(),
            0 <= k <= n,
            forall|j: int| 0 <= j < k ==> !((#[trigger] drafts@[j]).head.document_id@ == source.document_id@
                && drafts@[j].head.body_hash@ == source.body_hash@),
        decreases n - k,
    {
        let d = &drafts[k];
        if str_eq(d.head.document_id.as_str(), source.document_id.as_str())
            && str_eq(d.head.body_hash.as_str(), source.body_hash.as_str()) {
            return true;
        }
        k += 1;
    }
    false
}

/// The stored role read for a candidate is not that of an assistant draft.
pub open spec fn role_refused(role: Result<String, CoreError>) -> bool {
    match role {
        Ok(r) => r@ != "assistantDraft"@,
        Err(_) => true,
    }
}

/// Every candidate before `k` has a readable assistant-draft role.
pub open spec fn candidates_ok(drafts: Seq<TaskDraftRef>, sources: Seq<DraftSource>, roles: Seq<Result<String, CoreError>>, k: int) -> bool {
    forall|j: int| 0 <= j < k && predecessor_candidate(drafts, #[trigger] sources[j]) ==> !role_refused(roles[j])
}

/// The handles a draft may name as its predecessor, sorted and without
/// repeats: those of assistant drafts the author explicitly attached. With no
/// project-chat context there are none. `roles[i]` is what reading the stored
/// role of source `i`'s live document gave; it is read only for candidates.
/// The first candidate whose read failed, or whose document is not an
/// assistant draft, refuses the whole set: a failed read with its own error,
/// another role with `InvalidProjectChatContext`.
pub fn allowed_predecessor_handles(
    drafts: Option<&Vec<TaskDraftRef>>,
    sources: &Vec<DraftSource>,
    roles: &Vec<Result<String, CoreError>>,
) -> (r: Result<Vec<String>, CoreError>)
    requires
        roles@.len() == sources@.len(),
    ensures
        drafts is None ==> (r matches Ok(v) && v@.len() == 0),
        drafts matches Some(d) ==> {
            &&& (r is Ok <==> candidates_ok(d@, sources@, roles@, sources@.len() as int))
            &&& (r matches Ok(v) ==> strictly_sorted(texts(v@)) && forall|h: Seq<char>| texts(v@).to_set().contains(h)
                <==> exists|i: int| 0 <= i < sources@.len() && predecessor_candidate(d@, #[trigger] sources@[i]) && sources@[i].handle@ == h)
            &&& (r matches Err(e) ==> exists|i: int| 0 <= i < sources@.len()
                && candidates_ok(d@, sources@, roles@, i)
                && predecessor_candidate(d@, #[trigger] sources@[i])
                && role_refused(roles@[i])
                && match roles@[i] {
                    Err(read) => e == read,
                    Ok(_) => e.code == ErrorCode::InvalidProjectChatContext,
                })
        },
{
    let chat = match drafts {
        None => {
            return Ok(Vec::new());
        },
        Some(d) => d,
    };
    proof {
        reveal_strlit("assistantDraft");
    }
    let mut handles: Vec<String> = Vec::new();
    let n = sources.len();
    let mut i: usize = 0;
    while i < n
        invariant
            n == sources@.len(),
            roles@.len() == n,
            drafts == Some(chat),
            0 <= i <= n,
            candidates_ok(chat@, sources@, roles@, i as int),
            strictly_sorted(texts(handles@)),
            forall|h: Seq<char>| texts(handles@).to_set().contains(h) <==> exists|j: int| 0 <= j < i
                && predecessor_candidate(chat@, #[trigger] sources@[j]) && sources@[j].handle@ == h,
        decreases n - i,
    {
        let source = &sources[i];
        let candidate = source.is_assistant_draft && explicitly_attached(chat, source);
        let ghost before = texts(handles@).to_set();
        if candidate {
            match &roles[i] {
                Err(read) => {
                    return Err(read.clone());
                },
                Ok(role) => {
                    if !str_eq(role.as_str(), "assistantDraft") {
                        return Err(CoreError::new(
                            ErrorCode::InvalidProjectChatContext,
                            "An explicitly attached predecessor is not an assistant draft.",
                        ));
                    }
                },
            }
            insert_sorted(&mut handles, &source.handle);
        }
        assert forall|h: Seq<char>| texts(handles@).to_set().contains(h) <==> exists|j: int| 0 <= j < i + 1
            && predecessor_candidate(chat@, #[trigger] sources@[j]) && sources@[j].handle@ == h by {
            if exists|j: int| 0 <= j < i + 1 && predecessor_candidate(chat@, #[trigger] sources@[j]) && sources@[j].handle@ == h {
                let j = choose|j: int| 0 <= j < i + 1 && predecessor_candidate(chat@, #[trigger] sources@[j]) && sources@[j].handle@ == h;
                if j < i {
                    assert(before.contains(h));
                }
            }
            if before.contains(h) {
                let j = choose|j: int| 0 <= j < i && predecessor_candidate(chat@, #[trigger] sources@[j]) && sources@[j].handle@ == h;
                assert(0 <= j < i + 1);
            }
        }
        assert(candidates_ok(chat@, sources@, roles@, i + 1));
        i += 1;
    }
    Ok(handles)
}

/// The first frozen source with this handle.
pub open spec fn first_with_handle(sources: Seq<DraftSource>, handle: Seq<char>, i: int) -> bool {
    &&& 0 <= i < sources.len()
    &&& sources[i].handle@ == handle
    &&& forall|j: int| 0 <= j < i ==> (#[trigger] sources[j]).handle@ != handle
}

/// The index of the first frozen source with this handle, if any.
pub fn find_frozen_source(sources: &Vec<DraftSource>, handle: &str) -> (r: Option<usize>)
    ensures
        r matches Some(i) ==> first_with_handle(sources@, handle@, i as int),
        r is None ==> forall|j: int| 0 <= j < sources@.len() ==> (#[trigger] sources@[j]).handle@ != handle@,
{
    let n = sources.len();
    let mut i: usize = 0;
    while i < n
        invariant
            n == sources@.len(),
            0 <= i <= n,
            forall|j: int| 0 <= j < i ==> (#[trigger] sources@[j]).handle@ != handle@,
        decreases n - i,
    {
        if str_eq(sources[i].handle.as_str(), handle) {
            return Some(i);
        }
        i += 1;
    }
    None
}

/// The document a draft continues, from the predecessor handle it names.
/// No handle names none. Otherwise the request must carry project-chat
/// context, and the first frozen source with that handle must be an
/// explicitly attached assistant draft; every refusal is
/// `InvalidProjectChatOutput`.
pub fn predecessor_document_id(
    drafts: Option<&Vec<TaskDraftRef>>,
    sources: &Vec<DraftSource>,
    handle: Option<&str>,
) -> (r: Result<Option<String>, CoreError>)
    ensures
        handle is None ==> (r matches Ok(p) && p is None),
        handle matches Some(h) ==> match r {
            Ok(p) => (drafts matches Some(d) && exists|i: int| first_with_handle(sources@, h@, i)
                && predecessor_candidate(d@, #[trigger] sources@[i])
                && (p matches Some(id) && id@ == sources@[i].document_id@)),
            Err(e) => e.code == ErrorCode::InvalidProjectChatOutput && !(drafts matches Some(d)
                && exists|i: int| first_with_handle(sources@, h@, i) && predecessor_candidate(d@, #[trigger] sources@[i])),
        },
{
    let handle = match handle {
        None => {
            return Ok(None);
        },
        Some(h) => h,
    };
    let drafts = match drafts {
        None => {
            return Err(CoreError::new(ErrorCode::InvalidProjectChatOutput, "A draft predecessor requires project-chat context."));
        },
        Some(d) => d,
    };
    let i = match find_frozen_source(sources, handle) {
        None => {
            return Err(CoreError::new(ErrorCode::InvalidProjectChatOutput, "The draft predecessor is not frozen."));
        },
        Some(i) => i,
    };
    let source = &sources[i];
    if !source.is_assistant_draft || !explicitly_attached(drafts, source) {
        proof {
            assert forall|k: int| first_with_handle(sources@, handle@, k) implies !predecessor_candidate(drafts@, #[trigger] sources@[k]) by {
                assert(k == i);
            }
        }
        return Err(CoreError::new(
            ErrorCode::InvalidProjectChatOutput,
            "A draft predecessor must be an explicitly attached assistant draft.",
        ));
    }
    Ok(Some(source.document_id.clone()))
}

/// A stored revision as read for a draft's target.
#[derive(Debug)]
pub struct RevisionHead {
    pub document_id: String,
    pub source_working_version: i64,
    pub body_hash: String,
}

/// The head a draft targets: the stored revision of the frozen source, which
/// must still belong to the frozen document at the frozen body.
pub fn check_target_revision(source: &DraftSource, revision: &RevisionHead) -> (r: Result<Head, CoreError>)
    ensures
        match r {
            Ok(h) => revision.document_id@ == source.document_id@ && revision.body_hash@ == source.body_hash@
                && h.document_id@ == revision.document_id@
                && h.version@ == signed_decimal(revision.source_working_version as int)
                && h.body_hash@ == revision.body_hash@,
            Err(e) => e.code == ErrorCode::InvalidProjectChatOutput
                && !(revision.document_id@ == source.document_id@ && revision.body_hash@ == source.body_hash@),
        },
{
    if !str_eq(revision.document_id.as_str(), source.document_id.as_str())
        || !str_eq(revision.body_hash.as_str(), source.body_hash.as_str()) {
        return Err(CoreError::new(
            ErrorCode::InvalidProjectChatOutput,
            "The draft target revision no longer matches its frozen source.",
        ));
    }
    Ok(Head {
        document_id: revision.document_id.clone(),
        version: signed_decimal_text(revision.source_working_version),
        body_hash: revision.body_hash.clone(),
    })
}


/// A materialization is requested for a run of the actor's own project.
pub fn check_materialize_owner(info: &ProjectInfo, owner: &RunOwner) -> (r: Result<(), CoreError>)
    ensures
        !(owner.project_id@ == info.project_id@ && owner.operation_namespace@ == info.operation_namespace@)
            ==> fails_with(r, ErrorCode::DiscussionProjectMismatch),
        (owner.project_id@ == info.project_id@ && owner.operation_namespace@ == info.operation_namespace@)
            ==> if valid_id(owner.run_id@) { r is Ok } else { fails_with(r, ErrorCode::InvalidRequest) },
{
    if !str_eq(owner.project_id.as_str(), info.project_id.as_str())
        || !str_eq(owner.operation_namespace.as_str(), info.operation_namespace.as_str()) {
        return Err(CoreError::new(ErrorCode::DiscussionProjectMismatch, "The project-chat run belongs to another project identity."));
    }
    check_id(owner.run_id.as_str())
}

/// The project-chat context a run's frozen snapshot carries.
#[derive(Debug)]
pub struct FrozenChat {
    pub conversation_id: String,
    pub operation_namespace: String,
}

/// Whether a finished run's output is adoptable, and why not when it is
/// not: a run that did not complete, an invalid packet or snapshot, a
/// missing or mismatched provider receipt, output the project-chat parser
/// refuses, or a snapshot of another conversation.
pub open spec fn materialization_verdict(
    status: Seq<char>,
    context: Result<bool, String>,
    output: Result<(), String>,
    chat: Option<FrozenChat>,
    conversation_id: Seq<char>,
    namespace: Seq<char>,
) -> (bool, Option<Seq<char>>) {
    if status != "completed"@ {
        (false, Some("terminal_status_"@ + status))
    } else {
        match context {
            Err(detail) => (false, Some(detail@)),
            Ok(false) => (false, Some("provider_terminal_receipt_missing_or_mismatched"@)),
            Ok(true) => match output {
                Err(detail) => (false, Some(detail@)),
                Ok(()) => match chat {
                    None => (false, Some("missing_project_chat_context"@)),
                    Some(c) => if c.conversation_id@ != conversation_id || c.operation_namespace@ != namespace {
                        (false, Some("project_chat_identity_mismatch"@))
                    } else {
                        (true, None)
                    },
                },
            },
        }
    }
}

/// Decides a materialization's verdict. `context` is the outcome of
/// validating the run's packet and snapshot and, when they are valid,
/// whether the provider receipt matches; `output` the project-chat parser's
/// verdict on the run's output; `chat` the snapshot's project-chat context.
pub fn materialize_verdict(
    status: &str,
    context: Result<bool, String>,
    output: Result<(), String>,
    chat: &Option<FrozenChat>,
    conversation_id: &str,
    namespace: &str,
) -> (r: (bool, Option<String>))
    ensures
        ({
            let v = materialization_verdict(status@, context, output, *chat, conversation_id@, namespace@);
            r.0 == v.0 && match r.1 { Some(d) => Some(d@), None => None::<Seq<char>> } == v.1
        }),
{
    proof {
        reveal_strlit("completed");
    }
    if !str_eq(status, "completed") {
        let mut detail = "terminal_status_".to_owned();
        detail.append(status);
        return (false, Some(detail));
    }
    match context {
        Err(detail) => return (false, Some(detail)),
        Ok(false) => return (false, Some("provider_terminal_receipt_missing_or_mismatched".to_owned())),
        Ok(true) => {},
    }
    match output {
        Err(detail) => return (false, Some(detail)),
        Ok(()) => {},
    }
    match chat {
        None => (false, Some("missing_project_chat_context".to_owned())),
        Some(c) => {
            if !str_eq(c.conversation_id.as_str(), conversation_id) || !str_eq(c.operation_namespace.as_str(), namespace) {
                (false, Some("project_chat_identity_mismatch".to_owned()))
            } else {
                (true, None)
            }
        },
    }
}

/// What materializing a finished run records.
#[derive(Debug)]
pub struct ChatMaterialization {
    pub run_id: String,
    pub item_id: String,
    /// The assistant drafts created from the output, in output order.
    pub draft_ids: Vec<String>,
    pub output_valid: bool,
    pub detail: Option<String>,
    pub group_effects: Option<GroupEffectsOutput>,
}

/// The output reached the parser and was accepted by it.
pub open spec fn output_parsed(status: Seq<char>, context: Result<bool, String>, output: Result<(), String>) -> bool {
    status == "completed"@ && context == Ok::<bool, String>(true) && output is Ok
}

/// The drafts a materialization creates: those of the output, when the
/// verdict makes it adoptable, else none.
pub open spec fn drafts_created(status: Seq<char>, context: Result<bool, String>, output: Result<(), String>, chat: Option<FrozenChat>, conversation_id: Seq<char>, namespace: Seq<char>, output_drafts: nat) -> nat {
    if materialization_verdict(status, context, output, chat, conversation_id, namespace).0 { output_drafts } else { 0 }
}

/// The number of drafts to create for a finished run: every draft of its
/// output when the verdict makes the output adoptable, none otherwise.
pub fn drafts_to_create(
    status: &str,
    context: &Result<bool, String>,
    output: &Result<(), String>,
    chat: &Option<FrozenChat>,
    conversation_id: &str,
    namespace: &str,
    output_drafts: usize,
) -> (r: usize)
    ensures
        r == drafts_created(status@, *context, *output, *chat, conversation_id@, namespace@, output_drafts as nat),
{
    let context = match context {
        Ok(b) => Ok(*b),
        Err(d) => Err(d.clone()),
    };
    let output = match output {
        Ok(()) => Ok(()),
        Err(d) => Err(d.clone()),
    };
    let (valid, _) = materialize_verdict(status, context, output, chat, conversation_id, namespace);
    if valid { output_drafts } else { 0 }
}

/// The materialization of a finished run: its verdict, the drafts created
/// (which `drafts_to_create` counted), and the output's grouped effects
/// when the parser accepted it. An adoptable output comes only from a
/// completed run; output that is not adoptable creates no draft and says
/// why.
pub fn chat_materialization(
    run_id: String,
    item_id: String,
    status: &str,
    context: Result<bool, String>,
    output: Result<(), String>,
    chat: &Option<FrozenChat>,
    conversation_id: &str,
    namespace: &str,
    draft_ids: Vec<String>,
    parsed_effects: Option<GroupEffectsOutput>,
) -> (r: ChatMaterialization)
    requires
        draft_ids@.len() == drafts_created(status@, context, output, *chat, conversation_id@, namespace@, draft_ids@.len()),
    ensures
        ({
            let v = materialization_verdict(status@, context, output, *chat, conversation_id@, namespace@);
            &&& r.output_valid == v.0
            &&& opt_view(r.detail) == v.1
        }),
        r.output_valid ==> status@ == "completed"@,
        !r.output_valid ==> r.draft_ids@.len() == 0 && r.detail is Some,
        r.draft_ids == draft_ids,
        r.run_id == run_id && r.item_id == item_id,
        r.group_effects == (if output_parsed(status@, context, output) { parsed_effects } else { None }),
{
    proof {
        reveal_strlit("completed");
    }
    let parsed = str_eq(status, "completed") && (match &context { Ok(b) => *b, Err(_) => false }) && output.is_ok();
    let (output_valid, detail) = materialize_verdict(status, context, output, chat, conversation_id, namespace);
    ChatMaterialization {
        run_id,
        item_id,
        draft_ids,
        output_valid,
        detail,
        group_effects: if parsed { parsed_effects } else { None },
    }
}

// ------------------------------------------------------------ replay

/// What a receipt found under a materialization's operation ID decides:
/// replay (`Some(true)`), materialize now (`Some(false)`), or refuse.
pub open spec fn materialize_decision(found: Option<(String, String)>, payload_hash: Seq<char>) -> Option<bool> {
    match found {
        None => Some(false),
        Some((kind, hash)) => if kind@ == "materializeChatResult"@ && hash@ == payload_hash { Some(true) } else { None },
    }
}

/// The fingerprint a materialization is recorded under.
pub open spec fn materialize_fingerprint(owner: RunOwner) -> Seq<char> {
    lower_hex(sha256_of(encode_utf8(materialize_payload(owner))))
}

/// Whether a run's materialization is already recorded: a receipt under its
/// operation ID of the materialization kind with the same owner fingerprint
/// replays it; any other receipt under that ID refuses the request; none
/// means the run is materialized now. `found` is the receipt's kind and
/// payload fingerprint, if one exists.
pub fn materialization_replays(found: &Option<(String, String)>, payload_hash: &str) -> (r: Result<bool, CoreError>)
    ensures
        match materialize_decision(*found, payload_hash@) {
            Some(replay) => r == Ok::<bool, CoreError>(replay),
            None => fails_with(r, ErrorCode::OperationIdReusedWithDifferentPayload),
        },
{
    proof {
        reveal_strlit("materializeChatResult");
    }
    match found {
        None => Ok(false),
        Some((kind, hash)) => {
            if !str_eq(kind.as_str(), "materializeChatResult") || !str_eq(hash.as_str(), payload_hash) {
                return Err(CoreError::new(ErrorCode::OperationIdReusedWithDifferentPayload, "This operation ID was already used for another command."));
            }
            Ok(true)
        },
    }
}

/// The event a materialization records: the run, the output it was made
/// from (its sequence and fingerprint), and the result.
#[derive(Debug)]
pub struct MaterializationRecord {
    pub run_id: String,
    pub sequence: i64,
    pub output_hash: String,
    pub output_valid: bool,
    pub draft_ids: Vec<String>,
    pub detail: Option<String>,
    pub group_effects: Option<GroupEffectsOutput>,
}

/// The event a new materialization records.
pub fn materialization_record(m: ChatMaterialization, sequence: i64, output_hash: String) -> (r: MaterializationRecord)
    ensures
        r.run_id == m.run_id && r.sequence == sequence && r.output_hash == output_hash,
        r.output_valid == m.output_valid && r.draft_ids == m.draft_ids && r.detail == m.detail,
        r.group_effects == m.group_effects,
{
    MaterializationRecord {
        run_id: m.run_id,
        sequence,
        output_hash,
        output_valid: m.output_valid,
        draft_ids: m.draft_ids,
        detail: m.detail,
        group_effects: m.group_effects,
    }
}

/// The materialization a replay returns: the recorded event, under the
/// item it was recorded as.
pub fn replayed_materialization(item_id: String, record: MaterializationRecord) -> (r: ChatMaterialization)
    ensures
        r.item_id == item_id && r.run_id == record.run_id,
        r.output_valid == record.output_valid && r.draft_ids == record.draft_ids && r.detail == record.detail,
        r.group_effects == record.group_effects,
{
    ChatMaterialization {
        run_id: record.run_id,
        item_id,
        draft_ids: record.draft_ids,
        output_valid: record.output_valid,
        detail: record.detail,
        group_effects: record.group_effects,
    }
}

/// A second materialization returns the stored result without writing:
/// the receipt the first call stored, of the materialization kind under the
/// owner's fingerprint (`materialize_payload_hash`), makes the same owner's
/// next request a replay, which writes nothing; and the replayed result is
/// the recorded one, under the recorded item, with the same drafts,
/// validity, detail and effects.
pub proof fn law_materialization_replays(
    owner: RunOwner,
    kind: String,
    stored_hash: String,
    first: ChatMaterialization,
    sequence: i64,
    output_hash: String,
    record: MaterializationRecord,
    second: ChatMaterialization,
)
    requires
        record.run_id == first.run_id && record.sequence == sequence && record.output_hash == output_hash,
        record.output_valid == first.output_valid && record.draft_ids == first.draft_ids && record.detail == first.detail,
        record.group_effects == first.group_effects,
        second.item_id == first.item_id && second.run_id == record.run_id,
        second.output_valid == record.output_valid && second.draft_ids == record.draft_ids && second.detail == record.detail,
        second.group_effects == record.group_effects,
        kind@ == "materializeChatResult"@,
        stored_hash@ == materialize_fingerprint(owner),
    ensures
        materialize_decision(Some((kind, stored_hash)), materialize_fingerprint(owner)) == Some(true),
        second == first,
{
}

} // verus!

//! The integrity rules a project conversation's stored records obey when a
//! backup is validated: identifier, version and fingerprint formats, the
//! known item kinds, and contiguous per-conversation item sequences.
use vstd::prelude::*;
use vstd::utf8::encode_utf8;
use crate::digest::{lower_hex, sha256_hex, sha256_of};
use crate::error::{CoreError, ErrorCode, fails_with};
use crate::adoption::has_text;
use crate::chapters::{ProjectChapterComposer, ProjectComposer, TaskDraftRef};
use crate::lifecycle::MAX_SCOPE_QUOTE_BYTES;
use crate::request::{ProjectBriefOrigin, SafeBriefInput, MAX_SAFE_BRIEF_BYTES};
use crate::retry::same_head;
use crate::start::{signed_decimal, signed_decimal_text};
use crate::text::{
    byte_len, byte_length, hex64, integer_text_ok, integer_text_value, is_blank, is_hex64, is_valid_id,
    parse_lookup_counter, text_is_blank, valid_id, version_ok,
};
use crate::vocab::{opt_view, str_eq, Head};

verus! {

broadcast use vstd::string::group_string_axioms;

/// A stored identifier is well formed.
pub fn check_stored_id(value: &str) -> (r: Result<(), CoreError>)
    ensures
        r is Ok <==> valid_id(value@),
        r matches Err(e) ==> e.code == ErrorCode::InvalidProjectChat,
{
    if !is_valid_id(value) {
        return Err(CoreError::new(ErrorCode::InvalidProjectChat, "A stored record has an invalid identifier."));
    }
    Ok(())
}

/// A stored version is not negative.
pub fn check_stored_version(value: i64) -> (r: Result<(), CoreError>)
    ensures
        r is Ok <==> value >= 0,
        r matches Err(e) ==> e.code == ErrorCode::InvalidProjectChat,
{
    if value < 0 {
        return Err(CoreError::new(ErrorCode::InvalidProjectChat, "A stored record has a negative version."));
    }
    Ok(())
}

/// A stored version text is a canonical decimal within a SQLite integer.
pub fn check_stored_version_text(value: &str) -> (r: Result<(), CoreError>)
    ensures
        r is Ok <==> version_ok(value@),
        r matches Err(e) ==> e.code == ErrorCode::InvalidProjectChat,
{
    if crate::text::parse_version(value).is_err() {
        return Err(CoreError::new(ErrorCode::InvalidProjectChat, "A stored record has an invalid version."));
    }
    Ok(())
}

/// A stored fingerprint is 64 hexadecimal digits.
pub fn check_stored_hash(value: &str) -> (r: Result<(), CoreError>)
    ensures
        r is Ok <==> hex64(value@),
        r matches Err(e) ==> e.code == ErrorCode::InvalidProjectChat,
{
    if !is_hex64(value) {
        return Err(CoreError::new(ErrorCode::InvalidProjectChat, "A stored record has an invalid hash."));
    }
    Ok(())
}

/// A stored document head is well formed.
pub fn check_stored_head(document_id: &str, version: i64, body_hash: &str) -> (r: Result<(), CoreError>)
    ensures
        r is Ok <==> (valid_id(document_id@) && version >= 0 && hex64(body_hash@)),
        r matches Err(e) ==> e.code == ErrorCode::InvalidProjectChat,
{
    if let Err(e) = check_stored_id(document_id) {
        return Err(e);
    }
    if let Err(e) = check_stored_version(version) {
        return Err(e);
    }
    check_stored_hash(body_hash)
}

/// The kinds of item a project conversation records.
pub open spec fn chat_kind(kind: Seq<char>) -> bool {
    ||| kind == "request"@
    ||| kind == "chapterRequest"@
    ||| kind == "saveProjectComposer"@
    ||| kind == "saveAssistantDraft"@
    ||| kind == "materializeChatResult"@
    ||| kind == "chatDisposition"@
    ||| kind == "adoptionPreview"@
    ||| kind == "adoptionDecision"@
}

pub fn is_chat_kind(kind: &str) -> (r: bool)
    ensures
        r == chat_kind(kind@),
{
    proof {
        reveal_strlit("request");
        reveal_strlit("chapterRequest");
        reveal_strlit("saveProjectComposer");
        reveal_strlit("saveAssistantDraft");
        reveal_strlit("materializeChatResult");
        reveal_strlit("chatDisposition");
        reveal_strlit("adoptionPreview");
        reveal_strlit("adoptionDecision");
    }
    str_eq(kind, "request") || str_eq(kind, "chapterRequest") || str_eq(kind, "saveProjectComposer")
        || str_eq(kind, "saveAssistantDraft") || str_eq(kind, "materializeChatResult")
        || str_eq(kind, "chatDisposition") || str_eq(kind, "adoptionPreview") || str_eq(kind, "adoptionDecision")
}

/// The header of one stored conversation item.
#[derive(Debug)]
pub struct StoredItem {
    pub id: String,
    pub conversation_id: String,
    pub sequence: i64,
    pub kind: String,
    pub payload_json: String,
    pub payload_hash: String,
    pub operation_id: Option<String>,
}

/// The number of items of `conversation` among `items`.
pub open spec fn count_of(items: Seq<StoredItem>, conversation: Seq<char>) -> nat
    decreases items.len(),
{
    if items.len() == 0 {
        0
    } else {
        count_of(items.drop_last(), conversation) + if items.last().conversation_id@ == conversation { 1nat } else { 0nat }
    }
}

/// Each conversation's items are numbered 1, 2, 3, … in the order stored.
pub open spec fn sequences_contiguous(items: Seq<StoredItem>) -> bool {
    forall|i: int| 0 <= i < items.len() ==> (#[trigger] items[i]).sequence == count_of(items.take(i), items[i].conversation_id@) + 1
}

/// An item's header is well formed: a valid ID, a known kind, a fingerprint
/// of its exact payload, and a valid operation ID when it has one.
pub open spec fn item_header_ok(item: StoredItem) -> bool {
    &&& valid_id(item.id@)
    &&& chat_kind(item.kind@)
    &&& hex64(item.payload_hash@)
    &&& lower_hex(sha256_of(encode_utf8(item.payload_json@))) == item.payload_hash@
    &&& (item.operation_id matches Some(o) ==> valid_id(o@))
}

/// Checks one item's header.
pub fn check_item_header(item: &StoredItem) -> (r: Result<(), CoreError>)
    ensures
        r is Ok <==> item_header_ok(*item),
        r matches Err(e) ==> e.code == ErrorCode::InvalidProjectChat,
{
    if let Err(e) = check_stored_id(item.id.as_str()) {
        return Err(e);
    }
    if !is_chat_kind(item.kind.as_str()) {
        return Err(CoreError::new(ErrorCode::InvalidProjectChat, "Unknown project-chat item kind."));
    }
    if let Err(e) = check_stored_hash(item.payload_hash.as_str()) {
        return Err(e);
    }
    let digest = sha256_hex(item.payload_json.as_str().as_bytes());
    if !str_eq(digest.as_str(), item.payload_hash.as_str()) {
        return Err(CoreError::new(ErrorCode::InvalidProjectChat, "A conversation item payload fingerprint changed."));
    }
    if let Some(o) = &item.operation_id {
        if let Err(e) = check_stored_id(o.as_str()) {
            return Err(e);
        }
    }
    Ok(())
}

proof fn lemma_count_bounded(items: Seq<StoredItem>, conversation: Seq<char>)
    ensures
        count_of(items, conversation) <= items.len(),
    decreases items.len(),
{
    if items.len() > 0 {
        lemma_count_bounded(items.drop_last(), conversation);
    }
}

/// Checks that every conversation's items are numbered contiguously from 1
/// in stored order.
pub fn check_item_sequences(items: &Vec<StoredItem>) -> (r: Result<(), CoreError>)
    ensures
        r is Ok <==> sequences_contiguous(items@),
        r matches Err(e) ==> e.code == ErrorCode::InvalidProjectChat,
{
    let n = items.len();
    let mut i: usize = 0;
    assert(items@.take(0) =~= Seq::<StoredItem>::empty());
    while i < n
        invariant
            n == items@.len(),
            0 <= i <= n,
            forall|j: int| 0 <= j < i ==> (#[trigger] items@[j]).sequence == count_of(items@.take(j), items@[j].conversation_id@) + 1,
        decreases n - i,
    {
        let conversation = items[i].conversation_id.as_str();
        let mut seen: u64 = 0;
        let mut k: usize = 0;
        assert(items@.take(0) =~= Seq::<StoredItem>::empty());
        while k < i
            invariant
                n == items@.len(),
                0 <= k <= i < n,
                seen == count_of(items@.take(k as int), conversation@),
                conversation@ == items@[i as int].conversation_id@,
            decreases i - k,
        {
            proof {
                lemma_count_bounded(items@.take(k as int), conversation@);
            }
            assert(items@.take(k + 1).drop_last() =~= items@.take(k as int));
            assert(items@.take(k + 1).last() == items@[k as int]);
            if str_eq(items[k].conversation_id.as_str(), conversation) {
                seen = seen + 1;
            }
            k += 1;
        }
        proof {
            lemma_count_bounded(items@.take(i as int), conversation@);
        }
        if items[i].sequence < 1 || items[i].sequence as u64 != seen + 1 {
            assert(items@[i as int].sequence != count_of(items@.take(i as int), items@[i as int].conversation_id@) + 1);
            return Err(CoreError::new(ErrorCode::InvalidProjectChat, "Conversation item sequences are not contiguous."));
        }
        i += 1;
    }
    Ok(())
}

// --------------------------------------------------------------------- runs

/// The identity of a retained project conversation.
#[derive(Debug)]
pub struct ConversationOwner {
    pub project_id: String,
    pub operation_namespace: String,
    pub conversation_id: String,
    pub anchor_document_id: String,
}

/// The stored row of a run a conversation item refers to.
#[derive(Debug)]
pub struct TransferRunRow {
    pub thread_id: String,
    pub project_id: String,
    pub operation_namespace: String,
    pub target_document_id: String,
    pub target_version: String,
    pub target_body_hash: String,
    pub packet_id: String,
    pub status: String,
    pub dispatch_state: String,
    pub sequence: i64,
    pub output_text: String,
}

/// The stored owner of a discussion thread or context packet.
#[derive(Debug)]
pub struct StoredOwner {
    pub project_id: String,
    pub operation_namespace: String,
}

pub open spec fn run_status_name(s: Seq<char>) -> bool {
    ||| s == "queued"@
    ||| s == "running"@
    ||| s == "stopping"@
    ||| s == "completed"@
    ||| s == "stopped"@
    ||| s == "failed"@
    ||| s == "interrupted"@
}

pub open spec fn dispatch_name(s: Seq<char>) -> bool {
    s == "pending"@ || s == "claimed"@ || s == "delivered"@
}

/// The run row itself: present, of the conversation's project, with
/// well-formed references and a known lifecycle state.
pub open spec fn run_row_ok(owner: ConversationOwner, run_id: Seq<char>, row: Option<TransferRunRow>) -> bool {
    &&& valid_id(run_id)
    &&& row matches Some(r) && {
        &&& r.project_id@ == owner.project_id@ && r.operation_namespace@ == owner.operation_namespace@
        &&& valid_id(r.thread_id@) && valid_id(r.packet_id@) && version_ok(r.target_version@)
        &&& hex64(r.target_body_hash@) && r.sequence >= 0
        &&& run_status_name(r.status@) && dispatch_name(r.dispatch_state@)
    }
}

/// The thread is the conversation project's own.
pub open spec fn thread_owner_ok(owner: ConversationOwner, thread: Option<ThreadOwner>) -> bool {
    thread matches Some(t) && t.project_id@ == owner.project_id@ && t.operation_namespace@ == owner.operation_namespace@
}

/// A chapter request runs on its own ordinary chapter; any other run is
/// rooted in the conversation anchor.
pub open spec fn run_root_ok(owner: ConversationOwner, row: TransferRunRow, thread: ThreadOwner, chapter_request: bool, role: Seq<char>, kind: Seq<char>) -> bool {
    if chapter_request {
        thread.document_id@ == row.target_document_id@ && row.target_document_id@ != owner.anchor_document_id@
            && role == "ordinary"@ && kind == "chapter"@
    } else {
        thread.document_id@ == owner.anchor_document_id@ && row.target_document_id@ == owner.anchor_document_id@
            && role == "conversationAnchor"@
    }
}

/// The stored thread of a run, with the document it discusses.
#[derive(Debug)]
pub struct ThreadOwner {
    pub project_id: String,
    pub operation_namespace: String,
    pub document_id: String,
}

fn is_run_status_name(value: &str) -> (r: bool)
    ensures
        r == run_status_name(value@),
{
    proof {
        reveal_strlit("queued");
        reveal_strlit("running");
        reveal_strlit("stopping");
        reveal_strlit("completed");
        reveal_strlit("stopped");
        reveal_strlit("failed");
        reveal_strlit("interrupted");
    }
    str_eq(value, "queued") || str_eq(value, "running") || str_eq(value, "stopping") || str_eq(value, "completed")
        || str_eq(value, "stopped") || str_eq(value, "failed") || str_eq(value, "interrupted")
}

fn is_dispatch_name(value: &str) -> (r: bool)
    ensures
        r == dispatch_name(value@),
{
    proof {
        reveal_strlit("pending");
        reveal_strlit("claimed");
        reveal_strlit("delivered");
    }
    str_eq(value, "pending") || str_eq(value, "claimed") || str_eq(value, "delivered")
}

/// A run a conversation item refers to belongs to the conversation: its
/// row, thread and packet are the project's own, it is rooted where its
/// item kind says, and it holds exactly one user message. `row` is the read
/// of the run, `thread` of its thread, `target` of its target document's
/// role and kind, `packet_owner` of its packet's owner, and `user_messages`
/// the count of its user messages in that thread.
pub fn check_transfer_run(
    owner: &ConversationOwner,
    run_id: &str,
    row: &Option<TransferRunRow>,
    chapter_request: bool,
    thread: &Option<ThreadOwner>,
    target: Result<(String, String), CoreError>,
    packet_owner: &Option<StoredOwner>,
    user_messages: i64,
) -> (r: Result<(), CoreError>)
    ensures
        !run_row_ok(*owner, run_id@, *row) || !thread_owner_ok(*owner, *thread) ==> fails_with(r, ErrorCode::InvalidProjectChat),
        run_row_ok(*owner, run_id@, *row) && thread_owner_ok(*owner, *thread) ==> match target {
            Err(e) => r == Err::<(), CoreError>(e),
            Ok((role, kind)) => if run_root_ok(*owner, row->0, thread->0, chapter_request, role@, kind@)
                && (packet_owner matches Some(p) && p.project_id@ == owner.project_id@
                    && p.operation_namespace@ == owner.operation_namespace@)
                && user_messages == 1 {
                r is Ok
            } else {
                fails_with(r, ErrorCode::InvalidProjectChat)
            },
        },
{
    if let Err(e) = check_stored_id(run_id) {
        return Err(e);
    }
    let run = match row {
        None => return Err(CoreError::new(ErrorCode::InvalidProjectChat, "A project-chat item refers to a missing run.")),
        Some(run) => run,
    };
    if !str_eq(run.project_id.as_str(), owner.project_id.as_str()) || !str_eq(run.operation_namespace.as_str(), owner.operation_namespace.as_str()) {
        return Err(CoreError::new(ErrorCode::InvalidProjectChat, "A project-chat run has the wrong owner."));
    }
    if let Err(e) = check_stored_id(run.thread_id.as_str()) {
        return Err(e);
    }
    if let Err(e) = check_stored_id(run.packet_id.as_str()) {
        return Err(e);
    }
    if let Err(e) = check_stored_version_text(run.target_version.as_str()) {
        return Err(e);
    }
    if let Err(e) = check_stored_hash(run.target_body_hash.as_str()) {
        return Err(e);
    }
    if let Err(e) = check_stored_version(run.sequence) {
        return Err(e);
    }
    if !is_run_status_name(run.status.as_str()) || !is_dispatch_name(run.dispatch_state.as_str()) {
        return Err(CoreError::new(ErrorCode::InvalidProjectChat, "A project-chat run has an invalid lifecycle state."));
    }
    let t = match thread {
        None => return Err(CoreError::new(ErrorCode::InvalidProjectChat, "A project-chat run has no discussion thread.")),
        Some(t) => t,
    };
    if !str_eq(t.project_id.as_str(), owner.project_id.as_str()) || !str_eq(t.operation_namespace.as_str(), owner.operation_namespace.as_str()) {
        return Err(CoreError::new(ErrorCode::InvalidProjectChat, "A project-chat run has the wrong thread owner."));
    }
    let (role, kind) = match target {
        Ok(pair) => pair,
        Err(e) => return Err(e),
    };
    proof {
        reveal_strlit("ordinary");
        reveal_strlit("chapter");
        reveal_strlit("conversationAnchor");
    }
    if chapter_request {
        if !str_eq(t.document_id.as_str(), run.target_document_id.as_str())
            || str_eq(run.target_document_id.as_str(), owner.anchor_document_id.as_str())
            || !str_eq(role.as_str(), "ordinary") || !str_eq(kind.as_str(), "chapter") {
            return Err(CoreError::new(ErrorCode::InvalidProjectChat, "A chapter request run must target its ordinary chapter document."));
        }
    } else if !str_eq(t.document_id.as_str(), owner.anchor_document_id.as_str())
        || !str_eq(run.target_document_id.as_str(), owner.anchor_document_id.as_str())
        || !str_eq(role.as_str(), "conversationAnchor") {
        return Err(CoreError::new(ErrorCode::InvalidProjectChat, "A project-chat run is not rooted in its conversation anchor."));
    }
    let packet_ok = match packet_owner {
        Some(p) => str_eq(p.project_id.as_str(), owner.project_id.as_str())
            && str_eq(p.operation_namespace.as_str(), owner.operation_namespace.as_str()),
        None => false,
    };
    if !packet_ok {
        return Err(CoreError::new(ErrorCode::InvalidProjectChat, "A project-chat run packet has the wrong owner."));
    }
    if user_messages != 1 {
        return Err(CoreError::new(ErrorCode::InvalidProjectChat, "A project-chat run must have exactly one user message."));
    }
    Ok(())
}

// ---------------------------------------------------------- materialization

/// A draft a materialization event says it produced.
#[derive(Debug)]
pub struct MaterializedDraft {
    pub ordinal: u64,
    pub document_id: String,
}

/// A retained materialization event.
#[derive(Debug)]
pub struct MaterializationEvent {
    pub run_id: String,
    pub sequence: i64,
    pub output_hash: String,
    /// Whether the run's output was accepted as draft material.
    pub output_valid: bool,
    /// Whether the event explains a refusal.
    pub has_detail: bool,
    /// Whether the event projects grouped effects out of the output.
    pub has_group_effects: bool,
    pub draft_refs: Vec<MaterializedDraft>,
}

/// What the materialized run holds.
#[derive(Debug)]
pub struct MaterializedRun {
    pub sequence: i64,
    pub output_text: String,
    pub status: String,
    pub dispatch_state: String,
}

/// The stored provenance of a materialized draft.
#[derive(Debug)]
pub struct DraftProvenance {
    pub conversation_id: String,
    pub operation_namespace: String,
    pub output_ordinal: i64,
}

pub open spec fn event_run_ok(event: MaterializationEvent, run: MaterializedRun) -> bool {
    &&& event.sequence == run.sequence
    &&& event.output_hash@ == lower_hex(sha256_of(encode_utf8(run.output_text@)))
    &&& hex64(event.output_hash@)
    &&& event.output_valid ==> run.status@ == "completed"@ && run.dispatch_state@ == "delivered"@ && !event.has_detail
}

/// The draft at `i` has a fresh ordinal below 3 and a fresh valid document,
/// and its stored provenance is this run's draft at that ordinal, in this
/// namespace, of a conversation of this project.
pub open spec fn materialized_draft_ok(
    owner: ConversationOwner,
    drafts: Seq<MaterializedDraft>,
    i: int,
    provenance: Option<DraftProvenance>,
    conversation_known: bool,
) -> bool {
    let d = drafts[i];
    &&& d.ordinal < 3
    &&& forall|j: int| 0 <= j < i ==> (#[trigger] drafts[j]).ordinal != d.ordinal && drafts[j].document_id@ != d.document_id@
    &&& valid_id(d.document_id@)
    &&& provenance matches Some(p) && p.operation_namespace@ == owner.operation_namespace@ && p.output_ordinal == d.ordinal
    &&& conversation_known
}

pub open spec fn drafts_ok(
    owner: ConversationOwner,
    drafts: Seq<MaterializedDraft>,
    provenance: Seq<Option<DraftProvenance>>,
    conversation_known: Seq<bool>,
) -> bool {
    forall|i: int| 0 <= i < drafts.len() ==> materialized_draft_ok(owner, drafts, i, #[trigger] provenance[i], conversation_known[i])
}

/// A materialization event matches its run and its drafts: the event is the
/// item's own, the run checks out, the event repeats the run's sequence and
/// output fingerprint, only a delivered completed run yields drafts, any
/// projected effects match the output, and the drafts are exactly the run's
/// drafts with consistent provenance. `run` is the read and check of the
/// run, `effects_verdict` the comparison of projected and output effects
/// (consulted only when the event projects some), `provenance[i]` and
/// `conversation_known[i]` the reads for draft `i`, and `stored_drafts` the
/// number of drafts stored for the run.
#[verifier::loop_isolation(false)]
pub fn check_materialization_event(
    owner: &ConversationOwner,
    reference_id: &str,
    event: &MaterializationEvent,
    run: Result<MaterializedRun, CoreError>,
    effects_verdict: Result<(), CoreError>,
    provenance: &Vec<Option<DraftProvenance>>,
    conversation_known: &Vec<bool>,
    stored_drafts: i64,
) -> (r: Result<(), CoreError>)
    requires
        provenance@.len() == event.draft_refs@.len(),
        conversation_known@.len() == event.draft_refs@.len(),
    ensures
        event.run_id@ != reference_id@ ==> fails_with(r, ErrorCode::InvalidProjectChat),
        event.run_id@ == reference_id@ ==> match run {
            Err(e) => r == Err::<(), CoreError>(e),
            Ok(f) => if !event_run_ok(*event, f) {
                fails_with(r, ErrorCode::InvalidProjectChat)
            } else if event.has_group_effects && effects_verdict is Err {
                r == effects_verdict
            } else if drafts_ok(*owner, event.draft_refs@, provenance@, conversation_known@)
                && stored_drafts == event.draft_refs@.len() {
                r is Ok
            } else {
                fails_with(r, ErrorCode::InvalidProjectChat)
            },
        },
{
    if !str_eq(event.run_id.as_str(), reference_id) {
        return Err(CoreError::new(ErrorCode::InvalidProjectChat, "A materialization event reference is inconsistent."));
    }
    let f = match run {
        Ok(f) => f,
        Err(e) => return Err(e),
    };
    let output_hash = sha256_hex(f.output_text.as_str().as_bytes());
    if event.sequence != f.sequence || !str_eq(event.output_hash.as_str(), output_hash.as_str()) {
        return Err(CoreError::new(ErrorCode::InvalidProjectChat, "A materialization event does not match its run output."));
    }
    if let Err(e) = check_stored_hash(event.output_hash.as_str()) {
        return Err(e);
    }
    proof {
        reveal_strlit("completed");
        reveal_strlit("delivered");
    }
    if event.output_valid && (!str_eq(f.status.as_str(), "completed") || !str_eq(f.dispatch_state.as_str(), "delivered") || event.has_detail) {
        return Err(CoreError::new(ErrorCode::InvalidProjectChat, "Only a delivered completed run can materialize a draft."));
    }
    if event.has_group_effects {
        if let Err(e) = effects_verdict {
            return Err(e);
        }
    }
    let drafts = &event.draft_refs;
    let n = drafts.len();
    let mut i: usize = 0;
    while i < n
        invariant
            n == drafts@.len(),
            provenance@.len() == n,
            conversation_known@.len() == n,
            0 <= i <= n,
            forall|k: int| 0 <= k < i ==> materialized_draft_ok(*owner, drafts@, k, #[trigger] provenance@[k], conversation_known@[k]),
        decreases n - i,
    {
        let d = &drafts[i];
        if d.ordinal >= 3 {
            assert(!materialized_draft_ok(*owner, drafts@, i as int, provenance@[i as int], conversation_known@[i as int]));
            return Err(CoreError::new(ErrorCode::InvalidProjectChat, "A materialization event contains duplicate or invalid draft ordinals."));
        }
        let mut k: usize = 0;
        while k < i
            invariant
                n == drafts@.len(),
                0 <= k <= i < n,
                forall|j: int| 0 <= j < k ==> (#[trigger] drafts@[j]).ordinal != drafts@[i as int].ordinal
                    && drafts@[j].document_id@ != drafts@[i as int].document_id@,
            decreases i - k,
        {
            if drafts[k].ordinal == drafts[i].ordinal || str_eq(drafts[k].document_id.as_str(), drafts[i].document_id.as_str()) {
                assert(!materialized_draft_ok(*owner, drafts@, i as int, provenance@[i as int], conversation_known@[i as int]));
                return Err(CoreError::new(ErrorCode::InvalidProjectChat, "A materialization event contains duplicate or invalid draft ordinals."));
            }
            k += 1;
        }
        if let Err(e) = check_stored_id(d.document_id.as_str()) {
            assert(!materialized_draft_ok(*owner, drafts@, i as int, provenance@[i as int], conversation_known@[i as int]));
            return Err(e);
        }
        let p = match &provenance[i] {
            None => {
                assert(!materialized_draft_ok(*owner, drafts@, i as int, provenance@[i as int], conversation_known@[i as int]));
                return Err(CoreError::new(ErrorCode::InvalidProjectChat, "A materialization event refers to an unrelated draft."));
            },
            Some(p) => p,
        };
        if !str_eq(p.operation_namespace.as_str(), owner.operation_namespace.as_str()) || p.output_ordinal < 0
            || p.output_ordinal as u64 != d.ordinal {
            assert(!materialized_draft_ok(*owner, drafts@, i as int, provenance@[i as int], conversation_known@[i as int]));
            return Err(CoreError::new(ErrorCode::InvalidProjectChat, "A materialized draft has inconsistent provenance."));
        }
        if !conversation_known[i] {
            assert(!materialized_draft_ok(*owner, drafts@, i as int, provenance@[i as int], conversation_known@[i as int]));
            return Err(CoreError::new(ErrorCode::InvalidProjectChat, "A materialized draft belongs to another conversation."));
        }
        assert(materialized_draft_ok(*owner, drafts@, i as int, provenance@[i as int], conversation_known@[i as int]));
        i += 1;
    }
    if stored_drafts < 0 || stored_drafts as u64 != n as u64 {
        return Err(CoreError::new(ErrorCode::InvalidProjectChat, "A materialization event does not enumerate every draft."));
    }
    Ok(())
}

// ----------------------------------------------------------------- composer

/// What the read of a stored document says of it.
#[derive(Debug)]
pub struct StoredDocumentFacts {
    pub role: String,
    pub kind: String,
    pub working_version: i64,
    pub body_hash: String,
}

pub open spec fn composer_head_ok(h: Head) -> bool {
    valid_id(h.document_id@) && version_ok(h.version@) && hex64(h.body_hash@)
}

pub open spec fn named_before(heads: Seq<Head>, i: int, id: Seq<char>) -> bool {
    exists|j: int| 0 <= j < i && (#[trigger] heads[j]).document_id@ == id
}

pub open spec fn composer_bounds_ok(c: ProjectComposer) -> bool {
    byte_len(c.text@) <= 65536 && c.source_refs@.len() <= 64 && c.task_draft_refs@.len() <= 3
}

/// The source at `i` is a well-formed head of an ordinary document named
/// once. `role` is the read of that document's role.
pub open spec fn source_ref_error(sources: Seq<Head>, i: int, role: Result<String, CoreError>) -> Option<ErrorCode> {
    if !composer_head_ok(sources[i]) || named_before(sources, i, sources[i].document_id@) {
        Some(ErrorCode::InvalidProjectChat)
    } else {
        match role {
            Err(e) => Some(e.code),
            Ok(r) => if r@ != "ordinary"@ { Some(ErrorCode::InvalidProjectChat) } else { None },
        }
    }
}

/// The focused document is a well-formed head of an ordinary document that
/// is not also a source.
pub open spec fn focus_error(sources: Seq<Head>, focus: Head, role: Result<String, CoreError>) -> Option<ErrorCode> {
    if !composer_head_ok(focus) || named_before(sources, sources.len() as int, focus.document_id@) {
        Some(ErrorCode::InvalidProjectChat)
    } else {
        match role {
            Err(e) => Some(e.code),
            Ok(r) => if r@ != "ordinary"@ { Some(ErrorCode::InvalidProjectChat) } else { None },
        }
    }
}

/// The task draft at `i` is a well-formed reference, named once, to a draft
/// of this conversation. `owned` is the read of whether it is.
pub open spec fn task_draft_error(drafts: Seq<TaskDraftRef>, i: int, owned: Result<bool, CoreError>) -> Option<ErrorCode> {
    let d = drafts[i];
    if !composer_head_ok(d.head) || !version_ok(d.disposition_version@)
        || exists|j: int| 0 <= j < i && (#[trigger] drafts[j]).head.document_id@ == d.head.document_id@ {
        Some(ErrorCode::InvalidProjectChat)
    } else {
        match owned {
            Err(e) => Some(e.code),
            Ok(false) => Some(ErrorCode::InvalidProjectChat),
            Ok(true) => None,
        }
    }
}

pub open spec fn sources_ok(sources: Seq<Head>, roles: Seq<Result<String, CoreError>>, k: int) -> bool {
    forall|i: int| 0 <= i < k ==> source_ref_error(sources, i, #[trigger] roles[i]) is None
}

pub open spec fn drafts_owned_ok(drafts: Seq<TaskDraftRef>, owned: Seq<Result<bool, CoreError>>, k: int) -> bool {
    forall|i: int| 0 <= i < k ==> task_draft_error(drafts, i, #[trigger] owned[i]) is None
}

pub open spec fn focus_ok(c: ProjectComposer, focus_role: Result<String, CoreError>) -> bool {
    c.focused_document_ref matches Some(f) ==> focus_error(c.source_refs@, f, focus_role) is None
}

fn check_composer_head(h: &Head) -> (r: Result<(), CoreError>)
    ensures
        r is Ok <==> composer_head_ok(*h),
        r matches Err(e) ==> e.code == ErrorCode::InvalidProjectChat,
{
    if let Err(e) = check_stored_id(h.document_id.as_str()) {
        return Err(e);
    }
    if let Err(e) = check_stored_version_text(h.version.as_str()) {
        return Err(e);
    }
    check_stored_hash(h.body_hash.as_str())
}

fn named_in(heads: &Vec<Head>, k: usize, id: &str) -> (r: bool)
    requires
        k <= heads@.len(),
    ensures
        r == named_before(heads@, k as int, id@),
{
    let mut j: usize = 0;
    while j < k
        invariant
            k <= heads@.len(),
            0 <= j <= k,
            forall|m: int| 0 <= m < j ==> (#[trigger] heads@[m]).document_id@ != id@,
        decreases k - j,
    {
        if str_eq(heads[j].document_id.as_str(), id) {
            return true;
        }
        j += 1;
    }
    false
}

/// A stored composer keeps its storage bounds and names its sources, focus
/// and task drafts well: ordinary documents named once, and drafts of this
/// conversation named once. `source_roles[i]` is the read of source `i`'s
/// role, `focus_role` of the focused document's (consulted only when there
/// is one), and `draft_owned[i]` of whether task draft `i` belongs to the
/// conversation. The first refusal is reported.
#[verifier::loop_isolation(false)]
pub fn check_stored_composer(
    c: &ProjectComposer,
    source_roles: &Vec<Result<String, CoreError>>,
    focus_role: Result<String, CoreError>,
    draft_owned: &Vec<Result<bool, CoreError>>,
) -> (r: Result<(), CoreError>)
    requires
        source_roles@.len() == c.source_refs@.len(),
        draft_owned@.len() == c.task_draft_refs@.len(),
    ensures
        !composer_bounds_ok(*c) ==> fails_with(r, ErrorCode::InvalidProjectChat),
        composer_bounds_ok(*c) ==> (r is Ok <==> sources_ok(c.source_refs@, source_roles@, c.source_refs@.len() as int)
            && focus_ok(*c, focus_role) && drafts_owned_ok(c.task_draft_refs@, draft_owned@, c.task_draft_refs@.len() as int)),
        composer_bounds_ok(*c) && r is Err ==> {
            let code = r->Err_0.code;
            ||| exists|i: int| 0 <= i < c.source_refs@.len() && sources_ok(c.source_refs@, source_roles@, i)
                && source_ref_error(c.source_refs@, i, source_roles@[i]) == Some(code)
            ||| sources_ok(c.source_refs@, source_roles@, c.source_refs@.len() as int)
                && (c.focused_document_ref matches Some(f) && focus_error(c.source_refs@, f, focus_role) == Some(code))
            ||| sources_ok(c.source_refs@, source_roles@, c.source_refs@.len() as int) && focus_ok(*c, focus_role)
                && exists|i: int| 0 <= i < c.task_draft_refs@.len() && drafts_owned_ok(c.task_draft_refs@, draft_owned@, i)
                && task_draft_error(c.task_draft_refs@, i, draft_owned@[i]) == Some(code)
        },
{
    if byte_length(c.text.as_str()) > 65536 || c.source_refs.len() > 64 || c.task_draft_refs.len() > 3 {
        return Err(CoreError::new(ErrorCode::InvalidProjectChat, "The composer exceeds its storage bounds."));
    }
    proof {
        reveal_strlit("ordinary");
    }
    let sources = &c.source_refs;
    let n = sources.len();
    let mut i: usize = 0;
    while i < n
        invariant
            n == sources@.len(),
            sources@ == c.source_refs@,
            source_roles@.len() == n,
            0 <= i <= n,
            sources_ok(sources@, source_roles@, i as int),
        decreases n - i,
    {
        if check_composer_head(&sources[i]).is_err() || named_in(sources, i, sources[i].document_id.as_str()) {
            assert(source_ref_error(sources@, i as int, source_roles@[i as int]) == Some(ErrorCode::InvalidProjectChat));
            return Err(CoreError::new(ErrorCode::InvalidProjectChat, "A composer source has an invalid or repeated document head."));
        }
        match &source_roles[i] {
            Err(e) => {
                assert(source_ref_error(sources@, i as int, source_roles@[i as int]) == Some(e.code));
                return Err(e.clone());
            },
            Ok(role) => {
                if !str_eq(role.as_str(), "ordinary") {
                    assert(source_ref_error(sources@, i as int, source_roles@[i as int]) == Some(ErrorCode::InvalidProjectChat));
                    return Err(CoreError::new(ErrorCode::InvalidProjectChat, "The composer source is not an ordinary document."));
                }
            },
        }
        assert(source_ref_error(sources@, i as int, source_roles@[i as int]) is None);
        i += 1;
    }
    if let Some(f) = &c.focused_document_ref {
        if check_composer_head(f).is_err() || named_in(sources, n, f.document_id.as_str()) {
            return Err(CoreError::new(ErrorCode::InvalidProjectChat, "The composer focus has an invalid head or repeats a source."));
        }
        match focus_role {
            Err(e) => return Err(e),
            Ok(role) => {
                if !str_eq(role.as_str(), "ordinary") {
                    return Err(CoreError::new(ErrorCode::InvalidProjectChat, "The composer focus is not an ordinary document."));
                }
            },
        }
    }
    let drafts = &c.task_draft_refs;
    let m = drafts.len();
    let mut k: usize = 0;
    while k < m
        invariant
            m == drafts@.len(),
            drafts@ == c.task_draft_refs@,
            draft_owned@.len() == m,
            0 <= k <= m,
            drafts_owned_ok(drafts@, draft_owned@, k as int),
        decreases m - k,
    {
        let d = &drafts[k];
        if check_composer_head(&d.head).is_err() || check_stored_version_text(d.disposition_version.as_str()).is_err() {
            assert(task_draft_error(drafts@, k as int, draft_owned@[k as int]) == Some(ErrorCode::InvalidProjectChat));
            return Err(CoreError::new(ErrorCode::InvalidProjectChat, "The composer task draft reference is malformed."));
        }
        let mut j: usize = 0;
        while j < k
            invariant
                m == drafts@.len(),
                0 <= j <= k < m,
                forall|x: int| 0 <= x < j ==> (#[trigger] drafts@[x]).head.document_id@ != drafts@[k as int].head.document_id@,
            decreases k - j,
        {
            if str_eq(drafts[j].head.document_id.as_str(), drafts[k].head.document_id.as_str()) {
                assert(task_draft_error(drafts@, k as int, draft_owned@[k as int]) == Some(ErrorCode::InvalidProjectChat));
                return Err(CoreError::new(ErrorCode::InvalidProjectChat, "The composer repeats a task draft."));
            }
            j += 1;
        }
        match &draft_owned[k] {
            Err(e) => {
                assert(task_draft_error(drafts@, k as int, draft_owned@[k as int]) == Some(e.code));
                return Err(e.clone());
            },
            Ok(owned) => {
                if !*owned {
                    assert(task_draft_error(drafts@, k as int, draft_owned@[k as int]) == Some(ErrorCode::InvalidProjectChat));
                    return Err(CoreError::new(ErrorCode::InvalidProjectChat, "The composer task draft is outside its conversation."));
                }
            },
        }
        assert(task_draft_error(drafts@, k as int, draft_owned@[k as int]) is None);
        k += 1;
    }
    Ok(())
}

/// The chapter target's head is well formed, its version read as a
/// nonnegative integer.
pub open spec fn chapter_target_format_ok(t: Head) -> bool {
    valid_id(t.document_id@) && integer_text_ok(t.version@) && integer_text_value(t.version@) >= 0 && hex64(t.body_hash@)
}

/// The target is the current head of an ordinary chapter, the scope (if
/// any) is a bounded selection of that body, and the brief (if any) is a
/// bounded, nonblank, confirmed text.
pub open spec fn chapter_place_ok(chapter: ProjectChapterComposer, f: StoredDocumentFacts) -> bool {
    &&& f.role@ == "ordinary"@ && f.kind@ == "chapter"@
    &&& signed_decimal(f.working_version as int) == chapter.target.version@ && f.body_hash@ == chapter.target.body_hash@
    &&& chapter.scope matches Some(s) ==> byte_len(s.quote@) <= MAX_SCOPE_QUOTE_BYTES && hex64(s.source_body_hash@)
        && s.source_body_hash@ == chapter.target.body_hash@
    &&& chapter.safe_brief matches Some(b) ==> !is_blank(b.text@) && byte_len(b.text@) <= MAX_SAFE_BRIEF_BYTES && b.confirmed
}

/// A project brief names this conversation and target, and fingerprints
/// exactly this selection and text.
pub open spec fn stored_brief_origin_ok(owner: ConversationOwner, chapter: ProjectChapterComposer, b: SafeBriefInput, o: ProjectBriefOrigin, scope_json: Seq<u8>) -> bool {
    &&& o.version@ == "project-conversation-brief.v1"@
    &&& o.project_id@ == owner.project_id@ && o.operation_namespace@ == owner.operation_namespace@
    &&& o.conversation_id@ == owner.conversation_id@ && same_head(o.target, chapter.target)
    &&& valid_id(o.message_id@) && hex64(o.scope_hash@) && hex64(o.text_hash@)
    &&& o.scope_hash@ == lower_hex(sha256_of(scope_json))
    &&& o.text_hash@ == lower_hex(sha256_of(encode_utf8(b.text@)))
}

/// A brief's own message provenance is well formed and agrees with its
/// project provenance.
pub open spec fn origin_message_ok(b: SafeBriefInput) -> bool {
    b.origin_message_id matches Some(m) ==> valid_id(m@) && (b.project_origin matches Some(o) ==> o.message_id@ == m@)
}

/// A stored chapter task is consistent with its target document and its
/// brief's provenance. `target` is the read of the target document,
/// `scope_json` the serialized selection scope, and `message_exists` the
/// read of whether the project brief's message is in the conversation
/// (consulted only for a project brief).
pub fn check_stored_chapter_composer(
    owner: &ConversationOwner,
    chapter: &ProjectChapterComposer,
    target: Result<StoredDocumentFacts, CoreError>,
    scope_json: &[u8],
    message_exists: Result<bool, CoreError>,
) -> (r: Result<(), CoreError>)
    ensures
        !chapter_target_format_ok(chapter.target) ==> fails_with(r, ErrorCode::InvalidProjectChat),
        chapter_target_format_ok(chapter.target) ==> match target {
            Err(e) => r == Err::<(), CoreError>(e),
            Ok(f) => if !chapter_place_ok(*chapter, f) {
                fails_with(r, ErrorCode::InvalidProjectChat)
            } else {
                match chapter.safe_brief {
                    None => r is Ok,
                    Some(b) => match b.project_origin {
                        Some(o) => if !stored_brief_origin_ok(*owner, *chapter, b, o, scope_json@) {
                            fails_with(r, ErrorCode::InvalidProjectChat)
                        } else {
                            match message_exists {
                                Err(e) => r == Err::<(), CoreError>(e),
                                Ok(false) => fails_with(r, ErrorCode::InvalidProjectChat),
                                Ok(true) => if origin_message_ok(b) { r is Ok } else { fails_with(r, ErrorCode::InvalidProjectChat) },
                            }
                        },
                        None => if origin_message_ok(b) { r is Ok } else { fails_with(r, ErrorCode::InvalidProjectChat) },
                    },
                }
            },
        },
{
    let t = &chapter.target;
    let version_ok_here = match parse_lookup_counter(t.version.as_str()) {
        Ok(v) => v >= 0,
        Err(_) => false,
    };
    if check_stored_id(t.document_id.as_str()).is_err() || !version_ok_here || check_stored_hash(t.body_hash.as_str()).is_err() {
        return Err(CoreError::new(ErrorCode::InvalidProjectChat, "Chapter target head is invalid."));
    }
    let f = match target {
        Ok(f) => f,
        Err(e) => return Err(e),
    };
    proof {
        reveal_strlit("ordinary");
        reveal_strlit("chapter");
        reveal_strlit("project-conversation-brief.v1");
    }
    if !str_eq(f.role.as_str(), "ordinary") || !str_eq(f.kind.as_str(), "chapter") {
        return Err(CoreError::new(ErrorCode::InvalidProjectChat, "A chapter composer target must be an ordinary chapter document."));
    }
    let working = signed_decimal_text(f.working_version);
    if !str_eq(working.as_str(), t.version.as_str()) || !str_eq(f.body_hash.as_str(), t.body_hash.as_str()) {
        return Err(CoreError::new(ErrorCode::InvalidProjectChat, "A chapter composer target does not match its document head."));
    }
    if let Some(scope) = &chapter.scope {
        if byte_length(scope.quote.as_str()) > MAX_SCOPE_QUOTE_BYTES || !is_hex64(scope.source_body_hash.as_str())
            || !str_eq(scope.source_body_hash.as_str(), t.body_hash.as_str()) {
            return Err(CoreError::new(ErrorCode::InvalidProjectChat, "A chapter composer scope is malformed."));
        }
    }
    let b = match &chapter.safe_brief {
        None => return Ok(()),
        Some(b) => b,
    };
    if text_is_blank(b.text.as_str()) || byte_length(b.text.as_str()) > MAX_SAFE_BRIEF_BYTES || !b.confirmed {
        return Err(CoreError::new(ErrorCode::InvalidProjectChat, "A chapter composer brief is malformed."));
    }
    if let Some(o) = &b.project_origin {
        if !str_eq(o.version.as_str(), "project-conversation-brief.v1") || !str_eq(o.project_id.as_str(), owner.project_id.as_str())
            || !str_eq(o.operation_namespace.as_str(), owner.operation_namespace.as_str())
            || !str_eq(o.conversation_id.as_str(), owner.conversation_id.as_str())
            || !str_eq(o.target.document_id.as_str(), t.document_id.as_str()) || !str_eq(o.target.version.as_str(), t.version.as_str())
            || !str_eq(o.target.body_hash.as_str(), t.body_hash.as_str()) {
            return Err(CoreError::new(ErrorCode::InvalidProjectChat, "A chapter composer brief has the wrong project provenance."));
        }
        if check_stored_id(o.message_id.as_str()).is_err() || !is_hex64(o.scope_hash.as_str()) || !is_hex64(o.text_hash.as_str()) {
            return Err(CoreError::new(ErrorCode::InvalidProjectChat, "A chapter composer brief has malformed provenance."));
        }
        let scope_hash = sha256_hex(scope_json);
        let text_hash = sha256_hex(b.text.as_str().as_bytes());
        if !str_eq(o.scope_hash.as_str(), scope_hash.as_str()) || !str_eq(o.text_hash.as_str(), text_hash.as_str()) {
            return Err(CoreError::new(ErrorCode::InvalidProjectChat, "A chapter composer brief does not match its selected content."));
        }
        match message_exists {
            Err(e) => return Err(e),
            Ok(false) => return Err(CoreError::new(ErrorCode::InvalidProjectChat, "A chapter composer brief references a missing conversation message.")),
            Ok(true) => {},
        }
    }
    if let Some(m) = &b.origin_message_id {
        if check_stored_id(m.as_str()).is_err() {
            return Err(CoreError::new(ErrorCode::InvalidProjectChat, "A chapter composer brief has an invalid message."));
        }
        if let Some(o) = &b.project_origin {
            if !str_eq(o.message_id.as_str(), m.as_str()) {
                return Err(CoreError::new(ErrorCode::InvalidProjectChat, "A chapter composer brief has conflicting message provenance."));
            }
        }
    }
    Ok(())
}

// ---------------------------------------------------------- assistant drafts

/// A stored assistant draft row.
#[derive(Debug)]
pub struct AssistantDraftRow {
    pub document_id: String,
    pub conversation_id: String,
    pub project_id: String,
    pub operation_namespace: String,
    pub origin_run_id: String,
    pub output_ordinal: i64,
    pub packet_id: String,
    pub source_epoch: i64,
    pub policy_epoch: i64,
    /// Whether the draft names an ordinary document it would replace.
    pub has_target: bool,
    pub predecessor_document_id: Option<String>,
    pub disposition: String,
    pub disposition_version: i64,
}

/// What the read of an assistant draft's document says of it.
#[derive(Debug)]
pub struct DraftDocumentFacts {
    pub role: String,
    pub trashed: i64,
    pub working_version: i64,
    pub body_hash: String,
    pub has_checkpoint: bool,
}

pub open spec fn disposition_name(s: Seq<char>) -> bool {
    s == "pending"@ || s == "rejected"@ || s == "adopted"@ || s == "superseded"@
}

/// The row's own fields: a valid document, a conversation of the same
/// project, an output ordinal below 3, nonnegative epochs and disposition
/// version, and a known disposition.
pub open spec fn draft_row_ok(row: AssistantDraftRow, owner: Option<ConversationOwner>) -> bool {
    &&& valid_id(row.document_id@)
    &&& owner matches Some(o) && o.project_id@ == row.project_id@ && o.operation_namespace@ == row.operation_namespace@
    &&& 0 <= row.output_ordinal < 3
    &&& row.source_epoch >= 0 && row.policy_epoch >= 0 && row.disposition_version >= 0
    &&& disposition_name(row.disposition@)
}

/// The draft document is a live assistant draft with a well-formed head.
pub open spec fn draft_document_ok(row: AssistantDraftRow, d: DraftDocumentFacts) -> bool {
    d.role@ == "assistantDraft"@ && d.trashed == 0 && d.working_version >= 0 && hex64(d.body_hash@)
}

/// The draft's provenance: a checkpointed initial revision of the draft
/// itself, the run and packet of this project that produced it, and a
/// materialization event for that run.
pub open spec fn draft_provenance_ok(
    row: AssistantDraftRow,
    d: DraftDocumentFacts,
    initial_document: Seq<char>,
    run: Option<RunProvenance>,
    packet_matches: bool,
    materialized: bool,
) -> bool {
    &&& d.has_checkpoint && initial_document == row.document_id@
    &&& run matches Some(p) && p.project_id@ == row.project_id@ && p.operation_namespace@ == row.operation_namespace@
        && p.packet_id@ == row.packet_id@
    &&& packet_matches && materialized
}

/// A named predecessor is another draft of the same conversation.
pub open spec fn predecessor_ok(row: AssistantDraftRow, predecessor_known: bool) -> bool {
    row.predecessor_document_id matches Some(p) ==> valid_id(p@) && predecessor_known && p@ != row.document_id@
}

/// The run that produced a draft, as stored.
#[derive(Debug)]
pub struct RunProvenance {
    pub project_id: String,
    pub operation_namespace: String,
    pub packet_id: String,
}

/// A stored assistant draft is a live, checkpointed draft of its
/// conversation, produced and materialized by a run of its project, with a
/// valid target and predecessor. `owner` is the draft's conversation,
/// `document` the read of its document, `initial_revision` the check of its
/// initial revision (the revision's document), `run` the stored provenance
/// of its run, `packet_matches` and `materialized` whether its packet and
/// materialization event are the project's, `target` the check of the
/// target it names (consulted only when it names one), and
/// `predecessor_known` whether the named predecessor is a draft of the same
/// conversation.
pub fn check_stored_assistant_draft(
    row: &AssistantDraftRow,
    owner: &Option<ConversationOwner>,
    document: Result<DraftDocumentFacts, CoreError>,
    initial_revision: Result<String, CoreError>,
    run: &Option<RunProvenance>,
    packet_matches: bool,
    materialized: bool,
    target: Result<(), CoreError>,
    predecessor_known: bool,
) -> (r: Result<(), CoreError>)
    ensures
        !draft_row_ok(*row, *owner) ==> fails_with(r, ErrorCode::InvalidProjectChat),
        draft_row_ok(*row, *owner) ==> match document {
            Err(e) => r == Err::<(), CoreError>(e),
            Ok(d) => if !draft_document_ok(*row, d) {
                fails_with(r, ErrorCode::InvalidProjectChat)
            } else {
                match initial_revision {
                    Err(e) => r == Err::<(), CoreError>(e),
                    Ok(initial) => if !draft_provenance_ok(*row, d, initial@, *run, packet_matches, materialized) {
                        fails_with(r, ErrorCode::InvalidProjectChat)
                    } else if row.has_target && target is Err {
                        r == target
                    } else if predecessor_ok(*row, predecessor_known) {
                        r is Ok
                    } else {
                        fails_with(r, ErrorCode::InvalidProjectChat)
                    },
                }
            },
        },
{
    if let Err(e) = check_stored_id(row.document_id.as_str()) {
        return Err(e);
    }
    let o = match owner {
        None => return Err(CoreError::new(ErrorCode::InvalidProjectChat, "An assistant draft has no conversation root.")),
        Some(o) => o,
    };
    if !str_eq(o.project_id.as_str(), row.project_id.as_str()) || !str_eq(o.operation_namespace.as_str(), row.operation_namespace.as_str()) {
        return Err(CoreError::new(ErrorCode::InvalidProjectChat, "An assistant draft has the wrong owner."));
    }
    if row.output_ordinal < 0 || row.output_ordinal >= 3 {
        return Err(CoreError::new(ErrorCode::InvalidProjectChat, "An assistant draft output ordinal is invalid."));
    }
    if row.source_epoch < 0 || row.policy_epoch < 0 || row.disposition_version < 0 {
        return Err(CoreError::new(ErrorCode::InvalidProjectChat, "An assistant draft epoch or disposition version is negative."));
    }
    proof {
        reveal_strlit("pending");
        reveal_strlit("rejected");
        reveal_strlit("adopted");
        reveal_strlit("superseded");
        reveal_strlit("assistantDraft");
    }
    if !(str_eq(row.disposition.as_str(), "pending") || str_eq(row.disposition.as_str(), "rejected")
        || str_eq(row.disposition.as_str(), "adopted") || str_eq(row.disposition.as_str(), "superseded")) {
        return Err(CoreError::new(ErrorCode::InvalidProjectChat, "An assistant draft disposition is invalid."));
    }
    let d = match document {
        Ok(d) => d,
        Err(e) => return Err(e),
    };
    if !str_eq(d.role.as_str(), "assistantDraft") || d.trashed != 0 {
        return Err(CoreError::new(ErrorCode::InvalidProjectChat, "An assistant draft document has the wrong role."));
    }
    if let Err(e) = check_stored_head(row.document_id.as_str(), d.working_version, d.body_hash.as_str()) {
        return Err(e);
    }
    let initial = match initial_revision {
        Ok(i) => i,
        Err(e) => return Err(e),
    };
    if !d.has_checkpoint || !str_eq(initial.as_str(), row.document_id.as_str()) {
        return Err(CoreError::new(ErrorCode::InvalidProjectChat, "An assistant draft has an invalid initial revision."));
    }
    let run_ok = match run {
        Some(p) => str_eq(p.project_id.as_str(), row.project_id.as_str())
            && str_eq(p.operation_namespace.as_str(), row.operation_namespace.as_str())
            && str_eq(p.packet_id.as_str(), row.packet_id.as_str()),
        None => false,
    };
    if !run_ok {
        return Err(CoreError::new(ErrorCode::InvalidProjectChat, "An assistant draft has invalid run provenance."));
    }
    if !packet_matches {
        return Err(CoreError::new(ErrorCode::InvalidProjectChat, "An assistant draft packet is missing or belongs elsewhere."));
    }
    if !materialized {
        return Err(CoreError::new(ErrorCode::InvalidProjectChat, "An assistant draft has no materialization event."));
    }
    if row.has_target {
        if let Err(e) = target {
            return Err(e);
        }
    }
    if let Some(p) = &row.predecessor_document_id {
        if check_stored_id(p.as_str()).is_err() || !predecessor_known || str_eq(p.as_str(), row.document_id.as_str()) {
            return Err(CoreError::new(ErrorCode::InvalidProjectChat, "An assistant draft predecessor is invalid."));
        }
    }
    Ok(())
}

// ------------------------------------------------------------- dispositions

/// Where a disposition applies.
#[derive(Debug, Clone, Copy, PartialEq, Eq, Structural)]
pub enum DispositionScopeKind {
    Project,
    Task,
    Chapter,
    Document,
}

/// A retained disposition event, as far as its checks read it.
#[derive(Debug)]
pub struct DispositionPayload {
    pub disposition: String,
    pub scope_kind: DispositionScopeKind,
    pub scope_reference: Option<String>,
    /// Whether the disposition names readers a question stays unknown to.
    pub has_unknown_to: bool,
}

/// `k` is the first colon of `s`.
pub open spec fn colon_at(s: Seq<char>, k: int) -> bool {
    0 <= k < s.len() && s[k] == ':' && forall|j: int| 0 <= j < k ==> s[j] != ':'
}

/// Splits a reference at its first colon.
fn split_reference(value: &str) -> (r: Option<(String, String)>)
    ensures
        match r {
            None => !value@.contains(':'),
            Some((a, b)) => exists|k: int| colon_at(value@, k) && a@ == value@.take(k) && b@ == value@.skip(k + 1),
        },
{
    let n = value.unicode_len();
    let mut i: usize = 0;
    while i < n
        invariant
            n == value@.len(),
            0 <= i <= n,
            forall|j: int| 0 <= j < i ==> value@[j] != ':',
        decreases n - i,
    {
        if value.get_char(i) == ':' {
            let a = value.substring_char(0, i).to_owned();
            let b = value.substring_char(i + 1, n).to_owned();
            assert(colon_at(value@, i as int));
            assert(a@ =~= value@.take(i as int));
            assert(b@ =~= value@.skip(i + 1));
            return Some((a, b));
        }
        i += 1;
    }
    None
}

/// The checks on a disposition's response reference and scope, once its
/// producing run is known to be `run_id` with assumption key `key`.
pub open spec fn response_disposition_ok(
    p: DispositionPayload,
    run_id: Seq<char>,
    linked: bool,
    assumption: bool,
    document_kind: Option<Seq<char>>,
) -> bool {
    &&& valid_id(run_id) && linked
    &&& assumption ==> p.scope_kind == DispositionScopeKind::Project && !p.has_unknown_to
    &&& match p.scope_kind {
        DispositionScopeKind::Project => true,
        DispositionScopeKind::Task => opt_view(p.scope_reference) == Some(run_id),
        DispositionScopeKind::Chapter => document_kind == Some("chapter"@),
        DispositionScopeKind::Document => document_kind is Some,
    }
}

/// A retained disposition is consistent with what it disposes of. Only a
/// keep-mysterious disposition names readers; a draft's disposition (a
/// reference without a colon) is project-wide; a response's ("run:key")
/// comes from a request of this conversation, an assumption's is
/// project-wide, and a task, chapter or document scope names its run, an
/// ordinary chapter or an ordinary document. `scope_shape_ok` is the scope's
/// own shape check, `linked` whether the producing run is a request of this
/// conversation, `assumption` whether the key names an assumption of the
/// run's output (consulted only for a nonempty key), and `document_kind` the
/// kind of the ordinary document a chapter or document scope names, if it
/// is one.
pub fn check_disposition_payload(
    reference_id: &str,
    p: &DispositionPayload,
    scope_shape_ok: bool,
    linked: bool,
    assumption: Result<bool, CoreError>,
    document_kind: &Option<String>,
) -> (r: Result<(), CoreError>)
    ensures
        !scope_shape_ok || (p.has_unknown_to && p.disposition@ != "keepMysterious"@) ==> fails_with(r, ErrorCode::InvalidProjectChat),
        scope_shape_ok && !(p.has_unknown_to && p.disposition@ != "keepMysterious"@) ==> {
            if !reference_id@.contains(':') {
                if p.scope_kind == DispositionScopeKind::Project && !p.has_unknown_to { r is Ok } else {
                    fails_with(r, ErrorCode::InvalidProjectChat)
                }
            } else {
                exists|k: int| colon_at(reference_id@, k) && {
                    let run_id = reference_id@.take(k);
                    let key = reference_id@.skip(k + 1);
                    if !valid_id(run_id) || !linked {
                        fails_with(r, ErrorCode::InvalidProjectChat)
                    } else if key.len() > 0 && assumption is Err {
                        r == Err::<(), CoreError>(assumption->Err_0)
                    } else {
                        let is_assumption = key.len() > 0 && assumption == Ok::<bool, CoreError>(true);
                        if response_disposition_ok(*p, run_id, linked, is_assumption,
                            match document_kind { Some(d) => Some(d@), None => None }) {
                            r is Ok
                        } else {
                            fails_with(r, ErrorCode::InvalidProjectChat)
                        }
                    }
                }
            }
        },
{
    if !scope_shape_ok {
        return Err(CoreError::new(ErrorCode::InvalidProjectChat, "A disposition scope is malformed."));
    }
    proof {
        reveal_strlit("keepMysterious");
        reveal_strlit("chapter");
    }
    if p.has_unknown_to && !str_eq(p.disposition.as_str(), "keepMysterious") {
        return Err(CoreError::new(ErrorCode::InvalidProjectChat, "unknownTo is only valid for keepMysterious questions."));
    }
    let (run_id, key) = match split_reference(reference_id) {
        None => {
            if p.scope_kind != DispositionScopeKind::Project || p.has_unknown_to {
                return Err(CoreError::new(ErrorCode::InvalidProjectChat, "Draft dispositions must use project scope without unknownTo."));
            }
            return Ok(());
        },
        Some(pair) => pair,
    };
    if check_stored_id(run_id.as_str()).is_err() {
        return Err(CoreError::new(ErrorCode::InvalidProjectChat, "A response disposition producer has an invalid identifier."));
    }
    if !linked {
        return Err(CoreError::new(ErrorCode::InvalidProjectChat, "A response disposition producer is outside its conversation."));
    }
    if !key.as_str().is_empty() {
        let is_assumption = match assumption {
            Ok(b) => b,
            Err(e) => return Err(e),
        };
        if is_assumption && (p.scope_kind != DispositionScopeKind::Project || p.has_unknown_to) {
            return Err(CoreError::new(ErrorCode::InvalidProjectChat, "Assumption dispositions must use project scope without unknownTo."));
        }
    }
    match p.scope_kind {
        DispositionScopeKind::Project => Ok(()),
        DispositionScopeKind::Task => {
            let same = match &p.scope_reference {
                Some(reference) => str_eq(reference.as_str(), run_id.as_str()),
                None => false,
            };
            if !same {
                return Err(CoreError::new(ErrorCode::InvalidProjectChat, "A task disposition scope must reference its producing run."));
            }
            Ok(())
        },
        DispositionScopeKind::Chapter | DispositionScopeKind::Document => {
            let kind = match document_kind {
                None => return Err(CoreError::new(ErrorCode::InvalidProjectChat, "A disposition scope references a missing or ineligible document.")),
                Some(k) => k,
            };
            if p.scope_kind == DispositionScopeKind::Chapter && !str_eq(kind.as_str(), "chapter") {
                return Err(CoreError::new(ErrorCode::InvalidProjectChat, "A disposition scope references an ineligible document."));
            }
            Ok(())
        },
    }
}

// ---------------------------------------------------------------- revisions

/// A stored revision.
#[derive(Debug)]
pub struct RevisionRow {
    pub document_id: String,
    pub source_working_version: i64,
    pub body_hash: String,
    pub parent_id: Option<String>,
    pub schema_version: i64,
}

fn already_seen(seen: &Vec<String>, id: &str) -> (r: bool)
    ensures
        r == has_text(seen@, id@),
{
    let n = seen.len();
    let mut i: usize = 0;
    while i < n
        invariant
            n == seen@.len(),
            0 <= i <= n,
            forall|j: int| 0 <= j < i ==> (#[trigger] seen@[j])@ != id@,
        decreases n - i,
    {
        if str_eq(seen[i].as_str(), id) {
            return true;
        }
        i += 1;
    }
    false
}

/// A revision of the expected document, of the supported schema, with a
/// well-formed head and (for the first revision walked) the expected body
/// fingerprint.
pub open spec fn revision_row_ok(expected_document_id: Seq<char>, expected_hash: Option<Seq<char>>, row: RevisionRow) -> bool {
    &&& row.document_id@ == expected_document_id && row.schema_version == 1
    &&& valid_id(row.document_id@) && row.source_working_version >= 0 && hex64(row.body_hash@)
    &&& expected_hash matches Some(h) ==> h == row.body_hash@
}

/// One step of walking a revision's ancestry: the revision is a fresh valid
/// identity (a repeat means the ancestry has a cycle), its row belongs to
/// the document, and its body checks out; the walk continues at its
/// parent, if any. `seen` holds the revisions already walked, `row` is the
/// read of this revision, `body` the check of its stored body, and
/// `expected_hash` the fingerprint the first revision must have.
pub fn revision_step(
    expected_document_id: &str,
    expected_hash: &Option<String>,
    seen: &Vec<String>,
    revision_id: &str,
    row: Result<RevisionRow, CoreError>,
    body: Result<(), CoreError>,
) -> (r: Result<Option<String>, CoreError>)
    ensures
        !valid_id(revision_id@) || has_text(seen@, revision_id@) ==> fails_with(r, ErrorCode::InvalidProjectChat),
        valid_id(revision_id@) && !has_text(seen@, revision_id@) ==> match row {
            Err(e) => r == Err::<Option<String>, CoreError>(e),
            Ok(rv) => if !revision_row_ok(expected_document_id@, opt_view(*expected_hash), rv) {
                fails_with(r, ErrorCode::InvalidProjectChat)
            } else {
                match body {
                    Err(e) => r == Err::<Option<String>, CoreError>(e),
                    Ok(_) => r == Ok::<Option<String>, CoreError>(rv.parent_id),
                }
            },
        },
{
    if check_stored_id(revision_id).is_err() {
        return Err(CoreError::new(ErrorCode::InvalidProjectChat, "A revision has an invalid identifier."));
    }
    if already_seen(seen, revision_id) {
        return Err(CoreError::new(ErrorCode::InvalidProjectChat, "Revision ancestry contains a cycle."));
    }
    let rv = match row {
        Ok(rv) => rv,
        Err(e) => return Err(e),
    };
    if !str_eq(rv.document_id.as_str(), expected_document_id) || rv.schema_version != 1 {
        return Err(CoreError::new(ErrorCode::InvalidProjectChat, "A revision points at the wrong document or schema."));
    }
    if let Err(e) = check_stored_head(rv.document_id.as_str(), rv.source_working_version, rv.body_hash.as_str()) {
        return Err(e);
    }
    if let Some(h) = expected_hash {
        if !str_eq(h.as_str(), rv.body_hash.as_str()) {
            return Err(CoreError::new(ErrorCode::InvalidProjectChat, "A revision body hash does not match its document."));
        }
    }
    if let Err(e) = body {
        return Err(e);
    }
    Ok(rv.parent_id)
}

// ------------------------------------------------------------ anchors, heads

/// One top-level block of a stored document body: its type where that is a
/// string, and the length of its content where that is an array.
#[derive(Debug)]
pub struct AnchorBlock {
    pub block_type: Option<String>,
    pub content_len: Option<usize>,
}

/// A body is blank: its content is a single paragraph with no content.
pub open spec fn blank_blocks(blocks: Option<Seq<AnchorBlock>>) -> bool {
    &&& blocks matches Some(b)
    &&& b.len() == 1
    &&& (b[0].block_type matches Some(t) && t@ == "paragraph"@)
    &&& (b[0].content_len is None || b[0].content_len == Some(0usize))
}

/// Whether a stored body's top-level blocks (none when the body has no
/// content array) are those of a blank document.
pub fn blank_anchor(blocks: &Option<Vec<AnchorBlock>>) -> (r: bool)
    ensures
        r == blank_blocks(match blocks { Some(b) => Some(b@), None => None }),
{
    proof {
        reveal_strlit("paragraph");
    }
    match blocks {
        None => false,
        Some(b) => {
            if b.len() != 1 {
                return false;
            }
            let paragraph = match &b[0].block_type {
                Some(t) => str_eq(t.as_str(), "paragraph"),
                None => false,
            };
            let empty = match b[0].content_len {
                Some(n) => n == 0,
                None => true,
            };
            paragraph && empty
        },
    }
}

/// What backup validation reads of a conversation's anchor document.
#[derive(Debug)]
pub struct AnchorFacts {
    pub role: String,
    pub kind: String,
    pub trashed: i64,
    pub blocks: Option<Vec<AnchorBlock>>,
    pub checkpoint: Option<String>,
}

pub open spec fn anchor_place_ok(f: AnchorFacts) -> bool {
    f.role@ == "conversationAnchor"@ && f.kind@ == "note"@ && f.trashed == 0
}

/// A conversation anchor is a live blank note in the anchor role with an
/// immutable revision; that revision is returned, to be checked against the
/// anchor's body. Every refusal is `InvalidProjectChat`.
pub fn check_anchor(f: &AnchorFacts) -> (r: Result<String, CoreError>)
    ensures
        match r {
            Ok(c) => anchor_place_ok(*f)
                && blank_blocks(match f.blocks { Some(b) => Some(b@), None => None })
                && (f.checkpoint matches Some(k) && k@ == c@),
            Err(e) => e.code == ErrorCode::InvalidProjectChat && !(anchor_place_ok(*f)
                && blank_blocks(match f.blocks { Some(b) => Some(b@), None => None })
                && f.checkpoint is Some),
        },
{
    proof {
        reveal_strlit("conversationAnchor");
        reveal_strlit("note");
    }
    if !str_eq(f.role.as_str(), "conversationAnchor") || !str_eq(f.kind.as_str(), "note") || f.trashed != 0 {
        return Err(CoreError::new(ErrorCode::InvalidProjectChat, "A project conversation anchor has the wrong role or kind."));
    }
    if !blank_anchor(&f.blocks) {
        return Err(CoreError::new(ErrorCode::InvalidProjectChat, "A project conversation anchor must remain blank."));
    }
    match &f.checkpoint {
        None => Err(CoreError::new(ErrorCode::InvalidProjectChat, "A project conversation anchor has no immutable revision.")),
        Some(c) => Ok(c.clone()),
    }
}

/// A stored head as read from its JSON value: whether the value is an
/// object, and each field where it is a string.
#[derive(Debug)]
pub struct HeadFields {
    pub is_object: bool,
    pub document_id: Option<String>,
    pub version: Option<String>,
    pub body_hash: Option<String>,
}

pub open spec fn head_fields_ok(f: HeadFields) -> bool {
    &&& f.is_object
    &&& (f.document_id matches Some(d) && valid_id(d@))
    &&& (f.version matches Some(v) && version_ok(v@))
    &&& (f.body_hash matches Some(h) && hex64(h@))
}

/// The head a stored JSON value names: an object with a well-formed
/// document identifier, version text and body fingerprint. Every refusal is
/// `InvalidProjectChat`.
pub fn check_head_fields(f: &HeadFields) -> (r: Result<Head, CoreError>)
    ensures
        r is Ok <==> head_fields_ok(*f),
        r matches Ok(h) ==> (f.document_id matches Some(d) && h.document_id@ == d@)
            && (f.version matches Some(v) && h.version@ == v@)
            && (f.body_hash matches Some(b) && h.body_hash@ == b@),
        r matches Err(e) ==> e.code == ErrorCode::InvalidProjectChat,
{
    if !f.is_object {
        return Err(CoreError::new(ErrorCode::InvalidProjectChat, "A stored head is not an object."));
    }
    let document_id = match &f.document_id {
        None => {
            return Err(CoreError::new(ErrorCode::InvalidProjectChat, "A stored head has no document ID."));
        },
        Some(d) => d,
    };
    let version = match &f.version {
        None => {
            return Err(CoreError::new(ErrorCode::InvalidProjectChat, "A stored head has no version."));
        },
        Some(v) => v,
    };
    let body_hash = match &f.body_hash {
        None => {
            return Err(CoreError::new(ErrorCode::InvalidProjectChat, "A stored head has no body hash."));
        },
        Some(b) => b,
    };
    if let Err(e) = check_stored_id(document_id.as_str()) {
        return Err(e);
    }
    if let Err(e) = check_stored_version_text(version.as_str()) {
        return Err(e);
    }
    if let Err(e) = check_stored_hash(body_hash.as_str()) {
        return Err(e);
    }
    Ok(Head { document_id: document_id.clone(), version: version.clone(), body_hash: body_hash.clone() })
}

// --------------------------------------------------------- command receipts

/// A chat command receipt row is well formed: namespace and operation are
/// identifiers and the payload fingerprint is 64 hexadecimal digits.
pub fn check_receipt_row(namespace: &str, operation_id: &str, payload_hash: &str) -> (r: Result<(), CoreError>)
    ensures
        r is Ok <==> (valid_id(namespace@) && valid_id(operation_id@) && hex64(payload_hash@)),
        r matches Err(e) ==> e.code == ErrorCode::InvalidProjectChat,
{
    if let Err(e) = check_stored_id(namespace) {
        return Err(e);
    }
    if let Err(e) = check_stored_id(operation_id) {
        return Err(e);
    }
    check_stored_hash(payload_hash)
}

/// One committed document of a stored adoption receipt, as read from its
/// JSON: whether it is an object, its head, its role and its checkpoint.
#[derive(Debug)]
pub struct ReceiptDocumentFields {
    pub is_object: bool,
    pub head: Option<HeadFields>,
    pub role: Option<String>,
    pub last_checkpoint_id: Option<String>,
}

/// A stored adoption receipt, as read from its JSON.
#[derive(Debug)]
pub struct ReceiptFields {
    pub is_object: bool,
    pub preview_id: Option<String>,
    pub decision_id: Option<String>,
    pub documents: Option<Vec<ReceiptDocumentFields>>,
}

pub open spec fn receipt_header_ok(linked: bool, f: ReceiptFields) -> bool {
    &&& linked
    &&& f.is_object
    &&& (f.preview_id matches Some(p) && valid_id(p@))
    &&& (f.decision_id matches Some(d) && valid_id(d@))
    &&& (f.documents matches Some(ds) && 1 <= ds@.len() <= 3)
}

/// An adoption receipt has an immutable conversation event (`linked`), is
/// an object naming its preview and decision, and commits one to three
/// documents. Every refusal is `InvalidProjectChat`.
pub fn check_receipt_header(linked: bool, f: &ReceiptFields) -> (r: Result<(), CoreError>)
    ensures
        r is Ok <==> receipt_header_ok(linked, *f),
        r matches Err(e) ==> e.code == ErrorCode::InvalidProjectChat,
{
    if !linked {
        return Err(CoreError::new(ErrorCode::InvalidProjectChat, "A chat receipt has no immutable conversation event."));
    }
    if !f.is_object {
        return Err(CoreError::new(ErrorCode::InvalidProjectChat, "An adoption receipt is not an object."));
    }
    let preview_id = match &f.preview_id {
        None => {
            return Err(CoreError::new(ErrorCode::InvalidProjectChat, "An adoption receipt has no preview."));
        },
        Some(p) => p,
    };
    let decision_id = match &f.decision_id {
        None => {
            return Err(CoreError::new(ErrorCode::InvalidProjectChat, "An adoption receipt has no decision."));
        },
        Some(d) => d,
    };
    if let Err(e) = check_stored_id(preview_id.as_str()) {
        return Err(e);
    }
    if let Err(e) = check_stored_id(decision_id.as_str()) {
        return Err(e);
    }
    match &f.documents {
        None => Err(CoreError::new(ErrorCode::InvalidProjectChat, "An adoption receipt has no documents.")),
        Some(ds) => {
            if ds.len() == 0 || ds.len() > 3 {
                return Err(CoreError::new(ErrorCode::InvalidProjectChat, "An adoption receipt has an invalid document count."));
            }
            Ok(())
        },
    }
}

/// The revision a receipt document must still name.
#[derive(Debug)]
pub struct ReceiptRevision {
    pub checkpoint_id: String,
    pub document_id: String,
    pub body_hash: String,
}

pub open spec fn receipt_document_ok(d: ReceiptDocumentFields) -> bool {
    &&& d.is_object
    &&& (d.head matches Some(h) && head_fields_ok(h))
    &&& (d.role matches Some(r) && r@ == "ordinary"@)
    &&& d.last_checkpoint_id is Some
}

/// A committed receipt document is an object with a well-formed head, is an
/// ordinary document, and names its checkpoint; the checkpoint, document
/// and body it names are returned for the revision check. Every refusal is
/// `InvalidProjectChat`.
pub fn check_receipt_document(d: &ReceiptDocumentFields) -> (r: Result<ReceiptRevision, CoreError>)
    ensures
        r is Ok <==> receipt_document_ok(*d),
        r matches Ok(v) ==> (d.last_checkpoint_id matches Some(c) && v.checkpoint_id@ == c@)
            && (d.head matches Some(h) && (h.document_id matches Some(i) && v.document_id@ == i@)
                && (h.body_hash matches Some(b) && v.body_hash@ == b@)),
        r matches Err(e) ==> e.code == ErrorCode::InvalidProjectChat,
{
    proof {
        reveal_strlit("ordinary");
    }
    if !d.is_object {
        return Err(CoreError::new(ErrorCode::InvalidProjectChat, "An adoption receipt document is invalid."));
    }
    let fields = match &d.head {
        None => {
            return Err(CoreError::new(ErrorCode::InvalidProjectChat, "An adoption receipt document has no head."));
        },
        Some(h) => h,
    };
    let head = match check_head_fields(fields) {
        Err(e) => {
            return Err(e);
        },
        Ok(h) => h,
    };
    let ordinary = match &d.role {
        Some(role) => str_eq(role.as_str(), "ordinary"),
        None => false,
    };
    if !ordinary {
        return Err(CoreError::new(ErrorCode::InvalidProjectChat, "An adoption receipt can only rehydrate ordinary documents."));
    }
    match &d.last_checkpoint_id {
        None => Err(CoreError::new(ErrorCode::InvalidProjectChat, "An adoption receipt has no checkpoint.")),
        Some(c) => Ok(ReceiptRevision { checkpoint_id: c.clone(), document_id: head.document_id, body_hash: head.body_hash }),
    }
}

/// The document the first committed document's head names, if any.
pub open spec fn first_receipt_document(f: ReceiptFields) -> Option<Seq<char>> {
    match f.documents {
        Some(ds) => if ds@.len() > 0 {
            match ds@[0].head {
                Some(h) => match h.document_id {
                    Some(i) => Some(i@),
                    None => None,
                },
                None => None,
            }
        } else {
            None
        },
        None => None,
    }
}

/// The command receipt's document is the first committed document.
pub fn check_receipt_first_document(row_document_id: &Option<String>, f: &ReceiptFields) -> (r: Result<(), CoreError>)
    ensures
        r is Ok <==> opt_view(*row_document_id) == first_receipt_document(*f),
        r matches Err(e) ==> e.code == ErrorCode::InvalidProjectChat,
{
    let first: Option<&String> = match &f.documents {
        Some(ds) => if ds.len() > 0 {
            match &ds[0].head {
                Some(h) => h.document_id.as_ref(),
                None => None,
            }
        } else {
            None
        },
        None => None,
    };
    let same = match (row_document_id, first) {
        (None, None) => true,
        (Some(a), Some(b)) => str_eq(a.as_str(), b.as_str()),
        _ => false,
    };
    if !same {
        return Err(CoreError::new(ErrorCode::InvalidProjectChat, "An adoption receipt head does not match its command receipt."));
    }
    Ok(())
}

/// Some project conversation is owned in this namespace.
pub open spec fn namespace_owned(owner_namespaces: Seq<String>, namespace: Seq<char>) -> bool {
    exists|k: int| 0 <= k < owner_namespaces.len() && (#[trigger] owner_namespaces[k])@ == namespace
}

pub open spec fn chat_receipt_ok(
    linked: bool,
    row_document_id: Option<String>,
    head: HeadFields,
    saved_generation: Seq<char>,
    owner_namespaces: Seq<String>,
    namespace: Seq<char>,
) -> bool {
    &&& linked
    &&& (row_document_id matches Some(d) ==> (head.document_id matches Some(h) && h@ == d@))
    &&& head_fields_ok(head)
    &&& version_ok(saved_generation)
    &&& namespace_owned(owner_namespaces, namespace)
}

/// Any other chat command receipt has an immutable conversation event
/// (`linked`), a result head for the receipt's document that is well
/// formed, a canonical saved generation, and a project-chat owner in its
/// namespace. Every refusal is `InvalidProjectChat`.
pub fn check_chat_receipt_result(
    linked: bool,
    row_document_id: &Option<String>,
    head: &HeadFields,
    saved_generation: &str,
    owner_namespaces: &Vec<String>,
    namespace: &str,
) -> (r: Result<(), CoreError>)
    ensures
        r is Ok <==> chat_receipt_ok(linked, *row_document_id, *head, saved_generation@, owner_namespaces@, namespace@),
        r matches Err(e) ==> e.code == ErrorCode::InvalidProjectChat,
{
    if !linked {
        return Err(CoreError::new(ErrorCode::InvalidProjectChat, "A chat receipt has no immutable conversation event."));
    }
    if let Some(d) = row_document_id {
        let same = match &head.document_id {
            Some(h) => str_eq(h.as_str(), d.as_str()),
            None => false,
        };
        if !same {
            return Err(CoreError::new(ErrorCode::InvalidProjectChat, "A chat receipt result has the wrong document."));
        }
    }
    if let Err(e) = check_head_fields(head) {
        return Err(e);
    }
    if let Err(e) = check_stored_version_text(saved_generation) {
        return Err(e);
    }
    let n = owner_namespaces.len();
    let mut k: usize = 0;
    while k < n
        invariant
            n == owner_namespaces@.len(),
            0 <= k <= n,
            forall|j: int| 0 <= j < k ==> (#[trigger] owner_namespaces@[j])@ != namespace@,
            linked,
            row_document_id matches Some(d) ==> (head.document_id matches Some(h) && h@ == d@),
            head_fields_ok(*head),
            version_ok(saved_generation@),
        decreases n - k,
    {
        if str_eq(owner_namespaces[k].as_str(), namespace) {
            proof {
                assert((owner_namespaces@[k as int])@ == namespace@);
            }
            return Ok(());
        }
        k += 1;
    }
    Err(CoreError::new(ErrorCode::InvalidProjectChat, "A chat receipt has no project-chat owner."))
}

} // verus!

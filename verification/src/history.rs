//! Read-only access to retained project-chat conversations: which identity a
//! history request names, how a page of items is cut, and the checks each
//! retained item must pass before it is shown.
use vstd::prelude::*;
use vstd::utf8::encode_utf8;
use crate::digest::{lower_hex, sha256_hex, sha256_of};
use crate::error::{CoreError, ErrorCode, fails_with};
use crate::request::FeedbackIntent;
use crate::start::{signed_decimal, signed_decimal_text};
use crate::text::{check_id, lower_hex64, is_lower_hex64, parse_version, valid_id, version_ok, version_value};
use crate::vocab::{opt_view, str_eq, ProjectAccess, RunOwner};

verus! {

broadcast use vstd::string::group_string_axioms;

/// The largest page of retained conversation items.
pub const HISTORY_PAGE_SIZE: u32 = 40;

/// The project identity and conversation a history request names.
#[derive(Debug)]
pub struct HistoricalConversationRef {
    pub project_id: String,
    pub operation_namespace: String,
    pub conversation_id: String,
}

/// A request for one page of a retained conversation.
#[derive(Debug)]
pub struct ReadProjectChatHistory {
    pub access: ProjectAccess,
    pub conversation: HistoricalConversationRef,
    /// Only items with a smaller sequence; the newest page when absent.
    pub before: Option<String>,
    /// The page size; `0` asks for the default.
    pub limit: u32,
}

/// One retained conversation, as the history list shows it.
#[derive(Debug)]
pub struct HistoricalConversationSummary {
    pub conversation: HistoricalConversationRef,
    pub anchor_document_id: String,
    pub item_count: u32,
    /// Whether the conversation belongs to the session's own identity.
    pub current: bool,
}

impl Clone for HistoricalConversationRef {
    fn clone(&self) -> (r: Self)
        ensures
            r == *self,
    {
        HistoricalConversationRef {
            project_id: self.project_id.clone(),
            operation_namespace: self.operation_namespace.clone(),
            conversation_id: self.conversation_id.clone(),
        }
    }
}

/// The default page size.
pub fn history_page_size() -> (r: u32)
    ensures
        r == HISTORY_PAGE_SIZE,
{
    HISTORY_PAGE_SIZE
}

pub open spec fn identity_ok(reference: HistoricalConversationRef) -> bool {
    valid_id(reference.project_id@) && valid_id(reference.operation_namespace@) && valid_id(reference.conversation_id@)
}

/// A historical identity names a well-formed project, namespace and
/// conversation.
pub fn valid_identity(reference: &HistoricalConversationRef) -> (r: Result<(), CoreError>)
    ensures
        r is Ok <==> identity_ok(*reference),
        r matches Err(e) ==> e.code == ErrorCode::InvalidRequest,
{
    if check_id(reference.project_id.as_str()).is_err() {
        return Err(CoreError::new(ErrorCode::InvalidRequest, "The historical project identity is invalid."));
    }
    if check_id(reference.operation_namespace.as_str()).is_err() {
        return Err(CoreError::new(ErrorCode::InvalidRequest, "The historical operation namespace identity is invalid."));
    }
    if check_id(reference.conversation_id.as_str()).is_err() {
        return Err(CoreError::new(ErrorCode::InvalidRequest, "The historical conversation identity is invalid."));
    }
    Ok(())
}

/// The page a history request asks for.
#[derive(Debug, Clone, Copy, PartialEq, Eq, Structural)]
pub struct HistoryPage {
    pub limit: u32,
    /// Items with a sequence below this one.
    pub before: u64,
}

pub open spec fn page_limit(limit: u32) -> u32 {
    if limit == 0 { HISTORY_PAGE_SIZE } else { limit }
}

pub open spec fn page_error(request: ReadProjectChatHistory) -> Option<ErrorCode> {
    if !identity_ok(request.conversation) {
        Some(ErrorCode::InvalidRequest)
    } else if page_limit(request.limit) > HISTORY_PAGE_SIZE {
        Some(ErrorCode::InvalidRequest)
    } else if request.before matches Some(b) && !version_ok(b@) {
        Some(ErrorCode::InvalidRequest)
    } else {
        None
    }
}

/// Checks a history request and the page it asks for: a default page of
/// 40, at most 40 items, and an optional canonical sequence to page before.
pub fn history_page(request: &ReadProjectChatHistory) -> (r: Result<HistoryPage, CoreError>)
    ensures
        match page_error(*request) {
            Some(code) => fails_with(r, code),
            None => r matches Ok(p) && p.limit == page_limit(request.limit) && p.before == match request.before {
                Some(b) => version_value(b@),
                None => i64::MAX as nat,
            },
        },
{
    if let Err(e) = valid_identity(&request.conversation) {
        return Err(e);
    }
    let limit = if request.limit == 0 { HISTORY_PAGE_SIZE } else { request.limit };
    if limit > HISTORY_PAGE_SIZE {
        return Err(CoreError::new(ErrorCode::InvalidRequest, "Historical conversation pages may contain at most 40 items."));
    }
    let before = match &request.before {
        Some(b) => match parse_version(b.as_str()) {
            Ok(v) => v,
            Err(e) => return Err(e),
        },
        None => 9223372036854775807u64,
    };
    Ok(HistoryPage { limit, before })
}

/// How a page of newest-first rows is cut: at most `limit` rows are kept,
/// and when more were found the next page continues before the last kept
/// row's sequence.
pub open spec fn older_before(sequences: Seq<i64>, limit: u32) -> Option<Seq<char>> {
    if sequences.len() > limit && limit > 0 {
        Some(signed_decimal(sequences[limit - 1] as int))
    } else {
        None
    }
}

/// Cuts a page from up to `limit + 1` newest-first row sequences: the
/// number of rows kept and where the next, older page starts.
pub fn cut_history_page(sequences: &Vec<i64>, limit: u32) -> (r: (usize, Option<String>))
    ensures
        r.0 == (if sequences@.len() > limit { limit as int } else { sequences@.len() as int }),
        opt_view(r.1) == older_before(sequences@, limit),
{
    let n = sequences.len();
    let kept: usize = if n > limit as usize { limit as usize } else { n };
    if n > limit as usize && limit > 0 {
        (kept, Some(signed_decimal_text(sequences[(limit - 1) as usize])))
    } else {
        (kept, None)
    }
}

/// Rows fetched newest first, strictly descending and below the cursor.
pub open spec fn newest_first_below(sequences: Seq<i64>, before: u64) -> bool {
    &&& forall|a: int, b: int| 0 <= a < b < sequences.len() ==> sequences[a] > sequences[b]
    &&& forall|k: int| 0 <= k < sequences.len() ==> (#[trigger] sequences[k]) < before
}

/// A history page in reading order. From up to `limit + 1` rows fetched
/// newest first below the cursor, the page keeps at most `limit` of them,
/// and returns the indices of the kept rows oldest first, with where the
/// next, older page starts (before the oldest kept row, when more rows were
/// found than the page holds).
pub fn history_page_order(sequences: &Vec<i64>, limit: u32, before: u64) -> (r: (Vec<usize>, Option<String>))
    requires
        newest_first_below(sequences@, before),
    ensures
        r.0@.len() == (if sequences@.len() > limit { limit as int } else { sequences@.len() as int }),
        r.0@.len() <= limit,
        forall|k: int| 0 <= k < r.0@.len() ==> (#[trigger] r.0@[k]) as int == r.0@.len() - 1 - k,
        forall|a: int, b: int| 0 <= a < b < r.0@.len() ==> sequences@[r.0@[a] as int] < sequences@[r.0@[b] as int],
        forall|k: int| 0 <= k < r.0@.len() ==> sequences@[(#[trigger] r.0@[k]) as int] < before,
        opt_view(r.1) == older_before(sequences@, limit),
        r.1 is Some <==> (sequences@.len() > limit && limit > 0),
{
    let (kept, older) = cut_history_page(sequences, limit);
    let mut order: Vec<usize> = Vec::new();
    let mut k: usize = 0;
    while k < kept
        invariant
            kept <= sequences@.len(),
            kept <= limit,
            0 <= k <= kept,
            order@.len() == k,
            forall|j: int| 0 <= j < k ==> (#[trigger] order@[j]) as int == kept - 1 - j,
        decreases kept - k,
    {
        order.push(kept - 1 - k);
        k += 1;
    }
    (order, older)
}

/// A retained item is intact: a positive sequence and a payload whose
/// SHA-256 is the recorded lowercase fingerprint.
pub open spec fn item_intact(sequence: i64, payload_json: Seq<char>, payload_hash: Seq<char>) -> bool {
    sequence > 0 && lower_hex64(payload_hash) && lower_hex(sha256_of(encode_utf8(payload_json))) == payload_hash
}

pub fn check_history_item(sequence: i64, payload_json: &str, payload_hash: &str) -> (r: Result<(), CoreError>)
    ensures
        r is Ok <==> item_intact(sequence, payload_json@, payload_hash@),
        r matches Err(e) ==> e.code == ErrorCode::InvalidProjectChat,
{
    if sequence <= 0 || !is_lower_hex64(payload_hash) {
        return Err(CoreError::new(ErrorCode::InvalidProjectChat, "A historical conversation item failed its immutable identity check."));
    }
    let digest = sha256_hex(payload_json.as_bytes());
    if !str_eq(digest.as_str(), payload_hash) {
        return Err(CoreError::new(ErrorCode::InvalidProjectChat, "A historical conversation item failed its immutable identity check."));
    }
    Ok(())
}

pub open spec fn is_run_kind(kind: Seq<char>) -> bool {
    kind == "request"@ || kind == "chapterRequest"@ || kind == "materializeChatResult"@
}

/// Items of these kinds carry a discussion run.
pub fn is_run_item(kind: &str) -> (r: bool)
    ensures
        r == is_run_kind(kind@),
{
    proof {
        reveal_strlit("request");
        reveal_strlit("chapterRequest");
        reveal_strlit("materializeChatResult");
    }
    str_eq(kind, "request") || str_eq(kind, "chapterRequest") || str_eq(kind, "materializeChatResult")
}

/// Restricted prose work stays out of the conversation history: a chapter
/// request item is shown only for a plain discussion.
pub fn shows_in_history(kind: &str, intent: FeedbackIntent) -> (r: bool)
    ensures
        r == !(kind@ == "chapterRequest"@ && intent != FeedbackIntent::Discuss),
{
    proof {
        reveal_strlit("chapterRequest");
    }
    !(str_eq(kind, "chapterRequest") && intent != FeedbackIntent::Discuss)
}

/// The discussion thread a retained run claims to belong to.
#[derive(Debug)]
pub struct ThreadRow {
    pub project_id: String,
    pub operation_namespace: String,
    pub document_id: String,
}

pub open spec fn run_thread_error(
    reference: HistoricalConversationRef,
    owner: RunOwner,
    item_kind: Seq<char>,
    run_target_document: Seq<char>,
    anchor_document: Seq<char>,
    thread: Option<ThreadRow>,
) -> Option<ErrorCode> {
    if owner.project_id@ != reference.project_id@ || owner.operation_namespace@ != reference.operation_namespace@ {
        Some(ErrorCode::HistoricalConversationMismatch)
    } else {
        match thread {
            None => Some(ErrorCode::HistoricalConversationMismatch),
            Some(t) => {
                let expected = if item_kind == "chapterRequest"@ { run_target_document } else { anchor_document };
                if t.project_id@ != reference.project_id@ || t.operation_namespace@ != reference.operation_namespace@
                    || t.document_id@ != expected {
                    Some(ErrorCode::HistoricalConversationMismatch)
                } else {
                    None
                }
            },
        }
    }
}

/// A retained run belongs to the named identity and is rooted in the
/// conversation: a chapter request's thread is its chapter's, any other
/// run's thread is the conversation anchor's.
pub fn check_history_run(
    reference: &HistoricalConversationRef,
    owner: &RunOwner,
    item_kind: &str,
    run_target_document: &str,
    anchor_document: &str,
    thread: &Option<ThreadRow>,
) -> (r: Result<(), CoreError>)
    ensures
        match run_thread_error(*reference, *owner, item_kind@, run_target_document@, anchor_document@, *thread) {
            Some(code) => fails_with(r, code),
            None => r is Ok,
        },
{
    if !str_eq(owner.project_id.as_str(), reference.project_id.as_str())
        || !str_eq(owner.operation_namespace.as_str(), reference.operation_namespace.as_str()) {
        return Err(CoreError::new(ErrorCode::HistoricalConversationMismatch, "The retained run belongs to another project identity."));
    }
    let t = match thread {
        None => return Err(CoreError::new(ErrorCode::HistoricalConversationMismatch, "The retained run has no discussion thread.")),
        Some(t) => t,
    };
    proof {
        reveal_strlit("chapterRequest");
    }
    let expected = if str_eq(item_kind, "chapterRequest") { run_target_document } else { anchor_document };
    if !str_eq(t.project_id.as_str(), reference.project_id.as_str())
        || !str_eq(t.operation_namespace.as_str(), reference.operation_namespace.as_str())
        || !str_eq(t.document_id.as_str(), expected) {
        return Err(CoreError::new(ErrorCode::HistoricalConversationMismatch, "The retained run is not rooted in the requested conversation."));
    }
    Ok(())
}

pub open spec fn message_error(role: Seq<char>, stored_run_id: Option<String>, run_id: Seq<char>, thread_id: Seq<char>, expected_thread: Seq<char>) -> Option<ErrorCode> {
    if role != "user"@ && role != "assistant"@ {
        Some(ErrorCode::InvalidProjectChat)
    } else if opt_view(stored_run_id) != Some(run_id) {
        Some(ErrorCode::InvalidProjectChat)
    } else if thread_id != expected_thread {
        Some(ErrorCode::HistoricalConversationMismatch)
    } else {
        None
    }
}

/// A retained message has a known role and belongs to its run and thread.
pub fn check_history_message(role: &str, stored_run_id: &Option<String>, run_id: &str, thread_id: &str, expected_thread: &str) -> (r: Result<(), CoreError>)
    ensures
        match message_error(role@, *stored_run_id, run_id@, thread_id@, expected_thread@) {
            Some(code) => fails_with(r, code),
            None => r is Ok,
        },
{
    proof {
        reveal_strlit("user");
        reveal_strlit("assistant");
    }
    if !str_eq(role, "user") && !str_eq(role, "assistant") {
        return Err(CoreError::new(ErrorCode::InvalidProjectChat, "A retained conversation message has an unknown role."));
    }
    let same_run = match stored_run_id {
        Some(s) => str_eq(s.as_str(), run_id),
        None => false,
    };
    if !same_run {
        return Err(CoreError::new(ErrorCode::InvalidProjectChat, "A retained conversation message has the wrong run reference."));
    }
    if !str_eq(thread_id, expected_thread) {
        return Err(CoreError::new(ErrorCode::HistoricalConversationMismatch, "A retained conversation message belongs to another discussion thread."));
    }
    Ok(())
}

/// Builds one entry of the history list from a retained conversation row.
pub fn conversation_summary(
    access: &ProjectAccess,
    conversation: HistoricalConversationRef,
    anchor_document_id: String,
    item_count: i64,
) -> (r: Result<HistoricalConversationSummary, CoreError>)
    ensures
        !identity_ok(conversation) ==> fails_with(r, ErrorCode::InvalidRequest),
        identity_ok(conversation) && (item_count < 0 || item_count > u32::MAX) ==> fails_with(r, ErrorCode::InvalidProjectChat),
        identity_ok(conversation) && 0 <= item_count <= u32::MAX ==> (r matches Ok(s) && s.conversation == conversation
            && s.anchor_document_id == anchor_document_id && s.item_count == item_count
            && s.current == (conversation.project_id@ == access.project_id@
                && conversation.operation_namespace@ == access.operation_namespace@)),
{
    if let Err(e) = valid_identity(&conversation) {
        return Err(e);
    }
    if item_count < 0 || item_count > 4294967295 {
        return Err(CoreError::new(ErrorCode::InvalidProjectChat, "A retained conversation has an invalid item count."));
    }
    let current = str_eq(conversation.project_id.as_str(), access.project_id.as_str())
        && str_eq(conversation.operation_namespace.as_str(), access.operation_namespace.as_str());
    Ok(HistoricalConversationSummary { conversation, anchor_document_id, item_count: item_count as u32, current })
}


// ------------------------------------------------------- retained revisions

/// Source `i` is the first frozen source that reads its revision.
pub open spec fn first_of_revision(revision_ids: Seq<String>, i: int) -> bool {
    forall|j: int| 0 <= j < i ==> (#[trigger] revision_ids[j])@ != revision_ids[i]@
}

/// The frozen sources whose revisions a history shows, in frozen order: each
/// revision once, at the first source that reads it.
pub fn distinct_source_revisions(revision_ids: &Vec<String>) -> (r: Vec<usize>)
    ensures
        forall|a: int, b: int| 0 <= a < b < r@.len() ==> r@[a] < r@[b],
        forall|k: int| 0 <= k < r@.len() ==> (#[trigger] r@[k]) < revision_ids@.len(),
        forall|i: int| 0 <= i < revision_ids@.len() ==> (r@.contains(i as usize) <==> first_of_revision(revision_ids@, i)),
{
    let n = revision_ids.len();
    let mut kept: Vec<usize> = Vec::new();
    let mut i: usize = 0;
    while i < n
        invariant
            n == revision_ids@.len(),
            0 <= i <= n,
            forall|a: int, b: int| 0 <= a < b < kept@.len() ==> kept@[a] < kept@[b],
            forall|k: int| 0 <= k < kept@.len() ==> (#[trigger] kept@[k]) < i,
            forall|j: int| 0 <= j < i ==> (kept@.contains(j as usize) <==> first_of_revision(revision_ids@, j)),
        decreases n - i,
    {
        let mut first = true;
        let mut j: usize = 0;
        while j < i
            invariant
                n == revision_ids@.len(),
                0 <= j <= i < n,
                first <==> forall|g: int| 0 <= g < j ==> (#[trigger] revision_ids@[g])@ != revision_ids@[i as int]@,
            decreases i - j,
        {
            if str_eq(revision_ids[j].as_str(), revision_ids[i].as_str()) {
                first = false;
            }
            j += 1;
        }
        let ghost before = kept@;
        if first {
            kept.push(i);
        }
        assert forall|j: int| 0 <= j < i + 1 implies (kept@.contains(j as usize) <==> first_of_revision(revision_ids@, j)) by {
            if first {
                assert(kept@ == before.push(i));
                if j < i {
                    if before.contains(j as usize) {
                        let k = choose|k: int| 0 <= k < before.len() && before[k] == j as usize;
                        assert(kept@[k] == j as usize);
                    }
                    if kept@.contains(j as usize) {
                        let k = choose|k: int| 0 <= k < kept@.len() && kept@[k] == j as usize;
                        assert(k < before.len());
                        assert(before[k] == j as usize);
                    }
                } else {
                    assert(kept@[before.len() as int] == i);
                }
            } else {
                if j == i {
                    assert(!before.contains(i));
                }
            }
        }
        i += 1;
    }
    kept
}

/// A retained source revision must still belong to the frozen document at
/// the frozen body.
pub fn check_historical_source(frozen_document_id: &str, frozen_body_hash: &str, revision_document_id: &str, revision_body_hash: &str) -> (r: Result<(), CoreError>)
    ensures
        r is Ok <==> (frozen_document_id@ == revision_document_id@ && frozen_body_hash@ == revision_body_hash@),
        r is Err ==> fails_with(r, ErrorCode::InvalidProjectChat),
{
    if !str_eq(revision_document_id, frozen_document_id) || !str_eq(revision_body_hash, frozen_body_hash) {
        return Err(CoreError::new(ErrorCode::InvalidProjectChat, "A historical source revision no longer matches its frozen source."));
    }
    Ok(())
}

/// The revisions a history shows for one assistant draft: its initial
/// revision, then its current checkpoint when that is another revision.
pub fn draft_revision_ids(initial_id: &str, current_id: &Option<String>) -> (r: Vec<String>)
    ensures
        r@.len() >= 1 && r@[0]@ == initial_id@,
        match current_id {
            Some(c) => if c@ != initial_id@ { r@.len() == 2 && r@[1]@ == c@ } else { r@.len() == 1 },
            None => r@.len() == 1,
        },
{
    let mut ids: Vec<String> = Vec::new();
    ids.push(initial_id.to_string());
    if let Some(c) = current_id {
        if !str_eq(c.as_str(), initial_id) {
            ids.push(c.clone());
        }
    }
    ids
}

/// A retained draft revision must belong to the draft's own document.
pub fn check_draft_revision(document_id: &str, revision_document_id: &str, initial: bool) -> (r: Result<(), CoreError>)
    ensures
        r is Ok <==> document_id@ == revision_document_id@,
        r is Err ==> fails_with(r, ErrorCode::InvalidProjectChat),
{
    if !str_eq(revision_document_id, document_id) {
        if initial {
            return Err(CoreError::new(ErrorCode::InvalidProjectChat, "A historical draft revision has the wrong document identity."));
        }
        return Err(CoreError::new(ErrorCode::InvalidProjectChat, "A current historical draft revision has the wrong document identity."));
    }
    Ok(())
}

} // verus!

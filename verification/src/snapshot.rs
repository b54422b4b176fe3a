//! A workshop snapshot that claims to come from a chat adoption must be the
//! exact transition that adoption committed: its command receipt, its one
//! immutable decision, the preview the decision names, the committed
//! documents, the next workshop version and the relationships it adds.
use vstd::prelude::*;
use vstd::utf8::encode_utf8;
use crate::adoption::{effects_equal, same_effects, ChatAdoptionEffects, ChatAdoptionRelationship, StoredDocumentRef, MAX_TARGETS};
use crate::retry::same_head;
use crate::digest::{lower_hex, sha256_hex, sha256_of};
use crate::error::{CoreError, ErrorCode, fails_with};
use crate::pins::texts;

use crate::text::{check_id, decimal_chars, decimal_text, is_lower_hex64, lower_hex64, parse_version, valid_id, version_ok, version_value};
use crate::vocab::{opt_view, str_eq, Head};

verus! {

broadcast use vstd::string::group_string_axioms;

fn refused(message: &str) -> (e: CoreError)
    ensures
        e.code == ErrorCode::InvalidProjectChat,
{
    CoreError::new(ErrorCode::InvalidProjectChat, message)
}

/// Two lists of identifiers, compared element by element.
fn same_texts(a: &Vec<String>, b: &Vec<String>) -> (r: bool)
    ensures
        r == (texts(a@) == texts(b@)),
{
    if a.len() != b.len() {
        assert(texts(a@).len() != texts(b@).len());
        return false;
    }
    let n = a.len();
    let mut i: usize = 0;
    while i < n
        invariant
            n == a@.len(),
            n == b@.len(),
            0 <= i <= n,
            forall|j: int| 0 <= j < i ==> (#[trigger] a@[j])@ == b@[j]@,
        decreases n - i,
    {
        if !str_eq(a[i].as_str(), b[i].as_str()) {
            assert(texts(a@)[i as int] != texts(b@)[i as int]);
            return false;
        }
        i += 1;
    }
    assert(texts(a@) =~= texts(b@));
    true
}

// ------------------------------------------------------------------ receipt

/// The command receipt stored under the snapshot's operation.
#[derive(Debug)]
pub struct CommandReceiptRow {
    pub document_id: String,
    pub payload_hash: String,
    pub operation_kind: String,
}

pub open spec fn receipt_row_ok(row: Option<CommandReceiptRow>) -> bool {
    row matches Some(c) && c.operation_kind@ == "adoptChatPreview"@ && lower_hex64(c.payload_hash@)
}

/// The snapshot's operation has an adoption command receipt with a
/// well-formed payload fingerprint.
pub fn check_command_receipt_row(row: &Option<CommandReceiptRow>) -> (r: Result<(), CoreError>)
    ensures
        r is Ok <==> receipt_row_ok(*row),
        r matches Err(e) ==> e.code == ErrorCode::InvalidProjectChat,
{
    let c = match row {
        None => return Err(refused("A chat-origin workshop snapshot has no matching command receipt.")),
        Some(c) => c,
    };
    proof {
        reveal_strlit("adoptChatPreview");
    }
    if !str_eq(c.operation_kind.as_str(), "adoptChatPreview") || !is_lower_hex64(c.payload_hash.as_str()) {
        return Err(refused("A chat-origin workshop snapshot has the wrong command receipt kind."));
    }
    Ok(())
}

/// The result an adoption's command receipt records.
#[derive(Debug)]
pub struct AdoptionReceipt {
    pub preview_id: String,
    pub decision_id: String,
    /// The committed documents, in target order.
    pub documents: Vec<StoredDocumentRef>,
}

pub open spec fn adoption_receipt_error(row_document_id: Seq<char>, receipt: AdoptionReceipt) -> Option<ErrorCode> {
    if !valid_id(receipt.preview_id@) || !valid_id(receipt.decision_id@) {
        Some(ErrorCode::InvalidRequest)
    } else if receipt.documents@.len() == 0 || receipt.documents@.len() > MAX_TARGETS {
        Some(ErrorCode::InvalidProjectChat)
    } else if row_document_id != receipt.documents@[0].head.document_id@ {
        Some(ErrorCode::InvalidProjectChat)
    } else {
        None
    }
}

/// The receipt names its preview and decision, commits one to three
/// documents, and is filed under its first document.
pub fn check_adoption_receipt(row_document_id: &str, receipt: &AdoptionReceipt) -> (r: Result<(), CoreError>)
    ensures
        match adoption_receipt_error(row_document_id@, *receipt) {
            Some(code) => fails_with(r, code),
            None => r is Ok,
        },
{
    if let Err(e) = check_id(receipt.preview_id.as_str()) {
        return Err(e);
    }
    if let Err(e) = check_id(receipt.decision_id.as_str()) {
        return Err(e);
    }
    if receipt.documents.len() == 0 || receipt.documents.len() > MAX_TARGETS {
        return Err(refused("A chat adoption receipt has an invalid document count."));
    }
    if !str_eq(row_document_id, receipt.documents[0].head.document_id.as_str()) {
        return Err(refused("A chat adoption receipt head does not match its command receipt."));
    }
    Ok(())
}

// ----------------------------------------------------------------- decision

/// A decision event stored under the snapshot's operation.
#[derive(Debug)]
pub struct DecisionRow {
    pub conversation_id: String,
    pub project_id: String,
    pub operation_namespace: String,
    pub reference_id: Option<String>,
    pub payload_json: String,
    pub payload_hash: String,
}

pub open spec fn decision_row_ok(row: DecisionRow, project_id: Seq<char>, namespace: Seq<char>, decision_id: Seq<char>) -> bool {
    &&& row.project_id@ == project_id
    &&& row.operation_namespace@ == namespace
    &&& opt_view(row.reference_id) == Some(decision_id)
    &&& lower_hex(sha256_of(encode_utf8(row.payload_json@))) == row.payload_hash@
}

/// Exactly one immutable decision event belongs to the operation: it is the
/// receipt's decision in the snapshot's project, and its payload matches its
/// SHA-256 fingerprint.
pub fn check_decision_rows(project_id: &str, namespace: &str, decision_id: &str, rows: &Vec<DecisionRow>) -> (r: Result<(), CoreError>)
    ensures
        r is Ok <==> rows@.len() == 1 && decision_row_ok(rows@[0], project_id@, namespace@, decision_id@),
        r matches Err(e) ==> e.code == ErrorCode::InvalidProjectChat,
{
    if rows.len() != 1 {
        return Err(refused("A chat adoption snapshot must have exactly one immutable decision event."));
    }
    let row = &rows[0];
    let same_reference = match &row.reference_id {
        Some(id) => str_eq(id.as_str(), decision_id),
        None => false,
    };
    if !str_eq(row.project_id.as_str(), project_id) || !str_eq(row.operation_namespace.as_str(), namespace) || !same_reference {
        return Err(refused("A chat adoption decision has invalid project or immutable identity."));
    }
    let digest = sha256_hex(row.payload_json.as_str().as_bytes());
    if !str_eq(digest.as_str(), row.payload_hash.as_str()) {
        return Err(refused("A chat adoption decision has invalid project or immutable identity."));
    }
    Ok(())
}

/// What a stored adoption decision records.
#[derive(Debug)]
pub struct StoredDecision {
    pub schema_version: String,
    pub decision_id: String,
    pub preview_id: String,
    pub preview_version: String,
    pub preview_digest: String,
    /// The effects the decision adopted, when it records them.
    pub effects: Option<ChatAdoptionEffects>,
    pub document_ids: Vec<String>,
    /// The snapshot payload fingerprint the decision was bound to, when it
    /// records one.
    pub snapshot_payload_hash: Option<String>,
}

pub open spec fn decision_provenance_ok(d: StoredDecision, receipt: AdoptionReceipt) -> bool {
    &&& d.schema_version@ == "chat-adoption-decision.v1"@
    &&& d.decision_id@ == receipt.decision_id@
    &&& d.preview_id@ == receipt.preview_id@
    &&& d.effects is Some
}

/// The decision is the receipt's, of the supported schema, and records the
/// grouped effects it adopted.
pub fn check_decision_provenance(d: &StoredDecision, receipt: &AdoptionReceipt) -> (r: Result<(), CoreError>)
    ensures
        r is Ok <==> decision_provenance_ok(*d, *receipt),
        r matches Err(e) ==> e.code == ErrorCode::InvalidProjectChat,
{
    proof {
        reveal_strlit("chat-adoption-decision.v1");
    }
    if !str_eq(d.schema_version.as_str(), "chat-adoption-decision.v1") || !str_eq(d.decision_id.as_str(), receipt.decision_id.as_str())
        || !str_eq(d.preview_id.as_str(), receipt.preview_id.as_str()) || d.effects.is_none() {
        return Err(refused("A chat adoption decision has invalid preview provenance."));
    }
    Ok(())
}

// ------------------------------------------------------------------ preview

/// The preview event the decision names.
#[derive(Debug)]
pub struct PreviewRow {
    pub payload_json: String,
    pub payload_hash: String,
    pub project_id: String,
}

pub open spec fn preview_row_ok(row: Option<PreviewRow>, project_id: Seq<char>) -> bool {
    row matches Some(p) && p.project_id@ == project_id
        && lower_hex(sha256_of(encode_utf8(p.payload_json@))) == p.payload_hash@
}

/// The decision's preview is retained in the snapshot's project and its
/// payload matches its SHA-256 fingerprint.
pub fn check_preview_row(row: &Option<PreviewRow>, project_id: &str) -> (r: Result<(), CoreError>)
    ensures
        r is Ok <==> preview_row_ok(*row, project_id@),
        r matches Err(e) ==> e.code == ErrorCode::InvalidProjectChat,
{
    let p = match row {
        None => return Err(refused("A chat adoption decision has no matching immutable preview.")),
        Some(p) => p,
    };
    if !str_eq(p.project_id.as_str(), project_id) {
        return Err(refused("A chat adoption preview has invalid immutable identity."));
    }
    let digest = sha256_hex(p.payload_json.as_str().as_bytes());
    if !str_eq(digest.as_str(), p.payload_hash.as_str()) {
        return Err(refused("A chat adoption preview has invalid immutable identity."));
    }
    Ok(())
}

/// What the expanded preview says of itself.
#[derive(Debug)]
pub struct ExpandedPreview {
    pub id: String,
    pub conversation_id: String,
    pub project_id: String,
    pub operation_namespace: String,
    pub version: String,
    pub digest: String,
    pub workshop_version: String,
    /// The preview's grouped effects, when it has them.
    pub effects: Option<ChatAdoptionEffects>,
    /// The target documents, in target order.
    pub target_ids: Vec<String>,
}

pub open spec fn receipt_document_ids(receipt: AdoptionReceipt) -> Seq<Seq<char>> {
    Seq::new(receipt.documents@.len(), |i: int| receipt.documents@[i].head.document_id@)
}

pub open spec fn decision_binding_ok(
    p: ExpandedPreview,
    d: StoredDecision,
    receipt: AdoptionReceipt,
    conversation_id: Seq<char>,
    project_id: Seq<char>,
    namespace: Seq<char>,
) -> bool {
    &&& p.effects matches Some(e) && e.proposed_relationships@.len() > 0
    &&& p.id@ == receipt.preview_id@ && p.conversation_id@ == conversation_id && p.project_id@ == project_id
    &&& p.operation_namespace@ == namespace && p.version@ == d.preview_version@ && p.digest@ == d.preview_digest@
    &&& (p.effects matches Some(e) && d.effects matches Some(x) && same_effects(x, e))
    &&& texts(p.target_ids@) == receipt_document_ids(receipt)
    &&& texts(d.document_ids@) == receipt_document_ids(receipt)
}

/// The decision is bound to its exact preview: the same identity, version,
/// digest and effects, at least one proposed relationship, and the same
/// documents, in order, as the receipt committed.
pub fn check_decision_binding(
    p: &ExpandedPreview,
    d: &StoredDecision,
    receipt: &AdoptionReceipt,
    conversation_id: &str,
    project_id: &str,
    namespace: &str,
) -> (r: Result<(), CoreError>)
    ensures
        r is Ok <==> decision_binding_ok(*p, *d, *receipt, conversation_id@, project_id@, namespace@),
        r matches Err(e) ==> e.code == ErrorCode::InvalidProjectChat,
{
    let effects = match &p.effects {
        None => return Err(refused("A chat-origin workshop snapshot has no grouped effects.")),
        Some(e) => e,
    };
    if effects.proposed_relationships.len() == 0 {
        return Err(refused("A chat-origin workshop snapshot has no committed relationship effects."));
    }
    let effects_match = match &d.effects {
        Some(x) => effects_equal(x, effects),
        None => false,
    };
    if !str_eq(p.id.as_str(), receipt.preview_id.as_str()) || !str_eq(p.conversation_id.as_str(), conversation_id)
        || !str_eq(p.project_id.as_str(), project_id) || !str_eq(p.operation_namespace.as_str(), namespace)
        || !str_eq(p.version.as_str(), d.preview_version.as_str()) || !str_eq(p.digest.as_str(), d.preview_digest.as_str())
        || !effects_match {
        return Err(refused("A chat adoption decision is not bound to its exact preview and effects."));
    }
    let mut committed: Vec<String> = Vec::new();
    let n = receipt.documents.len();
    let mut i: usize = 0;
    while i < n
        invariant
            n == receipt.documents@.len(),
            0 <= i <= n,
            committed@.len() == i,
            forall|j: int| 0 <= j < i ==> (#[trigger] committed@[j])@ == receipt.documents@[j].head.document_id@,
        decreases n - i,
    {
        committed.push(receipt.documents[i].head.document_id.clone());
        i += 1;
    }
    assert(texts(committed@) =~= receipt_document_ids(*receipt));
    if !same_texts(&p.target_ids, &committed) || !same_texts(&d.document_ids, &committed) {
        return Err(refused("A chat adoption receipt has mismatched committed document identities."));
    }
    Ok(())
}

// ---------------------------------------------------------------- documents

/// A preview target, as the receipt's committed document must match it.
#[derive(Debug)]
pub struct PreviewTargetRef {
    pub document_id: String,
    pub title: String,
    pub kind: String,
    /// The working version of the ordinary document the target replaced.
    pub before_version: Option<String>,
}

/// A committed document, rehydrated from its historical revision.
#[derive(Debug)]
pub struct CommittedDocument {
    pub role: String,
    pub head: Head,
    /// Whether its body is exactly the draft body the preview adopted.
    pub body_matches: bool,
}

/// The head an adopted target must have been committed at: the version after
/// the replaced document's, or `0` for a new document, with the draft's
/// body fingerprint.
pub open spec fn committed_head_ok(target: PreviewTargetRef, head: Head, body_hash: Seq<char>) -> bool {
    let expected: nat = match target.before_version {
        Some(v) => version_value(v@) + 1,
        None => 0,
    };
    head.document_id@ == target.document_id@ && head.version@ == decimal_chars(expected) && head.body_hash@ == body_hash
}

pub open spec fn reference_ok(target: PreviewTargetRef, reference: StoredDocumentRef) -> bool {
    reference.role@ == "ordinary"@ && reference.head.document_id@ == target.document_id@
        && reference.title@ == target.title@ && reference.kind@ == target.kind@
}

/// The outcome once the committed document and the draft body are read.
pub open spec fn committed_step(
    r: Result<(), CoreError>,
    target: PreviewTargetRef,
    committed: Result<CommittedDocument, CoreError>,
    body_hash: Result<String, CoreError>,
) -> bool {
    match committed {
        Err(e) => r == Err::<(), CoreError>(e),
        Ok(c) => match body_hash {
            Err(e) => r == Err::<(), CoreError>(e),
            Ok(h) => if target.before_version matches Some(v) && !version_ok(v@) {
                fails_with(r, ErrorCode::InvalidRequest)
            } else if target.before_version matches Some(v) && version_value(v@) >= i64::MAX {
                fails_with(r, ErrorCode::InvalidProjectChat)
            } else if c.role@ == "ordinary"@ && committed_head_ok(target, c.head, h@) && c.body_matches {
                r is Ok
            } else {
                fails_with(r, ErrorCode::InvalidProjectChat)
            },
        },
    }
}

/// A committed document matches its preview target: the receipt names the
/// target as ordinary material with its title and kind, and the historical
/// revision holds exactly the adopted draft body at the next version.
/// `committed` is the read of the committed document and `body_hash` the
/// fingerprint of the target's draft body.
pub fn check_committed_target(
    target: &PreviewTargetRef,
    reference: &StoredDocumentRef,
    committed: Result<CommittedDocument, CoreError>,
    body_hash: Result<String, CoreError>,
) -> (r: Result<(), CoreError>)
    ensures
        !reference_ok(*target, *reference) ==> fails_with(r, ErrorCode::InvalidProjectChat),
        reference_ok(*target, *reference) ==> committed_step(r, *target, committed, body_hash),
{
    proof {
        reveal_strlit("ordinary");
    }
    if !str_eq(reference.role.as_str(), "ordinary") || !str_eq(reference.head.document_id.as_str(), target.document_id.as_str())
        || !str_eq(reference.title.as_str(), target.title.as_str()) || !str_eq(reference.kind.as_str(), target.kind.as_str()) {
        return Err(refused("A chat adoption receipt document does not match its preview target."));
    }
    let c = match committed {
        Ok(c) => c,
        Err(e) => return Err(e),
    };
    let hash = match body_hash {
        Ok(h) => h,
        Err(e) => return Err(e),
    };
    let expected: u64 = match &target.before_version {
        Some(v) => {
            let before = match parse_version(v.as_str()) {
                Ok(b) => b,
                Err(e) => return Err(e),
            };
            if before >= 9223372036854775807u64 {
                return Err(refused("A chat adoption target version overflowed."));
            }
            before + 1
        },
        None => 0,
    };
    let version = decimal_text(expected);
    if !str_eq(c.role.as_str(), "ordinary") || !str_eq(c.head.document_id.as_str(), target.document_id.as_str())
        || !str_eq(c.head.version.as_str(), version.as_str()) || !str_eq(c.head.body_hash.as_str(), hash.as_str())
        || !c.body_matches {
        return Err(refused("A chat adoption receipt does not rehydrate the exact committed draft body."));
    }
    Ok(())
}

// ---------------------------------------------------------------- transition

pub open spec fn snapshot_version_error(workshop_version: Seq<char>, snapshot_version: i64) -> Option<ErrorCode> {
    if !version_ok(workshop_version) {
        Some(ErrorCode::InvalidRequest)
    } else if version_value(workshop_version) >= i64::MAX || snapshot_version != version_value(workshop_version) + 1 {
        Some(ErrorCode::InvalidProjectChat)
    } else {
        None
    }
}

/// The snapshot is the workshop version right after the preview's.
pub fn check_snapshot_version(workshop_version: &str, snapshot_version: i64) -> (r: Result<(), CoreError>)
    ensures
        match snapshot_version_error(workshop_version@, snapshot_version) {
            Some(code) => fails_with(r, code),
            None => r is Ok,
        },
{
    let v = match parse_version(workshop_version) {
        Ok(v) => v,
        Err(e) => return Err(e),
    };
    if v >= 9223372036854775807u64 {
        return Err(refused("A workshop version overflowed."));
    }
    if snapshot_version < 0 || snapshot_version as u64 != v + 1 {
        return Err(refused("A chat-origin workshop snapshot has the wrong next version."));
    }
    Ok(())
}

/// A relationship as the adoption commits it to the workshop.
#[derive(Debug)]
pub struct CommittedRelationship {
    pub id: String,
    pub from_document_id: String,
    pub to_document_id: String,
    pub relationship_type: String,
    pub description: String,
    pub uncertainty: String,
    pub from_head: Head,
    pub to_head: Head,
}

/// The head of the last committed document with the given identity.
pub open spec fn committed_head(documents: Seq<Head>, id: Seq<char>) -> Option<Head>
    decreases documents.len(),
{
    if documents.len() == 0 {
        None
    } else if documents.last().document_id@ == id {
        Some(documents.last())
    } else {
        committed_head(documents.drop_last(), id)
    }
}

/// An endpoint is anchored at its committed head when the adoption
/// committed it, else at the head the relationship was proposed against.
pub open spec fn anchored(documents: Seq<Head>, id: Seq<char>, proposed: Head) -> Head {
    match committed_head(documents, id) {
        Some(h) => h,
        None => proposed,
    }
}

fn find_committed_head(documents: &Vec<Head>, id: &str) -> (r: Option<Head>)
    ensures
        r == committed_head(documents@, id@),
{
    let mut i: usize = documents.len();
    assert(documents@.subrange(0, i as int) =~= documents@);
    while i > 0
        invariant
            0 <= i <= documents@.len(),
            committed_head(documents@, id@) == committed_head(documents@.subrange(0, i as int), id@),
        decreases i,
    {
        let ghost prefix = documents@.subrange(0, i as int);
        assert(prefix.last() == documents@[i - 1]);
        assert(prefix.drop_last() =~= documents@.subrange(0, i - 1));
        if str_eq(documents[i - 1].document_id.as_str(), id) {
            return Some(documents[i - 1].clone());
        }
        i -= 1;
    }
    assert(documents@.subrange(0, 0) =~= Seq::<Head>::empty());
    None
}

/// The relationships an adoption commits, one per proposed relationship, in
/// order, each anchored at the committed heads of its endpoints.
pub fn materialize_chat_relationships(effects: &ChatAdoptionEffects, documents: &Vec<Head>) -> (r: Vec<CommittedRelationship>)
    ensures
        r@.len() == effects.proposed_relationships@.len(),
        forall|i: int| 0 <= i < r@.len() ==> {
            let p = effects.proposed_relationships@[i];
            let c = #[trigger] r@[i];
            &&& c.id == p.relationship_id && c.from_document_id == p.from_document_id
            &&& c.to_document_id == p.to_document_id && c.relationship_type == p.relationship_type
            &&& c.description == p.description && c.uncertainty == p.uncertainty
            &&& c.from_head == anchored(documents@, p.from_document_id@, p.from_head)
            &&& c.to_head == anchored(documents@, p.to_document_id@, p.to_head)
        },
{
    let mut out: Vec<CommittedRelationship> = Vec::new();
    let n = effects.proposed_relationships.len();
    let mut i: usize = 0;
    while i < n
        invariant
            n == effects.proposed_relationships@.len(),
            0 <= i <= n,
            out@.len() == i,
            forall|j: int| 0 <= j < i ==> {
                let p = effects.proposed_relationships@[j];
                let c = #[trigger] out@[j];
                &&& c.id == p.relationship_id && c.from_document_id == p.from_document_id
                &&& c.to_document_id == p.to_document_id && c.relationship_type == p.relationship_type
                &&& c.description == p.description && c.uncertainty == p.uncertainty
                &&& c.from_head == anchored(documents@, p.from_document_id@, p.from_head)
                &&& c.to_head == anchored(documents@, p.to_document_id@, p.to_head)
            },
        decreases n - i,
    {
        let p = &effects.proposed_relationships[i];
        let from_head = match find_committed_head(documents, p.from_document_id.as_str()) {
            Some(h) => h,
            None => p.from_head.clone(),
        };
        let to_head = match find_committed_head(documents, p.to_document_id.as_str()) {
            Some(h) => h,
            None => p.to_head.clone(),
        };
        out.push(CommittedRelationship {
            id: p.relationship_id.clone(),
            from_document_id: p.from_document_id.clone(),
            to_document_id: p.to_document_id.clone(),
            relationship_type: p.relationship_type.clone(),
            description: p.description.clone(),
            uncertainty: p.uncertainty.clone(),
            from_head,
            to_head,
        });
        i += 1;
    }
    out
}

pub open spec fn snapshot_binding_ok(
    command_payload_hash: Seq<char>,
    expected_command_hash: Seq<char>,
    bound_snapshot_hash: Option<Seq<char>>,
    snapshot_payload_hash: Seq<char>,
) -> bool {
    &&& command_payload_hash == expected_command_hash
    &&& bound_snapshot_hash matches Some(b) ==> b == expected_command_hash && snapshot_payload_hash == expected_command_hash
}

/// The command receipt carries the adoption request's fingerprint, and a
/// decision that recorded its snapshot binding is bound to that
/// fingerprint. `expected_command_hash` is the fingerprint of the adoption
/// request rebuilt from the preview.
pub fn check_snapshot_binding(
    command_payload_hash: &str,
    expected_command_hash: &str,
    bound_snapshot_hash: &Option<String>,
    snapshot_payload_hash: &str,
) -> (r: Result<(), CoreError>)
    ensures
        r is Ok <==> snapshot_binding_ok(command_payload_hash@, expected_command_hash@,
            opt_view(*bound_snapshot_hash), snapshot_payload_hash@),
        r matches Err(e) ==> e.code == ErrorCode::InvalidProjectChat,
{
    if !str_eq(command_payload_hash, expected_command_hash) {
        return Err(refused("A chat adoption command receipt has an invalid request hash."));
    }
    if let Some(bound) = bound_snapshot_hash {
        if !str_eq(bound.as_str(), expected_command_hash) || !str_eq(snapshot_payload_hash, expected_command_hash) {
            return Err(refused("A chat adoption snapshot is not bound to its command receipt."));
        }
    }
    Ok(())
}

// --------------------------------------------------------------- transition

/// A workshop state as a snapshot stores it: its relationships, in order,
/// and the canonical serialization of everything else it holds.
#[derive(Debug)]
pub struct WorkshopStateRecord {
    pub relationships: Vec<CommittedRelationship>,
    pub rest_json: String,
}

pub open spec fn same_committed(a: CommittedRelationship, b: CommittedRelationship) -> bool {
    &&& a.id@ == b.id@ && a.from_document_id@ == b.from_document_id@ && a.to_document_id@ == b.to_document_id@
    &&& a.relationship_type@ == b.relationship_type@ && a.description@ == b.description@ && a.uncertainty@ == b.uncertainty@
    &&& same_head(a.from_head, b.from_head) && same_head(a.to_head, b.to_head)
}

/// `c` is what the adoption commits for the proposed relationship `p`.
pub open spec fn commits(p: ChatAdoptionRelationship, documents: Seq<Head>, c: CommittedRelationship) -> bool {
    &&& c.id@ == p.relationship_id@ && c.from_document_id@ == p.from_document_id@ && c.to_document_id@ == p.to_document_id@
    &&& c.relationship_type@ == p.relationship_type@ && c.description@ == p.description@ && c.uncertainty@ == p.uncertainty@
    &&& same_head(c.from_head, anchored(documents, p.from_document_id@, p.from_head))
    &&& same_head(c.to_head, anchored(documents, p.to_document_id@, p.to_head))
}

/// The snapshot's state is the previous state with the adoption's
/// committed relationships appended, in order, and nothing else changed.
pub open spec fn adoption_transition(
    state: WorkshopStateRecord,
    previous: WorkshopStateRecord,
    effects: ChatAdoptionEffects,
    documents: Seq<Head>,
) -> bool {
    let old = previous.relationships@;
    let new = state.relationships@;
    let proposed = effects.proposed_relationships@;
    &&& state.rest_json@ == previous.rest_json@
    &&& new.len() == old.len() + proposed.len()
    &&& forall|i: int| 0 <= i < old.len() ==> same_committed(#[trigger] new[i], old[i])
    &&& forall|j: int| 0 <= j < proposed.len() ==> commits(#[trigger] proposed[j], documents, new[old.len() + j])
}

fn heads_same(a: &Head, b: &Head) -> (r: bool)
    ensures
        r == same_head(*a, *b),
{
    str_eq(a.document_id.as_str(), b.document_id.as_str()) && str_eq(a.version.as_str(), b.version.as_str())
        && str_eq(a.body_hash.as_str(), b.body_hash.as_str())
}

fn committed_equal(a: &CommittedRelationship, b: &CommittedRelationship) -> (r: bool)
    ensures
        r == same_committed(*a, *b),
{
    str_eq(a.id.as_str(), b.id.as_str()) && str_eq(a.from_document_id.as_str(), b.from_document_id.as_str())
        && str_eq(a.to_document_id.as_str(), b.to_document_id.as_str())
        && str_eq(a.relationship_type.as_str(), b.relationship_type.as_str())
        && str_eq(a.description.as_str(), b.description.as_str()) && str_eq(a.uncertainty.as_str(), b.uncertainty.as_str())
        && heads_same(&a.from_head, &b.from_head) && heads_same(&a.to_head, &b.to_head)
}

/// A chat-origin snapshot is the exact adoption transition: its state is
/// the previous state plus the relationships the adoption commits from its
/// effects, anchored at the committed documents' heads.
pub fn check_snapshot_transition(
    state: &WorkshopStateRecord,
    previous: &WorkshopStateRecord,
    effects: &ChatAdoptionEffects,
    documents: &Vec<Head>,
) -> (r: Result<(), CoreError>)
    ensures
        r is Ok <==> adoption_transition(*state, *previous, *effects, documents@),
        r matches Err(e) ==> e.code == ErrorCode::InvalidProjectChat,
{
    let committed = materialize_chat_relationships(effects, documents);
    let old_len = previous.relationships.len();
    let ok = str_eq(state.rest_json.as_str(), previous.rest_json.as_str())
        && old_len <= state.relationships.len()
        && state.relationships.len() - old_len == committed.len();
    if !ok {
        return Err(refused("A chat-origin workshop snapshot is not the exact adoption transition."));
    }
    let mut i: usize = 0;
    while i < old_len
        invariant
            old_len == previous.relationships@.len(),
            old_len <= state.relationships@.len(),
            0 <= i <= old_len,
            forall|k: int| 0 <= k < i ==> same_committed(#[trigger] state.relationships@[k], previous.relationships@[k]),
        decreases old_len - i,
    {
        if !committed_equal(&state.relationships[i], &previous.relationships[i]) {
            return Err(refused("A chat-origin workshop snapshot is not the exact adoption transition."));
        }
        i += 1;
    }
    let m = committed.len();
    assert(state.relationships@.len() == old_len + m);
    let mut j: usize = 0;
    while j < m
        invariant
            m == committed@.len(),
            m == effects.proposed_relationships@.len(),
            old_len == previous.relationships@.len(),
            state.relationships@.len() == old_len + m,
            old_len + m <= usize::MAX,
            0 <= j <= m,
            forall|k: int| 0 <= k < m ==> {
                let p = effects.proposed_relationships@[k];
                let c = #[trigger] committed@[k];
                &&& c.id == p.relationship_id && c.from_document_id == p.from_document_id
                &&& c.to_document_id == p.to_document_id && c.relationship_type == p.relationship_type
                &&& c.description == p.description && c.uncertainty == p.uncertainty
                &&& c.from_head == anchored(documents@, p.from_document_id@, p.from_head)
                &&& c.to_head == anchored(documents@, p.to_document_id@, p.to_head)
            },
            forall|k: int| 0 <= k < j ==> commits(#[trigger] effects.proposed_relationships@[k], documents@, state.relationships@[old_len + k]),
        decreases m - j,
    {
        let equal = committed_equal(&state.relationships[old_len + j], &committed[j]);
        proof {
            let p = effects.proposed_relationships@[j as int];
            let c = committed@[j as int];
            assert(equal == commits(p, documents@, state.relationships@[old_len + j]));
        }
        if !equal {
            return Err(refused("A chat-origin workshop snapshot is not the exact adoption transition."));
        }
        j += 1;
    }
    Ok(())
}

// ------------------------------------------------------------ whole snapshot

/// Everything validating a chat-origin workshop snapshot reads, in the
/// order it is read.
#[derive(Debug)]
pub struct ChatSnapshotReads {
    pub project_id: String,
    pub namespace: String,
    pub snapshot_version: i64,
    pub snapshot_payload_hash: String,
    /// The command receipt under the snapshot's operation, if any.
    pub command: Option<CommandReceiptRow>,
    /// The receipt's result, as decoded.
    pub receipt: Result<AdoptionReceipt, CoreError>,
    /// The decision events under the snapshot's operation.
    pub decision_rows: Vec<DecisionRow>,
    /// The single decision's payload, as decoded.
    pub decision: Result<StoredDecision, CoreError>,
    /// The preview event the decision names, if any.
    pub preview_row: Option<PreviewRow>,
    /// What validating, decoding and expanding the stored preview gave.
    pub preview_checks: Result<(), CoreError>,
    pub preview: ExpandedPreview,
    /// The preview's targets, in target order.
    pub targets: Vec<PreviewTargetRef>,
    /// The committed document each receipt document rehydrates to.
    pub committed: Vec<Result<CommittedDocument, CoreError>>,
    /// The fingerprint of each target's draft body.
    pub body_hashes: Vec<Result<String, CoreError>>,
    pub state: WorkshopStateRecord,
    pub previous_state: WorkshopStateRecord,
    /// The fingerprint of the adoption request rebuilt from the preview.
    pub expected_command_hash: String,
}

/// The heads of the committed documents.
pub open spec fn committed_heads(committed: Seq<Result<CommittedDocument, CoreError>>) -> Seq<Head> {
    Seq::new(committed.len(), |i: int| match committed[i] {
        Ok(c) => c.head,
        Err(_) => arbitrary(),
    })
}

/// Every receipt document matches its preview target and rehydrates to the
/// exact committed draft body.
pub open spec fn targets_ok(x: ChatSnapshotReads, receipt: AdoptionReceipt) -> bool {
    forall|i: int| 0 <= i < x.targets@.len() ==> reference_ok(#[trigger] x.targets@[i], receipt.documents@[i])
        && committed_step(Ok(()), x.targets@[i], x.committed@[i], x.body_hashes@[i])
}

/// A chat-origin snapshot is valid: exactly one adoption command receipt
/// and one decision event back it, the decision is bound to its retained
/// preview and effects, every committed document is the adopted draft
/// body, the snapshot is the workshop version after the preview's, its
/// state is the previous state plus the committed relationships, and the
/// receipt and any recorded binding carry the adoption request's
/// fingerprint.
pub open spec fn chat_snapshot_ok(x: ChatSnapshotReads) -> bool {
    &&& receipt_row_ok(x.command)
    &&& x.receipt matches Ok(rc)
    &&& adoption_receipt_error(x.command->0.document_id@, rc) is None
    &&& x.decision_rows@.len() == 1
    &&& decision_row_ok(x.decision_rows@[0], x.project_id@, x.namespace@, rc.decision_id@)
    &&& x.decision matches Ok(d)
    &&& decision_provenance_ok(d, rc)
    &&& preview_row_ok(x.preview_row, x.project_id@)
    &&& x.preview_checks is Ok
    &&& decision_binding_ok(x.preview, d, rc, x.decision_rows@[0].conversation_id@, x.project_id@, x.namespace@)
    &&& targets_ok(x, rc)
    &&& snapshot_version_error(x.preview.workshop_version@, x.snapshot_version) is None
    &&& (x.preview.effects matches Some(e) && adoption_transition(x.state, x.previous_state, e, committed_heads(x.committed@)))
    &&& snapshot_binding_ok(x.command->0.payload_hash@, x.expected_command_hash@, opt_view(d.snapshot_payload_hash), x.snapshot_payload_hash@)
}

/// Validates a chat-origin workshop snapshot from what was read for it,
/// check by check in reading order.
pub fn validate_chat_workshop_snapshot(x: ChatSnapshotReads) -> (r: Result<(), CoreError>)
    requires
        x.targets@.len() == x.preview.target_ids@.len(),
        x.committed@.len() == x.targets@.len(),
        x.body_hashes@.len() == x.targets@.len(),
    ensures
        r is Ok <==> chat_snapshot_ok(x),
{
    if let Err(e) = check_command_receipt_row(&x.command) {
        return Err(e);
    }
    let command = match &x.command {
        Some(c) => c,
        None => return Err(refused("A chat-origin workshop snapshot has no matching command receipt.")),
    };
    let receipt = match &x.receipt {
        Ok(rc) => rc,
        Err(e) => return Err(e.clone()),
    };
    if let Err(e) = check_adoption_receipt(command.document_id.as_str(), receipt) {
        return Err(e);
    }
    if let Err(e) = check_decision_rows(x.project_id.as_str(), x.namespace.as_str(), receipt.decision_id.as_str(), &x.decision_rows) {
        return Err(e);
    }
    let decision = match &x.decision {
        Ok(d) => d,
        Err(e) => return Err(e.clone()),
    };
    if let Err(e) = check_decision_provenance(decision, receipt) {
        return Err(e);
    }
    if let Err(e) = check_preview_row(&x.preview_row, x.project_id.as_str()) {
        return Err(e);
    }
    if let Err(e) = &x.preview_checks {
        return Err(e.clone());
    }
    let conversation_id = x.decision_rows[0].conversation_id.as_str();
    if let Err(e) = check_decision_binding(&x.preview, decision, receipt, conversation_id, x.project_id.as_str(), x.namespace.as_str()) {
        return Err(e);
    }
    assert(texts(x.preview.target_ids@) == receipt_document_ids(*receipt));
    assert(texts(x.preview.target_ids@).len() == x.preview.target_ids@.len());
    let n = x.targets.len();
    let mut heads: Vec<Head> = Vec::new();
    let mut i: usize = 0;
    while i < n
        invariant
            n == x.targets@.len(),
            n == receipt.documents@.len(),
            n == x.committed@.len(),
            n == x.body_hashes@.len(),
            x.receipt == Ok::<AdoptionReceipt, CoreError>(*receipt),
            0 <= i <= n,
            heads@.len() == i,
            forall|j: int| 0 <= j < i ==> reference_ok(#[trigger] x.targets@[j], receipt.documents@[j])
                && committed_step(Ok(()), x.targets@[j], x.committed@[j], x.body_hashes@[j]),
            forall|j: int| 0 <= j < i ==> (#[trigger] heads@[j]) == committed_heads(x.committed@)[j],
        decreases n - i,
    {
        let committed = match &x.committed[i] {
            Ok(c) => Ok(CommittedDocument { role: c.role.clone(), head: c.head.clone(), body_matches: c.body_matches }),
            Err(e) => Err(e.clone()),
        };
        let body_hash = match &x.body_hashes[i] {
            Ok(h) => Ok(h.clone()),
            Err(e) => Err(e.clone()),
        };
        let step = check_committed_target(&x.targets[i], &receipt.documents[i], committed, body_hash);
        if let Err(e) = step {
            proof {
                assert(!(reference_ok(x.targets@[i as int], receipt.documents@[i as int])
                    && committed_step(Ok(()), x.targets@[i as int], x.committed@[i as int], x.body_hashes@[i as int])));
                assert(!targets_ok(x, *receipt));
            }
            return Err(e);
        }
        let head = match &x.committed[i] {
            Ok(c) => c.head.clone(),
            Err(e) => return Err(e.clone()),
        };
        heads.push(head);
        i += 1;
    }
    assert(heads@ =~= committed_heads(x.committed@));
    if let Err(e) = check_snapshot_version(x.preview.workshop_version.as_str(), x.snapshot_version) {
        return Err(e);
    }
    let effects = match &x.preview.effects {
        Some(e) => e,
        None => return Err(refused("A chat-origin workshop snapshot has no grouped effects.")),
    };
    if let Err(e) = check_snapshot_transition(&x.state, &x.previous_state, effects, &heads) {
        return Err(e);
    }
    check_snapshot_binding(
        command.payload_hash.as_str(),
        x.expected_command_hash.as_str(),
        &decision.snapshot_payload_hash,
        x.snapshot_payload_hash.as_str(),
    )
}

} // verus!

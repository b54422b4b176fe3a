//! Adopting project-chat drafts: who owns a draft, which references a
//! grouped effect may name, the shape a stored effect manifest must have,
//! and the checks that keep an adoption preview current.
use vstd::prelude::*;
use vstd::utf8::encode_utf8;
use crate::chat::{ChatAdoptionImpact, ChatAdoptionPlacement, ChatAdoptionSupersession};
use crate::digest::{lower_hex, sha256_hex, sha256_of};
use crate::error::{CoreError, ErrorCode, fails_with};
use crate::retry::same_head;
use crate::start::{signed_decimal, signed_decimal_text};
use crate::text::{check_id, is_lower_hex64, lower_hex64, parse_version, valid_id, version_ok};
use crate::text::{decimal_chars, decimal_text};
use crate::vocab::{opt_str_eq, opt_view, str_eq, Head, ProjectAccess};

verus! {

broadcast use vstd::string::group_string_axioms;

// -------------------------------------------------------------- ownership

/// The conversation identity that produced an assistant draft.
#[derive(Debug)]
pub struct DraftOwner {
    pub conversation_id: String,
    pub project_id: String,
    pub operation_namespace: String,
}

pub open spec fn draft_owned(owner: Option<DraftOwner>, conversation_id: Seq<char>, project_id: Seq<char>, namespace: Seq<char>) -> bool {
    owner matches Some(o) && o.conversation_id@ == conversation_id && o.project_id@ == project_id
        && o.operation_namespace@ == namespace
}

/// An adopted draft must have been produced by this very conversation
/// identity. `owner` is the read of the draft's provenance, if it has one.
pub fn validate_assistant_draft_ownership(owner: &Option<DraftOwner>, conversation_id: &str, project_id: &str, namespace: &str) -> (r: Result<(), CoreError>)
    ensures
        r is Ok <==> draft_owned(*owner, conversation_id@, project_id@, namespace@),
        r matches Err(e) ==> e.code == ErrorCode::InvalidProjectChat,
{
    let o = match owner {
        None => return Err(CoreError::new(ErrorCode::InvalidProjectChat, "An adoption preview references an assistant draft without provenance.")),
        Some(o) => o,
    };
    if !str_eq(o.conversation_id.as_str(), conversation_id) || !str_eq(o.project_id.as_str(), project_id)
        || !str_eq(o.operation_namespace.as_str(), namespace) {
        return Err(CoreError::new(ErrorCode::InvalidProjectChat, "An adoption preview assistant draft belongs to another conversation identity."));
    }
    Ok(())
}

/// A captured draft reference still names the draft exactly: the same head
/// and the same disposition version.
pub fn require_exact_draft_ref(captured_head: &Head, captured_disposition: &str, draft_head: &Head, draft_disposition: &str) -> (r: Result<(), CoreError>)
    ensures
        r is Ok <==> (same_head(*captured_head, *draft_head) && captured_disposition@ == draft_disposition@),
        r matches Err(e) ==> e.code == ErrorCode::DraftChanged,
{
    if !str_eq(captured_head.document_id.as_str(), draft_head.document_id.as_str())
        || !str_eq(captured_head.version.as_str(), draft_head.version.as_str())
        || !str_eq(captured_head.body_hash.as_str(), draft_head.body_hash.as_str())
        || !str_eq(captured_disposition, draft_disposition) {
        return Err(CoreError::new(ErrorCode::DraftChanged, "The chat draft changed after the request reference was captured."));
    }
    Ok(())
}

// ------------------------------------------------------------ effect refs

/// A reference an effect may name, with the document, head and kind it resolves to.
#[derive(Debug)]
pub struct EffectTarget {
    pub key: String,
    pub document_id: String,
    pub head: Head,
    pub kind: String,
}

pub open spec fn lookup_key(entries: Seq<EffectTarget>, key: Seq<char>) -> Option<EffectTarget>
    decreases entries.len(),
{
    if entries.len() == 0 {
        None
    } else if entries[0].key@ == key {
        Some(entries[0])
    } else {
        lookup_key(entries.drop_first(), key)
    }
}

pub open spec fn has_key(keys: Seq<String>, key: Seq<char>) -> bool {
    exists|i: int| 0 <= i < keys.len() && (#[trigger] keys[i])@ == key
}

pub open spec fn has_text(values: Seq<String>, value: Seq<char>) -> bool {
    exists|i: int| 0 <= i < values.len() && (#[trigger] values[i])@ == value
}

fn find_key(entries: &Vec<EffectTarget>, key: &str) -> (r: Option<usize>)
    ensures
        match r {
            Some(i) => i < entries@.len() && lookup_key(entries@, key@) == Some(entries@[i as int]),
            None => lookup_key(entries@, key@) is None,
        },
{
    let n = entries.len();
    let mut k: usize = 0;
    assert(entries@.skip(0) =~= entries@);
    while k < n
        invariant
            n == entries@.len(),
            0 <= k <= n,
            lookup_key(entries@, key@) == lookup_key(entries@.skip(k as int), key@),
        decreases n - k,
    {
        assert(entries@.skip(k as int)[0] == entries@[k as int]);
        assert(entries@.skip(k as int).drop_first() =~= entries@.skip(k + 1));
        if str_eq(entries[k].key.as_str(), key) {
            return Some(k);
        }
        k += 1;
    }
    None
}

fn contains_text(values: &Vec<String>, value: &str) -> (r: bool)
    ensures
        r == has_text(values@, value@),
{
    let n = values.len();
    let mut i: usize = 0;
    while i < n
        invariant
            n == values@.len(),
            0 <= i <= n,
            forall|j: int| 0 <= j < i ==> (#[trigger] values@[j])@ != value@,
        decreases n - i,
    {
        if str_eq(values[i].as_str(), value) {
            return true;
        }
        i += 1;
    }
    false
}

pub open spec fn resolved_effect(
    draft_keys: Seq<String>,
    draft_targets: Seq<EffectTarget>,
    handles: Seq<EffectTarget>,
    target_ids: Seq<String>,
    reference: Seq<char>,
) -> Option<EffectTarget> {
    if has_key(draft_keys, reference) {
        match lookup_key(draft_targets, reference) {
            Some(t) => if has_text(target_ids, t.document_id@) { Some(t) } else { None },
            None => None,
        }
    } else {
        lookup_key(handles, reference)
    }
}

/// Resolves what a grouped effect refers to: a draft key must name a draft
/// the author included as a target; any other key must name a frozen
/// source of the request. Returns the index of the entry, in `draft_targets`
/// for a draft key and in `handles` otherwise.
pub fn resolve_effect_ref(
    draft_keys: &Vec<String>,
    draft_targets: &Vec<EffectTarget>,
    handles: &Vec<EffectTarget>,
    target_ids: &Vec<String>,
    reference: &str,
) -> (r: Result<usize, CoreError>)
    ensures
        match resolved_effect(draft_keys@, draft_targets@, handles@, target_ids@, reference@) {
            Some(t) => r matches Ok(i) && (if has_key(draft_keys@, reference@) {
                i < draft_targets@.len() && draft_targets@[i as int] == t
            } else {
                i < handles@.len() && handles@[i as int] == t
            }),
            None => fails_with(r, ErrorCode::InvalidRequest),
        },
{
    if contains_text(draft_keys, reference) {
        let i = match find_key(draft_targets, reference) {
            Some(i) => i,
            None => return Err(CoreError::new(ErrorCode::InvalidRequest, "A grouped effect references a draft the author did not include.")),
        };
        if !contains_text(target_ids, draft_targets[i].document_id.as_str()) {
            return Err(CoreError::new(ErrorCode::InvalidRequest, "A grouped effect references a draft the author did not include."));
        }
        return Ok(i);
    }
    match find_key(handles, reference) {
        Some(i) => Ok(i),
        None => Err(CoreError::new(ErrorCode::InvalidRequest, "A grouped effect references a source outside the frozen request.")),
    }
}

pub open spec fn relationship_kind(kind: Seq<char>) -> bool {
    kind == "character"@ || kind == "world"@
}

/// Chat relationships connect only character or world material.
pub fn check_relationship_kinds(from_kind: &str, to_kind: &str) -> (r: Result<(), CoreError>)
    ensures
        r is Ok <==> (relationship_kind(from_kind@) && relationship_kind(to_kind@)),
        r matches Err(e) ==> e.code == ErrorCode::InvalidRequest,
{
    proof {
        reveal_strlit("character");
        reveal_strlit("world");
    }
    let from_ok = str_eq(from_kind, "character") || str_eq(from_kind, "world");
    let to_ok = str_eq(to_kind, "character") || str_eq(to_kind, "world");
    if !from_ok || !to_ok {
        return Err(CoreError::new(ErrorCode::InvalidRequest, "Chat relationships may only connect character or world material."));
    }
    Ok(())
}

/// A relationship the assistant response proposed, between two references.
#[derive(Debug)]
pub struct GroupRelationshipOutput {
    pub key: String,
    pub from_ref: String,
    pub to_ref: String,
    pub relationship_type: String,
    pub description: String,
    pub uncertainty: String,
}

pub open spec fn same_output_relationship(a: GroupRelationshipOutput, b: GroupRelationshipOutput) -> bool {
    a.key@ == b.key@
    && a.from_ref@ == b.from_ref@
    && a.to_ref@ == b.to_ref@
    && a.relationship_type@ == b.relationship_type@
    && a.description@ == b.description@
    && a.uncertainty@ == b.uncertainty@
}

pub open spec fn same_output_relationships(a: Seq<GroupRelationshipOutput>, b: Seq<GroupRelationshipOutput>) -> bool {
    a.len() == b.len() && forall|i: int| 0 <= i < a.len() ==> same_output_relationship(#[trigger] a[i], b[i])
}

fn output_relationship_equal(a: &GroupRelationshipOutput, b: &GroupRelationshipOutput) -> (r: bool)
    ensures
        r == same_output_relationship(*a, *b),
{
    str_eq(a.key.as_str(), b.key.as_str())
        && str_eq(a.from_ref.as_str(), b.from_ref.as_str())
        && str_eq(a.to_ref.as_str(), b.to_ref.as_str())
        && str_eq(a.relationship_type.as_str(), b.relationship_type.as_str())
        && str_eq(a.description.as_str(), b.description.as_str())
        && str_eq(a.uncertainty.as_str(), b.uncertainty.as_str())
}

fn output_relationships_equal(a: &Vec<GroupRelationshipOutput>, b: &Vec<GroupRelationshipOutput>) -> (r: bool)
    ensures
        r == same_output_relationships(a@, b@),
{
    if a.len() != b.len() {
        return false;
    }
    let n = a.len();
    let mut i: usize = 0;
    while i < n
        invariant
            n == a@.len(),
            n == b@.len(),
            0 <= i <= n,
            forall|j: int| 0 <= j < i ==> same_output_relationship(#[trigger] a@[j], b@[j]),
        decreases n - i,
    {
        if !output_relationship_equal(&a[i], &b[i]) {
            return false;
        }
        i += 1;
    }
    true
}

/// An impact the assistant response proposed on a reference.
#[derive(Debug)]
pub struct GroupImpactOutput {
    pub target_ref: String,
    pub kind: String,
    pub reason: String,
    pub relationship_key: Option<String>,
}

pub open spec fn same_output_impact(a: GroupImpactOutput, b: GroupImpactOutput) -> bool {
    a.target_ref@ == b.target_ref@
    && a.kind@ == b.kind@
    && a.reason@ == b.reason@
    && opt_view(a.relationship_key) == opt_view(b.relationship_key)
}

pub open spec fn same_output_impacts(a: Seq<GroupImpactOutput>, b: Seq<GroupImpactOutput>) -> bool {
    a.len() == b.len() && forall|i: int| 0 <= i < a.len() ==> same_output_impact(#[trigger] a[i], b[i])
}

fn output_impact_equal(a: &GroupImpactOutput, b: &GroupImpactOutput) -> (r: bool)
    ensures
        r == same_output_impact(*a, *b),
{
    str_eq(a.target_ref.as_str(), b.target_ref.as_str())
        && str_eq(a.kind.as_str(), b.kind.as_str())
        && str_eq(a.reason.as_str(), b.reason.as_str())
        && opt_str_eq(&a.relationship_key, &b.relationship_key)
}

fn output_impacts_equal(a: &Vec<GroupImpactOutput>, b: &Vec<GroupImpactOutput>) -> (r: bool)
    ensures
        r == same_output_impacts(a@, b@),
{
    if a.len() != b.len() {
        return false;
    }
    let n = a.len();
    let mut i: usize = 0;
    while i < n
        invariant
            n == a@.len(),
            n == b@.len(),
            0 <= i <= n,
            forall|j: int| 0 <= j < i ==> same_output_impact(#[trigger] a@[j], b@[j]),
        decreases n - i,
    {
        if !output_impact_equal(&a[i], &b[i]) {
            return false;
        }
        i += 1;
    }
    true
}

/// A supersession the assistant response proposed between two references.
#[derive(Debug)]
pub struct GroupSupersessionOutput {
    pub target_ref: String,
    pub superseded_ref: String,
    pub reason: String,
}

pub open spec fn same_output_supersession(a: GroupSupersessionOutput, b: GroupSupersessionOutput) -> bool {
    a.target_ref@ == b.target_ref@
    && a.superseded_ref@ == b.superseded_ref@
    && a.reason@ == b.reason@
}

pub open spec fn same_output_supersessions(a: Seq<GroupSupersessionOutput>, b: Seq<GroupSupersessionOutput>) -> bool {
    a.len() == b.len() && forall|i: int| 0 <= i < a.len() ==> same_output_supersession(#[trigger] a[i], b[i])
}

fn output_supersession_equal(a: &GroupSupersessionOutput, b: &GroupSupersessionOutput) -> (r: bool)
    ensures
        r == same_output_supersession(*a, *b),
{
    str_eq(a.target_ref.as_str(), b.target_ref.as_str())
        && str_eq(a.superseded_ref.as_str(), b.superseded_ref.as_str())
        && str_eq(a.reason.as_str(), b.reason.as_str())
}

fn output_supersessions_equal(a: &Vec<GroupSupersessionOutput>, b: &Vec<GroupSupersessionOutput>) -> (r: bool)
    ensures
        r == same_output_supersessions(a@, b@),
{
    if a.len() != b.len() {
        return false;
    }
    let n = a.len();
    let mut i: usize = 0;
    while i < n
        invariant
            n == a@.len(),
            n == b@.len(),
            0 <= i <= n,
            forall|j: int| 0 <= j < i ==> same_output_supersession(#[trigger] a@[j], b@[j]),
        decreases n - i,
    {
        if !output_supersession_equal(&a[i], &b[i]) {
            return false;
        }
        i += 1;
    }
    true
}

/// A placement the assistant response proposed for a reference.
#[derive(Debug)]
pub struct GroupPlacementOutput {
    pub target_ref: String,
    pub before_ref: Option<String>,
    pub after_ref: Option<String>,
}

pub open spec fn same_output_placement(a: GroupPlacementOutput, b: GroupPlacementOutput) -> bool {
    a.target_ref@ == b.target_ref@
    && opt_view(a.before_ref) == opt_view(b.before_ref)
    && opt_view(a.after_ref) == opt_view(b.after_ref)
}

pub open spec fn same_output_placements(a: Seq<GroupPlacementOutput>, b: Seq<GroupPlacementOutput>) -> bool {
    a.len() == b.len() && forall|i: int| 0 <= i < a.len() ==> same_output_placement(#[trigger] a[i], b[i])
}

fn output_placement_equal(a: &GroupPlacementOutput, b: &GroupPlacementOutput) -> (r: bool)
    ensures
        r == same_output_placement(*a, *b),
{
    str_eq(a.target_ref.as_str(), b.target_ref.as_str())
        && opt_str_eq(&a.before_ref, &b.before_ref)
        && opt_str_eq(&a.after_ref, &b.after_ref)
}

fn output_placements_equal(a: &Vec<GroupPlacementOutput>, b: &Vec<GroupPlacementOutput>) -> (r: bool)
    ensures
        r == same_output_placements(a@, b@),
{
    if a.len() != b.len() {
        return false;
    }
    let n = a.len();
    let mut i: usize = 0;
    while i < n
        invariant
            n == a@.len(),
            n == b@.len(),
            0 <= i <= n,
            forall|j: int| 0 <= j < i ==> same_output_placement(#[trigger] a@[j], b@[j]),
        decreases n - i,
    {
        if !output_placement_equal(&a[i], &b[i]) {
            return false;
        }
        i += 1;
    }
    true
}

/// The grouped effects an assistant response proposed.
#[derive(Debug)]
pub struct GroupEffectsOutput {
    pub relationships: Vec<GroupRelationshipOutput>,
    pub impacts: Vec<GroupImpactOutput>,
    pub supersessions: Vec<GroupSupersessionOutput>,
    pub placements: Vec<GroupPlacementOutput>,
}

/// Two proposals of grouped effects are the same, entry by entry.
pub open spec fn same_group_effects(a: GroupEffectsOutput, b: GroupEffectsOutput) -> bool {
    &&& same_output_relationships(a.relationships@, b.relationships@)
    &&& same_output_impacts(a.impacts@, b.impacts@)
    &&& same_output_supersessions(a.supersessions@, b.supersessions@)
    &&& same_output_placements(a.placements@, b.placements@)
}

/// Whether two proposals of grouped effects are the same.
pub fn group_effects_equal(a: &GroupEffectsOutput, b: &GroupEffectsOutput) -> (r: bool)
    ensures
        r == same_group_effects(*a, *b),
{
    output_relationships_equal(&a.relationships, &b.relationships) && output_impacts_equal(&a.impacts, &b.impacts)
        && output_supersessions_equal(&a.supersessions, &b.supersessions)
        && output_placements_equal(&a.placements, &b.placements)
}

pub open spec fn group_effects_error(submitted: Option<GroupEffectsOutput>, retained: Option<GroupEffectsOutput>) -> Option<ErrorCode> {
    if submitted matches Some(s) && !(retained matches Some(k) && same_group_effects(k, s)) {
        Some(ErrorCode::InvalidRequest)
    } else if retained matches Some(k) && (k.impacts@.len() > 0 || k.supersessions@.len() > 0 || k.placements@.len() > 0) {
        Some(ErrorCode::InvalidRequest)
    } else {
        None
    }
}

/// Effects the author submits must be exactly the ones the assistant
/// response retained, and impacts, supersessions and placements stay
/// review-only: a response proposing any of them cannot be adopted.
pub fn check_group_effects(submitted: &Option<GroupEffectsOutput>, retained: &Option<GroupEffectsOutput>) -> (r: Result<(), CoreError>)
    ensures
        match group_effects_error(*submitted, *retained) {
            Some(code) => fails_with(r, code),
            None => r is Ok,
        },
{
    if let Some(s) = submitted {
        let same = match retained {
            Some(k) => group_effects_equal(k, s),
            None => false,
        };
        if !same {
            return Err(CoreError::new(ErrorCode::InvalidRequest, "The submitted grouped effects do not match the retained assistant response."));
        }
    }
    if let Some(k) = retained {
        if k.impacts.len() > 0 || k.supersessions.len() > 0 || k.placements.len() > 0 {
            return Err(CoreError::new(ErrorCode::InvalidRequest, "Grouped impacts, supersessions, and placements are review-only until their atomic Workshop materialization is available."));
        }
    }
    Ok(())
}

/// Protected author text of a target, bound to the head it was read at and
/// to its SHA-256 fingerprint.
pub fn protected_content(target_document_id: String, source_head: Head, text: String) -> (r: ChatProtectedContent)
    ensures
        r.target_document_id == target_document_id,
        r.source_head == source_head,
        r.text == text,
        r.text_hash@ == lower_hex(sha256_of(encode_utf8(text@))),
{
    let text_hash = sha256_hex(text.as_str().as_bytes());
    ChatProtectedContent { target_document_id, source_head, text, text_hash }
}

/// A relationship the assistant proposed between two resolved endpoints,
/// under a fresh relationship ID; only character and world material may be
/// connected.
pub fn proposed_relationship(
    key: String,
    relationship_id: String,
    from: &EffectTarget,
    to: &EffectTarget,
    relationship_type: String,
    description: String,
    uncertainty: String,
) -> (r: Result<ChatAdoptionRelationship, CoreError>)
    ensures
        r is Ok <==> (relationship_kind(from.kind@) && relationship_kind(to.kind@)),
        r matches Err(e) ==> e.code == ErrorCode::InvalidRequest,
        r matches Ok(rel) ==> rel.key == key && rel.relationship_id == relationship_id
            && rel.from_document_id == from.document_id && rel.to_document_id == to.document_id
            && rel.relationship_type == relationship_type && rel.description == description
            && rel.uncertainty == uncertainty && rel.from_head == from.head && rel.to_head == to.head,
{
    if let Err(e) = check_relationship_kinds(from.kind.as_str(), to.kind.as_str()) {
        return Err(e);
    }
    Ok(ChatAdoptionRelationship {
        key,
        relationship_id,
        from_document_id: from.document_id.clone(),
        to_document_id: to.document_id.clone(),
        relationship_type,
        description,
        uncertainty,
        from_head: from.head.clone(),
        to_head: to.head.clone(),
    })
}

// ---------------------------------------------------------------- manifest

/// A relationship whose endpoints an adoption must not silently change.
#[derive(Debug)]
pub struct ChatRelationshipDependency {
    pub relationship_id: String,
    pub from_document_id: String,
    pub to_document_id: String,
    pub relationship_type: String,
    pub from_head: Head,
    pub to_head: Head,
}

/// Author-protected text an adoption must keep.
#[derive(Debug)]
pub struct ChatProtectedContent {
    pub target_document_id: String,
    pub source_head: Head,
    pub text: String,
    pub text_hash: String,
}

/// A relationship the assistant proposed.
#[derive(Debug)]
pub struct ChatAdoptionRelationship {
    pub key: String,
    pub relationship_id: String,
    pub from_document_id: String,
    pub to_document_id: String,
    pub relationship_type: String,
    pub description: String,
    pub uncertainty: String,
    pub from_head: Head,
    pub to_head: Head,
}

/// A grouped adoption's complete effect manifest.
#[derive(Debug)]
pub struct ChatAdoptionEffects {
    pub version: String,
    pub source_output_hash: String,
    pub relationship_dependencies: Vec<ChatRelationshipDependency>,
    pub protected_content: Vec<ChatProtectedContent>,
    pub proposed_relationships: Vec<ChatAdoptionRelationship>,
    pub impacts: Vec<ChatAdoptionImpact>,
    pub supersessions: Vec<ChatAdoptionSupersession>,
    pub placements: Vec<ChatAdoptionPlacement>,
}

pub open spec fn head_ok(document_id: Seq<char>, head: Head) -> bool {
    head.document_id@ == document_id && lower_hex64(head.body_hash@) && version_ok(head.version@)
}

pub open spec fn dependency_ok(d: ChatRelationshipDependency) -> bool {
    &&& valid_id(d.relationship_id@) && valid_id(d.from_document_id@) && valid_id(d.to_document_id@)
    &&& d.from_document_id@ != d.to_document_id@
    &&& head_ok(d.from_document_id@, d.from_head) && head_ok(d.to_document_id@, d.to_head)
}

pub open spec fn protected_ok(p: ChatProtectedContent, target_ids: Seq<String>) -> bool {
    &&& has_text(target_ids, p.target_document_id@)
    &&& head_ok(p.target_document_id@, p.source_head)
    &&& lower_hex(sha256_of(encode_utf8(p.text@))) == p.text_hash@
}

pub open spec fn relationship_ok(rels: Seq<ChatAdoptionRelationship>, i: int, target_ids: Seq<String>, verdicts: Seq<Result<(), CoreError>>) -> bool {
    let rel = rels[i];
    &&& valid_id(rel.relationship_id@)
    &&& forall|j: int| 0 <= j < i ==> (#[trigger] rels[j]).relationship_id@ != rel.relationship_id@
    &&& rel.from_document_id@ != rel.to_document_id@
    &&& head_ok(rel.from_document_id@, rel.from_head) && head_ok(rel.to_document_id@, rel.to_head)
    &&& (has_text(target_ids, rel.from_document_id@) || verdicts[2 * i] is Ok)
    &&& (has_text(target_ids, rel.to_document_id@) || verdicts[2 * i + 1] is Ok)
}

/// A stored manifest is the supported version, bound to a lowercase output
/// fingerprint, carries no review-only effects, and every dependency,
/// protected passage and proposed relationship is well formed and bound to
/// the adoption's targets or to retained ordinary material.
pub open spec fn effects_shape_ok(effects: ChatAdoptionEffects, target_ids: Seq<String>, version: Seq<char>, verdicts: Seq<Result<(), CoreError>>) -> bool {
    &&& effects.version@ == version
    &&& lower_hex64(effects.source_output_hash@)
    &&& effects.impacts@.len() == 0 && effects.supersessions@.len() == 0 && effects.placements@.len() == 0
    &&& forall|i: int| 0 <= i < effects.relationship_dependencies@.len() ==> dependency_ok(#[trigger] effects.relationship_dependencies@[i])
    &&& forall|i: int| 0 <= i < effects.protected_content@.len() ==> protected_ok(#[trigger] effects.protected_content@[i], target_ids)
    &&& forall|i: int| 0 <= i < effects.proposed_relationships@.len() ==> #[trigger] relationship_ok(effects.proposed_relationships@, i, target_ids, verdicts)
}

fn check_head(document_id: &str, head: &Head) -> (r: Result<(), CoreError>)
    ensures
        r is Ok <==> head_ok(document_id@, *head),
        r matches Err(e) ==> e.code == ErrorCode::InvalidProjectChat || e.code == ErrorCode::InvalidRequest,
{
    if !str_eq(head.document_id.as_str(), document_id) || !is_lower_hex64(head.body_hash.as_str()) {
        return Err(CoreError::new(ErrorCode::InvalidProjectChat, "A chat effect endpoint has invalid provenance."));
    }
    if let Err(e) = parse_version(head.version.as_str()) {
        return Err(e);
    }
    Ok(())
}

/// Checks a stored effect manifest's shape. `verdicts[2 * i]` and
/// `verdicts[2 * i + 1]` are the retained-material checks of the from and to
/// endpoints of proposed relationship `i`, consulted only for endpoints
/// outside the adoption's targets.
#[verifier::loop_isolation(false)]
pub fn validate_effects_shape(
    effects: &ChatAdoptionEffects,
    target_ids: &Vec<String>,
    version: &str,
    verdicts: &Vec<Result<(), CoreError>>,
) -> (r: Result<(), CoreError>)
    requires
        verdicts@.len() == 2 * effects.proposed_relationships@.len(),
    ensures
        r is Ok <==> effects_shape_ok(*effects, target_ids@, version@, verdicts@),
        r matches Err(e) ==> e.code == ErrorCode::InvalidProjectChat || e.code == ErrorCode::InvalidRequest
            || exists|i: int| 0 <= i < verdicts@.len() && verdicts@[i] == Err::<(), CoreError>(e),
{
    if !str_eq(effects.version.as_str(), version) || !is_lower_hex64(effects.source_output_hash.as_str())
        || effects.impacts.len() > 0 || effects.supersessions.len() > 0 || effects.placements.len() > 0 {
        return Err(CoreError::new(ErrorCode::InvalidProjectChat, "A chat adoption effect manifest has an unsupported or incomplete effect set."));
    }
    let deps = &effects.relationship_dependencies;
    let mut i: usize = 0;
    while i < deps.len()
        invariant
            0 <= i <= deps@.len(),
            forall|j: int| 0 <= j < i ==> dependency_ok(#[trigger] deps@[j]),
        decreases deps@.len() - i,
    {
        let d = &deps[i];
        let ghost bad = !dependency_ok(deps@[i as int]);
        if let Err(e) = check_id(d.relationship_id.as_str()) {
            assert(bad);
            return Err(e);
        }
        if let Err(e) = check_id(d.from_document_id.as_str()) {
            assert(bad);
            return Err(e);
        }
        if let Err(e) = check_id(d.to_document_id.as_str()) {
            assert(bad);
            return Err(e);
        }
        if str_eq(d.from_document_id.as_str(), d.to_document_id.as_str()) {
            assert(bad);
            return Err(CoreError::new(ErrorCode::InvalidProjectChat, "A relationship dependency has invalid endpoint provenance."));
        }
        if let Err(e) = check_head(d.from_document_id.as_str(), &d.from_head) {
            assert(bad);
            return Err(e);
        }
        if let Err(e) = check_head(d.to_document_id.as_str(), &d.to_head) {
            assert(bad);
            return Err(e);
        }
        i += 1;
    }
    let protected = &effects.protected_content;
    let mut i: usize = 0;
    while i < protected.len()
        invariant
            0 <= i <= protected@.len(),
            forall|j: int| 0 <= j < i ==> protected_ok(#[trigger] protected@[j], target_ids@),
        decreases protected@.len() - i,
    {
        let p = &protected[i];
        let ghost bad = !protected_ok(protected@[i as int], target_ids@);
        if !contains_text(target_ids, p.target_document_id.as_str()) {
            assert(bad);
            return Err(CoreError::new(ErrorCode::InvalidProjectChat, "Protected chat content is not bound to an adoption target."));
        }
        if let Err(e) = check_head(p.target_document_id.as_str(), &p.source_head) {
            assert(bad);
            return Err(e);
        }
        let digest = sha256_hex(p.text.as_str().as_bytes());
        if !str_eq(digest.as_str(), p.text_hash.as_str()) {
            assert(bad);
            return Err(CoreError::new(ErrorCode::InvalidProjectChat, "Protected chat content is not bound to an adoption target."));
        }
        i += 1;
    }
    let rels = &effects.proposed_relationships;
    let mut i: usize = 0;
    while i < rels.len()
        invariant
            0 <= i <= rels@.len(),
            verdicts@.len() == 2 * rels@.len(),
            forall|j: int| 0 <= j < i ==> #[trigger] relationship_ok(rels@, j, target_ids@, verdicts@),
        decreases rels@.len() - i,
    {
        let rel = &rels[i];
        if let Err(e) = check_id(rel.relationship_id.as_str()) {
            assert(!relationship_ok(rels@, i as int, target_ids@, verdicts@));
            return Err(e);
        }
        let mut k: usize = 0;
        while k < i
            invariant
                0 <= k <= i < rels@.len(),
                forall|j: int| 0 <= j < k ==> (#[trigger] rels@[j]).relationship_id@ != rels@[i as int].relationship_id@,
            decreases i - k,
        {
            if str_eq(rels[k].relationship_id.as_str(), rel.relationship_id.as_str()) {
                assert(rels@[k as int].relationship_id@ == rels@[i as int].relationship_id@);
                assert(!relationship_ok(rels@, i as int, target_ids@, verdicts@));
                return Err(CoreError::new(ErrorCode::InvalidProjectChat, "A proposed relationship has invalid identity or provenance."));
            }
            k += 1;
        }
        if str_eq(rel.from_document_id.as_str(), rel.to_document_id.as_str()) {
            assert(!relationship_ok(rels@, i as int, target_ids@, verdicts@));
            return Err(CoreError::new(ErrorCode::InvalidProjectChat, "A proposed relationship has invalid identity or provenance."));
        }
        if let Err(e) = check_head(rel.from_document_id.as_str(), &rel.from_head) {
            assert(!relationship_ok(rels@, i as int, target_ids@, verdicts@));
            return Err(e);
        }
        if let Err(e) = check_head(rel.to_document_id.as_str(), &rel.to_head) {
            assert(!relationship_ok(rels@, i as int, target_ids@, verdicts@));
            return Err(e);
        }
        assert(verdicts@.len() == verdicts.len());
        assert(2 * i + 1 < verdicts@.len());
        if !contains_text(target_ids, rel.from_document_id.as_str()) {
            if let Err(e) = &verdicts[2 * i] {
                assert(!relationship_ok(rels@, i as int, target_ids@, verdicts@));
                return Err(e.clone());
            }
        }
        if !contains_text(target_ids, rel.to_document_id.as_str()) {
            if let Err(e) = &verdicts[2 * i + 1] {
                assert(!relationship_ok(rels@, i as int, target_ids@, verdicts@));
                return Err(e.clone());
            }
        }
        assert(relationship_ok(rels@, i as int, target_ids@, verdicts@));
        i += 1;
    }
    Ok(())
}


// ----------------------------------------------------------------- prepare

/// The largest number of drafts one adoption takes.
pub const MAX_TARGETS: usize = 3;

/// An adoption request names its operation and conversation and one to
/// three drafts.
pub fn check_adoption_request(operation_id: &str, conversation_id: &str, draft_count: usize) -> (r: Result<(), CoreError>)
    ensures
        r is Ok <==> (valid_id(operation_id@) && valid_id(conversation_id@) && 1 <= draft_count <= MAX_TARGETS),
        r matches Err(e) ==> e.code == ErrorCode::InvalidRequest,
{
    if let Err(e) = check_id(operation_id) {
        return Err(e);
    }
    if let Err(e) = check_id(conversation_id) {
        return Err(e);
    }
    if draft_count == 0 || draft_count > MAX_TARGETS {
        return Err(CoreError::new(ErrorCode::InvalidRequest, "Chat adoption requires one to three nonchapter drafts."));
    }
    Ok(())
}

/// An operation ID already used replays only the same kind of command with
/// the same payload.
pub fn check_operation_replay(existing_kind: &str, expected_kind: &str, stored_hash: &str, payload_hash: &str) -> (r: Result<(), CoreError>)
    ensures
        r is Ok <==> (existing_kind@ == expected_kind@ && stored_hash@ == payload_hash@),
        r matches Err(e) ==> e.code == ErrorCode::OperationIdReusedWithDifferentPayload,
{
    if !str_eq(existing_kind, expected_kind) {
        return Err(CoreError::new(ErrorCode::OperationIdReusedWithDifferentPayload, "This operation ID already belongs to another project-chat command."));
    }
    if !str_eq(stored_hash, payload_hash) {
        return Err(CoreError::new(ErrorCode::OperationIdReusedWithDifferentPayload, "This operation ID was already used for another chat adoption preview."));
    }
    Ok(())
}

/// Each draft, and each target, appears once in an adoption.
pub fn check_not_seen(seen: &Vec<String>, id: &str) -> (r: Result<(), CoreError>)
    ensures
        r is Ok <==> !has_text(seen@, id@),
        r matches Err(e) ==> e.code == ErrorCode::InvalidRequest,
{
    if contains_text(seen, id) {
        return Err(CoreError::new(ErrorCode::InvalidRequest, "Chat adoption drafts and targets must be unique."));
    }
    Ok(())
}

/// The material kinds an assistant draft may be adopted as.
pub open spec fn adoptable_kind(kind: Seq<char>) -> bool {
    kind == "note"@ || kind == "world"@ || kind == "character"@ || kind == "theme"@ || kind == "hook"@ || kind == "scene"@
}

/// The state of an assistant draft that an adoption reads.
#[derive(Debug)]
pub struct DraftState {
    /// Produced against an older story or policy epoch.
    pub stale: bool,
    pub disposition: String,
    /// The document's role is the isolated assistant-draft role.
    pub assistant_draft_role: bool,
    pub kind: String,
}

pub open spec fn draft_state_error(d: DraftState) -> Option<ErrorCode> {
    if d.stale {
        Some(ErrorCode::ContextChanged)
    } else if d.disposition@ != "pending"@ {
        Some(ErrorCode::DraftNotAdoptable)
    } else {
        None
    }
}

pub open spec fn draft_document_error(d: DraftState) -> Option<ErrorCode> {
    if !d.assistant_draft_role {
        Some(ErrorCode::DocumentRoleMismatch)
    } else if !adoptable_kind(d.kind@) {
        Some(ErrorCode::InvalidDocument)
    } else {
        None
    }
}

/// Only a current, pending assistant draft may be adopted.
pub fn check_draft_state(d: &DraftState) -> (r: Result<(), CoreError>)
    ensures
        match draft_state_error(*d) {
            Some(code) => fails_with(r, code),
            None => r is Ok,
        },
{
    proof {
        reveal_strlit("pending");
    }
    if d.stale {
        return Err(CoreError::new(ErrorCode::ContextChanged, "The assistant draft was produced against an older story or policy epoch."));
    }
    if !str_eq(d.disposition.as_str(), "pending") {
        return Err(CoreError::new(ErrorCode::DraftNotAdoptable, "Only a pending assistant draft can be prepared for adoption."));
    }
    Ok(())
}

/// An adopted draft is an isolated assistant draft of nonchapter material.
pub fn check_draft_document(d: &DraftState) -> (r: Result<(), CoreError>)
    ensures
        match draft_document_error(*d) {
            Some(code) => fails_with(r, code),
            None => r is Ok,
        },
{
    proof {
        reveal_strlit("note");
        reveal_strlit("world");
        reveal_strlit("character");
        reveal_strlit("theme");
        reveal_strlit("hook");
        reveal_strlit("scene");
    }
    if !d.assistant_draft_role {
        return Err(CoreError::new(ErrorCode::DocumentRoleMismatch, "Chat adoption requires an isolated assistant draft."));
    }
    let k = d.kind.as_str();
    if !(str_eq(k, "note") || str_eq(k, "world") || str_eq(k, "character") || str_eq(k, "theme") || str_eq(k, "hook")
        || str_eq(k, "scene")) {
        return Err(CoreError::new(ErrorCode::InvalidDocument, "Chat adoption can target only nonchapter material documents."));
    }
    Ok(())
}

// ----------------------------------------------------------------- preview

/// A preview is adopted only in the identity and conversation it was
/// prepared for.
pub fn check_preview_identity(access: &ProjectAccess, conversation_id: &str, project_id: &str, namespace: &str, preview_conversation: &str) -> (r: Result<(), CoreError>)
    ensures
        r is Ok <==> (project_id@ == access.project_id@ && namespace@ == access.operation_namespace@
            && preview_conversation@ == conversation_id@),
        r matches Err(e) ==> e.code == ErrorCode::WrongProjectSession,
{
    if !str_eq(project_id, access.project_id.as_str()) || !str_eq(namespace, access.operation_namespace.as_str())
        || !str_eq(preview_conversation, conversation_id) {
        return Err(CoreError::new(ErrorCode::WrongProjectSession, "The chat adoption preview belongs to another project identity."));
    }
    Ok(())
}

pub open spec fn preview_freshness_error(source: Seq<char>, policy: Seq<char>, workshop: Seq<char>, preview_source: Seq<char>, preview_policy: Seq<char>, preview_workshop: Seq<char>) -> Option<ErrorCode> {
    if source != preview_source || policy != preview_policy {
        Some(ErrorCode::ContextChanged)
    } else if workshop != preview_workshop {
        Some(ErrorCode::WorkshopChanged)
    } else {
        None
    }
}

/// A preview stays adoptable only while the story, the permissions and the
/// workshop are exactly as they were when it was prepared.
pub fn check_preview_freshness(source: &str, policy: &str, workshop: &str, preview_source: &str, preview_policy: &str, preview_workshop: &str) -> (r: Result<(), CoreError>)
    ensures
        match preview_freshness_error(source@, policy@, workshop@, preview_source@, preview_policy@, preview_workshop@) {
            Some(code) => fails_with(r, code),
            None => r is Ok,
        },
{
    if !str_eq(source, preview_source) || !str_eq(policy, preview_policy) {
        return Err(CoreError::new(ErrorCode::ContextChanged, "The story or permissions changed after this chat preview."));
    }
    if !str_eq(workshop, preview_workshop) {
        return Err(CoreError::new(ErrorCode::WorkshopChanged, "Workshop protection or relationships changed after this chat preview."));
    }
    Ok(())
}

/// The workshop version as text; a workshop never written is at version 0.
pub fn current_workshop_version(version: Option<i64>) -> (r: Result<String, CoreError>)
    ensures
        match version {
            Some(v) => if v < 0 { fails_with(r, ErrorCode::InvalidProject) } else { r matches Ok(t) && t@ == decimal_chars(v as nat) },
            None => r matches Ok(t) && t@ == decimal_chars(0),
        },
{
    let v = match version {
        Some(v) => v,
        None => 0,
    };
    if v < 0 {
        return Err(CoreError::new(ErrorCode::InvalidProject, "The workshop version is negative."));
    }
    Ok(decimal_text(v as u64))
}

/// The draft a preview target captured is still the one it was prepared
/// from: its checkpoint is the preview's revision and that revision's body is
/// the preview's body.
pub fn check_preview_draft_revision(checkpoint: &Option<String>, draft_revision_id: &str, body_matches: bool) -> (r: Result<(), CoreError>)
    ensures
        r is Ok <==> (opt_view(*checkpoint) == Some(draft_revision_id@) && body_matches),
        r matches Err(e) ==> e.code == ErrorCode::DraftChanged,
{
    let same = match checkpoint {
        Some(c) => str_eq(c.as_str(), draft_revision_id),
        None => false,
    };
    if !same {
        return Err(CoreError::new(ErrorCode::DraftChanged, "A chat draft revision changed after preview preparation."));
    }
    if !body_matches {
        return Err(CoreError::new(ErrorCode::DraftChanged, "A chat draft body changed after preview preparation."));
    }
    Ok(())
}

/// What a preview remembers of a target document.
#[derive(Debug)]
pub struct StoredDocumentRef {
    pub head: Head,
    pub title: String,
    pub kind: String,
    pub metadata_version: String,
    pub last_checkpoint_id: Option<String>,
    pub role: String,
}

pub open spec fn same_document_ref(a: StoredDocumentRef, b: StoredDocumentRef) -> bool {
    &&& same_head(a.head, b.head)
    &&& a.title@ == b.title@ && a.kind@ == b.kind@ && a.metadata_version@ == b.metadata_version@
    &&& opt_view(a.last_checkpoint_id) == opt_view(b.last_checkpoint_id) && a.role@ == b.role@
}

/// A preview's target is adopted only while the document is exactly as the
/// preview saw it.
pub fn expand_document_ref(current: &StoredDocumentRef, reference: &StoredDocumentRef) -> (r: Result<(), CoreError>)
    ensures
        r is Ok <==> same_document_ref(*current, *reference),
        r matches Err(e) ==> e.code == ErrorCode::VersionConflict,
{
    if !str_eq(current.head.document_id.as_str(), reference.head.document_id.as_str())
        || !str_eq(current.head.version.as_str(), reference.head.version.as_str())
        || !str_eq(current.head.body_hash.as_str(), reference.head.body_hash.as_str())
        || !str_eq(current.title.as_str(), reference.title.as_str()) || !str_eq(current.kind.as_str(), reference.kind.as_str())
        || !str_eq(current.metadata_version.as_str(), reference.metadata_version.as_str())
        || !opt_str_eq(&current.last_checkpoint_id, &reference.last_checkpoint_id)
        || !str_eq(current.role.as_str(), reference.role.as_str()) {
        return Err(CoreError::new(ErrorCode::VersionConflict, "A chat adoption preview target changed before adoption."));
    }
    Ok(())
}

/// A proposed relationship endpoint outside the adoption is retained
/// ordinary character or world material whose frozen head is a committed
/// revision. `document` is the read of its stored role and kind, and
/// `revision` the read of the latest revision at the head's version and
/// fingerprint, with that revision's head.
pub fn validate_historical_relationship_endpoint(
    head: &Head,
    document: Result<(String, String), CoreError>,
    revision: Result<Option<Head>, CoreError>,
) -> (r: Result<(), CoreError>)
    ensures
        match document {
            Err(e) => r == Err::<(), CoreError>(e),
            Ok((role, kind)) => if role@ != "ordinary"@ || !relationship_kind(kind@) {
                fails_with(r, ErrorCode::InvalidProjectChat)
            } else if !version_ok(head.version@) {
                fails_with(r, ErrorCode::InvalidRequest)
            } else {
                match revision {
                    Err(e) => r == Err::<(), CoreError>(e),
                    Ok(None) => fails_with(r, ErrorCode::InvalidProjectChat),
                    Ok(Some(h)) => if same_head(h, *head) { r is Ok } else { fails_with(r, ErrorCode::InvalidProjectChat) },
                }
            },
        },
{
    let (role, kind) = match document {
        Ok(pair) => pair,
        Err(e) => return Err(e),
    };
    proof {
        reveal_strlit("ordinary");
        reveal_strlit("character");
        reveal_strlit("world");
    }
    if !str_eq(role.as_str(), "ordinary") || !(str_eq(kind.as_str(), "character") || str_eq(kind.as_str(), "world")) {
        return Err(CoreError::new(ErrorCode::InvalidProjectChat, "A proposed relationship endpoint is outside the frozen ordinary material."));
    }
    if let Err(e) = parse_version(head.version.as_str()) {
        return Err(e);
    }
    let h = match revision {
        Err(e) => return Err(e),
        Ok(None) => return Err(CoreError::new(ErrorCode::InvalidProjectChat, "A proposed relationship endpoint has no retained source revision.")),
        Ok(Some(h)) => h,
    };
    if !str_eq(h.document_id.as_str(), head.document_id.as_str()) || !str_eq(h.version.as_str(), head.version.as_str())
        || !str_eq(h.body_hash.as_str(), head.body_hash.as_str()) {
        return Err(CoreError::new(ErrorCode::InvalidProjectChat, "A proposed relationship endpoint revision does not match its frozen head."));
    }
    Ok(())
}

/// Whether an adoption operation ID was already used: any receipt of another
/// command kind refuses it, and an adoption receipt replays only the same
/// payload. `other_command` says whether a workshop or proposal receipt holds
/// the ID, and `found` is the adoption-side receipt's kind and payload
/// fingerprint. Returns whether the stored result is to be replayed.
pub fn existing_receipt(other_command: bool, found: &Option<(String, String)>, payload_hash: &str) -> (r: Result<bool, CoreError>)
    ensures
        match found {
            None => if other_command { fails_with(r, ErrorCode::OperationIdReusedWithDifferentPayload) } else { r == Ok::<bool, CoreError>(false) },
            Some((kind, hash)) => if kind@ == "adoptChatPreview"@ && hash@ == payload_hash@ {
                r == Ok::<bool, CoreError>(true)
            } else {
                fails_with(r, ErrorCode::OperationIdReusedWithDifferentPayload)
            },
        },
{
    proof {
        reveal_strlit("adoptChatPreview");
    }
    match found {
        None => {
            if other_command {
                return Err(CoreError::new(ErrorCode::OperationIdReusedWithDifferentPayload, "This operation ID was already used for another command."));
            }
            Ok(false)
        },
        Some((kind, hash)) => {
            if !str_eq(kind.as_str(), "adoptChatPreview") || !str_eq(hash.as_str(), payload_hash) {
                return Err(CoreError::new(ErrorCode::OperationIdReusedWithDifferentPayload, "This operation ID was already used for another command."));
            }
            Ok(true)
        },
    }
}

// -------------------------------------------------------------------- adopt

/// An author's decision to adopt a reviewed preview.
#[derive(Debug)]
pub struct AdoptChatPreview {
    pub access: ProjectAccess,
    pub operation_id: String,
    pub conversation_id: String,
    pub preview_id: String,
    pub preview_version: String,
    pub preview_digest: String,
}

pub open spec fn adopt_request_ok(request: AdoptChatPreview) -> bool {
    valid_id(request.operation_id@) && valid_id(request.conversation_id@) && valid_id(request.preview_id@)
        && version_ok(request.preview_version@) && lower_hex64(request.preview_digest@)
}

/// An adoption names its operation, conversation and preview, and the exact
/// version and digest of the preview the author reviewed.
pub fn validate_adopt_request(request: &AdoptChatPreview) -> (r: Result<(), CoreError>)
    ensures
        r is Ok <==> adopt_request_ok(*request),
        r matches Err(e) ==> e.code == ErrorCode::InvalidRequest,
{
    if let Err(e) = check_id(request.operation_id.as_str()) {
        return Err(e);
    }
    if let Err(e) = check_id(request.conversation_id.as_str()) {
        return Err(e);
    }
    if let Err(e) = check_id(request.preview_id.as_str()) {
        return Err(e);
    }
    if let Err(e) = parse_version(request.preview_version.as_str()) {
        return Err(e);
    }
    if !is_lower_hex64(request.preview_digest.as_str()) {
        return Err(CoreError::new(ErrorCode::InvalidRequest, "The preview digest is invalid."));
    }
    Ok(())
}

/// The preview the author adopts is exactly the one they reviewed: the same
/// identity, version and digest as the stored preview.
pub fn check_selected_preview(request: &AdoptChatPreview, stored_id: &str, stored_version: &str, stored_digest: &str) -> (r: Result<(), CoreError>)
    ensures
        r is Ok <==> (stored_id@ == request.preview_id@ && stored_version@ == request.preview_version@
            && stored_digest@ == request.preview_digest@),
        r matches Err(e) ==> e.code == ErrorCode::PreviewMismatch,
{
    if !str_eq(stored_id, request.preview_id.as_str()) || !str_eq(stored_version, request.preview_version.as_str())
        || !str_eq(stored_digest, request.preview_digest.as_str()) {
        return Err(CoreError::new(ErrorCode::PreviewMismatch, "The selected chat adoption preview identity does not match."));
    }
    Ok(())
}

// ------------------------------------------------------------- group origin

/// Where an assistant draft came from, as stored.
#[derive(Debug)]
pub struct DraftOriginRow {
    pub origin_run_id: String,
    pub project_id: String,
    pub operation_namespace: String,
}

/// The first draft at or after `i` that is another project's, or another
/// response's than the drafts before it.
pub open spec fn origin_error(access: ProjectAccess, rows: Seq<DraftOriginRow>, i: int) -> Option<ErrorCode> {
    if rows[i].project_id@ != access.project_id@ || rows[i].operation_namespace@ != access.operation_namespace@ {
        Some(ErrorCode::WrongProjectSession)
    } else if i > 0 && rows[i].origin_run_id@ != rows[0].origin_run_id@ {
        Some(ErrorCode::InvalidRequest)
    } else {
        None
    }
}

/// The drafts of a grouped adoption are this project's and come from one
/// assistant response; returns that response's run. `rows[i]` is the stored
/// origin of draft `i`.
pub fn group_origin_run(access: &ProjectAccess, rows: &Vec<DraftOriginRow>) -> (r: Result<String, CoreError>)
    ensures
        (rows@.len() > 0 && forall|i: int| 0 <= i < rows@.len() ==> origin_error(*access, rows@, i) is None) <==> r is Ok,
        r matches Ok(run) ==> run@ == rows@[0].origin_run_id@,
        r matches Err(e) ==> (rows@.len() == 0 && e.code == ErrorCode::InvalidRequest) || exists|i: int| 0 <= i < rows@.len()
            && (forall|j: int| 0 <= j < i ==> origin_error(*access, rows@, j) is None)
            && origin_error(*access, rows@, i) == Some(e.code),
{
    let n = rows.len();
    let mut i: usize = 0;
    while i < n
        invariant
            n == rows@.len(),
            0 <= i <= n,
            forall|j: int| 0 <= j < i ==> origin_error(*access, rows@, j) is None,
        decreases n - i,
    {
        let row = &rows[i];
        if !str_eq(row.project_id.as_str(), access.project_id.as_str())
            || !str_eq(row.operation_namespace.as_str(), access.operation_namespace.as_str()) {
            assert(origin_error(*access, rows@, i as int) == Some(ErrorCode::WrongProjectSession));
            return Err(CoreError::new(ErrorCode::WrongProjectSession, "A chat adoption draft belongs to another project identity."));
        }
        if i > 0 && !str_eq(row.origin_run_id.as_str(), rows[0].origin_run_id.as_str()) {
            assert(origin_error(*access, rows@, i as int) == Some(ErrorCode::InvalidRequest));
            return Err(CoreError::new(ErrorCode::InvalidRequest, "Grouped chat adoption drafts must come from one assistant response."));
        }
        assert(origin_error(*access, rows@, i as int) is None);
        i += 1;
    }
    if n == 0 {
        return Err(CoreError::new(ErrorCode::InvalidRequest, "Grouped chat adoption requires at least one originating run."));
    }
    Ok(rows[0].origin_run_id.clone())
}

/// Two optional proposals of grouped effects are the same.
pub open spec fn same_opt_group_effects(a: Option<GroupEffectsOutput>, b: Option<GroupEffectsOutput>) -> bool {
    match (a, b) {
        (Some(x), Some(y)) => same_group_effects(x, y),
        (None, None) => true,
        _ => false,
    }
}

/// The grouped effects of the response must be the ones retained when it
/// was materialized, and effects without a retained materialization are
/// refused. `retained` is the materialization record's effects, when such a
/// record exists (`Some(None)` when it records none); `response` is the
/// response's own.
pub fn check_retained_effects(retained: &Option<Option<GroupEffectsOutput>>, response: &Option<GroupEffectsOutput>) -> (r: Result<(), CoreError>)
    ensures
        r is Ok <==> match *retained {
            Some(kept) => same_opt_group_effects(kept, *response),
            None => response is None,
        },
        r matches Err(e) ==> e.code == ErrorCode::InvalidProjectChat,
{
    match retained {
        Some(kept) => {
            let same = match (kept, response) {
                (Some(x), Some(y)) => group_effects_equal(x, y),
                (None, None) => true,
                _ => false,
            };
            if !same {
                return Err(CoreError::new(ErrorCode::InvalidProjectChat, "The retained group effects do not match the assistant response."));
            }
        },
        None => {
            if response.is_some() {
                return Err(CoreError::new(ErrorCode::InvalidProjectChat, "Grouped effects have no retained materialization record."));
            }
        },
    }
    Ok(())
}

/// A frozen source of the response still reads the revision it was frozen
/// at. `revision` is the read of that revision's head.
pub fn check_source_revision(document_id: &str, body_hash: &str, revision: Result<Head, CoreError>) -> (r: Result<(), CoreError>)
    ensures
        match revision {
            Err(e) => r == Err::<(), CoreError>(e),
            Ok(h) => if h.document_id@ == document_id@ && h.body_hash@ == body_hash@ { r is Ok } else {
                fails_with(r, ErrorCode::ContextChanged)
            },
        },
{
    let h = match revision {
        Ok(h) => h,
        Err(e) => return Err(e),
    };
    if !str_eq(h.document_id.as_str(), document_id) || !str_eq(h.body_hash.as_str(), body_hash) {
        return Err(CoreError::new(ErrorCode::ContextChanged, "A grouped chat source revision changed before adoption."));
    }
    Ok(())
}

// ----------------------------------------------------------- current effects

/// A preview's effect manifest is of the supported version and bound to a
/// lowercase fingerprint of the response it came from.
pub fn check_effects_manifest(version: &str, expected_version: &str, source_output_hash: &str) -> (r: Result<(), CoreError>)
    ensures
        r is Ok <==> (version@ == expected_version@ && lower_hex64(source_output_hash@)),
        r matches Err(e) ==> e.code == ErrorCode::InvalidProject,
{
    if !str_eq(version, expected_version) || !is_lower_hex64(source_output_hash) {
        return Err(CoreError::new(ErrorCode::InvalidProject, "The chat adoption effect manifest has invalid version or provenance."));
    }
    Ok(())
}

/// A relationship as the workshop currently holds it.
#[derive(Debug)]
pub struct CurrentRelationship {
    pub id: String,
    pub from_document_id: String,
    pub to_document_id: String,
    pub relationship_type: String,
    pub source_heads: Vec<Head>,
}

/// The first current relationship with the given ID.
pub open spec fn find_relationship(current: Seq<CurrentRelationship>, id: Seq<char>) -> Option<CurrentRelationship>
    decreases current.len(),
{
    if current.len() == 0 {
        None
    } else if current[0].id@ == id {
        Some(current[0])
    } else {
        find_relationship(current.drop_first(), id)
    }
}

pub open spec fn dependency_unchanged(expected: ChatRelationshipDependency, actual: CurrentRelationship) -> bool {
    &&& actual.from_document_id@ == expected.from_document_id@ && actual.to_document_id@ == expected.to_document_id@
    &&& actual.relationship_type@ == expected.relationship_type@
    &&& actual.source_heads@.len() >= 2 && same_head(actual.source_heads@[0], expected.from_head)
        && same_head(actual.source_heads@[1], expected.to_head)
}

/// A dependency endpoint moved: a document the adoption changes may have
/// moved on, any other must still be at the recorded head.
pub open spec fn endpoint_moved(target_ids: Seq<String>, recorded: Head, current: Head) -> bool {
    !has_text(target_ids, recorded.document_id@) && !same_head(current, recorded)
}

fn find_current_relationship(current: &Vec<CurrentRelationship>, id: &str) -> (r: Option<usize>)
    ensures
        match r {
            Some(i) => i < current@.len() && find_relationship(current@, id@) == Some(current@[i as int]),
            None => find_relationship(current@, id@) is None,
        },
{
    let n = current.len();
    let mut k: usize = 0;
    assert(current@.skip(0) =~= current@);
    while k < n
        invariant
            n == current@.len(),
            0 <= k <= n,
            find_relationship(current@, id@) == find_relationship(current@.skip(k as int), id@),
        decreases n - k,
    {
        assert(current@.skip(k as int)[0] == current@[k as int]);
        assert(current@.skip(k as int).drop_first() =~= current@.skip(k + 1));
        if str_eq(current[k].id.as_str(), id) {
            return Some(k);
        }
        k += 1;
    }
    None
}

fn heads_equal(a: &Head, b: &Head) -> (r: bool)
    ensures
        r == same_head(*a, *b),
{
    str_eq(a.document_id.as_str(), b.document_id.as_str()) && str_eq(a.version.as_str(), b.version.as_str())
        && str_eq(a.body_hash.as_str(), b.body_hash.as_str())
}

/// A relationship an adoption depends on is still in the workshop exactly
/// as recorded, and each endpoint the adoption does not change is still at
/// its recorded head. `current` holds the workshop's relationships touching
/// the targets; `from_current` and `to_current` are the reads of the
/// endpoints' current heads.
pub fn check_dependency_current(
    expected: &ChatRelationshipDependency,
    current: &Vec<CurrentRelationship>,
    target_ids: &Vec<String>,
    from_current: Result<Head, CoreError>,
    to_current: Result<Head, CoreError>,
) -> (r: Result<(), CoreError>)
    ensures
        match find_relationship(current@, expected.relationship_id@) {
            None => fails_with(r, ErrorCode::WorkshopChanged),
            Some(actual) => if !dependency_unchanged(*expected, actual) {
                fails_with(r, ErrorCode::WorkshopChanged)
            } else {
                match from_current {
                    Err(e) => r == Err::<(), CoreError>(e),
                    Ok(f) => if endpoint_moved(target_ids@, expected.from_head, f) {
                        fails_with(r, ErrorCode::VersionConflict)
                    } else {
                        match to_current {
                            Err(e) => r == Err::<(), CoreError>(e),
                            Ok(t) => if endpoint_moved(target_ids@, expected.to_head, t) {
                                fails_with(r, ErrorCode::VersionConflict)
                            } else {
                                r is Ok
                            },
                        }
                    },
                }
            },
        },
{
    let actual = match find_current_relationship(current, expected.relationship_id.as_str()) {
        None => return Err(CoreError::new(ErrorCode::WorkshopChanged, "A relationship in this chat preview no longer exists.")),
        Some(i) => &current[i],
    };
    if !str_eq(actual.from_document_id.as_str(), expected.from_document_id.as_str())
        || !str_eq(actual.to_document_id.as_str(), expected.to_document_id.as_str())
        || !str_eq(actual.relationship_type.as_str(), expected.relationship_type.as_str())
        || actual.source_heads.len() < 2 || !heads_equal(&actual.source_heads[0], &expected.from_head)
        || !heads_equal(&actual.source_heads[1], &expected.to_head) {
        return Err(CoreError::new(ErrorCode::WorkshopChanged, "A relationship dependency changed after this chat preview."));
    }
    let from = match from_current {
        Ok(h) => h,
        Err(e) => return Err(e),
    };
    if !contains_text(target_ids, expected.from_head.document_id.as_str()) && !heads_equal(&from, &expected.from_head) {
        return Err(CoreError::new(ErrorCode::VersionConflict, "A relationship endpoint changed after this chat preview."));
    }
    let to = match to_current {
        Ok(h) => h,
        Err(e) => return Err(e),
    };
    if !contains_text(target_ids, expected.to_head.document_id.as_str()) && !heads_equal(&to, &expected.to_head) {
        return Err(CoreError::new(ErrorCode::VersionConflict, "A relationship endpoint changed after this chat preview."));
    }
    Ok(())
}

/// Protected text is still where the preview saw it: the document is at the
/// recorded head, the fingerprint is the text's, the workshop still protects
/// it, and the document body still contains it. `current` is the read of the
/// document's head, `still_protected` the read of whether the workshop
/// protects the text (consulted only when head and fingerprint match), and
/// `body_contains` whether the document body contains the text.
pub fn check_protected_current(
    p: &ChatProtectedContent,
    current: Result<Head, CoreError>,
    still_protected: Result<bool, CoreError>,
    body_contains: bool,
) -> (r: Result<(), CoreError>)
    ensures
        match current {
            Err(e) => r == Err::<(), CoreError>(e),
            Ok(h) => if !same_head(h, p.source_head) || lower_hex(sha256_of(encode_utf8(p.text@))) != p.text_hash@ {
                fails_with(r, ErrorCode::ProtectedContentChanged)
            } else {
                match still_protected {
                    Err(e) => r == Err::<(), CoreError>(e),
                    Ok(kept) => if kept && body_contains { r is Ok } else { fails_with(r, ErrorCode::ProtectedContentChanged) },
                }
            },
        },
{
    let h = match current {
        Ok(h) => h,
        Err(e) => return Err(e),
    };
    let digest = sha256_hex(p.text.as_str().as_bytes());
    if !heads_equal(&h, &p.source_head) || !str_eq(digest.as_str(), p.text_hash.as_str()) {
        return Err(CoreError::new(ErrorCode::ProtectedContentChanged, "Protected chat content changed after this preview."));
    }
    match still_protected {
        Err(e) => return Err(e),
        Ok(kept) => if !kept {
            return Err(CoreError::new(ErrorCode::ProtectedContentChanged, "Protected chat content changed after this preview."));
        },
    }
    if !body_contains {
        return Err(CoreError::new(ErrorCode::ProtectedContentChanged, "The adoption result removed protected chat content."));
    }
    Ok(())
}

/// An endpoint of a proposed relationship is still as the preview saw it:
/// for a target, the target's replaced head (if it had one) is the recorded
/// head; for any other document, its current head is. `target_before` is the
/// replaced head of the target with that document, and `current` the read of
/// the document's head (consulted only when it is not a target).
pub fn check_proposed_endpoint(
    head: &Head,
    target_ids: &Vec<String>,
    target_before: &Option<Head>,
    current: Result<Head, CoreError>,
) -> (r: Result<(), CoreError>)
    ensures
        has_text(target_ids@, head.document_id@) ==> match target_before {
            Some(b) => if same_head(*b, *head) { r is Ok } else { fails_with(r, ErrorCode::DraftChanged) },
            None => r is Ok,
        },
        !has_text(target_ids@, head.document_id@) ==> match current {
            Err(e) => r == Err::<(), CoreError>(e),
            Ok(h) => if same_head(h, *head) { r is Ok } else { fails_with(r, ErrorCode::VersionConflict) },
        },
{
    if contains_text(target_ids, head.document_id.as_str()) {
        if let Some(b) = target_before {
            if !heads_equal(b, head) {
                return Err(CoreError::new(ErrorCode::DraftChanged, "A proposed relationship target changed after preview preparation."));
            }
        }
        return Ok(());
    }
    let h = match current {
        Ok(h) => h,
        Err(e) => return Err(e),
    };
    if !heads_equal(&h, head) {
        return Err(CoreError::new(ErrorCode::VersionConflict, "A proposed relationship endpoint changed after preview preparation."));
    }
    Ok(())
}

// ---------------------------------------------------------- stored preview

/// The identity and bounds of a stored adoption preview.
#[derive(Debug)]
pub struct StoredPreviewHeader {
    pub schema_version: String,
    pub id: String,
    pub project_id: String,
    pub operation_namespace: String,
    pub conversation_id: String,
    pub target_count: usize,
    pub request_hash: String,
    pub version: String,
    pub digest: String,
    pub source_epoch: String,
    pub policy_epoch: String,
    pub workshop_version: String,
}

pub open spec fn preview_header_error(
    h: StoredPreviewHeader,
    project_id: Seq<char>,
    namespace: Seq<char>,
    conversation_id: Seq<char>,
    reference_id: Seq<char>,
) -> Option<ErrorCode> {
    if !valid_id(project_id) || !valid_id(namespace) || !valid_id(conversation_id) || !valid_id(reference_id) {
        Some(ErrorCode::InvalidRequest)
    } else if h.schema_version@ != "chat-adoption-preview.v1"@ || h.id@ != reference_id || h.project_id@ != project_id
        || h.operation_namespace@ != namespace || h.conversation_id@ != conversation_id || h.target_count == 0
        || h.target_count > MAX_TARGETS || !lower_hex64(h.request_hash@) {
        Some(ErrorCode::InvalidProjectChat)
    } else if !version_ok(h.version@) {
        Some(ErrorCode::InvalidRequest)
    } else if !lower_hex64(h.digest@) {
        Some(ErrorCode::InvalidProjectChat)
    } else if !version_ok(h.source_epoch@) || !version_ok(h.policy_epoch@) || !version_ok(h.workshop_version@) {
        Some(ErrorCode::InvalidRequest)
    } else {
        None
    }
}

/// A preview kept in a conversation's history is the preview of that
/// conversation item: the supported schema, the item's identity, one to
/// three targets, and well-formed fingerprints, version and epochs.
pub fn check_stored_preview_header(
    h: &StoredPreviewHeader,
    project_id: &str,
    namespace: &str,
    conversation_id: &str,
    reference_id: &str,
) -> (r: Result<(), CoreError>)
    ensures
        match preview_header_error(*h, project_id@, namespace@, conversation_id@, reference_id@) {
            Some(code) => fails_with(r, code),
            None => r is Ok,
        },
{
    if let Err(e) = check_id(project_id) {
        return Err(e);
    }
    if let Err(e) = check_id(namespace) {
        return Err(e);
    }
    if let Err(e) = check_id(conversation_id) {
        return Err(e);
    }
    if let Err(e) = check_id(reference_id) {
        return Err(e);
    }
    proof {
        reveal_strlit("chat-adoption-preview.v1");
    }
    if !str_eq(h.schema_version.as_str(), "chat-adoption-preview.v1") || !str_eq(h.id.as_str(), reference_id)
        || !str_eq(h.project_id.as_str(), project_id) || !str_eq(h.operation_namespace.as_str(), namespace)
        || !str_eq(h.conversation_id.as_str(), conversation_id) || h.target_count == 0
        || h.target_count > MAX_TARGETS || !is_lower_hex64(h.request_hash.as_str()) {
        return Err(CoreError::new(ErrorCode::InvalidProjectChat, "The stored adoption preview has invalid identity or bounds."));
    }
    if let Err(e) = parse_version(h.version.as_str()) {
        return Err(e);
    }
    if !is_lower_hex64(h.digest.as_str()) {
        return Err(CoreError::new(ErrorCode::InvalidProjectChat, "The stored adoption preview has invalid version metadata."));
    }
    if let Err(e) = parse_version(h.source_epoch.as_str()) {
        return Err(e);
    }
    if let Err(e) = parse_version(h.policy_epoch.as_str()) {
        return Err(e);
    }
    if let Err(e) = parse_version(h.workshop_version.as_str()) {
        return Err(e);
    }
    Ok(())
}

/// One target of a stored preview, with what its draft reference says.
#[derive(Debug)]
pub struct StoredPreviewTarget {
    pub draft_document_id: String,
    pub disposition_version: String,
    /// The draft document the target's draft reference names.
    pub ref_document_id: String,
    /// The disposition version the target's draft reference names.
    pub ref_disposition_version: String,
    /// The draft head the target's draft reference names.
    pub ref_head: Head,
    pub draft_revision_id: String,
    pub document_id: String,
    /// The ordinary document the target replaces, if it already existed.
    pub before: Option<StoredDocumentRef>,
}

/// The draft reference names the target's own assistant draft.
pub open spec fn draft_ref_error(t: StoredPreviewTarget, draft_role: Seq<char>) -> Option<ErrorCode> {
    if t.ref_document_id@ != t.draft_document_id@ || t.ref_disposition_version@ != t.disposition_version@
        || draft_role != "assistantDraft"@ {
        Some(ErrorCode::InvalidProjectChat)
    } else {
        None
    }
}

/// The target's revision, uniqueness and place, once the draft revision's
/// head is read.
pub open spec fn target_place_error(seen: Seq<String>, t: StoredPreviewTarget, head: Head, existing_role: Option<Seq<char>>) -> Option<ErrorCode> {
    if head.document_id@ != t.draft_document_id@ || !same_head(head, t.ref_head) {
        Some(ErrorCode::InvalidProjectChat)
    } else if has_text(seen, t.document_id@) {
        Some(ErrorCode::InvalidProjectChat)
    } else if !valid_id(t.document_id@) {
        Some(ErrorCode::InvalidRequest)
    } else {
        match t.before {
            Some(b) => if b.role@ != "ordinary"@ || b.head.document_id@ != t.document_id@ {
                Some(ErrorCode::InvalidProjectChat)
            } else {
                None
            },
            None => if existing_role matches Some(role) && role != "ordinary"@ {
                Some(ErrorCode::InvalidProjectChat)
            } else {
                None
            },
        }
    }
}

/// One target of a stored preview is consistent: its draft reference names
/// its own assistant draft, which the conversation owns and whose frozen
/// revision is the referenced head; no target repeats; and it either
/// replaces ordinary story material (whose historical revision must check
/// out) or reserves an identity no isolated document holds. `seen` holds
/// the earlier targets' documents; `draft_role` is the stored role of the
/// draft document, `ownership` the draft-ownership verdict, `revision_head`
/// the read of the draft revision's head, `before_verdict` the check of the
/// replaced document's historical revision (consulted only when there is
/// one), and `existing_role` the stored role of the target document.
pub fn check_stored_preview_target(
    seen: &Vec<String>,
    t: &StoredPreviewTarget,
    draft_role: &str,
    ownership: Result<(), CoreError>,
    revision_head: Result<Head, CoreError>,
    before_verdict: Result<(), CoreError>,
    existing_role: &Option<String>,
) -> (r: Result<(), CoreError>)
    ensures
        match draft_ref_error(*t, draft_role@) {
            Some(code) => fails_with(r, code),
            None => match ownership {
                Err(e) => r == Err::<(), CoreError>(e),
                Ok(_) => match revision_head {
                    Err(e) => r == Err::<(), CoreError>(e),
                    Ok(h) => match target_place_error(seen@, *t, h, match existing_role { Some(s) => Some(s@), None => None }) {
                        Some(code) => fails_with(r, code),
                        None => if t.before is Some { r == before_verdict } else { r is Ok },
                    },
                },
            },
        },
{
    proof {
        reveal_strlit("assistantDraft");
        reveal_strlit("ordinary");
    }
    if !str_eq(t.ref_document_id.as_str(), t.draft_document_id.as_str())
        || !str_eq(t.ref_disposition_version.as_str(), t.disposition_version.as_str()) {
        return Err(CoreError::new(ErrorCode::InvalidProjectChat, "The adoption preview draft reference is inconsistent."));
    }
    if !str_eq(draft_role, "assistantDraft") {
        return Err(CoreError::new(ErrorCode::InvalidProjectChat, "An adoption preview does not point to an assistant draft."));
    }
    if let Err(e) = ownership {
        return Err(e);
    }
    let head = match revision_head {
        Ok(h) => h,
        Err(e) => return Err(e),
    };
    if !str_eq(head.document_id.as_str(), t.draft_document_id.as_str())
        || !str_eq(head.document_id.as_str(), t.ref_head.document_id.as_str())
        || !str_eq(head.version.as_str(), t.ref_head.version.as_str())
        || !str_eq(head.body_hash.as_str(), t.ref_head.body_hash.as_str()) {
        return Err(CoreError::new(ErrorCode::InvalidProjectChat, "An adoption preview draft revision does not match its frozen head."));
    }
    if contains_text(seen, t.document_id.as_str()) {
        return Err(CoreError::new(ErrorCode::InvalidProjectChat, "An adoption preview contains duplicate targets."));
    }
    if let Err(e) = check_id(t.document_id.as_str()) {
        return Err(e);
    }
    match &t.before {
        Some(b) => {
            if !str_eq(b.role.as_str(), "ordinary") || !str_eq(b.head.document_id.as_str(), t.document_id.as_str()) {
                return Err(CoreError::new(ErrorCode::InvalidProjectChat, "An adoption preview before reference is not ordinary story material."));
            }
            before_verdict
        },
        None => {
            if let Some(role) = existing_role {
                if !str_eq(role.as_str(), "ordinary") {
                    return Err(CoreError::new(ErrorCode::InvalidProjectChat, "An adoption preview reserves an isolated document identity."));
                }
            }
            Ok(())
        },
    }
}

/// A receipt's historical document names a committed revision whose head is
/// the receipt's head. `revision_head` is the read of that revision's head.
pub fn read_historical_document_ref(reference: &StoredDocumentRef, revision_head: Result<Head, CoreError>) -> (r: Result<(), CoreError>)
    ensures
        reference.last_checkpoint_id is None ==> fails_with(r, ErrorCode::InvalidProject),
        reference.last_checkpoint_id is Some ==> match revision_head {
            Err(e) => r == Err::<(), CoreError>(e),
            Ok(h) => if same_head(h, reference.head) { r is Ok } else { fails_with(r, ErrorCode::InvalidProject) },
        },
{
    if reference.last_checkpoint_id.is_none() {
        return Err(CoreError::new(ErrorCode::InvalidProject, "A chat adoption receipt has no committed document revision."));
    }
    let h = match revision_head {
        Ok(h) => h,
        Err(e) => return Err(e),
    };
    if !str_eq(h.document_id.as_str(), reference.head.document_id.as_str()) || !str_eq(h.version.as_str(), reference.head.version.as_str())
        || !str_eq(h.body_hash.as_str(), reference.head.body_hash.as_str()) {
        return Err(CoreError::new(ErrorCode::InvalidProject, "A chat adoption receipt has an invalid document revision reference."));
    }
    Ok(())
}

// ---------------------------------------------------------------- body text

/// One inline node of a document block: a hard line break, or any other
/// node with its text where that is a string.
#[derive(Debug)]
pub enum BodyNode {
    HardBreak,
    Text(Option<String>),
}

pub open spec fn node_text(n: BodyNode) -> Seq<char> {
    match n {
        BodyNode::HardBreak => "\n"@,
        BodyNode::Text(Some(t)) => t@,
        BodyNode::Text(None) => Seq::empty(),
    }
}

/// A block's text: its nodes' texts in order.
pub open spec fn block_text(nodes: Seq<BodyNode>) -> Seq<char>
    decreases nodes.len(),
{
    if nodes.len() == 0 {
        Seq::empty()
    } else {
        block_text(nodes.drop_last()) + node_text(nodes.last())
    }
}

/// A body's text: its blocks' texts joined by blank lines.
pub open spec fn blocks_text(blocks: Seq<Seq<BodyNode>>) -> Seq<char>
    decreases blocks.len(),
{
    if blocks.len() == 0 {
        Seq::empty()
    } else if blocks.len() == 1 {
        block_text(blocks[0])
    } else {
        blocks_text(blocks.drop_last()) + "\n\n"@ + block_text(blocks.last())
    }
}

pub open spec fn block_views(blocks: Seq<Vec<BodyNode>>) -> Seq<Seq<BodyNode>> {
    blocks.map_values(|b: Vec<BodyNode>| b@)
}

/// The plain text of a document body, given its top-level blocks (none when
/// the body has no content array) and each block's inline nodes (none when
/// the block has no content array): a hard break is a newline, another node
/// gives its text, and blocks are separated by a blank line.
pub fn body_text(blocks: &Vec<Vec<BodyNode>>) -> (r: String)
    ensures
        r@ == blocks_text(block_views(blocks@)),
{
    proof {
        reveal_strlit("\n");
        reveal_strlit("\n\n");
    }
    let mut out = String::new();
    let n = blocks.len();
    let mut i: usize = 0;
    while i < n
        invariant
            n == blocks@.len(),
            0 <= i <= n,
            out@ == blocks_text(block_views(blocks@).take(i as int)),
        decreases n - i,
    {
        if i > 0 {
            out.append("\n\n");
        }
        let nodes = &blocks[i];
        let ghost prefix = out@;
        let m = nodes.len();
        let mut k: usize = 0;
        while k < m
            invariant
                m == nodes@.len(),
                0 <= k <= m,
                out@ == prefix + block_text(nodes@.take(k as int)),
            decreases m - k,
        {
            match &nodes[k] {
                BodyNode::HardBreak => out.append("\n"),
                BodyNode::Text(Some(t)) => out.append(t.as_str()),
                BodyNode::Text(None) => {},
            }
            assert(nodes@.take(k + 1).drop_last() =~= nodes@.take(k as int));
            k += 1;
        }
        assert(nodes@.take(m as int) =~= nodes@);
        let ghost views = block_views(blocks@);
        assert(views.take(i + 1).drop_last() =~= views.take(i as int));
        assert(views[i as int] == nodes@);
        i += 1;
    }
    assert(block_views(blocks@).take(n as int) =~= block_views(blocks@));
    out
}

// --------------------------------------------------------- draft references

/// A version field as serialized: text, or an integer.
#[derive(Debug)]
pub enum VersionField {
    Text(String),
    Number(i64),
}

pub open spec fn version_field_text(v: VersionField) -> Seq<char> {
    match v {
        VersionField::Text(t) => t@,
        VersionField::Number(n) => signed_decimal(n as int),
    }
}

/// A chat draft reference as serialized: its head where present, and its
/// disposition version where present.
#[derive(Debug)]
pub struct DraftRefInput {
    pub head: Option<Head>,
    pub disposition_version: Option<VersionField>,
}

/// The fields of a checked chat draft reference.
#[derive(Debug)]
pub struct DraftRefFields {
    pub document_id: String,
    pub head: Head,
    pub disposition_version: String,
}

pub open spec fn draft_ref_ok(r: DraftRefInput) -> bool {
    &&& (r.head matches Some(h) && valid_id(h.document_id@) && version_ok(h.version@) && lower_hex64(h.body_hash@))
    &&& (r.disposition_version matches Some(v) && version_ok(version_field_text(v)))
}

/// The fields of a chat draft reference: it names an exact head (a valid
/// document identifier, a canonical version and a lowercase SHA-256 body
/// fingerprint) and a canonical disposition version, given as text or as an
/// integer. Every refusal is `InvalidRequest`.
pub fn draft_ref_fields(reference: &DraftRefInput) -> (r: Result<DraftRefFields, CoreError>)
    ensures
        r is Ok <==> draft_ref_ok(*reference),
        r matches Ok(f) ==> (reference.head matches Some(h) && same_head(f.head, h) && f.document_id@ == h.document_id@)
            && (reference.disposition_version matches Some(v) && f.disposition_version@ == version_field_text(v)),
        r matches Err(e) ==> e.code == ErrorCode::InvalidRequest,
{
    let head = match &reference.head {
        None => {
            return Err(CoreError::new(ErrorCode::InvalidRequest, "A chat draft reference has no exact head."));
        },
        Some(h) => h,
    };
    let disposition_version = match &reference.disposition_version {
        None => {
            return Err(CoreError::new(ErrorCode::InvalidRequest, "A chat draft reference has no disposition version."));
        },
        Some(VersionField::Text(t)) => t.clone(),
        Some(VersionField::Number(n)) => signed_decimal_text(*n),
    };
    if let Err(e) = check_id(head.document_id.as_str()) {
        return Err(e);
    }
    if let Err(e) = parse_version(head.version.as_str()) {
        return Err(e);
    }
    if !is_lower_hex64(head.body_hash.as_str()) {
        return Err(CoreError::new(ErrorCode::InvalidRequest, "A chat draft reference has an invalid body hash."));
    }
    if let Err(e) = parse_version(disposition_version.as_str()) {
        return Err(e);
    }
    Ok(DraftRefFields {
        document_id: head.document_id.clone(),
        head: Head { document_id: head.document_id.clone(), version: head.version.clone(), body_hash: head.body_hash.clone() },
        disposition_version,
    })
}

/// The disposition version a chat draft reference captured.
pub fn draft_disposition_version(reference: &DraftRefInput) -> (r: Result<String, CoreError>)
    ensures
        r is Ok <==> draft_ref_ok(*reference),
        r matches Ok(d) ==> (reference.disposition_version matches Some(v) && d@ == version_field_text(v)),
        r matches Err(e) ==> e.code == ErrorCode::InvalidRequest,
{
    match draft_ref_fields(reference) {
        Ok(fields) => Ok(fields.disposition_version),
        Err(e) => Err(e),
    }
}

// ------------------------------------------------------------ preview plan

/// The document an adopted draft revises, as read when it is prepared.
#[derive(Debug)]
pub struct PreparedTargetDocument {
    pub title: String,
    pub kind: String,
}

/// One requested draft as preparation reads it, in request order.
#[derive(Debug)]
pub struct PreparedDraft {
    pub draft_document_id: String,
    pub disposition_version: String,
    /// What the draft's own checks gave: its state, the exact reference,
    /// its document, and the checkpoint of its saved head.
    pub draft_checks: Result<(), CoreError>,
    /// The checkpoint that captures the draft's saved head.
    pub draft_revision_id: String,
    pub draft_title: String,
    pub draft_kind: String,
    /// The existing document the draft revises, if any.
    pub target_document_id: Option<String>,
    /// What reading and checking that target gave (consulted only when
    /// there is one).
    pub target_checks: Result<PreparedTargetDocument, CoreError>,
    /// A fresh identifier for the new document when there is no target.
    pub reserved_document_id: String,
}

/// One target of a prepared preview.
#[derive(Debug)]
pub struct PreviewTargetPlan {
    pub draft_document_id: String,
    pub disposition_version: String,
    pub draft_revision_id: String,
    pub document_id: String,
    pub title: String,
    pub kind: String,
    /// The target revises an existing document rather than creating one.
    pub revises: bool,
}

/// The document a draft lands in: its target, else the reserved identifier.
pub open spec fn landing_id(d: PreparedDraft) -> Seq<char> {
    match d.target_document_id {
        Some(t) => t@,
        None => d.reserved_document_id@,
    }
}

/// Draft `i` passes once the drafts before it have.
pub open spec fn draft_step_ok(drafts: Seq<PreparedDraft>, i: int) -> bool {
    &&& forall|j: int| 0 <= j < i ==> (#[trigger] drafts[j]).draft_document_id@ != drafts[i].draft_document_id@
    &&& drafts[i].draft_checks is Ok
    &&& forall|j: int| 0 <= j < i ==> landing_id(#[trigger] drafts[j]) != landing_id(drafts[i])
    &&& (drafts[i].target_document_id is Some ==> drafts[i].target_checks is Ok)
}

/// The error draft `i` is refused with, when it does not pass.
pub open spec fn draft_step_refusal(drafts: Seq<PreparedDraft>, i: int, e: CoreError) -> bool {
    if exists|j: int| 0 <= j < i && (#[trigger] drafts[j]).draft_document_id@ == drafts[i].draft_document_id@ {
        e.code == ErrorCode::InvalidRequest
    } else if drafts[i].draft_checks is Err {
        Err::<(), CoreError>(e) == drafts[i].draft_checks
    } else if exists|j: int| 0 <= j < i && landing_id(#[trigger] drafts[j]) == landing_id(drafts[i]) {
        e.code == ErrorCode::InvalidRequest
    } else {
        drafts[i].target_checks matches Err(x) && x == e
    }
}

/// The target a passing draft becomes.
pub open spec fn target_plan_of(d: PreparedDraft, t: PreviewTargetPlan) -> bool {
    &&& t.draft_document_id@ == d.draft_document_id@
    &&& t.disposition_version@ == d.disposition_version@
    &&& t.draft_revision_id@ == d.draft_revision_id@
    &&& t.document_id@ == landing_id(d)
    &&& t.revises == (d.target_document_id is Some)
    &&& match d.target_document_id {
        Some(_) => d.target_checks matches Ok(doc) && t.title@ == doc.title@ && t.kind@ == doc.kind@,
        None => t.title@ == d.draft_title@ && t.kind@ == d.draft_kind@,
    }
}

fn seen_text(values: &Vec<String>, value: &str) -> (r: bool)
    ensures
        r == has_text(values@, value@),
{
    contains_text(values, value)
}

/// The targets of a preview, one per requested draft, in request order.
/// Drafts are taken in order: a draft already requested is refused
/// (`InvalidRequest`), then its own checks decide, then a document another
/// draft already lands in is refused (`InvalidRequest`), then the checks of
/// the document it revises decide. A draft with a target revises it under
/// that document's title and kind; one without lands in a new document with
/// the reserved identifier and the draft's title and kind. The target
/// documents are pairwise distinct.
pub fn plan_preview_targets(drafts: &Vec<PreparedDraft>) -> (r: Result<Vec<PreviewTargetPlan>, CoreError>)
    ensures
        r is Ok <==> forall|i: int| 0 <= i < drafts@.len() ==> draft_step_ok(drafts@, i),
        r matches Ok(v) ==> v@.len() == drafts@.len()
            && (forall|i: int| 0 <= i < v@.len() ==> target_plan_of(drafts@[i], #[trigger] v@[i]))
            && (forall|a: int, b: int| 0 <= a < b < v@.len() ==> (#[trigger] v@[a]).document_id@ != (#[trigger] v@[b]).document_id@),
        r matches Err(e) ==> exists|i: int| 0 <= i < drafts@.len()
            && (forall|j: int| 0 <= j < i ==> draft_step_ok(drafts@, j))
            && !draft_step_ok(drafts@, i) && #[trigger] draft_step_refusal(drafts@, i, e),
{
    let mut targets: Vec<PreviewTargetPlan> = Vec::new();
    let mut draft_ids: Vec<String> = Vec::new();
    let mut landing_ids: Vec<String> = Vec::new();
    let n = drafts.len();
    let mut i: usize = 0;
    while i < n
        invariant
            n == drafts@.len(),
            0 <= i <= n,
            targets@.len() == i,
            draft_ids@.len() == i,
            landing_ids@.len() == i,
            forall|j: int| 0 <= j < i ==> (#[trigger] draft_ids@[j])@ == drafts@[j].draft_document_id@,
            forall|j: int| 0 <= j < i ==> (#[trigger] landing_ids@[j])@ == landing_id(drafts@[j]),
            forall|j: int| 0 <= j < i ==> draft_step_ok(drafts@, j),
            forall|j: int| 0 <= j < i ==> target_plan_of(drafts@[j], #[trigger] targets@[j]),
        decreases n - i,
    {
        let d = &drafts[i];
        let dup_draft = seen_text(&draft_ids, d.draft_document_id.as_str());
        if dup_draft {
            proof {
                let j = choose|j: int| 0 <= j < i && (#[trigger] draft_ids@[j])@ == d.draft_document_id@;
                assert(drafts@[j].draft_document_id@ == drafts@[i as int].draft_document_id@);
                assert(!draft_step_ok(drafts@, i as int));
            }
            let e = CoreError::new(ErrorCode::InvalidRequest, "Chat adoption drafts must be unique.");
            assert(draft_step_refusal(drafts@, i as int, e));
            return Err(e);
        }
        assert forall|j: int| 0 <= j < i implies (#[trigger] drafts@[j]).draft_document_id@ != drafts@[i as int].draft_document_id@ by {
            assert(draft_ids@[j]@ == drafts@[j].draft_document_id@);
        }
        if let Err(e) = &d.draft_checks {
            let e = e.clone();
            assert(draft_step_refusal(drafts@, i as int, e));
            assert(!draft_step_ok(drafts@, i as int));
            return Err(e);
        }
        let landing: String = match &d.target_document_id {
            Some(t) => t.clone(),
            None => d.reserved_document_id.clone(),
        };
        let dup_target = seen_text(&landing_ids, landing.as_str());
        if dup_target {
            proof {
                let j = choose|j: int| 0 <= j < i && (#[trigger] landing_ids@[j])@ == landing@;
                assert(landing_id(drafts@[j]) == landing_id(drafts@[i as int]));
                assert(!draft_step_ok(drafts@, i as int));
            }
            let e = CoreError::new(ErrorCode::InvalidRequest, "Chat adoption targets must be unique.");
            assert(draft_step_refusal(drafts@, i as int, e));
            return Err(e);
        }
        assert forall|j: int| 0 <= j < i implies landing_id(#[trigger] drafts@[j]) != landing_id(drafts@[i as int]) by {
            assert(landing_ids@[j]@ == landing_id(drafts@[j]));
        }
        let (title, kind, revises) = match &d.target_document_id {
            Some(_) => match &d.target_checks {
                Err(e) => {
                    let e = e.clone();
                    assert(draft_step_refusal(drafts@, i as int, e));
                    assert(!draft_step_ok(drafts@, i as int));
                    return Err(e);
                },
                Ok(doc) => (doc.title.clone(), doc.kind.clone(), true),
            },
            None => (d.draft_title.clone(), d.draft_kind.clone(), false),
        };
        assert(draft_step_ok(drafts@, i as int));
        targets.push(PreviewTargetPlan {
            draft_document_id: d.draft_document_id.clone(),
            disposition_version: d.disposition_version.clone(),
            draft_revision_id: d.draft_revision_id.clone(),
            document_id: landing.clone(),
            title,
            kind,
            revises,
        });
        draft_ids.push(d.draft_document_id.clone());
        landing_ids.push(landing);
        i += 1;
    }
    proof {
        assert forall|a: int, b: int| 0 <= a < b < targets@.len() implies (#[trigger] targets@[a]).document_id@ != (#[trigger] targets@[b]).document_id@ by {
            assert(draft_step_ok(drafts@, b));
            assert(landing_id(drafts@[a]) != landing_id(drafts@[b]));
        }
    }
    Ok(targets)
}

/// The metadata of a prepared preview, before its digest.
#[derive(Debug)]
pub struct PreviewPlan {
    pub id: String,
    pub version: String,
    pub project_id: String,
    pub operation_namespace: String,
    pub conversation_id: String,
    pub source_epoch: String,
    pub policy_epoch: String,
    pub workshop_version: String,
    pub targets: Vec<PreviewTargetPlan>,
}

/// A new preview: version "1", in the request's identity and conversation,
/// at the epochs and workshop version it was prepared at, with its targets.
pub fn preview_plan(
    access: &ProjectAccess,
    conversation_id: &str,
    preview_id: String,
    source_epoch: String,
    policy_epoch: String,
    workshop_version: String,
    targets: Vec<PreviewTargetPlan>,
) -> (r: PreviewPlan)
    ensures
        r.version@ == "1"@,
        r.id == preview_id,
        r.project_id@ == access.project_id@,
        r.operation_namespace@ == access.operation_namespace@,
        r.conversation_id@ == conversation_id@,
        r.source_epoch == source_epoch,
        r.policy_epoch == policy_epoch,
        r.workshop_version == workshop_version,
        r.targets == targets,
{
    PreviewPlan {
        id: preview_id,
        version: "1".to_string(),
        project_id: access.project_id.clone(),
        operation_namespace: access.operation_namespace.clone(),
        conversation_id: conversation_id.to_string(),
        source_epoch,
        policy_epoch,
        workshop_version,
        targets,
    }
}

// ------------------------------------------------------- effect equality
pub open spec fn same_dependency(a: ChatRelationshipDependency, b: ChatRelationshipDependency) -> bool {
    a.relationship_id@ == b.relationship_id@
    && a.from_document_id@ == b.from_document_id@
    && a.to_document_id@ == b.to_document_id@
    && a.relationship_type@ == b.relationship_type@
    && same_head(a.from_head, b.from_head)
    && same_head(a.to_head, b.to_head)
}
pub open spec fn same_dependencys(a: Seq<ChatRelationshipDependency>, b: Seq<ChatRelationshipDependency>) -> bool {
    a.len() == b.len() && forall|i: int| 0 <= i < a.len() ==> same_dependency(#[trigger] a[i], b[i])
}
fn dependency_equal(a: &ChatRelationshipDependency, b: &ChatRelationshipDependency) -> (r: bool)
    ensures
        r == same_dependency(*a, *b),
{
    str_eq(a.relationship_id.as_str(), b.relationship_id.as_str())
        && str_eq(a.from_document_id.as_str(), b.from_document_id.as_str())
        && str_eq(a.to_document_id.as_str(), b.to_document_id.as_str())
        && str_eq(a.relationship_type.as_str(), b.relationship_type.as_str())
        && heads_equal(&a.from_head, &b.from_head)
        && heads_equal(&a.to_head, &b.to_head)
}
fn dependencys_equal(a: &Vec<ChatRelationshipDependency>, b: &Vec<ChatRelationshipDependency>) -> (r: bool)
    ensures
        r == same_dependencys(a@, b@),
{
    if a.len() != b.len() {
        return false;
    }
    let n = a.len();
    let mut i: usize = 0;
    while i < n
        invariant
            n == a@.len(),
            n == b@.len(),
            0 <= i <= n,
            forall|j: int| 0 <= j < i ==> same_dependency(#[trigger] a@[j], b@[j]),
        decreases n - i,
    {
        if !dependency_equal(&a[i], &b[i]) {
            return false;
        }
        i += 1;
    }
    true
}
pub open spec fn same_protected(a: ChatProtectedContent, b: ChatProtectedContent) -> bool {
    a.target_document_id@ == b.target_document_id@
    && same_head(a.source_head, b.source_head)
    && a.text@ == b.text@
    && a.text_hash@ == b.text_hash@
}
pub open spec fn same_protecteds(a: Seq<ChatProtectedContent>, b: Seq<ChatProtectedContent>) -> bool {
    a.len() == b.len() && forall|i: int| 0 <= i < a.len() ==> same_protected(#[trigger] a[i], b[i])
}
fn protected_equal(a: &ChatProtectedContent, b: &ChatProtectedContent) -> (r: bool)
    ensures
        r == same_protected(*a, *b),
{
    str_eq(a.target_document_id.as_str(), b.target_document_id.as_str())
        && heads_equal(&a.source_head, &b.source_head)
        && str_eq(a.text.as_str(), b.text.as_str())
        && str_eq(a.text_hash.as_str(), b.text_hash.as_str())
}
fn protecteds_equal(a: &Vec<ChatProtectedContent>, b: &Vec<ChatProtectedContent>) -> (r: bool)
    ensures
        r == same_protecteds(a@, b@),
{
    if a.len() != b.len() {
        return false;
    }
    let n = a.len();
    let mut i: usize = 0;
    while i < n
        invariant
            n == a@.len(),
            n == b@.len(),
            0 <= i <= n,
            forall|j: int| 0 <= j < i ==> same_protected(#[trigger] a@[j], b@[j]),
        decreases n - i,
    {
        if !protected_equal(&a[i], &b[i]) {
            return false;
        }
        i += 1;
    }
    true
}
pub open spec fn same_relationship(a: ChatAdoptionRelationship, b: ChatAdoptionRelationship) -> bool {
    a.key@ == b.key@
    && a.relationship_id@ == b.relationship_id@
    && a.from_document_id@ == b.from_document_id@
    && a.to_document_id@ == b.to_document_id@
    && a.relationship_type@ == b.relationship_type@
    && a.description@ == b.description@
    && a.uncertainty@ == b.uncertainty@
    && same_head(a.from_head, b.from_head)
    && same_head(a.to_head, b.to_head)
}
pub open spec fn same_relationships(a: Seq<ChatAdoptionRelationship>, b: Seq<ChatAdoptionRelationship>) -> bool {
    a.len() == b.len() && forall|i: int| 0 <= i < a.len() ==> same_relationship(#[trigger] a[i], b[i])
}
fn relationship_equal(a: &ChatAdoptionRelationship, b: &ChatAdoptionRelationship) -> (r: bool)
    ensures
        r == same_relationship(*a, *b),
{
    str_eq(a.key.as_str(), b.key.as_str())
        && str_eq(a.relationship_id.as_str(), b.relationship_id.as_str())
        && str_eq(a.from_document_id.as_str(), b.from_document_id.as_str())
        && str_eq(a.to_document_id.as_str(), b.to_document_id.as_str())
        && str_eq(a.relationship_type.as_str(), b.relationship_type.as_str())
        && str_eq(a.description.as_str(), b.description.as_str())
        && str_eq(a.uncertainty.as_str(), b.uncertainty.as_str())
        && heads_equal(&a.from_head, &b.from_head)
        && heads_equal(&a.to_head, &b.to_head)
}
fn relationships_equal(a: &Vec<ChatAdoptionRelationship>, b: &Vec<ChatAdoptionRelationship>) -> (r: bool)
    ensures
        r == same_relationships(a@, b@),
{
    if a.len() != b.len() {
        return false;
    }
    let n = a.len();
    let mut i: usize = 0;
    while i < n
        invariant
            n == a@.len(),
            n == b@.len(),
            0 <= i <= n,
            forall|j: int| 0 <= j < i ==> same_relationship(#[trigger] a@[j], b@[j]),
        decreases n - i,
    {
        if !relationship_equal(&a[i], &b[i]) {
            return false;
        }
        i += 1;
    }
    true
}
pub open spec fn same_impact(a: ChatAdoptionImpact, b: ChatAdoptionImpact) -> bool {
    a.target_document_id@ == b.target_document_id@
    && a.kind@ == b.kind@
    && a.reason@ == b.reason@
    && opt_view(a.relationship_id) == opt_view(b.relationship_id)
    && opt_view(a.relationship_key) == opt_view(b.relationship_key)
}
pub open spec fn same_impacts(a: Seq<ChatAdoptionImpact>, b: Seq<ChatAdoptionImpact>) -> bool {
    a.len() == b.len() && forall|i: int| 0 <= i < a.len() ==> same_impact(#[trigger] a[i], b[i])
}
fn impact_equal(a: &ChatAdoptionImpact, b: &ChatAdoptionImpact) -> (r: bool)
    ensures
        r == same_impact(*a, *b),
{
    str_eq(a.target_document_id.as_str(), b.target_document_id.as_str())
        && str_eq(a.kind.as_str(), b.kind.as_str())
        && str_eq(a.reason.as_str(), b.reason.as_str())
        && opt_str_eq(&a.relationship_id, &b.relationship_id)
        && opt_str_eq(&a.relationship_key, &b.relationship_key)
}
fn impacts_equal(a: &Vec<ChatAdoptionImpact>, b: &Vec<ChatAdoptionImpact>) -> (r: bool)
    ensures
        r == same_impacts(a@, b@),
{
    if a.len() != b.len() {
        return false;
    }
    let n = a.len();
    let mut i: usize = 0;
    while i < n
        invariant
            n == a@.len(),
            n == b@.len(),
            0 <= i <= n,
            forall|j: int| 0 <= j < i ==> same_impact(#[trigger] a@[j], b@[j]),
        decreases n - i,
    {
        if !impact_equal(&a[i], &b[i]) {
            return false;
        }
        i += 1;
    }
    true
}
pub open spec fn same_supersession(a: ChatAdoptionSupersession, b: ChatAdoptionSupersession) -> bool {
    a.target_document_id@ == b.target_document_id@
    && a.superseded_document_id@ == b.superseded_document_id@
    && a.reason@ == b.reason@
}
pub open spec fn same_supersessions(a: Seq<ChatAdoptionSupersession>, b: Seq<ChatAdoptionSupersession>) -> bool {
    a.len() == b.len() && forall|i: int| 0 <= i < a.len() ==> same_supersession(#[trigger] a[i], b[i])
}
fn supersession_equal(a: &ChatAdoptionSupersession, b: &ChatAdoptionSupersession) -> (r: bool)
    ensures
        r == same_supersession(*a, *b),
{
    str_eq(a.target_document_id.as_str(), b.target_document_id.as_str())
        && str_eq(a.superseded_document_id.as_str(), b.superseded_document_id.as_str())
        && str_eq(a.reason.as_str(), b.reason.as_str())
}
fn supersessions_equal(a: &Vec<ChatAdoptionSupersession>, b: &Vec<ChatAdoptionSupersession>) -> (r: bool)
    ensures
        r == same_supersessions(a@, b@),
{
    if a.len() != b.len() {
        return false;
    }
    let n = a.len();
    let mut i: usize = 0;
    while i < n
        invariant
            n == a@.len(),
            n == b@.len(),
            0 <= i <= n,
            forall|j: int| 0 <= j < i ==> same_supersession(#[trigger] a@[j], b@[j]),
        decreases n - i,
    {
        if !supersession_equal(&a[i], &b[i]) {
            return false;
        }
        i += 1;
    }
    true
}
pub open spec fn same_placement(a: ChatAdoptionPlacement, b: ChatAdoptionPlacement) -> bool {
    a.target_document_id@ == b.target_document_id@
    && opt_view(a.before_document_id) == opt_view(b.before_document_id)
    && opt_view(a.after_document_id) == opt_view(b.after_document_id)
}
pub open spec fn same_placements(a: Seq<ChatAdoptionPlacement>, b: Seq<ChatAdoptionPlacement>) -> bool {
    a.len() == b.len() && forall|i: int| 0 <= i < a.len() ==> same_placement(#[trigger] a[i], b[i])
}
fn placement_equal(a: &ChatAdoptionPlacement, b: &ChatAdoptionPlacement) -> (r: bool)
    ensures
        r == same_placement(*a, *b),
{
    str_eq(a.target_document_id.as_str(), b.target_document_id.as_str())
        && opt_str_eq(&a.before_document_id, &b.before_document_id)
        && opt_str_eq(&a.after_document_id, &b.after_document_id)
}
fn placements_equal(a: &Vec<ChatAdoptionPlacement>, b: &Vec<ChatAdoptionPlacement>) -> (r: bool)
    ensures
        r == same_placements(a@, b@),
{
    if a.len() != b.len() {
        return false;
    }
    let n = a.len();
    let mut i: usize = 0;
    while i < n
        invariant
            n == a@.len(),
            n == b@.len(),
            0 <= i <= n,
            forall|j: int| 0 <= j < i ==> same_placement(#[trigger] a@[j], b@[j]),
        decreases n - i,
    {
        if !placement_equal(&a[i], &b[i]) {
            return false;
        }
        i += 1;
    }
    true
}
/// Two effect manifests are the same: every field, and every entry of
/// every list in order, is equal.
pub open spec fn same_effects(a: ChatAdoptionEffects, b: ChatAdoptionEffects) -> bool {
    &&& a.version@ == b.version@
    &&& a.source_output_hash@ == b.source_output_hash@
    &&& same_dependencys(a.relationship_dependencies@, b.relationship_dependencies@)
    &&& same_protecteds(a.protected_content@, b.protected_content@)
    &&& same_relationships(a.proposed_relationships@, b.proposed_relationships@)
    &&& same_impacts(a.impacts@, b.impacts@)
    &&& same_supersessions(a.supersessions@, b.supersessions@)
    &&& same_placements(a.placements@, b.placements@)
}

/// Whether two effect manifests are the same.
pub fn effects_equal(a: &ChatAdoptionEffects, b: &ChatAdoptionEffects) -> (r: bool)
    ensures
        r == same_effects(*a, *b),
{
    str_eq(a.version.as_str(), b.version.as_str())
        && str_eq(a.source_output_hash.as_str(), b.source_output_hash.as_str())
        && dependencys_equal(&a.relationship_dependencies, &b.relationship_dependencies)
        && protecteds_equal(&a.protected_content, &b.protected_content)
        && relationships_equal(&a.proposed_relationships, &b.proposed_relationships)
        && impacts_equal(&a.impacts, &b.impacts)
        && supersessions_equal(&a.supersessions, &b.supersessions)
        && placements_equal(&a.placements, &b.placements)
}

/// Where a prepare request stands once its operation ID is looked up.
#[derive(Debug)]
pub enum PrepareStep {
    /// The operation already prepared a preview for the same request: that
    /// stored preview is returned, and nothing is written.
    Replay,
    /// A new preview is to be prepared.
    Proceed,
}

/// What a prepare request meets: no item under its operation (proceed),
/// its own stored preview (replay), or anything else (refused).
pub open spec fn prepare_decision(existing: Option<(String, String)>, payload_hash: Seq<char>) -> Option<bool> {
    match existing {
        None => Some(false),
        Some((kind, stored)) => if kind@ == "adoptionPreview"@ && stored@ == payload_hash { Some(true) } else { None },
    }
}

/// Decides whether a prepare request replays a preview its operation
/// already stored. `existing` is the kind of the item stored under the
/// operation ID and the request fingerprint it recorded, if any.
pub fn prepare_step(existing: &Option<(String, String)>, payload_hash: &str) -> (r: Result<PrepareStep, CoreError>)
    ensures
        match prepare_decision(*existing, payload_hash@) {
            Some(true) => r matches Ok(PrepareStep::Replay),
            Some(false) => r matches Ok(PrepareStep::Proceed),
            None => fails_with(r, ErrorCode::OperationIdReusedWithDifferentPayload),
        },
{
    proof {
        reveal_strlit("adoptionPreview");
    }
    match existing {
        None => Ok(PrepareStep::Proceed),
        Some((kind, stored)) => match check_operation_replay(kind.as_str(), "adoptionPreview", stored.as_str(), payload_hash) {
            Ok(()) => Ok(PrepareStep::Replay),
            Err(e) => Err(e),
        },
    }
}

/// An identical prepare returns the same preview: once a preview is stored
/// under its operation with the request's fingerprint, the same request
/// replays it rather than preparing another.
pub proof fn law_prepare_replays(kind: String, stored: String, payload_hash: Seq<char>)
    requires
        kind@ == "adoptionPreview"@,
        stored@ == payload_hash,
    ensures
        prepare_decision(Some((kind, stored)), payload_hash) == Some(true),
{
}

// --------------------------------------------------------- effect assembly

/// The target a reference resolves to, given how it resolved.
fn resolved_target<'a>(
    draft_keys: &Vec<String>,
    draft_targets: &'a Vec<EffectTarget>,
    handles: &'a Vec<EffectTarget>,
    target_ids: &Vec<String>,
    reference: &str,
) -> (r: Result<&'a EffectTarget, CoreError>)
    ensures
        match resolved_effect(draft_keys@, draft_targets@, handles@, target_ids@, reference@) {
            Some(t) => r matches Ok(x) && *x == t,
            None => fails_with(r, ErrorCode::InvalidRequest),
        },
{
    let i = match resolve_effect_ref(draft_keys, draft_targets, handles, target_ids, reference) {
        Ok(i) => i,
        Err(e) => return Err(e),
    };
    if contains_text(draft_keys, reference) {
        assert(has_key(draft_keys@, reference@));
        Ok(&draft_targets[i])
    } else {
        assert(!has_key(draft_keys@, reference@));
        Ok(&handles[i])
    }
}

/// A proposed relationship resolves: both ends name an included draft or a
/// frozen source, and both are character or world material.
pub open spec fn relationship_resolves(
    rel: GroupRelationshipOutput,
    draft_keys: Seq<String>,
    draft_targets: Seq<EffectTarget>,
    handles: Seq<EffectTarget>,
    target_ids: Seq<String>,
) -> bool {
    &&& resolved_effect(draft_keys, draft_targets, handles, target_ids, rel.from_ref@) matches Some(f)
    &&& resolved_effect(draft_keys, draft_targets, handles, target_ids, rel.to_ref@) matches Some(t)
    &&& relationship_kind(f.kind@) && relationship_kind(t.kind@)
}

/// `p` is the relationship the adoption proposes for `rel`, under `id`.
pub open spec fn relationship_proposed(
    rel: GroupRelationshipOutput,
    id: String,
    draft_keys: Seq<String>,
    draft_targets: Seq<EffectTarget>,
    handles: Seq<EffectTarget>,
    target_ids: Seq<String>,
    p: ChatAdoptionRelationship,
) -> bool {
    &&& resolved_effect(draft_keys, draft_targets, handles, target_ids, rel.from_ref@) matches Some(f)
    &&& resolved_effect(draft_keys, draft_targets, handles, target_ids, rel.to_ref@) matches Some(t)
    &&& p.key == rel.key && p.relationship_id == id
    &&& p.from_document_id == f.document_id && p.to_document_id == t.document_id
    &&& p.from_head == f.head && p.to_head == t.head
    &&& p.relationship_type == rel.relationship_type && p.description == rel.description
    &&& p.uncertainty == rel.uncertainty
}

/// The relationships an adoption proposes from the retained response, in
/// order, each under its fresh relationship ID (`fresh_ids[i]` for the
/// `i`-th), with both ends resolved to an included draft's target or a
/// frozen source. A reference that does not resolve, or an end that is not
/// character or world material, refuses the adoption (`InvalidRequest`).
pub fn assemble_relationships(
    relationships: &Vec<GroupRelationshipOutput>,
    fresh_ids: &Vec<String>,
    draft_keys: &Vec<String>,
    draft_targets: &Vec<EffectTarget>,
    handles: &Vec<EffectTarget>,
    target_ids: &Vec<String>,
) -> (r: Result<Vec<ChatAdoptionRelationship>, CoreError>)
    requires
        fresh_ids@.len() == relationships@.len(),
    ensures
        r is Ok <==> forall|i: int| 0 <= i < relationships@.len()
            ==> relationship_resolves(#[trigger] relationships@[i], draft_keys@, draft_targets@, handles@, target_ids@),
        r matches Ok(v) ==> v@.len() == relationships@.len() && forall|i: int| 0 <= i < v@.len()
            ==> relationship_proposed(relationships@[i], fresh_ids@[i], draft_keys@, draft_targets@, handles@, target_ids@, #[trigger] v@[i]),
        r matches Err(e) ==> e.code == ErrorCode::InvalidRequest,
{
    let mut out: Vec<ChatAdoptionRelationship> = Vec::new();
    let n = relationships.len();
    let mut i: usize = 0;
    while i < n
        invariant
            n == relationships@.len(),
            fresh_ids@.len() == n,
            0 <= i <= n,
            out@.len() == i,
            forall|j: int| 0 <= j < i
                ==> relationship_resolves(#[trigger] relationships@[j], draft_keys@, draft_targets@, handles@, target_ids@),
            forall|j: int| 0 <= j < i
                ==> relationship_proposed(relationships@[j], fresh_ids@[j], draft_keys@, draft_targets@, handles@, target_ids@, #[trigger] out@[j]),
        decreases n - i,
    {
        let rel = &relationships[i];
        let from = match resolved_target(draft_keys, draft_targets, handles, target_ids, rel.from_ref.as_str()) {
            Ok(t) => t,
            Err(e) => {
                assert(!relationship_resolves(relationships@[i as int], draft_keys@, draft_targets@, handles@, target_ids@));
                return Err(e);
            },
        };
        let to = match resolved_target(draft_keys, draft_targets, handles, target_ids, rel.to_ref.as_str()) {
            Ok(t) => t,
            Err(e) => {
                assert(!relationship_resolves(relationships@[i as int], draft_keys@, draft_targets@, handles@, target_ids@));
                return Err(e);
            },
        };
        let proposed = proposed_relationship(
            rel.key.clone(),
            fresh_ids[i].clone(),
            from,
            to,
            rel.relationship_type.clone(),
            rel.description.clone(),
            rel.uncertainty.clone(),
        );
        match proposed {
            Ok(p) => out.push(p),
            Err(e) => {
                assert(!relationship_resolves(relationships@[i as int], draft_keys@, draft_targets@, handles@, target_ids@));
                return Err(e);
            },
        }
        i += 1;
    }
    Ok(out)
}

/// The version of the effect manifests adoption writes.
pub open spec fn effects_version() -> Seq<char> {
    "chat-adoption-effects.v1"@
}

/// An adoption's effect manifest: the current version, the fingerprint of
/// the response it came from, the relationships it depends on, the
/// protected text it keeps and the relationships it proposes. Impacts,
/// supersessions and placements stay review-only, so none is recorded.
pub fn adoption_effects(
    source_output_hash: String,
    relationship_dependencies: Vec<ChatRelationshipDependency>,
    protected_content: Vec<ChatProtectedContent>,
    proposed_relationships: Vec<ChatAdoptionRelationship>,
) -> (r: ChatAdoptionEffects)
    ensures
        r.version@ == effects_version(),
        r.source_output_hash == source_output_hash,
        r.relationship_dependencies == relationship_dependencies,
        r.protected_content == protected_content,
        r.proposed_relationships == proposed_relationships,
        r.impacts@.len() == 0 && r.supersessions@.len() == 0 && r.placements@.len() == 0,
{
    ChatAdoptionEffects {
        version: "chat-adoption-effects.v1".to_string(),
        source_output_hash,
        relationship_dependencies,
        protected_content,
        proposed_relationships,
        impacts: Vec::new(),
        supersessions: Vec::new(),
        placements: Vec::new(),
    }
}

} // verus!

//! Chapter requests submitted from the project conversation: what a chapter
//! task in the composer must hold, and which documents it pins.
use vstd::prelude::*;
use crate::error::{CoreError, ErrorCode, fails_with};
use crate::pins::texts;
use crate::request::{BasisKind, DiscussionScopeInput, FeedbackIntent, SafeBriefInput};
use crate::text::{is_blank, text_is_blank};
use crate::vocab::{str_eq, Head};

verus! {

broadcast use vstd::string::group_string_axioms;

/// A chapter task captured in the project composer.
#[derive(Debug)]
pub struct ProjectChapterComposer {
    pub target: Head,
    pub intent: FeedbackIntent,
    pub basis: Option<BasisKind>,
    pub scope: Option<DiscussionScopeInput>,
    pub safe_brief: Option<SafeBriefInput>,
}

/// A project-chat draft attached to a composer task: its exact head and the
/// version of its disposition.
#[derive(Debug)]
pub struct TaskDraftRef {
    pub head: Head,
    pub disposition_version: String,
}

/// The project composer: the author's text, the sources and drafts it
/// attaches, the focused document, and an optional chapter task.
#[derive(Debug)]
pub struct ProjectComposer {
    pub text: String,
    pub source_refs: Vec<Head>,
    /// The project-chat drafts attached to the task.
    pub task_draft_refs: Vec<TaskDraftRef>,
    pub focused_document_ref: Option<Head>,
    pub chapter: Option<ProjectChapterComposer>,
}

pub open spec fn chapter_composer_error(composer: ProjectComposer) -> Option<ErrorCode> {
    match composer.chapter {
        None => Some(ErrorCode::InvalidChapterRequest),
        Some(chapter) => if composer.task_draft_refs@.len() > 0 {
            Some(ErrorCode::InvalidChapterRequest)
        } else if chapter.intent == FeedbackIntent::WorkshopExplore {
            Some(ErrorCode::InvalidChapterRequest)
        } else if chapter.safe_brief matches Some(b) && (!b.confirmed || is_blank(b.text@)) {
            Some(ErrorCode::InvalidSafeBrief)
        } else {
            None
        },
    }
}

/// A chapter request needs a chapter task without unadopted chat drafts or
/// workshop exploration, and any brief it carries is nonblank and confirmed.
pub fn validate_chapter_composer(composer: &ProjectComposer) -> (r: Result<(), CoreError>)
    ensures
        match chapter_composer_error(*composer) {
            Some(code) => fails_with(r, code),
            None => r is Ok,
        },
{
    let chapter = match &composer.chapter {
        None => return Err(CoreError::new(ErrorCode::InvalidChapterRequest, "A chapter task is required for this request.")),
        Some(c) => c,
    };
    if composer.task_draft_refs.len() > 0 {
        return Err(CoreError::new(ErrorCode::InvalidChapterRequest, "Unadopted project-chat drafts cannot enter a restricted chapter request."));
    }
    if chapter.intent == FeedbackIntent::WorkshopExplore {
        return Err(CoreError::new(ErrorCode::InvalidChapterRequest, "Workshop exploration belongs in the project conversation, not a chapter request."));
    }
    if let Some(brief) = &chapter.safe_brief {
        if !brief.confirmed || text_is_blank(brief.text.as_str()) {
            return Err(CoreError::new(ErrorCode::InvalidSafeBrief, "A chapter brief must be nonempty and explicitly confirmed."));
        }
    }
    Ok(())
}

/// A chapter request carries an instruction.
pub fn check_chapter_instruction(text: &str) -> (r: Result<(), CoreError>)
    ensures
        r is Ok <==> !is_blank(text@),
        r matches Err(e) ==> e.code == ErrorCode::InvalidChapterRequest,
{
    if text_is_blank(text) {
        return Err(CoreError::new(ErrorCode::InvalidChapterRequest, "Write an instruction for the chapter task first."));
    }
    Ok(())
}

/// An unscoped chapter discussion answers with the chapter-range contract.
pub fn chapter_range_response(chapter: &ProjectChapterComposer) -> (r: bool)
    ensures
        r == (chapter.intent == FeedbackIntent::Discuss && chapter.scope is None),
{
    chapter.intent == FeedbackIntent::Discuss && chapter.scope.is_none()
}

/// The documents in order of first appearance, each once.
pub open spec fn first_occurrences(ids: Seq<Seq<char>>) -> Seq<Seq<char>>
    decreases ids.len(),
{
    if ids.len() == 0 {
        ids
    } else {
        let earlier = first_occurrences(ids.drop_last());
        if earlier.contains(ids.last()) { earlier } else { earlier.push(ids.last()) }
    }
}

/// The documents a chapter request pins: the composer's sources, then the
/// focused document unless it is the target itself.
pub open spec fn pinned_candidates(source_refs: Seq<Head>, focused: Option<Head>, target: Seq<char>) -> Seq<Seq<char>> {
    let sources = source_refs.map_values(|h: Head| h.document_id@);
    match focused {
        Some(f) => if f.document_id@ != target { sources.push(f.document_id@) } else { sources },
        None => sources,
    }
}

/// Pins each of the composer's documents once, in the order the composer
/// names them. The caller has already checked each named head is current.
pub fn exact_pinned_documents(composer: &ProjectComposer, target: &Head) -> (r: Vec<String>)
    ensures
        texts(r@) == first_occurrences(pinned_candidates(composer.source_refs@, composer.focused_document_ref, target.document_id@)),
{
    let mut ids: Vec<String> = Vec::new();
    let refs = &composer.source_refs;
    let ghost cands = pinned_candidates(composer.source_refs@, composer.focused_document_ref, target.document_id@);
    let ghost sources = composer.source_refs@.map_values(|h: Head| h.document_id@);
    let n = refs.len();
    let mut i: usize = 0;
    assert(sources.take(0) =~= Seq::<Seq<char>>::empty());
    while i < n
        invariant
            n == refs@.len(),
            refs@ == composer.source_refs@,
            sources == composer.source_refs@.map_values(|h: Head| h.document_id@),
            0 <= i <= n,
            texts(ids@) == first_occurrences(sources.take(i as int)),
        decreases n - i,
    {
        let id = &refs[i].document_id;
        assert(sources.take(i + 1).drop_last() =~= sources.take(i as int));
        assert(sources.take(i + 1).last() == id@);
        push_new(&mut ids, id);
        i += 1;
    }
    assert(sources.take(n as int) =~= sources);
    if let Some(f) = &composer.focused_document_ref {
        if !str_eq(f.document_id.as_str(), target.document_id.as_str()) {
            assert(cands.drop_last() =~= sources);
            push_new(&mut ids, &f.document_id);
        }
    }
    ids
}

/// Appends `id` unless it is already listed.
fn push_new(ids: &mut Vec<String>, id: &String)
    ensures
        texts(final(ids)@) == (if texts(old(ids)@).contains(id@) { texts(old(ids)@) } else { texts(old(ids)@).push(id@) }),
{
    let ghost before = texts(ids@);
    let n = ids.len();
    let mut k: usize = 0;
    while k < n
        invariant
            n == ids@.len(),
            before == texts(ids@),
            0 <= k <= n,
            forall|j: int| 0 <= j < k ==> (#[trigger] ids@[j])@ != id@,
        decreases n - k,
    {
        if str_eq(ids[k].as_str(), id.as_str()) {
            assert(before[k as int] == id@);
            return;
        }
        k += 1;
    }
    assert(!before.contains(id@)) by {
        assert forall|j: int| 0 <= j < before.len() implies before[j] != id@ by {
            assert(before[j] == ids@[j]@);
        }
    }
    ids.push(id.clone());
    assert(texts(ids@) =~= before.push(id@));
}

} // verus!

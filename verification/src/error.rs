use vstd::prelude::*;

verus! {

/// The stable machine-readable codes that the conversation boundary reports.
#[derive(Debug, Clone, Copy, PartialEq, Eq, Structural)]
pub enum ErrorCode {
    InvalidRequest,
    InvalidProject,
    OutputTooLarge,
    InputTooLarge,
    OutputConflict,
    SequenceConflict,
    EventIdReused,
    RunNotStarted,
    RunStopping,
    RunSealed,
    RunAlreadyStarted,
    ContextChanged,
    DiscussionProjectMismatch,
    ProviderResultRequired,
    ProviderResultConflict,
    ProviderBindingMissing,
    ProviderBindingMismatch,
    ProviderInputMismatch,
    InvalidProviderBinding,
    InvalidAppServerDelivery,
    LookupNotEnabled,
    LookupInvocationRequired,
    LookupResultConflict,
    LookupInvocationNotClaimed,
    LookupInvocationAlreadyClaimed,
    LookupAllowanceExceeded,
    LookupExpansionUnavailable,
    InvalidLookupCounter,
    UnsupportedContextTools,
    UnsupportedProviderFeature,
    InvalidContinuationBasis,
    InvalidScope,
    InvalidSafeBrief,
    InvalidWorkshop,
    InvalidChapterRequest,
    SourceNotFound,
    PreviousRunNotFound,
    PreviousRunMismatch,
    PreviousRunActive,
    RetryRequestChanged,
    RetryAlreadyCompleted,
    OperationIdReusedWithDifferentPayload,
    DraftVersionConflict,
    GuidanceConflict,
    GuidanceVersionConflict,
    GuidanceOriginMismatch,
    GuidanceTargetMismatch,
    GuidanceOriginNotFound,
    GuidanceAlreadyUsed,
    RetryGuidanceChanged,
    InvalidContext,
    DocumentNotFound,
    InvalidProjectChatRequest,
    SourceOutsideFrozenContext,
    DraftChanged,
    DraftNotAdoptable,
    VersionConflict,
    WorkshopChanged,
    ProtectedContentChanged,
    DocumentRoleMismatch,
    InvalidDocument,
    ProjectChatBusy,
    InvalidLookupAllowance,
    InvalidLookupCapability,
    LookupResponseMissing,
    LookupAlreadyFinished,
    ContextPacketNotFound,
    InvalidContextPacket,
    WrongProjectSession,
    BackgroundWorkNotFound,
    BackgroundWorkMismatch,
    RecoveryRequired,
    InvalidProjectChat,
    HistoricalConversationNotFound,
    HistoricalConversationMismatch,
    DiscussionRunNotFound,
    PersistenceUnavailable,
    PreviewMismatch,
    InvalidProjectChatOutput,
    InvalidProjectChatContext,
    LookupReadUnavailable,
    LookupReadConflict,
}

/// A refused request: the code callers branch on and a sentence for the author.
#[derive(Debug)]
pub struct CoreError {
    pub code: ErrorCode,
    pub message: String,
}

impl CoreError {
    pub fn new(code: ErrorCode, message: &str) -> (e: CoreError)
        ensures
            e.code == code,
            e.message@ == message@,
    {
        CoreError { code, message: message.to_owned() }
    }
}

impl Clone for CoreError {
    fn clone(&self) -> (r: Self)
        ensures
            r == *self,
    {
        CoreError { code: self.code, message: self.message.clone() }
    }
}

/// True when `r` failed with the given code.
pub open spec fn fails_with<T>(r: Result<T, CoreError>, code: ErrorCode) -> bool {
    r matches Err(e) && e.code == code
}

} // verus!

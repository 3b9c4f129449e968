//! The one place where intents and keyboard actions become calls of the window.
use crate::actions::DesktopPaletteCommand;
use crate::change_set::UiRegion;
use crate::commands::{
    refusal, refuse, CommandReply, ComposerSubmissionKind, DesktopRuntimeSelectionKind,
    FileReviewRequest,
};
use crate::conversation_header::DesktopThinkingLevel;
use crate::inspector_pane::{DesktopRecoveryAction, InspectorSection};
use crate::intent::{
    AuthorizationIdentity, CenterNavigationTarget, CenterSurface, RecoveryIdentity, RowMeasurement,
    UiIntent,
};
use crate::overlay::{DecisionView, ToolAuthorizationDecision};
use crate::text::same_text;
use vstd::prelude::*;

verus! {

/// Where the keyboard focus can be.
#[derive(Debug, Clone, Copy, PartialEq, Eq, Structural)]
pub enum FocusTarget {
    CenterHeader,
    Sidebar,
    CenterBody,
    Composer,
    Inspector,
    Modal,
}

pub fn focus_target_label(target: FocusTarget) -> (label: &'static str)
    ensures
        label@ == (match target {
            FocusTarget::CenterHeader => "Center header"@,
            FocusTarget::Sidebar => "Sidebar"@,
            FocusTarget::CenterBody => "Center workspace"@,
            FocusTarget::Composer => "Composer"@,
            FocusTarget::Inspector => "Inspector"@,
            FocusTarget::Modal => "Modal"@,
        }),
{
    match target {
        FocusTarget::CenterHeader => "Center header",
        FocusTarget::Sidebar => "Sidebar",
        FocusTarget::CenterBody => "Center workspace",
        FocusTarget::Composer => "Composer",
        FocusTarget::Inspector => "Inspector",
        FocusTarget::Modal => "Modal",
    }
}

#[derive(Debug, Clone, Copy, PartialEq, Eq, Structural)]
pub enum DesktopModalKind {
    Authorization,
    CommandPalette,
    FullMessage,
    Search,
    ConfirmDeleteSession,
    UpdateAvailable,
}

/// One thing that the window does.
#[derive(Debug, PartialEq, Eq)]
pub enum ShellCall {
    Navigate(CenterNavigationTarget),
    ShowProjectHome(String),
    CreateSession,
    SwitchNextSession,
    RequestCatalog,
    SetGroupCollapsed { group_id: String, collapsed: bool },
    RenameSession { session_id: String, name: String },
    CloseSession(String),
    AskToDelete(String),
    ForgetDeletion,
    DeleteSession(String),
    ActivateModal(DesktopModalKind),
    DismissModal,
    OpenSearchField,
    DismissDrawer,
    ToggleSessions,
    ToggleInspector,
    Reload,
    SubmitSelection { selection: DesktopRuntimeSelectionKind, id: String },
    SelectNextModel,
    SelectNextProfile,
    SelectThinking(DesktopThinkingLevel),
    CycleThinking,
    Abort,
    EditDraft(String),
    Refresh(UiRegion),
    Notify,
    RecordFocus(FocusTarget),
    Focus(FocusTarget),
    CycleFocus { backwards: bool },
    FocusModal(DesktopModalKind),
    ChooseAttachments,
    RemoveAttachment(usize),
    ChooseProjectDirectory,
    ClearProjectDirectory,
    InsertComposer,
    SendComposer,
    SubmitControl(ComposerSubmissionKind),
    SelectRow { block_id: String, durable: bool },
    SelectAdjacentRow { upwards: bool },
    ReconcileScrollLater,
    CopySelection,
    CopyKeyboardSelection,
    ToggleKeyboardDetails,
    CopyRow(String),
    CopyToolDetails(String),
    AnnounceCopy(&'static str),
    ToggleDetails(String),
    OpenFullMessage(String),
    CopyFullMessage,
    CloseFullMessage,
    Recover { identity: RecoveryIdentity, action: DesktopRecoveryAction },
    RecoverLatest(DesktopRecoveryAction),
    SubmitMeasurement(RowMeasurement),
    FollowLatest,
    ReviewNextFile,
    RequestFileReview(FileReviewRequest),
    CopyReviewPath,
    CopyFileReview,
    OpenExternalEditor,
    CloseReview,
    RefreshProposals,
    DecideProposal { worktree_id: String, merge: bool },
    SelectInspectorSection(InspectorSection),
    ClosePalette,
    ForgetUpdate,
    DecideAuthorization { request: AuthorizationIdentity, decision: ToolAuthorizationDecision },
    SetNotice(&'static str),
    ToggleReducedMotion,
    StorePreferences,
}

/// The call of a palette command. Motion is a setting of its own.
pub open spec fn palette_call(command: DesktopPaletteCommand) -> ShellCall {
    match command {
        DesktopPaletteCommand::NewSession => ShellCall::CreateSession,
        DesktopPaletteCommand::SwitchNextSession => ShellCall::SwitchNextSession,
        DesktopPaletteCommand::ToggleSessions => ShellCall::ToggleSessions,
        DesktopPaletteCommand::ToggleContext => ShellCall::ToggleInspector,
        DesktopPaletteCommand::FocusSessions => ShellCall::Focus(FocusTarget::Sidebar),
        DesktopPaletteCommand::FocusConversation => ShellCall::Focus(FocusTarget::CenterBody),
        DesktopPaletteCommand::FocusComposer => ShellCall::Focus(FocusTarget::Composer),
        DesktopPaletteCommand::FocusContext => ShellCall::Focus(FocusTarget::Inspector),
        DesktopPaletteCommand::SubmitPrompt => ShellCall::SendComposer,
        DesktopPaletteCommand::SteerOperation => ShellCall::SubmitControl(
            ComposerSubmissionKind::Steer,
        ),
        DesktopPaletteCommand::FollowUpOperation => ShellCall::SubmitControl(
            ComposerSubmissionKind::FollowUp,
        ),
        DesktopPaletteCommand::AbortOperation => ShellCall::Abort,
        DesktopPaletteCommand::FollowLatest => ShellCall::FollowLatest,
        DesktopPaletteCommand::ReloadResources => ShellCall::Reload,
        DesktopPaletteCommand::CopyConversation => ShellCall::CopySelection,
        DesktopPaletteCommand::SelectNextModel => ShellCall::SelectNextModel,
        DesktopPaletteCommand::SelectNextProfile => ShellCall::SelectNextProfile,
        DesktopPaletteCommand::CycleThinking => ShellCall::CycleThinking,
        DesktopPaletteCommand::ReviewNextFile => ShellCall::ReviewNextFile,
        DesktopPaletteCommand::CopyReviewPath => ShellCall::CopyReviewPath,
        DesktopPaletteCommand::CopyFileReview => ShellCall::CopyFileReview,
        DesktopPaletteCommand::OpenExternalEditor => ShellCall::OpenExternalEditor,
        DesktopPaletteCommand::RetryRecovery => ShellCall::RecoverLatest(
            DesktopRecoveryAction::Retry,
        ),
        DesktopPaletteCommand::MarkRecoveryFailed => ShellCall::RecoverLatest(
            DesktopRecoveryAction::MarkFailed,
        ),
        DesktopPaletteCommand::AbortRecovery => ShellCall::RecoverLatest(
            DesktopRecoveryAction::Abort,
        ),
        DesktopPaletteCommand::ToggleReducedMotion => ShellCall::ToggleReducedMotion,
    }
}

fn call_of_palette(command: DesktopPaletteCommand) -> (call: ShellCall)
    ensures
        call == palette_call(command),
{
    match command {
        DesktopPaletteCommand::NewSession => ShellCall::CreateSession,
        DesktopPaletteCommand::SwitchNextSession => ShellCall::SwitchNextSession,
        DesktopPaletteCommand::ToggleSessions => ShellCall::ToggleSessions,
        DesktopPaletteCommand::ToggleContext => ShellCall::ToggleInspector,
        DesktopPaletteCommand::FocusSessions => ShellCall::Focus(FocusTarget::Sidebar),
        DesktopPaletteCommand::FocusConversation => ShellCall::Focus(FocusTarget::CenterBody),
        DesktopPaletteCommand::FocusComposer => ShellCall::Focus(FocusTarget::Composer),
        DesktopPaletteCommand::FocusContext => ShellCall::Focus(FocusTarget::Inspector),
        DesktopPaletteCommand::SubmitPrompt => ShellCall::SendComposer,
        DesktopPaletteCommand::SteerOperation => ShellCall::SubmitControl(
            ComposerSubmissionKind::Steer,
        ),
        DesktopPaletteCommand::FollowUpOperation => ShellCall::SubmitControl(
            ComposerSubmissionKind::FollowUp,
        ),
        DesktopPaletteCommand::AbortOperation => ShellCall::Abort,
        DesktopPaletteCommand::FollowLatest => ShellCall::FollowLatest,
        DesktopPaletteCommand::ReloadResources => ShellCall::Reload,
        DesktopPaletteCommand::CopyConversation => ShellCall::CopySelection,
        DesktopPaletteCommand::SelectNextModel => ShellCall::SelectNextModel,
        DesktopPaletteCommand::SelectNextProfile => ShellCall::SelectNextProfile,
        DesktopPaletteCommand::CycleThinking => ShellCall::CycleThinking,
        DesktopPaletteCommand::ReviewNextFile => ShellCall::ReviewNextFile,
        DesktopPaletteCommand::CopyReviewPath => ShellCall::CopyReviewPath,
        DesktopPaletteCommand::CopyFileReview => ShellCall::CopyFileReview,
        DesktopPaletteCommand::OpenExternalEditor => ShellCall::OpenExternalEditor,
        DesktopPaletteCommand::RetryRecovery => ShellCall::RecoverLatest(
            DesktopRecoveryAction::Retry,
        ),
        DesktopPaletteCommand::MarkRecoveryFailed => ShellCall::RecoverLatest(
            DesktopRecoveryAction::MarkFailed,
        ),
        DesktopPaletteCommand::AbortRecovery => ShellCall::RecoverLatest(
            DesktopRecoveryAction::Abort,
        ),
        DesktopPaletteCommand::ToggleReducedMotion => ShellCall::ToggleReducedMotion,
    }
}

/// The notice of a change of motion.
pub open spec fn motion_notice(reduced: bool) -> &'static str {
    if reduced {
        "Reduced motion enabled; desktop transitions remain static."
    } else {
        "Reduced motion disabled; idle presentation remains static."
    }
}

/// What a palette command does.
pub open spec fn palette_calls(command: DesktopPaletteCommand, reduced_motion: bool) -> Seq<
    ShellCall,
> {
    if command is ToggleReducedMotion {
        seq![
            ShellCall::ToggleReducedMotion,
            ShellCall::StorePreferences,
            ShellCall::SetNotice(motion_notice(!reduced_motion)),
            ShellCall::Refresh(UiRegion::Toast),
            ShellCall::Notify,
        ]
    } else {
        seq![palette_call(command)]
    }
}

/// Works out what a palette command does, given whether motion is reduced now.
pub fn execute_palette_command(command: DesktopPaletteCommand, reduced_motion: bool) -> (calls: Vec<
    ShellCall,
>)
    ensures
        calls@ == palette_calls(command, reduced_motion),
{
    let calls: Vec<ShellCall> = match command {
        DesktopPaletteCommand::ToggleReducedMotion => {
            let notice = if reduced_motion {
                "Reduced motion disabled; idle presentation remains static."
            } else {
                "Reduced motion enabled; desktop transitions remain static."
            };
            vec![
                ShellCall::ToggleReducedMotion,
                ShellCall::StorePreferences,
                ShellCall::SetNotice(notice),
                ShellCall::Refresh(UiRegion::Toast),
                ShellCall::Notify,
            ]
        },
        _ => vec![call_of_palette(command)],
    };
    assert(calls@ =~= palette_calls(command, reduced_motion));
    calls
}

/// What the window finds when it is asked to do something.
#[derive(Debug, PartialEq, Eq)]
pub struct ShellFacts {
    pub catalog_not_loaded: bool,
    pub modal_blocks: bool,
    pub session_open: bool,
    pub full_message_open: bool,
    pub reduced_motion: bool,
    pub pending_deletion: Option<String>,
}

/// What the window does about an intent, in order. Nothing about those that the
/// composer with its running mode routes by itself.
pub open spec fn dispatched(intent: UiIntent, facts: ShellFacts) -> Seq<ShellCall> {
    match intent {
        UiIntent::Navigate(target) => seq![ShellCall::Navigate(target)],
        UiIntent::NewConversationForProject(path) => seq![ShellCall::ShowProjectHome(path)],
        UiIntent::RefreshSessions => seq![ShellCall::RequestCatalog],
        UiIntent::SetProjectCollapsed { group_id, collapsed } => seq![
            ShellCall::SetGroupCollapsed { group_id, collapsed },
        ],
        UiIntent::RenameSession { session_id, name } => seq![
            ShellCall::RenameSession { session_id, name },
        ],
        UiIntent::CloseSession(session_id) => seq![ShellCall::CloseSession(session_id)],
        UiIntent::DeleteSession(session_id) => seq![
            ShellCall::AskToDelete(session_id),
            ShellCall::ActivateModal(DesktopModalKind::ConfirmDeleteSession),
        ],
        UiIntent::ConfirmDeleteSession => match facts.pending_deletion {
            Some(session_id) => seq![
                ShellCall::ForgetDeletion,
                ShellCall::DismissModal,
                ShellCall::DeleteSession(session_id),
            ],
            None => seq![ShellCall::ForgetDeletion, ShellCall::DismissModal],
        },
        UiIntent::CancelDeleteSession => seq![ShellCall::ForgetDeletion, ShellCall::DismissModal],
        UiIntent::OpenSearch => if facts.catalog_not_loaded {
            seq![
                ShellCall::RequestCatalog,
                ShellCall::ActivateModal(DesktopModalKind::Search),
                ShellCall::OpenSearchField,
            ]
        } else {
            seq![ShellCall::ActivateModal(DesktopModalKind::Search), ShellCall::OpenSearchField]
        },
        UiIntent::NavigateSearch(session_id) => seq![
            ShellCall::DismissModal,
            ShellCall::Navigate(CenterNavigationTarget::Session(session_id)),
        ],
        UiIntent::CloseSearch => seq![ShellCall::DismissModal],
        UiIntent::DismissDrawer => seq![ShellCall::DismissDrawer],
        UiIntent::ToggleSessions => seq![ShellCall::ToggleSessions],
        UiIntent::ToggleInspector => seq![ShellCall::ToggleInspector],
        UiIntent::Reload => seq![ShellCall::Reload],
        UiIntent::SelectModel(id) => seq![
            ShellCall::SubmitSelection { selection: DesktopRuntimeSelectionKind::Model, id },
        ],
        UiIntent::SelectSessionProfile(id) => seq![
            ShellCall::SubmitSelection {
                selection: DesktopRuntimeSelectionKind::SessionProfile,
                id,
            },
        ],
        UiIntent::SelectThinking(level) => seq![ShellCall::SelectThinking(level)],
        UiIntent::Abort => seq![ShellCall::Abort],
        UiIntent::ComposerInputChanged(value) => seq![
            ShellCall::EditDraft(value),
            ShellCall::Refresh(UiRegion::Composer),
        ],
        UiIntent::ComposerFocused => seq![ShellCall::RecordFocus(FocusTarget::Composer)],
        UiIntent::AddAttachments => seq![ShellCall::ChooseAttachments],
        UiIntent::RemoveAttachment(index) => seq![ShellCall::RemoveAttachment(index)],
        UiIntent::ChooseProjectDirectory => seq![ShellCall::ChooseProjectDirectory],
        UiIntent::ClearProjectDirectory => seq![ShellCall::ClearProjectDirectory],
        UiIntent::InsertComposer => if facts.modal_blocks {
            Seq::empty()
        } else {
            seq![ShellCall::InsertComposer]
        },
        UiIntent::SendComposer => seq![ShellCall::SendComposer],
        UiIntent::SelectConversation { block_id, durable } => if facts.session_open {
            seq![
                ShellCall::RecordFocus(FocusTarget::CenterBody),
                ShellCall::SelectRow { block_id, durable },
                ShellCall::Refresh(UiRegion::Conversation),
                ShellCall::Refresh(UiRegion::ConversationHeader),
            ]
        } else {
            seq![ShellCall::RecordFocus(FocusTarget::CenterBody)]
        },
        UiIntent::ConversationScrolled => seq![ShellCall::ReconcileScrollLater],
        UiIntent::CopyConversation(block_id) => seq![ShellCall::CopyRow(block_id)],
        UiIntent::CopyToolDetails(block_id) => seq![ShellCall::CopyToolDetails(block_id)],
        UiIntent::CopyCodeCompleted => seq![ShellCall::AnnounceCopy("Code copied.")],
        UiIntent::ToggleConversationDetails(block_id) => seq![ShellCall::ToggleDetails(block_id)],
        UiIntent::OpenFullConversation(block_id) => seq![ShellCall::OpenFullMessage(block_id)],
        UiIntent::Recovery { identity, action } => seq![ShellCall::Recover { identity, action }],
        UiIntent::ConversationMeasured(measurement) => seq![
            ShellCall::SubmitMeasurement(measurement),
        ],
        UiIntent::FollowLatest => seq![ShellCall::FollowLatest],
        UiIntent::RequestFileReview(request) => seq![ShellCall::RequestFileReview(request)],
        UiIntent::CopyReviewPath => seq![ShellCall::CopyReviewPath],
        UiIntent::CopyFileReview => seq![ShellCall::CopyFileReview],
        UiIntent::OpenExternalEditor => seq![ShellCall::OpenExternalEditor],
        UiIntent::RefreshMergeProposals => seq![ShellCall::RefreshProposals],
        UiIntent::MergeProposal(worktree_id) => seq![
            ShellCall::DecideProposal { worktree_id, merge: true },
        ],
        UiIntent::DiscardProposal(worktree_id) => seq![
            ShellCall::DecideProposal { worktree_id, merge: false },
        ],
        UiIntent::SelectInspectorSection(section) => seq![
            ShellCall::SelectInspectorSection(section),
            ShellCall::Refresh(UiRegion::Inspector),
        ],
        UiIntent::ExecutePalette(command) => seq![ShellCall::ClosePalette, ShellCall::DismissModal]
            + palette_calls(command, facts.reduced_motion),
        UiIntent::DecideAuthorization { request, decision } => seq![
            ShellCall::DecideAuthorization { request, decision },
        ],
        UiIntent::CopyFullMessage => if facts.full_message_open {
            seq![ShellCall::CopyFullMessage]
        } else {
            Seq::empty()
        },
        UiIntent::CloseFullMessage => seq![ShellCall::CloseFullMessage],
        UiIntent::SubmitPrimary => Seq::empty(),
        UiIntent::Submit => Seq::empty(),
        UiIntent::SubmitRunning => Seq::empty(),
        UiIntent::SetRunningMode(_) => Seq::empty(),
    }
}

/// Works out what the window does about an intent.
#[verifier::rlimit(60)]
pub fn dispatch_ui_intent(intent: UiIntent, facts: ShellFacts) -> (calls: Vec<ShellCall>)
    ensures
        calls@ == dispatched(intent, facts),
{
    let calls: Vec<ShellCall> = match intent {
        UiIntent::Navigate(target) => vec![ShellCall::Navigate(target)],
        UiIntent::NewConversationForProject(path) => vec![ShellCall::ShowProjectHome(path)],
        UiIntent::RefreshSessions => vec![ShellCall::RequestCatalog],
        UiIntent::SetProjectCollapsed { group_id, collapsed } => vec![
            ShellCall::SetGroupCollapsed { group_id, collapsed },
        ],
        UiIntent::RenameSession { session_id, name } => vec![
            ShellCall::RenameSession { session_id, name },
        ],
        UiIntent::CloseSession(session_id) => vec![ShellCall::CloseSession(session_id)],
        UiIntent::DeleteSession(session_id) => vec![
            ShellCall::AskToDelete(session_id),
            ShellCall::ActivateModal(DesktopModalKind::ConfirmDeleteSession),
        ],
        UiIntent::ConfirmDeleteSession => match facts.pending_deletion {
            Some(session_id) => vec![
                ShellCall::ForgetDeletion,
                ShellCall::DismissModal,
                ShellCall::DeleteSession(session_id),
            ],
            None => vec![ShellCall::ForgetDeletion, ShellCall::DismissModal],
        },
        UiIntent::CancelDeleteSession => vec![ShellCall::ForgetDeletion, ShellCall::DismissModal],
        UiIntent::OpenSearch => if facts.catalog_not_loaded {
            vec![
                ShellCall::RequestCatalog,
                ShellCall::ActivateModal(DesktopModalKind::Search),
                ShellCall::OpenSearchField,
            ]
        } else {
            vec![ShellCall::ActivateModal(DesktopModalKind::Search), ShellCall::OpenSearchField]
        },
        UiIntent::NavigateSearch(session_id) => vec![
            ShellCall::DismissModal,
            ShellCall::Navigate(CenterNavigationTarget::Session(session_id)),
        ],
        UiIntent::CloseSearch => vec![ShellCall::DismissModal],
        UiIntent::DismissDrawer => vec![ShellCall::DismissDrawer],
        UiIntent::ToggleSessions => vec![ShellCall::ToggleSessions],
        UiIntent::ToggleInspector => vec![ShellCall::ToggleInspector],
        UiIntent::Reload => vec![ShellCall::Reload],
        UiIntent::SelectModel(id) => vec![
            ShellCall::SubmitSelection { selection: DesktopRuntimeSelectionKind::Model, id },
        ],
        UiIntent::SelectSessionProfile(id) => vec![
            ShellCall::SubmitSelection {
                selection: DesktopRuntimeSelectionKind::SessionProfile,
                id,
            },
        ],
        UiIntent::SelectThinking(level) => vec![ShellCall::SelectThinking(level)],
        UiIntent::Abort => vec![ShellCall::Abort],
        UiIntent::ComposerInputChanged(value) => vec![
            ShellCall::EditDraft(value),
            ShellCall::Refresh(UiRegion::Composer),
        ],
        UiIntent::ComposerFocused => vec![ShellCall::RecordFocus(FocusTarget::Composer)],
        UiIntent::AddAttachments => vec![ShellCall::ChooseAttachments],
        UiIntent::RemoveAttachment(index) => vec![ShellCall::RemoveAttachment(index)],
        UiIntent::ChooseProjectDirectory => vec![ShellCall::ChooseProjectDirectory],
        UiIntent::ClearProjectDirectory => vec![ShellCall::ClearProjectDirectory],
        UiIntent::InsertComposer => if facts.modal_blocks {
            Vec::new()
        } else {
            vec![ShellCall::InsertComposer]
        },
        UiIntent::SendComposer => vec![ShellCall::SendComposer],
        UiIntent::SelectConversation { block_id, durable } => if facts.session_open {
            vec![
                ShellCall::RecordFocus(FocusTarget::CenterBody),
                ShellCall::SelectRow { block_id, durable },
                ShellCall::Refresh(UiRegion::Conversation),
                ShellCall::Refresh(UiRegion::ConversationHeader),
            ]
        } else {
            vec![ShellCall::RecordFocus(FocusTarget::CenterBody)]
        },
        UiIntent::ConversationScrolled => vec![ShellCall::ReconcileScrollLater],
        UiIntent::CopyConversation(block_id) => vec![ShellCall::CopyRow(block_id)],
        UiIntent::CopyToolDetails(block_id) => vec![ShellCall::CopyToolDetails(block_id)],
        UiIntent::CopyCodeCompleted => vec![ShellCall::AnnounceCopy("Code copied.")],
        UiIntent::ToggleConversationDetails(block_id) => vec![ShellCall::ToggleDetails(block_id)],
        UiIntent::OpenFullConversation(block_id) => vec![ShellCall::OpenFullMessage(block_id)],
        UiIntent::Recovery { identity, action } => vec![ShellCall::Recover { identity, action }],
        UiIntent::ConversationMeasured(measurement) => vec![
            ShellCall::SubmitMeasurement(measurement),
        ],
        UiIntent::FollowLatest => vec![ShellCall::FollowLatest],
        UiIntent::RequestFileReview(request) => vec![ShellCall::RequestFileReview(request)],
        UiIntent::CopyReviewPath => vec![ShellCall::CopyReviewPath],
        UiIntent::CopyFileReview => vec![ShellCall::CopyFileReview],
        UiIntent::OpenExternalEditor => vec![ShellCall::OpenExternalEditor],
        UiIntent::RefreshMergeProposals => vec![ShellCall::RefreshProposals],
        UiIntent::MergeProposal(worktree_id) => vec![
            ShellCall::DecideProposal { worktree_id, merge: true },
        ],
        UiIntent::DiscardProposal(worktree_id) => vec![
            ShellCall::DecideProposal { worktree_id, merge: false },
        ],
        UiIntent::SelectInspectorSection(section) => vec![
            ShellCall::SelectInspectorSection(section),
            ShellCall::Refresh(UiRegion::Inspector),
        ],
        UiIntent::ExecutePalette(command) => {
            let mut calls: Vec<ShellCall> = vec![ShellCall::ClosePalette, ShellCall::DismissModal];
            let mut more = execute_palette_command(command, facts.reduced_motion);
            calls.append(&mut more);
            calls
        },
        UiIntent::DecideAuthorization { request, decision } => vec![
            ShellCall::DecideAuthorization { request, decision },
        ],
        UiIntent::CopyFullMessage => if facts.full_message_open {
            vec![ShellCall::CopyFullMessage]
        } else {
            Vec::new()
        },
        UiIntent::CloseFullMessage => vec![ShellCall::CloseFullMessage],
        UiIntent::SubmitPrimary
        | UiIntent::Submit
        | UiIntent::SubmitRunning
        | UiIntent::SetRunningMode(_) => Vec::new(),
    };
    assert(calls@ =~= dispatched(intent, facts));
    calls
}

/// A session is deleted only once the user was asked about it, and only that
/// one.
pub proof fn law_only_confirmed_sessions_are_deleted(intent: UiIntent, facts: ShellFacts, session_id: String)
    requires
        dispatched(intent, facts).contains(ShellCall::DeleteSession(session_id)),
    ensures
        intent is ConfirmDeleteSession,
        facts.pending_deletion == Some(session_id),
{
    let calls = dispatched(intent, facts);
    let at = calls.index_of(ShellCall::DeleteSession(session_id));
    assert(calls[at] == ShellCall::DeleteSession(session_id));
    if let UiIntent::ExecutePalette(command) = intent {
        let more = palette_calls(command, facts.reduced_motion);
        if at >= 2 {
            assert(calls[at] == more[at - 2]);
        }
    }
}

/// What the escape key finds.
#[derive(Debug, Clone, Copy, PartialEq, Eq, Structural)]
pub struct EscapeFacts {
    pub modal: Option<DesktopModalKind>,
    pub update_installing: bool,
    pub drawer_open: bool,
    pub review_open: bool,
}

/// What the escape key does: modals come first, then drawers, then the review,
/// and at last the composer. Neither an authorization nor an update that is
/// being installed goes away by it.
pub open spec fn escaped(facts: EscapeFacts) -> Seq<ShellCall> {
    match facts.modal {
        Some(DesktopModalKind::Authorization) => seq![
            ShellCall::SetNotice(
                "Authorization requires Deny, Allow once, or Allow for operation.",
            ),
            ShellCall::FocusModal(DesktopModalKind::Authorization),
            ShellCall::Notify,
        ],
        Some(DesktopModalKind::CommandPalette) => seq![
            ShellCall::ClosePalette,
            ShellCall::DismissModal,
        ],
        Some(DesktopModalKind::FullMessage) => seq![ShellCall::CloseFullMessage],
        Some(DesktopModalKind::Search) => seq![ShellCall::DismissModal],
        Some(DesktopModalKind::ConfirmDeleteSession) => seq![
            ShellCall::ForgetDeletion,
            ShellCall::DismissModal,
        ],
        Some(DesktopModalKind::UpdateAvailable) => if facts.update_installing {
            seq![
                ShellCall::SetNotice("The verified update is still being installed. Please wait."),
                ShellCall::FocusModal(DesktopModalKind::UpdateAvailable),
                ShellCall::Notify,
            ]
        } else {
            seq![ShellCall::ForgetUpdate, ShellCall::DismissModal]
        },
        None => if facts.drawer_open {
            seq![ShellCall::DismissDrawer]
        } else if facts.review_open {
            seq![
                ShellCall::CloseReview,
                ShellCall::SetNotice("Closed the changed-file review."),
                ShellCall::Notify,
            ]
        } else {
            seq![ShellCall::Focus(FocusTarget::Composer)]
        },
    }
}

/// Works out what the escape key does.
pub fn on_escape_hierarchy(facts: EscapeFacts) -> (calls: Vec<ShellCall>)
    ensures
        calls@ == escaped(facts),
{
    let calls: Vec<ShellCall> = match facts.modal {
        Some(DesktopModalKind::Authorization) => vec![
            ShellCall::SetNotice(
                "Authorization requires Deny, Allow once, or Allow for operation.",
            ),
            ShellCall::FocusModal(DesktopModalKind::Authorization),
            ShellCall::Notify,
        ],
        Some(DesktopModalKind::CommandPalette) => vec![
            ShellCall::ClosePalette,
            ShellCall::DismissModal,
        ],
        Some(DesktopModalKind::FullMessage) => vec![ShellCall::CloseFullMessage],
        Some(DesktopModalKind::Search) => vec![ShellCall::DismissModal],
        Some(DesktopModalKind::ConfirmDeleteSession) => vec![
            ShellCall::ForgetDeletion,
            ShellCall::DismissModal,
        ],
        Some(DesktopModalKind::UpdateAvailable) => if facts.update_installing {
            vec![
                ShellCall::SetNotice("The verified update is still being installed. Please wait."),
                ShellCall::FocusModal(DesktopModalKind::UpdateAvailable),
                ShellCall::Notify,
            ]
        } else {
            vec![ShellCall::ForgetUpdate, ShellCall::DismissModal]
        },
        None => if facts.drawer_open {
            vec![ShellCall::DismissDrawer]
        } else if facts.review_open {
            vec![
                ShellCall::CloseReview,
                ShellCall::SetNotice("Closed the changed-file review."),
                ShellCall::Notify,
            ]
        } else {
            vec![ShellCall::Focus(FocusTarget::Composer)]
        },
    };
    assert(calls@ =~= escaped(facts));
    calls
}

/// The escape key never dismisses a request for authorization, nor an update
/// while it is being installed.
pub proof fn law_escape_does_not_answer(facts: EscapeFacts)
    requires
        facts.modal == Some(DesktopModalKind::Authorization) || (facts.modal == Some(
            DesktopModalKind::UpdateAvailable,
        ) && facts.update_installing),
    ensures
        !escaped(facts).contains(ShellCall::DismissModal),
        !escaped(facts).contains(ShellCall::ForgetUpdate),
{
    let calls = escaped(facts);
    assert(calls.len() == 3);
    assert(calls[0] is SetNotice && calls[1] is FocusModal && calls[2] is Notify);
}

/// What opening the palette does: pending authorizations come first.
pub open spec fn palette_opened(authorization_pending: bool) -> Seq<ShellCall> {
    if authorization_pending {
        seq![
            ShellCall::SetNotice("Resolve authorization before opening commands."),
            ShellCall::FocusModal(DesktopModalKind::Authorization),
            ShellCall::Refresh(UiRegion::Toast),
            ShellCall::Notify,
        ]
    } else {
        seq![ShellCall::ActivateModal(DesktopModalKind::CommandPalette)]
    }
}

/// Works out what opening the palette does. It is opened itself where nothing
/// is refused.
pub fn on_open_command_palette(authorization_pending: bool) -> (calls: Vec<ShellCall>)
    ensures
        calls@ == palette_opened(authorization_pending),
{
    let calls: Vec<ShellCall> = if authorization_pending {
        vec![
            ShellCall::SetNotice("Resolve authorization before opening commands."),
            ShellCall::FocusModal(DesktopModalKind::Authorization),
            ShellCall::Refresh(UiRegion::Toast),
            ShellCall::Notify,
        ]
    } else {
        vec![ShellCall::ActivateModal(DesktopModalKind::CommandPalette)]
    };
    assert(calls@ =~= palette_opened(authorization_pending));
    calls
}

/// What confirming the palette does.
pub open spec fn palette_confirmed(selected: Option<DesktopPaletteCommand>, reduced_motion: bool) -> Seq<
    ShellCall,
> {
    match selected {
        Some(command) => seq![ShellCall::ClosePalette, ShellCall::DismissModal] + palette_calls(
            command,
            reduced_motion,
        ),
        None => Seq::empty(),
    }
}

/// Works out what confirming the palette does.
pub fn on_palette_confirm(selected: Option<DesktopPaletteCommand>, reduced_motion: bool) -> (calls:
    Vec<ShellCall>)
    ensures
        calls@ == palette_confirmed(selected, reduced_motion),
{
    let mut calls: Vec<ShellCall> = Vec::new();
    if let Some(command) = selected {
        calls.push(ShellCall::ClosePalette);
        calls.push(ShellCall::DismissModal);
        let mut more = execute_palette_command(command, reduced_motion);
        calls.append(&mut more);
    }
    assert(calls@ =~= palette_confirmed(selected, reduced_motion));
    calls
}

/// A command does the same whether it is confirmed by key or clicked.
pub proof fn law_palette_keys_and_clicks_agree(command: DesktopPaletteCommand, facts: ShellFacts)
    ensures
        palette_confirmed(Some(command), facts.reduced_motion) == dispatched(
            UiIntent::ExecutePalette(command),
            facts,
        ),
{
}

/// A keyboard action of the window that a modal holds back.
#[derive(Debug, Clone, Copy, PartialEq, Eq, Structural)]
pub enum RootAction {
    OpenFileSurface,
    NewSession,
    FocusComposer,
    AbortActiveOperation,
    FollowLatestOutput,
    ToggleInspectorPanel,
    FocusNextRegion,
    FocusPreviousRegion,
    SelectPreviousConversation,
    SelectNextConversation,
    CopySelectedConversation,
    ToggleSelectedConversationDetails,
}

/// What a keyboard action does.
pub open spec fn root_calls(action: RootAction, modal_blocks: bool) -> Seq<ShellCall> {
    if modal_blocks {
        Seq::empty()
    } else {
        match action {
            RootAction::OpenFileSurface => seq![
                ShellCall::ReviewNextFile,
                ShellCall::Focus(FocusTarget::Inspector),
            ],
            RootAction::NewSession => seq![ShellCall::CreateSession],
            RootAction::FocusComposer => seq![ShellCall::Focus(FocusTarget::Composer)],
            RootAction::AbortActiveOperation => seq![ShellCall::Abort],
            RootAction::FollowLatestOutput => seq![ShellCall::FollowLatest],
            RootAction::ToggleInspectorPanel => seq![ShellCall::ToggleInspector],
            RootAction::FocusNextRegion => seq![ShellCall::CycleFocus { backwards: false }],
            RootAction::FocusPreviousRegion => seq![ShellCall::CycleFocus { backwards: true }],
            RootAction::SelectPreviousConversation => seq![
                ShellCall::SelectAdjacentRow { upwards: true },
            ],
            RootAction::SelectNextConversation => seq![
                ShellCall::SelectAdjacentRow { upwards: false },
            ],
            RootAction::CopySelectedConversation => seq![ShellCall::CopyKeyboardSelection],
            RootAction::ToggleSelectedConversationDetails => seq![ShellCall::ToggleKeyboardDetails],
        }
    }
}

/// Works out what a keyboard action does.
pub fn on_root_action(action: RootAction, modal_blocks: bool) -> (calls: Vec<ShellCall>)
    ensures
        calls@ == root_calls(action, modal_blocks),
{
    let calls: Vec<ShellCall> = if modal_blocks {
        Vec::new()
    } else {
        match action {
            RootAction::OpenFileSurface => vec![
                ShellCall::ReviewNextFile,
                ShellCall::Focus(FocusTarget::Inspector),
            ],
            RootAction::NewSession => vec![ShellCall::CreateSession],
            RootAction::FocusComposer => vec![ShellCall::Focus(FocusTarget::Composer)],
            RootAction::AbortActiveOperation => vec![ShellCall::Abort],
            RootAction::FollowLatestOutput => vec![ShellCall::FollowLatest],
            RootAction::ToggleInspectorPanel => vec![ShellCall::ToggleInspector],
            RootAction::FocusNextRegion => vec![ShellCall::CycleFocus { backwards: false }],
            RootAction::FocusPreviousRegion => vec![ShellCall::CycleFocus { backwards: true }],
            RootAction::SelectPreviousConversation => vec![
                ShellCall::SelectAdjacentRow { upwards: true },
            ],
            RootAction::SelectNextConversation => vec![
                ShellCall::SelectAdjacentRow { upwards: false },
            ],
            RootAction::CopySelectedConversation => vec![ShellCall::CopyKeyboardSelection],
            RootAction::ToggleSelectedConversationDetails => vec![ShellCall::ToggleKeyboardDetails],
        }
    };
    assert(calls@ =~= root_calls(action, modal_blocks));
    calls
}

/// The answer that a key gives to the first request for authorization.
#[derive(Debug, Clone, Copy, PartialEq, Eq, Structural)]
pub enum AuthorizationKey {
    Deny,
    AllowOnce,
    AllowForOperation,
}

pub fn keyboard_decision(key: AuthorizationKey) -> (decision: ToolAuthorizationDecision)
    ensures
        decision@ == (match key {
            AuthorizationKey::Deny => DecisionView::Deny {
                reason: Some("denied from native desktop keyboard action"@),
            },
            AuthorizationKey::AllowOnce => DecisionView::AllowOnce,
            AuthorizationKey::AllowForOperation => DecisionView::AllowForOperation,
        }),
        decision@ == decided_by(key),
{
    match key {
        AuthorizationKey::Deny => ToolAuthorizationDecision::Deny {
            reason: Some("denied from native desktop keyboard action".to_owned()),
        },
        AuthorizationKey::AllowOnce => ToolAuthorizationDecision::AllowOnce,
        AuthorizationKey::AllowForOperation => ToolAuthorizationDecision::AllowForOperation,
    }
}

/// How the center goes to a target.
#[derive(Debug, PartialEq, Eq)]
pub enum NavigationStep {
    ShowHome,
    ShowSkills,
    /// The session is there already: only the list is refreshed.
    StayInSession,
    OpenSession(String),
}

/// What the center shows after a navigation.
pub fn surface_after(step: &NavigationStep) -> (surface: CenterSurface)
    ensures
        surface == (if step is ShowSkills {
            CenterSurface::Skills
        } else {
            CenterSurface::Primary
        }),
        surface == surface_of(*step),
{
    match step {
        NavigationStep::ShowSkills => CenterSurface::Skills,
        _ => CenterSurface::Primary,
    }
}

/// Decides how the center goes to a target.
pub fn navigate_center(target: CenterNavigationTarget, active_session_id: &Option<String>) -> (step:
    NavigationStep)
    ensures
        match target {
            CenterNavigationTarget::NewConversation => step is ShowHome,
            CenterNavigationTarget::Skills => step is ShowSkills,
            CenterNavigationTarget::Session(session_id) => if *active_session_id is Some
                && active_session_id->0@ == session_id@ {
                step is StayInSession
            } else {
                step == NavigationStep::OpenSession(session_id)
            },
        },
        step == navigated(target, *active_session_id),
{
    match target {
        CenterNavigationTarget::NewConversation => NavigationStep::ShowHome,
        CenterNavigationTarget::Skills => NavigationStep::ShowSkills,
        CenterNavigationTarget::Session(session_id) => {
            let active = match active_session_id {
                Some(active) => same_text(active.as_str(), session_id.as_str()),
                None => false,
            };
            if active {
                NavigationStep::StayInSession
            } else {
                NavigationStep::OpenSession(session_id)
            }
        },
    }
}

/// What showing home refreshes, one region after the other.
pub open spec fn home_refresh() -> Seq<UiRegion> {
    seq![
        UiRegion::Sessions,
        UiRegion::Composer,
        UiRegion::Conversation,
        UiRegion::ConversationHeader,
        UiRegion::Inspector,
        UiRegion::Modal,
    ]
}

pub fn show_home_workspace() -> (refresh: Vec<UiRegion>)
    ensures
        refresh@ == home_refresh(),
{
    let refresh: Vec<UiRegion> = vec![
        UiRegion::Sessions,
        UiRegion::Composer,
        UiRegion::Conversation,
        UiRegion::ConversationHeader,
        UiRegion::Inspector,
        UiRegion::Modal,
    ];
    assert(refresh@ =~= home_refresh());
    refresh
}

/// How a conversation for a project begins.
#[derive(Debug, PartialEq, Eq)]
pub enum ProjectHomeStep {
    Ignore,
    Refuse(CommandReply),
    /// Selects the project and shows home.
    Show(String),
}

/// Decides how a conversation for a project begins. Home must be there, and its
/// project must still be open to change.
pub fn show_project_home_workspace(path: String, home_exists: bool, editable: bool) -> (step:
    ProjectHomeStep)
    ensures
        !home_exists ==> step is Ignore,
        home_exists && !editable ==> step is Refuse && step->Refuse_0@ == refusal(
            "The new conversation is still being prepared; try again when it is idle."@,
            seq![UiRegion::Toast],
            true,
        ),
        home_exists && editable ==> step == ProjectHomeStep::Show(path),
{
    if !home_exists {
        return ProjectHomeStep::Ignore;
    }
    if !editable {
        let refresh: Vec<UiRegion> = vec![UiRegion::Toast];
        assert(refresh@ =~= seq![UiRegion::Toast]);
        return ProjectHomeStep::Refuse(
            refuse(
                "The new conversation is still being prepared; try again when it is idle.".to_owned(),
                refresh,
                true,
            ),
        );
    }
    ProjectHomeStep::Show(path)
}

/// A panel beside the center.
#[derive(Debug, Clone, Copy, PartialEq, Eq, Structural)]
pub enum SidePanel {
    Sessions,
    Inspector,
}

/// What toggling a panel does.
#[derive(Debug, Clone, Copy, PartialEq, Eq, Structural)]
pub enum PanelToggle {
    DismissDrawer,
    ActivateDrawer(SidePanel),
    /// The panel is docked, with that visibility from now on.
    Dock { visible: bool },
}

/// Decides what toggling a panel does: where there is no room for it, it is a
/// drawer.
pub fn toggle_panel(
    panel: SidePanel,
    dockable: bool,
    visible: bool,
    open_drawer: Option<SidePanel>,
) -> (toggle: PanelToggle)
    ensures
        toggle == (if !dockable {
            if open_drawer == Some(panel) {
                PanelToggle::DismissDrawer
            } else {
                PanelToggle::ActivateDrawer(panel)
            }
        } else {
            PanelToggle::Dock { visible: !visible }
        }),
        toggle == toggled(panel, dockable, visible, open_drawer),
{
    if dockable {
        return PanelToggle::Dock { visible: !visible };
    }
    let open = match open_drawer {
        Some(open) => open == panel,
        None => false,
    };
    if open {
        PanelToggle::DismissDrawer
    } else {
        PanelToggle::ActivateDrawer(panel)
    }
}

/// What a docked panel refreshes once it was toggled, one region after the
/// other.
pub fn panel_refresh(panel: SidePanel) -> (refresh: Vec<UiRegion>)
    ensures
        refresh@ == (match panel {
            SidePanel::Sessions => seq![UiRegion::Inspector, UiRegion::ConversationHeader],
            SidePanel::Inspector => seq![UiRegion::ConversationHeader],
        }),
        refresh@ == toggled_refresh(panel),
{
    match panel {
        SidePanel::Sessions => {
            let refresh: Vec<UiRegion> = vec![UiRegion::Inspector, UiRegion::ConversationHeader];
            assert(refresh@ =~= seq![UiRegion::Inspector, UiRegion::ConversationHeader]);
            refresh
        },
        SidePanel::Inspector => {
            let refresh: Vec<UiRegion> = vec![UiRegion::ConversationHeader];
            assert(refresh@ =~= seq![UiRegion::ConversationHeader]);
            refresh
        },
    }
}

/// The workspace that the center shows.
#[derive(Debug, Clone, Copy, PartialEq, Eq, Structural)]
pub enum CenterView {
    Skills,
    Conversation,
    Home,
}

/// Decides what the center shows, and how it is called.
pub fn center_view(surface: CenterSurface, session_open: bool) -> (view: (CenterView, &'static str))
    ensures
        view.0 == (if surface is Skills {
            CenterView::Skills
        } else if session_open {
            CenterView::Conversation
        } else {
            CenterView::Home
        }),
        view.1@ == (match view.0 {
            CenterView::Skills => "Skills workspace"@,
            CenterView::Conversation => "Conversation workspace"@,
            CenterView::Home => "Home workspace"@,
        }),
        view.0 == shown_in_center(surface, session_open).0,
        view.1@ == shown_in_center(surface, session_open).1,
{
    match surface {
        CenterSurface::Skills => (CenterView::Skills, "Skills workspace"),
        CenterSurface::Primary => if session_open {
            (CenterView::Conversation, "Conversation workspace")
        } else {
            (CenterView::Home, "Home workspace")
        },
    }
}

/// What a short list of calls holds stands at one of its first places.
proof fn lemma_among_first(calls: Seq<ShellCall>, call: ShellCall)
    requires
        calls.len() <= 7,
    ensures
        calls.contains(call) <==> {
            ||| calls.len() > 0 && calls[0] == call
            ||| calls.len() > 1 && calls[1] == call
            ||| calls.len() > 2 && calls[2] == call
            ||| calls.len() > 3 && calls[3] == call
            ||| calls.len() > 4 && calls[4] == call
            ||| calls.len() > 5 && calls[5] == call
            ||| calls.len() > 6 && calls[6] == call
        },
{
}

/// A proposal is merged exactly where the user asked to merge it, and discarded
/// exactly where the user asked to discard it; nothing else decides a proposal.
pub proof fn law_proposals_are_decided_as_asked(
    intent: UiIntent,
    facts: ShellFacts,
    worktree_id: String,
)
    ensures
        dispatched(intent, facts).contains(ShellCall::DecideProposal { worktree_id, merge: true }) <==> (intent == UiIntent::MergeProposal(worktree_id)),
        dispatched(intent, facts).contains(ShellCall::DecideProposal { worktree_id, merge: false }) <==> (intent == UiIntent::DiscardProposal(worktree_id)),
        dispatched(intent, facts).contains(ShellCall::RefreshProposals) <==> (intent == UiIntent::RefreshMergeProposals),
        dispatched(UiIntent::MergeProposal(worktree_id), facts) == seq![ShellCall::DecideProposal { worktree_id, merge: true }],
        dispatched(UiIntent::DiscardProposal(worktree_id), facts) == seq![ShellCall::DecideProposal { worktree_id, merge: false }],
{
    lemma_among_first(dispatched(intent, facts), ShellCall::DecideProposal { worktree_id, merge: true });
    lemma_among_first(dispatched(intent, facts), ShellCall::DecideProposal { worktree_id, merge: false });
    lemma_among_first(dispatched(intent, facts), ShellCall::RefreshProposals);
}

/// A request for authorization gets exactly the answer that the user gave to it, and
/// no other intent answers one.
pub proof fn law_authorizations_are_answered_as_asked(
    intent: UiIntent,
    facts: ShellFacts,
    request: AuthorizationIdentity,
    decision: ToolAuthorizationDecision,
)
    ensures
        dispatched(intent, facts).contains(ShellCall::DecideAuthorization { request, decision }) <==> (intent == (UiIntent::DecideAuthorization { request, decision })),
        dispatched(UiIntent::DecideAuthorization { request, decision }, facts) == seq![ShellCall::DecideAuthorization { request, decision }],
{
    lemma_among_first(dispatched(intent, facts), ShellCall::DecideAuthorization { request, decision });
}

/// A recovery is acted on exactly as the user asked: the named one by its buttons,
/// the latest one by the palette, where each command has its own action.
pub proof fn law_recoveries_act_as_asked(
    intent: UiIntent,
    facts: ShellFacts,
    identity: RecoveryIdentity,
    action: DesktopRecoveryAction,
)
    ensures
        dispatched(intent, facts).contains(ShellCall::Recover { identity, action }) <==> (intent == (UiIntent::Recovery { identity, action })),
        dispatched(intent, facts).contains(ShellCall::RecoverLatest(DesktopRecoveryAction::Retry)) <==> (intent == UiIntent::ExecutePalette(DesktopPaletteCommand::RetryRecovery)),
        dispatched(intent, facts).contains(ShellCall::RecoverLatest(DesktopRecoveryAction::MarkFailed)) <==> (intent == UiIntent::ExecutePalette(DesktopPaletteCommand::MarkRecoveryFailed)),
        dispatched(intent, facts).contains(ShellCall::RecoverLatest(DesktopRecoveryAction::Abort)) <==> (intent == UiIntent::ExecutePalette(DesktopPaletteCommand::AbortRecovery)),
        dispatched(UiIntent::Recovery { identity, action }, facts) == seq![ShellCall::Recover { identity, action }],
{
    lemma_among_first(dispatched(intent, facts), ShellCall::Recover { identity, action });
    lemma_among_first(dispatched(intent, facts), ShellCall::RecoverLatest(DesktopRecoveryAction::Retry));
    lemma_among_first(dispatched(intent, facts), ShellCall::RecoverLatest(DesktopRecoveryAction::MarkFailed));
    lemma_among_first(dispatched(intent, facts), ShellCall::RecoverLatest(DesktopRecoveryAction::Abort));
}

/// A session is renamed, closed or asked about exactly where the user named it, with
/// the name that the user gave; a group opens or closes as asked.
pub proof fn law_sessions_are_changed_as_asked(
    intent: UiIntent,
    facts: ShellFacts,
    session_id: String,
    name: String,
    collapsed: bool,
)
    ensures
        dispatched(intent, facts).contains(ShellCall::RenameSession { session_id, name }) <==> (intent == (UiIntent::RenameSession { session_id, name })),
        dispatched(intent, facts).contains(ShellCall::CloseSession(session_id)) <==> (intent == UiIntent::CloseSession(session_id)),
        dispatched(intent, facts).contains(ShellCall::AskToDelete(session_id)) <==> (intent == UiIntent::DeleteSession(session_id)),
        dispatched(intent, facts).contains(ShellCall::SetGroupCollapsed { group_id: session_id, collapsed }) <==> (intent == (UiIntent::SetProjectCollapsed { group_id: session_id, collapsed })),
        dispatched(UiIntent::RenameSession { session_id, name }, facts) == seq![ShellCall::RenameSession { session_id, name }],
        dispatched(UiIntent::CloseSession(session_id), facts) == seq![ShellCall::CloseSession(session_id)],
        dispatched(UiIntent::SetProjectCollapsed { group_id: session_id, collapsed }, facts) == seq![ShellCall::SetGroupCollapsed { group_id: session_id, collapsed }],
        dispatched(UiIntent::DeleteSession(session_id), facts) == seq![ShellCall::AskToDelete(session_id), ShellCall::ActivateModal(DesktopModalKind::ConfirmDeleteSession)],
{
    lemma_among_first(dispatched(intent, facts), ShellCall::RenameSession { session_id, name });
    lemma_among_first(dispatched(intent, facts), ShellCall::CloseSession(session_id));
    lemma_among_first(dispatched(intent, facts), ShellCall::AskToDelete(session_id));
    lemma_among_first(dispatched(intent, facts), ShellCall::SetGroupCollapsed { group_id: session_id, collapsed });
}

/// A session is deleted exactly where its deletion is pending and confirmed. The
/// question goes away whether it is confirmed or cancelled, and not otherwise.
pub proof fn law_confirmed_sessions_are_deleted(
    intent: UiIntent,
    facts: ShellFacts,
    session_id: String,
)
    ensures
        dispatched(intent, facts).contains(ShellCall::DeleteSession(session_id)) <==> (intent is ConfirmDeleteSession && facts.pending_deletion == Some(session_id)),
        dispatched(intent, facts).contains(ShellCall::ForgetDeletion) <==> (intent is ConfirmDeleteSession || intent is CancelDeleteSession),
{
    lemma_among_first(dispatched(intent, facts), ShellCall::DeleteSession(session_id));
    lemma_among_first(dispatched(intent, facts), ShellCall::ForgetDeletion);
}

/// A model, a profile or a level of thinking is selected exactly where the user
/// chose it from the menu of its kind; the palette goes to the next one.
pub proof fn law_selections_are_of_what_was_chosen(
    intent: UiIntent,
    facts: ShellFacts,
    id: String,
    level: DesktopThinkingLevel,
)
    ensures
        dispatched(intent, facts).contains(ShellCall::SubmitSelection { selection: DesktopRuntimeSelectionKind::Model, id }) <==> (intent == UiIntent::SelectModel(id)),
        dispatched(intent, facts).contains(ShellCall::SubmitSelection { selection: DesktopRuntimeSelectionKind::SessionProfile, id }) <==> (intent == UiIntent::SelectSessionProfile(id)),
        dispatched(intent, facts).contains(ShellCall::SelectThinking(level)) <==> (intent == UiIntent::SelectThinking(level)),
        dispatched(intent, facts).contains(ShellCall::SelectNextModel) <==> (intent == UiIntent::ExecutePalette(DesktopPaletteCommand::SelectNextModel)),
        dispatched(intent, facts).contains(ShellCall::SelectNextProfile) <==> (intent == UiIntent::ExecutePalette(DesktopPaletteCommand::SelectNextProfile)),
        dispatched(intent, facts).contains(ShellCall::CycleThinking) <==> (intent == UiIntent::ExecutePalette(DesktopPaletteCommand::CycleThinking)),
{
    lemma_among_first(dispatched(intent, facts), ShellCall::SubmitSelection { selection: DesktopRuntimeSelectionKind::Model, id });
    lemma_among_first(dispatched(intent, facts), ShellCall::SubmitSelection { selection: DesktopRuntimeSelectionKind::SessionProfile, id });
    lemma_among_first(dispatched(intent, facts), ShellCall::SelectThinking(level));
    lemma_among_first(dispatched(intent, facts), ShellCall::SelectNextModel);
    lemma_among_first(dispatched(intent, facts), ShellCall::SelectNextProfile);
    lemma_among_first(dispatched(intent, facts), ShellCall::CycleThinking);
}

/// The draft is edited to what was typed, and goes exactly where the user sends or
/// inserts it. Inserting waits for modals; sending does not. The palette sends it,
/// steers with it or queues it.
pub proof fn law_drafts_go_as_asked(
    intent: UiIntent,
    facts: ShellFacts,
    value: String,
)
    ensures
        dispatched(intent, facts).contains(ShellCall::EditDraft(value)) <==> (intent == UiIntent::ComposerInputChanged(value)),
        dispatched(intent, facts).contains(ShellCall::SendComposer) <==> (intent is SendComposer || intent == UiIntent::ExecutePalette(DesktopPaletteCommand::SubmitPrompt)),
        dispatched(intent, facts).contains(ShellCall::InsertComposer) <==> (intent is InsertComposer && !facts.modal_blocks),
        dispatched(intent, facts).contains(ShellCall::SubmitControl(ComposerSubmissionKind::Steer)) <==> (intent == UiIntent::ExecutePalette(DesktopPaletteCommand::SteerOperation)),
        dispatched(intent, facts).contains(ShellCall::SubmitControl(ComposerSubmissionKind::FollowUp)) <==> (intent == UiIntent::ExecutePalette(DesktopPaletteCommand::FollowUpOperation)),
        dispatched(UiIntent::SendComposer, facts) == seq![ShellCall::SendComposer],
        dispatched(UiIntent::ComposerInputChanged(value), facts) == seq![ShellCall::EditDraft(value), ShellCall::Refresh(UiRegion::Composer)],
{
    lemma_among_first(dispatched(intent, facts), ShellCall::EditDraft(value));
    lemma_among_first(dispatched(intent, facts), ShellCall::SendComposer);
    lemma_among_first(dispatched(intent, facts), ShellCall::InsertComposer);
    lemma_among_first(dispatched(intent, facts), ShellCall::SubmitControl(ComposerSubmissionKind::Steer));
    lemma_among_first(dispatched(intent, facts), ShellCall::SubmitControl(ComposerSubmissionKind::FollowUp));
}

/// Attachments are picked, or the one at the named place taken away, and the project
/// directory chosen or cleared, exactly where the user asked for it.
pub proof fn law_composer_extras_are_as_asked(
    intent: UiIntent,
    facts: ShellFacts,
    index: usize,
)
    ensures
        dispatched(intent, facts).contains(ShellCall::ChooseAttachments) <==> (intent is AddAttachments),
        dispatched(intent, facts).contains(ShellCall::RemoveAttachment(index)) <==> (intent == UiIntent::RemoveAttachment(index)),
        dispatched(intent, facts).contains(ShellCall::ChooseProjectDirectory) <==> (intent is ChooseProjectDirectory),
        dispatched(intent, facts).contains(ShellCall::ClearProjectDirectory) <==> (intent is ClearProjectDirectory),
{
    lemma_among_first(dispatched(intent, facts), ShellCall::ChooseAttachments);
    lemma_among_first(dispatched(intent, facts), ShellCall::RemoveAttachment(index));
    lemma_among_first(dispatched(intent, facts), ShellCall::ChooseProjectDirectory);
    lemma_among_first(dispatched(intent, facts), ShellCall::ClearProjectDirectory);
}

/// The operation is aborted, the resources loaded again, a session created or the
/// next one opened exactly where the user asked for it.
pub proof fn law_runtime_controls_are_as_asked(
    intent: UiIntent,
    facts: ShellFacts,
)
    ensures
        dispatched(intent, facts).contains(ShellCall::Abort) <==> (intent is Abort || intent == UiIntent::ExecutePalette(DesktopPaletteCommand::AbortOperation)),
        dispatched(intent, facts).contains(ShellCall::Reload) <==> (intent is Reload || intent == UiIntent::ExecutePalette(DesktopPaletteCommand::ReloadResources)),
        dispatched(intent, facts).contains(ShellCall::CreateSession) <==> (intent == UiIntent::ExecutePalette(DesktopPaletteCommand::NewSession)),
        dispatched(intent, facts).contains(ShellCall::SwitchNextSession) <==> (intent == UiIntent::ExecutePalette(DesktopPaletteCommand::SwitchNextSession)),
        dispatched(UiIntent::Abort, facts) == seq![ShellCall::Abort],
        dispatched(UiIntent::Reload, facts) == seq![ShellCall::Reload],
{
    lemma_among_first(dispatched(intent, facts), ShellCall::Abort);
    lemma_among_first(dispatched(intent, facts), ShellCall::Reload);
    lemma_among_first(dispatched(intent, facts), ShellCall::CreateSession);
    lemma_among_first(dispatched(intent, facts), ShellCall::SwitchNextSession);
}

/// A row is selected, opened, unfolded or measured exactly where the user acted on
/// it; one is selected only in an open session.
pub proof fn law_rows_are_acted_on_as_asked(
    intent: UiIntent,
    facts: ShellFacts,
    block_id: String,
    durable: bool,
    measurement: RowMeasurement,
)
    ensures
        dispatched(intent, facts).contains(ShellCall::SelectRow { block_id, durable }) <==> (facts.session_open && intent == (UiIntent::SelectConversation { block_id, durable })),
        dispatched(intent, facts).contains(ShellCall::ToggleDetails(block_id)) <==> (intent == UiIntent::ToggleConversationDetails(block_id)),
        dispatched(intent, facts).contains(ShellCall::OpenFullMessage(block_id)) <==> (intent == UiIntent::OpenFullConversation(block_id)),
        dispatched(intent, facts).contains(ShellCall::SubmitMeasurement(measurement)) <==> (intent == UiIntent::ConversationMeasured(measurement)),
        dispatched(intent, facts).contains(ShellCall::ReconcileScrollLater) <==> (intent is ConversationScrolled),
        dispatched(intent, facts).contains(ShellCall::FollowLatest) <==> (intent is FollowLatest || intent == UiIntent::ExecutePalette(DesktopPaletteCommand::FollowLatest)),
{
    lemma_among_first(dispatched(intent, facts), ShellCall::SelectRow { block_id, durable });
    lemma_among_first(dispatched(intent, facts), ShellCall::ToggleDetails(block_id));
    lemma_among_first(dispatched(intent, facts), ShellCall::OpenFullMessage(block_id));
    lemma_among_first(dispatched(intent, facts), ShellCall::SubmitMeasurement(measurement));
    lemma_among_first(dispatched(intent, facts), ShellCall::ReconcileScrollLater);
    lemma_among_first(dispatched(intent, facts), ShellCall::FollowLatest);
}

/// What is copied is what the user asked for: the row, the details of the tool, the
/// message in full, the path or the text of the review, or the selection.
pub proof fn law_copies_are_of_what_was_asked(
    intent: UiIntent,
    facts: ShellFacts,
    block_id: String,
)
    ensures
        dispatched(intent, facts).contains(ShellCall::CopyRow(block_id)) <==> (intent == UiIntent::CopyConversation(block_id)),
        dispatched(intent, facts).contains(ShellCall::CopyToolDetails(block_id)) <==> (intent == UiIntent::CopyToolDetails(block_id)),
        dispatched(intent, facts).contains(ShellCall::AnnounceCopy("Code copied.")) <==> (intent is CopyCodeCompleted),
        dispatched(intent, facts).contains(ShellCall::CopyFullMessage) <==> (intent is CopyFullMessage && facts.full_message_open),
        dispatched(intent, facts).contains(ShellCall::CopyReviewPath) <==> (intent is CopyReviewPath || intent == UiIntent::ExecutePalette(DesktopPaletteCommand::CopyReviewPath)),
        dispatched(intent, facts).contains(ShellCall::CopyFileReview) <==> (intent is CopyFileReview || intent == UiIntent::ExecutePalette(DesktopPaletteCommand::CopyFileReview)),
        dispatched(intent, facts).contains(ShellCall::CopySelection) <==> (intent == UiIntent::ExecutePalette(DesktopPaletteCommand::CopyConversation)),
{
    lemma_among_first(dispatched(intent, facts), ShellCall::CopyRow(block_id));
    lemma_among_first(dispatched(intent, facts), ShellCall::CopyToolDetails(block_id));
    lemma_among_first(dispatched(intent, facts), ShellCall::AnnounceCopy("Code copied."));
    lemma_among_first(dispatched(intent, facts), ShellCall::CopyFullMessage);
    lemma_among_first(dispatched(intent, facts), ShellCall::CopyReviewPath);
    lemma_among_first(dispatched(intent, facts), ShellCall::CopyFileReview);
    lemma_among_first(dispatched(intent, facts), ShellCall::CopySelection);
}

/// A review is of the change that the user asked for; the editor opens, and the
/// section of the inspector changes, exactly as asked.
pub proof fn law_reviews_are_of_what_was_asked(
    intent: UiIntent,
    facts: ShellFacts,
    request: FileReviewRequest,
    section: InspectorSection,
)
    ensures
        dispatched(intent, facts).contains(ShellCall::RequestFileReview(request)) <==> (intent == UiIntent::RequestFileReview(request)),
        dispatched(intent, facts).contains(ShellCall::OpenExternalEditor) <==> (intent is OpenExternalEditor || intent == UiIntent::ExecutePalette(DesktopPaletteCommand::OpenExternalEditor)),
        dispatched(intent, facts).contains(ShellCall::ReviewNextFile) <==> (intent == UiIntent::ExecutePalette(DesktopPaletteCommand::ReviewNextFile)),
        dispatched(intent, facts).contains(ShellCall::SelectInspectorSection(section)) <==> (intent == UiIntent::SelectInspectorSection(section)),
{
    lemma_among_first(dispatched(intent, facts), ShellCall::RequestFileReview(request));
    lemma_among_first(dispatched(intent, facts), ShellCall::OpenExternalEditor);
    lemma_among_first(dispatched(intent, facts), ShellCall::ReviewNextFile);
    lemma_among_first(dispatched(intent, facts), ShellCall::SelectInspectorSection(section));
}

/// The center goes where the user asked: to the target, to the session found by a
/// search, or to the home of a project.
pub proof fn law_navigation_goes_where_asked(
    intent: UiIntent,
    facts: ShellFacts,
    target: CenterNavigationTarget,
    path: String,
)
    ensures
        dispatched(intent, facts).contains(ShellCall::Navigate(target)) <==> (intent == UiIntent::Navigate(target) || (intent matches UiIntent::NavigateSearch(session_id) && target == CenterNavigationTarget::Session(session_id))),
        dispatched(intent, facts).contains(ShellCall::ShowProjectHome(path)) <==> (intent == UiIntent::NewConversationForProject(path)),
        dispatched(UiIntent::Navigate(target), facts) == seq![ShellCall::Navigate(target)],
        dispatched(UiIntent::NavigateSearch(path), facts) == seq![ShellCall::DismissModal, ShellCall::Navigate(CenterNavigationTarget::Session(path))],
{
    lemma_among_first(dispatched(intent, facts), ShellCall::Navigate(target));
    lemma_among_first(dispatched(intent, facts), ShellCall::ShowProjectHome(path));
}

/// A modal opens only to search or to ask about a deletion, and one goes away only
/// where it is answered, left or has done its work. Searching loads the catalog where
/// it was never loaded.
pub proof fn law_modals_open_and_close_as_asked(
    intent: UiIntent,
    facts: ShellFacts,
    kind: DesktopModalKind,
)
    ensures
        dispatched(intent, facts).contains(ShellCall::ActivateModal(kind)) <==> ((intent is OpenSearch && kind is Search) || (intent is DeleteSession && kind is ConfirmDeleteSession)),
        dispatched(intent, facts).contains(ShellCall::OpenSearchField) <==> (intent is OpenSearch),
        dispatched(intent, facts).contains(ShellCall::RequestCatalog) <==> (intent is RefreshSessions || (intent is OpenSearch && facts.catalog_not_loaded)),
        dispatched(intent, facts).contains(ShellCall::DismissModal) <==> (intent is ConfirmDeleteSession || intent is CancelDeleteSession || intent is NavigateSearch || intent is CloseSearch || intent is ExecutePalette),
        dispatched(intent, facts).contains(ShellCall::CloseFullMessage) <==> (intent is CloseFullMessage),
        dispatched(intent, facts).contains(ShellCall::ClosePalette) <==> (intent is ExecutePalette),
{
    lemma_among_first(dispatched(intent, facts), ShellCall::ActivateModal(kind));
    lemma_among_first(dispatched(intent, facts), ShellCall::OpenSearchField);
    lemma_among_first(dispatched(intent, facts), ShellCall::RequestCatalog);
    lemma_among_first(dispatched(intent, facts), ShellCall::DismissModal);
    lemma_among_first(dispatched(intent, facts), ShellCall::CloseFullMessage);
    lemma_among_first(dispatched(intent, facts), ShellCall::ClosePalette);
}

/// Panels, drawers and the focus move exactly as asked.
pub proof fn law_panels_and_focus_are_as_asked(
    intent: UiIntent,
    facts: ShellFacts,
)
    ensures
        dispatched(intent, facts).contains(ShellCall::ToggleSessions) <==> (intent is ToggleSessions || intent == UiIntent::ExecutePalette(DesktopPaletteCommand::ToggleSessions)),
        dispatched(intent, facts).contains(ShellCall::ToggleInspector) <==> (intent is ToggleInspector || intent == UiIntent::ExecutePalette(DesktopPaletteCommand::ToggleContext)),
        dispatched(intent, facts).contains(ShellCall::DismissDrawer) <==> (intent is DismissDrawer),
        dispatched(intent, facts).contains(ShellCall::RecordFocus(FocusTarget::Composer)) <==> (intent is ComposerFocused),
        dispatched(intent, facts).contains(ShellCall::RecordFocus(FocusTarget::CenterBody)) <==> (intent is SelectConversation),
        dispatched(intent, facts).contains(ShellCall::Focus(FocusTarget::Sidebar)) <==> (intent == UiIntent::ExecutePalette(DesktopPaletteCommand::FocusSessions)),
        dispatched(intent, facts).contains(ShellCall::Focus(FocusTarget::CenterBody)) <==> (intent == UiIntent::ExecutePalette(DesktopPaletteCommand::FocusConversation)),
        dispatched(intent, facts).contains(ShellCall::Focus(FocusTarget::Composer)) <==> (intent == UiIntent::ExecutePalette(DesktopPaletteCommand::FocusComposer)),
        dispatched(intent, facts).contains(ShellCall::Focus(FocusTarget::Inspector)) <==> (intent == UiIntent::ExecutePalette(DesktopPaletteCommand::FocusContext)),
{
    lemma_among_first(dispatched(intent, facts), ShellCall::ToggleSessions);
    lemma_among_first(dispatched(intent, facts), ShellCall::ToggleInspector);
    lemma_among_first(dispatched(intent, facts), ShellCall::DismissDrawer);
    lemma_among_first(dispatched(intent, facts), ShellCall::RecordFocus(FocusTarget::Composer));
    lemma_among_first(dispatched(intent, facts), ShellCall::RecordFocus(FocusTarget::CenterBody));
    lemma_among_first(dispatched(intent, facts), ShellCall::Focus(FocusTarget::Sidebar));
    lemma_among_first(dispatched(intent, facts), ShellCall::Focus(FocusTarget::CenterBody));
    lemma_among_first(dispatched(intent, facts), ShellCall::Focus(FocusTarget::Composer));
    lemma_among_first(dispatched(intent, facts), ShellCall::Focus(FocusTarget::Inspector));
}

/// Motion is toggled only by its command. The change is stored and the notice tells
/// what is in force from then on.
pub proof fn law_motion_is_toggled_as_asked(
    intent: UiIntent,
    facts: ShellFacts,
)
    ensures
        dispatched(intent, facts).contains(ShellCall::ToggleReducedMotion) <==> (intent == UiIntent::ExecutePalette(DesktopPaletteCommand::ToggleReducedMotion)),
        dispatched(intent, facts).contains(ShellCall::StorePreferences) <==> (intent == UiIntent::ExecutePalette(DesktopPaletteCommand::ToggleReducedMotion)),
        dispatched(intent, facts).contains(ShellCall::SetNotice("Reduced motion enabled; desktop transitions remain static.")) <==> (intent == UiIntent::ExecutePalette(DesktopPaletteCommand::ToggleReducedMotion) && !facts.reduced_motion),
        dispatched(intent, facts).contains(ShellCall::SetNotice("Reduced motion disabled; idle presentation remains static.")) <==> (intent == UiIntent::ExecutePalette(DesktopPaletteCommand::ToggleReducedMotion) && facts.reduced_motion),
{
    lemma_among_first(dispatched(intent, facts), ShellCall::ToggleReducedMotion);
    lemma_among_first(dispatched(intent, facts), ShellCall::StorePreferences);
    lemma_among_first(dispatched(intent, facts), ShellCall::SetNotice("Reduced motion enabled; desktop transitions remain static."));
    lemma_among_first(dispatched(intent, facts), ShellCall::SetNotice("Reduced motion disabled; idle presentation remains static."));
}

/// Nothing goes beyond what was asked: most intents lead to one call, none to more
/// than four, and those that the composer routes by itself to none.
pub proof fn law_intents_lead_to_no_more_than_asked(intent: UiIntent, facts: ShellFacts)
    ensures
        intent is SubmitPrimary || intent is Submit || intent is SubmitRunning
            || intent is SetRunningMode ==> dispatched(intent, facts).len() == 0,
        intent is SelectModel || intent is SelectSessionProfile || intent is SelectThinking
            || intent is AddAttachments || intent is RemoveAttachment
            || intent is ChooseProjectDirectory || intent is ClearProjectDirectory
            || intent is ConversationScrolled || intent is CopyConversation
            || intent is CopyToolDetails || intent is CopyCodeCompleted
            || intent is ToggleConversationDetails || intent is OpenFullConversation
            || intent is ConversationMeasured || intent is FollowLatest
            || intent is RequestFileReview || intent is CopyReviewPath || intent is CopyFileReview
            || intent is OpenExternalEditor || intent is RefreshMergeProposals
            || intent is DismissDrawer || intent is ToggleSessions || intent is ToggleInspector
            || intent is CloseSearch || intent is CloseFullMessage || intent is RefreshSessions
            || intent is NewConversationForProject || intent is ComposerFocused ==> dispatched(
            intent,
            facts,
        ).len() == 1,
        intent is InsertComposer ==> dispatched(intent, facts).len() <= 1,
        intent is CopyFullMessage ==> dispatched(intent, facts).len() <= 1,
        intent is SelectInspectorSection || intent is CancelDeleteSession ==> dispatched(
            intent,
            facts,
        ).len() == 2,
        intent is SelectConversation ==> dispatched(intent, facts).len() == (if facts.session_open {
            4nat
        } else {
            1
        }),
        intent is OpenSearch ==> dispatched(intent, facts).len() == (if facts.catalog_not_loaded {
            3nat
        } else {
            2
        }),
        intent is ConfirmDeleteSession ==> dispatched(intent, facts).len() == (
        if facts.pending_deletion is Some {
            3nat
        } else {
            2
        }),
{
}

/// What has changed is shown: a row that was selected in the conversation and its
/// header, a section in the inspector, and each after the change itself.
pub proof fn law_changes_are_shown_after_they_are_made(
    facts: ShellFacts,
    block_id: String,
    durable: bool,
    section: InspectorSection,
)
    ensures
        ({
            let calls = dispatched(UiIntent::SelectConversation { block_id, durable }, facts);
            facts.session_open ==> calls[0] == ShellCall::RecordFocus(FocusTarget::CenterBody)
                && calls[1] == (ShellCall::SelectRow { block_id, durable }) && calls[2]
                == ShellCall::Refresh(UiRegion::Conversation) && calls[3] == ShellCall::Refresh(
                UiRegion::ConversationHeader,
            )
        }),
        ({
            let calls = dispatched(UiIntent::SelectInspectorSection(section), facts);
            calls[0] == ShellCall::SelectInspectorSection(section) && calls[1]
                == ShellCall::Refresh(UiRegion::Inspector)
        }),
        ({
            let calls = dispatched(UiIntent::ConfirmDeleteSession, facts);
            calls[0] is ForgetDeletion && calls[1] is DismissModal && (
            facts.pending_deletion is Some ==> calls[2] is DeleteSession)
        }),
{
}

/// Every palette command has a call of its own: no two lead to the same one, and
/// a click leads to no more than that, once the palette and its modal are gone.
pub proof fn law_palette_commands_differ(
    first: DesktopPaletteCommand,
    second: DesktopPaletteCommand,
    facts: ShellFacts,
)
    ensures
        palette_call(first) == palette_call(second) ==> first == second,
        !(first is ToggleReducedMotion) ==> dispatched(UiIntent::ExecutePalette(first), facts)
            == seq![ShellCall::ClosePalette, ShellCall::DismissModal, palette_call(first)],
        first is ToggleReducedMotion ==> dispatched(UiIntent::ExecutePalette(first), facts).len()
            == 7,
{
    assert(seq![ShellCall::ClosePalette, ShellCall::DismissModal] + seq![palette_call(first)]
        =~= seq![ShellCall::ClosePalette, ShellCall::DismissModal, palette_call(first)]);
}

/// A modal holds every keyboard action back. Without one, each action does what its
/// name says, and no other action does the same.
pub proof fn law_keyboard_actions_do_what_they_say(action: RootAction, modal_blocks: bool)
    ensures
        modal_blocks ==> root_calls(action, modal_blocks).len() == 0,
        !modal_blocks ==> root_calls(action, modal_blocks).len() == (if action is OpenFileSurface {
            2nat
        } else {
            1
        }),
        root_calls(action, modal_blocks).contains(ShellCall::ReviewNextFile) <==> (!modal_blocks && action is OpenFileSurface),
        root_calls(action, modal_blocks).contains(ShellCall::Focus(FocusTarget::Inspector)) <==> (!modal_blocks && action is OpenFileSurface),
        root_calls(action, modal_blocks).contains(ShellCall::CreateSession) <==> (!modal_blocks && action is NewSession),
        root_calls(action, modal_blocks).contains(ShellCall::Focus(FocusTarget::Composer)) <==> (!modal_blocks && action is FocusComposer),
        root_calls(action, modal_blocks).contains(ShellCall::Abort) <==> (!modal_blocks && action is AbortActiveOperation),
        root_calls(action, modal_blocks).contains(ShellCall::FollowLatest) <==> (!modal_blocks && action is FollowLatestOutput),
        root_calls(action, modal_blocks).contains(ShellCall::ToggleInspector) <==> (!modal_blocks && action is ToggleInspectorPanel),
        root_calls(action, modal_blocks).contains(ShellCall::CycleFocus { backwards: false }) <==> (!modal_blocks && action is FocusNextRegion),
        root_calls(action, modal_blocks).contains(ShellCall::CycleFocus { backwards: true }) <==> (!modal_blocks && action is FocusPreviousRegion),
        root_calls(action, modal_blocks).contains(ShellCall::SelectAdjacentRow { upwards: true }) <==> (!modal_blocks && action is SelectPreviousConversation),
        root_calls(action, modal_blocks).contains(ShellCall::SelectAdjacentRow { upwards: false }) <==> (!modal_blocks && action is SelectNextConversation),
        root_calls(action, modal_blocks).contains(ShellCall::CopyKeyboardSelection) <==> (!modal_blocks && action is CopySelectedConversation),
        root_calls(action, modal_blocks).contains(ShellCall::ToggleKeyboardDetails) <==> (!modal_blocks && action is ToggleSelectedConversationDetails),
{
    lemma_among_first(root_calls(action, modal_blocks), ShellCall::ReviewNextFile);
    lemma_among_first(root_calls(action, modal_blocks), ShellCall::Focus(FocusTarget::Inspector));
    lemma_among_first(root_calls(action, modal_blocks), ShellCall::CreateSession);
    lemma_among_first(root_calls(action, modal_blocks), ShellCall::Focus(FocusTarget::Composer));
    lemma_among_first(root_calls(action, modal_blocks), ShellCall::Abort);
    lemma_among_first(root_calls(action, modal_blocks), ShellCall::FollowLatest);
    lemma_among_first(root_calls(action, modal_blocks), ShellCall::ToggleInspector);
    lemma_among_first(root_calls(action, modal_blocks), ShellCall::CycleFocus { backwards: false });
    lemma_among_first(root_calls(action, modal_blocks), ShellCall::CycleFocus { backwards: true });
    lemma_among_first(root_calls(action, modal_blocks), ShellCall::SelectAdjacentRow { upwards: true });
    lemma_among_first(root_calls(action, modal_blocks), ShellCall::SelectAdjacentRow { upwards: false });
    lemma_among_first(root_calls(action, modal_blocks), ShellCall::CopyKeyboardSelection);
    lemma_among_first(root_calls(action, modal_blocks), ShellCall::ToggleKeyboardDetails);
}

/// The answer of a key.
pub open spec fn decided_by(key: AuthorizationKey) -> DecisionView {
    match key {
        AuthorizationKey::Deny => DecisionView::Deny {
            reason: Some("denied from native desktop keyboard action"@),
        },
        AuthorizationKey::AllowOnce => DecisionView::AllowOnce,
        AuthorizationKey::AllowForOperation => DecisionView::AllowForOperation,
    }
}

/// How the center goes to a target from the active session.
pub open spec fn navigated(
    target: CenterNavigationTarget,
    active_session_id: Option<String>,
) -> NavigationStep {
    match target {
        CenterNavigationTarget::NewConversation => NavigationStep::ShowHome,
        CenterNavigationTarget::Skills => NavigationStep::ShowSkills,
        CenterNavigationTarget::Session(session_id) => if active_session_id is Some
            && active_session_id->0@ == session_id@ {
            NavigationStep::StayInSession
        } else {
            NavigationStep::OpenSession(session_id)
        },
    }
}

/// What the center shows after a step.
pub open spec fn surface_of(step: NavigationStep) -> CenterSurface {
    match step {
        NavigationStep::ShowSkills => CenterSurface::Skills,
        _ => CenterSurface::Primary,
    }
}

/// What toggling a panel does.
pub open spec fn toggled(
    panel: SidePanel,
    dockable: bool,
    visible: bool,
    open_drawer: Option<SidePanel>,
) -> PanelToggle {
    if dockable {
        PanelToggle::Dock { visible: !visible }
    } else if open_drawer == Some(panel) {
        PanelToggle::DismissDrawer
    } else {
        PanelToggle::ActivateDrawer(panel)
    }
}

/// What a docked panel refreshes once it was toggled.
pub open spec fn toggled_refresh(panel: SidePanel) -> Seq<UiRegion> {
    match panel {
        SidePanel::Sessions => seq![UiRegion::Inspector, UiRegion::ConversationHeader],
        SidePanel::Inspector => seq![UiRegion::ConversationHeader],
    }
}

/// What the center shows, and how it is called.
pub open spec fn shown_in_center(surface: CenterSurface, session_open: bool) -> (
    CenterView,
    Seq<char>,
) {
    if surface is Skills {
        (CenterView::Skills, "Skills workspace"@)
    } else if session_open {
        (CenterView::Conversation, "Conversation workspace"@)
    } else {
        (CenterView::Home, "Home workspace"@)
    }
}

/// A key answers as it is named: only that for denying denies, and says where it came
/// from; that for once allows once, and only that for the operation allows more.
pub proof fn law_keys_answer_as_named(key: AuthorizationKey)
    ensures
        decided_by(key) is Deny <==> key is Deny,
        decided_by(key) is AllowOnce <==> key is AllowOnce,
        decided_by(key) is AllowForOperation <==> key is AllowForOperation,
        decided_by(AuthorizationKey::Deny)->reason == Some(
            "denied from native desktop keyboard action"@,
        ),
{
}

/// The center opens the session that was asked for, unless it is there already; it
/// goes home for a new conversation and to the skills for these, and shows them only
/// then.
pub proof fn law_center_goes_to_its_target(
    target: CenterNavigationTarget,
    active_session_id: Option<String>,
    session_id: String,
)
    ensures
        navigated(target, active_session_id) == NavigationStep::OpenSession(session_id) <==> target
            == CenterNavigationTarget::Session(session_id) && !(active_session_id is Some
            && active_session_id->0@ == session_id@),
        navigated(target, active_session_id) is ShowHome <==> target is NewConversation,
        navigated(target, active_session_id) is ShowSkills <==> target is Skills,
        navigated(target, active_session_id) is StayInSession <==> (
        target matches CenterNavigationTarget::Session(wanted) && active_session_id is Some
            && active_session_id->0@ == wanted@),
        surface_of(navigated(target, active_session_id)) is Skills <==> target is Skills,
{
}

/// Toggling a panel twice brings it back: docked it hides and shows, and without room
/// its drawer opens and closes, in place of any other.
pub proof fn law_panels_toggle_back(panel: SidePanel, visible: bool, open_drawer: Option<SidePanel>)
    ensures
        toggled(panel, true, visible, open_drawer) == (PanelToggle::Dock { visible: !visible }),
        toggled(panel, true, !visible, open_drawer) == (PanelToggle::Dock { visible }),
        open_drawer != Some(panel) ==> toggled(panel, false, visible, open_drawer)
            == PanelToggle::ActivateDrawer(panel),
        toggled(panel, false, visible, Some(panel)) is DismissDrawer,
        toggled_refresh(SidePanel::Sessions) == seq![
            UiRegion::Inspector,
            UiRegion::ConversationHeader,
        ],
        toggled_refresh(SidePanel::Inspector) == seq![UiRegion::ConversationHeader],
{
}

/// The center shows the skills where they were asked for, else the open session, and
/// home where none is open; it is called by what it shows.
pub proof fn law_center_shows_the_open_session(surface: CenterSurface, session_open: bool)
    ensures
        shown_in_center(surface, session_open).0 is Skills <==> surface is Skills,
        shown_in_center(surface, session_open).0 is Conversation <==> surface is Primary
            && session_open,
        shown_in_center(surface, session_open).0 is Home <==> surface is Primary && !session_open,
        shown_in_center(surface, session_open).1 == (match shown_in_center(
            surface,
            session_open,
        ).0 {
            CenterView::Skills => "Skills workspace"@,
            CenterView::Conversation => "Conversation workspace"@,
            CenterView::Home => "Home workspace"@,
        }),
{
}

/// Going home refreshes everything that shows the workspace, and each region once.
pub proof fn law_home_refreshes_the_workspace(region: UiRegion)
    ensures
        home_refresh().contains(region) <==> region is Sessions || region is Composer
            || region is Conversation || region is ConversationHeader || region is Inspector
            || region is Modal,
        home_refresh().no_duplicates(),
        home_refresh().len() == 6,
{
    let all = home_refresh();
    assert(all[0] is Sessions && all[1] is Composer && all[2] is Conversation
        && all[3] is ConversationHeader && all[4] is Inspector && all[5] is Modal);
    if all.contains(region) {
        let i = all.index_of(region);
        assert(all[i] == region);
    }
    if region is Sessions {
        assert(all.contains(all[0]));
    } else if region is Composer {
        assert(all.contains(all[1]));
    } else if region is Conversation {
        assert(all.contains(all[2]));
    } else if region is ConversationHeader {
        assert(all.contains(all[3]));
    } else if region is Inspector {
        assert(all.contains(all[4]));
    } else if region is Modal {
        assert(all.contains(all[5]));
    }
}

/// The escape key takes away what lies on top, and only that: the modal, then the
/// drawer, then the review, and at last it goes to the composer.
pub proof fn law_escape_takes_away_the_topmost(facts: EscapeFacts)
    ensures
        ({
            let calls = escaped(facts);
            let answered = facts.modal == Some(DesktopModalKind::Authorization) || (facts.modal
                == Some(DesktopModalKind::UpdateAvailable) && facts.update_installing);
            &&& calls.contains(ShellCall::DismissModal) <==> facts.modal is Some && !answered
                && facts.modal != Some(DesktopModalKind::FullMessage)
            &&& calls.contains(ShellCall::CloseFullMessage) <==> facts.modal == Some(
                DesktopModalKind::FullMessage,
            )
            &&& calls.contains(ShellCall::ClosePalette) <==> facts.modal == Some(
                DesktopModalKind::CommandPalette,
            )
            &&& calls.contains(ShellCall::ForgetDeletion) <==> facts.modal == Some(
                DesktopModalKind::ConfirmDeleteSession,
            )
            &&& calls.contains(ShellCall::ForgetUpdate) <==> facts.modal == Some(
                DesktopModalKind::UpdateAvailable,
            ) && !facts.update_installing
            &&& calls.contains(ShellCall::DismissDrawer) <==> facts.modal is None
                && facts.drawer_open
            &&& calls.contains(ShellCall::CloseReview) <==> facts.modal is None
                && !facts.drawer_open && facts.review_open
            &&& calls.contains(ShellCall::Focus(FocusTarget::Composer)) <==> facts.modal is None
                && !facts.drawer_open && !facts.review_open
            &&& calls.contains(ShellCall::FocusModal(DesktopModalKind::Authorization)) <==> facts.modal
                == Some(DesktopModalKind::Authorization)
            &&& calls.contains(
                ShellCall::SetNotice(
                    "Authorization requires Deny, Allow once, or Allow for operation.",
                ),
            ) <==> facts.modal == Some(DesktopModalKind::Authorization)
            &&& calls.contains(
                ShellCall::SetNotice("The verified update is still being installed. Please wait."),
            ) <==> facts.modal == Some(DesktopModalKind::UpdateAvailable) && facts.update_installing
            &&& calls.contains(ShellCall::SetNotice("Closed the changed-file review."))
                <==> facts.modal is None && !facts.drawer_open && facts.review_open
            &&& calls.len() <= 3
        }),
{
    let calls = escaped(facts);
    lemma_among_first(calls, ShellCall::DismissModal);
    lemma_among_first(calls, ShellCall::CloseFullMessage);
    lemma_among_first(calls, ShellCall::ClosePalette);
    lemma_among_first(calls, ShellCall::ForgetDeletion);
    lemma_among_first(calls, ShellCall::ForgetUpdate);
    lemma_among_first(calls, ShellCall::DismissDrawer);
    lemma_among_first(calls, ShellCall::CloseReview);
    lemma_among_first(calls, ShellCall::Focus(FocusTarget::Composer));
    lemma_among_first(calls, ShellCall::FocusModal(DesktopModalKind::Authorization));
    lemma_among_first(
        calls,
        ShellCall::SetNotice("Authorization requires Deny, Allow once, or Allow for operation."),
    );
    lemma_among_first(
        calls,
        ShellCall::SetNotice("The verified update is still being installed. Please wait."),
    );
    lemma_among_first(calls, ShellCall::SetNotice("Closed the changed-file review."));
    reveal_strlit("Authorization requires Deny, Allow once, or Allow for operation.");
    reveal_strlit("The verified update is still being installed. Please wait.");
    reveal_strlit("Closed the changed-file review.");
    assert("Authorization requires Deny, Allow once, or Allow for operation."@[0] == 'A');
    assert("The verified update is still being installed. Please wait."@[0] == 'T');
    assert("Closed the changed-file review."@[0] == 'C');
}

/// The palette opens unless a request for authorization waits; then the user is led to
/// that. Confirming it runs the selected command, and nothing where none is selected.
pub proof fn law_palette_waits_for_authorizations(
    authorization_pending: bool,
    command: DesktopPaletteCommand,
    reduced_motion: bool,
)
    ensures
        palette_opened(authorization_pending).contains(
            ShellCall::ActivateModal(DesktopModalKind::CommandPalette),
        ) <==> !authorization_pending,
        palette_opened(authorization_pending).contains(
            ShellCall::FocusModal(DesktopModalKind::Authorization),
        ) <==> authorization_pending,
        authorization_pending ==> palette_opened(authorization_pending)[0] == ShellCall::SetNotice(
            "Resolve authorization before opening commands.",
        ),
        palette_confirmed(None, reduced_motion).len() == 0,
        palette_confirmed(Some(command), reduced_motion).len() >= 3,
        palette_confirmed(Some(command), reduced_motion)[0] is ClosePalette,
        palette_confirmed(Some(command), reduced_motion)[1] is DismissModal,
        palette_confirmed(Some(command), reduced_motion)[2] == palette_call(command),
{
    lemma_among_first(
        palette_opened(authorization_pending),
        ShellCall::ActivateModal(DesktopModalKind::CommandPalette),
    );
    lemma_among_first(
        palette_opened(authorization_pending),
        ShellCall::FocusModal(DesktopModalKind::Authorization),
    );
}

/// Each command of the palette makes its own call first, and no other command makes it;
/// only the change of motion goes on, to store and announce the new setting.
pub proof fn law_palette_commands_act_as_named(
    command: DesktopPaletteCommand,
    reduced_motion: bool,
)
    ensures
        ({
            let calls = palette_calls(command, reduced_motion);
            let call = calls[0];
            &&& calls.len() == (if command is ToggleReducedMotion { 5nat } else { 1 })
            &&& command is NewSession <==> call is CreateSession
            &&& command is SwitchNextSession <==> call is SwitchNextSession
            &&& command is ToggleSessions <==> call is ToggleSessions
            &&& command is ToggleContext <==> call is ToggleInspector
            &&& command is FocusSessions <==> call == ShellCall::Focus(FocusTarget::Sidebar)
            &&& command is FocusConversation <==> call == ShellCall::Focus(FocusTarget::CenterBody)
            &&& command is FocusComposer <==> call == ShellCall::Focus(FocusTarget::Composer)
            &&& command is FocusContext <==> call == ShellCall::Focus(FocusTarget::Inspector)
            &&& command is SubmitPrompt <==> call is SendComposer
            &&& command is SteerOperation <==> call == ShellCall::SubmitControl(ComposerSubmissionKind::Steer)
            &&& command is FollowUpOperation <==> call == ShellCall::SubmitControl(ComposerSubmissionKind::FollowUp)
            &&& command is AbortOperation <==> call is Abort
            &&& command is FollowLatest <==> call is FollowLatest
            &&& command is ReloadResources <==> call is Reload
            &&& command is CopyConversation <==> call is CopySelection
            &&& command is SelectNextModel <==> call is SelectNextModel
            &&& command is SelectNextProfile <==> call is SelectNextProfile
            &&& command is CycleThinking <==> call is CycleThinking
            &&& command is ReviewNextFile <==> call is ReviewNextFile
            &&& command is CopyReviewPath <==> call is CopyReviewPath
            &&& command is CopyFileReview <==> call is CopyFileReview
            &&& command is OpenExternalEditor <==> call is OpenExternalEditor
            &&& command is RetryRecovery <==> call == ShellCall::RecoverLatest(DesktopRecoveryAction::Retry)
            &&& command is MarkRecoveryFailed <==> call == ShellCall::RecoverLatest(DesktopRecoveryAction::MarkFailed)
            &&& command is AbortRecovery <==> call == ShellCall::RecoverLatest(DesktopRecoveryAction::Abort)
            &&& command is ToggleReducedMotion <==> call is ToggleReducedMotion
            &&& command is ToggleReducedMotion ==> {
                &&& calls[1] is StorePreferences
                &&& !reduced_motion ==> calls[2] == ShellCall::SetNotice(
                    "Reduced motion enabled; desktop transitions remain static.",
                )
                &&& reduced_motion ==> calls[2] == ShellCall::SetNotice(
                    "Reduced motion disabled; idle presentation remains static.",
                )
                &&& calls[3] == ShellCall::Refresh(UiRegion::Toast)
                &&& calls[4] is Notify
            }
        }),
{
}

} // verus!

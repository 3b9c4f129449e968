//! Events of the child views, and the one vocabulary of intents that they are
//! turned into.
use crate::actions::DesktopPaletteCommand;
use crate::catalog::copy_optional;
use crate::commands::FileReviewRequest;
use crate::composer_pane::ComposerRunningMode;
use crate::conversation_header::DesktopThinkingLevel;
use crate::inspector_pane::{DesktopRecoveryAction, InspectorSection};
use crate::overlay::ToolAuthorizationDecision;
use crate::view_state::StreamingTextPhase;
use vstd::prelude::*;
use vstd::std_specs::convert::FromSpec;

verus! {

/// Where the center is to go.
#[derive(Debug, PartialEq, Eq)]
pub enum CenterNavigationTarget {
    NewConversation,
    Skills,
    Session(String),
}

impl Clone for CenterNavigationTarget {
    fn clone(&self) -> (copy: Self)
        ensures
            copy == *self,
    {
        match self {
            CenterNavigationTarget::NewConversation => CenterNavigationTarget::NewConversation,
            CenterNavigationTarget::Skills => CenterNavigationTarget::Skills,
            CenterNavigationTarget::Session(session_id) => CenterNavigationTarget::Session(
                session_id.clone(),
            ),
        }
    }
}

/// What the center shows.
#[derive(Debug, Clone, Copy, PartialEq, Eq, Structural)]
pub enum CenterSurface {
    Primary,
    Skills,
}

impl Default for CenterSurface {
    fn default() -> (surface: Self)
        ensures
            surface is Primary,
    {
        CenterSurface::Primary
    }
}

/// A recovery, by the name that the runtime gave it.
#[derive(Debug, PartialEq, Eq)]
pub struct RecoveryIdentity {
    pub recovery_id: String,
}

impl Clone for RecoveryIdentity {
    fn clone(&self) -> (copy: Self)
        ensures
            copy == *self,
    {
        RecoveryIdentity { recovery_id: self.recovery_id.clone() }
    }
}

/// A request for authorization, by its names.
#[derive(Debug, PartialEq, Eq)]
pub struct AuthorizationIdentity {
    pub authorization_id: String,
    pub operation_id: String,
}

impl Clone for AuthorizationIdentity {
    fn clone(&self) -> (copy: Self)
        ensures
            copy == *self,
    {
        AuthorizationIdentity {
            authorization_id: self.authorization_id.clone(),
            operation_id: self.operation_id.clone(),
        }
    }
}

impl Clone for ToolAuthorizationDecision {
    fn clone(&self) -> (copy: Self)
        ensures
            copy == *self,
    {
        match self {
            ToolAuthorizationDecision::Deny { reason } => ToolAuthorizationDecision::Deny {
                reason: copy_optional(reason),
            },
            ToolAuthorizationDecision::AllowOnce => ToolAuthorizationDecision::AllowOnce,
            ToolAuthorizationDecision::AllowForOperation =>
                ToolAuthorizationDecision::AllowForOperation,
        }
    }
}

impl Clone for FileReviewRequest {
    fn clone(&self) -> (copy: Self)
        ensures
            copy == *self,
    {
        FileReviewRequest {
            operation_id: self.operation_id.clone(),
            tool_call_id: copy_optional(&self.tool_call_id),
            path: self.path.clone(),
        }
    }
}

/// A row as it was painted when its height was measured. The height itself is
/// kept under the number of the sample.
#[derive(Debug, PartialEq, Eq)]
pub struct RowMeasurement {
    pub item_key: String,
    pub source_revision: u64,
    pub width_bucket: u32,
    pub text_phase: StreamingTextPhase,
    pub details_expanded: bool,
    pub sample: u64,
}

impl Clone for RowMeasurement {
    fn clone(&self) -> (copy: Self)
        ensures
            copy == *self,
    {
        RowMeasurement {
            item_key: self.item_key.clone(),
            source_revision: self.source_revision,
            width_bucket: self.width_bucket,
            text_phase: self.text_phase,
            details_expanded: self.details_expanded,
            sample: self.sample,
        }
    }
}

/// What the window is asked to do.
#[derive(Debug, PartialEq, Eq)]
pub enum UiIntent {
    Navigate(CenterNavigationTarget),
    NewConversationForProject(String),
    RefreshSessions,
    SetProjectCollapsed { group_id: String, collapsed: bool },
    RenameSession { session_id: String, name: String },
    CloseSession(String),
    DeleteSession(String),
    ConfirmDeleteSession,
    CancelDeleteSession,
    OpenSearch,
    NavigateSearch(String),
    CloseSearch,
    DismissDrawer,
    ToggleSessions,
    ToggleInspector,
    Reload,
    SelectModel(String),
    SelectSessionProfile(String),
    SelectThinking(DesktopThinkingLevel),
    Abort,
    ComposerInputChanged(String),
    ComposerFocused,
    AddAttachments,
    RemoveAttachment(usize),
    ChooseProjectDirectory,
    ClearProjectDirectory,
    SubmitPrimary,
    Submit,
    SubmitRunning,
    SetRunningMode(ComposerRunningMode),
    InsertComposer,
    SendComposer,
    SelectConversation { block_id: String, durable: bool },
    ConversationScrolled,
    CopyConversation(String),
    CopyToolDetails(String),
    CopyCodeCompleted,
    ToggleConversationDetails(String),
    OpenFullConversation(String),
    Recovery { identity: RecoveryIdentity, action: DesktopRecoveryAction },
    ConversationMeasured(RowMeasurement),
    FollowLatest,
    RequestFileReview(FileReviewRequest),
    CopyReviewPath,
    CopyFileReview,
    OpenExternalEditor,
    RefreshMergeProposals,
    MergeProposal(String),
    DiscardProposal(String),
    SelectInspectorSection(InspectorSection),
    ExecutePalette(DesktopPaletteCommand),
    DecideAuthorization { request: AuthorizationIdentity, decision: ToolAuthorizationDecision },
    CopyFullMessage,
    CloseFullMessage,
}

/// What the conversation reports.
#[derive(Debug, PartialEq, Eq)]
pub enum ConversationPaneEvent {
    Select { block_id: String, durable: bool },
    Scrolled,
    Copy { block_id: String },
    CopyToolDetails { block_id: String },
    CopyCodeCompleted,
    ToggleDetails { block_id: String },
    OpenFull { block_id: String },
    Recovery { identity: RecoveryIdentity, action: DesktopRecoveryAction },
    Measured(RowMeasurement),
    FollowLatest,
}

impl vstd::std_specs::convert::FromSpecImpl<&ConversationPaneEvent> for UiIntent {
    open spec fn obeys_from_spec() -> bool {
        true
    }

    open spec fn from_spec(event: &ConversationPaneEvent) -> UiIntent {
        match *event {
            ConversationPaneEvent::Select { block_id, durable } => UiIntent::SelectConversation {
                block_id, durable,
            },
            ConversationPaneEvent::Scrolled => UiIntent::ConversationScrolled,
            ConversationPaneEvent::Copy { block_id } => UiIntent::CopyConversation(block_id),
            ConversationPaneEvent::CopyToolDetails { block_id } =>
                UiIntent::CopyToolDetails(block_id),
            ConversationPaneEvent::CopyCodeCompleted => UiIntent::CopyCodeCompleted,
            ConversationPaneEvent::ToggleDetails { block_id } =>
                UiIntent::ToggleConversationDetails(block_id),
            ConversationPaneEvent::OpenFull { block_id } =>
                UiIntent::OpenFullConversation(block_id),
            ConversationPaneEvent::Recovery { identity, action } => UiIntent::Recovery {
                identity, action,
            },
            ConversationPaneEvent::Measured(measurement) =>
                UiIntent::ConversationMeasured(measurement),
            ConversationPaneEvent::FollowLatest => UiIntent::FollowLatest,
        }
    }
}

impl From<&ConversationPaneEvent> for UiIntent {
    fn from(event: &ConversationPaneEvent) -> (intent: UiIntent) {
        match event {
            ConversationPaneEvent::Select { block_id, durable } => UiIntent::SelectConversation {
                block_id: block_id.clone(),
                durable: *durable,
            },
            ConversationPaneEvent::Scrolled => UiIntent::ConversationScrolled,
            ConversationPaneEvent::Copy { block_id } =>
                UiIntent::CopyConversation(block_id.clone()),
            ConversationPaneEvent::CopyToolDetails { block_id } =>
                UiIntent::CopyToolDetails(block_id.clone()),
            ConversationPaneEvent::CopyCodeCompleted => UiIntent::CopyCodeCompleted,
            ConversationPaneEvent::ToggleDetails { block_id } =>
                UiIntent::ToggleConversationDetails(block_id.clone()),
            ConversationPaneEvent::OpenFull { block_id } =>
                UiIntent::OpenFullConversation(block_id.clone()),
            ConversationPaneEvent::Recovery { identity, action } => UiIntent::Recovery {
                identity: identity.clone(),
                action: *action,
            },
            ConversationPaneEvent::Measured(measurement) =>
                UiIntent::ConversationMeasured(measurement.clone()),
            ConversationPaneEvent::FollowLatest => UiIntent::FollowLatest,
        }
    }
}

/// What the header reports.
#[derive(Debug, PartialEq, Eq)]
pub enum ConversationHeaderEvent {
    ToggleSessions,
    ToggleInspector,
    SelectModel(String),
    SelectSessionProfile(String),
    SelectThinking(DesktopThinkingLevel),
    Reload,
    Abort,
}

impl vstd::std_specs::convert::FromSpecImpl<&ConversationHeaderEvent> for UiIntent {
    open spec fn obeys_from_spec() -> bool {
        true
    }

    open spec fn from_spec(event: &ConversationHeaderEvent) -> UiIntent {
        match *event {
            ConversationHeaderEvent::ToggleSessions => UiIntent::ToggleSessions,
            ConversationHeaderEvent::ToggleInspector => UiIntent::ToggleInspector,
            ConversationHeaderEvent::SelectModel(model_id) => UiIntent::SelectModel(model_id),
            ConversationHeaderEvent::SelectSessionProfile(profile_id) =>
                UiIntent::SelectSessionProfile(profile_id),
            ConversationHeaderEvent::SelectThinking(level) => UiIntent::SelectThinking(level),
            ConversationHeaderEvent::Reload => UiIntent::Reload,
            ConversationHeaderEvent::Abort => UiIntent::Abort,
        }
    }
}

impl From<&ConversationHeaderEvent> for UiIntent {
    fn from(event: &ConversationHeaderEvent) -> (intent: UiIntent) {
        match event {
            ConversationHeaderEvent::ToggleSessions => UiIntent::ToggleSessions,
            ConversationHeaderEvent::ToggleInspector => UiIntent::ToggleInspector,
            ConversationHeaderEvent::SelectModel(model_id) =>
                UiIntent::SelectModel(model_id.clone()),
            ConversationHeaderEvent::SelectSessionProfile(profile_id) =>
                UiIntent::SelectSessionProfile(profile_id.clone()),
            ConversationHeaderEvent::SelectThinking(level) => UiIntent::SelectThinking(*level),
            ConversationHeaderEvent::Reload => UiIntent::Reload,
            ConversationHeaderEvent::Abort => UiIntent::Abort,
        }
    }
}

/// What the list of sessions reports.
#[derive(Debug, PartialEq, Eq)]
pub enum SessionsPaneEvent {
    Navigate(CenterNavigationTarget),
    Refresh,
    SetProjectCollapsed { group_id: String, collapsed: bool },
    Rename(String, String),
    CloseSession(String),
    Dismiss,
}

impl vstd::std_specs::convert::FromSpecImpl<&SessionsPaneEvent> for UiIntent {
    open spec fn obeys_from_spec() -> bool {
        true
    }

    open spec fn from_spec(event: &SessionsPaneEvent) -> UiIntent {
        match *event {
            SessionsPaneEvent::Navigate(target) => UiIntent::Navigate(target),
            SessionsPaneEvent::Refresh => UiIntent::RefreshSessions,
            SessionsPaneEvent::SetProjectCollapsed { group_id, collapsed } =>
                UiIntent::SetProjectCollapsed {
                    group_id, collapsed,
                },
            SessionsPaneEvent::Rename(session_id, name) => UiIntent::RenameSession {
                session_id, name,
            },
            SessionsPaneEvent::CloseSession(session_id) => UiIntent::CloseSession(session_id),
            SessionsPaneEvent::Dismiss => UiIntent::DismissDrawer,
        }
    }
}

impl From<&SessionsPaneEvent> for UiIntent {
    fn from(event: &SessionsPaneEvent) -> (intent: UiIntent) {
        match event {
            SessionsPaneEvent::Navigate(target) => UiIntent::Navigate(target.clone()),
            SessionsPaneEvent::Refresh => UiIntent::RefreshSessions,
            SessionsPaneEvent::SetProjectCollapsed { group_id, collapsed } =>
                UiIntent::SetProjectCollapsed {
                    group_id: group_id.clone(),
                    collapsed: *collapsed,
                },
            SessionsPaneEvent::Rename(session_id, name) => UiIntent::RenameSession {
                session_id: session_id.clone(),
                name: name.clone(),
            },
            SessionsPaneEvent::CloseSession(session_id) =>
                UiIntent::CloseSession(session_id.clone()),
            SessionsPaneEvent::Dismiss => UiIntent::DismissDrawer,
        }
    }
}

/// What the composer reports.
#[derive(Debug, PartialEq, Eq)]
pub enum ComposerPaneEvent {
    InputChanged(String),
    Focused,
    AddAttachments,
    RemoveAttachment(usize),
    ChooseProjectDirectory,
    ClearProjectDirectory,
    SubmitPrimary,
    Submit,
    SubmitRunning,
    SetRunningMode(ComposerRunningMode),
}

impl vstd::std_specs::convert::FromSpecImpl<&ComposerPaneEvent> for UiIntent {
    open spec fn obeys_from_spec() -> bool {
        true
    }

    open spec fn from_spec(event: &ComposerPaneEvent) -> UiIntent {
        match *event {
            ComposerPaneEvent::InputChanged(value) => UiIntent::ComposerInputChanged(value),
            ComposerPaneEvent::Focused => UiIntent::ComposerFocused,
            ComposerPaneEvent::AddAttachments => UiIntent::AddAttachments,
            ComposerPaneEvent::RemoveAttachment(index) => UiIntent::RemoveAttachment(index),
            ComposerPaneEvent::ChooseProjectDirectory => UiIntent::ChooseProjectDirectory,
            ComposerPaneEvent::ClearProjectDirectory => UiIntent::ClearProjectDirectory,
            ComposerPaneEvent::SubmitPrimary => UiIntent::SubmitPrimary,
            ComposerPaneEvent::Submit => UiIntent::Submit,
            ComposerPaneEvent::SubmitRunning => UiIntent::SubmitRunning,
            ComposerPaneEvent::SetRunningMode(mode) => UiIntent::SetRunningMode(mode),
        }
    }
}

impl From<&ComposerPaneEvent> for UiIntent {
    fn from(event: &ComposerPaneEvent) -> (intent: UiIntent) {
        match event {
            ComposerPaneEvent::InputChanged(value) => UiIntent::ComposerInputChanged(value.clone()),
            ComposerPaneEvent::Focused => UiIntent::ComposerFocused,
            ComposerPaneEvent::AddAttachments => UiIntent::AddAttachments,
            ComposerPaneEvent::RemoveAttachment(index) => UiIntent::RemoveAttachment(*index),
            ComposerPaneEvent::ChooseProjectDirectory => UiIntent::ChooseProjectDirectory,
            ComposerPaneEvent::ClearProjectDirectory => UiIntent::ClearProjectDirectory,
            ComposerPaneEvent::SubmitPrimary => UiIntent::SubmitPrimary,
            ComposerPaneEvent::Submit => UiIntent::Submit,
            ComposerPaneEvent::SubmitRunning => UiIntent::SubmitRunning,
            ComposerPaneEvent::SetRunningMode(mode) => UiIntent::SetRunningMode(*mode),
        }
    }
}

/// What the inspector reports.
#[derive(Debug, PartialEq, Eq)]
pub enum InspectorPaneEvent {
    Close,
    RequestFileReview(FileReviewRequest),
    CopyReviewPath,
    CopyFileReview,
    OpenExternalEditor,
    Recovery { identity: RecoveryIdentity, action: DesktopRecoveryAction },
    SelectSection(InspectorSection),
}

impl vstd::std_specs::convert::FromSpecImpl<&InspectorPaneEvent> for UiIntent {
    open spec fn obeys_from_spec() -> bool {
        true
    }

    open spec fn from_spec(event: &InspectorPaneEvent) -> UiIntent {
        match *event {
            InspectorPaneEvent::Close => UiIntent::DismissDrawer,
            InspectorPaneEvent::RequestFileReview(request) => UiIntent::RequestFileReview(request),
            InspectorPaneEvent::CopyReviewPath => UiIntent::CopyReviewPath,
            InspectorPaneEvent::CopyFileReview => UiIntent::CopyFileReview,
            InspectorPaneEvent::OpenExternalEditor => UiIntent::OpenExternalEditor,
            InspectorPaneEvent::Recovery { identity, action } => UiIntent::Recovery {
                identity, action,
            },
            InspectorPaneEvent::SelectSection(section) => UiIntent::SelectInspectorSection(section),
        }
    }
}

impl From<&InspectorPaneEvent> for UiIntent {
    fn from(event: &InspectorPaneEvent) -> (intent: UiIntent) {
        match event {
            InspectorPaneEvent::Close => UiIntent::DismissDrawer,
            InspectorPaneEvent::RequestFileReview(request) =>
                UiIntent::RequestFileReview(request.clone()),
            InspectorPaneEvent::CopyReviewPath => UiIntent::CopyReviewPath,
            InspectorPaneEvent::CopyFileReview => UiIntent::CopyFileReview,
            InspectorPaneEvent::OpenExternalEditor => UiIntent::OpenExternalEditor,
            InspectorPaneEvent::Recovery { identity, action } => UiIntent::Recovery {
                identity: identity.clone(),
                action: *action,
            },
            InspectorPaneEvent::SelectSection(section) =>
                UiIntent::SelectInspectorSection(*section),
        }
    }
}

/// What the modals report.
#[derive(Debug, PartialEq, Eq)]
pub enum RootModalHostEvent {
    ExecutePalette(DesktopPaletteCommand),
    DecideAuthorization { request: AuthorizationIdentity, decision: ToolAuthorizationDecision },
    CopyFullMessage,
    CloseFullMessage,
}

impl vstd::std_specs::convert::FromSpecImpl<&RootModalHostEvent> for UiIntent {
    open spec fn obeys_from_spec() -> bool {
        true
    }

    open spec fn from_spec(event: &RootModalHostEvent) -> UiIntent {
        match *event {
            RootModalHostEvent::ExecutePalette(command) => UiIntent::ExecutePalette(command),
            RootModalHostEvent::DecideAuthorization { request, decision } =>
                UiIntent::DecideAuthorization {
                    request, decision,
                },
            RootModalHostEvent::CopyFullMessage => UiIntent::CopyFullMessage,
            RootModalHostEvent::CloseFullMessage => UiIntent::CloseFullMessage,
        }
    }
}

impl From<&RootModalHostEvent> for UiIntent {
    fn from(event: &RootModalHostEvent) -> (intent: UiIntent) {
        match event {
            RootModalHostEvent::ExecutePalette(command) => UiIntent::ExecutePalette(*command),
            RootModalHostEvent::DecideAuthorization { request, decision } =>
                UiIntent::DecideAuthorization {
                    request: request.clone(),
                    decision: decision.clone(),
                },
            RootModalHostEvent::CopyFullMessage => UiIntent::CopyFullMessage,
            RootModalHostEvent::CloseFullMessage => UiIntent::CloseFullMessage,
        }
    }
}

/// What the drawers report.
#[derive(Debug, PartialEq, Eq)]
pub enum CenterDrawerHostEvent {
    Dismiss,
}

impl vstd::std_specs::convert::FromSpecImpl<&CenterDrawerHostEvent> for UiIntent {
    open spec fn obeys_from_spec() -> bool {
        true
    }

    open spec fn from_spec(event: &CenterDrawerHostEvent) -> UiIntent {
        match *event {
            CenterDrawerHostEvent::Dismiss => UiIntent::DismissDrawer,
        }
    }
}

impl From<&CenterDrawerHostEvent> for UiIntent {
    fn from(event: &CenterDrawerHostEvent) -> (intent: UiIntent) {
        match event {
            CenterDrawerHostEvent::Dismiss => UiIntent::DismissDrawer,
        }
    }
}

/// What a click on the head of a row reports: the row is selected, and a tool
/// with something to show opens or closes.
pub open spec fn head_click(block_id: String, durable: bool, toggles: bool) -> Seq<
    ConversationPaneEvent,
> {
    if toggles {
        seq![
            ConversationPaneEvent::Select { block_id, durable },
            ConversationPaneEvent::ToggleDetails { block_id },
        ]
    } else {
        seq![ConversationPaneEvent::Select { block_id, durable }]
    }
}

pub fn row_head_clicked(block_id: String, durable: bool, is_tool: bool, expandable: bool) -> (events:
    Vec<ConversationPaneEvent>)
    ensures
        events@ == head_click(block_id, durable, is_tool && expandable),
{
    let mut events: Vec<ConversationPaneEvent> = Vec::new();
    if is_tool && expandable {
        events.push(ConversationPaneEvent::Select { block_id: block_id.clone(), durable });
        events.push(ConversationPaneEvent::ToggleDetails { block_id });
    } else {
        events.push(ConversationPaneEvent::Select { block_id, durable });
    }
    assert(events@ =~= head_click(block_id, durable, is_tool && expandable));
    events
}

/// What is done in the conversation leads to the intent of the same name, for the same block,
/// recovery or measurement, and to no other.
pub proof fn law_conversation_events_keep_their_meaning(event: ConversationPaneEvent)
    ensures
        ({
            let intent = UiIntent::from_spec(&event);
            &&& event is Select <==> intent is SelectConversation
            &&& event is Select ==> intent->SelectConversation_block_id == event->Select_block_id && intent->SelectConversation_durable == event->Select_durable
            &&& event is Scrolled <==> intent is ConversationScrolled
            &&& event is Copy <==> intent is CopyConversation
            &&& event is Copy ==> intent->CopyConversation_0 == event->Copy_block_id
            &&& event is CopyToolDetails <==> intent is CopyToolDetails
            &&& event is CopyToolDetails ==> intent->CopyToolDetails_0 == event->CopyToolDetails_block_id
            &&& event is CopyCodeCompleted <==> intent is CopyCodeCompleted
            &&& event is ToggleDetails <==> intent is ToggleConversationDetails
            &&& event is ToggleDetails ==> intent->ToggleConversationDetails_0 == event->ToggleDetails_block_id
            &&& event is OpenFull <==> intent is OpenFullConversation
            &&& event is OpenFull ==> intent->OpenFullConversation_0 == event->OpenFull_block_id
            &&& event is Recovery <==> intent is Recovery
            &&& event is Recovery ==> intent->Recovery_identity == event->Recovery_identity && intent->Recovery_action == event->Recovery_action
            &&& event is Measured <==> intent is ConversationMeasured
            &&& event is Measured ==> intent->ConversationMeasured_0 == event->Measured_0
            &&& event is FollowLatest <==> intent is FollowLatest
        }),
{
}

/// What is done in the header leads to the intent of the same name, for the same choice.
pub proof fn law_header_events_keep_their_meaning(event: ConversationHeaderEvent)
    ensures
        ({
            let intent = UiIntent::from_spec(&event);
            &&& event is ToggleSessions <==> intent is ToggleSessions
            &&& event is ToggleInspector <==> intent is ToggleInspector
            &&& event is SelectModel <==> intent is SelectModel
            &&& event is SelectModel ==> intent->SelectModel_0 == event->SelectModel_0
            &&& event is SelectSessionProfile <==> intent is SelectSessionProfile
            &&& event is SelectSessionProfile ==> intent->SelectSessionProfile_0 == event->SelectSessionProfile_0
            &&& event is SelectThinking <==> intent is SelectThinking
            &&& event is SelectThinking ==> intent->SelectThinking_0 == event->SelectThinking_0
            &&& event is Reload <==> intent is Reload
            &&& event is Abort <==> intent is Abort
        }),
{
}

/// What is done in the list of sessions leads to the intent of the same name, for the same
/// session, group or target.
pub proof fn law_session_events_keep_their_meaning(event: SessionsPaneEvent)
    ensures
        ({
            let intent = UiIntent::from_spec(&event);
            &&& event is Navigate <==> intent is Navigate
            &&& event is Navigate ==> intent->Navigate_0 == event->Navigate_0
            &&& event is Refresh <==> intent is RefreshSessions
            &&& event is SetProjectCollapsed <==> intent is SetProjectCollapsed
            &&& event is SetProjectCollapsed ==> intent->SetProjectCollapsed_group_id == event->SetProjectCollapsed_group_id && intent->SetProjectCollapsed_collapsed == event->SetProjectCollapsed_collapsed
            &&& event is Rename <==> intent is RenameSession
            &&& event is Rename ==> intent->RenameSession_session_id == event->Rename_0 && intent->RenameSession_name == event->Rename_1
            &&& event is CloseSession <==> intent is CloseSession
            &&& event is CloseSession ==> intent->CloseSession_0 == event->CloseSession_0
            &&& event is Dismiss <==> intent is DismissDrawer
        }),
{
}

/// What is done in the composer leads to the intent of the same name, with the same text,
/// place or mode.
pub proof fn law_composer_events_keep_their_meaning(event: ComposerPaneEvent)
    ensures
        ({
            let intent = UiIntent::from_spec(&event);
            &&& event is InputChanged <==> intent is ComposerInputChanged
            &&& event is InputChanged ==> intent->ComposerInputChanged_0 == event->InputChanged_0
            &&& event is Focused <==> intent is ComposerFocused
            &&& event is AddAttachments <==> intent is AddAttachments
            &&& event is RemoveAttachment <==> intent is RemoveAttachment
            &&& event is RemoveAttachment ==> intent->RemoveAttachment_0 == event->RemoveAttachment_0
            &&& event is ChooseProjectDirectory <==> intent is ChooseProjectDirectory
            &&& event is ClearProjectDirectory <==> intent is ClearProjectDirectory
            &&& event is SubmitPrimary <==> intent is SubmitPrimary
            &&& event is Submit <==> intent is Submit
            &&& event is SubmitRunning <==> intent is SubmitRunning
            &&& event is SetRunningMode <==> intent is SetRunningMode
            &&& event is SetRunningMode ==> intent->SetRunningMode_0 == event->SetRunningMode_0
        }),
{
}

/// What is done in the inspector leads to the intent of the same name, for the same file,
/// recovery or section.
pub proof fn law_inspector_events_keep_their_meaning(event: InspectorPaneEvent)
    ensures
        ({
            let intent = UiIntent::from_spec(&event);
            &&& event is Close <==> intent is DismissDrawer
            &&& event is RequestFileReview <==> intent is RequestFileReview
            &&& event is RequestFileReview ==> intent->RequestFileReview_0 == event->RequestFileReview_0
            &&& event is CopyReviewPath <==> intent is CopyReviewPath
            &&& event is CopyFileReview <==> intent is CopyFileReview
            &&& event is OpenExternalEditor <==> intent is OpenExternalEditor
            &&& event is Recovery <==> intent is Recovery
            &&& event is Recovery ==> intent->Recovery_identity == event->Recovery_identity && intent->Recovery_action == event->Recovery_action
            &&& event is SelectSection <==> intent is SelectInspectorSection
            &&& event is SelectSection ==> intent->SelectInspectorSection_0 == event->SelectSection_0
        }),
{
}

/// What is done in a modal leads to the intent of the same name, with the same command or
/// decision on the same request.
pub proof fn law_modal_events_keep_their_meaning(event: RootModalHostEvent)
    ensures
        ({
            let intent = UiIntent::from_spec(&event);
            &&& event is ExecutePalette <==> intent is ExecutePalette
            &&& event is ExecutePalette ==> intent->ExecutePalette_0 == event->ExecutePalette_0
            &&& event is DecideAuthorization <==> intent is DecideAuthorization
            &&& event is DecideAuthorization ==> intent->DecideAuthorization_request == event->DecideAuthorization_request && intent->DecideAuthorization_decision == event->DecideAuthorization_decision
            &&& event is CopyFullMessage <==> intent is CopyFullMessage
            &&& event is CloseFullMessage <==> intent is CloseFullMessage
        }),
{
}

/// A drawer that is left is dismissed.
pub proof fn law_drawer_events_keep_their_meaning(event: CenterDrawerHostEvent)
    ensures
        ({
            let intent = UiIntent::from_spec(&event);
            &&& event is Dismiss <==> intent is DismissDrawer
        }),
{
}

/// A click on the head of a row selects the row; it shows or hides the details besides
/// only where there are details to show.
pub proof fn law_head_clicks_select_first(block_id: String, durable: bool, toggles: bool)
    ensures
        ({
            let events = head_click(block_id, durable, toggles);
            &&& events[0] is Select && events[0]->Select_block_id == block_id && events[0]->durable
                == durable
            &&& events.len() == (if toggles { 2nat } else { 1nat })
            &&& toggles ==> events[1] is ToggleDetails && events[1]->ToggleDetails_block_id
                == block_id
        }),
{
}

} // verus!

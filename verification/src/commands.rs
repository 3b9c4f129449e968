//! Commands to the runtime: when one is reserved, when it is refused, and what
//! the window does with the answer.
use crate::change_set::UiRegion;
use crate::inspector_pane::DesktopRecoveryAction;
use crate::text::{
    decimal, decimal_text, join3, optional_text, same_text, truncate_label, truncated,
};
use vstd::prelude::*;

verus! {

#[derive(Debug, Clone, Copy, PartialEq, Eq, Structural)]
pub enum DesktopRuntimeSelectionKind {
    Model,
    SessionProfile,
}

#[derive(Debug, Clone, Copy, PartialEq, Eq, Structural)]
pub enum ComposerSubmissionKind {
    Prompt,
    Steer,
    FollowUp,
}

/// A changed file, as a review asks for it.
#[derive(Debug, PartialEq, Eq)]
pub struct FileReviewRequest {
    pub operation_id: String,
    pub tool_call_id: Option<String>,
    pub path: String,
}

/// What a reserved command is for.
#[derive(Debug, PartialEq, Eq)]
pub enum DesktopCommandIntent {
    Prompt,
    Steer,
    FollowUp,
    Abort { operation_id: String },
    Reload,
    Recovery { recovery_id: String, action: DesktopRecoveryAction },
    Selection(DesktopRuntimeSelectionKind),
    Authorization { authorization_id: String, operation_id: String },
    CreateSession,
    ListSessions,
    RenameSession { session_id: String },
    OpenSession { session_id: String },
    CloseSession { session_id: String },
    DeleteSession { session_id: String },
    FileReview { request: FileReviewRequest },
    ExternalEditor { project_relative_path: String },
    Resync,
}

impl DesktopCommandIntent {
    /// Whether the command hands the draft of the composer over.
    pub open spec fn submits_draft(self) -> bool {
        self.draft_kind() is Some
    }

    /// How the command hands the draft of the composer over, if it does.
    pub open spec fn draft_kind(self) -> Option<ComposerSubmissionKind> {
        match self {
            DesktopCommandIntent::Prompt => Some(ComposerSubmissionKind::Prompt),
            DesktopCommandIntent::Steer => Some(ComposerSubmissionKind::Steer),
            DesktopCommandIntent::FollowUp => Some(ComposerSubmissionKind::FollowUp),
            _ => None,
        }
    }

    fn draft(&self) -> (kind: Option<ComposerSubmissionKind>)
        ensures
            kind == self.draft_kind(),
    {
        match self {
            DesktopCommandIntent::Prompt => Some(ComposerSubmissionKind::Prompt),
            DesktopCommandIntent::Steer => Some(ComposerSubmissionKind::Steer),
            DesktopCommandIntent::FollowUp => Some(ComposerSubmissionKind::FollowUp),
            _ => None,
        }
    }

    /// Whether the command is refused after its reservation where no session is
    /// open.
    pub open spec fn requires_session(self) -> bool {
        self is FileReview || self is ExternalEditor
    }

    fn needs_session(&self) -> (needed: bool)
        ensures
            needed == self.requires_session(),
    {
        match self {
            DesktopCommandIntent::FileReview { .. }
            | DesktopCommandIntent::ExternalEditor { .. } => true,
            _ => false,
        }
    }
}

/// What the window does about a command: the notice of the workspace, whether
/// the reservation is given back, what the composer is told, which regions are
/// refreshed in turn, and whether the window itself is painted again.
#[derive(Debug, PartialEq, Eq)]
pub struct CommandReply {
    pub notice: Option<String>,
    pub complete: bool,
    pub rejection: Option<String>,
    pub refresh: Vec<UiRegion>,
    pub notify: bool,
}

/// A reply by what it says.
pub ghost struct CommandReplyView {
    pub notice: Option<Seq<char>>,
    pub complete: bool,
    pub rejection: Option<Seq<char>>,
    pub refresh: Seq<UiRegion>,
    pub notify: bool,
}

impl View for CommandReply {
    type V = CommandReplyView;

    open spec fn view(&self) -> CommandReplyView {
        CommandReplyView {
            notice: optional_text(self.notice),
            complete: self.complete,
            rejection: optional_text(self.rejection),
            refresh: self.refresh@,
            notify: self.notify,
        }
    }
}

/// A refusal before anything was reserved.
pub open spec fn refusal(notice: Seq<char>, refresh: Seq<UiRegion>, notify: bool) -> CommandReplyView {
    CommandReplyView { notice: Some(notice), complete: false, rejection: None, refresh, notify }
}

pub(crate) fn refuse(notice: String, refresh: Vec<UiRegion>, notify: bool) -> (reply: CommandReply)
    ensures
        reply@ == refusal(notice@, refresh@, notify),
{
    CommandReply { notice: Some(notice), complete: false, rejection: None, refresh, notify }
}

/// How a command begins.
#[derive(Debug, PartialEq, Eq)]
pub enum CommandGate {
    /// Nothing happens.
    Ignore,
    Refuse(CommandReply),
    Reserve(DesktopCommandIntent),
}

/// How a command begins, by what is said.
pub ghost enum CommandGateView {
    Ignore,
    Refuse(CommandReplyView),
    Reserve(DesktopCommandIntent),
}

impl View for CommandGate {
    type V = CommandGateView;

    open spec fn view(&self) -> CommandGateView {
        match *self {
            CommandGate::Ignore => CommandGateView::Ignore,
            CommandGate::Refuse(reply) => CommandGateView::Refuse(reply@),
            CommandGate::Reserve(intent) => CommandGateView::Reserve(intent),
        }
    }
}

impl CommandGate {
    /// Whether the command is refused with this reply.
    pub open spec fn refuses(self, reply: CommandReplyView) -> bool {
        self is Refuse && self->Refuse_0@ == reply
    }
}

/// Whether a notice of a failed reservation asks for the toast host.
pub open spec fn reservation_refresh(intent: DesktopCommandIntent) -> Seq<UiRegion> {
    match intent {
        DesktopCommandIntent::Recovery { .. } => Seq::empty(),
        DesktopCommandIntent::OpenSession { .. } => Seq::empty(),
        DesktopCommandIntent::CloseSession { .. } => seq![UiRegion::Sessions],
        DesktopCommandIntent::DeleteSession { .. } => seq![UiRegion::Sessions],
        _ => seq![UiRegion::Toast],
    }
}

/// Whether the window is painted again after a failed reservation.
pub open spec fn reservation_notifies(intent: DesktopCommandIntent) -> bool {
    !(intent is CloseSession || intent is DeleteSession || intent is RenameSession)
}

/// What follows when a command could not be reserved.
pub fn reservation_refused(intent: &DesktopCommandIntent, error: String) -> (reply: CommandReply)
    ensures
        reply@ == refusal(error@, reservation_refresh(*intent), reservation_notifies(*intent)),
{
    let refresh: Vec<UiRegion> = match intent {
        DesktopCommandIntent::Recovery { .. } | DesktopCommandIntent::OpenSession { .. } =>
            Vec::new(),
        DesktopCommandIntent::CloseSession { .. } | DesktopCommandIntent::DeleteSession { .. } =>
            vec![UiRegion::Sessions],
        _ => vec![UiRegion::Toast],
    };
    let notify = match intent {
        DesktopCommandIntent::CloseSession { .. }
        | DesktopCommandIntent::DeleteSession { .. }
        | DesktopCommandIntent::RenameSession { .. } => false,
        _ => true,
    };
    assert(refresh@ =~= reservation_refresh(*intent));
    refuse(error, refresh, notify)
}

/// The refusal of a composer that keeps its draft.
pub open spec fn draft_refusal(error: Seq<char>) -> CommandReplyView {
    CommandReplyView {
        notice: Some(error),
        complete: true,
        rejection: None,
        refresh: seq![UiRegion::Composer, UiRegion::Toast],
        notify: true,
    }
}

/// What follows when the composer does not hand its draft over: the
/// reservation is given back.
pub fn draft_refused(error: String) -> (reply: CommandReply)
    ensures
        reply@ == draft_refusal(error@),
{
    let refresh: Vec<UiRegion> = vec![UiRegion::Composer, UiRegion::Toast];
    assert(refresh@ =~= seq![UiRegion::Composer, UiRegion::Toast]);
    CommandReply { notice: Some(error), complete: true, rejection: None, refresh, notify: true }
}

/// What the runtime said to a command.
#[derive(Debug, PartialEq, Eq)]
pub enum RuntimeAnswer {
    /// There is no runtime.
    Stopped,
    /// There is a runtime but no session to speak of.
    NoSession,
    Admitted,
    Rejected(String),
}

/// The words for a runtime that is not there.
pub open spec fn stopped_words(intent: DesktopCommandIntent) -> Seq<char> {
    if intent is FileReview || intent is ExternalEditor || intent is CloseSession
        || intent is DeleteSession {
        "desktop runtime is unavailable"@
    } else {
        "desktop runtime is stopped"@
    }
}

/// Why a command was not admitted, if it was not.
pub open spec fn admission_failure(intent: DesktopCommandIntent, answer: RuntimeAnswer) -> Option<
    Seq<char>,
> {
    match answer {
        RuntimeAnswer::Stopped => Some(stopped_words(intent)),
        RuntimeAnswer::NoSession => Some("desktop session is unavailable"@),
        RuntimeAnswer::Admitted => None,
        RuntimeAnswer::Rejected(message) => Some(message@),
    }
}

fn failure_of(intent: &DesktopCommandIntent, answer: RuntimeAnswer) -> (failure: Option<String>)
    ensures
        optional_text(failure) == admission_failure(*intent, answer),
{
    match answer {
        RuntimeAnswer::Stopped => Some(
            match intent {
                DesktopCommandIntent::FileReview { .. }
                | DesktopCommandIntent::ExternalEditor { .. }
                | DesktopCommandIntent::CloseSession { .. }
                | DesktopCommandIntent::DeleteSession { .. } =>
                    "desktop runtime is unavailable".to_owned(),
                _ => "desktop runtime is stopped".to_owned(),
            },
        ),
        RuntimeAnswer::NoSession => Some("desktop session is unavailable".to_owned()),
        RuntimeAnswer::Admitted => None,
        RuntimeAnswer::Rejected(message) => Some(message),
    }
}

/// The notice of an admitted command, if it has one. The label is that of the
/// recovery action.
pub open spec fn admitted_notice(intent: DesktopCommandIntent, recovery_label: Seq<char>) -> Option<
    Seq<char>,
> {
    match intent {
        DesktopCommandIntent::Abort { .. } => Some("Abort requested…"@),
        DesktopCommandIntent::Reload => Some("Reloading local resources…"@),
        DesktopCommandIntent::Recovery { .. } => Some(
            "Submitting recovery "@ + recovery_label + "…"@,
        ),
        DesktopCommandIntent::Selection(_) => Some("Applying selection…"@),
        DesktopCommandIntent::Authorization { .. } => Some("Authorization decision pending…"@),
        DesktopCommandIntent::CreateSession => Some("Creating a new session…"@),
        DesktopCommandIntent::OpenSession { session_id } => Some(
            "Opening session "@ + truncated(session_id@, 32) + "…"@,
        ),
        DesktopCommandIntent::FileReview { .. } => Some("Loading changed-file review…"@),
        DesktopCommandIntent::ExternalEditor { project_relative_path } => Some(
            "Validating "@ + truncated(project_relative_path@, 48) + " before editor launch…"@,
        ),
        _ => None,
    }
}

/// The regions refreshed once the runtime has answered, in their order.
pub open spec fn answer_refresh(intent: DesktopCommandIntent, failed: bool) -> Seq<UiRegion> {
    match intent {
        DesktopCommandIntent::Prompt => seq![
            UiRegion::Composer,
            UiRegion::Inspector,
            UiRegion::ConversationHeader,
        ],
        DesktopCommandIntent::Steer => seq![
            UiRegion::Composer,
            UiRegion::Inspector,
            UiRegion::ConversationHeader,
        ],
        DesktopCommandIntent::FollowUp => seq![
            UiRegion::Composer,
            UiRegion::Inspector,
            UiRegion::ConversationHeader,
        ],
        DesktopCommandIntent::Abort { .. } => seq![UiRegion::Toast, UiRegion::ConversationHeader],
        DesktopCommandIntent::Reload => seq![UiRegion::Toast, UiRegion::ConversationHeader],
        DesktopCommandIntent::Selection(_) => seq![UiRegion::Toast, UiRegion::ConversationHeader],
        DesktopCommandIntent::Authorization { .. } => seq![UiRegion::Toast, UiRegion::Modal],
        DesktopCommandIntent::Recovery { .. } => seq![UiRegion::Inspector],
        DesktopCommandIntent::FileReview { .. } => seq![UiRegion::Inspector],
        DesktopCommandIntent::ExternalEditor { .. } => seq![UiRegion::Inspector],
        DesktopCommandIntent::CreateSession => seq![UiRegion::Sessions],
        DesktopCommandIntent::OpenSession { .. } => seq![UiRegion::Sessions],
        DesktopCommandIntent::CloseSession { .. } => seq![UiRegion::Sessions],
        DesktopCommandIntent::DeleteSession { .. } => seq![UiRegion::Sessions],
        DesktopCommandIntent::ListSessions => if failed {
            seq![UiRegion::Toast, UiRegion::Sessions]
        } else {
            seq![UiRegion::Sessions]
        },
        DesktopCommandIntent::RenameSession { .. } => if failed {
            seq![UiRegion::Toast, UiRegion::Sessions]
        } else {
            seq![UiRegion::Sessions]
        },
        DesktopCommandIntent::Resync => Seq::empty(),
    }
}

/// Whether the window is painted again once the runtime has answered.
pub open spec fn answer_notifies(intent: DesktopCommandIntent) -> bool {
    !(intent is CloseSession || intent is DeleteSession || intent is Resync)
}

/// What the window does with an answer. A command that was not admitted gives
/// its reservation back; where it carried the draft, the composer is told, else
/// the workspace.
pub open spec fn settled(
    intent: DesktopCommandIntent,
    recovery_label: Seq<char>,
    answer: RuntimeAnswer,
) -> CommandReplyView {
    let failure = admission_failure(intent, answer);
    CommandReplyView {
        notice: match failure {
            Some(message) => if intent.submits_draft() {
                None
            } else {
                Some(message)
            },
            None => admitted_notice(intent, recovery_label),
        },
        complete: failure is Some,
        rejection: match failure {
            Some(message) => if intent.submits_draft() {
                Some(message)
            } else {
                None
            },
            None => None,
        },
        refresh: answer_refresh(intent, failure is Some),
        notify: answer_notifies(intent),
    }
}

fn notice_of(intent: &DesktopCommandIntent, recovery_label: &str) -> (notice: Option<String>)
    ensures
        optional_text(notice) == admitted_notice(*intent, recovery_label@),
{
    match intent {
        DesktopCommandIntent::Abort { .. } => Some("Abort requested…".to_owned()),
        DesktopCommandIntent::Reload => Some("Reloading local resources…".to_owned()),
        DesktopCommandIntent::Recovery { .. } => Some(
            join3("Submitting recovery ", recovery_label, "…"),
        ),
        DesktopCommandIntent::Selection(_) => Some("Applying selection…".to_owned()),
        DesktopCommandIntent::Authorization { .. } => Some(
            "Authorization decision pending…".to_owned(),
        ),
        DesktopCommandIntent::CreateSession => Some("Creating a new session…".to_owned()),
        DesktopCommandIntent::OpenSession { session_id } => Some(
            join3("Opening session ", truncate_label(session_id.as_str(), 32).as_str(), "…"),
        ),
        DesktopCommandIntent::FileReview { .. } => Some("Loading changed-file review…".to_owned()),
        DesktopCommandIntent::ExternalEditor { project_relative_path } => Some(
            join3(
                "Validating ",
                truncate_label(project_relative_path.as_str(), 48).as_str(),
                " before editor launch…",
            ),
        ),
        _ => None,
    }
}

fn refresh_of(intent: &DesktopCommandIntent, failed: bool) -> (refresh: Vec<UiRegion>)
    ensures
        refresh@ == answer_refresh(*intent, failed),
{
    let refresh: Vec<UiRegion> = match intent {
        DesktopCommandIntent::Prompt
        | DesktopCommandIntent::Steer
        | DesktopCommandIntent::FollowUp => vec![
            UiRegion::Composer,
            UiRegion::Inspector,
            UiRegion::ConversationHeader,
        ],
        DesktopCommandIntent::Abort { .. }
        | DesktopCommandIntent::Reload
        | DesktopCommandIntent::Selection(_) => vec![UiRegion::Toast, UiRegion::ConversationHeader],
        DesktopCommandIntent::Authorization { .. } => vec![UiRegion::Toast, UiRegion::Modal],
        DesktopCommandIntent::Recovery { .. }
        | DesktopCommandIntent::FileReview { .. }
        | DesktopCommandIntent::ExternalEditor { .. } => vec![UiRegion::Inspector],
        DesktopCommandIntent::CreateSession
        | DesktopCommandIntent::OpenSession { .. }
        | DesktopCommandIntent::CloseSession { .. }
        | DesktopCommandIntent::DeleteSession { .. } => vec![UiRegion::Sessions],
        DesktopCommandIntent::ListSessions | DesktopCommandIntent::RenameSession { .. } =>
            if failed {
                vec![UiRegion::Toast, UiRegion::Sessions]
            } else {
                vec![UiRegion::Sessions]
            },
        DesktopCommandIntent::Resync => Vec::new(),
    };
    assert(refresh@ =~= answer_refresh(*intent, failed));
    refresh
}

/// Works out what the window does with the answer to a command.
pub fn settle(intent: &DesktopCommandIntent, recovery_label: &str, answer: RuntimeAnswer) -> (reply:
    CommandReply)
    ensures
        reply@ == settled(*intent, recovery_label@, answer),
{
    let notify = match intent {
        DesktopCommandIntent::CloseSession { .. }
        | DesktopCommandIntent::DeleteSession { .. }
        | DesktopCommandIntent::Resync => false,
        _ => true,
    };
    match failure_of(intent, answer) {
        Some(message) => {
            let refresh = refresh_of(intent, true);
            if intent.draft().is_some() {
                CommandReply {
                    notice: None,
                    complete: true,
                    rejection: Some(message),
                    refresh,
                    notify,
                }
            } else {
                CommandReply {
                    notice: Some(message),
                    complete: true,
                    rejection: None,
                    refresh,
                    notify,
                }
            }
        },
        None => CommandReply {
            notice: notice_of(intent, recovery_label),
            complete: false,
            rejection: None,
            refresh: refresh_of(intent, false),
            notify,
        },
    }
}

/// A command keeps its reservation exactly while the runtime is at it: every
/// answer but an admission gives it back, and says why.
pub proof fn law_refused_commands_are_given_back(
    intent: DesktopCommandIntent,
    recovery_label: Seq<char>,
    answer: RuntimeAnswer,
)
    ensures
        settled(intent, recovery_label, answer).complete <==> !(answer is Admitted),
        !(answer is Admitted) ==> settled(intent, recovery_label, answer).notice is Some
            || settled(intent, recovery_label, answer).rejection is Some,
{
}

/// A draft that was not admitted is a matter of the composer: the notice of the
/// workspace stays as it was.
pub proof fn law_rejected_draft_stays_with_the_composer(
    intent: DesktopCommandIntent,
    recovery_label: Seq<char>,
    answer: RuntimeAnswer,
)
    requires
        intent.submits_draft(),
    ensures
        settled(intent, recovery_label, answer).notice is None,
        settled(intent, recovery_label, answer).rejection is Some <==> !(answer is Admitted),
{
}

/// Commands of which one at a time is under way.
#[derive(Debug, Clone, Copy, PartialEq, Eq, Structural)]
pub enum PendingKind {
    Abort,
    Reload,
    Recovery,
    Selection,
    Authorization,
    /// A session is being created or opened.
    SessionSwitch,
    SessionList,
    FileReview,
}

impl PendingKind {
    /// Whether a command is of that kind.
    pub open spec fn covers(self, intent: DesktopCommandIntent) -> bool {
        match self {
            PendingKind::Abort => intent is Abort,
            PendingKind::Reload => intent is Reload,
            PendingKind::Recovery => intent is Recovery,
            PendingKind::Selection => intent is Selection,
            PendingKind::Authorization => intent is Authorization,
            PendingKind::SessionSwitch => intent is CreateSession || intent is OpenSession,
            PendingKind::SessionList => intent is ListSessions,
            PendingKind::FileReview => intent is FileReview,
        }
    }

    fn matches(self, intent: &DesktopCommandIntent) -> (found: bool)
        ensures
            found == self.covers(*intent),
    {
        match self {
            PendingKind::Abort => matches!(intent, DesktopCommandIntent::Abort { .. }),
            PendingKind::Reload => matches!(intent, DesktopCommandIntent::Reload),
            PendingKind::Recovery => matches!(intent, DesktopCommandIntent::Recovery { .. }),
            PendingKind::Selection => matches!(intent, DesktopCommandIntent::Selection(_)),
            PendingKind::Authorization => matches!(
                intent,
                DesktopCommandIntent::Authorization { .. }
            ),
            PendingKind::SessionSwitch => matches!(
                intent,
                DesktopCommandIntent::CreateSession | DesktopCommandIntent::OpenSession { .. }
            ),
            PendingKind::SessionList => matches!(intent, DesktopCommandIntent::ListSessions),
            PendingKind::FileReview => matches!(intent, DesktopCommandIntent::FileReview { .. }),
        }
    }
}

/// Whether a command of that kind is under way among the given ones.
pub fn is_pending(commands: &Vec<DesktopCommandIntent>, kind: PendingKind) -> (pending: bool)
    ensures
        pending == exists|i: int|
            0 <= i < commands@.len() && kind.covers(#[trigger] commands@[i]),
{
    let mut index: usize = 0;
    while index < commands.len()
        invariant
            index <= commands@.len(),
            forall|i: int| 0 <= i < index ==> !kind.covers(#[trigger] commands@[i]),
        decreases commands@.len() - index,
    {
        if kind.matches(&commands[index]) {
            return true;
        }
        index = index + 1;
    }
    false
}

/// A model that a prompt can be sent to.
#[derive(Debug, PartialEq, Eq)]
pub struct ModelFacts {
    pub id: String,
    pub supports_images: bool,
}

/// Whether the first model of that name takes images.
pub open spec fn takes_images(models: Seq<ModelFacts>, id: Seq<char>) -> bool
    decreases models.len(),
{
    if models.len() == 0 {
        false
    } else if models[0].id@ == id {
        models[0].supports_images
    } else {
        takes_images(models.skip(1), id)
    }
}

pub fn model_supports_images(models: &Vec<ModelFacts>, selected_model_id: &str) -> (supported: bool)
    ensures
        supported == takes_images(models@, selected_model_id@),
{
    let mut index: usize = 0;
    assert(models@.skip(0) =~= models@);
    while index < models.len()
        invariant
            index <= models@.len(),
            takes_images(models@, selected_model_id@) == takes_images(
                models@.skip(index as int),
                selected_model_id@,
            ),
        decreases models@.len() - index,
    {
        let ghost rest = models@.skip(index as int);
        assert(rest[0] == models@[index as int]);
        assert(rest.skip(1) =~= models@.skip(index as int + 1));
        if same_text(models[index].id.as_str(), selected_model_id) {
            return models[index].supports_images;
        }
        index = index + 1;
    }
    false
}

/// How a prompt begins: attachments need a model that takes images.
pub open spec fn prompt_gate(
    has_attachments: bool,
    models: Seq<ModelFacts>,
    selected_model_id: Seq<char>,
) -> CommandGateView {
    if has_attachments && !takes_images(models, selected_model_id) {
        CommandGateView::Refuse(
            refusal(
                "Selected model does not support image attachments; the draft was retained."@,
                seq![UiRegion::Composer, UiRegion::Toast],
                true,
            ),
        )
    } else {
        CommandGateView::Reserve(DesktopCommandIntent::Prompt)
    }
}

/// Whether a prompt may be sent.
pub fn submit_composer(
    has_attachments: bool,
    models: &Vec<ModelFacts>,
    selected_model_id: &str,
) -> (gate: CommandGate)
    ensures
        gate@ == prompt_gate(has_attachments, models@, selected_model_id@),
{
    let supported = model_supports_images(models, selected_model_id);
    if has_attachments && !supported {
        let refresh: Vec<UiRegion> = vec![UiRegion::Composer, UiRegion::Toast];
        assert(refresh@ =~= seq![UiRegion::Composer, UiRegion::Toast]);
        return CommandGate::Refuse(
            refuse(
                "Selected model does not support image attachments; the draft was retained.".to_owned(),
                refresh,
                true,
            ),
        );
    }
    CommandGate::Reserve(DesktopCommandIntent::Prompt)
}

/// The kind of a draft that is sent.
pub open spec fn sent_kind(operation_active: bool) -> ComposerSubmissionKind {
    if operation_active {
        ComposerSubmissionKind::FollowUp
    } else {
        ComposerSubmissionKind::Prompt
    }
}

/// The kind of a draft that is inserted.
pub open spec fn inserted_kind(operation_active: bool) -> ComposerSubmissionKind {
    if operation_active {
        ComposerSubmissionKind::Steer
    } else {
        ComposerSubmissionKind::Prompt
    }
}

/// How the draft is sent: behind the running operation, or as a prompt.
pub fn send_composer(operation_active: bool) -> (kind: ComposerSubmissionKind)
    ensures
        kind == sent_kind(operation_active),
{
    if operation_active {
        ComposerSubmissionKind::FollowUp
    } else {
        ComposerSubmissionKind::Prompt
    }
}

/// How the draft is inserted: into the running operation, or as a prompt where
/// there is none to steer.
pub fn insert_composer(operation_active: bool) -> (kind: ComposerSubmissionKind)
    ensures
        kind == inserted_kind(operation_active),
{
    if operation_active {
        ComposerSubmissionKind::Steer
    } else {
        ComposerSubmissionKind::Prompt
    }
}

/// How a draft for the running operation begins: it goes without attachments,
/// and is no prompt.
pub open spec fn control_gate(
    kind: ComposerSubmissionKind,
    has_attachments: bool,
) -> CommandGateView {
    if has_attachments {
        CommandGateView::Refuse(
            refusal(
                "Attachments cannot be added to a running operation; the draft was retained."@,
                seq![UiRegion::Composer, UiRegion::Toast],
                true,
            ),
        )
    } else {
        match kind {
            ComposerSubmissionKind::Prompt => CommandGateView::Refuse(
                refusal(
                    "Prompt submissions must use the idle composer action."@,
                    seq![UiRegion::Toast],
                    true,
                ),
            ),
            ComposerSubmissionKind::Steer => CommandGateView::Reserve(DesktopCommandIntent::Steer),
            ComposerSubmissionKind::FollowUp => CommandGateView::Reserve(
                DesktopCommandIntent::FollowUp,
            ),
        }
    }
}

/// Whether the draft may go to a running operation.
pub fn submit_active_control(kind: ComposerSubmissionKind, has_attachments: bool) -> (gate:
    CommandGate)
    ensures
        gate@ == control_gate(kind, has_attachments),
{
    if has_attachments {
        let refresh: Vec<UiRegion> = vec![UiRegion::Composer, UiRegion::Toast];
        assert(refresh@ =~= seq![UiRegion::Composer, UiRegion::Toast]);
        return CommandGate::Refuse(
            refuse(
                "Attachments cannot be added to a running operation; the draft was retained.".to_owned(),
                refresh,
                true,
            ),
        );
    }
    match kind {
        ComposerSubmissionKind::Prompt => toast_refusal(
            "Prompt submissions must use the idle composer action.",
        ),
        ComposerSubmissionKind::Steer => CommandGate::Reserve(DesktopCommandIntent::Steer),
        ComposerSubmissionKind::FollowUp => CommandGate::Reserve(DesktopCommandIntent::FollowUp),
    }
}

/// How a draft of any kind begins.
pub open spec fn draft_gate(
    kind: ComposerSubmissionKind,
    has_attachments: bool,
    models: Seq<ModelFacts>,
    selected_model_id: Seq<char>,
) -> CommandGateView {
    match kind {
        ComposerSubmissionKind::Prompt => prompt_gate(has_attachments, models, selected_model_id),
        _ => control_gate(kind, has_attachments),
    }
}

/// Whether the draft may go, as a prompt or to the running operation.
pub fn composer_gate(
    kind: ComposerSubmissionKind,
    has_attachments: bool,
    models: &Vec<ModelFacts>,
    selected_model_id: &str,
) -> (gate: CommandGate)
    ensures
        gate@ == draft_gate(kind, has_attachments, models@, selected_model_id@),
{
    match kind {
        ComposerSubmissionKind::Prompt => submit_composer(
            has_attachments,
            models,
            selected_model_id,
        ),
        _ => submit_active_control(kind, has_attachments),
    }
}

/// Sending uses the normal flow of the conversation: while an operation runs,
/// the draft goes behind it as a follow-up and never steers it; else it starts
/// a prompt.
pub proof fn law_sending_follows_the_conversation(
    operation_active: bool,
    has_attachments: bool,
    models: Seq<ModelFacts>,
    selected_model_id: Seq<char>,
)
    ensures
        ({
            let gate = draft_gate(
                sent_kind(operation_active),
                has_attachments,
                models,
                selected_model_id,
            );
            &&& operation_active ==> gate == control_gate(
                ComposerSubmissionKind::FollowUp,
                has_attachments,
            )
            &&& !operation_active ==> gate == prompt_gate(
                has_attachments,
                models,
                selected_model_id,
            )
            &&& gate != CommandGateView::Reserve(DesktopCommandIntent::Steer)
        }),
{
}

/// Inserting steers the running operation. With none to steer it is a normal
/// send, and the draft is not dropped: it is taken, or refused with a notice.
pub proof fn law_inserting_steers_or_sends(
    operation_active: bool,
    has_attachments: bool,
    models: Seq<ModelFacts>,
    selected_model_id: Seq<char>,
)
    ensures
        ({
            let gate = draft_gate(
                inserted_kind(operation_active),
                has_attachments,
                models,
                selected_model_id,
            );
            &&& operation_active ==> gate == control_gate(
                ComposerSubmissionKind::Steer,
                has_attachments,
            )
            &&& !operation_active ==> gate == draft_gate(
                sent_kind(false),
                has_attachments,
                models,
                selected_model_id,
            )
            &&& match gate {
                CommandGateView::Ignore => false,
                CommandGateView::Refuse(reply) => reply.notice is Some,
                CommandGateView::Reserve(intent) => intent.submits_draft(),
            }
        }),
{
}

fn toast_refusal(notice: &str) -> (gate: CommandGate)
    ensures
        gate.refuses(refusal(notice@, seq![UiRegion::Toast], true)),
{
    let refresh: Vec<UiRegion> = vec![UiRegion::Toast];
    assert(refresh@ =~= seq![UiRegion::Toast]);
    CommandGate::Refuse(refuse(notice.to_owned(), refresh, true))
}

/// Whether the running operation may be aborted.
pub fn abort_active_operation(abort_pending: bool, active_operation: Option<String>) -> (gate:
    CommandGate)
    ensures
        abort_pending ==> gate is Ignore,
        !abort_pending && active_operation is None ==> gate.refuses(
            refusal(
                "No active operation is available to abort."@,
                seq![UiRegion::Toast],
                true,
            ),
        ),
        !abort_pending && active_operation is Some ==> gate == CommandGate::Reserve(
            DesktopCommandIntent::Abort { operation_id: active_operation->0 },
        ),
        gate@ == abort_gate(abort_pending, active_operation),
{
    if abort_pending {
        return CommandGate::Ignore;
    }
    match active_operation {
        Some(operation_id) => CommandGate::Reserve(DesktopCommandIntent::Abort { operation_id }),
        None => toast_refusal("No active operation is available to abort."),
    }
}

/// Whether local resources may be loaded again.
pub fn reload_local_resources(
    reload_pending: bool,
    operation_active: bool,
    draft_submitted: bool,
) -> (gate: CommandGate)
    ensures
        reload_pending ==> gate is Ignore,
        !reload_pending && (operation_active || draft_submitted) ==> gate.refuses(
            refusal(
                "Reload is available only while the runtime is idle."@,
                seq![UiRegion::Toast],
                true,
            ),
        ),
        !reload_pending && !(operation_active || draft_submitted) ==> gate == CommandGate::Reserve(
            DesktopCommandIntent::Reload,
        ),
        gate@ == reload_gate(reload_pending, operation_active, draft_submitted),
{
    if reload_pending {
        CommandGate::Ignore
    } else if operation_active || draft_submitted {
        toast_refusal("Reload is available only while the runtime is idle.")
    } else {
        CommandGate::Reserve(DesktopCommandIntent::Reload)
    }
}

/// Whether a recovery may be acted on.
pub fn submit_recovery_action(
    recovery_pending: bool,
    operation_active: bool,
    draft_submitted: bool,
    recovery_id: String,
    action: DesktopRecoveryAction,
) -> (gate: CommandGate)
    ensures
        recovery_pending ==> gate is Ignore,
        !recovery_pending && (operation_active || draft_submitted) ==> gate.refuses(
            refusal(
                "Recovery actions are available only while the runtime is idle."@,
                seq![UiRegion::Toast],
                true,
            ),
        ),
        !recovery_pending && !(operation_active || draft_submitted) ==> gate
            == CommandGate::Reserve(DesktopCommandIntent::Recovery { recovery_id, action }),
        gate@ == recovery_gate(
            recovery_pending,
            operation_active,
            draft_submitted,
            recovery_id,
            action,
        ),
{
    if recovery_pending {
        CommandGate::Ignore
    } else if operation_active || draft_submitted {
        toast_refusal("Recovery actions are available only while the runtime is idle.")
    } else {
        CommandGate::Reserve(DesktopCommandIntent::Recovery { recovery_id, action })
    }
}

/// How the runtime is asked to act on a recovery.
#[derive(Debug, Clone, Copy, PartialEq, Eq, Structural)]
pub enum RecoveryCall {
    Retry,
    ResolveFailed,
    ResolveAborted,
}

pub fn recovery_call(action: DesktopRecoveryAction) -> (call: RecoveryCall)
    ensures
        call == (match action {
            DesktopRecoveryAction::Retry => RecoveryCall::Retry,
            DesktopRecoveryAction::MarkFailed => RecoveryCall::ResolveFailed,
            DesktopRecoveryAction::Abort => RecoveryCall::ResolveAborted,
        }),
{
    match action {
        DesktopRecoveryAction::Retry => RecoveryCall::Retry,
        DesktopRecoveryAction::MarkFailed => RecoveryCall::ResolveFailed,
        DesktopRecoveryAction::Abort => RecoveryCall::ResolveAborted,
    }
}

/// The profile in force: that of the session, or the default of the project.
pub open spec fn profile_in_force(session_profile: Option<Seq<char>>, project_profile: Seq<char>) -> Seq<
    char,
> {
    match session_profile {
        Some(profile) => profile,
        None => project_profile,
    }
}

/// What a selection finds.
#[derive(Debug, PartialEq, Eq)]
pub struct SelectionFacts {
    pub selected_model_id: String,
    pub session_profile_id: Option<String>,
    pub project_profile_id: String,
    pub selection_pending: bool,
    pub operation_active: bool,
    pub draft_submitted: bool,
}

/// Whether that model or profile is the one in force.
pub open spec fn already_selected(
    selection: DesktopRuntimeSelectionKind,
    id: Seq<char>,
    facts: SelectionFacts,
) -> bool {
    match selection {
        DesktopRuntimeSelectionKind::Model => id == facts.selected_model_id@,
        DesktopRuntimeSelectionKind::SessionProfile => id == profile_in_force(
            optional_text(facts.session_profile_id),
            facts.project_profile_id@,
        ),
    }
}

/// Whether a model or a profile may be selected.
pub fn submit_selection(
    selection: DesktopRuntimeSelectionKind,
    id: &str,
    facts: &SelectionFacts,
) -> (gate: CommandGate)
    ensures
        already_selected(selection, id@, *facts) || facts.selection_pending ==> gate is Ignore,
        !(already_selected(selection, id@, *facts) || facts.selection_pending) && (
        facts.operation_active || facts.draft_submitted) ==> gate.refuses(
            refusal(
                "Model and profile selection is available only while idle."@,
                seq![UiRegion::Toast],
                true,
            ),
        ),
        !(already_selected(selection, id@, *facts) || facts.selection_pending) && !(
        facts.operation_active || facts.draft_submitted) ==> gate == CommandGate::Reserve(
            DesktopCommandIntent::Selection(selection),
        ),
        gate@ == selection_gate(selection, id@, *facts),
{
    let selected = match selection {
        DesktopRuntimeSelectionKind::Model => same_text(id, facts.selected_model_id.as_str()),
        DesktopRuntimeSelectionKind::SessionProfile => match &facts.session_profile_id {
            Some(profile) => same_text(id, profile.as_str()),
            None => same_text(id, facts.project_profile_id.as_str()),
        },
    };
    if selected || facts.selection_pending {
        CommandGate::Ignore
    } else if facts.operation_active || facts.draft_submitted {
        toast_refusal("Model and profile selection is available only while idle.")
    } else {
        CommandGate::Reserve(DesktopCommandIntent::Selection(selection))
    }
}

/// Whether a request for authorization may be answered.
pub fn decide_tool_authorization(
    decision_pending: bool,
    authorization_id: String,
    operation_id: String,
) -> (gate: CommandGate)
    ensures
        decision_pending ==> gate is Ignore,
        !decision_pending ==> gate == CommandGate::Reserve(
            DesktopCommandIntent::Authorization { authorization_id, operation_id },
        ),
        gate@ == decision_gate(decision_pending, authorization_id, operation_id),
{
    if decision_pending {
        CommandGate::Ignore
    } else {
        CommandGate::Reserve(DesktopCommandIntent::Authorization { authorization_id, operation_id })
    }
}

/// The notice that no more sessions can be open.
pub open spec fn full_words(limit: usize) -> Seq<char> {
    "Up to "@ + decimal(limit as nat) + " sessions can stay open; close one first."@
}

fn full_refusal(limit: usize) -> (gate: CommandGate)
    ensures
        gate.refuses(refusal(full_words(limit), seq![UiRegion::Sessions], false)),
{
    let refresh: Vec<UiRegion> = vec![UiRegion::Sessions];
    assert(refresh@ =~= seq![UiRegion::Sessions]);
    CommandGate::Refuse(
        refuse(
            join3(
                "Up to ",
                decimal_text(limit as u128).as_str(),
                " sessions can stay open; close one first.",
            ),
            refresh,
            false,
        ),
    )
}

/// What opening or creating a session finds.
#[derive(Debug, Clone, Copy, PartialEq, Eq, Structural)]
pub struct SessionGateFacts {
    pub open_sessions: usize,
    pub session_limit: usize,
    pub operation_active: bool,
    pub draft_submitted: bool,
    pub switch_pending: bool,
}

impl SessionGateFacts {
    pub open spec fn busy(self) -> bool {
        self.operation_active || self.draft_submitted || self.switch_pending
    }
}

/// Whether a session may be created.
pub fn create_session(facts: SessionGateFacts) -> (gate: CommandGate)
    ensures
        facts.open_sessions >= facts.session_limit ==> gate.refuses(
            refusal(full_words(facts.session_limit), seq![UiRegion::Sessions], false),
        ),
        facts.open_sessions < facts.session_limit && facts.busy() ==> gate is Ignore,
        facts.open_sessions < facts.session_limit && !facts.busy() ==> gate == CommandGate::Reserve(
            DesktopCommandIntent::CreateSession,
        ),
        gate@ == creation_gate(facts),
{
    if facts.open_sessions >= facts.session_limit {
        full_refusal(facts.session_limit)
    } else if facts.operation_active || facts.draft_submitted || facts.switch_pending {
        CommandGate::Ignore
    } else {
        CommandGate::Reserve(DesktopCommandIntent::CreateSession)
    }
}

fn silent_refusal(notice: &str) -> (gate: CommandGate)
    ensures
        gate.refuses(refusal(notice@, Seq::empty(), true)),
{
    let refresh: Vec<UiRegion> = Vec::new();
    assert(refresh@ =~= Seq::<UiRegion>::empty());
    CommandGate::Refuse(refuse(notice.to_owned(), refresh, true))
}

/// Whether that session is the active one.
pub open spec fn is_active(session_id: Seq<char>, active: Option<Seq<char>>) -> bool {
    active == Some(session_id)
}

/// Whether a session may be opened. One that is open already needs no room.
pub fn open_session(
    session_id: String,
    already_open: bool,
    active_session_id: &Option<String>,
    facts: SessionGateFacts,
) -> (gate: CommandGate)
    ensures
        !already_open && facts.open_sessions >= facts.session_limit ==> gate.refuses(
            refusal(full_words(facts.session_limit), seq![UiRegion::Sessions], false),
        ),
        (already_open || facts.open_sessions < facts.session_limit) && facts.busy()
            ==> gate.refuses(
            refusal(
                "Session switching is available only while the runtime is idle."@,
                Seq::empty(),
                true,
            ),
        ),
        (already_open || facts.open_sessions < facts.session_limit) && !facts.busy() && is_active(
            session_id@,
            optional_text(*active_session_id),
        ) ==> gate.refuses(
            refusal("The requested session is already active."@, Seq::empty(), true),
        ),
        (already_open || facts.open_sessions < facts.session_limit) && !facts.busy() && !is_active(
            session_id@,
            optional_text(*active_session_id),
        ) ==> gate == CommandGate::Reserve(DesktopCommandIntent::OpenSession { session_id }),
        gate@ == opening_gate(session_id, already_open, optional_text(*active_session_id), facts),
{
    if !already_open && facts.open_sessions >= facts.session_limit {
        return full_refusal(facts.session_limit);
    }
    if facts.operation_active || facts.draft_submitted || facts.switch_pending {
        return silent_refusal("Session switching is available only while the runtime is idle.");
    }
    let active = match active_session_id {
        Some(active) => same_text(session_id.as_str(), active.as_str()),
        None => false,
    };
    if active {
        return silent_refusal("The requested session is already active.");
    }
    CommandGate::Reserve(DesktopCommandIntent::OpenSession { session_id })
}

/// Whether the catalog may be asked for.
pub fn request_session_catalog(list_pending: bool) -> (gate: CommandGate)
    ensures
        gate == (if list_pending {
            CommandGate::Ignore
        } else {
            CommandGate::Reserve(DesktopCommandIntent::ListSessions)
        }),
        gate@ == listing_gate(list_pending),
{
    if list_pending {
        CommandGate::Ignore
    } else {
        CommandGate::Reserve(DesktopCommandIntent::ListSessions)
    }
}

/// Whether a session may be closed: it must be open.
pub fn close_session(session_id: String, open: bool) -> (gate: CommandGate)
    ensures
        !open ==> gate.refuses(
            refusal("Cannot close an unavailable session."@, seq![UiRegion::Sessions], false),
        ),
        open ==> gate == CommandGate::Reserve(DesktopCommandIntent::CloseSession { session_id }),
        gate@ == closing_gate(session_id, open),
{
    if !open {
        let refresh: Vec<UiRegion> = vec![UiRegion::Sessions];
        assert(refresh@ =~= seq![UiRegion::Sessions]);
        return CommandGate::Refuse(
            refuse("Cannot close an unavailable session.".to_owned(), refresh, false),
        );
    }
    CommandGate::Reserve(DesktopCommandIntent::CloseSession { session_id })
}

/// How switching to the next session goes on.
#[derive(Debug, PartialEq, Eq)]
pub enum SwitchStep {
    Refuse(CommandReply),
    Open(String),
}

/// How switching to the next session goes on, by what is said.
pub ghost enum SwitchStepView {
    Refuse(CommandReplyView),
    Open(String),
}

impl View for SwitchStep {
    type V = SwitchStepView;

    open spec fn view(&self) -> SwitchStepView {
        match *self {
            SwitchStep::Refuse(reply) => SwitchStepView::Refuse(reply@),
            SwitchStep::Open(session_id) => SwitchStepView::Open(session_id),
        }
    }
}

/// Decides on the session that the catalog names as the next one.
pub fn switch_next_session(next: Option<String>, active_session_id: &Option<String>) -> (step:
    SwitchStep)
    ensures
        next is None ==> step is Refuse && step->Refuse_0@ == refusal(
            "Refresh the session catalog before switching sessions."@,
            seq![UiRegion::Toast],
            true,
        ),
        next is Some && is_active(next->0@, optional_text(*active_session_id)) ==> step is Refuse
            && step->Refuse_0@ == refusal(
            "No other project session is available."@,
            seq![UiRegion::Toast],
            true,
        ),
        next is Some && !is_active(next->0@, optional_text(*active_session_id)) ==> step
            == SwitchStep::Open(next->0),
        step@ == switch_step(next, optional_text(*active_session_id)),
{
    let refresh: Vec<UiRegion> = vec![UiRegion::Toast];
    assert(refresh@ =~= seq![UiRegion::Toast]);
    let session_id = match next {
        Some(session_id) => session_id,
        None => {
            return SwitchStep::Refuse(
                refuse(
                    "Refresh the session catalog before switching sessions.".to_owned(),
                    refresh,
                    true,
                ),
            );
        },
    };
    let active = match active_session_id {
        Some(active) => same_text(session_id.as_str(), active.as_str()),
        None => false,
    };
    if active {
        return SwitchStep::Refuse(
            refuse("No other project session is available.".to_owned(), refresh, true),
        );
    }
    SwitchStep::Open(session_id)
}

/// Whether a changed file may be asked for.
pub fn request_file_review(review_pending: bool, request: FileReviewRequest) -> (gate: CommandGate)
    ensures
        review_pending ==> gate.refuses(
            refusal("Another file review is already pending."@, seq![UiRegion::Toast], true),
        ),
        !review_pending ==> gate == CommandGate::Reserve(
            DesktopCommandIntent::FileReview { request },
        ),
        gate@ == review_gate(review_pending, request),
{
    if review_pending {
        toast_refusal("Another file review is already pending.")
    } else {
        CommandGate::Reserve(DesktopCommandIntent::FileReview { request })
    }
}

/// What is said of a review command that finds no session.
pub open spec fn sessionless_words(intent: DesktopCommandIntent) -> Seq<char> {
    if intent is FileReview {
        "File review requires an open session."@
    } else {
        "External editor requires an open session."@
    }
}

/// The refusal of a review command that finds no session.
pub open spec fn session_refusal(intent: DesktopCommandIntent) -> CommandReplyView {
    CommandReplyView {
        notice: Some(sessionless_words(intent)),
        complete: true,
        rejection: None,
        refresh: seq![UiRegion::Inspector],
        notify: true,
    }
}

/// What follows when a reserved review command finds no session: the
/// reservation is given back.
pub fn session_required(intent: &DesktopCommandIntent) -> (reply: CommandReply)
    requires
        intent.requires_session(),
    ensures
        reply@ == session_refusal(*intent),
{
    let refresh: Vec<UiRegion> = vec![UiRegion::Inspector];
    assert(refresh@ =~= seq![UiRegion::Inspector]);
    let notice = match intent {
        DesktopCommandIntent::FileReview { .. } =>
            "File review requires an open session.".to_owned(),
        _ => "External editor requires an open session.".to_owned(),
    };
    CommandReply { notice: Some(notice), complete: true, rejection: None, refresh, notify: true }
}

/// Whether the reviewed file may be opened in an editor.
pub fn open_review_in_external_editor(
    editor_configured: bool,
    review_ready: bool,
    editor_target: Option<String>,
) -> (gate: CommandGate)
    ensures
        !editor_configured ==> gate.refuses(
            refusal(
                "Configure desktop.external_editor with a program and literal argv first."@,
                seq![UiRegion::Toast],
                true,
            ),
        ),
        editor_configured && !review_ready ==> gate.refuses(
            refusal("Load a changed-file review before opening it."@, seq![UiRegion::Toast], true),
        ),
        editor_configured && review_ready && editor_target is None ==> gate.refuses(
            refusal("This review has no external-editor target."@, seq![UiRegion::Toast], true),
        ),
        editor_configured && review_ready && editor_target is Some ==> gate == CommandGate::Reserve(
            DesktopCommandIntent::ExternalEditor { project_relative_path: editor_target->0 },
        ),
        gate@ == editor_gate(editor_configured, review_ready, editor_target),
{
    if !editor_configured {
        return toast_refusal(
            "Configure desktop.external_editor with a program and literal argv first.",
        );
    }
    if !review_ready {
        return toast_refusal("Load a changed-file review before opening it.");
    }
    match editor_target {
        Some(project_relative_path) => CommandGate::Reserve(
            DesktopCommandIntent::ExternalEditor { project_relative_path },
        ),
        None => toast_refusal("This review has no external-editor target."),
    }
}

/// The work that a command has asked for last.
#[derive(Debug, Clone, Copy, PartialEq, Eq, Structural)]
pub enum CommandStage {
    Reserving,
    TakingDraft,
    FindingSession,
    Submitting,
}

impl CommandStage {
    /// Whether a command comes to that work at all.
    pub open spec fn belongs_to(self, intent: DesktopCommandIntent) -> bool {
        match self {
            CommandStage::Reserving => true,
            CommandStage::TakingDraft => intent.submits_draft(),
            CommandStage::FindingSession => intent.requires_session(),
            CommandStage::Submitting => true,
        }
    }

    /// How far a command is.
    pub open spec fn progress(self) -> nat {
        match self {
            CommandStage::Reserving => 0,
            CommandStage::TakingDraft => 1,
            CommandStage::FindingSession => 1,
            CommandStage::Submitting => 2,
        }
    }
}

/// What came of the work that a command has asked for.
#[derive(Debug, PartialEq, Eq)]
pub enum CommandEvent {
    Reserved,
    ReservationFailed(String),
    DraftTaken,
    DraftFailed(String),
    SessionFound,
    SessionMissing,
    /// The runtime has answered. The label is that of the recovery action.
    Answered { recovery_label: String, answer: RuntimeAnswer },
}

/// What a command asks for next.
#[derive(Debug, PartialEq, Eq)]
pub enum CommandStep {
    /// Nothing: the event does not answer the work that was asked for.
    Wait,
    TakeDraft(ComposerSubmissionKind),
    FindSession,
    Submit,
    /// The catalog takes the answer, and its reply ends the command.
    SettleCatalog(RuntimeAnswer),
    /// The review takes the answer, and its reply ends the command.
    SettleReview(RuntimeAnswer),
    /// The command ends.
    Finish(CommandReply),
}

/// What a command asks for next, by what is said.
pub ghost enum CommandStepView {
    Wait,
    TakeDraft(ComposerSubmissionKind),
    FindSession,
    Submit,
    SettleCatalog(RuntimeAnswer),
    SettleReview(RuntimeAnswer),
    Finish(CommandReplyView),
}

impl View for CommandStep {
    type V = CommandStepView;

    open spec fn view(&self) -> CommandStepView {
        match *self {
            CommandStep::Wait => CommandStepView::Wait,
            CommandStep::TakeDraft(kind) => CommandStepView::TakeDraft(kind),
            CommandStep::FindSession => CommandStepView::FindSession,
            CommandStep::Submit => CommandStepView::Submit,
            CommandStep::SettleCatalog(answer) => CommandStepView::SettleCatalog(answer),
            CommandStep::SettleReview(answer) => CommandStepView::SettleReview(answer),
            CommandStep::Finish(reply) => CommandStepView::Finish(reply@),
        }
    }
}

impl CommandStepView {
    /// The stage at which a step leaves its command, while it is on its way.
    pub open spec fn stage(self) -> Option<CommandStage> {
        match self {
            CommandStepView::TakeDraft(_) => Some(CommandStage::TakingDraft),
            CommandStepView::FindSession => Some(CommandStage::FindingSession),
            CommandStepView::Submit => Some(CommandStage::Submitting),
            _ => None,
        }
    }
}

impl CommandStep {
    /// The stage at which the step leaves its command, while it is on its way.
    pub fn stage(&self) -> (stage: Option<CommandStage>)
        ensures
            stage == self@.stage(),
    {
        match self {
            CommandStep::TakeDraft(_) => Some(CommandStage::TakingDraft),
            CommandStep::FindSession => Some(CommandStage::FindingSession),
            CommandStep::Submit => Some(CommandStage::Submitting),
            _ => None,
        }
    }
}

/// The step of a command that has its reservation: the draft comes first, or the
/// session, where the command is about one.
pub open spec fn step_once_reserved(intent: DesktopCommandIntent) -> CommandStepView {
    match intent.draft_kind() {
        Some(kind) => CommandStepView::TakeDraft(kind),
        None => if intent.requires_session() {
            CommandStepView::FindSession
        } else {
            CommandStepView::Submit
        },
    }
}

/// The step of a command that the runtime has answered.
pub open spec fn step_once_answered(
    intent: DesktopCommandIntent,
    recovery_label: Seq<char>,
    answer: RuntimeAnswer,
) -> CommandStepView {
    match intent {
        DesktopCommandIntent::ListSessions => CommandStepView::SettleCatalog(answer),
        DesktopCommandIntent::FileReview { .. } => CommandStepView::SettleReview(answer),
        _ => CommandStepView::Finish(settled(intent, recovery_label, answer)),
    }
}

/// The next step of a command.
pub open spec fn command_step(
    intent: DesktopCommandIntent,
    stage: CommandStage,
    event: CommandEvent,
) -> CommandStepView {
    if !stage.belongs_to(intent) {
        CommandStepView::Wait
    } else {
        match (stage, event) {
            (CommandStage::Reserving, CommandEvent::Reserved) => step_once_reserved(intent),
            (CommandStage::Reserving, CommandEvent::ReservationFailed(error)) =>
                CommandStepView::Finish(
                    refusal(error@, reservation_refresh(intent), reservation_notifies(intent)),
                ),
            (CommandStage::TakingDraft, CommandEvent::DraftTaken) => CommandStepView::Submit,
            (CommandStage::TakingDraft, CommandEvent::DraftFailed(error)) =>
                CommandStepView::Finish(draft_refusal(error@)),
            (CommandStage::FindingSession, CommandEvent::SessionFound) => CommandStepView::Submit,
            (CommandStage::FindingSession, CommandEvent::SessionMissing) =>
                CommandStepView::Finish(session_refusal(intent)),
            (CommandStage::Submitting, CommandEvent::Answered { recovery_label, answer }) =>
                step_once_answered(intent, recovery_label@, answer),
            _ => CommandStepView::Wait,
        }
    }
}

/// Takes what came of the work that a command has asked for, and says what it
/// asks for next. A command is reserved first; then the draft is taken, or the
/// session found, where it needs one; then the runtime is asked; and its answer
/// ends the command. Whatever ends it gives a reservation back that the runtime
/// has not taken up.
pub fn next_command_step(
    intent: &DesktopCommandIntent,
    stage: CommandStage,
    event: CommandEvent,
) -> (step: CommandStep)
    ensures
        step@ == command_step(*intent, stage, event),
{
    match (stage, event) {
        (CommandStage::Reserving, CommandEvent::Reserved) => match intent.draft() {
            Some(kind) => CommandStep::TakeDraft(kind),
            None => if intent.needs_session() {
                CommandStep::FindSession
            } else {
                CommandStep::Submit
            },
        },
        (CommandStage::Reserving, CommandEvent::ReservationFailed(error)) => CommandStep::Finish(
            reservation_refused(intent, error),
        ),
        (CommandStage::TakingDraft, CommandEvent::DraftTaken) => if intent.draft().is_some() {
            CommandStep::Submit
        } else {
            CommandStep::Wait
        },
        (CommandStage::TakingDraft, CommandEvent::DraftFailed(error)) =>
            if intent.draft().is_some() {
                CommandStep::Finish(draft_refused(error))
            } else {
                CommandStep::Wait
            },
        (CommandStage::FindingSession, CommandEvent::SessionFound) => if intent.needs_session() {
            CommandStep::Submit
        } else {
            CommandStep::Wait
        },
        (CommandStage::FindingSession, CommandEvent::SessionMissing) => if intent.needs_session() {
            CommandStep::Finish(session_required(intent))
        } else {
            CommandStep::Wait
        },
        (CommandStage::Submitting, CommandEvent::Answered { recovery_label, answer }) =>
            match intent {
                DesktopCommandIntent::ListSessions => CommandStep::SettleCatalog(answer),
                DesktopCommandIntent::FileReview { .. } => CommandStep::SettleReview(answer),
                _ => CommandStep::Finish(settle(intent, recovery_label.as_str(), answer)),
            },
        _ => CommandStep::Wait,
    }
}

/// Every command ends: a step either leads on to later work or is the last.
pub proof fn law_commands_get_on(
    intent: DesktopCommandIntent,
    stage: CommandStage,
    event: CommandEvent,
)
    ensures
        command_step(intent, stage, event).stage() matches Some(next) ==> next.belongs_to(intent)
            && next.progress() > stage.progress(),
{
}

/// The runtime is not asked before the command is reserved, nor before the draft
/// that it carries is taken, nor before the session that it is about is found.
pub proof fn law_runtime_is_asked_last(
    intent: DesktopCommandIntent,
    stage: CommandStage,
    event: CommandEvent,
)
    requires
        command_step(intent, stage, event) is Submit,
    ensures
        intent.submits_draft() ==> event is DraftTaken,
        intent.requires_session() ==> event is SessionFound,
        !intent.submits_draft() && !intent.requires_session() ==> event is Reserved,
{
}

/// A command that ends gives its reservation back exactly where it had one and
/// the runtime did not admit it.
pub proof fn law_ended_commands_keep_no_idle_reservation(
    intent: DesktopCommandIntent,
    stage: CommandStage,
    event: CommandEvent,
)
    ensures
        command_step(intent, stage, event) matches CommandStepView::Finish(reply) ==> (
        reply.complete <==> !(event is ReservationFailed) && !(event matches CommandEvent::Answered {
            answer,
            ..
        } && answer is Admitted)),
{
}

proof fn lemma_takes_images_at(models: Seq<ModelFacts>, index: int)
    requires
        0 <= index < models.len(),
        forall|i: int| 0 <= i < index ==> (#[trigger] models[i]).id@ != models[index].id@,
    ensures
        takes_images(models, models[index].id@) == models[index].supports_images,
    decreases index,
{
    if index > 0 {
        let rest = models.skip(1);
        assert(models[0].id@ != models[index].id@);
        assert forall|i: int| 0 <= i < index - 1 implies (#[trigger] rest[i]).id@ != rest[index
            - 1].id@ by {
            assert(rest[i] == models[i + 1]);
        }
        lemma_takes_images_at(rest, index - 1);
    }
}

proof fn lemma_unknown_model_takes_no_images(models: Seq<ModelFacts>, id: Seq<char>)
    requires
        forall|i: int| 0 <= i < models.len() ==> (#[trigger] models[i]).id@ != id,
    ensures
        !takes_images(models, id),
    decreases models.len(),
{
    if models.len() > 0 {
        let rest = models.skip(1);
        assert forall|i: int| 0 <= i < rest.len() implies (#[trigger] rest[i]).id@ != id by {
            assert(rest[i] == models[i + 1]);
        }
        lemma_unknown_model_takes_no_images(rest, id);
    }
}

/// A prompt with attachments is reserved exactly where the selected model itself
/// takes images, whatever the other models take; without attachments every model
/// will do.
pub proof fn law_images_need_the_selected_model(models: Seq<ModelFacts>, index: int)
    requires
        0 <= index < models.len(),
        forall|i: int, j: int|
            0 <= i < j < models.len() ==> (#[trigger] models[i]).id@ != (#[trigger] models[j]).id@,
    ensures
        prompt_gate(true, models, models[index].id@) == CommandGateView::Reserve(
            DesktopCommandIntent::Prompt,
        ) <==> models[index].supports_images,
        !models[index].supports_images ==> prompt_gate(true, models, models[index].id@)
            == CommandGateView::Refuse(
            CommandReplyView {
                notice: Some(
                    "Selected model does not support image attachments; the draft was retained."@,
                ),
                complete: false,
                rejection: None,
                refresh: seq![UiRegion::Composer, UiRegion::Toast],
                notify: true,
            },
        ),
        prompt_gate(false, models, models[index].id@) == CommandGateView::Reserve(
            DesktopCommandIntent::Prompt,
        ),
{
    lemma_takes_images_at(models, index);
}

/// Where no model has the selected name, a prompt goes without attachments only.
pub proof fn law_images_need_a_known_model(models: Seq<ModelFacts>, id: Seq<char>)
    requires
        forall|i: int| 0 <= i < models.len() ==> (#[trigger] models[i]).id@ != id,
    ensures
        prompt_gate(true, models, id) is Refuse,
        prompt_gate(false, models, id) == CommandGateView::Reserve(DesktopCommandIntent::Prompt),
{
    lemma_unknown_model_takes_no_images(models, id);
}

/// A running operation takes no attachments and no prompt; what steers it is a
/// steer, and what follows it a follow-up. A refused draft is kept: the notice says
/// so, and no reservation is given back.
pub proof fn law_running_operations_take_plain_drafts(
    kind: ComposerSubmissionKind,
    has_attachments: bool,
)
    ensures
        control_gate(kind, has_attachments) == CommandGateView::Reserve(
            DesktopCommandIntent::Steer,
        ) <==> kind is Steer && !has_attachments,
        control_gate(kind, has_attachments) == CommandGateView::Reserve(
            DesktopCommandIntent::FollowUp,
        ) <==> kind is FollowUp && !has_attachments,
        control_gate(kind, has_attachments) != CommandGateView::Reserve(
            DesktopCommandIntent::Prompt,
        ),
        has_attachments ==> control_gate(kind, has_attachments) == CommandGateView::Refuse(
            CommandReplyView {
                notice: Some(
                    "Attachments cannot be added to a running operation; the draft was retained."@,
                ),
                complete: false,
                rejection: None,
                refresh: seq![UiRegion::Composer, UiRegion::Toast],
                notify: true,
            },
        ),
        !has_attachments && kind is Prompt ==> control_gate(kind, has_attachments)
            == CommandGateView::Refuse(
            CommandReplyView {
                notice: Some("Prompt submissions must use the idle composer action."@),
                complete: false,
                rejection: None,
                refresh: seq![UiRegion::Toast],
                notify: true,
            },
        ),
{
}

/// Sent while an operation runs, a draft is a follow-up; inserted, it steers; and
/// while none runs, both are prompts.
pub proof fn law_drafts_go_by_the_operation(
    operation_active: bool,
    models: Seq<ModelFacts>,
    selected_model_id: Seq<char>,
)
    ensures
        ({
            let sent = draft_gate(sent_kind(operation_active), false, models, selected_model_id);
            let inserted = draft_gate(
                inserted_kind(operation_active),
                false,
                models,
                selected_model_id,
            );
            if operation_active {
                sent == CommandGateView::Reserve(DesktopCommandIntent::FollowUp) && inserted
                    == CommandGateView::Reserve(DesktopCommandIntent::Steer)
            } else {
                sent == CommandGateView::Reserve(DesktopCommandIntent::Prompt) && inserted
                    == CommandGateView::Reserve(DesktopCommandIntent::Prompt)
            }
        }),
{
}

/// A command that was not admitted says why in the words of the failure: those of
/// the runtime where it gave any. The composer hears of a draft, the workspace of
/// everything else.
pub proof fn law_failures_are_told_in_their_own_words(
    intent: DesktopCommandIntent,
    recovery_label: Seq<char>,
    message: String,
)
    ensures
        ({
            let reply = settled(intent, recovery_label, RuntimeAnswer::Rejected(message));
            if intent is Prompt || intent is Steer || intent is FollowUp {
                reply.rejection == Some(message@) && reply.notice is None
            } else {
                reply.notice == Some(message@) && reply.rejection is None
            }
        }),
        ({
            let reply = settled(intent, recovery_label, RuntimeAnswer::NoSession);
            let words = "desktop session is unavailable"@;
            if intent is Prompt || intent is Steer || intent is FollowUp {
                reply.rejection == Some(words) && reply.notice is None
            } else {
                reply.notice == Some(words) && reply.rejection is None
            }
        }),
        ({
            let reply = settled(intent, recovery_label, RuntimeAnswer::Stopped);
            let words = if intent is FileReview || intent is ExternalEditor || intent is CloseSession
                || intent is DeleteSession {
                "desktop runtime is unavailable"@
            } else {
                "desktop runtime is stopped"@
            };
            if intent is Prompt || intent is Steer || intent is FollowUp {
                reply.rejection == Some(words) && reply.notice is None
            } else {
                reply.notice == Some(words) && reply.rejection is None
            }
        }),
{
}

/// An admitted command keeps its reservation and rejects nothing. It says what is
/// under way where there is anything to wait for, and of which session, file or
/// action.
pub proof fn law_admitted_commands_say_what_is_under_way(
    intent: DesktopCommandIntent,
    recovery_label: Seq<char>,
)
    ensures
        ({
            let reply = settled(intent, recovery_label, RuntimeAnswer::Admitted);
            &&& !reply.complete
            &&& reply.rejection is None
            &&& match intent {
                DesktopCommandIntent::Abort { .. } => reply.notice == Some("Abort requested…"@),
                DesktopCommandIntent::Reload => reply.notice == Some(
                    "Reloading local resources…"@,
                ),
                DesktopCommandIntent::Recovery { .. } => reply.notice == Some(
                    "Submitting recovery "@ + recovery_label + "…"@,
                ),
                DesktopCommandIntent::Selection(_) => reply.notice == Some("Applying selection…"@),
                DesktopCommandIntent::Authorization { .. } => reply.notice == Some(
                    "Authorization decision pending…"@,
                ),
                DesktopCommandIntent::CreateSession => reply.notice == Some(
                    "Creating a new session…"@,
                ),
                DesktopCommandIntent::OpenSession { session_id } => session_id@.len() <= 32
                    ==> reply.notice == Some("Opening session "@ + session_id@ + "…"@),
                DesktopCommandIntent::FileReview { .. } => reply.notice == Some(
                    "Loading changed-file review…"@,
                ),
                DesktopCommandIntent::ExternalEditor { project_relative_path } =>
                    project_relative_path@.len() <= 48 ==> reply.notice == Some(
                        "Validating "@ + project_relative_path@ + " before editor launch…"@,
                    ),
                _ => reply.notice is None,
            }
        }),
{
}

/// What is said is shown: a notice of the workspace refreshes the toast or a pane
/// that brings it along, a rejected draft the composer.
pub proof fn law_replies_are_shown(
    intent: DesktopCommandIntent,
    recovery_label: Seq<char>,
    answer: RuntimeAnswer,
)
    requires
        !(intent is Resync),
    ensures
        ({
            let reply = settled(intent, recovery_label, answer);
            &&& reply.notice is Some ==> reply.refresh.contains(UiRegion::Toast)
                || reply.refresh.contains(UiRegion::Sessions) || reply.refresh.contains(
                UiRegion::Inspector,
            )
            &&& reply.rejection is Some ==> reply.refresh.contains(UiRegion::Composer)
        }),
{
    let refresh = settled(intent, recovery_label, answer).refresh;
    assert(refresh.len() > 0);
    assert(refresh.contains(refresh[0]));
}

/// The panes that a command is about are refreshed by its answer, in their order.
pub proof fn law_answers_refresh_their_panes(
    intent: DesktopCommandIntent,
    recovery_label: Seq<char>,
    answer: RuntimeAnswer,
)
    ensures
        ({
            let reply = settled(intent, recovery_label, answer);
            &&& intent is Prompt || intent is Steer || intent is FollowUp ==> reply.refresh == seq![
                UiRegion::Composer,
                UiRegion::Inspector,
                UiRegion::ConversationHeader,
            ]
            &&& intent is Abort || intent is Reload || intent is Selection ==> reply.refresh
                == seq![UiRegion::Toast, UiRegion::ConversationHeader]
            &&& intent is Authorization ==> reply.refresh == seq![UiRegion::Toast, UiRegion::Modal]
            &&& intent is Recovery || intent is FileReview || intent is ExternalEditor
                ==> reply.refresh == seq![UiRegion::Inspector]
            &&& intent is CreateSession || intent is OpenSession || intent is CloseSession
                || intent is DeleteSession ==> reply.refresh == seq![UiRegion::Sessions]
            &&& intent is ListSessions || intent is RenameSession ==> reply.refresh == (
            if answer is Admitted {
                seq![UiRegion::Sessions]
            } else {
                seq![UiRegion::Toast, UiRegion::Sessions]
            })
            &&& reply.notify == !(intent is CloseSession || intent is DeleteSession
                || intent is Resync)
        }),
{
}

/// A reservation that failed is refused in the words of the failure, with nothing to
/// give back; a draft or a session that is missing gives the reservation back.
pub proof fn law_commands_that_stop_early_say_why(
    intent: DesktopCommandIntent,
    error: String,
)
    ensures
        command_step(
            intent,
            CommandStage::Reserving,
            CommandEvent::ReservationFailed(error),
        ) matches CommandStepView::Finish(reply) && reply.notice == Some(error@)
            && !reply.complete && reply.rejection is None,
        intent is Prompt || intent is Steer || intent is FollowUp ==> command_step(
            intent,
            CommandStage::TakingDraft,
            CommandEvent::DraftFailed(error),
        ) == CommandStepView::Finish(
            CommandReplyView {
                notice: Some(error@),
                complete: true,
                rejection: None,
                refresh: seq![UiRegion::Composer, UiRegion::Toast],
                notify: true,
            },
        ),
        intent is FileReview || intent is ExternalEditor ==> command_step(
            intent,
            CommandStage::FindingSession,
            CommandEvent::SessionMissing,
        ) == CommandStepView::Finish(
            CommandReplyView {
                notice: Some(
                    if intent is FileReview {
                        "File review requires an open session."@
                    } else {
                        "External editor requires an open session."@
                    },
                ),
                complete: true,
                rejection: None,
                refresh: seq![UiRegion::Inspector],
                notify: true,
            },
        ),
{
}

/// Once reserved, a draft is taken as what it is; a review or the editor looks for
/// its session; everything else goes to the runtime at once. Once the draft is taken
/// or the session found, the runtime is asked.
pub proof fn law_commands_go_through_their_steps(intent: DesktopCommandIntent)
    ensures
        ({
            let first = command_step(intent, CommandStage::Reserving, CommandEvent::Reserved);
            &&& intent is Prompt ==> first == CommandStepView::TakeDraft(
                ComposerSubmissionKind::Prompt,
            )
            &&& intent is Steer ==> first == CommandStepView::TakeDraft(
                ComposerSubmissionKind::Steer,
            )
            &&& intent is FollowUp ==> first == CommandStepView::TakeDraft(
                ComposerSubmissionKind::FollowUp,
            )
            &&& intent is FileReview || intent is ExternalEditor ==> first is FindSession
            &&& !(intent is Prompt || intent is Steer || intent is FollowUp || intent is FileReview
                || intent is ExternalEditor) ==> first is Submit
        }),
        intent is Prompt || intent is Steer || intent is FollowUp ==> command_step(
            intent,
            CommandStage::TakingDraft,
            CommandEvent::DraftTaken,
        ) is Submit,
        intent is FileReview || intent is ExternalEditor ==> command_step(
            intent,
            CommandStage::FindingSession,
            CommandEvent::SessionFound,
        ) is Submit,
{
}

/// The answer of the runtime ends every command: the catalog and the review take
/// theirs, and the others are settled by it.
pub proof fn law_answers_end_commands(
    intent: DesktopCommandIntent,
    recovery_label: String,
    answer: RuntimeAnswer,
)
    ensures
        ({
            let last = command_step(
                intent,
                CommandStage::Submitting,
                CommandEvent::Answered { recovery_label, answer },
            );
            &&& last.stage() is None
            &&& intent is ListSessions ==> last == CommandStepView::SettleCatalog(answer)
            &&& intent is FileReview ==> last == CommandStepView::SettleReview(answer)
            &&& !(intent is ListSessions || intent is FileReview) ==> last is Finish && last->Finish_0
                == settled(intent, recovery_label@, answer)
        }),
{
}

/// What is in force is not selected again: a model by its name, a profile by that of
/// the session, or of the project where the session has none.
pub proof fn law_selection_is_compared_with_what_is_in_force(
    id: Seq<char>,
    facts: SelectionFacts,
)
    ensures
        already_selected(DesktopRuntimeSelectionKind::Model, id, facts) <==> id
            == facts.selected_model_id@,
        facts.session_profile_id is Some ==> (already_selected(
            DesktopRuntimeSelectionKind::SessionProfile,
            id,
            facts,
        ) <==> id == facts.session_profile_id->0@),
        facts.session_profile_id is None ==> (already_selected(
            DesktopRuntimeSelectionKind::SessionProfile,
            id,
            facts,
        ) <==> id == facts.project_profile_id@),
{
}

/// Commands of a kind hold back only those of their own kind, and creating and
/// opening a session hold each other back.
pub proof fn law_pending_kinds_are_their_own(kind: PendingKind, intent: DesktopCommandIntent)
    ensures
        kind.covers(intent) <==> match intent {
            DesktopCommandIntent::Abort { .. } => kind is Abort,
            DesktopCommandIntent::Reload => kind is Reload,
            DesktopCommandIntent::Recovery { .. } => kind is Recovery,
            DesktopCommandIntent::Selection(_) => kind is Selection,
            DesktopCommandIntent::Authorization { .. } => kind is Authorization,
            DesktopCommandIntent::CreateSession => kind is SessionSwitch,
            DesktopCommandIntent::OpenSession { .. } => kind is SessionSwitch,
            DesktopCommandIntent::ListSessions => kind is SessionList,
            DesktopCommandIntent::FileReview { .. } => kind is FileReview,
            _ => false,
        },
{
}

/// How an abort begins.
pub open spec fn abort_gate(abort_pending: bool, active_operation: Option<String>) -> CommandGateView {
    if abort_pending {
        CommandGateView::Ignore
    } else {
        match active_operation {
            Some(operation_id) => CommandGateView::Reserve(
                DesktopCommandIntent::Abort { operation_id },
            ),
            None => CommandGateView::Refuse(
                refusal(
                    "No active operation is available to abort."@,
                    seq![UiRegion::Toast],
                    true,
                ),
            ),
        }
    }
}

/// How loading local resources again begins.
pub open spec fn reload_gate(
    reload_pending: bool,
    operation_active: bool,
    draft_submitted: bool,
) -> CommandGateView {
    if reload_pending {
        CommandGateView::Ignore
    } else if operation_active || draft_submitted {
        CommandGateView::Refuse(
            refusal(
                "Reload is available only while the runtime is idle."@,
                seq![UiRegion::Toast],
                true,
            ),
        )
    } else {
        CommandGateView::Reserve(DesktopCommandIntent::Reload)
    }
}

/// How an action on a recovery begins.
pub open spec fn recovery_gate(
    recovery_pending: bool,
    operation_active: bool,
    draft_submitted: bool,
    recovery_id: String,
    action: DesktopRecoveryAction,
) -> CommandGateView {
    if recovery_pending {
        CommandGateView::Ignore
    } else if operation_active || draft_submitted {
        CommandGateView::Refuse(
            refusal(
                "Recovery actions are available only while the runtime is idle."@,
                seq![UiRegion::Toast],
                true,
            ),
        )
    } else {
        CommandGateView::Reserve(DesktopCommandIntent::Recovery { recovery_id, action })
    }
}

/// How a selection begins.
pub open spec fn selection_gate(
    selection: DesktopRuntimeSelectionKind,
    id: Seq<char>,
    facts: SelectionFacts,
) -> CommandGateView {
    if already_selected(selection, id, facts) || facts.selection_pending {
        CommandGateView::Ignore
    } else if facts.operation_active || facts.draft_submitted {
        CommandGateView::Refuse(
            refusal(
                "Model and profile selection is available only while idle."@,
                seq![UiRegion::Toast],
                true,
            ),
        )
    } else {
        CommandGateView::Reserve(DesktopCommandIntent::Selection(selection))
    }
}

/// How the answer to a request for authorization begins.
pub open spec fn decision_gate(
    decision_pending: bool,
    authorization_id: String,
    operation_id: String,
) -> CommandGateView {
    if decision_pending {
        CommandGateView::Ignore
    } else {
        CommandGateView::Reserve(
            DesktopCommandIntent::Authorization { authorization_id, operation_id },
        )
    }
}

/// How the creation of a session begins.
pub open spec fn creation_gate(facts: SessionGateFacts) -> CommandGateView {
    if facts.open_sessions >= facts.session_limit {
        CommandGateView::Refuse(
            refusal(full_words(facts.session_limit), seq![UiRegion::Sessions], false),
        )
    } else if facts.busy() {
        CommandGateView::Ignore
    } else {
        CommandGateView::Reserve(DesktopCommandIntent::CreateSession)
    }
}

/// How opening a session begins.
pub open spec fn opening_gate(
    session_id: String,
    already_open: bool,
    active: Option<Seq<char>>,
    facts: SessionGateFacts,
) -> CommandGateView {
    if !already_open && facts.open_sessions >= facts.session_limit {
        CommandGateView::Refuse(
            refusal(full_words(facts.session_limit), seq![UiRegion::Sessions], false),
        )
    } else if facts.busy() {
        CommandGateView::Refuse(
            refusal(
                "Session switching is available only while the runtime is idle."@,
                Seq::empty(),
                true,
            ),
        )
    } else if is_active(session_id@, active) {
        CommandGateView::Refuse(
            refusal("The requested session is already active."@, Seq::empty(), true),
        )
    } else {
        CommandGateView::Reserve(DesktopCommandIntent::OpenSession { session_id })
    }
}

/// How asking for the catalog begins.
pub open spec fn listing_gate(list_pending: bool) -> CommandGateView {
    if list_pending {
        CommandGateView::Ignore
    } else {
        CommandGateView::Reserve(DesktopCommandIntent::ListSessions)
    }
}

/// How closing a session begins.
pub open spec fn closing_gate(session_id: String, open: bool) -> CommandGateView {
    if open {
        CommandGateView::Reserve(DesktopCommandIntent::CloseSession { session_id })
    } else {
        CommandGateView::Refuse(
            refusal("Cannot close an unavailable session."@, seq![UiRegion::Sessions], false),
        )
    }
}

/// How switching to the next session goes on.
pub open spec fn switch_step(next: Option<String>, active: Option<Seq<char>>) -> SwitchStepView {
    match next {
        None => SwitchStepView::Refuse(
            refusal(
                "Refresh the session catalog before switching sessions."@,
                seq![UiRegion::Toast],
                true,
            ),
        ),
        Some(session_id) => if is_active(session_id@, active) {
            SwitchStepView::Refuse(
                refusal("No other project session is available."@, seq![UiRegion::Toast], true),
            )
        } else {
            SwitchStepView::Open(session_id)
        },
    }
}

/// How a review begins.
pub open spec fn review_gate(review_pending: bool, request: FileReviewRequest) -> CommandGateView {
    if review_pending {
        CommandGateView::Refuse(
            refusal("Another file review is already pending."@, seq![UiRegion::Toast], true),
        )
    } else {
        CommandGateView::Reserve(DesktopCommandIntent::FileReview { request })
    }
}

/// How opening the editor begins.
pub open spec fn editor_gate(
    editor_configured: bool,
    review_ready: bool,
    editor_target: Option<String>,
) -> CommandGateView {
    if !editor_configured {
        CommandGateView::Refuse(
            refusal(
                "Configure desktop.external_editor with a program and literal argv first."@,
                seq![UiRegion::Toast],
                true,
            ),
        )
    } else if !review_ready {
        CommandGateView::Refuse(
            refusal("Load a changed-file review before opening it."@, seq![UiRegion::Toast], true),
        )
    } else {
        match editor_target {
            Some(project_relative_path) => CommandGateView::Reserve(
                DesktopCommandIntent::ExternalEditor { project_relative_path },
            ),
            None => CommandGateView::Refuse(
                refusal("This review has no external-editor target."@, seq![UiRegion::Toast], true),
            ),
        }
    }
}

/// Whether a command is refused with that notice, which shows in those regions:
/// nothing was reserved, so nothing is given back.
pub open spec fn refused_with(
    gate: CommandGateView,
    notice: Seq<char>,
    refresh: Seq<UiRegion>,
    notify: bool,
) -> bool {
    gate == CommandGateView::Refuse(
        CommandReplyView { notice: Some(notice), complete: false, rejection: None, refresh, notify },
    )
}

/// The operation that runs is aborted, and only that one; a second abort waits for
/// the first, and without an operation the user is told.
pub proof fn law_aborts_are_of_the_running_operation(
    abort_pending: bool,
    active_operation: Option<String>,
    operation_id: String,
)
    ensures
        abort_gate(abort_pending, active_operation) == CommandGateView::Reserve(
            DesktopCommandIntent::Abort { operation_id },
        ) <==> !abort_pending && active_operation == Some(operation_id),
        abort_gate(abort_pending, active_operation) is Ignore <==> abort_pending,
        !abort_pending && active_operation is None ==> refused_with(
            abort_gate(abort_pending, active_operation),
            "No active operation is available to abort."@,
            seq![UiRegion::Toast],
            true,
        ),
{
}

/// Resources are loaded again, and recoveries acted on, only while the runtime idles,
/// and not twice at a time.
pub proof fn law_idle_work_waits_for_the_runtime(
    pending: bool,
    operation_active: bool,
    draft_submitted: bool,
    recovery_id: String,
    action: DesktopRecoveryAction,
)
    ensures
        reload_gate(pending, operation_active, draft_submitted) == CommandGateView::Reserve(
            DesktopCommandIntent::Reload,
        ) <==> !pending && !operation_active && !draft_submitted,
        reload_gate(pending, operation_active, draft_submitted) is Ignore <==> pending,
        !pending && (operation_active || draft_submitted) ==> refused_with(
            reload_gate(pending, operation_active, draft_submitted),
            "Reload is available only while the runtime is idle."@,
            seq![UiRegion::Toast],
            true,
        ),
        recovery_gate(pending, operation_active, draft_submitted, recovery_id, action)
            == CommandGateView::Reserve(DesktopCommandIntent::Recovery { recovery_id, action })
            <==> !pending && !operation_active && !draft_submitted,
        recovery_gate(pending, operation_active, draft_submitted, recovery_id, action) is Ignore
            <==> pending,
        !pending && (operation_active || draft_submitted) ==> refused_with(
            recovery_gate(pending, operation_active, draft_submitted, recovery_id, action),
            "Recovery actions are available only while the runtime is idle."@,
            seq![UiRegion::Toast],
            true,
        ),
{
}

/// A model or a profile is selected only where it is another one, while the runtime
/// idles and no selection is under way.
pub proof fn law_selections_change_something(id: Seq<char>, facts: SelectionFacts)
    ensures
        selection_gate(DesktopRuntimeSelectionKind::Model, id, facts) == CommandGateView::Reserve(
            DesktopCommandIntent::Selection(DesktopRuntimeSelectionKind::Model),
        ) <==> id != facts.selected_model_id@ && !facts.selection_pending
            && !facts.operation_active && !facts.draft_submitted,
        selection_gate(DesktopRuntimeSelectionKind::SessionProfile, id, facts)
            == CommandGateView::Reserve(
            DesktopCommandIntent::Selection(DesktopRuntimeSelectionKind::SessionProfile),
        ) <==> id != (if facts.session_profile_id is Some {
            facts.session_profile_id->0@
        } else {
            facts.project_profile_id@
        }) && !facts.selection_pending && !facts.operation_active && !facts.draft_submitted,
        id == facts.selected_model_id@ || facts.selection_pending ==> selection_gate(
            DesktopRuntimeSelectionKind::Model,
            id,
            facts,
        ) is Ignore,
        id != facts.selected_model_id@ && !facts.selection_pending && (facts.operation_active
            || facts.draft_submitted) ==> refused_with(
            selection_gate(DesktopRuntimeSelectionKind::Model, id, facts),
            "Model and profile selection is available only while idle."@,
            seq![UiRegion::Toast],
            true,
        ),
{
}

/// A request for authorization is answered once: under its own names, and not while
/// another answer is on its way.
pub proof fn law_authorizations_are_answered_once(
    decision_pending: bool,
    authorization_id: String,
    operation_id: String,
)
    ensures
        decision_gate(true, authorization_id, operation_id) is Ignore,
        decision_gate(false, authorization_id, operation_id) == CommandGateView::Reserve(
            DesktopCommandIntent::Authorization { authorization_id, operation_id },
        ),
{
}

/// A session is created or opened only while there is room and the runtime idles. One
/// that is open needs no room, and the active one is not opened again.
pub proof fn law_sessions_need_room_and_rest(
    session_id: String,
    already_open: bool,
    active: Option<Seq<char>>,
    facts: SessionGateFacts,
)
    ensures
        ({
            let busy = facts.operation_active || facts.draft_submitted || facts.switch_pending;
            let full = facts.open_sessions >= facts.session_limit;
            let words = "Up to "@ + decimal(facts.session_limit as nat)
                + " sessions can stay open; close one first."@;
            let opening = opening_gate(session_id, already_open, active, facts);
            &&& creation_gate(facts) == CommandGateView::Reserve(
                DesktopCommandIntent::CreateSession,
            ) <==> !full && !busy
            &&& full ==> refused_with(creation_gate(facts), words, seq![UiRegion::Sessions], false)
            &&& !full && busy ==> creation_gate(facts) is Ignore
            &&& opening == CommandGateView::Reserve(DesktopCommandIntent::OpenSession { session_id })
                <==> (already_open || !full) && !busy && active != Some(session_id@)
            &&& !already_open && full ==> refused_with(opening, words, seq![UiRegion::Sessions], false)
            &&& (already_open || !full) && busy ==> refused_with(
                opening,
                "Session switching is available only while the runtime is idle."@,
                Seq::empty(),
                true,
            )
            &&& (already_open || !full) && !busy && active == Some(session_id@) ==> refused_with(
                opening,
                "The requested session is already active."@,
                Seq::empty(),
                true,
            )
        }),
{
}

/// The catalog is asked for once at a time, and only an open session is closed.
pub proof fn law_listing_and_closing_are_as_asked(pending: bool, session_id: String, open: bool)
    ensures
        listing_gate(pending) == CommandGateView::Reserve(DesktopCommandIntent::ListSessions)
            <==> !pending,
        listing_gate(pending) is Ignore <==> pending,
        closing_gate(session_id, open) == CommandGateView::Reserve(
            DesktopCommandIntent::CloseSession { session_id },
        ) <==> open,
        !open ==> refused_with(
            closing_gate(session_id, open),
            "Cannot close an unavailable session."@,
            seq![UiRegion::Sessions],
            false,
        ),
{
}

/// Switching opens the next session where it is another one, and says so where there
/// is none.
pub proof fn law_switching_opens_another_session(
    next: Option<String>,
    active: Option<Seq<char>>,
    session_id: String,
)
    ensures
        switch_step(next, active) == SwitchStepView::Open(session_id) <==> next == Some(session_id)
            && active != Some(session_id@),
        next is None ==> (switch_step(next, active) matches SwitchStepView::Refuse(reply)
            && reply.notice == Some("Refresh the session catalog before switching sessions."@)),
        next is Some && active == Some(next->0@) ==> (switch_step(
            next,
            active,
        ) matches SwitchStepView::Refuse(reply) && reply.notice == Some(
            "No other project session is available."@,
        )),
{
}

/// A change is reviewed under its own request, one at a time; the editor opens at the
/// target of a loaded review, where one is configured.
pub proof fn law_reviews_and_editors_open_what_was_asked(
    pending: bool,
    request: FileReviewRequest,
    editor_configured: bool,
    review_ready: bool,
    editor_target: Option<String>,
    path: String,
)
    ensures
        review_gate(pending, request) == CommandGateView::Reserve(
            DesktopCommandIntent::FileReview { request },
        ) <==> !pending,
        pending ==> refused_with(
            review_gate(pending, request),
            "Another file review is already pending."@,
            seq![UiRegion::Toast],
            true,
        ),
        editor_gate(editor_configured, review_ready, editor_target) == CommandGateView::Reserve(
            DesktopCommandIntent::ExternalEditor { project_relative_path: path },
        ) <==> editor_configured && review_ready && editor_target == Some(path),
        !editor_configured ==> refused_with(
            editor_gate(editor_configured, review_ready, editor_target),
            "Configure desktop.external_editor with a program and literal argv first."@,
            seq![UiRegion::Toast],
            true,
        ),
        editor_configured && !review_ready ==> refused_with(
            editor_gate(editor_configured, review_ready, editor_target),
            "Load a changed-file review before opening it."@,
            seq![UiRegion::Toast],
            true,
        ),
        editor_configured && review_ready && editor_target is None ==> refused_with(
            editor_gate(editor_configured, review_ready, editor_target),
            "This review has no external-editor target."@,
            seq![UiRegion::Toast],
            true,
        ),
{
}

/// A reservation that failed shows where the command would have shown: nowhere but in
/// the notice for a recovery and for a session that was to be opened, in the list for
/// one that was to go, and in the toast for everything else.
pub proof fn law_failed_reservations_show_in_place(intent: DesktopCommandIntent)
    ensures
        intent is Recovery || intent is OpenSession ==> reservation_refresh(intent).len() == 0,
        intent is CloseSession || intent is DeleteSession ==> reservation_refresh(intent) == seq![
            UiRegion::Sessions,
        ],
        !(intent is Recovery || intent is OpenSession || intent is CloseSession
            || intent is DeleteSession) ==> reservation_refresh(intent) == seq![UiRegion::Toast],
        reservation_notifies(intent) <==> !(intent is CloseSession || intent is DeleteSession
            || intent is RenameSession),
{
}

/// A reply says what it holds: two that say the same have the same notice, rejection
/// and regions, and are alike in what they give back and repaint.
pub proof fn law_replies_say_what_they_hold(left: CommandReply, right: CommandReply)
    ensures
        left@ == right@ ==> {
            &&& left.notice is Some <==> right.notice is Some
            &&& left.notice is Some ==> left.notice->0@ == right.notice->0@
            &&& left.rejection is Some <==> right.rejection is Some
            &&& left.rejection is Some ==> left.rejection->0@ == right.rejection->0@
            &&& left.complete == right.complete
            &&& left.refresh@ == right.refresh@
            &&& left.notify == right.notify
        },
{
}

} // verus!

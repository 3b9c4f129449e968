//! The fixtures that replays show: deterministic transcripts, changes and
//! requests.
use crate::catalog::WorkspaceOverview;
use crate::change_set::UiRegion;
use crate::conversation::ConversationBlockKind;
use crate::conversation_header::DesktopThinkingLevel;
use crate::overlay::{AuthorizationRequestView, ToolAuthorizationScope};
use crate::replay_spec::VisualReplayState;
use crate::text::{decimal, decimal_text, join3, optional_text, same_text};
use vstd::prelude::*;

verus! {

/// An entry of a transcript. The arguments of a tool are a JSON document.
#[derive(Debug, PartialEq, Eq)]
pub enum TranscriptItem {
    User { text: String },
    Tool {
        call_id: String,
        name: String,
        arguments: String,
        result: Option<String>,
        is_error: bool,
        duration_millis: Option<u64>,
    },
    Diagnostic { message: String },
    Assistant {
        id: String,
        text: String,
        thinking: String,
        done: bool,
        reasoning_duration_millis: Option<u64>,
    },
}

/// An entry by what it says.
pub ghost enum TranscriptItemView {
    User { text: Seq<char> },
    Tool {
        call_id: Seq<char>,
        name: Seq<char>,
        arguments: Seq<char>,
        result: Option<Seq<char>>,
        is_error: bool,
        duration_millis: Option<u64>,
    },
    Diagnostic { message: Seq<char> },
    Assistant {
        id: Seq<char>,
        text: Seq<char>,
        thinking: Seq<char>,
        done: bool,
        reasoning_duration_millis: Option<u64>,
    },
}

impl View for TranscriptItem {
    type V = TranscriptItemView;

    open spec fn view(&self) -> TranscriptItemView {
        match *self {
            TranscriptItem::User { text } => TranscriptItemView::User { text: text@ },
            TranscriptItem::Tool { call_id, name, arguments, result, is_error, duration_millis } =>
                TranscriptItemView::Tool {
                call_id: call_id@,
                name: name@,
                arguments: arguments@,
                result: optional_text(result),
                is_error,
                duration_millis,
            },
            TranscriptItem::Diagnostic { message } => TranscriptItemView::Diagnostic {
                message: message@,
            },
            TranscriptItem::Assistant { id, text, thinking, done, reasoning_duration_millis } =>
                TranscriptItemView::Assistant {
                id: id@,
                text: text@,
                thinking: thinking@,
                done,
                reasoning_duration_millis,
            },
        }
    }
}

impl TranscriptItem {
    /// The kind of the block that shows an entry.
    pub fn block_kind(&self) -> (kind: ConversationBlockKind)
        ensures
            kind == (match *self {
                TranscriptItem::User { .. } => ConversationBlockKind::User,
                TranscriptItem::Tool { .. } => ConversationBlockKind::Tool,
                TranscriptItem::Diagnostic { .. } => ConversationBlockKind::Diagnostic,
                TranscriptItem::Assistant { .. } => ConversationBlockKind::Assistant,
            }),
    {
        match self {
            TranscriptItem::User { .. } => ConversationBlockKind::User,
            TranscriptItem::Tool { .. } => ConversationBlockKind::Tool,
            TranscriptItem::Diagnostic { .. } => ConversationBlockKind::Diagnostic,
            TranscriptItem::Assistant { .. } => ConversationBlockKind::Assistant,
        }
    }
}

/// What some entries say.
pub open spec fn transcript_views(items: Seq<TranscriptItem>) -> Seq<TranscriptItemView> {
    items.map_values(|item: TranscriptItem| item@)
}

/// A transcript and the session it belongs to.
#[derive(Debug, PartialEq, Eq)]
pub struct ReplayTranscript {
    pub session_id: String,
    pub items: Vec<TranscriptItem>,
}

/// A text several times over.
pub open spec fn repeated(text: Seq<char>, times: nat) -> Seq<char>
    decreases times,
{
    if times == 0 {
        Seq::empty()
    } else {
        repeated(text, (times - 1) as nat) + text
    }
}

fn repeat(text: &str, times: usize) -> (whole: String)
    ensures
        whole@ == repeated(text@, times as nat),
{
    let mut whole = "".to_owned();
    proof {
        reveal_strlit("");
    }
    assert(whole@ =~= repeated(text@, 0));
    let mut count: usize = 0;
    while count < times
        invariant
            count <= times,
            whole@ == repeated(text@, count as nat),
        decreases times - count,
    {
        whole.append(text);
        count = count + 1;
    }
    whole
}

/// The message at a place of the performance transcript.
pub open spec fn performance_message(index: int) -> Seq<char> {
    "message "@ + decimal(index as nat) + ": "@ + repeated("native frame replay 中文 🙂 "@, 8)
}

/// The projection of the performance replay: as many messages as the
/// conversation keeps. What the profile for reviews is called, the caller says.
pub fn performance_projection(block_count: usize, review_profile: ProfileName) -> (snapshot:
    ReplaySnapshot)
    ensures
        is_replay_project(snapshot.project, review_profile),
        is_fresh_session(snapshot.session, "desktop-native-performance"@),
        snapshot.session.pending_authorizations@.len() == 0,
        snapshot.session.changes@.len() == 0,
        snapshot.transcript.session_id@ == "desktop-native-performance"@,
        snapshot.transcript.items@.len() == block_count,
        forall|i: int|
            0 <= i < block_count ==> (#[trigger] snapshot.transcript.items@[i])@
                == (TranscriptItemView::User { text: performance_message(i) }),
        snapshot.pending_recoveries@.len() == 0,
{
    let payload = repeat("native frame replay 中文 🙂 ", 8);
    let mut items: Vec<TranscriptItem> = Vec::new();
    let mut index: usize = 0;
    while index < block_count
        invariant
            index <= block_count,
            items@.len() == index,
            payload@ == repeated("native frame replay 中文 🙂 "@, 8),
            forall|i: int|
                0 <= i < index ==> (#[trigger] items@[i])@ == (TranscriptItemView::User {
                    text: performance_message(i),
                }),
        decreases block_count - index,
    {
        let mut text = join3("message ", decimal_text(index as u128).as_str(), ": ");
        text.append(payload.as_str());
        items.push(TranscriptItem::User { text });
        index = index + 1;
    }
    projection_with_transcript("desktop-native-performance", items, review_profile)
}

/// The transcript of the visual replays.
pub open spec fn visual_transcript() -> Seq<TranscriptItemView> {
    seq![
        TranscriptItemView::User {
            text: "请优化 desktop 的消息流体验，并保持键盘导航和中文输入稳定。"@,
        },
        TranscriptItemView::Tool {
            call_id: "visual-read-shell"@,
            name: "read"@,
            arguments: "{\"path\":\"crates/desktop/src/app/native_shell.rs\"}"@,
            result: Some("Loaded the native shell layout and render boundaries."@),
            is_error: false,
            duration_millis: Some(842),
        },
        TranscriptItemView::Tool {
            call_id: "visual-failed-shell"@,
            name: "shell"@,
            arguments: "{\"command\":\"cargo test -p desktop\"}"@,
            result: Some("test failed: responsive context tabs exceeded their panel bounds"@),
            is_error: true,
            duration_millis: Some(1_184),
        },
        TranscriptItemView::Diagnostic {
            message: "One stale render sample was discarded and recovered without losing product events."@,
        },
        TranscriptItemView::Assistant {
            id: "visual-assistant-final"@,
            text: "## Desktop update\n\nThe conversation now keeps a stable geometry while content streams. This longer fixture deliberately exercises wrapped prose, headings, lists, quotes, inline code, and a fenced block without relying on a synthetic fixed row height.\n\n> Every message remains reachable, even when the viewport changes while content is streaming.\n\n- Focus uses a visible outline and a text marker without changing bounds\n- Streaming text updates continuously while finalized Markdown is cached\n- Native frame budgets and stale-measurement rejection remain enforced\n- 中文、emoji 🙂 and composed text stay intact across line wrapping\n\n```rust\nwindow.on_next_frame(|window, _| {\n    window.refresh();\n});\n```\n\nThe final paragraph is intentionally long enough to exercise multiple body lines and stable bottom anchoring in wide, medium, and narrow layouts."@,
            thinking: "Checked layout stability, render isolation, and the native presentation gate."@,
            done: true,
            reasoning_duration_millis: Some(2_430),
        },
    ]
}

fn visual_items() -> (items: Vec<TranscriptItem>)
    ensures
        transcript_views(items@) == visual_transcript(),
{
    let items: Vec<TranscriptItem> = vec![
        TranscriptItem::User {
            text: "请优化 desktop 的消息流体验，并保持键盘导航和中文输入稳定。".to_owned(),
        },
        TranscriptItem::Tool {
            call_id: "visual-read-shell".to_owned(),
            name: "read".to_owned(),
            arguments: "{\"path\":\"crates/desktop/src/app/native_shell.rs\"}".to_owned(),
            result: Some("Loaded the native shell layout and render boundaries.".to_owned()),
            is_error: false,
            duration_millis: Some(842),
        },
        TranscriptItem::Tool {
            call_id: "visual-failed-shell".to_owned(),
            name: "shell".to_owned(),
            arguments: "{\"command\":\"cargo test -p desktop\"}".to_owned(),
            result: Some("test failed: responsive context tabs exceeded their panel bounds".to_owned()),
            is_error: true,
            duration_millis: Some(1_184),
        },
        TranscriptItem::Diagnostic {
            message: "One stale render sample was discarded and recovered without losing product events.".to_owned(),
        },
        TranscriptItem::Assistant {
            id: "visual-assistant-final".to_owned(),
            text: "## Desktop update\n\nThe conversation now keeps a stable geometry while content streams. This longer fixture deliberately exercises wrapped prose, headings, lists, quotes, inline code, and a fenced block without relying on a synthetic fixed row height.\n\n> Every message remains reachable, even when the viewport changes while content is streaming.\n\n- Focus uses a visible outline and a text marker without changing bounds\n- Streaming text updates continuously while finalized Markdown is cached\n- Native frame budgets and stale-measurement rejection remain enforced\n- 中文、emoji 🙂 and composed text stay intact across line wrapping\n\n```rust\nwindow.on_next_frame(|window, _| {\n    window.refresh();\n});\n```\n\nThe final paragraph is intentionally long enough to exercise multiple body lines and stable bottom anchoring in wide, medium, and narrow layouts.".to_owned(),
            thinking: "Checked layout stability, render isolation, and the native presentation gate.".to_owned(),
            done: true,
            reasoning_duration_millis: Some(2_430),
        },
    ];
    assert(transcript_views(items@) =~= visual_transcript());
    items
}

/// A changed file of a visual replay.
#[derive(Debug, PartialEq, Eq)]
pub struct FileChangeSnapshot {
    pub path: String,
    pub mutation_kind: String,
    pub source: String,
    pub operation_id: String,
    pub tool_call_id: Option<String>,
    pub session_id: Option<String>,
    pub turn_id: Option<String>,
    pub updated_sequence: u64,
    pub before_revision: Option<String>,
    pub after_revision: String,
    pub after_exists: bool,
    pub first_changed_line: Option<usize>,
    pub added_lines: Option<usize>,
    pub removed_lines: Option<usize>,
    pub diff: Option<String>,
}

/// Whether a change is that of the replay's agent to a file.
pub open spec fn is_visual_change(
    change: FileChangeSnapshot,
    path: Seq<char>,
    first_changed_line: usize,
    added_lines: usize,
    removed_lines: usize,
    diff: Option<Seq<char>>,
) -> bool {
    &&& change.path@ == path
    &&& change.mutation_kind@ == "edit"@
    &&& change.source@ == "agent_edit"@
    &&& change.operation_id@ == "visual-operation"@
    &&& optional_text(change.tool_call_id) == Some("visual-running-edit"@)
    &&& optional_text(change.session_id) == Some("desktop-native-visual"@)
    &&& optional_text(change.turn_id) == Some("visual-turn"@)
    &&& change.updated_sequence == 2
    &&& optional_text(change.before_revision) == Some("before"@)
    &&& change.after_revision@ == "after"@
    &&& change.after_exists
    &&& change.first_changed_line == Some(first_changed_line)
    &&& change.added_lines == Some(added_lines)
    &&& change.removed_lines == Some(removed_lines)
    &&& optional_text(change.diff) == diff
}

pub fn visual_change(
    path: &str,
    first_changed_line: usize,
    added_lines: usize,
    removed_lines: usize,
    diff: Option<&str>,
) -> (change: FileChangeSnapshot)
    ensures
        is_visual_change(
            change,
            path@,
            first_changed_line,
            added_lines,
            removed_lines,
            match diff {
                Some(diff) => Some(diff@),
                None => None,
            },
        ),
{
    FileChangeSnapshot {
        path: path.to_owned(),
        mutation_kind: "edit".to_owned(),
        source: "agent_edit".to_owned(),
        operation_id: "visual-operation".to_owned(),
        tool_call_id: Some("visual-running-edit".to_owned()),
        session_id: Some("desktop-native-visual".to_owned()),
        turn_id: Some("visual-turn".to_owned()),
        updated_sequence: 2,
        before_revision: Some("before".to_owned()),
        after_revision: "after".to_owned(),
        after_exists: true,
        first_changed_line: Some(first_changed_line),
        added_lines: Some(added_lines),
        removed_lines: Some(removed_lines),
        diff: match diff {
            Some(diff) => Some(diff.to_owned()),
            None => None,
        },
    }
}

/// The request for authorization of a visual replay, with the names of its
/// identity.
#[derive(Debug, PartialEq, Eq)]
pub struct VisualAuthorization {
    pub authorization_id: String,
    pub turn_id: String,
    pub summary: String,
    pub capability_generation: u64,
    pub requested_at: String,
    pub request: AuthorizationRequestView,
}

/// Whether a request is that of the visual replay.
pub open spec fn is_visual_authorization(authorization: VisualAuthorization) -> bool {
    &&& authorization.authorization_id@ == "visual-authorization"@
    &&& authorization.turn_id@ == "visual-turn"@
    &&& authorization.summary@
            == "Run the desktop verification suite before updating reviewed visual goldens."@
    &&& authorization.capability_generation == 0
    &&& authorization.requested_at@ == "2026-07-27T00:00:00Z"@
    &&& authorization.request.operation_id@ == "visual-operation"@
    &&& authorization.request.tool_call_id@ == "visual-authorized-shell"@
    &&& authorization.request.tool_name@ == "shell"@
    &&& authorization.request.risk@ == "ShellExecution"@
    &&& authorization.request.scope is Shell
    &&& authorization.request.scope->cwd@ == "/desktop-native-replay"@
    &&& authorization.request.scope->command_fingerprint@ == "visual-golden-cargo-test"@
    &&& authorization.request.path is None
    &&& optional_text(authorization.request.command) == Some(
            "cargo test -p desktop --all-targets"@,
        )
    &&& optional_text(authorization.request.cwd) == Some("/desktop-native-replay"@)
    &&& authorization.request.content_preview is None
}

pub fn visual_authorization_request() -> (authorization: VisualAuthorization)
    ensures
        is_visual_authorization(authorization),
{
    VisualAuthorization {
        authorization_id: "visual-authorization".to_owned(),
        turn_id: "visual-turn".to_owned(),
        summary: "Run the desktop verification suite before updating reviewed visual goldens.".to_owned(),
        capability_generation: 0,
        requested_at: "2026-07-27T00:00:00Z".to_owned(),
        request: AuthorizationRequestView {
            operation_id: "visual-operation".to_owned(),
            tool_name: "shell".to_owned(),
            tool_call_id: "visual-authorized-shell".to_owned(),
            risk: "ShellExecution".to_owned(),
            scope: ToolAuthorizationScope::Shell {
                cwd: "/desktop-native-replay".to_owned(),
                command_fingerprint: "visual-golden-cargo-test".to_owned(),
            },
            path: None,
            cwd: Some("/desktop-native-replay".to_owned()),
            command: Some("cargo test -p desktop --all-targets".to_owned()),
            content_preview: None,
        },
    }
}

/// An event that puts the running tool of a visual replay on the screen.
#[derive(Debug, PartialEq, Eq)]
pub enum VisualEvent {
    PromptStarted,
    ToolStarted { tool_call_id: String, name: String, arguments: String },
}

/// An event of the stream, with its place in it and what it belongs to.
#[derive(Debug, PartialEq, Eq)]
pub struct VisualProductEvent {
    pub sequence: u64,
    pub operation_id: String,
    pub turn_id: String,
    pub event: VisualEvent,
}

/// Whether these are the events of the running tool.
pub open spec fn is_running_tool(events: Seq<VisualProductEvent>) -> bool {
    &&& events.len() == 2
    &&& (forall|i: int|
            0 <= i < 2 ==> (#[trigger] events[i]).sequence == i + 1 && events[i].operation_id@
                == "visual-operation"@ && events[i].turn_id@ == "visual-turn"@)
    &&& events[0].event is PromptStarted
    &&& events[1].event is ToolStarted
    &&& events[1].event->tool_call_id@ == "visual-running-edit"@
    &&& events[1].event->name@ == "edit"@
    &&& events[1].event->arguments@
            == "{\"path\":\"crates/desktop/src/app/native_shell/inspector_pane.rs\"}"@
}

/// The events behind the transcript of a visual replay: the prompt starts, then
/// one tool.
pub fn visual_running_tool() -> (events: Vec<VisualProductEvent>)
    ensures
        is_running_tool(events@),
{
    vec![
        VisualProductEvent {
            sequence: 1,
            operation_id: "visual-operation".to_owned(),
            turn_id: "visual-turn".to_owned(),
            event: VisualEvent::PromptStarted,
        },
        VisualProductEvent {
            sequence: 2,
            operation_id: "visual-operation".to_owned(),
            turn_id: "visual-turn".to_owned(),
            event: VisualEvent::ToolStarted {
                tool_call_id: "visual-running-edit".to_owned(),
                name: "edit".to_owned(),
                arguments:
                    "{\"path\":\"crates/desktop/src/app/native_shell/inspector_pane.rs\"}".to_owned(),
            },
        },
    ]
}

/// Everything a visual replay shows: what it starts from, and the events that
/// follow.
#[derive(Debug, PartialEq, Eq)]
pub struct VisualProjection {
    pub snapshot: ReplaySnapshot,
    pub events: Vec<VisualProductEvent>,
}

/// The projection of a visual replay. Only one state waits for an authorization.
/// What the profile for reviews is called, the caller says.
pub fn visual_projection(state: VisualReplayState, review_profile: ProfileName) -> (projection:
    VisualProjection)
    ensures
        is_replay_project(projection.snapshot.project, review_profile),
        is_fresh_session(projection.snapshot.session, "desktop-native-visual"@),
        projection.snapshot.transcript.session_id@ == "desktop-native-visual"@,
        transcript_views(projection.snapshot.transcript.items@) == visual_transcript(),
        projection.snapshot.pending_recoveries@.len() == 0,
        projection.snapshot.session.changes@.len() == 2,
        is_visual_change(
            projection.snapshot.session.changes@[0],
            "crates/desktop/src/app/native_shell/inspector_pane.rs"@,
            343,
            1,
            0,
            Some("@@ -348,0 +349 @@\n+                    .flex_wrap()"@),
        ),
        is_visual_change(
            projection.snapshot.session.changes@[1],
            "scripts/desktop-visual-golden.sh"@,
            1,
            24,
            3,
            None,
        ),
        projection.snapshot.session.pending_authorizations@.len() == (if state is Authorization {
            1nat
        } else {
            0
        }),
        state is Authorization ==> is_visual_authorization(
            projection.snapshot.session.pending_authorizations@[0],
        ),
        is_running_tool(projection.events@),
{
    let mut snapshot = projection_with_transcript(
        "desktop-native-visual",
        visual_items(),
        review_profile,
    );
    snapshot.session.changes.push(
        visual_change(
            "crates/desktop/src/app/native_shell/inspector_pane.rs",
            343,
            1,
            0,
            Some("@@ -348,0 +349 @@\n+                    .flex_wrap()"),
        ),
    );
    snapshot.session.changes.push(
        visual_change("scripts/desktop-visual-golden.sh", 1, 24, 3, None),
    );
    if state == VisualReplayState::Authorization {
        snapshot.session.pending_authorizations.push(visual_authorization_request());
    }
    VisualProjection { snapshot, events: visual_running_tool() }
}

/// How far a model can be told to think.
#[derive(Debug, PartialEq, Eq)]
pub struct ThinkingCapability {
    pub supported: bool,
    pub explicit_levels: Vec<DesktopThinkingLevel>,
    pub can_disable: bool,
}

/// A capability with its levels in order.
pub ghost struct ThinkingCapabilityView {
    pub supported: bool,
    pub explicit_levels: Seq<DesktopThinkingLevel>,
    pub can_disable: bool,
}

impl View for ThinkingCapability {
    type V = ThinkingCapabilityView;

    open spec fn view(&self) -> ThinkingCapabilityView {
        ThinkingCapabilityView {
            supported: self.supported,
            explicit_levels: self.explicit_levels@,
            can_disable: self.can_disable,
        }
    }
}

/// A model of the replay project.
#[derive(Debug, PartialEq, Eq)]
pub struct ReplayModel {
    pub id: &'static str,
    pub name: &'static str,
    pub provider: &'static str,
    pub reasoning: bool,
    pub thinking_capability: ThinkingCapability,
    pub supports_text: bool,
    pub supports_images: bool,
    pub context_window: u64,
    pub max_output_tokens: u64,
    pub configured: bool,
    pub selected: bool,
}

/// A model by what it offers.
pub ghost struct ReplayModelView {
    pub id: Seq<char>,
    pub name: Seq<char>,
    pub provider: Seq<char>,
    pub reasoning: bool,
    pub thinking_capability: ThinkingCapabilityView,
    pub supports_text: bool,
    pub supports_images: bool,
    pub context_window: u64,
    pub max_output_tokens: u64,
    pub configured: bool,
    pub selected: bool,
}

impl View for ReplayModel {
    type V = ReplayModelView;

    open spec fn view(&self) -> ReplayModelView {
        ReplayModelView {
            id: self.id@,
            name: self.name@,
            provider: self.provider@,
            reasoning: self.reasoning,
            thinking_capability: self.thinking_capability@,
            supports_text: self.supports_text,
            supports_images: self.supports_images,
            context_window: self.context_window,
            max_output_tokens: self.max_output_tokens,
            configured: self.configured,
            selected: self.selected,
        }
    }
}

/// The capability of a model that reasons: every level, and none at all.
pub open spec fn full_thinking() -> ThinkingCapabilityView {
    ThinkingCapabilityView {
        supported: true,
        explicit_levels: seq![
            DesktopThinkingLevel::Minimal,
            DesktopThinkingLevel::Low,
            DesktopThinkingLevel::Medium,
            DesktopThinkingLevel::High,
            DesktopThinkingLevel::XHigh,
        ],
        can_disable: true,
    }
}

/// The capability of a model that does not reason.
pub open spec fn no_thinking() -> ThinkingCapabilityView {
    ThinkingCapabilityView { supported: false, explicit_levels: Seq::empty(), can_disable: false }
}

fn thinking_capability(reasoning: bool) -> (capability: ThinkingCapability)
    ensures
        capability@ == (if reasoning {
            full_thinking()
        } else {
            no_thinking()
        }),
{
    let explicit_levels: Vec<DesktopThinkingLevel> = if reasoning {
        vec![
            DesktopThinkingLevel::Minimal,
            DesktopThinkingLevel::Low,
            DesktopThinkingLevel::Medium,
            DesktopThinkingLevel::High,
            DesktopThinkingLevel::XHigh,
        ]
    } else {
        Vec::new()
    };
    assert(reasoning ==> explicit_levels@ =~= full_thinking().explicit_levels);
    assert(!reasoning ==> explicit_levels@ =~= no_thinking().explicit_levels);
    ThinkingCapability { supported: reasoning, explicit_levels, can_disable: reasoning }
}

/// The models of the replay project. The first one is selected, and it alone
/// reasons.
pub open spec fn replay_models() -> Seq<ReplayModelView> {
    seq![
        ReplayModelView {
            id: "performance-fixture"@,
            name: "Performance Fixture"@,
            provider: "fixture"@,
            reasoning: true,
            thinking_capability: full_thinking(),
            supports_text: true,
            supports_images: true,
            context_window: 200_000,
            max_output_tokens: 32_000,
            configured: true,
            selected: true,
        },
        ReplayModelView {
            id: "review-fixture"@,
            name: "Review Fixture"@,
            provider: "fixture"@,
            reasoning: false,
            thinking_capability: no_thinking(),
            supports_text: true,
            supports_images: false,
            context_window: 100_000,
            max_output_tokens: 16_000,
            configured: true,
            selected: false,
        },
        ReplayModelView {
            id: "image-fixture"@,
            name: "Image Fixture"@,
            provider: "fixture"@,
            reasoning: false,
            thinking_capability: no_thinking(),
            supports_text: false,
            supports_images: true,
            context_window: 32_000,
            max_output_tokens: 4_000,
            configured: true,
            selected: false,
        },
    ]
}

/// What some models offer.
pub open spec fn model_views(models: Seq<ReplayModel>) -> Seq<ReplayModelView> {
    models.map_values(|model: ReplayModel| model@)
}

fn models_on_offer() -> (models: Vec<ReplayModel>)
    ensures
        model_views(models@) == replay_models(),
{
    let models: Vec<ReplayModel> = vec![
        ReplayModel {
            id: "performance-fixture",
            name: "Performance Fixture",
            provider: "fixture",
            reasoning: true,
            thinking_capability: thinking_capability(true),
            supports_text: true,
            supports_images: true,
            context_window: 200_000,
            max_output_tokens: 32_000,
            configured: true,
            selected: true,
        },
        ReplayModel {
            id: "review-fixture",
            name: "Review Fixture",
            provider: "fixture",
            reasoning: false,
            thinking_capability: thinking_capability(false),
            supports_text: true,
            supports_images: false,
            context_window: 100_000,
            max_output_tokens: 16_000,
            configured: true,
            selected: false,
        },
        ReplayModel {
            id: "image-fixture",
            name: "Image Fixture",
            provider: "fixture",
            reasoning: false,
            thinking_capability: thinking_capability(false),
            supports_text: false,
            supports_images: true,
            context_window: 32_000,
            max_output_tokens: 4_000,
            configured: true,
            selected: false,
        },
    ];
    assert(model_views(models@) =~= replay_models());
    models
}

/// Where a profile comes from.
#[derive(Debug, Clone, Copy, PartialEq, Eq, Structural)]
pub enum ProfileSource {
    BuiltIn,
    Project,
}

/// What a profile is called.
#[derive(Debug, PartialEq, Eq)]
pub struct ProfileName {
    pub id: String,
    pub display_name: String,
}

/// An agent profile of the replay project.
#[derive(Debug, PartialEq, Eq)]
pub struct ReplayProfile {
    pub name: ProfileName,
    pub description: &'static str,
    pub source: ProfileSource,
    pub model_id: Option<&'static str>,
}

/// Whether a profile is the default one.
pub open spec fn is_default_profile(profile: ReplayProfile) -> bool {
    &&& profile.name.id@ == "default"@
    &&& profile.name.display_name@ == "Default"@
    &&& profile.description@ == "General coding work"@
    &&& profile.source is BuiltIn
    &&& profile.model_id is None
}

/// Whether a profile is the one for reviews, which has a model of its own.
pub open spec fn is_review_profile(profile: ReplayProfile, name: ProfileName) -> bool {
    &&& profile.name == name
    &&& profile.description@ == "Review changes before completion"@
    &&& profile.source is Project
    &&& profile.model_id is Some
    &&& profile.model_id->0@ == "review-fixture"@
}

/// The project that a replay stands in.
#[derive(Debug, PartialEq, Eq)]
pub struct ReplayProject {
    pub cwd: &'static str,
    pub workspace: Option<WorkspaceOverview>,
    pub global_config_dir: &'static str,
    pub selected_model_id: &'static str,
    pub default_agent_profile_id: &'static str,
    pub models: Vec<ReplayModel>,
    pub profiles: Vec<ReplayProfile>,
    pub skill_names: Vec<String>,
    pub prompt_template_names: Vec<String>,
    pub commands: Vec<String>,
    pub context_files: Vec<String>,
    pub default_provider: Option<String>,
    pub default_model: Option<String>,
    pub default_thinking_level: Option<String>,
    pub session_dir: Option<String>,
    pub no_context_files: bool,
    pub diagnostics: Vec<String>,
}

/// Whether a project is that of the replays: two profiles, no resources, no
/// settings but that context files are off, and nothing wrong with it.
pub open spec fn is_replay_project(project: ReplayProject, review_profile: ProfileName) -> bool {
    &&& project.cwd@ == "/desktop-native-replay"@
    &&& project.workspace is None
    &&& project.global_config_dir@ == "/desktop-native-replay/config"@
    &&& project.selected_model_id@ == "performance-fixture"@
    &&& project.default_agent_profile_id@ == "default"@
    &&& model_views(project.models@) == replay_models()
    &&& project.profiles@.len() == 2
    &&& is_default_profile(project.profiles@[0])
    &&& is_review_profile(project.profiles@[1], review_profile)
    &&& project.skill_names@.len() == 0
    &&& project.prompt_template_names@.len() == 0
    &&& project.commands@.len() == 0
    &&& project.context_files@.len() == 0
    &&& project.default_provider is None
    &&& project.default_model is None
    &&& project.default_thinking_level is None
    &&& project.session_dir is None
    &&& project.no_context_files
    &&& project.diagnostics@.len() == 0
}

fn replay_project(review_profile: ProfileName) -> (project: ReplayProject)
    ensures
        is_replay_project(project, review_profile),
{
    let profiles: Vec<ReplayProfile> = vec![
        ReplayProfile {
            name: ProfileName { id: "default".to_owned(), display_name: "Default".to_owned() },
            description: "General coding work",
            source: ProfileSource::BuiltIn,
            model_id: None,
        },
        ReplayProfile {
            name: review_profile,
            description: "Review changes before completion",
            source: ProfileSource::Project,
            model_id: Some("review-fixture"),
        },
    ];
    ReplayProject {
        cwd: "/desktop-native-replay",
        workspace: None,
        global_config_dir: "/desktop-native-replay/config",
        selected_model_id: "performance-fixture",
        default_agent_profile_id: "default",
        models: models_on_offer(),
        profiles,
        skill_names: Vec::new(),
        prompt_template_names: Vec::new(),
        commands: Vec::new(),
        context_files: Vec::new(),
        default_provider: None,
        default_model: None,
        default_thinking_level: None,
        session_dir: None,
        no_context_files: true,
        diagnostics: Vec::new(),
    }
}

/// A session as the projection sees it.
#[derive(Debug, PartialEq, Eq)]
pub struct ReplaySessionView {
    pub session_id: String,
    pub default_agent_profile_id: &'static str,
}

/// The state of a session, with its place in the stream of events.
#[derive(Debug, PartialEq, Eq)]
pub struct ReplaySession {
    pub stream_id: &'static str,
    pub last_event_sequence: u64,
    pub last_session_sequence: u64,
    pub capability_generation: u64,
    pub session: ReplaySessionView,
    pub active_operation: Option<String>,
    pub drafts: Vec<String>,
    pub submitted_operation: Option<String>,
    pub pending_authorizations: Vec<VisualAuthorization>,
    pub changes: Vec<FileChangeSnapshot>,
}

/// Whether a session is one in which nothing has run: it stands at the start of
/// its stream, and no operation is active.
pub open spec fn is_fresh_session(session: ReplaySession, session_id: Seq<char>) -> bool {
    &&& session.stream_id@ == "desktop-native-replay-stream"@
    &&& session.last_event_sequence == 0
    &&& session.last_session_sequence == 0
    &&& session.capability_generation == 0
    &&& session.session.session_id@ == session_id
    &&& session.session.default_agent_profile_id@ == "default"@
    &&& session.active_operation is None
    &&& session.drafts@.len() == 0
    &&& session.submitted_operation is None
}

/// The project and session that a replay stands in, with its transcript.
#[derive(Debug, PartialEq, Eq)]
pub struct ReplaySnapshot {
    pub project: ReplayProject,
    pub session: ReplaySession,
    pub transcript: ReplayTranscript,
    pub pending_recoveries: Vec<String>,
}

/// The project and session round a transcript. The session goes by the given
/// name, whatever session the transcript belongs to, and so does the profile for
/// reviews.
pub fn hydrated_snapshot(
    session_id: String,
    transcript: ReplayTranscript,
    review_profile: ProfileName,
) -> (snapshot: ReplaySnapshot)
    ensures
        is_replay_project(snapshot.project, review_profile),
        is_fresh_session(snapshot.session, session_id@),
        snapshot.session.session.session_id == session_id,
        snapshot.session.pending_authorizations@.len() == 0,
        snapshot.session.changes@.len() == 0,
        snapshot.transcript == transcript,
        snapshot.pending_recoveries@.len() == 0,
{
    ReplaySnapshot {
        project: replay_project(review_profile),
        session: ReplaySession {
            stream_id: "desktop-native-replay-stream",
            last_event_sequence: 0,
            last_session_sequence: 0,
            capability_generation: 0,
            session: ReplaySessionView { session_id, default_agent_profile_id: "default" },
            active_operation: None,
            drafts: Vec::new(),
            submitted_operation: None,
            pending_authorizations: Vec::new(),
            changes: Vec::new(),
        },
        transcript,
        pending_recoveries: Vec::new(),
    }
}

/// The snapshot of a session with a transcript of its own. What the profile for
/// reviews is called, the caller says.
pub fn projection_with_transcript(
    session_id: &str,
    items: Vec<TranscriptItem>,
    review_profile: ProfileName,
) -> (snapshot: ReplaySnapshot)
    ensures
        is_replay_project(snapshot.project, review_profile),
        is_fresh_session(snapshot.session, session_id@),
        snapshot.session.pending_authorizations@.len() == 0,
        snapshot.session.changes@.len() == 0,
        snapshot.transcript.session_id@ == session_id@,
        snapshot.transcript.items == items,
        snapshot.pending_recoveries@.len() == 0,
{
    hydrated_snapshot(
        session_id.to_owned(),
        ReplayTranscript { session_id: session_id.to_owned(), items },
        review_profile,
    )
}

/// A model as it is offered once the one with that name is selected.
pub open spec fn as_selected(model: ReplayModelView, id: Seq<char>) -> ReplayModelView {
    ReplayModelView { selected: model.id == id, ..model }
}

/// Selects the model of a visual replay that does not reason; its thinking level
/// was a high one before. Says what is refreshed, one region after the other.
pub fn install_native_visual_non_reasoning_fixture(project: &mut ReplayProject) -> (installed: (
    DesktopThinkingLevel,
    Vec<UiRegion>,
))
    ensures
        final(project).selected_model_id@ == "review-fixture"@,
        model_views(final(project).models@) == model_views(old(project).models@).map_values(
            |model: ReplayModelView| as_selected(model, "review-fixture"@),
        ),
        *final(project) == (ReplayProject {
            selected_model_id: final(project).selected_model_id,
            models: final(project).models,
            ..*old(project)
        }),
        installed.0 is High,
        installed.1@ == seq![UiRegion::ConversationHeader, UiRegion::Composer],
{
    let ghost before = model_views(project.models@);
    let ghost whole = *project;
    let ghost select = |model: ReplayModelView| as_selected(model, "review-fixture"@);
    project.selected_model_id = "review-fixture";
    let mut index: usize = 0;
    while index < project.models.len()
        invariant
            index <= project.models@.len(),
            project.models@.len() == before.len(),
            select == (|model: ReplayModelView| as_selected(model, "review-fixture"@)),
            project.selected_model_id@ == "review-fixture"@,
            *project == (ReplayProject {
                selected_model_id: project.selected_model_id,
                models: project.models,
                ..whole
            }),
            forall|i: int|
                0 <= i < before.len() ==> (#[trigger] project.models@[i])@ == (if i < index {
                    as_selected(before[i], "review-fixture"@)
                } else {
                    before[i]
                }),
        decreases project.models@.len() - index,
    {
        let selected = same_text(project.models[index].id, "review-fixture");
        project.models[index].selected = selected;
        index = index + 1;
    }
    assert(model_views(project.models@) =~= before.map_values(select));
    let refresh: Vec<UiRegion> = vec![UiRegion::ConversationHeader, UiRegion::Composer];
    assert(refresh@ =~= seq![UiRegion::ConversationHeader, UiRegion::Composer]);
    (DesktopThinkingLevel::High, refresh)
}

/// Repeating a text adds up: so many times, and so many times more, is as often as both
/// together.
pub proof fn law_repetitions_add_up(text: Seq<char>, first: nat, second: nat)
    ensures
        repeated(text, 0).len() == 0,
        repeated(text, 1) == text,
        repeated(text, first + second) == repeated(text, first) + repeated(text, second),
    decreases second,
{
    reveal_with_fuel(repeated, 2);
    assert(repeated(text, 1) =~= text);
    if second == 0 {
        assert(repeated(text, first) + repeated(text, 0) =~= repeated(text, first));
    } else {
        law_repetitions_add_up(text, first, (second - 1) as nat);
        assert((first + second - 1) as nat == first + (second - 1) as nat);
        assert(repeated(text, first) + (repeated(text, (second - 1) as nat) + text)
            =~= repeated(text, first) + repeated(text, (second - 1) as nat) + text);
    }
}

/// Every message of the performance replay is numbered by its place.
pub proof fn law_performance_messages_are_numbered(index: nat)
    ensures
        performance_message(index as int) == "message "@ + decimal(index) + ": "@ + repeated(
            "native frame replay 中文 🙂 "@,
            8,
        ),
{
}

/// The replays offer three models: the first is selected and reasons, the second neither
/// reasons nor takes images, and the third takes nothing but images.
pub proof fn law_replay_models_differ_in_what_they_take()
    ensures
        replay_models().len() == 3,
        forall|i: int| 0 <= i < 3 ==> (#[trigger] replay_models()[i]).selected == (i == 0),
        forall|i: int| 0 <= i < 3 ==> (#[trigger] replay_models()[i]).reasoning == (i == 0),
        forall|i: int| 0 <= i < 3 ==> (#[trigger] replay_models()[i]).supports_images == (i != 1),
        forall|i: int| 0 <= i < 3 ==> (#[trigger] replay_models()[i]).supports_text == (i != 2),
        forall|i: int|
            0 <= i < 3 ==> (#[trigger] replay_models()[i]).thinking_capability.supported == (i == 0),
        replay_models()[0].id == "performance-fixture"@,
        replay_models()[1].id == "review-fixture"@,
        replay_models()[2].id == "image-fixture"@,
        replay_models()[0].context_window > replay_models()[1].context_window,
        replay_models()[1].context_window > replay_models()[2].context_window,
{
}

/// A change of the replay is the edit of the running tool, with its own path, place and
/// counts.
pub proof fn law_visual_changes_are_of_the_running_edit(
    change: FileChangeSnapshot,
    path: Seq<char>,
    first_changed_line: usize,
    added_lines: usize,
    removed_lines: usize,
    diff: Option<Seq<char>>,
)
    requires
        is_visual_change(
            change,
            path,
            first_changed_line,
            added_lines,
            removed_lines,
            diff,
        ),
    ensures
        change.path@ == path,
        change.first_changed_line == Some(first_changed_line),
        change.added_lines == Some(added_lines),
        change.removed_lines == Some(removed_lines),
        change.diff is Some <==> diff is Some,
        change.diff is Some ==> change.diff->0@ == diff->0,
        change.mutation_kind@ == "edit"@,
        change.operation_id@ == "visual-operation"@,
        change.tool_call_id is Some && change.tool_call_id->0@ == "visual-running-edit"@,
        change.after_exists,
{
}

} // verus!

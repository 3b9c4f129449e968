//! What the inspector shows: its tabs, and the lines of each section.
use crate::actions::KeyContext;
use crate::controls::DesktopCriticalTone;
use crate::text::{
    decimal, decimal_text, join2, join3, join5, optional_text, padded, padded_decimal,
    truncate_label, truncated,
};
use crate::theme::{SemanticColor, SemanticTheme};
use vstd::prelude::*;

verus! {

#[derive(Debug, Clone, Copy, PartialEq, Eq, Structural)]
pub enum InspectorSection {
    Changes,
    Task,
    Usage,
    Runtime,
}

impl Default for InspectorSection {
    fn default() -> (section: Self)
        ensures
            section is Changes,
    {
        InspectorSection::Changes
    }
}

impl InspectorSection {
    pub open spec fn spec_label(self) -> Seq<char> {
        match self {
            InspectorSection::Changes => "Changes"@,
            InspectorSection::Task => "Task"@,
            InspectorSection::Usage => "Usage"@,
            InspectorSection::Runtime => "Runtime"@,
        }
    }

    pub fn label(self) -> (label: &'static str)
        ensures
            label@ == self.spec_label(),
    {
        match self {
            InspectorSection::Changes => "Changes",
            InspectorSection::Task => "Task",
            InspectorSection::Usage => "Usage",
            InspectorSection::Runtime => "Runtime",
        }
    }
}

/// A tab of the inspector.
#[derive(Debug, PartialEq, Eq)]
pub struct InspectorTab {
    pub section: InspectorSection,
    pub selected: bool,
    pub label: String,
    pub tooltip: String,
}

pub fn inspector_section_button(section: InspectorSection, selected: InspectorSection) -> (tab:
    InspectorTab)
    ensures
        tab.section == section,
        tab.selected == (section == selected),
        tab.label@ == (if section == selected {
            "●"@
        } else {
            "○"@
        }) + " "@ + section.spec_label(),
        tab.tooltip@ == "Show "@ + section.spec_label() + " details"@,
{
    let active = section == selected;
    let label = section.label();
    InspectorTab {
        section,
        selected: active,
        label: join3(
            if active {
                "●"
            } else {
                "○"
            },
            " ",
            label,
        ),
        tooltip: join3("Show ", label, " details"),
    }
}

/// The tabs of the inspector in their order, exactly one of them selected.
pub fn inspector_tabs(selected: InspectorSection) -> (tabs: Vec<InspectorTab>)
    ensures
        tabs@.len() == 4,
        tabs@[0].section is Changes,
        tabs@[1].section is Task,
        tabs@[2].section is Usage,
        tabs@[3].section is Runtime,
        forall|i: int|
            0 <= i < 4 ==> (#[trigger] tabs@[i]).selected == (tabs@[i].section == selected)
                && tabs@[i].label@ == (if tabs@[i].section == selected {
                "●"@
            } else {
                "○"@
            }) + " "@ + tabs@[i].section.spec_label() && tabs@[i].tooltip@ == "Show "@
                + tabs@[i].section.spec_label() + " details"@,
{
    let mut tabs: Vec<InspectorTab> = Vec::new();
    tabs.push(inspector_section_button(InspectorSection::Changes, selected));
    tabs.push(inspector_section_button(InspectorSection::Task, selected));
    tabs.push(inspector_section_button(InspectorSection::Usage, selected));
    tabs.push(inspector_section_button(InspectorSection::Runtime, selected));
    tabs
}

/// How a line of the inspector stands out.
#[derive(Debug, Clone, Copy, PartialEq, Eq, Structural)]
pub enum LineTone {
    Section,
    WarningSection,
    DangerSection,
    Body,
    Muted,
    Warning,
    Danger,
}

/// Something that stands among the details of the inspector. A control or a
/// row of the review is named by its place in its list.
#[derive(Debug, PartialEq, Eq)]
pub enum InspectorItem {
    Line { tone: LineTone, text: String },
    ChangedFile { index: usize, label: String, disabled: bool },
    RetryReview { disabled: bool },
    ReviewActions { editor_disabled: bool },
    ReviewRow { index: usize, marker: &'static str, color: SemanticColor, text: String },
    RecoveryActions { disabled: bool },
}

/// An item by what it shows.
pub ghost enum InspectorItemView {
    Line { tone: LineTone, text: Seq<char> },
    ChangedFile { index: int, label: Seq<char>, disabled: bool },
    RetryReview { disabled: bool },
    ReviewActions { editor_disabled: bool },
    ReviewRow { index: int, marker: Seq<char>, color: SemanticColor, text: Seq<char> },
    RecoveryActions { disabled: bool },
}

impl View for InspectorItem {
    type V = InspectorItemView;

    open spec fn view(&self) -> InspectorItemView {
        match *self {
            InspectorItem::Line { tone, text } => line(tone, text@),
            InspectorItem::ChangedFile { index, label, disabled } =>
                InspectorItemView::ChangedFile { index: index as int, label: label@, disabled },
            InspectorItem::RetryReview { disabled } => InspectorItemView::RetryReview { disabled },
            InspectorItem::ReviewActions { editor_disabled } => InspectorItemView::ReviewActions {
                editor_disabled,
            },
            InspectorItem::ReviewRow { index, marker, color, text } =>
                InspectorItemView::ReviewRow {
                index: index as int,
                marker: marker@,
                color,
                text: text@,
            },
            InspectorItem::RecoveryActions { disabled } => InspectorItemView::RecoveryActions {
                disabled,
            },
        }
    }
}

/// A line of text.
pub open spec fn line(tone: LineTone, text: Seq<char>) -> InspectorItemView {
    InspectorItemView::Line { tone, text }
}

/// What some items show.
pub open spec fn item_views(shown: Seq<InspectorItem>) -> Seq<InspectorItemView> {
    shown.map_values(|item: InspectorItem| item@)
}

fn add_item(shown: &mut Vec<InspectorItem>, item: InspectorItem)
    ensures
        item_views(final(shown)@) == item_views(old(shown)@).push(item@),
{
    let ghost before = shown@;
    shown.push(item);
    assert(item_views(shown@) =~= item_views(before).push(item@));
}

fn add_line(shown: &mut Vec<InspectorItem>, tone: LineTone, text: String)
    ensures
        item_views(final(shown)@) == item_views(old(shown)@).push(line(tone, text@)),
{
    add_item(shown, InspectorItem::Line { tone, text });
}

fn no_lines() -> (shown: Vec<InspectorItem>)
    ensures
        item_views(shown@) == Seq::<InspectorItemView>::empty(),
{
    let shown: Vec<InspectorItem> = Vec::new();
    assert(item_views(shown@) =~= Seq::<InspectorItemView>::empty());
    shown
}

/// The lines above the changed files.
pub open spec fn changes_head(count: usize) -> Seq<InspectorItemView> {
    let head = seq![
        line(LineTone::Section, "CHANGES"@),
        line(LineTone::Body, "changed files "@ + decimal(count as nat)),
    ];
    if count == 0 {
        head.push(line(LineTone::Muted, "No changed files in the current task."@))
    } else {
        head
    }
}

/// The lines below the changed files, of which `shown` are listed.
pub open spec fn changes_tail(count: usize, shown: usize) -> Seq<InspectorItemView> {
    if count > shown {
        seq![
            line(
                LineTone::Warning,
                "+ "@ + decimal((count - shown) as nat) + " more change(s) omitted"@,
            ),
            line(LineTone::Section, "REVIEW"@),
        ]
    } else {
        seq![line(LineTone::Section, "REVIEW"@)]
    }
}

pub fn changes_head_lines(change_count: usize) -> (shown: Vec<InspectorItem>)
    ensures
        item_views(shown@) == changes_head(change_count),
{
    let mut shown = no_lines();
    add_line(&mut shown, LineTone::Section, "CHANGES".to_owned());
    add_line(
        &mut shown,
        LineTone::Body,
        join2("changed files ", decimal_text(change_count as u128).as_str()),
    );
    if change_count == 0 {
        add_line(&mut shown, LineTone::Muted, "No changed files in the current task.".to_owned());
    }
    assert(item_views(shown@) =~= changes_head(change_count));
    shown
}

pub fn changes_tail_lines(change_count: usize, listed: usize) -> (shown: Vec<InspectorItem>)
    ensures
        item_views(shown@) == changes_tail(change_count, listed),
{
    let mut shown = no_lines();
    if change_count > listed {
        add_line(
            &mut shown,
            LineTone::Warning,
            join3(
                "+ ",
                decimal_text((change_count - listed) as u128).as_str(),
                " more change(s) omitted",
            ),
        );
    }
    add_line(&mut shown, LineTone::Section, "REVIEW".to_owned());
    assert(item_views(shown@) =~= changes_tail(change_count, listed));
    shown
}

/// Whether a changed file can be asked for.
pub fn review_is_disabled(
    composer_running: bool,
    awaiting_prompt_start: bool,
    file_review_pending: bool,
) -> (disabled: bool)
    ensures
        disabled == (composer_running || awaiting_prompt_start || file_review_pending),
{
    composer_running || awaiting_prompt_start || file_review_pending
}

/// Whether the reviewed file can be opened in an editor.
pub fn editor_is_disabled(
    external_editor_configured: bool,
    external_editor_pending: bool,
    composer_running: bool,
    awaiting_prompt_start: bool,
) -> (disabled: bool)
    ensures
        disabled == (!external_editor_configured || external_editor_pending || composer_running
            || awaiting_prompt_start),
{
    !external_editor_configured || external_editor_pending || composer_running
        || awaiting_prompt_start
}

#[derive(Debug, Clone, Copy, PartialEq, Eq, Structural)]
pub enum DesktopReviewLineKind {
    FileHeader,
    HunkHeader,
    Added,
    Removed,
    Context,
    Fold,
}

/// The mark in front of a reviewed line.
pub fn review_line_marker(kind: DesktopReviewLineKind) -> (marker: &'static str)
    ensures
        marker@ == line_mark(kind),
{
    match kind {
        DesktopReviewLineKind::Added => "+",
        DesktopReviewLineKind::Removed => "-",
        DesktopReviewLineKind::Fold => "…",
        _ => " ",
    }
}

/// The colour of a reviewed line.
pub fn review_line_color(kind: DesktopReviewLineKind, theme: SemanticTheme) -> (color: SemanticColor)
    ensures
        color == line_color(kind, theme),
{
    match kind {
        DesktopReviewLineKind::Added => theme.success,
        DesktopReviewLineKind::Removed => theme.danger,
        DesktopReviewLineKind::FileHeader | DesktopReviewLineKind::HunkHeader => theme.accent,
        DesktopReviewLineKind::Fold => theme.warning,
        DesktopReviewLineKind::Context => theme.muted_text,
    }
}

/// A reviewed file, apart from its lines.
#[derive(Debug, PartialEq, Eq)]
pub struct ReviewDocument {
    pub display_path: String,
    pub mutation_kind: String,
    pub total_bytes: u64,
    pub total_lines: u64,
    pub using_diff: bool,
    pub source_truncated: bool,
    pub rows_truncated: bool,
}

/// The review that the inspector shows.
#[derive(Debug, PartialEq, Eq)]
pub enum FileReviewPanel {
    Empty,
    Loading { path: String },
    Failed { path: String, code: String },
    Ready(ReviewDocument),
}

/// The lines above the reviewed text.
pub open spec fn review_words(panel: FileReviewPanel) -> Seq<InspectorItemView> {
    match panel {
        FileReviewPanel::Empty => seq![
            line(LineTone::Muted, "Select a changed file to load a product-authorized preview."@),
        ],
        FileReviewPanel::Loading { path } => seq![
            line(LineTone::Warning, "Loading "@ + truncated(path@, 44) + "…"@),
        ],
        FileReviewPanel::Failed { path, code } => seq![
            line(
                LineTone::Danger,
                truncated(path@, 36) + " unavailable ("@ + truncated(code@, 28) + ")"@,
            ),
        ],
        FileReviewPanel::Ready(document) => {
            let head = seq![
                line(LineTone::Body, document.display_path@),
                line(
                    LineTone::Body,
                    document.mutation_kind@ + " · "@ + decimal(document.total_bytes as nat)
                        + " bytes · "@ + decimal(document.total_lines as nat) + " lines · "@ + (
                    if document.using_diff {
                        "unified diff"@
                    } else {
                        "file preview"@
                    }),
                ),
            ];
            if document.source_truncated || document.rows_truncated {
                head.push(line(LineTone::Warning, "Preview bounded at desktop safety limits."@))
            } else {
                head
            }
        },
    }
}

pub fn review_lines(panel: &FileReviewPanel) -> (shown: Vec<InspectorItem>)
    ensures
        item_views(shown@) == review_words(*panel),
{
    let mut shown = no_lines();
    match panel {
        FileReviewPanel::Empty => add_line(
            &mut shown,
            LineTone::Muted,
            "Select a changed file to load a product-authorized preview.".to_owned(),
        ),
        FileReviewPanel::Loading { path } => add_line(
            &mut shown,
            LineTone::Warning,
            join3("Loading ", truncate_label(path.as_str(), 44).as_str(), "…"),
        ),
        FileReviewPanel::Failed { path, code } => {
            let mut text = join3(
                truncate_label(path.as_str(), 36).as_str(),
                " unavailable (",
                truncate_label(code.as_str(), 28).as_str(),
            );
            text.append(")");
            add_line(&mut shown, LineTone::Danger, text);
        },
        FileReviewPanel::Ready(document) => {
            add_line(&mut shown, LineTone::Body, document.display_path.clone());
            let mut text = join5(
                document.mutation_kind.as_str(),
                " · ",
                decimal_text(document.total_bytes as u128).as_str(),
                " bytes · ",
                decimal_text(document.total_lines as u128).as_str(),
            );
            text.append(" lines · ");
            text.append(
                if document.using_diff {
                    "unified diff"
                } else {
                    "file preview"
                },
            );
            add_line(&mut shown, LineTone::Body, text);
            if document.source_truncated || document.rows_truncated {
                add_line(
                    &mut shown,
                    LineTone::Warning,
                    "Preview bounded at desktop safety limits.".to_owned(),
                );
            }
        },
    }
    assert(item_views(shown@) =~= review_words(*panel));
    shown
}

/// The running task and its configuration.
#[derive(Debug, PartialEq, Eq)]
pub struct TaskFacts {
    pub task_state: String,
    pub active_operation: String,
    pub operation_count: usize,
    pub delegation_count: usize,
    pub selected_model: String,
    pub profile: String,
    pub thinking: String,
}

pub open spec fn task_words(task: TaskFacts) -> Seq<InspectorItemView> {
    seq![
        line(LineTone::Section, "TASK"@),
        line(LineTone::Body, "state       "@ + task.task_state@),
        line(LineTone::Body, "active op   "@ + task.active_operation@),
        line(LineTone::Body, "operations  "@ + padded(decimal(task.operation_count as nat), 4)),
        line(LineTone::Body, "delegations "@ + padded(decimal(task.delegation_count as nat), 4)),
        line(LineTone::Section, "CONFIGURATION"@),
        line(LineTone::Body, "model       "@ + task.selected_model@),
        line(LineTone::Body, "profile     "@ + task.profile@),
        line(LineTone::Body, "thinking    "@ + task.thinking@),
    ]
}

pub fn task_lines(task: &TaskFacts) -> (shown: Vec<InspectorItem>)
    ensures
        item_views(shown@) == task_words(*task),
{
    let mut shown = no_lines();
    add_line(&mut shown, LineTone::Section, "TASK".to_owned());
    add_line(&mut shown, LineTone::Body, join2("state       ", task.task_state.as_str()));
    add_line(&mut shown, LineTone::Body, join2("active op   ", task.active_operation.as_str()));
    add_line(
        &mut shown,
        LineTone::Body,
        join2("operations  ", padded_decimal(task.operation_count as u64, 4).as_str()),
    );
    add_line(
        &mut shown,
        LineTone::Body,
        join2("delegations ", padded_decimal(task.delegation_count as u64, 4).as_str()),
    );
    add_line(&mut shown, LineTone::Section, "CONFIGURATION".to_owned());
    add_line(&mut shown, LineTone::Body, join2("model       ", task.selected_model.as_str()));
    add_line(&mut shown, LineTone::Body, join2("profile     ", task.profile.as_str()));
    add_line(&mut shown, LineTone::Body, join2("thinking    ", task.thinking.as_str()));
    assert(item_views(shown@) =~= task_words(*task));
    shown
}

/// What the task has used up.
#[derive(Debug, PartialEq, Eq)]
pub struct UsageFacts {
    pub input: String,
    pub output: String,
    pub cache_read: String,
    pub cache_write: String,
    pub tokens: String,
    pub context: String,
    pub cost: String,
}

pub open spec fn usage_words(usage: UsageFacts) -> Seq<InspectorItemView> {
    seq![
        line(LineTone::Section, "USAGE"@),
        line(LineTone::Body, "input       "@ + usage.input@),
        line(LineTone::Body, "output      "@ + usage.output@),
        line(LineTone::Body, "cache read  "@ + usage.cache_read@),
        line(LineTone::Body, "cache write "@ + usage.cache_write@),
        line(LineTone::Body, "tokens      "@ + usage.tokens@),
        line(LineTone::Body, "context     "@ + usage.context@),
        line(LineTone::Body, "cost        "@ + usage.cost@),
    ]
}

pub fn usage_lines(usage: &UsageFacts) -> (shown: Vec<InspectorItem>)
    ensures
        item_views(shown@) == usage_words(*usage),
{
    let mut shown = no_lines();
    add_line(&mut shown, LineTone::Section, "USAGE".to_owned());
    add_line(&mut shown, LineTone::Body, join2("input       ", usage.input.as_str()));
    add_line(&mut shown, LineTone::Body, join2("output      ", usage.output.as_str()));
    add_line(&mut shown, LineTone::Body, join2("cache read  ", usage.cache_read.as_str()));
    add_line(&mut shown, LineTone::Body, join2("cache write ", usage.cache_write.as_str()));
    add_line(&mut shown, LineTone::Body, join2("tokens      ", usage.tokens.as_str()));
    add_line(&mut shown, LineTone::Body, join2("context     ", usage.context.as_str()));
    add_line(&mut shown, LineTone::Body, join2("cost        ", usage.cost.as_str()));
    assert(item_views(shown@) =~= usage_words(*usage));
    shown
}

/// The latest recovery. It can be acted on where it has an identity.
#[derive(Debug, PartialEq, Eq)]
pub struct RecoveryFacts {
    pub status: String,
    pub recovery_id: String,
    pub operation_id: String,
    pub attempt_count: String,
    pub detail: String,
    pub actionable: bool,
}

#[derive(Debug, PartialEq, Eq)]
pub struct DiagnosticFacts {
    pub sequence: String,
    pub operation: String,
    pub detail: String,
    pub truncated: bool,
}

#[derive(Debug, PartialEq, Eq)]
pub struct ConfigDiagnosticFacts {
    pub code: String,
    pub detail: String,
}

/// The runtime and the resources it has loaded.
#[derive(Debug, PartialEq, Eq)]
pub struct RuntimeFacts {
    pub task_state: String,
    pub reduced_motion: bool,
    pub stream_id: String,
    pub sequence: String,
    pub generation: String,
    pub model_count: usize,
    pub profile_count: usize,
    pub skill_count: usize,
    pub prompt_count: usize,
    pub context_count: usize,
    pub recovery_pending: bool,
    pub latest_recovery: Option<RecoveryFacts>,
    pub latest_diagnostic: Option<DiagnosticFacts>,
    pub latest_config_diagnostic: Option<ConfigDiagnosticFacts>,
    pub latest_issue: Option<String>,
    pub cwd: String,
}

pub open spec fn runtime_head(runtime: RuntimeFacts) -> Seq<InspectorItemView> {
    seq![
        line(LineTone::Section, "RUNTIME"@),
        line(LineTone::Body, "state       "@ + runtime.task_state@),
        line(
            LineTone::Body,
            if runtime.reduced_motion {
                "motion reduced"@
            } else {
                "motion static"@
            },
        ),
        line(LineTone::Body, "stream      "@ + runtime.stream_id@),
        line(LineTone::Body, "sequence    "@ + runtime.sequence@),
        line(LineTone::Body, "generation  "@ + runtime.generation@),
        line(LineTone::Section, "LOCAL RESOURCES"@),
        line(LineTone::Body, "models      "@ + decimal(runtime.model_count as nat)),
        line(LineTone::Body, "profiles    "@ + decimal(runtime.profile_count as nat)),
        line(LineTone::Body, "skills      "@ + decimal(runtime.skill_count as nat)),
        line(LineTone::Body, "prompts     "@ + decimal(runtime.prompt_count as nat)),
        line(LineTone::Body, "context     "@ + decimal(runtime.context_count as nat)),
    ]
}

pub open spec fn recovery_words(recovery: Option<RecoveryFacts>, pending: bool) -> Seq<
    InspectorItemView,
> {
    match recovery {
        Some(recovery) => {
            let words = seq![
            line(LineTone::WarningSection, "LATEST RECOVERY"@),
            line(LineTone::Body, "status      "@ + recovery.status@),
            line(LineTone::Body, "recovery    "@ + recovery.recovery_id@),
            line(LineTone::Body, "operation   "@ + recovery.operation_id@),
            line(LineTone::Body, "attempts    "@ + recovery.attempt_count@),
            line(LineTone::Body, "detail      "@ + recovery.detail@),
            ];
            if recovery.actionable {
                words.push(InspectorItemView::RecoveryActions { disabled: pending })
            } else {
                words
            }
        },
        None => Seq::empty(),
    }
}

pub open spec fn diagnostic_words(diagnostic: Option<DiagnosticFacts>) -> Seq<InspectorItemView> {
    match diagnostic {
        Some(diagnostic) => {
            let words = seq![
                line(LineTone::WarningSection, "LATEST DIAGNOSTIC"@),
                line(LineTone::Body, "sequence    "@ + diagnostic.sequence@),
                line(LineTone::Body, "operation   "@ + diagnostic.operation@),
                line(LineTone::Body, "detail      "@ + diagnostic.detail@),
            ];
            if diagnostic.truncated {
                words.push(line(LineTone::Body, "detail      [truncated]"@))
            } else {
                words
            }
        },
        None => Seq::empty(),
    }
}

pub open spec fn config_words(diagnostic: Option<ConfigDiagnosticFacts>) -> Seq<InspectorItemView> {
    match diagnostic {
        Some(diagnostic) => seq![
            line(LineTone::WarningSection, "LATEST CONFIG DIAGNOSTIC"@),
            line(LineTone::Body, "code        "@ + diagnostic.code@),
            line(LineTone::Body, "detail      "@ + diagnostic.detail@),
        ],
        None => Seq::empty(),
    }
}

pub open spec fn issue_words(issue: Option<Seq<char>>) -> Seq<InspectorItemView> {
    match issue {
        Some(code) => seq![
            line(LineTone::DangerSection, "LATEST ISSUE"@),
            line(LineTone::Body, "code        "@ + code),
        ],
        None => Seq::empty(),
    }
}

/// The lines of the runtime section.
pub open spec fn runtime_words(runtime: RuntimeFacts) -> Seq<InspectorItemView> {
    runtime_head(runtime) + recovery_words(
        runtime.latest_recovery,
        runtime.recovery_pending,
    ) + diagnostic_words(
        runtime.latest_diagnostic,
    ) + config_words(runtime.latest_config_diagnostic) + issue_words(
        optional_text(runtime.latest_issue),
    ) + seq![line(LineTone::Muted, runtime.cwd@)]
}

fn runtime_head_lines(runtime: &RuntimeFacts) -> (shown: Vec<InspectorItem>)
    ensures
        item_views(shown@) == runtime_head(*runtime),
{
    let mut shown = no_lines();
    add_line(&mut shown, LineTone::Section, "RUNTIME".to_owned());
    add_line(&mut shown, LineTone::Body, join2("state       ", runtime.task_state.as_str()));
    add_line(
        &mut shown,
        LineTone::Body,
        if runtime.reduced_motion {
            "motion reduced".to_owned()
        } else {
            "motion static".to_owned()
        },
    );
    add_line(&mut shown, LineTone::Body, join2("stream      ", runtime.stream_id.as_str()));
    add_line(&mut shown, LineTone::Body, join2("sequence    ", runtime.sequence.as_str()));
    add_line(&mut shown, LineTone::Body, join2("generation  ", runtime.generation.as_str()));
    add_line(&mut shown, LineTone::Section, "LOCAL RESOURCES".to_owned());
    add_line(
        &mut shown,
        LineTone::Body,
        join2("models      ", decimal_text(runtime.model_count as u128).as_str()),
    );
    add_line(
        &mut shown,
        LineTone::Body,
        join2("profiles    ", decimal_text(runtime.profile_count as u128).as_str()),
    );
    add_line(
        &mut shown,
        LineTone::Body,
        join2("skills      ", decimal_text(runtime.skill_count as u128).as_str()),
    );
    add_line(
        &mut shown,
        LineTone::Body,
        join2("prompts     ", decimal_text(runtime.prompt_count as u128).as_str()),
    );
    add_line(
        &mut shown,
        LineTone::Body,
        join2("context     ", decimal_text(runtime.context_count as u128).as_str()),
    );
    assert(item_views(shown@) =~= runtime_head(*runtime));
    shown
}

fn add_recovery_lines(
    shown: &mut Vec<InspectorItem>,
    recovery: &Option<RecoveryFacts>,
    pending: bool,
)
    ensures
        item_views(final(shown)@) == item_views(old(shown)@) + recovery_words(*recovery, pending),
{
    if let Some(recovery) = recovery {
        add_line(shown, LineTone::WarningSection, "LATEST RECOVERY".to_owned());
        add_line(shown, LineTone::Body, join2("status      ", recovery.status.as_str()));
        add_line(shown, LineTone::Body, join2("recovery    ", recovery.recovery_id.as_str()));
        add_line(shown, LineTone::Body, join2("operation   ", recovery.operation_id.as_str()));
        add_line(shown, LineTone::Body, join2("attempts    ", recovery.attempt_count.as_str()));
        add_line(shown, LineTone::Body, join2("detail      ", recovery.detail.as_str()));
        if recovery.actionable {
            add_item(shown, InspectorItem::RecoveryActions { disabled: pending });
        }
    }
    assert(item_views(shown@) =~= item_views(old(shown)@) + recovery_words(*recovery, pending));
}

fn add_diagnostic_lines(shown: &mut Vec<InspectorItem>, diagnostic: &Option<DiagnosticFacts>)
    ensures
        item_views(final(shown)@) == item_views(old(shown)@) + diagnostic_words(*diagnostic),
{
    if let Some(diagnostic) = diagnostic {
        add_line(shown, LineTone::WarningSection, "LATEST DIAGNOSTIC".to_owned());
        add_line(shown, LineTone::Body, join2("sequence    ", diagnostic.sequence.as_str()));
        add_line(shown, LineTone::Body, join2("operation   ", diagnostic.operation.as_str()));
        add_line(shown, LineTone::Body, join2("detail      ", diagnostic.detail.as_str()));
        if diagnostic.truncated {
            add_line(shown, LineTone::Body, "detail      [truncated]".to_owned());
        }
    }
    assert(item_views(shown@) =~= item_views(old(shown)@) + diagnostic_words(*diagnostic));
}

fn add_config_lines(shown: &mut Vec<InspectorItem>, diagnostic: &Option<ConfigDiagnosticFacts>)
    ensures
        item_views(final(shown)@) == item_views(old(shown)@) + config_words(*diagnostic),
{
    if let Some(diagnostic) = diagnostic {
        add_line(shown, LineTone::WarningSection, "LATEST CONFIG DIAGNOSTIC".to_owned());
        add_line(shown, LineTone::Body, join2("code        ", diagnostic.code.as_str()));
        add_line(shown, LineTone::Body, join2("detail      ", diagnostic.detail.as_str()));
    }
    assert(item_views(shown@) =~= item_views(old(shown)@) + config_words(*diagnostic));
}

fn add_issue_lines(shown: &mut Vec<InspectorItem>, issue: &Option<String>)
    ensures
        item_views(final(shown)@) == item_views(old(shown)@) + issue_words(optional_text(*issue)),
{
    if let Some(code) = issue {
        add_line(shown, LineTone::DangerSection, "LATEST ISSUE".to_owned());
        add_line(shown, LineTone::Body, join2("code        ", code.as_str()));
    }
    assert(item_views(shown@) =~= item_views(old(shown)@) + issue_words(optional_text(*issue)));
}

pub fn runtime_lines(runtime: &RuntimeFacts) -> (shown: Vec<InspectorItem>)
    ensures
        item_views(shown@) == runtime_words(*runtime),
{
    let mut shown = runtime_head_lines(runtime);
    add_recovery_lines(&mut shown, &runtime.latest_recovery, runtime.recovery_pending);
    add_diagnostic_lines(&mut shown, &runtime.latest_diagnostic);
    add_config_lines(&mut shown, &runtime.latest_config_diagnostic);
    add_issue_lines(&mut shown, &runtime.latest_issue);
    let ghost before = item_views(shown@);
    add_line(&mut shown, LineTone::Muted, runtime.cwd.clone());
    assert(item_views(shown@) =~= before + seq![line(LineTone::Muted, runtime.cwd@)]);
    shown
}

#[derive(Debug, Clone, Copy, PartialEq, Eq, Structural)]
pub enum DesktopRecoveryAction {
    Retry,
    MarkFailed,
    Abort,
}

/// A control that acts on the latest recovery.
#[derive(Debug, PartialEq, Eq)]
pub struct RecoveryButton {
    pub label: &'static str,
    pub tooltip: &'static str,
    pub action: DesktopRecoveryAction,
    pub disabled: bool,
}

pub open spec fn recovery_label(action: DesktopRecoveryAction) -> Seq<char> {
    match action {
        DesktopRecoveryAction::Retry => "Retry"@,
        DesktopRecoveryAction::MarkFailed => "Mark failed"@,
        DesktopRecoveryAction::Abort => "Abort"@,
    }
}

pub open spec fn recovery_hint(action: DesktopRecoveryAction) -> Seq<char> {
    match action {
        DesktopRecoveryAction::Retry => "Retry this authoritative recovery"@,
        DesktopRecoveryAction::MarkFailed => "Resolve this recovery as failed"@,
        DesktopRecoveryAction::Abort => "Resolve this recovery as aborted"@,
    }
}

pub fn recovery_button(action: DesktopRecoveryAction, disabled: bool) -> (button: RecoveryButton)
    ensures
        button.label@ == recovery_label(action),
        button.tooltip@ == recovery_hint(action),
        button.action == action,
        button.disabled == disabled,
{
    RecoveryButton {
        label: match action {
            DesktopRecoveryAction::Retry => "Retry",
            DesktopRecoveryAction::MarkFailed => "Mark failed",
            DesktopRecoveryAction::Abort => "Abort",
        },
        tooltip: match action {
            DesktopRecoveryAction::Retry => "Retry this authoritative recovery",
            DesktopRecoveryAction::MarkFailed => "Resolve this recovery as failed",
            DesktopRecoveryAction::Abort => "Resolve this recovery as aborted",
        },
        action,
        disabled,
    }
}

/// How severe a recovery action is: only a retry is harmless.
pub open spec fn recovery_severity(action: DesktopRecoveryAction) -> DesktopCriticalTone {
    match action {
        DesktopRecoveryAction::Retry => DesktopCriticalTone::Neutral,
        DesktopRecoveryAction::MarkFailed => DesktopCriticalTone::Dangerous,
        DesktopRecoveryAction::Abort => DesktopCriticalTone::Dangerous,
    }
}

pub open spec fn conversation_recovery_hint(action: DesktopRecoveryAction) -> Seq<char> {
    match action {
        DesktopRecoveryAction::Retry => "Retry the pending recovery"@,
        DesktopRecoveryAction::MarkFailed => "Resolve the pending recovery as failed"@,
        DesktopRecoveryAction::Abort => "Resolve the pending recovery as aborted"@,
    }
}

/// The control below a diagnostic of the conversation.
#[derive(Debug, PartialEq, Eq)]
pub struct ConversationRecoveryButton {
    pub label: &'static str,
    pub tooltip: &'static str,
    pub tone: DesktopCriticalTone,
    pub action: DesktopRecoveryAction,
}

pub fn conversation_recovery_button(action: DesktopRecoveryAction) -> (button:
    ConversationRecoveryButton)
    ensures
        button.label@ == recovery_label(action),
        button.tooltip@ == conversation_recovery_hint(action),
        button.tone == recovery_severity(action),
        button.action == action,
{
    ConversationRecoveryButton {
        label: match action {
            DesktopRecoveryAction::Retry => "Retry",
            DesktopRecoveryAction::MarkFailed => "Mark failed",
            DesktopRecoveryAction::Abort => "Abort",
        },
        tooltip: match action {
            DesktopRecoveryAction::Retry => "Retry the pending recovery",
            DesktopRecoveryAction::MarkFailed => "Resolve the pending recovery as failed",
            DesktopRecoveryAction::Abort => "Resolve the pending recovery as aborted",
        },
        tone: match action {
            DesktopRecoveryAction::Retry => DesktopCriticalTone::Neutral,
            DesktopRecoveryAction::MarkFailed | DesktopRecoveryAction::Abort =>
                DesktopCriticalTone::Dangerous,
        },
        action,
    }
}

/// Whose details the inspector shows.
pub fn details_label(section: InspectorSection) -> (label: String)
    ensures
        label@ == section.spec_label() + " Inspector details"@,
{
    join2(section.label(), " Inspector details")
}

/// A changed file that can be reviewed.
#[derive(Debug, PartialEq, Eq)]
pub struct InspectorChangedFile {
    pub label: String,
}

/// A line of the reviewed file.
#[derive(Debug, PartialEq, Eq)]
pub struct ReviewLine {
    pub kind: DesktopReviewLineKind,
    pub text: String,
}

/// The changes of the task and the review of one of them. The rows are those
/// of a review that is ready.
#[derive(Debug, PartialEq, Eq)]
pub struct ChangesFacts {
    pub change_count: usize,
    pub files: Vec<InspectorChangedFile>,
    pub review: FileReviewPanel,
    pub rows: Vec<ReviewLine>,
    pub composer_running: bool,
    pub awaiting_prompt_start: bool,
    pub file_review_pending: bool,
    pub external_editor_pending: bool,
    pub external_editor_configured: bool,
}

impl ChangesFacts {
    pub open spec fn review_blocked(self) -> bool {
        self.composer_running || self.awaiting_prompt_start || self.file_review_pending
    }

    pub open spec fn editor_blocked(self) -> bool {
        !self.external_editor_configured || self.external_editor_pending || self.composer_running
            || self.awaiting_prompt_start
    }
}

/// The mark in front of a reviewed line.
pub open spec fn line_mark(kind: DesktopReviewLineKind) -> Seq<char> {
    match kind {
        DesktopReviewLineKind::Added => "+"@,
        DesktopReviewLineKind::Removed => "-"@,
        DesktopReviewLineKind::Fold => "…"@,
        _ => " "@,
    }
}

/// The colour of a reviewed line.
pub open spec fn line_color(kind: DesktopReviewLineKind, theme: SemanticTheme) -> SemanticColor {
    match kind {
        DesktopReviewLineKind::Added => theme.success,
        DesktopReviewLineKind::Removed => theme.danger,
        DesktopReviewLineKind::FileHeader => theme.accent,
        DesktopReviewLineKind::HunkHeader => theme.accent,
        DesktopReviewLineKind::Fold => theme.warning,
        DesktopReviewLineKind::Context => theme.muted_text,
    }
}

/// One control for each changed file.
pub open spec fn file_items(files: Seq<InspectorChangedFile>, blocked: bool) -> Seq<
    InspectorItemView,
> {
    Seq::new(
        files.len(),
        |i: int|
            InspectorItemView::ChangedFile { index: i, label: files[i].label@, disabled: blocked },
    )
}

/// One row for each reviewed line.
pub open spec fn row_items(rows: Seq<ReviewLine>, theme: SemanticTheme) -> Seq<InspectorItemView> {
    Seq::new(
        rows.len(),
        |i: int|
            InspectorItemView::ReviewRow {
                index: i,
                marker: line_mark(rows[i].kind),
                color: line_color(rows[i].kind, theme),
                text: rows[i].text@,
            },
    )
}

/// The review below the changed files: a failed one can be asked for again,
/// one that is ready can be copied and opened, and shows its rows.
pub open spec fn review_items(changes: ChangesFacts, theme: SemanticTheme) -> Seq<
    InspectorItemView,
> {
    match changes.review {
        FileReviewPanel::Failed { .. } => review_words(changes.review).push(
            InspectorItemView::RetryReview { disabled: changes.review_blocked() },
        ),
        FileReviewPanel::Ready(_) => review_words(changes.review).push(
            InspectorItemView::ReviewActions { editor_disabled: changes.editor_blocked() },
        ) + row_items(changes.rows@, theme),
        _ => review_words(changes.review),
    }
}

/// The details of the changes section.
pub open spec fn changes_items(changes: ChangesFacts, theme: SemanticTheme) -> Seq<
    InspectorItemView,
> {
    changes_head(changes.change_count) + file_items(changes.files@, changes.review_blocked())
        + changes_tail(changes.change_count, changes.files@.len() as usize) + review_items(
        changes,
        theme,
    )
}

fn add_all(shown: &mut Vec<InspectorItem>, more: Vec<InspectorItem>)
    ensures
        item_views(final(shown)@) == item_views(old(shown)@) + item_views(more@),
{
    let mut more = more;
    let ghost before = shown@;
    let ghost added = more@;
    shown.append(&mut more);
    assert(item_views(shown@) =~= item_views(before) + item_views(added));
}

fn add_files(shown: &mut Vec<InspectorItem>, files: &Vec<InspectorChangedFile>, disabled: bool)
    ensures
        item_views(final(shown)@) == item_views(old(shown)@) + file_items(files@, disabled),
{
    let ghost before = item_views(shown@);
    let mut index: usize = 0;
    while index < files.len()
        invariant
            index <= files@.len(),
            item_views(shown@) == before + file_items(files@, disabled).take(index as int),
        decreases files@.len() - index,
    {
        add_item(
            shown,
            InspectorItem::ChangedFile { index, label: files[index].label.clone(), disabled },
        );
        index = index + 1;
        assert(item_views(shown@) =~= before + file_items(files@, disabled).take(index as int));
    }
    assert(file_items(files@, disabled).take(index as int) =~= file_items(files@, disabled));
}

fn add_rows(shown: &mut Vec<InspectorItem>, rows: &Vec<ReviewLine>, theme: SemanticTheme)
    ensures
        item_views(final(shown)@) == item_views(old(shown)@) + row_items(rows@, theme),
{
    let ghost before = item_views(shown@);
    let mut index: usize = 0;
    while index < rows.len()
        invariant
            index <= rows@.len(),
            item_views(shown@) == before + row_items(rows@, theme).take(index as int),
        decreases rows@.len() - index,
    {
        let row = &rows[index];
        add_item(
            shown,
            InspectorItem::ReviewRow {
                index,
                marker: review_line_marker(row.kind),
                color: review_line_color(row.kind, theme),
                text: row.text.clone(),
            },
        );
        index = index + 1;
        assert(item_views(shown@) =~= before + row_items(rows@, theme).take(index as int));
    }
    assert(row_items(rows@, theme).take(index as int) =~= row_items(rows@, theme));
}

/// The details of the changes section.
pub fn changes_details(changes: &ChangesFacts, theme: SemanticTheme) -> (shown: Vec<InspectorItem>)
    ensures
        item_views(shown@) == changes_items(*changes, theme),
{
    let blocked = review_is_disabled(
        changes.composer_running,
        changes.awaiting_prompt_start,
        changes.file_review_pending,
    );
    let mut shown = changes_head_lines(changes.change_count);
    add_files(&mut shown, &changes.files, blocked);
    add_all(&mut shown, changes_tail_lines(changes.change_count, changes.files.len()));
    let ghost above = item_views(shown@);
    add_all(&mut shown, review_lines(&changes.review));
    match &changes.review {
        FileReviewPanel::Failed { .. } => {
            add_item(&mut shown, InspectorItem::RetryReview { disabled: blocked });
        },
        FileReviewPanel::Ready(_) => {
            let editor_disabled = editor_is_disabled(
                changes.external_editor_configured,
                changes.external_editor_pending,
                changes.composer_running,
                changes.awaiting_prompt_start,
            );
            add_item(&mut shown, InspectorItem::ReviewActions { editor_disabled });
            add_rows(&mut shown, &changes.rows, theme);
        },
        FileReviewPanel::Empty | FileReviewPanel::Loading { .. } => {},
    }
    assert(item_views(shown@) =~= above + review_items(*changes, theme));
    shown
}

/// Everything the inspector can show.
#[derive(Debug, PartialEq, Eq)]
pub struct InspectorFacts {
    pub selected_section: InspectorSection,
    pub changes: ChangesFacts,
    pub task: TaskFacts,
    pub usage: UsageFacts,
    pub runtime: RuntimeFacts,
}

/// The details of the selected section.
pub open spec fn detail_items(facts: InspectorFacts, theme: SemanticTheme) -> Seq<
    InspectorItemView,
> {
    match facts.selected_section {
        InspectorSection::Changes => changes_items(facts.changes, theme),
        InspectorSection::Task => task_words(facts.task),
        InspectorSection::Usage => usage_words(facts.usage),
        InspectorSection::Runtime => runtime_words(facts.runtime),
    }
}

/// Works out the details of the selected section.
pub fn inspector_details(facts: &InspectorFacts, theme: SemanticTheme) -> (shown: Vec<
    InspectorItem,
>)
    ensures
        item_views(shown@) == detail_items(*facts, theme),
{
    match facts.selected_section {
        InspectorSection::Changes => changes_details(&facts.changes, theme),
        InspectorSection::Task => task_lines(&facts.task),
        InspectorSection::Usage => usage_lines(&facts.usage),
        InspectorSection::Runtime => runtime_lines(&facts.runtime),
    }
}

/// The frame round the details.
#[derive(Debug, PartialEq, Eq)]
pub struct InspectorFrame {
    pub width: u32,
    pub dialog: bool,
    pub label: &'static str,
    pub description: Option<&'static str>,
    pub key_context: Option<KeyContext>,
    pub close_button: bool,
    pub edge: SemanticColor,
    pub attention_count: usize,
    pub attention_limit: usize,
    pub details_label: String,
}

/// The largest count that the badge of the runtime tab spells out.
pub const MAX_ATTENTION_COUNT: usize = 99;

/// Works out the frame of the inspector. Over the center it is a dialog that
/// can be closed.
pub fn inspector_frame(
    panel_width: u32,
    context_is_overlay: bool,
    focus_shown: bool,
    selected_section: InspectorSection,
    runtime_attention_count: usize,
    theme: SemanticTheme,
) -> (frame: InspectorFrame)
    ensures
        frame.width == panel_width,
        frame.dialog == context_is_overlay,
        frame.label@ == (if context_is_overlay {
            "Task Inspector dialog"@
        } else {
            "Task Inspector"@
        }),
        frame.description is Some <==> context_is_overlay,
        frame.description is Some ==> frame.description->0@
            == "Review task details. Escape closes this dialog."@,
        frame.key_context == (if context_is_overlay {
            Some(KeyContext::NarrowContext)
        } else {
            None
        }),
        frame.close_button == context_is_overlay,
        frame.edge == (if focus_shown {
            theme.focus_ring
        } else {
            theme.divider
        }),
        frame.attention_count == runtime_attention_count,
        frame.attention_limit == MAX_ATTENTION_COUNT,
        frame.details_label@ == selected_section.spec_label() + " Inspector details"@,
{
    InspectorFrame {
        width: panel_width,
        dialog: context_is_overlay,
        label: if context_is_overlay {
            "Task Inspector dialog"
        } else {
            "Task Inspector"
        },
        description: if context_is_overlay {
            Some("Review task details. Escape closes this dialog.")
        } else {
            None
        },
        key_context: if context_is_overlay {
            Some(KeyContext::NarrowContext)
        } else {
            None
        },
        close_button: context_is_overlay,
        edge: if focus_shown {
            theme.focus_ring
        } else {
            theme.divider
        },
        attention_count: runtime_attention_count,
        attention_limit: MAX_ATTENTION_COUNT,
        details_label: details_label(selected_section),
    }
}

/// Every changed file is listed once, in its order, under its own place and label, and
/// can be reviewed exactly while nothing runs and no other review is under way.
pub proof fn law_changed_files_are_listed_in_order(
    changes: ChangesFacts,
    theme: SemanticTheme,
    index: int,
)
    requires
        0 <= index < changes.files@.len(),
    ensures
        ({
            let shown = changes_items(changes, theme);
            let head = if changes.change_count == 0 { 3int } else { 2 };
            &&& head + index < shown.len()
            &&& shown[head + index] == (InspectorItemView::ChangedFile {
                index,
                label: changes.files@[index].label@,
                disabled: changes.composer_running || changes.awaiting_prompt_start
                    || changes.file_review_pending,
            })
            &&& shown[0] == (InspectorItemView::Line { tone: LineTone::Section, text: "CHANGES"@ })
            &&& shown[1] == (InspectorItemView::Line {
                tone: LineTone::Body,
                text: "changed files "@ + decimal(changes.change_count as nat),
            })
        }),
{
}

/// Changes that are not listed are counted; where all are listed, nothing is said.
pub proof fn law_omitted_changes_are_counted(count: usize, shown: usize)
    ensures
        count > shown ==> changes_tail(count, shown).len() == 2 && changes_tail(count, shown)[0] == (
        InspectorItemView::Line {
            tone: LineTone::Warning,
            text: "+ "@ + decimal((count - shown) as nat) + " more change(s) omitted"@,
        }),
        count <= shown ==> changes_tail(count, shown).len() == 1,
        changes_tail(count, shown).last() == (InspectorItemView::Line {
            tone: LineTone::Section,
            text: "REVIEW"@,
        }),
        changes_head(0).len() == 3 && changes_head(0)[2] == (InspectorItemView::Line {
            tone: LineTone::Muted,
            text: "No changed files in the current task."@,
        }),
        count > 0 ==> changes_head(count).len() == 2,
{
}

/// A review shows every line of the change, in its order, marked and colored by what
/// happened to it.
pub proof fn law_review_shows_every_line(changes: ChangesFacts, theme: SemanticTheme, index: int)
    requires
        changes.review is Ready,
        0 <= index < changes.rows@.len(),
    ensures
        ({
            let shown = review_items(changes, theme);
            let row = changes.rows@[index];
            let at = shown.len() - changes.rows@.len() + index;
            &&& 0 <= at
            &&& shown[at] == (InspectorItemView::ReviewRow {
                index,
                marker: match row.kind {
                    DesktopReviewLineKind::Added => "+"@,
                    DesktopReviewLineKind::Removed => "-"@,
                    DesktopReviewLineKind::Fold => "…"@,
                    _ => " "@,
                },
                color: match row.kind {
                    DesktopReviewLineKind::Added => theme.success,
                    DesktopReviewLineKind::Removed => theme.danger,
                    DesktopReviewLineKind::FileHeader => theme.accent,
                    DesktopReviewLineKind::HunkHeader => theme.accent,
                    DesktopReviewLineKind::Fold => theme.warning,
                    DesktopReviewLineKind::Context => theme.muted_text,
                },
                text: row.text@,
            })
        }),
{
}

/// A review that failed can be tried again, and one that is there opened in an editor,
/// exactly while nothing stands in the way.
pub proof fn law_reviews_offer_their_next_step(changes: ChangesFacts, theme: SemanticTheme)
    ensures
        changes.review is Failed ==> review_items(changes, theme).last()
            == (InspectorItemView::RetryReview {
            disabled: changes.composer_running || changes.awaiting_prompt_start
                || changes.file_review_pending,
        }),
        changes.review is Ready ==> review_items(changes, theme)[review_words(changes.review).len()
            as int] == (InspectorItemView::ReviewActions {
            editor_disabled: !changes.external_editor_configured || changes.external_editor_pending
                || changes.composer_running || changes.awaiting_prompt_start,
        }),
        changes.review is Empty || changes.review is Loading ==> review_items(changes, theme).len()
            == 1,
{
}

/// A review says what it is of: nothing yet, a file that loads, one that could not be
/// loaded and why, or the file with its size; and that it was cut where it was.
pub proof fn law_reviews_say_what_they_are_of(path: String, code: String, document: ReviewDocument)
    ensures
        review_words(FileReviewPanel::Empty) == seq![
            InspectorItemView::Line {
                tone: LineTone::Muted,
                text: "Select a changed file to load a product-authorized preview."@,
            },
        ],
        path@.len() <= 44 ==> review_words(FileReviewPanel::Loading { path }) == seq![
            InspectorItemView::Line {
                tone: LineTone::Warning,
                text: "Loading "@ + path@ + "…"@,
            },
        ],
        path@.len() <= 36 && code@.len() <= 28 ==> review_words(
            FileReviewPanel::Failed { path, code },
        ) == seq![
            InspectorItemView::Line {
                tone: LineTone::Danger,
                text: path@ + " unavailable ("@ + code@ + ")"@,
            },
        ],
        ({
            let shown = review_words(FileReviewPanel::Ready(document));
            &&& shown[0] == (InspectorItemView::Line {
                tone: LineTone::Body,
                text: document.display_path@,
            })
            &&& shown[1] == (InspectorItemView::Line {
                tone: LineTone::Body,
                text: document.mutation_kind@ + " · "@ + decimal(document.total_bytes as nat)
                    + " bytes · "@ + decimal(document.total_lines as nat) + " lines · "@ + (
                if document.using_diff {
                    "unified diff"@
                } else {
                    "file preview"@
                }),
            })
            &&& shown.len() == (if document.source_truncated || document.rows_truncated {
                3nat
            } else {
                2
            })
            &&& shown.len() == 3 ==> shown[2] == (InspectorItemView::Line {
                tone: LineTone::Warning,
                text: "Preview bounded at desktop safety limits."@,
            })
        }),
{
}

/// The task shows its state, its counts and its configuration, each under its name.
pub proof fn law_task_shows_its_facts(task: TaskFacts)
    ensures
        ({
            let shown = task_words(task);
            &&& shown.len() == 9
            &&& shown[0] == (InspectorItemView::Line { tone: LineTone::Section, text: "TASK"@ })
            &&& shown[1]->Line_text == "state       "@ + task.task_state@
            &&& shown[2]->Line_text == "active op   "@ + task.active_operation@
            &&& shown[3]->Line_text == "operations  "@ + padded(decimal(task.operation_count as nat), 4)
            &&& shown[4]->Line_text == "delegations "@ + padded(decimal(task.delegation_count as nat), 4)
            &&& shown[5] == (InspectorItemView::Line {
                tone: LineTone::Section,
                text: "CONFIGURATION"@,
            })
            &&& shown[6]->Line_text == "model       "@ + task.selected_model@
            &&& shown[7]->Line_text == "profile     "@ + task.profile@
            &&& shown[8]->Line_text == "thinking    "@ + task.thinking@
        }),
{
}

/// The usage shows every count under its name.
pub proof fn law_usage_shows_its_facts(usage: UsageFacts)
    ensures
        ({
            let shown = usage_words(usage);
            &&& shown.len() == 8
            &&& shown[0] == (InspectorItemView::Line { tone: LineTone::Section, text: "USAGE"@ })
            &&& shown[1]->Line_text == "input       "@ + usage.input@
            &&& shown[2]->Line_text == "output      "@ + usage.output@
            &&& shown[3]->Line_text == "cache read  "@ + usage.cache_read@
            &&& shown[4]->Line_text == "cache write "@ + usage.cache_write@
            &&& shown[5]->Line_text == "tokens      "@ + usage.tokens@
            &&& shown[6]->Line_text == "context     "@ + usage.context@
            &&& shown[7]->Line_text == "cost        "@ + usage.cost@
        }),
{
}

/// The runtime shows its state and resources, each under its name, then the latest
/// recovery, diagnostic, configuration diagnostic and issue, each exactly where there is
/// one, and the directory last.
pub proof fn law_runtime_shows_its_facts(runtime: RuntimeFacts)
    ensures
        ({
            let shown = runtime_words(runtime);
            let recovery = match runtime.latest_recovery {
                Some(recovery) => if recovery.actionable { 7int } else { 6 },
                None => 0,
            };
            let diagnostic = match runtime.latest_diagnostic {
                Some(diagnostic) => if diagnostic.truncated { 5int } else { 4 },
                None => 0,
            };
            let config = if runtime.latest_config_diagnostic is Some { 3int } else { 0 };
            let issue = if runtime.latest_issue is Some { 2int } else { 0 };
            &&& shown.len() == 13 + recovery + diagnostic + config + issue
            &&& shown[1]->Line_text == "state       "@ + runtime.task_state@
            &&& shown[2]->Line_text == (if runtime.reduced_motion {
                "motion reduced"@
            } else {
                "motion static"@
            })
            &&& shown[3]->Line_text == "stream      "@ + runtime.stream_id@
            &&& shown[4]->Line_text == "sequence    "@ + runtime.sequence@
            &&& shown[5]->Line_text == "generation  "@ + runtime.generation@
            &&& shown[7]->Line_text == "models      "@ + decimal(runtime.model_count as nat)
            &&& shown[8]->Line_text == "profiles    "@ + decimal(runtime.profile_count as nat)
            &&& shown[9]->Line_text == "skills      "@ + decimal(runtime.skill_count as nat)
            &&& shown[10]->Line_text == "prompts     "@ + decimal(runtime.prompt_count as nat)
            &&& shown[11]->Line_text == "context     "@ + decimal(runtime.context_count as nat)
            &&& runtime.latest_recovery matches Some(latest) ==> {
                &&& shown[12] == (InspectorItemView::Line {
                    tone: LineTone::WarningSection,
                    text: "LATEST RECOVERY"@,
                })
                &&& shown[13]->Line_text == "status      "@ + latest.status@
                &&& shown[14]->Line_text == "recovery    "@ + latest.recovery_id@
                &&& shown[15]->Line_text == "operation   "@ + latest.operation_id@
                &&& shown[16]->Line_text == "attempts    "@ + latest.attempt_count@
                &&& shown[17]->Line_text == "detail      "@ + latest.detail@
                &&& latest.actionable ==> shown[18] == (InspectorItemView::RecoveryActions {
                    disabled: runtime.recovery_pending,
                })
            }
            &&& runtime.latest_diagnostic matches Some(latest) ==> {
                let at = 12 + recovery;
                &&& shown[at] == (InspectorItemView::Line {
                    tone: LineTone::WarningSection,
                    text: "LATEST DIAGNOSTIC"@,
                })
                &&& shown[at + 1]->Line_text == "sequence    "@ + latest.sequence@
                &&& shown[at + 2]->Line_text == "operation   "@ + latest.operation@
                &&& shown[at + 3]->Line_text == "detail      "@ + latest.detail@
                &&& latest.truncated ==> shown[at + 4]->Line_text == "detail      [truncated]"@
            }
            &&& runtime.latest_config_diagnostic matches Some(latest) ==> {
                let at = 12 + recovery + diagnostic;
                &&& shown[at] == (InspectorItemView::Line {
                    tone: LineTone::WarningSection,
                    text: "LATEST CONFIG DIAGNOSTIC"@,
                })
                &&& shown[at + 1]->Line_text == "code        "@ + latest.code@
                &&& shown[at + 2]->Line_text == "detail      "@ + latest.detail@
            }
            &&& runtime.latest_issue matches Some(latest) ==> {
                let at = 12 + recovery + diagnostic + config;
                &&& shown[at] == (InspectorItemView::Line {
                    tone: LineTone::DangerSection,
                    text: "LATEST ISSUE"@,
                })
                &&& shown[at + 1]->Line_text == "code        "@ + latest@
            }
            &&& shown.last() == (InspectorItemView::Line {
                tone: LineTone::Muted,
                text: runtime.cwd@,
            })
        }),
{
}

/// The inspector shows the section that was selected: each begins with its own name.
pub proof fn law_sections_show_their_own(facts: InspectorFacts, theme: SemanticTheme)
    ensures
        ({
            let shown = detail_items(facts, theme);
            &&& shown.len() > 0
            &&& shown[0] == (InspectorItemView::Line {
                tone: LineTone::Section,
                text: match facts.selected_section {
                    InspectorSection::Changes => "CHANGES"@,
                    InspectorSection::Task => "TASK"@,
                    InspectorSection::Usage => "USAGE"@,
                    InspectorSection::Runtime => "RUNTIME"@,
                },
            })
        }),
        facts.selected_section.spec_label() == (match facts.selected_section {
            InspectorSection::Changes => "Changes"@,
            InspectorSection::Task => "Task"@,
            InspectorSection::Usage => "Usage"@,
            InspectorSection::Runtime => "Runtime"@,
        }),
{
}

/// The buttons of a recovery say what they do: only trying again is harmless, and the
/// others say how they resolve it.
pub proof fn law_recovery_buttons_say_what_they_do()
    ensures
        recovery_label(DesktopRecoveryAction::Retry) == "Retry"@,
        recovery_label(DesktopRecoveryAction::MarkFailed) == "Mark failed"@,
        recovery_label(DesktopRecoveryAction::Abort) == "Abort"@,
        recovery_hint(DesktopRecoveryAction::Retry) == "Retry this authoritative recovery"@,
        recovery_hint(DesktopRecoveryAction::MarkFailed) == "Resolve this recovery as failed"@,
        recovery_hint(DesktopRecoveryAction::Abort) == "Resolve this recovery as aborted"@,
        conversation_recovery_hint(DesktopRecoveryAction::Retry) == "Retry the pending recovery"@,
        conversation_recovery_hint(DesktopRecoveryAction::MarkFailed)
            == "Resolve the pending recovery as failed"@,
        conversation_recovery_hint(DesktopRecoveryAction::Abort)
            == "Resolve the pending recovery as aborted"@,
        forall|action: DesktopRecoveryAction|
            #[trigger] recovery_severity(action) is Dangerous <==> !(action is Retry),
        recovery_severity(DesktopRecoveryAction::Retry) is Neutral,
{
}

/// What went wrong last is told in full: each fact on a line of its own, and the way out
/// of a recovery where there is one, closed while another is taken.
pub proof fn law_trouble_is_told_in_full(
    recovery: RecoveryFacts,
    pending: bool,
    diagnostic: DiagnosticFacts,
    config: ConfigDiagnosticFacts,
    issue: Seq<char>,
)
    ensures
        ({
            let shown = recovery_words(Some(recovery), pending);
            &&& shown[1]->Line_text == "status      "@ + recovery.status@
            &&& shown[2]->Line_text == "recovery    "@ + recovery.recovery_id@
            &&& shown[3]->Line_text == "operation   "@ + recovery.operation_id@
            &&& shown[4]->Line_text == "attempts    "@ + recovery.attempt_count@
            &&& shown[5]->Line_text == "detail      "@ + recovery.detail@
            &&& recovery.actionable ==> shown.len() == 7 && shown[6] == (
            InspectorItemView::RecoveryActions { disabled: pending })
            &&& !recovery.actionable ==> shown.len() == 6
        }),
        ({
            let shown = diagnostic_words(Some(diagnostic));
            &&& shown[1]->Line_text == "sequence    "@ + diagnostic.sequence@
            &&& shown[2]->Line_text == "operation   "@ + diagnostic.operation@
            &&& shown[3]->Line_text == "detail      "@ + diagnostic.detail@
            &&& diagnostic.truncated ==> shown.len() == 5 && shown[4]->Line_text
                == "detail      [truncated]"@
            &&& !diagnostic.truncated ==> shown.len() == 4
        }),
        ({
            let shown = config_words(Some(config));
            &&& shown.len() == 3
            &&& shown[1]->Line_text == "code        "@ + config.code@
            &&& shown[2]->Line_text == "detail      "@ + config.detail@
        }),
        issue_words(Some(issue)).len() == 2 && issue_words(Some(issue))[1]->Line_text
            == "code        "@ + issue,
        recovery_words(None, pending).len() == 0 && diagnostic_words(None).len() == 0
            && config_words(None).len() == 0 && issue_words(None).len() == 0,
        MAX_ATTENTION_COUNT == 99,
{
}

} // verus!

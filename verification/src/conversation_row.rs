//! What the conversation pane shows: of each row, and around the rows.
use crate::controls::{DesktopControlSize, DesktopIcon};
use crate::conversation::{
    block_accent, block_glyph, conversation_block_visual, conversation_copy_footer_visible,
    conversation_identity_header_visible, copy_footer_shown, identity_header_shown,
    ConversationBlockKind, ConversationBlockVisual,
};
use crate::text::{decimal, decimal_text, join2, join3, optional_text};
use crate::theme::{DesignSpace, SemanticTheme};
use crate::tool_details::{
    diff_line_views, edit_diff_view, edit_lines, first_document, json_document, kind_of_tool,
    shell_command, structured_tool_command, summary_of, text_or_nothing, tool_disclosure_icon,
    tool_display_label, tool_is_expandable, tool_kind, tool_label, tool_name, tool_name_from_title,
    tool_summary, DiffLine, ToolKind,
};
use vstd::prelude::*;

verus! {

/// The columns that a character takes on a terminal, where it has a width.
pub uninterp spec fn character_width(ch: char) -> Option<usize>;

/// Calls `UnicodeWidthChar::width`. The result depends on the character alone.
#[verifier::external_body]
fn unicode_width(ch: char) -> (width: Option<usize>)
    ensures
        width == character_width(ch),
{
    unicode_width::UnicodeWidthChar::width(ch)
}

pub const USER_MESSAGE_HORIZONTAL_CHROME: u32 = 48;

pub const USER_MESSAGE_COLUMN_WIDTH: u32 = 8;

pub const USER_MESSAGE_MIN_WIDTH: u32 = 64;

pub const CONVERSATION_TAIL_MARKER_HEIGHT: u32 = 1;

/// The columns that a character takes in a message: four for a tab, none for a
/// character without a width.
pub open spec fn columns(ch: char) -> nat {
    if ch == '\t' {
        4
    } else {
        match character_width(ch) {
            Some(width) => width as nat,
            None => 0,
        }
    }
}

/// The columns of the widest line of a text, of whose first line `line` columns
/// stand before it.
pub open spec fn widest_line(text: Seq<char>, line: nat) -> nat
    decreases text.len(),
{
    if text.len() == 0 {
        line
    } else if text[0] == '\n' {
        let rest = widest_line(text.skip(1), 0);
        if rest > line {
            rest
        } else {
            line
        }
    } else {
        widest_line(text.skip(1), line + columns(text[0]))
    }
}

proof fn lemma_widest_line_covers(text: Seq<char>, line: nat)
    ensures
        widest_line(text, line) >= line,
    decreases text.len(),
{
    if text.len() > 0 && text[0] != '\n' {
        lemma_widest_line_covers(text.skip(1), line + columns(text[0]));
    }
}

/// The width of the card around a user's message: room for its widest line,
/// within bounds.
pub open spec fn card_width(text: Seq<char>, maximum: u32) -> int {
    let wanted = widest_line(text, 0) * USER_MESSAGE_COLUMN_WIDTH + USER_MESSAGE_HORIZONTAL_CHROME;
    if wanted >= maximum {
        maximum as int
    } else if wanted <= USER_MESSAGE_MIN_WIDTH {
        USER_MESSAGE_MIN_WIDTH as int
    } else {
        wanted
    }
}

pub fn user_message_width(text: &str, maximum: u32) -> (width: u32)
    requires
        maximum >= USER_MESSAGE_MIN_WIDTH,
    ensures
        width == card_width(text@, maximum),
{
    let maximum_columns: usize = ((maximum - USER_MESSAGE_HORIZONTAL_CHROME)
        / USER_MESSAGE_COLUMN_WIDTH) as usize + 1;
    let chars = crate::text::characters(text);
    let mut line: usize = 0;
    let mut widest: usize = 0;
    let mut index: usize = 0;
    assert(text@.skip(0) =~= text@);
    while index < chars.len()
        invariant
            index <= chars@.len(),
            chars@ == text@,
            maximum >= USER_MESSAGE_MIN_WIDTH,
            maximum_columns == (maximum - USER_MESSAGE_HORIZONTAL_CHROME)
                / USER_MESSAGE_COLUMN_WIDTH as int + 1,
            line < maximum_columns,
            widest < maximum_columns,
            ({
                let rest = widest_line(text@.skip(index as int), line as nat);
                widest_line(text@, 0) == if rest > widest {
                    rest
                } else {
                    widest as nat
                }
            }),
        decreases chars@.len() - index,
    {
        let ch = chars[index];
        assert(text@.skip(index as int)[0] == ch);
        assert(text@.skip(index as int).skip(1) =~= text@.skip(index + 1));
        if ch == '\n' {
            if line > widest {
                widest = line;
            }
            line = 0;
        } else {
            let wide: usize = if ch == '\t' {
                4
            } else {
                match unicode_width(ch) {
                    Some(width) => width,
                    None => 0,
                }
            };
            let longer: usize = line.saturating_add(wide);
            if longer >= maximum_columns {
                proof {
                    lemma_widest_line_covers(text@.skip(index + 1), line as nat + columns(ch));
                    assert(widest_line(text@, 0) >= maximum_columns);
                }
                return maximum;
            }
            line = longer;
        }
        index = index + 1;
    }
    if line > widest {
        widest = line;
    }
    let wanted: u32 = widest as u32 * USER_MESSAGE_COLUMN_WIDTH + USER_MESSAGE_HORIZONTAL_CHROME;
    if wanted >= maximum {
        maximum
    } else if wanted <= USER_MESSAGE_MIN_WIDTH {
        USER_MESSAGE_MIN_WIDTH
    } else {
        wanted
    }
}

/// A user's card is never wider than it may be, and never narrower than the
/// least width; a wider text never makes it narrower.
pub proof fn law_user_cards_stay_within_bounds(text: Seq<char>, other: Seq<char>, maximum: u32)
    requires
        maximum >= USER_MESSAGE_MIN_WIDTH,
    ensures
        USER_MESSAGE_MIN_WIDTH <= card_width(text, maximum) <= maximum,
        widest_line(text, 0) <= widest_line(other, 0) ==> card_width(text, maximum) <= card_width(
            other,
            maximum,
        ),
{
}

/// A block as the conversation pane gets it.
#[derive(Debug, PartialEq, Eq)]
pub struct ConversationRowBlock {
    pub row_id: String,
    pub stable_id: String,
    pub kind: ConversationBlockKind,
    pub title: String,
    pub text: String,
    pub detail: String,
    pub is_error: bool,
    pub done: bool,
    pub durable: bool,
    pub preview_truncated: bool,
    pub media_neutralized: bool,
    pub image_count: usize,
    pub reasoning_duration: Option<String>,
}

/// Where a row stands and what the user has done with it.
#[derive(Debug, Clone, Copy, PartialEq, Eq, Structural)]
pub struct ConversationRowPlace {
    pub index: usize,
    pub row_count: usize,
    pub previous_kind: Option<ConversationBlockKind>,
    pub next_kind: Option<ConversationBlockKind>,
    pub selected: bool,
    pub detail_expanded: bool,
    pub full_view_open: bool,
    pub recovery_available: bool,
    pub user_message_max_width: u32,
}

/// The reasoning of an assistant, with the words that head it.
#[derive(Debug, PartialEq, Eq)]
pub enum ReasoningView {
    Absent,
    Collapsed(String),
    Expanded(String),
}

/// What an expanded tool row shows below its header.
#[derive(Debug, PartialEq, Eq)]
pub enum ToolOutputView {
    Hidden,
    /// The command behind a prompt, and whether any output follows.
    Shell { prompt: String, has_output: bool },
    Edit(Vec<DiffLine>),
    Plain,
}

/// The header of a tool row.
#[derive(Debug, PartialEq, Eq)]
pub struct ToolHeaderView {
    pub label: &'static str,
    pub summary: String,
    pub expandable: bool,
    pub disclosure: DesktopIcon,
}

/// On which side of the truncation bar the copy control stands.
#[derive(Debug, Clone, Copy, PartialEq, Eq, Structural)]
pub enum TruncationBar {
    Hidden,
    WithoutCopy,
    CopyOnTheLeft,
    CopyOnTheRight,
}

/// What is painted of a conversation row.
#[derive(Debug, PartialEq, Eq)]
pub struct ConversationRowView {
    pub hover_group: String,
    pub tool_output_hover_group: String,
    pub accessible_label: String,
    pub position_in_set: usize,
    pub is_last: bool,
    pub expanded_state: Option<bool>,
    pub visual: ConversationBlockVisual,
    pub card_width: Option<u32>,
    pub bubble_inset: u32,
    pub selection_rail: bool,
    pub identity_header: bool,
    pub header_title: bool,
    pub state_label: Option<&'static str>,
    pub header_state_label: Option<&'static str>,
    pub tool: Option<ToolHeaderView>,
    pub tool_output: ToolOutputView,
    pub reasoning: ReasoningView,
    pub shows_text: bool,
    pub shows_detail: bool,
    pub shows_recovery: bool,
    pub truncation_bar: TruncationBar,
    pub shows_media_notice: bool,
    pub image_notice: Option<String>,
    pub copy_footer: bool,
}

/// The state of a row in a word: a failure first, then how far a tool or a
/// stream has come.
pub open spec fn row_state_label(
    kind: ConversationBlockKind,
    is_error: bool,
    done: bool,
) -> Option<Seq<char>> {
    if is_error {
        Some("failed"@)
    } else if kind is Tool && done {
        Some("completed"@)
    } else if !done {
        Some(if kind is Tool { "running"@ } else { "streaming"@ })
    } else {
        None
    }
}

/// The view of an optional static text.
pub open spec fn optional_str(text: Option<&'static str>) -> Option<Seq<char>> {
    match text {
        Some(text) => Some(text@),
        None => None,
    }
}

fn state_label(kind: ConversationBlockKind, is_error: bool, done: bool) -> (label: Option<
    &'static str,
>)
    ensures
        optional_str(label) == row_state_label(kind, is_error, done),
{
    let is_tool = kind == ConversationBlockKind::Tool;
    if is_error {
        Some("failed")
    } else if is_tool && done {
        Some("completed")
    } else if !done {
        if is_tool {
            Some("running")
        } else {
            Some("streaming")
        }
    } else {
        None
    }
}

/// How a row is announced.
pub open spec fn row_announcement(title: Seq<char>, state: Option<Seq<char>>) -> Seq<char> {
    match state {
        Some(state) => title + ", "@ + state,
        None => title,
    }
}

/// The words above an assistant's reasoning.
pub open spec fn reasoning_words(done: bool, duration: Option<Seq<char>>) -> Seq<char> {
    if !done {
        "Thinking"@
    } else {
        match duration {
            Some(duration) => "Thought for "@ + duration,
            None => "Thought"@,
        }
    }
}

fn reasoning_label(done: bool, duration: &Option<String>) -> (label: String)
    ensures
        label@ == reasoning_words(done, optional_text(*duration)),
{
    if !done {
        "Thinking".to_owned()
    } else {
        match duration {
            Some(duration) => join2("Thought for ", duration.as_str()),
            None => "Thought".to_owned(),
        }
    }
}

/// The space below the bubble of a user's message: the copy control and its
/// gap, and the tail marker with its gap on the last row.
pub open spec fn bubble_inset(is_last: bool) -> int {
    let footer = DesignSpace::Sm.spec_pixels() + DesktopControlSize::Compact.spec_pixels();
    if is_last {
        footer + DesignSpace::Sm.spec_pixels() + CONVERSATION_TAIL_MARKER_HEIGHT
    } else {
        footer
    }
}

impl ConversationRowBlock {
    /// The name of the tool, where the block is a tool's.
    pub open spec fn tool(self) -> Seq<char> {
        tool_name(self.title@)
    }

    pub open spec fn tool_kind(self) -> ToolKind {
        kind_of_tool(self.tool())
    }
}

/// What an expanded tool row shows of its arguments and its output.
pub open spec fn tool_output_is(
    output: ToolOutputView,
    block: ConversationRowBlock,
    expanded: bool,
) -> bool {
    if !(block.kind is Tool) || block.tool_kind() is Read || !expanded {
        output is Hidden
    } else {
        match block.tool_kind() {
            ToolKind::Shell => output matches ToolOutputView::Shell { prompt, has_output }
                && prompt@ == "$ "@ + text_or_nothing(
                shell_command(json_document(block.detail@), json_document(block.text@)),
            ) && has_output == (block.text@.len() > 0),
            ToolKind::Edit => output matches ToolOutputView::Edit(shown) && diff_line_views(shown@)
                == edit_lines(
                first_document(json_document(block.detail@), json_document(block.text@)),
            ),
            _ => output is Plain,
        }
    }
}

fn tool_output(block: &ConversationRowBlock, name: &str, expanded: bool) -> (output: ToolOutputView)
    requires
        block.kind is Tool ==> name@ == block.tool(),
    ensures
        tool_output_is(output, *block, expanded),
{
    if block.kind != ConversationBlockKind::Tool || !expanded {
        return ToolOutputView::Hidden;
    }
    match tool_kind(name) {
        ToolKind::Read => ToolOutputView::Hidden,
        ToolKind::Shell => {
            let command = match structured_tool_command(block.detail.as_str(), block.text.as_str()) {
                Some(command) => command,
                None => String::new(),
            };
            ToolOutputView::Shell {
                prompt: join2("$ ", command.as_str()),
                has_output: !block.text.as_str().is_empty(),
            }
        },
        ToolKind::Edit => ToolOutputView::Edit(
            edit_diff_view(block.detail.as_str(), block.text.as_str()),
        ),
        ToolKind::Other => ToolOutputView::Plain,
    }
}

/// What the header of a tool row shows.
pub open spec fn tool_header_is(
    header: Option<ToolHeaderView>,
    block: ConversationRowBlock,
    expanded: bool,
) -> bool {
    if block.kind is Tool {
        header matches Some(header) && header.label@ == tool_label(block.tool_kind())
            && header.summary@ == summary_of(
            block.tool_kind(),
            first_document(json_document(block.detail@), json_document(block.text@)),
        ) && header.expandable == !(block.tool_kind() is Read) && header.disclosure == (if expanded {
            DesktopIcon::ChevronDown
        } else {
            DesktopIcon::ChevronRight
        })
    } else {
        header is None
    }
}

/// The reasoning that a row shows: an assistant's, where there is any.
pub open spec fn reasoning_is(
    reasoning: ReasoningView,
    block: ConversationRowBlock,
    expanded: bool,
) -> bool {
    let words = reasoning_words(block.done, optional_text(block.reasoning_duration));
    if !(block.kind is Assistant) || block.detail@.len() == 0 {
        reasoning is Absent
    } else if expanded {
        reasoning matches ReasoningView::Expanded(label) && label@ == words
    } else {
        reasoning matches ReasoningView::Collapsed(label) && label@ == words
    }
}

/// Where the copy control stands when a preview was cut.
pub open spec fn truncation_bar(
    block: ConversationRowBlock,
    next: Option<ConversationBlockKind>,
) -> TruncationBar {
    if !block.preview_truncated || block.kind is Tool {
        TruncationBar::Hidden
    } else if !copy_footer_shown(block.kind, next) {
        TruncationBar::WithoutCopy
    } else if block.kind is User {
        TruncationBar::CopyOnTheRight
    } else {
        TruncationBar::CopyOnTheLeft
    }
}

/// Works out what is painted of a row.
pub fn conversation_row_view(
    block: &ConversationRowBlock,
    place: ConversationRowPlace,
    theme: SemanticTheme,
) -> (view: ConversationRowView)
    requires
        place.index < place.row_count,
        place.user_message_max_width >= USER_MESSAGE_MIN_WIDTH,
    ensures
        view.hover_group@ == "conversation-card:"@ + block.stable_id@,
        view.tool_output_hover_group@ == "tool-output:"@ + block.stable_id@,
        view.accessible_label@ == row_announcement(
            block.title@,
            row_state_label(block.kind, block.is_error, block.done),
        ),
        view.position_in_set == place.index + 1,
        view.is_last == (place.index + 1 == place.row_count),
        view.expanded_state == (if block.preview_truncated {
            Some(place.full_view_open)
        } else {
            None
        }),
        view.visual.glyph@ == block_glyph(block.kind),
        view.visual.accent == block_accent(block.kind, block.is_error, theme),
        view.visual.align_right == (block.kind is User),
        block.kind is User ==> view.card_width is Some && view.card_width->0 == card_width(
            block.text@,
            place.user_message_max_width,
        ),
        !(block.kind is User) ==> view.card_width is None,
        view.bubble_inset == bubble_inset(place.index + 1 == place.row_count),
        view.selection_rail == (place.selected && !(block.kind is Tool)),
        view.identity_header == identity_header_shown(block.kind, place.previous_kind),
        view.header_title == !(block.kind is Tool || block.kind is User),
        optional_str(view.state_label) == row_state_label(block.kind, block.is_error, block.done),
        view.header_state_label == (if block.kind is Tool {
            None
        } else {
            view.state_label
        }),
        tool_header_is(view.tool, *block, place.detail_expanded),
        tool_output_is(view.tool_output, *block, place.detail_expanded),
        reasoning_is(view.reasoning, *block, place.detail_expanded),
        view.shows_text == (block.text@.len() > 0 && !(block.kind is Tool)),
        view.shows_detail == (block.detail@.len() > 0 && !(block.kind is Assistant)
            && !(block.kind is Tool)),
        view.shows_recovery == (block.kind is Diagnostic && place.recovery_available),
        view.truncation_bar == truncation_bar(*block, place.next_kind),
        view.shows_media_notice == block.media_neutralized,
        optional_text(view.image_notice) == (if block.image_count > 0 {
            Some("▧ "@ + decimal(block.image_count as nat) + " retained image attachment(s)"@)
        } else {
            None
        }),
        view.copy_footer == (!block.preview_truncated && copy_footer_shown(
            block.kind,
            place.next_kind,
        )),
{
    let is_tool = block.kind == ConversationBlockKind::Tool;
    let is_user = block.kind == ConversationBlockKind::User;
    let is_assistant = block.kind == ConversationBlockKind::Assistant;
    let is_last = place.index + 1 == place.row_count;
    let copyable = conversation_copy_footer_visible(block.kind, place.next_kind);
    let label = state_label(block.kind, block.is_error, block.done);
    let footer: u32 = DesignSpace::Sm.pixels() + DesktopControlSize::Compact.pixels();
    let name = tool_name_from_title(block.title.as_str());
    let tool = if is_tool {
        Some(
            ToolHeaderView {
                label: tool_display_label(name.as_str()),
                summary: tool_summary(name.as_str(), block.detail.as_str(), block.text.as_str()),
                expandable: tool_is_expandable(name.as_str()),
                disclosure: tool_disclosure_icon(place.detail_expanded),
            },
        )
    } else {
        None
    };
    let reasoning = if !is_assistant || block.detail.as_str().is_empty() {
        ReasoningView::Absent
    } else if place.detail_expanded {
        ReasoningView::Expanded(reasoning_label(block.done, &block.reasoning_duration))
    } else {
        ReasoningView::Collapsed(reasoning_label(block.done, &block.reasoning_duration))
    };
    ConversationRowView {
        hover_group: join2("conversation-card:", block.stable_id.as_str()),
        tool_output_hover_group: join2("tool-output:", block.stable_id.as_str()),
        accessible_label: match label {
            Some(state) => join3(block.title.as_str(), ", ", state),
            None => block.title.clone(),
        },
        position_in_set: place.index + 1,
        is_last,
        expanded_state: if block.preview_truncated {
            Some(place.full_view_open)
        } else {
            None
        },
        visual: conversation_block_visual(block.kind, block.is_error, theme),
        card_width: if is_user {
            Some(user_message_width(block.text.as_str(), place.user_message_max_width))
        } else {
            None
        },
        bubble_inset: if is_last {
            footer + DesignSpace::Sm.pixels() + CONVERSATION_TAIL_MARKER_HEIGHT
        } else {
            footer
        },
        selection_rail: place.selected && !is_tool,
        identity_header: conversation_identity_header_visible(block.kind, place.previous_kind),
        header_title: !is_tool && !is_user,
        state_label: label,
        header_state_label: if is_tool {
            None
        } else {
            label
        },
        tool,
        tool_output: tool_output(block, name.as_str(), place.detail_expanded),
        reasoning,
        shows_text: !block.text.as_str().is_empty() && !is_tool,
        shows_detail: !block.detail.as_str().is_empty() && !is_assistant && !is_tool,
        shows_recovery: block.kind == ConversationBlockKind::Diagnostic && place.recovery_available,
        truncation_bar: if !block.preview_truncated || is_tool {
            TruncationBar::Hidden
        } else if !copyable {
            TruncationBar::WithoutCopy
        } else if is_user {
            TruncationBar::CopyOnTheRight
        } else {
            TruncationBar::CopyOnTheLeft
        },
        shows_media_notice: block.media_neutralized,
        image_notice: if block.image_count > 0 {
            Some(
                join3(
                    "▧ ",
                    decimal_text(block.image_count as u128).as_str(),
                    " retained image attachment(s)",
                ),
            )
        } else {
            None
        },
        copy_footer: !block.preview_truncated && copyable,
    }
}

/// The conversation around its rows.
#[derive(Debug, PartialEq, Eq)]
pub struct ConversationFrameView {
    pub description: &'static str,
    pub follow_label: Option<String>,
    pub omitted_notice: Option<String>,
    pub empty_lines: Vec<String>,
}

/// The words on the control that jumps to the latest output.
pub open spec fn follow_words(unseen: usize) -> Seq<char> {
    if unseen == 0 {
        "Latest ↓"@
    } else {
        "↓ "@ + decimal(unseen as nat) + " new"@
    }
}

/// What is counted in an empty conversation.
pub open spec fn empty_words(events: usize, messages: usize, tools: usize) -> Seq<Seq<char>> {
    seq![
        "Native runtime connected"@,
        "No durable conversation blocks yet."@,
        "project events   "@ + decimal(events as nat),
        "message overlays "@ + decimal(messages as nat),
        "tool overlays    "@ + decimal(tools as nat),
    ]
}

/// The conversation's counters.
#[derive(Debug, Clone, Copy, PartialEq, Eq, Structural)]
pub struct ConversationCounts {
    pub visible: usize,
    pub events: usize,
    pub messages: usize,
    pub tools: usize,
    pub omitted: usize,
    pub unseen_updates: usize,
}

/// Works out what stands around the rows.
pub fn conversation_frame_view(counts: ConversationCounts, follow_latest: bool) -> (view:
    ConversationFrameView)
    ensures
        view.description@ == (if follow_latest {
            "Following the latest conversation message."@
        } else {
            "Conversation history paused away from the latest message."@
        }),
        optional_text(view.follow_label) == (if counts.visible > 0 && !follow_latest {
            Some(follow_words(counts.unseen_updates))
        } else {
            None
        }),
        optional_text(view.omitted_notice) == (if counts.visible > 0 && counts.omitted > 0 {
            Some(
                decimal(counts.omitted as nat)
                    + " older blocks omitted by desktop retention bounds"@,
            )
        } else {
            None
        }),
        crate::text::texts(view.empty_lines@) == (if counts.visible == 0 {
            empty_words(counts.events, counts.messages, counts.tools)
        } else {
            Seq::empty()
        }),
{
    let mut empty_lines: Vec<String> = Vec::new();
    if counts.visible == 0 {
        empty_lines.push("Native runtime connected".to_owned());
        empty_lines.push("No durable conversation blocks yet.".to_owned());
        empty_lines.push(
            join2("project events   ", decimal_text(counts.events as u128).as_str()),
        );
        empty_lines.push(
            join2("message overlays ", decimal_text(counts.messages as u128).as_str()),
        );
        empty_lines.push(join2("tool overlays    ", decimal_text(counts.tools as u128).as_str()));
        assert(crate::text::texts(empty_lines@) =~= empty_words(
            counts.events,
            counts.messages,
            counts.tools,
        ));
    } else {
        assert(crate::text::texts(empty_lines@) =~= Seq::empty());
    }
    ConversationFrameView {
        description: if follow_latest {
            "Following the latest conversation message."
        } else {
            "Conversation history paused away from the latest message."
        },
        follow_label: if counts.visible > 0 && !follow_latest {
            Some(
                if counts.unseen_updates == 0 {
                    "Latest ↓".to_owned()
                } else {
                    join3("↓ ", decimal_text(counts.unseen_updates as u128).as_str(), " new")
                },
            )
        } else {
            None
        },
        omitted_notice: if counts.visible > 0 && counts.omitted > 0 {
            Some(
                join2(
                    decimal_text(counts.omitted as u128).as_str(),
                    " older blocks omitted by desktop retention bounds",
                ),
            )
        } else {
            None
        },
        empty_lines,
    }
}

/// The columns of a line.
pub open spec fn line_columns(line: Seq<char>) -> nat
    decreases line.len(),
{
    if line.len() == 0 {
        0
    } else {
        line_columns(line.drop_last()) + columns(line.last())
    }
}

proof fn lemma_columns_from_the_front(line: Seq<char>)
    requires
        line.len() > 0,
    ensures
        line_columns(line) == columns(line[0]) + line_columns(line.skip(1)),
    decreases line.len(),
{
    if line.len() == 1 {
        assert(line.drop_last() =~= Seq::<char>::empty());
        assert(line.skip(1) =~= Seq::<char>::empty());
        reveal_with_fuel(line_columns, 2);
    } else {
        lemma_columns_from_the_front(line.drop_last());
        assert(line.skip(1).drop_last() =~= line.drop_last().skip(1));
        assert(line.skip(1).last() == line.last());
        assert(line.drop_last()[0] == line[0]);
    }
}

proof fn lemma_widest_of_first(line: Seq<char>, rest: Seq<char>, start: nat)
    requires
        forall|i: int| 0 <= i < line.len() ==> line[i] != '\n',
    ensures
        widest_line(line, start) == start + line_columns(line),
        widest_line(line + seq!['\n'] + rest, start) == (if widest_line(rest, 0) > start
            + line_columns(line) {
            widest_line(rest, 0)
        } else {
            start + line_columns(line)
        }),
    decreases line.len(),
{
    let whole = line + seq!['\n'] + rest;
    if line.len() == 0 {
        assert(whole[0] == '\n');
        assert(whole.skip(1) =~= rest);
    } else {
        lemma_columns_from_the_front(line);
        assert(whole[0] == line[0]);
        assert(whole.skip(1) =~= line.skip(1) + seq!['\n'] + rest);
        assert forall|i: int| 0 <= i < line.skip(1).len() implies line.skip(1)[i] != '\n' by {
            assert(line.skip(1)[i] == line[i + 1]);
        }
        lemma_widest_of_first(line.skip(1), rest, start + columns(line[0]));
    }
}

/// A text is as wide as its widest line, and a line as wide as its characters together;
/// a tab takes four columns.
pub proof fn law_texts_are_as_wide_as_their_widest_line(line: Seq<char>, rest: Seq<char>)
    requires
        !line.contains('\n'),
    ensures
        widest_line(line, 0) == line_columns(line),
        widest_line(line + seq!['\n'] + rest, 0) >= line_columns(line),
        widest_line(line + seq!['\n'] + rest, 0) >= widest_line(rest, 0),
        widest_line(line + seq!['\n'] + rest, 0) == line_columns(line) || widest_line(
            line + seq!['\n'] + rest,
            0,
        ) == widest_line(rest, 0),
        columns('\t') == 4,
        forall|ch: char|
            ch != '\t' && character_width(ch) is Some ==> #[trigger] columns(ch)
                == character_width(ch)->0,
        forall|ch: char|
            ch != '\t' && character_width(ch) is None ==> #[trigger] columns(ch) == 0,
{
    assert forall|i: int| 0 <= i < line.len() implies line[i] != '\n' by {
        assert(line.contains(line[i]));
    }
    lemma_widest_of_first(line, rest, 0);
}

/// The card of the user is as wide as its text needs, eight pixels to a column and its
/// margins, within its bounds.
pub proof fn law_cards_fit_their_text(text: Seq<char>, maximum: u32)
    requires
        maximum >= 64,
    ensures
        ({
            let wanted = widest_line(text, 0) * 8 + 48;
            &&& 64 <= wanted <= maximum ==> card_width(text, maximum) == wanted
            &&& wanted > maximum ==> card_width(text, maximum) == maximum
            &&& wanted < 64 ==> card_width(text, maximum) == 64
        }),
{
}

/// A row says how it stands: failed before all else, a tool whether it runs or is done,
/// any other row that it still streams, and nothing once that is over.
pub proof fn law_rows_say_how_they_stand(kind: ConversationBlockKind, is_error: bool, done: bool)
    ensures
        is_error ==> row_state_label(kind, is_error, done) == Some("failed"@),
        !is_error && kind is Tool && done ==> row_state_label(kind, is_error, done) == Some(
            "completed"@,
        ),
        !is_error && kind is Tool && !done ==> row_state_label(kind, is_error, done) == Some(
            "running"@,
        ),
        !is_error && !(kind is Tool) && !done ==> row_state_label(kind, is_error, done) == Some(
            "streaming"@,
        ),
        !is_error && !(kind is Tool) && done ==> row_state_label(kind, is_error, done) is None,
{
}

/// A row is announced by its title and how it stands; thinking by whether it goes on, or
/// how long it took where that is known.
pub proof fn law_rows_are_announced(title: Seq<char>, state: Seq<char>, duration: Seq<char>)
    ensures
        row_announcement(title, None) == title,
        row_announcement(title, Some(state)) == title + ", "@ + state,
        reasoning_words(false, None) == "Thinking"@,
        reasoning_words(false, Some(duration)) == "Thinking"@,
        reasoning_words(true, None) == "Thought"@,
        reasoning_words(true, Some(duration)) == "Thought for "@ + duration,
{
}

/// What a tool gave shows where its row is unfolded, in the way of its kind: a shell call
/// with its prompt, an edit with its diff, and a read never.
pub proof fn law_tool_output_shows_by_kind(
    output: ToolOutputView,
    block: ConversationRowBlock,
    expanded: bool,
    command: Seq<char>,
)
    requires
        tool_output_is(output, block, expanded),
    ensures
        !expanded || !(block.kind is Tool) ==> output is Hidden,
        block.kind is Tool && kind_of_tool(tool_name(block.title@)) is Read ==> output is Hidden,
        block.kind is Tool && expanded && kind_of_tool(tool_name(block.title@)) is Shell ==> {
            &&& output is Shell
            &&& output->has_output <==> block.text@.len() > 0
            &&& shell_command(json_document(block.detail@), json_document(block.text@)) == Some(
                command,
            ) ==> output->prompt@ == "$ "@ + command
            &&& shell_command(json_document(block.detail@), json_document(block.text@)) is None
                ==> output->prompt@ == "$ "@
        },
        block.kind is Tool && expanded && kind_of_tool(tool_name(block.title@)) is Edit
            ==> output is Edit,
        block.kind is Tool && expanded && kind_of_tool(tool_name(block.title@)) is Other
            ==> output is Plain,
{
    assert("$ "@ + Seq::<char>::empty() =~= "$ "@);
}

/// A tool row has the head of its tool: its label, its summary, and a mark of whether it
/// is unfolded; no other row has one.
pub proof fn law_tool_heads_are_of_their_tool(
    header: Option<ToolHeaderView>,
    block: ConversationRowBlock,
    expanded: bool,
)
    requires
        tool_header_is(header, block, expanded),
    ensures
        header is Some <==> block.kind is Tool,
        header matches Some(head) ==> {
            let name = tool_name(block.title@);
            &&& head.label@ == tool_label(kind_of_tool(name))
            &&& head.expandable <==> !(kind_of_tool(name) is Read)
            &&& head.disclosure == (if expanded {
                DesktopIcon::ChevronDown
            } else {
                DesktopIcon::ChevronRight
            })
            &&& json_document(block.detail@) matches Some(arguments) ==> head.summary@
                == summary_of(kind_of_tool(name), Some(arguments))
        },
{
}

/// Thinking shows with the assistant that thought, folded or not as the row is, and only
/// where there is any.
pub proof fn law_thinking_shows_with_its_message(
    reasoning: ReasoningView,
    block: ConversationRowBlock,
    expanded: bool,
)
    requires
        reasoning_is(reasoning, block, expanded),
    ensures
        reasoning is Absent <==> !(block.kind is Assistant) || block.detail@.len() == 0,
        reasoning is Expanded <==> block.kind is Assistant && block.detail@.len() > 0 && expanded,
        reasoning is Collapsed <==> block.kind is Assistant && block.detail@.len() > 0 && !expanded,
{
}

/// A row that was cut says so, unless it is a tool, and offers to be copied where it is
/// the end of its turn: on the side of its author.
pub proof fn law_cut_rows_say_so(
    block: ConversationRowBlock,
    next: Option<ConversationBlockKind>,
)
    ensures
        truncation_bar(block, next) is Hidden <==> !block.preview_truncated || block.kind is Tool,
        block.preview_truncated && block.kind is User ==> truncation_bar(block, next)
            is CopyOnTheRight,
        block.preview_truncated && block.kind is Assistant ==> (if next == Some(
            ConversationBlockKind::Tool,
        ) {
            truncation_bar(block, next) is WithoutCopy
        } else {
            truncation_bar(block, next) is CopyOnTheLeft
        }),
{
}

/// The way back to the latest message counts what is new. An empty conversation shows
/// what the runtime has seen.
pub proof fn law_unseen_updates_are_counted(
    unseen: usize,
    events: usize,
    messages: usize,
    tools: usize,
)
    ensures
        follow_words(0) == "Latest ↓"@,
        unseen > 0 ==> follow_words(unseen) == "↓ "@ + decimal(unseen as nat) + " new"@,
        empty_words(events, messages, tools).len() == 5,
        empty_words(events, messages, tools)[2] == "project events   "@ + decimal(events as nat),
        empty_words(events, messages, tools)[3] == "message overlays "@ + decimal(messages as nat),
        empty_words(events, messages, tools)[4] == "tool overlays    "@ + decimal(tools as nat),
{
}

/// The last row leaves room for the mark of the end.
pub proof fn law_last_row_leaves_room()
    ensures
        bubble_inset(true) == bubble_inset(false) + 9,
        bubble_inset(false) == 8 + DesktopControlSize::Compact.spec_pixels(),
{
}

} // verus!

//! Copying, opening and selecting messages of the conversation.
use crate::change_set::UiRegion;
use crate::commands::{refusal, refuse, CommandReply};
use crate::conversation::{message_block, message_block_id, tool_block_id, MessageOverlay};
use crate::review::{refuse_copy, ClipboardFeedback, CopyStep, FeedbackView};
use crate::text::{join2, same_text};
use crate::tool_details::{
    conversation_copy_text, copied_details, copy_text, law_copied_text_is_whole,
    tool_detail_copy_text,
};
use vstd::prelude::*;

verus! {

/// A committed block: what is copied of it, and the sizes of its parts.
#[derive(Debug, PartialEq, Eq)]
pub struct CommittedBlock {
    pub block_id: String,
    pub title: String,
    pub copy_text: String,
    pub text: String,
    pub detail: String,
    pub truncated: bool,
}

/// A message that still streams.
#[derive(Debug, PartialEq, Eq)]
pub struct LiveMessage {
    pub overlay: MessageOverlay,
    pub text: String,
    pub thinking: String,
    pub truncated: bool,
}

/// A tool that still runs.
#[derive(Debug, PartialEq, Eq)]
pub struct LiveTool {
    pub tool_call_id: String,
    pub name: String,
    pub detail: String,
    pub arguments: String,
    pub truncated: bool,
}

/// A row as it is shown.
#[derive(Debug, PartialEq, Eq)]
pub struct RenderedRow {
    pub row_id: String,
    pub title: String,
    pub text: String,
    pub detail: String,
    pub preview_truncated: bool,
}

/// Everything that a message can be found in.
#[derive(Debug, PartialEq, Eq)]
pub struct MessageSources {
    pub blocks: Vec<CommittedBlock>,
    pub messages: Vec<LiveMessage>,
    pub tools: Vec<LiveTool>,
    pub rows: Vec<RenderedRow>,
}

/// A message in full.
#[derive(Debug, PartialEq, Eq)]
pub struct ConversationFullMessageView {
    pub block_id: String,
    pub title: String,
    pub text: String,
    pub source_truncated: bool,
}

/// A message in full, by what it says.
pub ghost struct FullMessageView {
    pub block_id: Seq<char>,
    pub title: Seq<char>,
    pub text: Seq<char>,
    pub source_truncated: bool,
}

impl View for ConversationFullMessageView {
    type V = FullMessageView;

    open spec fn view(&self) -> FullMessageView {
        FullMessageView {
            block_id: self.block_id@,
            title: self.title@,
            text: self.text@,
            source_truncated: self.source_truncated,
        }
    }
}

/// The size of a text in bytes.
pub open spec fn byte_size(text: Seq<char>) -> usize {
    vstd::utf8::encode_utf8(text).len() as usize
}

/// Whether two texts together are more than the clipboard takes. A limit that
/// nothing can exceed is none.
pub open spec fn exceeds(first: Seq<char>, second: Seq<char>, max_copy_bytes: usize) -> bool {
    max_copy_bytes < usize::MAX && byte_size(first) + byte_size(second) > max_copy_bytes
}

fn is_too_large(first: &str, second: &str, max_copy_bytes: usize) -> (yes: bool)
    ensures
        yes == exceeds(first@, second@, max_copy_bytes),
{
    first.len().saturating_add(second.len()) > max_copy_bytes
}

/// The first committed block of that name.
pub open spec fn block_view(
    blocks: Seq<CommittedBlock>,
    block_id: Seq<char>,
    max_copy_bytes: usize,
) -> Option<FullMessageView>
    decreases blocks.len(),
{
    if blocks.len() == 0 {
        None
    } else if blocks[0].block_id@ == block_id {
        Some(
            FullMessageView {
                block_id,
                title: blocks[0].title@,
                text: blocks[0].copy_text@,
                source_truncated: blocks[0].truncated || exceeds(
                    blocks[0].text@,
                    blocks[0].detail@,
                    max_copy_bytes,
                ),
            },
        )
    } else {
        block_view(blocks.skip(1), block_id, max_copy_bytes)
    }
}

/// The first streaming message of that name.
pub open spec fn message_view(
    messages: Seq<LiveMessage>,
    block_id: Seq<char>,
    max_copy_bytes: usize,
) -> Option<FullMessageView>
    decreases messages.len(),
{
    if messages.len() == 0 {
        None
    } else if message_block(messages[0].overlay) == block_id {
        Some(
            FullMessageView {
                block_id,
                title: "Assistant · live"@,
                text: copy_text(messages[0].text@, messages[0].thinking@),
                source_truncated: messages[0].truncated || exceeds(
                    messages[0].text@,
                    messages[0].thinking@,
                    max_copy_bytes,
                ),
            },
        )
    } else {
        message_view(messages.skip(1), block_id, max_copy_bytes)
    }
}

/// The first running tool of that name.
pub open spec fn tool_view(tools: Seq<LiveTool>, block_id: Seq<char>, max_copy_bytes: usize) -> Option<
    FullMessageView,
>
    decreases tools.len(),
{
    if tools.len() == 0 {
        None
    } else if "tool:"@ + tools[0].tool_call_id@ == block_id {
        Some(
            FullMessageView {
                block_id,
                title: "Tool · "@ + tools[0].name@,
                text: copy_text(tools[0].detail@, tools[0].arguments@),
                source_truncated: tools[0].truncated || exceeds(
                    tools[0].detail@,
                    tools[0].arguments@,
                    max_copy_bytes,
                ),
            },
        )
    } else {
        tool_view(tools.skip(1), block_id, max_copy_bytes)
    }
}

/// The place of the first row of that name, or the number of rows.
pub open spec fn rendered_position(rows: Seq<RenderedRow>, block_id: Seq<char>) -> nat
    decreases rows.len(),
{
    if rows.len() == 0 {
        0
    } else if rows[0].row_id@ == block_id {
        0
    } else {
        1 + rendered_position(rows.skip(1), block_id)
    }
}

/// The message that the rows show under that name.
pub open spec fn row_message(rows: Seq<RenderedRow>, block_id: Seq<char>) -> Option<
    FullMessageView,
> {
    let at = rendered_position(rows, block_id);
    if at < rows.len() {
        Some(
            FullMessageView {
                block_id,
                title: rows[at as int].title@,
                text: copy_text(rows[at as int].text@, rows[at as int].detail@),
                source_truncated: rows[at as int].preview_truncated,
            },
        )
    } else {
        None
    }
}

/// A message in full, from the best source: what is committed comes before what
/// streams, this before a running tool, and what is merely shown comes last.
pub open spec fn full_message(
    sources: MessageSources,
    block_id: Seq<char>,
    max_copy_bytes: usize,
) -> Option<FullMessageView> {
    match block_view(sources.blocks@, block_id, max_copy_bytes) {
        Some(view) => Some(view),
        None => match message_view(sources.messages@, block_id, max_copy_bytes) {
            Some(view) => Some(view),
            None => match tool_view(sources.tools@, block_id, max_copy_bytes) {
                Some(view) => Some(view),
                None => row_message(sources.rows@, block_id),
            },
        },
    }
}

/// A message in full that may be missing, by what it says.
pub open spec fn optional_message(message: Option<ConversationFullMessageView>) -> Option<
    FullMessageView,
> {
    match message {
        Some(message) => Some(message@),
        None => None,
    }
}

fn find_block(blocks: &Vec<CommittedBlock>, block_id: &str, max_copy_bytes: usize) -> (found: Option<
    ConversationFullMessageView,
>)
    ensures
        optional_message(found) == block_view(blocks@, block_id@, max_copy_bytes),
{
    let mut index: usize = 0;
    assert(blocks@.skip(0) =~= blocks@);
    while index < blocks.len()
        invariant
            index <= blocks@.len(),
            block_view(blocks@, block_id@, max_copy_bytes) == block_view(
                blocks@.skip(index as int),
                block_id@,
                max_copy_bytes,
            ),
        decreases blocks@.len() - index,
    {
        let ghost rest = blocks@.skip(index as int);
        assert(rest[0] == blocks@[index as int]);
        assert(rest.skip(1) =~= blocks@.skip(index as int + 1));
        let block = &blocks[index];
        if same_text(block.block_id.as_str(), block_id) {
            return Some(
                ConversationFullMessageView {
                    block_id: block_id.to_owned(),
                    title: block.title.clone(),
                    text: block.copy_text.clone(),
                    source_truncated: block.truncated || is_too_large(
                        block.text.as_str(),
                        block.detail.as_str(),
                        max_copy_bytes,
                    ),
                },
            );
        }
        index = index + 1;
    }
    None
}

fn find_message(messages: &Vec<LiveMessage>, block_id: &str, max_copy_bytes: usize) -> (found: Option<
    ConversationFullMessageView,
>)
    ensures
        optional_message(found) == message_view(messages@, block_id@, max_copy_bytes),
{
    let mut index: usize = 0;
    assert(messages@.skip(0) =~= messages@);
    while index < messages.len()
        invariant
            index <= messages@.len(),
            message_view(messages@, block_id@, max_copy_bytes) == message_view(
                messages@.skip(index as int),
                block_id@,
                max_copy_bytes,
            ),
        decreases messages@.len() - index,
    {
        let ghost rest = messages@.skip(index as int);
        assert(rest[0] == messages@[index as int]);
        assert(rest.skip(1) =~= messages@.skip(index as int + 1));
        let message = &messages[index];
        if same_text(message_block_id(&message.overlay).as_str(), block_id) {
            return Some(
                ConversationFullMessageView {
                    block_id: block_id.to_owned(),
                    title: "Assistant · live".to_owned(),
                    text: conversation_copy_text(message.text.as_str(), message.thinking.as_str()),
                    source_truncated: message.truncated || is_too_large(
                        message.text.as_str(),
                        message.thinking.as_str(),
                        max_copy_bytes,
                    ),
                },
            );
        }
        index = index + 1;
    }
    None
}

fn find_tool(tools: &Vec<LiveTool>, block_id: &str, max_copy_bytes: usize) -> (found: Option<
    ConversationFullMessageView,
>)
    ensures
        optional_message(found) == tool_view(tools@, block_id@, max_copy_bytes),
{
    let mut index: usize = 0;
    assert(tools@.skip(0) =~= tools@);
    while index < tools.len()
        invariant
            index <= tools@.len(),
            tool_view(tools@, block_id@, max_copy_bytes) == tool_view(
                tools@.skip(index as int),
                block_id@,
                max_copy_bytes,
            ),
        decreases tools@.len() - index,
    {
        let ghost rest = tools@.skip(index as int);
        assert(rest[0] == tools@[index as int]);
        assert(rest.skip(1) =~= tools@.skip(index as int + 1));
        let tool = &tools[index];
        if same_text(tool_block_id(tool.tool_call_id.as_str()).as_str(), block_id) {
            return Some(
                ConversationFullMessageView {
                    block_id: block_id.to_owned(),
                    title: join2("Tool · ", tool.name.as_str()),
                    text: conversation_copy_text(tool.detail.as_str(), tool.arguments.as_str()),
                    source_truncated: tool.truncated || is_too_large(
                        tool.detail.as_str(),
                        tool.arguments.as_str(),
                        max_copy_bytes,
                    ),
                },
            );
        }
        index = index + 1;
    }
    None
}

fn find_row(rows: &Vec<RenderedRow>, block_id: &str) -> (found: Option<usize>)
    ensures
        found is Some <==> rendered_position(rows@, block_id@) < rows@.len(),
        found is Some ==> found->0 == rendered_position(rows@, block_id@),
{
    let mut index: usize = 0;
    assert(rows@.skip(0) =~= rows@);
    while index < rows.len()
        invariant
            index <= rows@.len(),
            rendered_position(rows@, block_id@) == index + rendered_position(
                rows@.skip(index as int),
                block_id@,
            ),
        decreases rows@.len() - index,
    {
        let ghost rest = rows@.skip(index as int);
        assert(rest[0] == rows@[index as int]);
        assert(rest.skip(1) =~= rows@.skip(index as int + 1));
        if same_text(rows[index].row_id.as_str(), block_id) {
            return Some(index);
        }
        index = index + 1;
    }
    None
}

/// Finds a message in full, where a session is open. The limit is that of the
/// clipboard.
pub fn conversation_full_message_view(
    session_open: bool,
    sources: &MessageSources,
    block_id: &str,
    max_copy_bytes: usize,
) -> (message: Option<ConversationFullMessageView>)
    ensures
        !session_open ==> message is None,
        session_open ==> optional_message(message) == full_message(
            *sources,
            block_id@,
            max_copy_bytes,
        ),
{
    if !session_open {
        return None;
    }
    if let Some(view) = find_block(&sources.blocks, block_id, max_copy_bytes) {
        return Some(view);
    }
    if let Some(view) = find_message(&sources.messages, block_id, max_copy_bytes) {
        return Some(view);
    }
    if let Some(view) = find_tool(&sources.tools, block_id, max_copy_bytes) {
        return Some(view);
    }
    match find_row(&sources.rows, block_id) {
        Some(at) => {
            let row = &sources.rows[at];
            Some(
                ConversationFullMessageView {
                    block_id: block_id.to_owned(),
                    title: row.title.clone(),
                    text: conversation_copy_text(row.text.as_str(), row.detail.as_str()),
                    source_truncated: row.preview_truncated,
                },
            )
        },
        None => None,
    }
}

/// What is committed is never hidden by what streams: while a block is there,
/// neither messages nor tools nor rows change what is found.
pub proof fn law_committed_blocks_come_first(
    sources: MessageSources,
    other: MessageSources,
    block_id: Seq<char>,
    max_copy_bytes: usize,
)
    requires
        sources.blocks@ == other.blocks@,
        block_view(sources.blocks@, block_id, max_copy_bytes) is Some,
    ensures
        full_message(sources, block_id, max_copy_bytes) == full_message(
            other,
            block_id,
            max_copy_bytes,
        ),
{
}

/// Copies the selected message, where a session is open.
pub fn copy_selected_conversation(session_open: bool, selected: Option<String>) -> (step: CopyStep)
    ensures
        !session_open ==> step is Ignore,
        session_open && selected is None ==> step.refuses(
            "Select a committed conversation block before copying."@,
            true,
        ),
        session_open && selected is Some ==> step.writes(
            Some(selected->0@),
            FeedbackView::ConversationAnnouncement("Selected message copied."@),
        ),
{
    if !session_open {
        return CopyStep::Ignore;
    }
    match selected {
        Some(text) => CopyStep::Write {
            text: Some(text),
            feedback: ClipboardFeedback::ConversationAnnouncement(
                "Selected message copied.".to_owned(),
            ),
        },
        None => refuse_copy("Select a committed conversation block before copying.", true),
    }
}

/// Copies a message in full.
pub fn copy_conversation_row(message: Option<ConversationFullMessageView>) -> (step: CopyStep)
    ensures
        message is None ==> step.refuses("Message is no longer available to copy."@, false),
        message is Some ==> step.writes(
            Some(message->0.text@),
            FeedbackView::ConversationAnnouncement("Message copied."@),
        ),
{
    match message {
        Some(message) => CopyStep::Write {
            text: Some(message.text),
            feedback: ClipboardFeedback::ConversationAnnouncement("Message copied.".to_owned()),
        },
        None => refuse_copy("Message is no longer available to copy.", false),
    }
}

/// Copies the details of a tool as its row shows them.
pub fn copy_tool_details(rows: &Vec<RenderedRow>, block_id: &str) -> (step: CopyStep)
    ensures
        ({
            let at = rendered_position(rows@, block_id@);
            if at < rows@.len() {
                step is Write && step->text is Some && step->feedback@
                    == FeedbackView::ConversationAnnouncement("Tool details copied."@)
                    && step->text->0@ == copied_details(
                    rows@[at as int].title@,
                    rows@[at as int].detail@,
                    rows@[at as int].text@,
                )
            } else {
                step.refuses("Tool details are no longer available to copy."@, false)
            }
        }),
{
    match find_row(rows, block_id) {
        Some(at) => {
            let row = &rows[at];
            CopyStep::Write {
                text: Some(
                    tool_detail_copy_text(
                        row.title.as_str(),
                        row.detail.as_str(),
                        row.text.as_str(),
                    ),
                ),
                feedback: ClipboardFeedback::ConversationAnnouncement(
                    "Tool details copied.".to_owned(),
                ),
            }
        },
        None => refuse_copy("Tool details are no longer available to copy.", false),
    }
}

/// Announces a copy that was made elsewhere.
pub fn announce_conversation_copy(message: &str) -> (step: CopyStep)
    ensures
        step.writes(None, FeedbackView::ConversationAnnouncement(message@)),
{
    CopyStep::Write {
        text: None,
        feedback: ClipboardFeedback::ConversationAnnouncement(message.to_owned()),
    }
}

/// Copies the message that is open in full.
pub fn copy_full_message(text: &str) -> (step: CopyStep)
    ensures
        step.writes(
            Some(text@),
            FeedbackView::ConversationAnnouncement("Full message copied."@),
        ),
{
    CopyStep::Write {
        text: Some(text.to_owned()),
        feedback: ClipboardFeedback::ConversationAnnouncement("Full message copied.".to_owned()),
    }
}

/// How a message is opened in full.
#[derive(Debug, PartialEq, Eq)]
pub enum OpenMessageStep {
    Refuse(CommandReply),
    Show(ConversationFullMessageView),
}

pub fn open_full_conversation_message(message: Option<ConversationFullMessageView>) -> (step:
    OpenMessageStep)
    ensures
        match message {
            Some(message) => step == OpenMessageStep::Show(message),
            None => step is Refuse && step->Refuse_0@ == refusal(
                "Message is no longer available to open."@,
                seq![UiRegion::Toast],
                false,
            ),
        },
{
    match message {
        Some(message) => OpenMessageStep::Show(message),
        None => {
            let refresh: Vec<UiRegion> = vec![UiRegion::Toast];
            assert(refresh@ =~= seq![UiRegion::Toast]);
            OpenMessageStep::Refuse(
                refuse("Message is no longer available to open.".to_owned(), refresh, false),
            )
        },
    }
}

/// How a row is scrolled into view.
#[derive(Debug, Clone, Copy, PartialEq, Eq, Structural)]
pub enum ScrollStrategy {
    Top,
    Bottom,
}

/// How the selection moves.
#[derive(Debug, PartialEq, Eq)]
pub enum AdjacentStep {
    Ignore,
    Refuse(CommandReply),
    /// Selects the row, scrolls to it, and refreshes these regions in turn.
    Select { index: usize, scroll: ScrollStrategy, refresh: Vec<UiRegion> },
}

/// Decides how the selection moves to a neighbouring row.
pub fn select_adjacent_conversation(
    session_open: bool,
    row_count: usize,
    next_index: usize,
    upwards: bool,
) -> (step: AdjacentStep)
    requires
        session_open && row_count > 0 ==> next_index < row_count,
    ensures
        !session_open ==> step is Ignore,
        session_open && row_count == 0 ==> step is Refuse && step->Refuse_0@ == refusal(
            "The conversation is empty."@,
            seq![UiRegion::Toast],
            false,
        ),
        session_open && row_count > 0 ==> {
            &&& step is Select
            &&& step->index == next_index
            &&& step->scroll == (if upwards {
                ScrollStrategy::Top
            } else {
                ScrollStrategy::Bottom
            })
            &&& step->refresh@ == seq![UiRegion::Conversation, UiRegion::ConversationHeader]
        },
{
    if !session_open {
        return AdjacentStep::Ignore;
    }
    if row_count == 0 {
        let refresh: Vec<UiRegion> = vec![UiRegion::Toast];
        assert(refresh@ =~= seq![UiRegion::Toast]);
        return AdjacentStep::Refuse(
            refuse("The conversation is empty.".to_owned(), refresh, false),
        );
    }
    let refresh: Vec<UiRegion> = vec![UiRegion::Conversation, UiRegion::ConversationHeader];
    assert(refresh@ =~= seq![UiRegion::Conversation, UiRegion::ConversationHeader]);
    AdjacentStep::Select {
        refresh,
        index: next_index,
        scroll: if upwards {
            ScrollStrategy::Top
        } else {
            ScrollStrategy::Bottom
        },
    }
}

/// How copying by key goes on.
#[derive(Debug, PartialEq, Eq)]
pub enum KeyboardCopyStep {
    Refuse(CommandReply),
    CopyRow(String),
}

pub fn copy_keyboard_selected_conversation(selected_block_id: Option<String>) -> (step:
    KeyboardCopyStep)
    ensures
        match selected_block_id {
            Some(block_id) => step == KeyboardCopyStep::CopyRow(block_id),
            None => step is Refuse && step->Refuse_0@ == refusal(
                "Select a conversation message before copying."@,
                seq![UiRegion::Toast],
                false,
            ),
        },
{
    match selected_block_id {
        Some(block_id) => KeyboardCopyStep::CopyRow(block_id),
        None => {
            let refresh: Vec<UiRegion> = vec![UiRegion::Toast];
            assert(refresh@ =~= seq![UiRegion::Toast]);
            KeyboardCopyStep::Refuse(
                refuse("Select a conversation message before copying.".to_owned(), refresh, false),
            )
        },
    }
}

/// Whether the details of a selected row are toggled: only where it has some.
pub fn keyboard_toggles_details(rows: &Vec<RenderedRow>, selected_block_id: &Option<String>) -> (
    toggles: bool)
    ensures
        toggles == (*selected_block_id is Some && {
            let at = rendered_position(rows@, selected_block_id->0@);
            at < rows@.len() && rows@[at as int].detail@.len() > 0
        }),
{
    match selected_block_id {
        Some(block_id) => match find_row(rows, block_id.as_str()) {
            Some(at) => !rows[at].detail.as_str().is_empty(),
            None => false,
        },
        None => false,
    }
}

/// The text of a message in full: what it says, and on a line of its own what belongs
/// to it, where anything does.
pub open spec fn whole_text(text: Seq<char>, more: Seq<char>) -> Seq<char> {
    if more.len() == 0 {
        text
    } else {
        text + seq!['\n'] + more
    }
}

/// Whether two texts together hold more bytes than can be copied.
pub open spec fn too_many_bytes(first: Seq<char>, second: Seq<char>, limit: usize) -> bool {
    vstd::utf8::encode_utf8(first).len() + vstd::utf8::encode_utf8(second).len() > limit
}

proof fn lemma_exceeds(first: Seq<char>, second: Seq<char>, limit: usize)
    requires
        vstd::utf8::encode_utf8(first).len() <= usize::MAX,
        vstd::utf8::encode_utf8(second).len() <= usize::MAX,
        limit < usize::MAX,
    ensures
        exceeds(first, second, limit) == too_many_bytes(first, second, limit),
{
}

/// Whether no committed block has that id.
pub open spec fn no_block_has(sources: MessageSources, block_id: Seq<char>) -> bool {
    forall|i: int|
        0 <= i < sources.blocks@.len() ==> (#[trigger] sources.blocks@[i]).block_id@ != block_id
}

/// Whether no streaming message has that id.
pub open spec fn no_message_has(sources: MessageSources, block_id: Seq<char>) -> bool {
    forall|i: int|
        0 <= i < sources.messages@.len() ==> message_block(
            (#[trigger] sources.messages@[i]).overlay,
        ) != block_id
}

/// Whether no running tool has that id.
pub open spec fn no_tool_has(sources: MessageSources, block_id: Seq<char>) -> bool {
    forall|i: int|
        0 <= i < sources.tools@.len() ==> "tool:"@ + (#[trigger] sources.tools@[i]).tool_call_id@
            != block_id
}

proof fn lemma_block_at(blocks: Seq<CommittedBlock>, index: int, limit: usize)
    requires
        0 <= index < blocks.len(),
        forall|i: int|
            0 <= i < index ==> (#[trigger] blocks[i]).block_id@ != blocks[index].block_id@,
    ensures
        block_view(blocks, blocks[index].block_id@, limit) == block_view(
            seq![blocks[index]],
            blocks[index].block_id@,
            limit,
        ),
        block_view(blocks, blocks[index].block_id@, limit) is Some,
    decreases index,
{
    if index > 0 {
        let rest = blocks.skip(1);
        assert(blocks[0].block_id@ != blocks[index].block_id@);
        assert forall|i: int| 0 <= i < index - 1 implies (#[trigger] rest[i]).block_id@
            != rest[index - 1].block_id@ by {
            assert(rest[i] == blocks[i + 1]);
        }
        lemma_block_at(rest, index - 1, limit);
    }
}

proof fn lemma_no_block(blocks: Seq<CommittedBlock>, block_id: Seq<char>, limit: usize)
    requires
        forall|i: int| 0 <= i < blocks.len() ==> (#[trigger] blocks[i]).block_id@ != block_id,
    ensures
        block_view(blocks, block_id, limit) is None,
    decreases blocks.len(),
{
    if blocks.len() > 0 {
        let rest = blocks.skip(1);
        assert forall|i: int| 0 <= i < rest.len() implies (#[trigger] rest[i]).block_id@
            != block_id by {
            assert(rest[i] == blocks[i + 1]);
        }
        lemma_no_block(rest, block_id, limit);
    }
}

proof fn lemma_message_at(messages: Seq<LiveMessage>, index: int, limit: usize)
    requires
        0 <= index < messages.len(),
        forall|i: int|
            0 <= i < index ==> message_block((#[trigger] messages[i]).overlay) != message_block(
                messages[index].overlay,
            ),
    ensures
        message_view(messages, message_block(messages[index].overlay), limit) == message_view(
            seq![messages[index]],
            message_block(messages[index].overlay),
            limit,
        ),
    decreases index,
{
    if index > 0 {
        let rest = messages.skip(1);
        assert(message_block(messages[0].overlay) != message_block(messages[index].overlay));
        assert forall|i: int| 0 <= i < index - 1 implies message_block((#[trigger] rest[i]).overlay)
            != message_block(rest[index - 1].overlay) by {
            assert(rest[i] == messages[i + 1]);
        }
        lemma_message_at(rest, index - 1, limit);
    }
}

proof fn lemma_no_message(messages: Seq<LiveMessage>, block_id: Seq<char>, limit: usize)
    requires
        forall|i: int|
            0 <= i < messages.len() ==> message_block((#[trigger] messages[i]).overlay) != block_id,
    ensures
        message_view(messages, block_id, limit) is None,
    decreases messages.len(),
{
    if messages.len() > 0 {
        let rest = messages.skip(1);
        assert forall|i: int| 0 <= i < rest.len() implies message_block(
            (#[trigger] rest[i]).overlay,
        ) != block_id by {
            assert(rest[i] == messages[i + 1]);
        }
        lemma_no_message(rest, block_id, limit);
    }
}

proof fn lemma_tool_at(tools: Seq<LiveTool>, index: int, limit: usize)
    requires
        0 <= index < tools.len(),
        forall|i: int|
            0 <= i < index ==> (#[trigger] tools[i]).tool_call_id@ != tools[index].tool_call_id@,
    ensures
        tool_view(tools, "tool:"@ + tools[index].tool_call_id@, limit) == tool_view(
            seq![tools[index]],
            "tool:"@ + tools[index].tool_call_id@,
            limit,
        ),
    decreases index,
{
    let mark = "tool:"@;
    let wanted = mark + tools[index].tool_call_id@;
    if index > 0 {
        let rest = tools.skip(1);
        assert(tools[0].tool_call_id@ != tools[index].tool_call_id@);
        if mark + tools[0].tool_call_id@ == wanted {
            assert((mark + tools[0].tool_call_id@).skip(mark.len() as int)
                =~= tools[0].tool_call_id@);
            assert(wanted.skip(mark.len() as int) =~= tools[index].tool_call_id@);
        }
        assert forall|i: int| 0 <= i < index - 1 implies (#[trigger] rest[i]).tool_call_id@
            != rest[index - 1].tool_call_id@ by {
            assert(rest[i] == tools[i + 1]);
        }
        lemma_tool_at(rest, index - 1, limit);
    }
}

proof fn lemma_no_tool(tools: Seq<LiveTool>, block_id: Seq<char>, limit: usize)
    requires
        forall|i: int|
            0 <= i < tools.len() ==> "tool:"@ + (#[trigger] tools[i]).tool_call_id@ != block_id,
    ensures
        tool_view(tools, block_id, limit) is None,
    decreases tools.len(),
{
    if tools.len() > 0 {
        let rest = tools.skip(1);
        assert("tool:"@ + tools[0].tool_call_id@ != block_id);
        assert forall|i: int| 0 <= i < rest.len() implies "tool:"@ + (
        #[trigger] rest[i]).tool_call_id@ != block_id by {
            assert(rest[i] == tools[i + 1]);
        }
        lemma_no_tool(rest, block_id, limit);
    }
}

/// A row is found at the first place where it is shown, and nowhere where it is not.
pub proof fn law_rows_are_found_where_they_are_shown(
    rows: Seq<RenderedRow>,
    block_id: Seq<char>,
)
    ensures
        rendered_position(rows, block_id) <= rows.len(),
        rendered_position(rows, block_id) < rows.len() ==> rows[rendered_position(
            rows,
            block_id,
        ) as int].row_id@ == block_id,
        forall|i: int|
            0 <= i < rendered_position(rows, block_id) ==> (#[trigger] rows[i]).row_id@ != block_id,
    decreases rows.len(),
{
    if rows.len() > 0 && rows[0].row_id@ != block_id {
        let rest = rows.skip(1);
        law_rows_are_found_where_they_are_shown(rest, block_id);
        let at = rendered_position(rows, block_id);
        assert forall|i: int| 0 <= i < at implies (#[trigger] rows[i]).row_id@ != block_id by {
            if i > 0 {
                assert(rest[i - 1] == rows[i]);
            }
        }
        if at < rows.len() {
            assert(rest[at - 1] == rows[at as int]);
        }
    }
}

/// A committed block is given as it was committed: its title and its whole text.
pub proof fn law_committed_blocks_are_given_whole(
    sources: MessageSources,
    index: int,
    limit: usize,
)
    requires
        0 <= index < sources.blocks@.len(),
        limit < usize::MAX,
        vstd::utf8::encode_utf8(sources.blocks@[index].text@).len() <= usize::MAX,
        vstd::utf8::encode_utf8(sources.blocks@[index].detail@).len() <= usize::MAX,
        forall|i: int|
            0 <= i < index ==> (#[trigger] sources.blocks@[i]).block_id@
                != sources.blocks@[index].block_id@,
    ensures
        ({
            let block = sources.blocks@[index];
            full_message(sources, block.block_id@, limit) == Some(
                FullMessageView {
                    block_id: block.block_id@,
                    title: block.title@,
                    text: block.copy_text@,
                    source_truncated: block.truncated || too_many_bytes(
                        block.text@,
                        block.detail@,
                        limit,
                    ),
                },
            )
        }),
{
    let block = sources.blocks@[index];
    lemma_block_at(sources.blocks@, index, limit);
    lemma_exceeds(block.text@, block.detail@, limit);
}

/// A streaming message is given with its thinking, on a line of its own.
pub proof fn law_streaming_messages_are_given_whole(
    sources: MessageSources,
    index: int,
    limit: usize,
)
    requires
        0 <= index < sources.messages@.len(),
        limit < usize::MAX,
        vstd::utf8::encode_utf8(sources.messages@[index].text@).len() <= usize::MAX,
        vstd::utf8::encode_utf8(sources.messages@[index].thinking@).len() <= usize::MAX,
        no_block_has(sources, message_block(sources.messages@[index].overlay)),
        forall|i: int|
            0 <= i < index ==> message_block((#[trigger] sources.messages@[i]).overlay)
                != message_block(sources.messages@[index].overlay),
    ensures
        ({
            let message = sources.messages@[index];
            full_message(sources, message_block(message.overlay), limit) == Some(
                FullMessageView {
                    block_id: message_block(message.overlay),
                    title: "Assistant · live"@,
                    text: whole_text(message.text@, message.thinking@),
                    source_truncated: message.truncated || too_many_bytes(
                        message.text@,
                        message.thinking@,
                        limit,
                    ),
                },
            )
        }),
{
    let message = sources.messages@[index];
    lemma_no_block(sources.blocks@, message_block(message.overlay), limit);
    lemma_message_at(sources.messages@, index, limit);
    lemma_exceeds(message.text@, message.thinking@, limit);
    law_copied_text_is_whole(message.text@, message.thinking@);
}

/// A running tool is given with its arguments, on a line of their own.
pub proof fn law_running_tools_are_given_whole(
    sources: MessageSources,
    index: int,
    limit: usize,
)
    requires
        0 <= index < sources.tools@.len(),
        limit < usize::MAX,
        vstd::utf8::encode_utf8(sources.tools@[index].detail@).len() <= usize::MAX,
        vstd::utf8::encode_utf8(sources.tools@[index].arguments@).len() <= usize::MAX,
        no_block_has(sources, "tool:"@ + sources.tools@[index].tool_call_id@),
        no_message_has(sources, "tool:"@ + sources.tools@[index].tool_call_id@),
        forall|i: int|
            0 <= i < index ==> (#[trigger] sources.tools@[i]).tool_call_id@
                != sources.tools@[index].tool_call_id@,
    ensures
        ({
            let tool = sources.tools@[index];
            full_message(sources, "tool:"@ + tool.tool_call_id@, limit) == Some(
                FullMessageView {
                    block_id: "tool:"@ + tool.tool_call_id@,
                    title: "Tool · "@ + tool.name@,
                    text: whole_text(tool.detail@, tool.arguments@),
                    source_truncated: tool.truncated || too_many_bytes(
                        tool.detail@,
                        tool.arguments@,
                        limit,
                    ),
                },
            )
        }),
{
    let tool = sources.tools@[index];
    lemma_no_block(sources.blocks@, "tool:"@ + tool.tool_call_id@, limit);
    lemma_no_message(sources.messages@, "tool:"@ + tool.tool_call_id@, limit);
    lemma_tool_at(sources.tools@, index, limit);
    lemma_exceeds(tool.detail@, tool.arguments@, limit);
    law_copied_text_is_whole(tool.detail@, tool.arguments@);
}

/// What is neither committed nor streaming nor running is given as its row shows it,
/// with its detail on a line of its own; what is not shown either is not there.
pub proof fn law_shown_rows_are_given_whole(
    sources: MessageSources,
    block_id: Seq<char>,
    limit: usize,
)
    requires
        no_block_has(sources, block_id),
        no_message_has(sources, block_id),
        no_tool_has(sources, block_id),
    ensures
        forall|at: int|
            0 <= at < sources.rows@.len() && (#[trigger] sources.rows@[at]).row_id@ == block_id && (
            forall|i: int| 0 <= i < at ==> (#[trigger] sources.rows@[i]).row_id@ != block_id)
                ==> full_message(sources, block_id, limit) == Some(
                FullMessageView {
                    block_id,
                    title: sources.rows@[at].title@,
                    text: whole_text(sources.rows@[at].text@, sources.rows@[at].detail@),
                    source_truncated: sources.rows@[at].preview_truncated,
                },
            ),
        (forall|i: int|
            0 <= i < sources.rows@.len() ==> (#[trigger] sources.rows@[i]).row_id@ != block_id)
            ==> full_message(sources, block_id, limit) is None,
{
    let rows = sources.rows@;
    lemma_no_block(sources.blocks@, block_id, limit);
    lemma_no_message(sources.messages@, block_id, limit);
    lemma_no_tool(sources.tools@, block_id, limit);
    law_rows_are_found_where_they_are_shown(rows, block_id);
    let found = rendered_position(rows, block_id) as int;
    assert forall|at: int|
        0 <= at < rows.len() && (#[trigger] rows[at]).row_id@ == block_id && (forall|i: int|
            0 <= i < at ==> (#[trigger] rows[i]).row_id@ != block_id) implies full_message(
        sources,
        block_id,
        limit,
    ) == Some(
        FullMessageView {
            block_id,
            title: rows[at].title@,
            text: whole_text(rows[at].text@, rows[at].detail@),
            source_truncated: rows[at].preview_truncated,
        },
    ) by {
        assert(found == at);
        law_copied_text_is_whole(rows[at].text@, rows[at].detail@);
    }
}

} // verus!

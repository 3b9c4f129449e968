//! Conversation blocks: their kinds, their look, their identifiers, and the
//! order in which rows are kept.
use crate::text::{join2, join3};
use crate::theme::{SemanticColor, SemanticTheme};
use vstd::prelude::*;

verus! {

#[derive(Debug, Clone, Copy, PartialEq, Eq, Structural)]
pub enum ConversationBlockKind {
    User,
    Assistant,
    Tool,
    Delegation,
    CompactionSummary,
    BranchSummary,
    Diagnostic,
}

/// How a block is marked and aligned.
#[derive(Debug, Clone, Copy, PartialEq, Eq)]
pub struct ConversationBlockVisual {
    pub glyph: &'static str,
    pub accent: SemanticColor,
    pub align_right: bool,
}

/// The sign in front of a block.
pub open spec fn block_glyph(kind: ConversationBlockKind) -> Seq<char> {
    match kind {
        ConversationBlockKind::User => ""@,
        ConversationBlockKind::Assistant => "AI"@,
        ConversationBlockKind::Tool => "TOOL"@,
        ConversationBlockKind::Delegation => "AGENT"@,
        ConversationBlockKind::CompactionSummary => "SUMMARY"@,
        ConversationBlockKind::BranchSummary => "SUMMARY"@,
        ConversationBlockKind::Diagnostic => "ISSUE"@,
    }
}

/// The accent of a block. Only a tool's depends on whether it failed.
pub open spec fn block_accent(
    kind: ConversationBlockKind,
    is_error: bool,
    theme: SemanticTheme,
) -> SemanticColor {
    match kind {
        ConversationBlockKind::User => theme.accent,
        ConversationBlockKind::Assistant => theme.text,
        ConversationBlockKind::Tool => if is_error {
            theme.danger
        } else {
            theme.muted_text
        },
        ConversationBlockKind::Delegation => theme.accent,
        ConversationBlockKind::CompactionSummary => theme.muted_text,
        ConversationBlockKind::BranchSummary => theme.muted_text,
        ConversationBlockKind::Diagnostic => theme.danger,
    }
}

pub fn conversation_block_visual(
    kind: ConversationBlockKind,
    is_error: bool,
    theme: SemanticTheme,
) -> (visual: ConversationBlockVisual)
    ensures
        visual.glyph@ == block_glyph(kind),
        visual.accent == block_accent(kind, is_error, theme),
        visual.align_right == (kind is User),
{
    match kind {
        ConversationBlockKind::User => ConversationBlockVisual {
            glyph: "",
            accent: theme.accent,
            align_right: true,
        },
        ConversationBlockKind::Assistant => ConversationBlockVisual {
            glyph: "AI",
            accent: theme.text,
            align_right: false,
        },
        ConversationBlockKind::Tool => ConversationBlockVisual {
            glyph: "TOOL",
            accent: if is_error {
                theme.danger
            } else {
                theme.muted_text
            },
            align_right: false,
        },
        ConversationBlockKind::Delegation => ConversationBlockVisual {
            glyph: "AGENT",
            accent: theme.accent,
            align_right: false,
        },
        ConversationBlockKind::CompactionSummary | ConversationBlockKind::BranchSummary =>
            ConversationBlockVisual {
            glyph: "SUMMARY",
            accent: theme.muted_text,
            align_right: false,
        },
        ConversationBlockKind::Diagnostic => ConversationBlockVisual {
            glyph: "ISSUE",
            accent: theme.danger,
            align_right: false,
        },
    }
}

/// Whether a block names who speaks: not a user's, and not an assistant's that
/// goes on after a tool.
pub open spec fn identity_header_shown(
    kind: ConversationBlockKind,
    previous: Option<ConversationBlockKind>,
) -> bool {
    !(kind is User) && !(kind is Assistant && previous == Some(ConversationBlockKind::Tool))
}

pub fn conversation_identity_header_visible(
    kind: ConversationBlockKind,
    previous_kind: Option<ConversationBlockKind>,
) -> (visible: bool)
    ensures
        visible == identity_header_shown(kind, previous_kind),
{
    let after_tool = match previous_kind {
        Some(previous) => previous == ConversationBlockKind::Tool,
        None => false,
    };
    kind != ConversationBlockKind::User && (kind != ConversationBlockKind::Assistant || !after_tool)
}

/// Whether a block offers to be copied: not a tool's, and not an assistant's
/// that a tool follows.
pub open spec fn copy_footer_shown(
    kind: ConversationBlockKind,
    next: Option<ConversationBlockKind>,
) -> bool {
    !(kind is Tool) && !(kind is Assistant && next == Some(ConversationBlockKind::Tool))
}

pub fn conversation_copy_footer_visible(
    kind: ConversationBlockKind,
    next_kind: Option<ConversationBlockKind>,
) -> (visible: bool)
    ensures
        visible == copy_footer_shown(kind, next_kind),
{
    let before_tool = match next_kind {
        Some(next) => next == ConversationBlockKind::Tool,
        None => false,
    };
    kind != ConversationBlockKind::Tool && !(kind == ConversationBlockKind::Assistant
        && before_tool)
}

/// A message that is being written, as far as its identity goes.
#[derive(Debug, PartialEq, Eq)]
pub struct MessageOverlay {
    pub message_id: Option<String>,
    pub operation_id: String,
    pub turn_id: String,
}

/// The identifier of the block that shows a message.
pub open spec fn message_block(message: MessageOverlay) -> Seq<char> {
    match message.message_id {
        Some(message_id) => "assistant:"@ + message_id@,
        None => "assistant:"@ + message.operation_id@ + ":"@ + message.turn_id@,
    }
}

pub fn message_block_id(message: &MessageOverlay) -> (id: String)
    ensures
        id@ == message_block(*message),
{
    match &message.message_id {
        Some(message_id) => join2("assistant:", message_id.as_str()),
        None => {
            let mut id = join3("assistant:", message.operation_id.as_str(), ":");
            id.append(message.turn_id.as_str());
            id
        },
    }
}

pub fn tool_block_id(tool_call_id: &str) -> (id: String)
    ensures
        id@ == "tool:"@ + tool_call_id@,
{
    join2("tool:", tool_call_id)
}

/// Where an item lands: in its place, or as far towards it as the row reaches
/// once its earlier copy is gone.
pub open spec fn landing(
    count: nat,
    existing: Option<usize>,
    desired: usize,
) -> int {
    match existing {
        Some(existing) => {
            let shifted = if existing < desired { desired - 1 } else { desired as int };
            if shifted < count - 1 { shifted } else if existing == desired { desired as int } else { count - 1 }
        },
        None => if desired < count { desired as int } else { count as int },
    }
}

/// Puts an item at an index, in place of an earlier copy of it, and returns the
/// index where it landed.
pub fn upsert_indexed_item<T>(
    items: &mut Vec<T>,
    existing_index: Option<usize>,
    desired_index: usize,
    item: T,
) -> (index: usize)
    requires
        existing_index is Some ==> existing_index->0 < old(items)@.len(),
    ensures
        index == landing(old(items)@.len(), existing_index, desired_index),
        final(items)@ == (match existing_index {
            Some(existing) => old(items)@.remove(existing as int),
            None => old(items)@,
        }).insert(index as int, item),
{
    let mut desired: usize = desired_index;
    if let Some(existing) = existing_index {
        let removed = items.remove(existing);
        if existing == desired {
            items.insert(existing, item);
            return existing;
        }
        if existing < desired {
            desired = desired - 1;
        }
    }
    if desired > items.len() {
        desired = items.len();
    }
    items.insert(desired, item);
    desired
}

/// An upserted item stands where it landed, and the others keep their order.
pub proof fn law_upsert_places_the_item<T>(
    items: Seq<T>,
    existing: Option<usize>,
    desired: usize,
    item: T,
)
    requires
        existing is Some ==> existing->0 < items.len(),
    ensures
        ({
            let others = match existing {
                Some(existing) => items.remove(existing as int),
                None => items,
            };
            let index = landing(items.len(), existing, desired);
            &&& 0 <= index <= others.len()
            &&& others.insert(index, item)[index] == item
            &&& others.insert(index, item).remove(index) == others
            &&& desired <= others.len() && (existing is None || existing->0 >= desired) ==> index
                == desired
        }),
{
    let others = match existing {
        Some(existing) => items.remove(existing as int),
        None => items,
    };
    let index = landing(items.len(), existing, desired);
    assert(others.insert(index, item).remove(index) =~= others);
}

/// A streaming message goes by its own name, and by its operation and turn while it
/// has none.
pub proof fn law_messages_go_by_their_names(message: MessageOverlay)
    ensures
        message.message_id is Some ==> message_block(message) == "assistant:"@
            + message.message_id->0@,
        message.message_id is None ==> message_block(message) == "assistant:"@
            + message.operation_id@ + ":"@ + message.turn_id@,
{
}

/// Two messages with names go by the same id only where the names are the same.
pub proof fn law_named_messages_are_told_apart(left: MessageOverlay, right: MessageOverlay)
    requires
        left.message_id is Some,
        right.message_id is Some,
    ensures
        message_block(left) == message_block(right) <==> left.message_id->0@
            == right.message_id->0@,
{
    let mark = "assistant:"@;
    assert(message_block(left).skip(mark.len() as int) =~= left.message_id->0@);
    assert(message_block(right).skip(mark.len() as int) =~= right.message_id->0@);
}

/// A message names its author once: not the user, whose card speaks for itself, nor
/// the assistant that goes on behind a tool. It can be copied at its end: not a tool,
/// nor an assistant that goes on with one.
pub proof fn law_turns_have_one_head_and_one_foot(
    kind: ConversationBlockKind,
    neighbour: Option<ConversationBlockKind>,
)
    ensures
        identity_header_shown(ConversationBlockKind::User, neighbour) == false,
        identity_header_shown(ConversationBlockKind::Assistant, neighbour) <==> neighbour != Some(
            ConversationBlockKind::Tool,
        ),
        !(kind is User) && !(kind is Assistant) ==> identity_header_shown(kind, neighbour),
        copy_footer_shown(ConversationBlockKind::Tool, neighbour) == false,
        copy_footer_shown(ConversationBlockKind::Assistant, neighbour) <==> neighbour != Some(
            ConversationBlockKind::Tool,
        ),
        !(kind is Tool) && !(kind is Assistant) ==> copy_footer_shown(kind, neighbour),
{
}

/// What went wrong stands out: a diagnostic and a failed tool in the color of danger,
/// and nothing else in it but where the theme has the same color twice.
pub proof fn law_trouble_stands_out(
    kind: ConversationBlockKind,
    is_error: bool,
    theme: SemanticTheme,
)
    ensures
        kind is Diagnostic || (kind is Tool && is_error) ==> block_accent(kind, is_error, theme)
            == theme.danger,
        kind is Tool && !is_error ==> block_accent(kind, is_error, theme) == theme.muted_text,
        kind is User || kind is Delegation ==> block_accent(kind, is_error, theme) == theme.accent,
        kind is Assistant ==> block_accent(kind, is_error, theme) == theme.text,
        kind is CompactionSummary || kind is BranchSummary ==> block_accent(kind, is_error, theme)
            == theme.muted_text,
{
}

/// Each kind of block is marked by its own word, and a message of the user by none.
pub proof fn law_blocks_are_marked_by_kind()
    ensures
        block_glyph(ConversationBlockKind::User) == ""@,
        block_glyph(ConversationBlockKind::Assistant) == "AI"@,
        block_glyph(ConversationBlockKind::Tool) == "TOOL"@,
        block_glyph(ConversationBlockKind::Delegation) == "AGENT"@,
        block_glyph(ConversationBlockKind::CompactionSummary) == "SUMMARY"@,
        block_glyph(ConversationBlockKind::BranchSummary) == "SUMMARY"@,
        block_glyph(ConversationBlockKind::Diagnostic) == "ISSUE"@,
{
}

/// An item that is moved towards the end takes its place among the others, which have
/// moved up by one; an item that belongs behind the end comes last.
pub proof fn law_items_land_among_the_others(count: nat, existing: Option<usize>, desired: usize)
    requires
        existing is Some ==> existing->0 < count,
    ensures
        ({
            let index = landing(count, existing, desired);
            &&& existing is Some && existing->0 == desired ==> index == desired
            &&& existing is Some && existing->0 < desired <= count ==> index == desired - 1
            &&& existing is Some && existing->0 > desired ==> index == desired
            &&& existing is Some && desired > count ==> index == count - 1
            &&& existing is None && desired <= count ==> index == desired
            &&& existing is None && desired > count ==> index == count
        }),
{
}

} // verus!

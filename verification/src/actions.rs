//! Typed desktop actions, key bindings and command-palette state.
use crate::text::{lemma_trimmed_keeps_some, trimmed};
use vstd::prelude::*;

verus! {

/// A place on the desktop in which a key binding applies.
#[derive(Debug, Clone, Copy, PartialEq, Eq, Structural)]
pub enum KeyContext {
    Root,
    Conversation,
    Palette,
    Authorization,
    NarrowSessions,
    NarrowContext,
}

impl KeyContext {
    /// The name of the context, as bindings and elements carry it.
    pub open spec fn spec_name(self) -> Seq<char> {
        match self {
            KeyContext::Root => "PiDesktop"@,
            KeyContext::Conversation => "PiDesktopConversation"@,
            KeyContext::Palette => "PiDesktopPalette"@,
            KeyContext::Authorization => "PiDesktopAuthorization"@,
            KeyContext::NarrowSessions => "PiDesktopNarrowSessions"@,
            KeyContext::NarrowContext => "PiDesktopNarrowContext"@,
        }
    }

    pub fn name(self) -> (name: &'static str)
        ensures
            name@ == self.spec_name(),
    {
        match self {
            KeyContext::Root => "PiDesktop",
            KeyContext::Conversation => "PiDesktopConversation",
            KeyContext::Palette => "PiDesktopPalette",
            KeyContext::Authorization => "PiDesktopAuthorization",
            KeyContext::NarrowSessions => "PiDesktopNarrowSessions",
            KeyContext::NarrowContext => "PiDesktopNarrowContext",
        }
    }
}

/// What a key binding dispatches.
#[derive(Debug, Clone, Copy, PartialEq, Eq, Structural)]
pub enum DesktopAction {
    OpenCommandPalette,
    OpenFileSurface,
    NewSession,
    FocusComposer,
    SubmitComposer,
    AbortActiveOperation,
    EscapeHierarchy,
    FollowLatestOutput,
    ToggleContextPanel,
    FocusNextRegion,
    FocusPreviousRegion,
    SelectPreviousConversation,
    SelectNextConversation,
    CopySelectedConversation,
    ToggleSelectedConversationDetails,
    PalettePrevious,
    PaletteNext,
    PaletteConfirm,
    AuthorizationDeny,
    AuthorizationAllowOnce,
    AuthorizationAllowForOperation,
    TrapOverlayFocus,
}

/// The closed set of commands that the palette offers.
#[derive(Debug, Clone, Copy, PartialEq, Eq, Hash, Structural)]
pub enum DesktopPaletteCommand {
    NewSession,
    SwitchNextSession,
    ToggleSessions,
    ToggleContext,
    FocusSessions,
    FocusConversation,
    FocusComposer,
    FocusContext,
    SubmitPrompt,
    SteerOperation,
    FollowUpOperation,
    AbortOperation,
    FollowLatest,
    ReloadResources,
    CopyConversation,
    SelectNextModel,
    SelectNextProfile,
    CycleThinking,
    ReviewNextFile,
    CopyReviewPath,
    CopyFileReview,
    OpenExternalEditor,
    RetryRecovery,
    MarkRecoveryFailed,
    AbortRecovery,
    ToggleReducedMotion,
}

/// One row of the command palette.
#[derive(Debug, Clone, Copy, PartialEq, Eq)]
pub struct DesktopPaletteEntry {
    pub command: DesktopPaletteCommand,
    pub label: &'static str,
    pub shortcut: Option<&'static str>,
    pub semantic_label: &'static str,
}

/// The number of palette rows.
pub const PALETTE_ENTRY_COUNT: usize = 26;

/// Builds one palette row.
pub fn entry(
    command: DesktopPaletteCommand,
    label: &'static str,
    shortcut: Option<&'static str>,
    semantic_label: &'static str,
) -> (row: DesktopPaletteEntry)
    ensures
        row == spec_entry(command, label, shortcut, semantic_label),
{
    DesktopPaletteEntry { command, label, shortcut, semantic_label }
}

/// The palette row that holds the given parts.
pub open spec fn spec_entry(
    command: DesktopPaletteCommand,
    label: &'static str,
    shortcut: Option<&'static str>,
    semantic_label: &'static str,
) -> DesktopPaletteEntry {
    DesktopPaletteEntry { command, label, shortcut, semantic_label }
}

/// The palette rows in the order in which they are shown.
pub open spec fn palette_table() -> Seq<DesktopPaletteEntry> {
    seq![
        spec_entry(
            DesktopPaletteCommand::NewSession,
            "New session",
            Some("Ctrl/Cmd+N"),
            "Create a new coding-agent session",
        ),
        spec_entry(
            DesktopPaletteCommand::SwitchNextSession,
            "Switch to next session",
            None,
            "Switch to the next product-listed session",
        ),
        spec_entry(
            DesktopPaletteCommand::ToggleSessions,
            "Toggle sessions",
            None,
            "Show or hide the sessions surface",
        ),
        spec_entry(
            DesktopPaletteCommand::ToggleContext,
            "Toggle context",
            Some("Ctrl/Cmd+\\"),
            "Show or hide the context surface",
        ),
        spec_entry(
            DesktopPaletteCommand::FocusSessions,
            "Focus sessions",
            None,
            "Move keyboard focus to the sessions surface",
        ),
        spec_entry(
            DesktopPaletteCommand::FocusConversation,
            "Focus conversation",
            None,
            "Move keyboard focus to the conversation transcript",
        ),
        spec_entry(
            DesktopPaletteCommand::FocusComposer,
            "Focus composer",
            Some("Ctrl/Cmd+L"),
            "Return keyboard focus to the prompt composer",
        ),
        spec_entry(
            DesktopPaletteCommand::FocusContext,
            "Focus context",
            None,
            "Move keyboard focus to the context surface",
        ),
        spec_entry(
            DesktopPaletteCommand::SubmitPrompt,
            "Send prompt",
            Some("Ctrl/Cmd+Enter"),
            "Submit the current composer draft as a new prompt",
        ),
        spec_entry(
            DesktopPaletteCommand::SteerOperation,
            "Steer active operation",
            None,
            "Submit the composer draft as steering input",
        ),
        spec_entry(
            DesktopPaletteCommand::FollowUpOperation,
            "Queue follow-up",
            None,
            "Submit the composer draft as a follow-up",
        ),
        spec_entry(
            DesktopPaletteCommand::AbortOperation,
            "Abort active operation",
            Some("Ctrl/Cmd+Esc"),
            "Request cancellation of the active operation",
        ),
        spec_entry(
            DesktopPaletteCommand::FollowLatest,
            "Jump to latest output",
            Some("End"),
            "Resume follow-latest and jump to the newest conversation block",
        ),
        spec_entry(
            DesktopPaletteCommand::ReloadResources,
            "Reload local resources",
            None,
            "Reload product-owned local models, profiles, skills, and prompts",
        ),
        spec_entry(
            DesktopPaletteCommand::CopyConversation,
            "Copy selected conversation block",
            None,
            "Copy the selected durable conversation block",
        ),
        spec_entry(
            DesktopPaletteCommand::SelectNextModel,
            "Select next model",
            None,
            "Select the next configured text model",
        ),
        spec_entry(
            DesktopPaletteCommand::SelectNextProfile,
            "Select next agent profile",
            None,
            "Select the next available session agent profile",
        ),
        spec_entry(
            DesktopPaletteCommand::CycleThinking,
            "Cycle thinking level",
            None,
            "Cycle the composer thinking override",
        ),
        spec_entry(
            DesktopPaletteCommand::ReviewNextFile,
            "Review next changed file",
            Some("Ctrl/Cmd+P"),
            "Load the next product-authorized changed-file review",
        ),
        spec_entry(
            DesktopPaletteCommand::CopyReviewPath,
            "Copy reviewed path",
            None,
            "Copy the current reviewed project-relative path",
        ),
        spec_entry(
            DesktopPaletteCommand::CopyFileReview,
            "Copy file review",
            None,
            "Copy the current bounded file review",
        ),
        spec_entry(
            DesktopPaletteCommand::OpenExternalEditor,
            "Open review in external editor",
            None,
            "Revalidate and open the current reviewed file in the configured editor",
        ),
        spec_entry(
            DesktopPaletteCommand::RetryRecovery,
            "Retry latest recovery",
            None,
            "Retry the latest authoritative pending recovery",
        ),
        spec_entry(
            DesktopPaletteCommand::MarkRecoveryFailed,
            "Mark latest recovery failed",
            None,
            "Resolve the latest authoritative pending recovery as failed",
        ),
        spec_entry(
            DesktopPaletteCommand::AbortRecovery,
            "Abort latest recovery",
            None,
            "Resolve the latest authoritative pending recovery as aborted",
        ),
        spec_entry(
            DesktopPaletteCommand::ToggleReducedMotion,
            "Toggle reduced motion",
            None,
            "Disable or enable nonessential desktop motion",
        ),
    ]
}

/// The palette rows in the order in which they are shown.
pub fn palette_entries() -> (rows: Vec<DesktopPaletteEntry>)
    ensures
        rows@ == palette_table(),
        rows@.len() == PALETTE_ENTRY_COUNT,
{
    let rows = vec![
        entry(
            DesktopPaletteCommand::NewSession,
            "New session",
            Some("Ctrl/Cmd+N"),
            "Create a new coding-agent session",
        ),
        entry(
            DesktopPaletteCommand::SwitchNextSession,
            "Switch to next session",
            None,
            "Switch to the next product-listed session",
        ),
        entry(
            DesktopPaletteCommand::ToggleSessions,
            "Toggle sessions",
            None,
            "Show or hide the sessions surface",
        ),
        entry(
            DesktopPaletteCommand::ToggleContext,
            "Toggle context",
            Some("Ctrl/Cmd+\\"),
            "Show or hide the context surface",
        ),
        entry(
            DesktopPaletteCommand::FocusSessions,
            "Focus sessions",
            None,
            "Move keyboard focus to the sessions surface",
        ),
        entry(
            DesktopPaletteCommand::FocusConversation,
            "Focus conversation",
            None,
            "Move keyboard focus to the conversation transcript",
        ),
        entry(
            DesktopPaletteCommand::FocusComposer,
            "Focus composer",
            Some("Ctrl/Cmd+L"),
            "Return keyboard focus to the prompt composer",
        ),
        entry(
            DesktopPaletteCommand::FocusContext,
            "Focus context",
            None,
            "Move keyboard focus to the context surface",
        ),
        entry(
            DesktopPaletteCommand::SubmitPrompt,
            "Send prompt",
            Some("Ctrl/Cmd+Enter"),
            "Submit the current composer draft as a new prompt",
        ),
        entry(
            DesktopPaletteCommand::SteerOperation,
            "Steer active operation",
            None,
            "Submit the composer draft as steering input",
        ),
        entry(
            DesktopPaletteCommand::FollowUpOperation,
            "Queue follow-up",
            None,
            "Submit the composer draft as a follow-up",
        ),
        entry(
            DesktopPaletteCommand::AbortOperation,
            "Abort active operation",
            Some("Ctrl/Cmd+Esc"),
            "Request cancellation of the active operation",
        ),
        entry(
            DesktopPaletteCommand::FollowLatest,
            "Jump to latest output",
            Some("End"),
            "Resume follow-latest and jump to the newest conversation block",
        ),
        entry(
            DesktopPaletteCommand::ReloadResources,
            "Reload local resources",
            None,
            "Reload product-owned local models, profiles, skills, and prompts",
        ),
        entry(
            DesktopPaletteCommand::CopyConversation,
            "Copy selected conversation block",
            None,
            "Copy the selected durable conversation block",
        ),
        entry(
            DesktopPaletteCommand::SelectNextModel,
            "Select next model",
            None,
            "Select the next configured text model",
        ),
        entry(
            DesktopPaletteCommand::SelectNextProfile,
            "Select next agent profile",
            None,
            "Select the next available session agent profile",
        ),
        entry(
            DesktopPaletteCommand::CycleThinking,
            "Cycle thinking level",
            None,
            "Cycle the composer thinking override",
        ),
        entry(
            DesktopPaletteCommand::ReviewNextFile,
            "Review next changed file",
            Some("Ctrl/Cmd+P"),
            "Load the next product-authorized changed-file review",
        ),
        entry(
            DesktopPaletteCommand::CopyReviewPath,
            "Copy reviewed path",
            None,
            "Copy the current reviewed project-relative path",
        ),
        entry(
            DesktopPaletteCommand::CopyFileReview,
            "Copy file review",
            None,
            "Copy the current bounded file review",
        ),
        entry(
            DesktopPaletteCommand::OpenExternalEditor,
            "Open review in external editor",
            None,
            "Revalidate and open the current reviewed file in the configured editor",
        ),
        entry(
            DesktopPaletteCommand::RetryRecovery,
            "Retry latest recovery",
            None,
            "Retry the latest authoritative pending recovery",
        ),
        entry(
            DesktopPaletteCommand::MarkRecoveryFailed,
            "Mark latest recovery failed",
            None,
            "Resolve the latest authoritative pending recovery as failed",
        ),
        entry(
            DesktopPaletteCommand::AbortRecovery,
            "Abort latest recovery",
            None,
            "Resolve the latest authoritative pending recovery as aborted",
        ),
        entry(
            DesktopPaletteCommand::ToggleReducedMotion,
            "Toggle reduced motion",
            None,
            "Disable or enable nonessential desktop motion",
        ),
    ];
    assert(rows@ =~= palette_table());
    rows
}

/// The row of the palette that runs a command.
pub open spec fn palette_row(command: DesktopPaletteCommand) -> int {
    match command {
        DesktopPaletteCommand::NewSession => 0,
        DesktopPaletteCommand::SwitchNextSession => 1,
        DesktopPaletteCommand::ToggleSessions => 2,
        DesktopPaletteCommand::ToggleContext => 3,
        DesktopPaletteCommand::FocusSessions => 4,
        DesktopPaletteCommand::FocusConversation => 5,
        DesktopPaletteCommand::FocusComposer => 6,
        DesktopPaletteCommand::FocusContext => 7,
        DesktopPaletteCommand::SubmitPrompt => 8,
        DesktopPaletteCommand::SteerOperation => 9,
        DesktopPaletteCommand::FollowUpOperation => 10,
        DesktopPaletteCommand::AbortOperation => 11,
        DesktopPaletteCommand::FollowLatest => 12,
        DesktopPaletteCommand::ReloadResources => 13,
        DesktopPaletteCommand::CopyConversation => 14,
        DesktopPaletteCommand::SelectNextModel => 15,
        DesktopPaletteCommand::SelectNextProfile => 16,
        DesktopPaletteCommand::CycleThinking => 17,
        DesktopPaletteCommand::ReviewNextFile => 18,
        DesktopPaletteCommand::CopyReviewPath => 19,
        DesktopPaletteCommand::CopyFileReview => 20,
        DesktopPaletteCommand::OpenExternalEditor => 21,
        DesktopPaletteCommand::RetryRecovery => 22,
        DesktopPaletteCommand::MarkRecoveryFailed => 23,
        DesktopPaletteCommand::AbortRecovery => 24,
        DesktopPaletteCommand::ToggleReducedMotion => 25,
    }
}

/// Every command has exactly one palette row, and the command at each row is
/// the one that leads there: no two rows run the same command.
pub proof fn law_palette_routes_unique_commands(first: int, second: int)
    requires
        0 <= first < palette_table().len(),
        0 <= second < palette_table().len(),
        palette_table()[first].command == palette_table()[second].command,
    ensures
        first == second,
        palette_row(palette_table()[first].command) == first,
{
    lemma_palette_rows(first);
    lemma_palette_rows(second);
}

/// Every palette command is offered.
pub proof fn law_palette_offers_every_command(command: DesktopPaletteCommand)
    ensures
        0 <= palette_row(command) < palette_table().len(),
        palette_table()[palette_row(command)].command == command,
{
}

/// Every palette row has a visible label and a spoken one: neither is empty, and
/// neither is made of white space alone.
pub proof fn law_palette_rows_are_labelled(row: int)
    requires
        0 <= row < palette_table().len(),
    ensures
        trimmed(palette_table()[row].label@).len() > 0,
        trimmed(palette_table()[row].semantic_label@).len() > 0,
{
    reveal_strlit("New session");
    reveal_strlit("Create a new coding-agent session");
    reveal_strlit("Switch to next session");
    reveal_strlit("Switch to the next product-listed session");
    reveal_strlit("Toggle sessions");
    reveal_strlit("Show or hide the sessions surface");
    reveal_strlit("Toggle context");
    reveal_strlit("Show or hide the context surface");
    reveal_strlit("Focus sessions");
    reveal_strlit("Move keyboard focus to the sessions surface");
    reveal_strlit("Focus conversation");
    reveal_strlit("Move keyboard focus to the conversation transcript");
    reveal_strlit("Focus composer");
    reveal_strlit("Return keyboard focus to the prompt composer");
    reveal_strlit("Focus context");
    reveal_strlit("Move keyboard focus to the context surface");
    reveal_strlit("Send prompt");
    reveal_strlit("Submit the current composer draft as a new prompt");
    reveal_strlit("Steer active operation");
    reveal_strlit("Submit the composer draft as steering input");
    reveal_strlit("Queue follow-up");
    reveal_strlit("Submit the composer draft as a follow-up");
    reveal_strlit("Abort active operation");
    reveal_strlit("Request cancellation of the active operation");
    reveal_strlit("Jump to latest output");
    reveal_strlit("Resume follow-latest and jump to the newest conversation block");
    reveal_strlit("Reload local resources");
    reveal_strlit("Reload product-owned local models, profiles, skills, and prompts");
    reveal_strlit("Copy selected conversation block");
    reveal_strlit("Copy the selected durable conversation block");
    reveal_strlit("Select next model");
    reveal_strlit("Select the next configured text model");
    reveal_strlit("Select next agent profile");
    reveal_strlit("Select the next available session agent profile");
    reveal_strlit("Cycle thinking level");
    reveal_strlit("Cycle the composer thinking override");
    reveal_strlit("Review next changed file");
    reveal_strlit("Load the next product-authorized changed-file review");
    reveal_strlit("Copy reviewed path");
    reveal_strlit("Copy the current reviewed project-relative path");
    reveal_strlit("Copy file review");
    reveal_strlit("Copy the current bounded file review");
    reveal_strlit("Open review in external editor");
    reveal_strlit("Revalidate and open the current reviewed file in the configured editor");
    reveal_strlit("Retry latest recovery");
    reveal_strlit("Retry the latest authoritative pending recovery");
    reveal_strlit("Mark latest recovery failed");
    reveal_strlit("Resolve the latest authoritative pending recovery as failed");
    reveal_strlit("Abort latest recovery");
    reveal_strlit("Resolve the latest authoritative pending recovery as aborted");
    reveal_strlit("Toggle reduced motion");
    reveal_strlit("Disable or enable nonessential desktop motion");
    lemma_trimmed_keeps_some(palette_table()[row].label@);
    lemma_trimmed_keeps_some(palette_table()[row].semantic_label@);
}

proof fn lemma_palette_rows(row: int)
    requires
        0 <= row < palette_table().len(),
    ensures
        palette_row(palette_table()[row].command) == row,
{
}

/// The command palette: whether it is open, and which row is selected.
#[derive(Debug, Clone, Copy, PartialEq, Eq)]
pub struct DesktopCommandPalette {
    open: bool,
    selected: usize,
}

impl Default for DesktopCommandPalette {
    fn default() -> (palette: Self)
        ensures
            !palette.shown(),
            palette.row() == 0,
    {
        DesktopCommandPalette { open: false, selected: 0 }
    }
}

impl DesktopCommandPalette {
    /// Whether the palette is open.
    pub closed spec fn shown(self) -> bool {
        self.open
    }

    /// The selected row.
    pub closed spec fn row(self) -> int {
        self.selected as int
    }

    #[verifier::type_invariant]
    spec fn selection_is_a_row(self) -> bool {
        self.selected < PALETTE_ENTRY_COUNT
    }

    pub fn is_open(self) -> (open: bool)
        ensures
            open == self.shown(),
    {
        self.open
    }

    pub fn selected(self) -> (row: usize)
        ensures
            row == self.row(),
            row < PALETTE_ENTRY_COUNT,
    {
        proof {
            use_type_invariant(&self);
        }
        self.selected
    }

    /// Opens the palette on its first row.
    pub fn open(&mut self)
        ensures
            final(self).shown(),
            final(self).row() == 0,
    {
        proof {
            use_type_invariant(&*self);
        }
        self.open = true;
        self.selected = 0;
    }

    /// Closes the palette; the selected row stays.
    pub fn close(&mut self)
        ensures
            !final(self).shown(),
            final(self).row() == old(self).row(),
    {
        proof {
            use_type_invariant(&*self);
        }
        self.open = false;
    }

    /// Moves the selection by one row, around the ends; a closed palette keeps
    /// its selection.
    pub fn move_selection(&mut self, reverse: bool)
        ensures
            final(self).shown() == old(self).shown(),
            !old(self).shown() ==> final(self).row() == old(self).row(),
            old(self).shown() ==> final(self).row() == moved_row(old(self).row(), reverse),
    {
        proof {
            use_type_invariant(&*self);
        }
        if !self.open {
            return;
        }
        let row: usize = self.selected;
        let next: usize = if reverse {
            if row == 0 {
                PALETTE_ENTRY_COUNT - 1
            } else {
                row - 1
            }
        } else {
            (row + 1) % PALETTE_ENTRY_COUNT
        };
        self.selected = next;
    }

    /// The command at the selected row of an open palette.
    pub fn selected_command(self) -> (command: Option<DesktopPaletteCommand>)
        ensures
            command is Some <==> self.shown(),
            command is Some ==> command->0 == palette_table()[self.row()].command,
    {
        proof {
            use_type_invariant(&self);
        }
        if self.open {
            let rows = palette_entries();
            Some(rows[self.selected].command)
        } else {
            None
        }
    }
}

/// The row after a move by one, around the ends.
pub open spec fn moved_row(row: int, reverse: bool) -> int {
    if reverse {
        (row - 1) % (PALETTE_ENTRY_COUNT as int)
    } else {
        (row + 1) % (PALETTE_ENTRY_COUNT as int)
    }
}

/// A move and the opposite move give the selection back.
pub proof fn law_palette_moves_undo_each_other(row: int, reverse: bool)
    requires
        0 <= row < PALETTE_ENTRY_COUNT,
    ensures
        moved_row(moved_row(row, reverse), !reverse) == row,
        0 <= moved_row(row, reverse) < PALETTE_ENTRY_COUNT,
{
}

/// A keystroke, what it dispatches, and where it applies.
#[derive(Debug, Clone, Copy, PartialEq, Eq)]
pub struct KeyBindingSpec {
    pub keystroke: &'static str,
    pub action: DesktopAction,
    pub context: KeyContext,
}

/// A keystroke and the name of the context in which it is bound.
#[derive(Debug, Clone, Copy, PartialEq, Eq)]
pub struct BindingSpec {
    pub keystroke: &'static str,
    pub context: &'static str,
}

/// Names one binding.
pub fn binding(keystroke: &'static str, context: &'static str) -> (spec: BindingSpec)
    ensures
        spec.keystroke == keystroke,
        spec.context == context,
{
    BindingSpec { keystroke, context }
}

fn bound(keystroke: &'static str, action: DesktopAction, context: KeyContext) -> (row:
    KeyBindingSpec)
    ensures
        row == spec_bound(keystroke, action, context),
{
    KeyBindingSpec { keystroke, action, context }
}

/// The binding that holds the given parts.
pub open spec fn spec_bound(
    keystroke: &'static str,
    action: DesktopAction,
    context: KeyContext,
) -> KeyBindingSpec {
    KeyBindingSpec { keystroke, action, context }
}

/// All key bindings of the desktop.
pub open spec fn binding_table() -> Seq<KeyBindingSpec> {
    seq![
        spec_bound("ctrl-k", DesktopAction::OpenCommandPalette, KeyContext::Root),
        spec_bound("cmd-k", DesktopAction::OpenCommandPalette, KeyContext::Root),
        spec_bound("ctrl-p", DesktopAction::OpenFileSurface, KeyContext::Root),
        spec_bound("cmd-p", DesktopAction::OpenFileSurface, KeyContext::Root),
        spec_bound("ctrl-n", DesktopAction::NewSession, KeyContext::Root),
        spec_bound("cmd-n", DesktopAction::NewSession, KeyContext::Root),
        spec_bound("ctrl-l", DesktopAction::FocusComposer, KeyContext::Root),
        spec_bound("cmd-l", DesktopAction::FocusComposer, KeyContext::Root),
        spec_bound("ctrl-enter", DesktopAction::SubmitComposer, KeyContext::Root),
        spec_bound("cmd-enter", DesktopAction::SubmitComposer, KeyContext::Root),
        spec_bound("ctrl-escape", DesktopAction::AbortActiveOperation, KeyContext::Root),
        spec_bound("cmd-escape", DesktopAction::AbortActiveOperation, KeyContext::Root),
        spec_bound("escape", DesktopAction::EscapeHierarchy, KeyContext::Root),
        spec_bound("end", DesktopAction::FollowLatestOutput, KeyContext::Root),
        spec_bound("ctrl-\\", DesktopAction::ToggleContextPanel, KeyContext::Root),
        spec_bound("cmd-\\", DesktopAction::ToggleContextPanel, KeyContext::Root),
        spec_bound("ctrl-tab", DesktopAction::FocusNextRegion, KeyContext::Root),
        spec_bound("ctrl-shift-tab", DesktopAction::FocusPreviousRegion, KeyContext::Root),
        spec_bound("cmd-tab", DesktopAction::FocusNextRegion, KeyContext::Root),
        spec_bound("cmd-shift-tab", DesktopAction::FocusPreviousRegion, KeyContext::Root),
        spec_bound("up", DesktopAction::SelectPreviousConversation, KeyContext::Conversation),
        spec_bound("down", DesktopAction::SelectNextConversation, KeyContext::Conversation),
        spec_bound("ctrl-c", DesktopAction::CopySelectedConversation, KeyContext::Conversation),
        spec_bound("cmd-c", DesktopAction::CopySelectedConversation, KeyContext::Conversation),
        spec_bound("space", DesktopAction::ToggleSelectedConversationDetails, KeyContext::Conversation),
        spec_bound("up", DesktopAction::PalettePrevious, KeyContext::Palette),
        spec_bound("shift-tab", DesktopAction::PalettePrevious, KeyContext::Palette),
        spec_bound("down", DesktopAction::PaletteNext, KeyContext::Palette),
        spec_bound("tab", DesktopAction::PaletteNext, KeyContext::Palette),
        spec_bound("enter", DesktopAction::PaletteConfirm, KeyContext::Palette),
        spec_bound("escape", DesktopAction::EscapeHierarchy, KeyContext::Palette),
        spec_bound("1", DesktopAction::AuthorizationDeny, KeyContext::Authorization),
        spec_bound("2", DesktopAction::AuthorizationAllowOnce, KeyContext::Authorization),
        spec_bound("3", DesktopAction::AuthorizationAllowForOperation, KeyContext::Authorization),
        spec_bound("tab", DesktopAction::TrapOverlayFocus, KeyContext::Authorization),
        spec_bound("shift-tab", DesktopAction::TrapOverlayFocus, KeyContext::Authorization),
        spec_bound("escape", DesktopAction::EscapeHierarchy, KeyContext::Authorization),
        spec_bound("tab", DesktopAction::TrapOverlayFocus, KeyContext::NarrowSessions),
        spec_bound("shift-tab", DesktopAction::TrapOverlayFocus, KeyContext::NarrowSessions),
        spec_bound("escape", DesktopAction::EscapeHierarchy, KeyContext::NarrowSessions),
        spec_bound("tab", DesktopAction::TrapOverlayFocus, KeyContext::NarrowContext),
        spec_bound("shift-tab", DesktopAction::TrapOverlayFocus, KeyContext::NarrowContext),
        spec_bound("escape", DesktopAction::EscapeHierarchy, KeyContext::NarrowContext),
    ]
}

/// All key bindings of the desktop.
pub fn bind_keys() -> (bindings: Vec<KeyBindingSpec>)
    ensures
        bindings@ == binding_table(),
{
    let bindings = vec![
        bound("ctrl-k", DesktopAction::OpenCommandPalette, KeyContext::Root),
        bound("cmd-k", DesktopAction::OpenCommandPalette, KeyContext::Root),
        bound("ctrl-p", DesktopAction::OpenFileSurface, KeyContext::Root),
        bound("cmd-p", DesktopAction::OpenFileSurface, KeyContext::Root),
        bound("ctrl-n", DesktopAction::NewSession, KeyContext::Root),
        bound("cmd-n", DesktopAction::NewSession, KeyContext::Root),
        bound("ctrl-l", DesktopAction::FocusComposer, KeyContext::Root),
        bound("cmd-l", DesktopAction::FocusComposer, KeyContext::Root),
        bound("ctrl-enter", DesktopAction::SubmitComposer, KeyContext::Root),
        bound("cmd-enter", DesktopAction::SubmitComposer, KeyContext::Root),
        bound("ctrl-escape", DesktopAction::AbortActiveOperation, KeyContext::Root),
        bound("cmd-escape", DesktopAction::AbortActiveOperation, KeyContext::Root),
        bound("escape", DesktopAction::EscapeHierarchy, KeyContext::Root),
        bound("end", DesktopAction::FollowLatestOutput, KeyContext::Root),
        bound("ctrl-\\", DesktopAction::ToggleContextPanel, KeyContext::Root),
        bound("cmd-\\", DesktopAction::ToggleContextPanel, KeyContext::Root),
        bound("ctrl-tab", DesktopAction::FocusNextRegion, KeyContext::Root),
        bound("ctrl-shift-tab", DesktopAction::FocusPreviousRegion, KeyContext::Root),
        bound("cmd-tab", DesktopAction::FocusNextRegion, KeyContext::Root),
        bound("cmd-shift-tab", DesktopAction::FocusPreviousRegion, KeyContext::Root),
        bound("up", DesktopAction::SelectPreviousConversation, KeyContext::Conversation),
        bound("down", DesktopAction::SelectNextConversation, KeyContext::Conversation),
        bound("ctrl-c", DesktopAction::CopySelectedConversation, KeyContext::Conversation),
        bound("cmd-c", DesktopAction::CopySelectedConversation, KeyContext::Conversation),
        bound("space", DesktopAction::ToggleSelectedConversationDetails, KeyContext::Conversation),
        bound("up", DesktopAction::PalettePrevious, KeyContext::Palette),
        bound("shift-tab", DesktopAction::PalettePrevious, KeyContext::Palette),
        bound("down", DesktopAction::PaletteNext, KeyContext::Palette),
        bound("tab", DesktopAction::PaletteNext, KeyContext::Palette),
        bound("enter", DesktopAction::PaletteConfirm, KeyContext::Palette),
        bound("escape", DesktopAction::EscapeHierarchy, KeyContext::Palette),
        bound("1", DesktopAction::AuthorizationDeny, KeyContext::Authorization),
        bound("2", DesktopAction::AuthorizationAllowOnce, KeyContext::Authorization),
        bound("3", DesktopAction::AuthorizationAllowForOperation, KeyContext::Authorization),
        bound("tab", DesktopAction::TrapOverlayFocus, KeyContext::Authorization),
        bound("shift-tab", DesktopAction::TrapOverlayFocus, KeyContext::Authorization),
        bound("escape", DesktopAction::EscapeHierarchy, KeyContext::Authorization),
        bound("tab", DesktopAction::TrapOverlayFocus, KeyContext::NarrowSessions),
        bound("shift-tab", DesktopAction::TrapOverlayFocus, KeyContext::NarrowSessions),
        bound("escape", DesktopAction::EscapeHierarchy, KeyContext::NarrowSessions),
        bound("tab", DesktopAction::TrapOverlayFocus, KeyContext::NarrowContext),
        bound("shift-tab", DesktopAction::TrapOverlayFocus, KeyContext::NarrowContext),
        bound("escape", DesktopAction::EscapeHierarchy, KeyContext::NarrowContext),
    ];
    assert(bindings@ =~= binding_table());
    bindings
}

/// The bindings that apply everywhere on the desktop.
pub open spec fn root_rows(bindings: Seq<KeyBindingSpec>) -> Seq<KeyBindingSpec> {
    bindings.filter(|row: KeyBindingSpec| row.context == KeyContext::Root)
}

/// Names the bindings that apply everywhere on the desktop.
pub fn root_bindings() -> (named: Vec<BindingSpec>)
    ensures
        named@.len() == root_rows(binding_table()).len(),
        forall|i: int|
            0 <= i < named@.len() ==> (#[trigger] named@[i]).keystroke == root_rows(
                binding_table(),
            )[i].keystroke && named@[i].context@ == KeyContext::Root.spec_name(),
{
    let all = bind_keys();
    let mut named: Vec<BindingSpec> = Vec::new();
    let mut index: usize = 0;
    assert(root_rows(all@.take(0)) =~= Seq::<KeyBindingSpec>::empty()) by {
        reveal(Seq::filter);
    }
    while index < all.len()
        invariant
            index <= all@.len(),
            named@.len() == root_rows(all@.take(index as int)).len(),
            forall|i: int|
                0 <= i < named@.len() ==> (#[trigger] named@[i]).keystroke == root_rows(
                    all@.take(index as int),
                )[i].keystroke && named@[i].context@ == KeyContext::Root.spec_name(),
        decreases all@.len() - index,
    {
        let row = all[index];
        proof {
            reveal(Seq::filter);
            assert(all@.take(index + 1).drop_last() =~= all@.take(index as int));
            assert(all@.take(index + 1).last() == row);
        }
        if row.context == KeyContext::Root {
            named.push(binding(row.keystroke, row.context.name()));
        }
        index = index + 1;
    }
    assert(all@.take(all@.len() as int) =~= all@);
    named
}

/// The place of a binding in the table, found from its context and from the
/// length and the last character of its keystroke.
spec fn slot(keystroke: Seq<char>, context: KeyContext) -> int {
    let length = keystroke.len();
    let last = keystroke.last();
    match context {
        KeyContext::Root => {
            if length == 6 && last == 'k' {
                0
            } else if length == 5 && last == 'k' {
                1
            } else if length == 6 && last == 'p' {
                2
            } else if length == 5 && last == 'p' {
                3
            } else if length == 6 && last == 'n' {
                4
            } else if length == 5 && last == 'n' {
                5
            } else if length == 6 && last == 'l' {
                6
            } else if length == 5 && last == 'l' {
                7
            } else if length == 10 && last == 'r' {
                8
            } else if length == 9 && last == 'r' {
                9
            } else if length == 11 && last == 'e' {
                10
            } else if length == 10 && last == 'e' {
                11
            } else if length == 6 && last == 'e' {
                12
            } else if length == 3 && last == 'd' {
                13
            } else if length == 6 && last == '\\' {
                14
            } else if length == 5 && last == '\\' {
                15
            } else if length == 8 && last == 'b' {
                16
            } else if length == 14 && last == 'b' {
                17
            } else if length == 7 && last == 'b' {
                18
            } else if length == 13 && last == 'b' {
                19
            } else {
                -1
            }
        },
        KeyContext::Conversation => {
            if length == 2 && last == 'p' {
                20
            } else if length == 4 && last == 'n' {
                21
            } else if length == 6 && last == 'c' {
                22
            } else if length == 5 && last == 'c' {
                23
            } else if length == 5 && last == 'e' {
                24
            } else {
                -1
            }
        },
        KeyContext::Palette => {
            if length == 2 && last == 'p' {
                25
            } else if length == 9 && last == 'b' {
                26
            } else if length == 4 && last == 'n' {
                27
            } else if length == 3 && last == 'b' {
                28
            } else if length == 5 && last == 'r' {
                29
            } else if length == 6 && last == 'e' {
                30
            } else {
                -1
            }
        },
        KeyContext::Authorization => {
            if length == 1 && last == '1' {
                31
            } else if length == 1 && last == '2' {
                32
            } else if length == 1 && last == '3' {
                33
            } else if length == 3 && last == 'b' {
                34
            } else if length == 9 && last == 'b' {
                35
            } else if length == 6 && last == 'e' {
                36
            } else {
                -1
            }
        },
        KeyContext::NarrowSessions => {
            if length == 3 && last == 'b' {
                37
            } else if length == 9 && last == 'b' {
                38
            } else if length == 6 && last == 'e' {
                39
            } else {
                -1
            }
        },
        KeyContext::NarrowContext => {
            if length == 3 && last == 'b' {
                40
            } else if length == 9 && last == 'b' {
                41
            } else if length == 6 && last == 'e' {
                42
            } else {
                -1
            }
        },
    }
}

proof fn lemma_binding_slots(row: int)
    requires
        0 <= row < binding_table().len(),
    ensures
        slot(binding_table()[row].keystroke@, binding_table()[row].context) == row,
{
    reveal_strlit("ctrl-k");
    reveal_strlit("cmd-k");
    reveal_strlit("ctrl-p");
    reveal_strlit("cmd-p");
    reveal_strlit("ctrl-n");
    reveal_strlit("cmd-n");
    reveal_strlit("ctrl-l");
    reveal_strlit("cmd-l");
    reveal_strlit("ctrl-enter");
    reveal_strlit("cmd-enter");
    reveal_strlit("ctrl-escape");
    reveal_strlit("cmd-escape");
    reveal_strlit("escape");
    reveal_strlit("end");
    reveal_strlit("ctrl-\\");
    reveal_strlit("cmd-\\");
    reveal_strlit("ctrl-tab");
    reveal_strlit("ctrl-shift-tab");
    reveal_strlit("cmd-tab");
    reveal_strlit("cmd-shift-tab");
    reveal_strlit("up");
    reveal_strlit("down");
    reveal_strlit("ctrl-c");
    reveal_strlit("cmd-c");
    reveal_strlit("space");
    reveal_strlit("shift-tab");
    reveal_strlit("tab");
    reveal_strlit("enter");
    reveal_strlit("1");
    reveal_strlit("2");
    reveal_strlit("3");
}

/// No keystroke is bound twice in one context.
pub proof fn law_bindings_have_no_contextual_conflicts(first: int, second: int)
    requires
        0 <= first < binding_table().len(),
        0 <= second < binding_table().len(),
        binding_table()[first].context == binding_table()[second].context,
        binding_table()[first].keystroke@ == binding_table()[second].keystroke@,
    ensures
        first == second,
{
    lemma_binding_slots(first);
    lemma_binding_slots(second);
}

/// The words of a command in the palette: what is shown, the keys that run it too, and
/// what is spoken.
pub open spec fn palette_words(command: DesktopPaletteCommand) -> (
    Seq<char>,
    Option<Seq<char>>,
    Seq<char>,
) {
    match command {
        DesktopPaletteCommand::NewSession => ("New session"@, Some("Ctrl/Cmd+N"@), "Create a new coding-agent session"@),
        DesktopPaletteCommand::SwitchNextSession => ("Switch to next session"@, None, "Switch to the next product-listed session"@),
        DesktopPaletteCommand::ToggleSessions => ("Toggle sessions"@, None, "Show or hide the sessions surface"@),
        DesktopPaletteCommand::ToggleContext => ("Toggle context"@, Some("Ctrl/Cmd+\\"@), "Show or hide the context surface"@),
        DesktopPaletteCommand::FocusSessions => ("Focus sessions"@, None, "Move keyboard focus to the sessions surface"@),
        DesktopPaletteCommand::FocusConversation => ("Focus conversation"@, None, "Move keyboard focus to the conversation transcript"@),
        DesktopPaletteCommand::FocusComposer => ("Focus composer"@, Some("Ctrl/Cmd+L"@), "Return keyboard focus to the prompt composer"@),
        DesktopPaletteCommand::FocusContext => ("Focus context"@, None, "Move keyboard focus to the context surface"@),
        DesktopPaletteCommand::SubmitPrompt => ("Send prompt"@, Some("Ctrl/Cmd+Enter"@), "Submit the current composer draft as a new prompt"@),
        DesktopPaletteCommand::SteerOperation => ("Steer active operation"@, None, "Submit the composer draft as steering input"@),
        DesktopPaletteCommand::FollowUpOperation => ("Queue follow-up"@, None, "Submit the composer draft as a follow-up"@),
        DesktopPaletteCommand::AbortOperation => ("Abort active operation"@, Some("Ctrl/Cmd+Esc"@), "Request cancellation of the active operation"@),
        DesktopPaletteCommand::FollowLatest => ("Jump to latest output"@, Some("End"@), "Resume follow-latest and jump to the newest conversation block"@),
        DesktopPaletteCommand::ReloadResources => ("Reload local resources"@, None, "Reload product-owned local models, profiles, skills, and prompts"@),
        DesktopPaletteCommand::CopyConversation => ("Copy selected conversation block"@, None, "Copy the selected durable conversation block"@),
        DesktopPaletteCommand::SelectNextModel => ("Select next model"@, None, "Select the next configured text model"@),
        DesktopPaletteCommand::SelectNextProfile => ("Select next agent profile"@, None, "Select the next available session agent profile"@),
        DesktopPaletteCommand::CycleThinking => ("Cycle thinking level"@, None, "Cycle the composer thinking override"@),
        DesktopPaletteCommand::ReviewNextFile => ("Review next changed file"@, Some("Ctrl/Cmd+P"@), "Load the next product-authorized changed-file review"@),
        DesktopPaletteCommand::CopyReviewPath => ("Copy reviewed path"@, None, "Copy the current reviewed project-relative path"@),
        DesktopPaletteCommand::CopyFileReview => ("Copy file review"@, None, "Copy the current bounded file review"@),
        DesktopPaletteCommand::OpenExternalEditor => ("Open review in external editor"@, None, "Revalidate and open the current reviewed file in the configured editor"@),
        DesktopPaletteCommand::RetryRecovery => ("Retry latest recovery"@, None, "Retry the latest authoritative pending recovery"@),
        DesktopPaletteCommand::MarkRecoveryFailed => ("Mark latest recovery failed"@, None, "Resolve the latest authoritative pending recovery as failed"@),
        DesktopPaletteCommand::AbortRecovery => ("Abort latest recovery"@, None, "Resolve the latest authoritative pending recovery as aborted"@),
        DesktopPaletteCommand::ToggleReducedMotion => ("Toggle reduced motion"@, None, "Disable or enable nonessential desktop motion"@),
    }
}

/// Every command is offered in its own words, with its own keys.
pub proof fn law_commands_are_offered_in_their_words(row: int)
    requires
        0 <= row < palette_table().len(),
    ensures
        ({
            let entry = palette_table()[row];
            let words = palette_words(entry.command);
            &&& entry.label@ == words.0
            &&& entry.shortcut is Some <==> words.1 is Some
            &&& entry.shortcut is Some ==> entry.shortcut->0@ == words.1->0
            &&& entry.semantic_label@ == words.2
        }),
{
}

/// The selection moves by one row, down or up, and round at the ends.
pub proof fn law_palette_selection_moves_by_one(row: int)
    requires
        0 <= row < 26,
    ensures
        PALETTE_ENTRY_COUNT == 26,
        palette_table().len() == 26,
        row < 25 ==> moved_row(row, false) == row + 1,
        row > 0 ==> moved_row(row, true) == row - 1,
        moved_row(25, false) == 0,
        moved_row(0, true) == 25,
{
}

/// An action is bound only to its own keys, in its own places: no other key runs it.
pub proof fn law_actions_have_their_own_keys(row: int)
    requires
        0 <= row < binding_table().len(),
    ensures
        ({
            let bound = binding_table()[row];
            let keys = bound.keystroke@;
            let place = bound.context;
            &&& bound.action is OpenCommandPalette ==> (keys == "ctrl-k"@ && place is Root) || (keys == "cmd-k"@ && place is Root)
            &&& bound.action is OpenFileSurface ==> (keys == "ctrl-p"@ && place is Root) || (keys == "cmd-p"@ && place is Root)
            &&& bound.action is NewSession ==> (keys == "ctrl-n"@ && place is Root) || (keys == "cmd-n"@ && place is Root)
            &&& bound.action is FocusComposer ==> (keys == "ctrl-l"@ && place is Root) || (keys == "cmd-l"@ && place is Root)
            &&& bound.action is SubmitComposer ==> (keys == "ctrl-enter"@ && place is Root) || (keys == "cmd-enter"@ && place is Root)
            &&& bound.action is AbortActiveOperation ==> (keys == "ctrl-escape"@ && place is Root) || (keys == "cmd-escape"@ && place is Root)
            &&& bound.action is EscapeHierarchy ==> (keys == "escape"@ && place is Root) || (keys == "escape"@ && place is Palette) || (keys == "escape"@ && place is Authorization) || (keys == "escape"@ && place is NarrowSessions) || (keys == "escape"@ && place is NarrowContext)
            &&& bound.action is FollowLatestOutput ==> (keys == "end"@ && place is Root)
            &&& bound.action is ToggleContextPanel ==> (keys == "ctrl-\\"@ && place is Root) || (keys == "cmd-\\"@ && place is Root)
            &&& bound.action is FocusNextRegion ==> (keys == "ctrl-tab"@ && place is Root) || (keys == "cmd-tab"@ && place is Root)
            &&& bound.action is FocusPreviousRegion ==> (keys == "ctrl-shift-tab"@ && place is Root) || (keys == "cmd-shift-tab"@ && place is Root)
            &&& bound.action is SelectPreviousConversation ==> (keys == "up"@ && place is Conversation)
            &&& bound.action is SelectNextConversation ==> (keys == "down"@ && place is Conversation)
            &&& bound.action is CopySelectedConversation ==> (keys == "ctrl-c"@ && place is Conversation) || (keys == "cmd-c"@ && place is Conversation)
            &&& bound.action is ToggleSelectedConversationDetails ==> (keys == "space"@ && place is Conversation)
            &&& bound.action is PalettePrevious ==> (keys == "up"@ && place is Palette) || (keys == "shift-tab"@ && place is Palette)
            &&& bound.action is PaletteNext ==> (keys == "down"@ && place is Palette) || (keys == "tab"@ && place is Palette)
            &&& bound.action is PaletteConfirm ==> (keys == "enter"@ && place is Palette)
            &&& bound.action is AuthorizationDeny ==> (keys == "1"@ && place is Authorization)
            &&& bound.action is AuthorizationAllowOnce ==> (keys == "2"@ && place is Authorization)
            &&& bound.action is AuthorizationAllowForOperation ==> (keys == "3"@ && place is Authorization)
            &&& bound.action is TrapOverlayFocus ==> (keys == "tab"@ && place is Authorization) || (keys == "shift-tab"@ && place is Authorization) || (keys == "tab"@ && place is NarrowSessions) || (keys == "shift-tab"@ && place is NarrowSessions) || (keys == "tab"@ && place is NarrowContext) || (keys == "shift-tab"@ && place is NarrowContext)
        }),
{
}

/// Every action can be reached by its keys.
pub proof fn law_keys_reach_their_actions()
    ensures
        binding_table().contains(spec_bound("ctrl-k", DesktopAction::OpenCommandPalette, KeyContext::Root)),
        binding_table().contains(spec_bound("cmd-k", DesktopAction::OpenCommandPalette, KeyContext::Root)),
        binding_table().contains(spec_bound("ctrl-p", DesktopAction::OpenFileSurface, KeyContext::Root)),
        binding_table().contains(spec_bound("cmd-p", DesktopAction::OpenFileSurface, KeyContext::Root)),
        binding_table().contains(spec_bound("ctrl-n", DesktopAction::NewSession, KeyContext::Root)),
        binding_table().contains(spec_bound("cmd-n", DesktopAction::NewSession, KeyContext::Root)),
        binding_table().contains(spec_bound("ctrl-l", DesktopAction::FocusComposer, KeyContext::Root)),
        binding_table().contains(spec_bound("cmd-l", DesktopAction::FocusComposer, KeyContext::Root)),
        binding_table().contains(spec_bound("ctrl-enter", DesktopAction::SubmitComposer, KeyContext::Root)),
        binding_table().contains(spec_bound("cmd-enter", DesktopAction::SubmitComposer, KeyContext::Root)),
        binding_table().contains(spec_bound("ctrl-escape", DesktopAction::AbortActiveOperation, KeyContext::Root)),
        binding_table().contains(spec_bound("cmd-escape", DesktopAction::AbortActiveOperation, KeyContext::Root)),
        binding_table().contains(spec_bound("escape", DesktopAction::EscapeHierarchy, KeyContext::Root)),
        binding_table().contains(spec_bound("end", DesktopAction::FollowLatestOutput, KeyContext::Root)),
        binding_table().contains(spec_bound("ctrl-\\", DesktopAction::ToggleContextPanel, KeyContext::Root)),
        binding_table().contains(spec_bound("cmd-\\", DesktopAction::ToggleContextPanel, KeyContext::Root)),
        binding_table().contains(spec_bound("ctrl-tab", DesktopAction::FocusNextRegion, KeyContext::Root)),
        binding_table().contains(spec_bound("ctrl-shift-tab", DesktopAction::FocusPreviousRegion, KeyContext::Root)),
        binding_table().contains(spec_bound("cmd-tab", DesktopAction::FocusNextRegion, KeyContext::Root)),
        binding_table().contains(spec_bound("cmd-shift-tab", DesktopAction::FocusPreviousRegion, KeyContext::Root)),
        binding_table().contains(spec_bound("up", DesktopAction::SelectPreviousConversation, KeyContext::Conversation)),
        binding_table().contains(spec_bound("down", DesktopAction::SelectNextConversation, KeyContext::Conversation)),
        binding_table().contains(spec_bound("ctrl-c", DesktopAction::CopySelectedConversation, KeyContext::Conversation)),
        binding_table().contains(spec_bound("cmd-c", DesktopAction::CopySelectedConversation, KeyContext::Conversation)),
        binding_table().contains(spec_bound("space", DesktopAction::ToggleSelectedConversationDetails, KeyContext::Conversation)),
        binding_table().contains(spec_bound("up", DesktopAction::PalettePrevious, KeyContext::Palette)),
        binding_table().contains(spec_bound("shift-tab", DesktopAction::PalettePrevious, KeyContext::Palette)),
        binding_table().contains(spec_bound("down", DesktopAction::PaletteNext, KeyContext::Palette)),
        binding_table().contains(spec_bound("tab", DesktopAction::PaletteNext, KeyContext::Palette)),
        binding_table().contains(spec_bound("enter", DesktopAction::PaletteConfirm, KeyContext::Palette)),
        binding_table().contains(spec_bound("escape", DesktopAction::EscapeHierarchy, KeyContext::Palette)),
        binding_table().contains(spec_bound("1", DesktopAction::AuthorizationDeny, KeyContext::Authorization)),
        binding_table().contains(spec_bound("2", DesktopAction::AuthorizationAllowOnce, KeyContext::Authorization)),
        binding_table().contains(spec_bound("3", DesktopAction::AuthorizationAllowForOperation, KeyContext::Authorization)),
        binding_table().contains(spec_bound("tab", DesktopAction::TrapOverlayFocus, KeyContext::Authorization)),
        binding_table().contains(spec_bound("shift-tab", DesktopAction::TrapOverlayFocus, KeyContext::Authorization)),
        binding_table().contains(spec_bound("escape", DesktopAction::EscapeHierarchy, KeyContext::Authorization)),
        binding_table().contains(spec_bound("tab", DesktopAction::TrapOverlayFocus, KeyContext::NarrowSessions)),
        binding_table().contains(spec_bound("shift-tab", DesktopAction::TrapOverlayFocus, KeyContext::NarrowSessions)),
        binding_table().contains(spec_bound("escape", DesktopAction::EscapeHierarchy, KeyContext::NarrowSessions)),
        binding_table().contains(spec_bound("tab", DesktopAction::TrapOverlayFocus, KeyContext::NarrowContext)),
        binding_table().contains(spec_bound("shift-tab", DesktopAction::TrapOverlayFocus, KeyContext::NarrowContext)),
        binding_table().contains(spec_bound("escape", DesktopAction::EscapeHierarchy, KeyContext::NarrowContext)),
        binding_table().len() == 43,
{
    let table = binding_table();
    assert(table.contains(table[0]));
    assert(table.contains(table[1]));
    assert(table.contains(table[2]));
    assert(table.contains(table[3]));
    assert(table.contains(table[4]));
    assert(table.contains(table[5]));
    assert(table.contains(table[6]));
    assert(table.contains(table[7]));
    assert(table.contains(table[8]));
    assert(table.contains(table[9]));
    assert(table.contains(table[10]));
    assert(table.contains(table[11]));
    assert(table.contains(table[12]));
    assert(table.contains(table[13]));
    assert(table.contains(table[14]));
    assert(table.contains(table[15]));
    assert(table.contains(table[16]));
    assert(table.contains(table[17]));
    assert(table.contains(table[18]));
    assert(table.contains(table[19]));
    assert(table.contains(table[20]));
    assert(table.contains(table[21]));
    assert(table.contains(table[22]));
    assert(table.contains(table[23]));
    assert(table.contains(table[24]));
    assert(table.contains(table[25]));
    assert(table.contains(table[26]));
    assert(table.contains(table[27]));
    assert(table.contains(table[28]));
    assert(table.contains(table[29]));
    assert(table.contains(table[30]));
    assert(table.contains(table[31]));
    assert(table.contains(table[32]));
    assert(table.contains(table[33]));
    assert(table.contains(table[34]));
    assert(table.contains(table[35]));
    assert(table.contains(table[36]));
    assert(table.contains(table[37]));
    assert(table.contains(table[38]));
    assert(table.contains(table[39]));
    assert(table.contains(table[40]));
    assert(table.contains(table[41]));
    assert(table.contains(table[42]));
}

/// Keys are bound in the places that the views name.
pub proof fn law_places_go_by_their_names()
    ensures
        KeyContext::Root.spec_name() == "PiDesktop"@,
        KeyContext::Conversation.spec_name() == "PiDesktopConversation"@,
        KeyContext::Palette.spec_name() == "PiDesktopPalette"@,
        KeyContext::Authorization.spec_name() == "PiDesktopAuthorization"@,
        KeyContext::NarrowSessions.spec_name() == "PiDesktopNarrowSessions"@,
        KeyContext::NarrowContext.spec_name() == "PiDesktopNarrowContext"@,
{
}

} // verus!
